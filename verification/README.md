# edon

The control logic of an embedded Node.js runtime, verified with Verus.

`src/` decides; it performs no effect. Each function returns what is to be done as a value, and
takes the outcome as an argument of the function that comes next.

- `process`: the one Node.js instance of a process, and the count of contexts that use it.
- `nodejs`, `nodejs_worker`: the handles to the main thread and to worker threads.
- `events`, `call`: the messages that handles send, and what their fate means for the caller.
- `deferred`: promises that are settled from any thread through a threadsafe function.
- `lifecycle`, `deferred_laws`: what holds over the whole life of a process and of a deferred.
- `host`: the channel ends and callbacks of the embedding program, which pass through unopened.
- `error`, `options`: errors, status checks and the options of an instance.

`app/` performs the effects, over the channels of the standard library and over Node-API.
