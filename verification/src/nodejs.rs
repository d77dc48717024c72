//! The handle to the main Node.js thread.

use vstd::prelude::*;
use crate::call::{Post, Request, Stop};
use crate::error::{Error, ErrorView};
use crate::events::{EvalCallback, ExecCallback, MainEventView, NodejsMainEvent, TaskView};
use crate::host::Host;
use crate::nodejs_worker::{NodejsWorker, WorkerEnds, WorkerStart};
use crate::options::NodejsOptions;
use crate::process::{is_copy, outcome_view, Process, ProcessView};

verus! {

/// A handle to the main Node.js thread of a process.
pub struct Nodejs<H: Host> {
    tx_main: H::MainSender,
}

/// How loading Node.js goes on.
pub enum Load<H: Host, P> {
    /// This load starts the instance: see [`LoadLibrary`].
    Start(LoadLibrary<P>),
    /// Another load is starting the instance: see [`WaitingLoad`].
    Wait(WaitingLoad<P>),
    /// An earlier attempt to start the instance decides.
    Loaded(Result<Nodejs<H>, Error>),
}

/// A library has to be loaded, whose path is [`LoadLibrary::path`]. [`LoadLibrary::loaded`] comes
/// next.
pub struct LoadLibrary<P> {
    path: P,
    args: Vec<String>,
}

/// The instance has to be started with the arguments [`StartInstance::args`]. If that ends, with
/// success or failure, [`Nodejs::started`] comes next. If it never does, [`Nodejs::abandoned`]
/// comes next.
pub struct StartInstance {
    args: Vec<String>,
}

/// A load that has to wait until the attempt to start the instance that is under way has ended or
/// was abandoned. [`Nodejs::resume`] comes next.
pub struct WaitingLoad<P> {
    path: P,
    args: Vec<String>,
}

/// A native module that has to be registered under `module_name`.
pub struct Registration<F> {
    pub module_name: String,
    pub register_function: F,
}

impl<P> LoadLibrary<P> {
    /// The path of the library.
    pub closed spec fn library(&self) -> P {
        self.path
    }

    /// The arguments of the instance.
    pub closed spec fn argv(&self) -> Vec<String> {
        self.args
    }

    /// The path of the library.
    pub fn path(&self) -> (path: &P)
        ensures
            *path == self.library(),
    {
        &self.path
    }

    /// Goes on to start the instance. Whether the library could be loaded makes no difference: a
    /// library that is missing shows when the instance is started.
    pub fn loaded(self, success: bool) -> (step: StartInstance)
        ensures
            step.argv() == self.argv(),
    {
        StartInstance { args: self.args }
    }
}

impl StartInstance {
    /// The arguments of the instance.
    pub closed spec fn argv(&self) -> Vec<String> {
        self.args
    }

    /// The arguments of the instance.
    pub fn args(&self) -> (args: &Vec<String>)
        ensures
            *args == self.argv(),
    {
        &self.args
    }
}

impl<P> WaitingLoad<P> {
    /// The path of the library.
    pub closed spec fn library(&self) -> P {
        self.path
    }

    /// The arguments of the instance.
    pub closed spec fn argv(&self) -> Vec<String> {
        self.args
    }
}

/// Whether `loaded` is a handle to the instance, or the error that starting it ended with.
pub open spec fn hands_out<H: Host>(
    instance: Result<H::MainSender, ErrorView>,
    loaded: Result<Nodejs<H>, Error>,
) -> bool {
    is_copy(
        instance,
        match loaded {
            Ok(nodejs) => Ok(nodejs.tx_main()),
            Err(error) => Err(error),
        },
    )
}

/// Whether `load` is how a load of the library at `path` with `args` goes on in `process`: it
/// starts the instance if nobody has, it waits if somebody else is doing so, and otherwise the
/// outcome of the start decides.
pub open spec fn goes_on<H: Host, P>(
    process: ProcessView<H>,
    path: P,
    args: Seq<String>,
    load: Load<H, P>,
) -> bool {
    match process.instance {
        None => if process.starting {
            load matches Load::Wait(step) && step.library() == path && step.argv()@ == args
        } else {
            load matches Load::Start(step) && step.library() == path && step.argv()@ == args
        },
        Some(instance) => load matches Load::Loaded(loaded) && hands_out(instance, loaded),
    }
}

impl<H: Host> Nodejs<H> {
    /// The channel to the main thread.
    pub closed spec fn tx_main(&self) -> H::MainSender {
        self.tx_main
    }

    /// Loads Node.js from the libnode at `path` and starts it with `args`, unless that was done
    /// before or is being done. In any case there is one more context.
    ///
    /// ```text
    /// Windows:  "libnode.dll"
    /// MacOS:    "libnode.dylib"
    /// Linux:    "libnode.so"
    /// ```
    pub fn load_with_args<P>(process: &mut Process<H>, path: P, args: Vec<String>) -> (load: Load<
        H,
        P,
    >)
        ensures
            final(process)@ == old(process)@.entered().claimed(),
            goes_on(old(process)@, path, args@, load),
            load matches Load::Start(step) ==> step.library() == path && step.argv()@ == args@,
            load matches Load::Wait(step) ==> step.library() == path && step.argv()@ == args@,
    {
        process.enter();
        Self::take_turn(process, path, args)
    }

    /// Goes on with a load that was waiting. The context is counted already. If the attempt that it
    /// waited for was abandoned, this load may be the next to start the instance.
    pub fn resume<P>(process: &mut Process<H>, waiting: WaitingLoad<P>) -> (load: Load<H, P>)
        ensures
            final(process)@ == old(process)@.claimed(),
            goes_on(old(process)@, waiting.library(), waiting.argv()@, load),
            load matches Load::Start(step) ==> step.library() == waiting.library() && step.argv()@
                == waiting.argv()@,
            load matches Load::Wait(step) ==> step.library() == waiting.library() && step.argv()@
                == waiting.argv()@,
    {
        Self::take_turn(process, waiting.path, waiting.args)
    }

    /// Decides how a load goes on.
    fn take_turn<P>(process: &mut Process<H>, path: P, args: Vec<String>) -> (load: Load<H, P>)
        ensures
            final(process)@ == old(process)@.claimed(),
            goes_on(old(process)@, path, args@, load),
            load matches Load::Start(step) ==> step.library() == path && step.argv()@ == args@,
            load matches Load::Wait(step) ==> step.library() == path && step.argv()@ == args@,
    {
        if process.claim() {
            return Load::Start(LoadLibrary { path, args });
        }
        match process.instance() {
            None => Load::Wait(WaitingLoad { path, args }),
            Some(Ok(tx_main)) => Load::Loaded(Ok(Nodejs { tx_main })),
            Some(Err(error)) => Load::Loaded(Err(error)),
        }
    }

    /// Ends loading Node.js, given how starting the instance has ended: with a channel to its main
    /// thread, or an error. Loads that wait can go on, and all loads get the same from now on.
    pub fn started(
        process: &mut Process<H>,
        step: StartInstance,
        outcome: Result<H::MainSender, Error>,
    ) -> (loaded: Result<Nodejs<H>, Error>)
        ensures
            final(process)@ == old(process)@.initialized(outcome_view(outcome)),
            hands_out(final(process)@.instance->0, loaded),
            final(process)@.instance is Some,
            !final(process)@.starting,
            old(process)@.instance is None ==> match outcome {
                Ok(tx_main) => loaded matches Ok(nodejs) && cloned(tx_main, nodejs.tx_main()),
                Err(error) => loaded matches Err(e) && e.status == error.status && e.reason@
                    == error.reason@,
            },
    {
        match process.initialize(outcome) {
            Ok(tx_main) => Ok(Nodejs { tx_main }),
            Err(error) => Err(error),
        }
    }

    /// Ends loading Node.js without an outcome, because starting the instance never ended. The
    /// context stays counted, and the next load, or one that waits, starts the instance.
    pub fn abandoned(process: &mut Process<H>, step: StartInstance)
        ensures
            final(process)@ == old(process)@.abandoned(),
    {
        process.abandon();
    }

    /// Loads Node.js from the libnode at `path`, without arguments. See [`Nodejs::load_with_args`].
    pub fn load_default<P>(process: &mut Process<H>, path: P) -> (load: Load<H, P>)
        ensures
            final(process)@ == old(process)@.entered().claimed(),
            goes_on(old(process)@, path, Seq::empty(), load),
            load matches Load::Start(step) ==> step.library() == path && step.argv()@
                == Seq::<String>::empty(),
            load matches Load::Wait(step) ==> step.library() == path && step.argv()@
                == Seq::<String>::empty(),
    {
        Self::load_with_args(process, path, Vec::new())
    }

    /// Loads Node.js as `options` say. See [`Nodejs::load_with_args`].
    pub fn load(process: &mut Process<H>, options: NodejsOptions) -> (load: Load<H, String>)
        ensures
            final(process)@ == old(process)@.entered().claimed(),
            goes_on(old(process)@, options.libnode_path, options.args@, load),
            load matches Load::Start(step) ==> step.library() == options.libnode_path
                && step.argv()@ == options.args@,
            load matches Load::Wait(step) ==> step.library() == options.libnode_path
                && step.argv()@ == options.args@,
    {
        let args = options.as_argv();
        Self::load_with_args(process, options.libnode_path, args)
    }

    /// Registers a native module.
    ///
    /// `register_function` runs once per main or worker thread. JavaScript reaches the module via
    /// `importNative("my_native_extension")`.
    pub fn napi_module_register<F>(&self, module_name: &str, register_function: F) -> (registration:
        Registration<F>)
        ensures
            registration.module_name@ == module_name@,
            registration.register_function == register_function,
    {
        Registration { module_name: module_name.to_owned(), register_function }
    }

    /// Spawns a Node.js worker thread with the default options. See [`NodejsWorker::start`].
    pub fn spawn_worker_thread(&self, process: &mut Process<H>, ends: WorkerEnds<H>) -> (spawned: (
        WorkerStart<H>,
        NodejsMainEvent<H>,
    ))
        ensures
            final(process)@ == old(process)@.entered(),
            cloned(self.tx_main(), spawned.0.tx_main()),
            spawned.0.tx_wrk() == ends.tx_wrk,
            spawned.1@ == (MainEventView::<H>::StartWorker {
                rx_wrk: ends.rx_wrk,
                argv: Seq::empty(),
                resolve: ends.resolve,
            }),
            ({
                &&& spawned.1 matches NodejsMainEvent::StartWorker { rx_wrk, argv, resolve }
                &&& rx_wrk == ends.rx_wrk
                &&& argv@ == Seq::<String>::empty()
                &&& resolve == ends.resolve
            }),
    {
        self.spawn_worker_thread_with_options(process, &NodejsOptions::default(), ends)
    }

    /// Spawns a Node.js worker thread as `options` say. See [`NodejsWorker::start`].
    pub fn spawn_worker_thread_with_options(
        &self,
        process: &mut Process<H>,
        options: &NodejsOptions,
        ends: WorkerEnds<H>,
    ) -> (spawned: (WorkerStart<H>, NodejsMainEvent<H>))
        ensures
            final(process)@ == old(process)@.entered(),
            cloned(self.tx_main(), spawned.0.tx_main()),
            spawned.0.tx_wrk() == ends.tx_wrk,
            spawned.1@ == (MainEventView::<H>::StartWorker {
                rx_wrk: ends.rx_wrk,
                argv: options.argv(),
                resolve: ends.resolve,
            }),
            ({
                &&& spawned.1 matches NodejsMainEvent::StartWorker { rx_wrk, argv, resolve }
                &&& rx_wrk == ends.rx_wrk
                &&& argv@ == options.args@
                &&& resolve == ends.resolve
            }),
    {
        NodejsWorker::start(process, options, self.tx_main.clone(), ends)
    }

    /// Evaluates a block of CommonJS JavaScript. `callback` is called with the value of its last
    /// line.
    pub fn eval(&self, code: &str, callback: H::EvalFn) -> (post: Post<
        '_,
        H::MainSender,
        NodejsMainEvent<H>,
    >)
        ensures
            *post.to == self.tx_main(),
            post.event@ == MainEventView::<H>::Task(
                TaskView::Eval { code: code@, callback: EvalCallback::User(callback) },
            ),
            ({
                &&& post.event matches NodejsMainEvent::Eval {
                    code: c,
                    callback: EvalCallback::User(f),
                }
                &&& c@ == code@
                &&& f == callback
            }),
    {
        Post {
            to: &self.tx_main,
            event: NodejsMainEvent::Eval {
                code: code.to_owned(),
                callback: EvalCallback::User(callback),
            },
        }
    }

    /// Evaluates a block of CommonJS JavaScript, and waits for its value.
    ///
    /// The last line of the script will be returned.
    pub fn eval_blocking(&self, code: &str, resolve: H::ValueReply) -> (request: Request<
        '_,
        H::MainSender,
        NodejsMainEvent<H>,
    >)
        ensures
            *request.to == self.tx_main(),
            request.event@ == MainEventView::<H>::Task(
                TaskView::Eval { code: code@, callback: EvalCallback::Resolve(resolve) },
            ),
            ({
                &&& request.event matches NodejsMainEvent::Eval {
                    code: c,
                    callback: EvalCallback::Resolve(r),
                }
                &&& c@ == code@
                &&& r == resolve
            }),
    {
        Request {
            to: &self.tx_main,
            event: NodejsMainEvent::Eval {
                code: code.to_owned(),
                callback: EvalCallback::Resolve(resolve),
            },
        }
    }

    /// Evaluates a block of ESM JavaScript.
    pub fn eval_typescript(&self, code: &str, callback: H::EvalFn) -> (post: Post<
        '_,
        H::MainSender,
        NodejsMainEvent<H>,
    >)
        ensures
            *post.to == self.tx_main(),
            post.event@ == MainEventView::<H>::Task(
                TaskView::EvalTypeScript { code: code@, callback: EvalCallback::User(callback) },
            ),
            ({
                &&& post.event matches NodejsMainEvent::EvalTypeScript {
                    code: c,
                    callback: EvalCallback::User(f),
                }
                &&& c@ == code@
                &&& f == callback
            }),
    {
        Post {
            to: &self.tx_main,
            event: NodejsMainEvent::EvalTypeScript {
                code: code.to_owned(),
                callback: EvalCallback::User(callback),
            },
        }
    }

    /// Evaluates a block of ESM JavaScript, and waits until that is done.
    pub fn eval_typescript_blocking(&self, code: &str, resolve: H::Reply) -> (request: Request<
        '_,
        H::MainSender,
        NodejsMainEvent<H>,
    >)
        ensures
            *request.to == self.tx_main(),
            request.event@ == MainEventView::<H>::Task(
                TaskView::EvalTypeScript { code: code@, callback: EvalCallback::Complete(resolve) },
            ),
            ({
                &&& request.event matches NodejsMainEvent::EvalTypeScript {
                    code: c,
                    callback: EvalCallback::Complete(r),
                }
                &&& c@ == code@
                &&& r == resolve
            }),
    {
        Request {
            to: &self.tx_main,
            event: NodejsMainEvent::EvalTypeScript {
                code: code.to_owned(),
                callback: EvalCallback::Complete(resolve),
            },
        }
    }

    /// Executes native code in the JavaScript context, and waits until it has run.
    ///
    /// The callback is provided with the environment.
    pub fn exec_blocking(&self, callback: H::ExecFn, resolve: H::Reply) -> (request: Request<
        '_,
        H::MainSender,
        NodejsMainEvent<H>,
    >)
        ensures
            *request.to == self.tx_main(),
            request.event@ == MainEventView::<H>::Task(
                TaskView::Exec { callback: ExecCallback::UserThenResolve(callback, resolve) },
            ),
            ({
                &&& request.event matches NodejsMainEvent::Exec {
                    callback: ExecCallback::UserThenResolve(f, r),
                }
                &&& f == callback
                &&& r == resolve
            }),
    {
        Request {
            to: &self.tx_main,
            event: NodejsMainEvent::Exec {
                callback: ExecCallback::UserThenResolve(callback, resolve),
            },
        }
    }

    /// Executes native code in the JavaScript context.
    ///
    /// The callback is provided with the environment.
    pub fn exec(&self, callback: H::ExecFn) -> (post: Post<
        '_,
        H::MainSender,
        NodejsMainEvent<H>,
    >)
        ensures
            *post.to == self.tx_main(),
            post.event@ == MainEventView::<H>::Task(
                TaskView::Exec { callback: ExecCallback::User(callback) },
            ),
            ({
                &&& post.event matches NodejsMainEvent::Exec { callback: ExecCallback::User(f) }
                &&& f == callback
            }),
    {
        Post {
            to: &self.tx_main,
            event: NodejsMainEvent::Exec { callback: ExecCallback::User(callback) },
        }
    }

    /// Calls the `require()` function of Node.js to import code.
    pub fn require(&self, specifier: &str, resolve: H::Reply) -> (request: Request<
        '_,
        H::MainSender,
        NodejsMainEvent<H>,
    >)
        ensures
            *request.to == self.tx_main(),
            request.event@ == MainEventView::<H>::Task(
                TaskView::Require { specifier: specifier@, resolve },
            ),
            ({
                &&& request.event matches NodejsMainEvent::Require { specifier: s, resolve: r }
                &&& s@ == specifier@
                &&& r == resolve
            }),
    {
        Request {
            to: &self.tx_main,
            event: NodejsMainEvent::Require { specifier: specifier.to_owned(), resolve },
        }
    }

    /// Calls `await import()` to import code.
    pub fn import(&self, specifier: &str, resolve: H::Reply) -> (request: Request<
        '_,
        H::MainSender,
        NodejsMainEvent<H>,
    >)
        ensures
            *request.to == self.tx_main(),
            request.event@ == MainEventView::<H>::Task(
                TaskView::Import { specifier: specifier@, resolve },
            ),
            ({
                &&& request.event matches NodejsMainEvent::Import { specifier: s, resolve: r }
                &&& s@ == specifier@
                &&& r == resolve
            }),
    {
        Request {
            to: &self.tx_main,
            event: NodejsMainEvent::Import { specifier: specifier.to_owned(), resolve },
        }
    }

    /// Gives the handle and its context up. If it was the last context, the main thread has to be
    /// stopped.
    pub fn drop(self, process: &mut Process<H>, resolve: H::StopReply) -> (stop: Option<
        Stop<H::MainSender, NodejsMainEvent<H>>,
    >)
        ensures
            final(process)@ == old(process)@.left(),
            stop is Some <==> old(process)@.is_last(),
            stop matches Some(s) ==> s.to == self.tx_main() && s.event@
                == (MainEventView::<H>::StopMain { resolve }),
            stop matches Some(s) ==> (s.event matches NodejsMainEvent::StopMain { resolve: r } && r
                == resolve),
    {
        if process.leave() {
            Some(Stop { to: self.tx_main, event: NodejsMainEvent::StopMain { resolve } })
        } else {
            None
        }
    }
}

} // verus!
