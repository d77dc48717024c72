//! The messages that handles send to the Node.js threads, and what running their callbacks means.

use vstd::prelude::*;
use crate::error::Error;
use crate::host::Host;

verus! {

/// What is run once a script has been evaluated.
pub enum EvalCallback<H: Host> {
    /// A callback of the caller.
    User(H::EvalFn),
    /// Returns the value to a caller that is waiting for it.
    Resolve(H::ValueReply),
    /// Reports success to a caller that is waiting until the script was evaluated.
    Complete(H::Reply),
}

/// What is run when native code is to be executed.
pub enum ExecCallback<H: Host> {
    /// A callback of the caller.
    User(H::ExecFn),
    /// A callback of the caller, who is waiting until it has run.
    UserThenResolve(H::ExecFn, H::Reply),
}

/// A message to the main Node.js thread.
#[allow(inconsistent_fields)]
pub enum NodejsMainEvent<H: Host> {
    /// Evaluate a block of CommonJS.
    Eval { code: String, callback: EvalCallback<H> },
    /// Evaluate a block of an ES module.
    EvalTypeScript { code: String, callback: EvalCallback<H> },
    /// Run native code in the JavaScript context.
    Exec { callback: ExecCallback<H> },
    /// Call `require()`.
    Require { specifier: String, resolve: H::Reply },
    /// Call `await import()`.
    Import { specifier: String, resolve: H::Reply },
    /// Start a worker thread that listens to `rx_wrk`, and send back its identifier.
    StartWorker { rx_wrk: H::WorkerReceiver, argv: Vec<String>, resolve: H::WorkerIdReply },
    /// Stop the worker thread called `id`.
    StopWorker { id: String, resolve: H::StopReply },
    /// Stop the main thread.
    StopMain { resolve: H::StopReply },
}

/// A message to a Node.js worker thread.
#[allow(inconsistent_fields)]
pub enum NodejsWorkerEvent<H: Host> {
    /// Evaluate a block of CommonJS.
    Eval { code: String, callback: EvalCallback<H> },
    /// Evaluate a block of an ES module.
    EvalTypeScript { code: String, callback: EvalCallback<H> },
    /// Run native code in the JavaScript context.
    Exec { callback: ExecCallback<H> },
    /// Call `require()`.
    Require { specifier: String, resolve: H::Reply },
    /// Call `await import()`.
    Import { specifier: String, resolve: H::Reply },
}

/// A piece of work for a Node.js thread, main or worker.
#[allow(inconsistent_fields)]
pub enum TaskView<H: Host> {
    Eval { code: Seq<char>, callback: EvalCallback<H> },
    EvalTypeScript { code: Seq<char>, callback: EvalCallback<H> },
    Exec { callback: ExecCallback<H> },
    Require { specifier: Seq<char>, resolve: H::Reply },
    Import { specifier: Seq<char>, resolve: H::Reply },
}

/// What a [`NodejsMainEvent`] says: work, or a change to the set of running threads.
#[allow(inconsistent_fields)]
pub enum MainEventView<H: Host> {
    Task(TaskView<H>),
    StartWorker { rx_wrk: H::WorkerReceiver, argv: Seq<Seq<char>>, resolve: H::WorkerIdReply },
    StopWorker { id: Seq<char>, resolve: H::StopReply },
    StopMain { resolve: H::StopReply },
}

/// The contents of a list of strings.
pub open spec fn strings_view(strings: Seq<String>) -> Seq<Seq<char>> {
    strings.map_values(|s: String| s@)
}

impl<H: Host> View for NodejsMainEvent<H> {
    type V = MainEventView<H>;

    open spec fn view(&self) -> MainEventView<H> {
        match *self {
            NodejsMainEvent::Eval { code, callback } => MainEventView::Task(
                TaskView::Eval { code: code@, callback },
            ),
            NodejsMainEvent::EvalTypeScript { code, callback } => MainEventView::Task(
                TaskView::EvalTypeScript { code: code@, callback },
            ),
            NodejsMainEvent::Exec { callback } => MainEventView::Task(TaskView::Exec { callback }),
            NodejsMainEvent::Require { specifier, resolve } => MainEventView::Task(
                TaskView::Require { specifier: specifier@, resolve },
            ),
            NodejsMainEvent::Import { specifier, resolve } => MainEventView::Task(
                TaskView::Import { specifier: specifier@, resolve },
            ),
            NodejsMainEvent::StartWorker { rx_wrk, argv, resolve } => MainEventView::StartWorker {
                rx_wrk,
                argv: strings_view(argv@),
                resolve,
            },
            NodejsMainEvent::StopWorker { id, resolve } => MainEventView::StopWorker {
                id: id@,
                resolve,
            },
            NodejsMainEvent::StopMain { resolve } => MainEventView::StopMain { resolve },
        }
    }
}

impl<H: Host> View for NodejsWorkerEvent<H> {
    type V = TaskView<H>;

    open spec fn view(&self) -> TaskView<H> {
        match *self {
            NodejsWorkerEvent::Eval { code, callback } => TaskView::Eval { code: code@, callback },
            NodejsWorkerEvent::EvalTypeScript { code, callback } => TaskView::EvalTypeScript {
                code: code@,
                callback,
            },
            NodejsWorkerEvent::Exec { callback } => TaskView::Exec { callback },
            NodejsWorkerEvent::Require { specifier, resolve } => TaskView::Require {
                specifier: specifier@,
                resolve,
            },
            NodejsWorkerEvent::Import { specifier, resolve } => TaskView::Import {
                specifier: specifier@,
                resolve,
            },
        }
    }
}

/// What the thread that evaluated a script has to do with the value.
#[allow(inconsistent_fields)]
pub enum Evaluated<H: Host, Env, Value> {
    /// Call the caller's callback with both.
    Call { callback: H::EvalFn, env: Env, value: Value },
    /// Bring the value into a form that may leave the thread; a caller is waiting for it.
    Transfer(TransferValue<Env, Value>, AwaitTransfer<H>),
    /// Send `message` to the waiting caller, who did not ask for the value.
    Done { resolve: H::Reply, message: Result<(), Error> },
}

/// `value` has to be brought into a form that may leave the JavaScript thread of `env`.
/// [`AwaitTransfer::transferred`] comes next.
pub struct TransferValue<Env, Value> {
    pub env: Env,
    pub value: Value,
}

/// The value of a script is being brought into another form.
pub struct AwaitTransfer<H: Host> {
    resolve: H::ValueReply,
}

/// `message` has to be sent to the caller that is waiting for the value of a script.
pub struct ValueMessage<H: Host> {
    pub resolve: H::ValueReply,
    pub message: Result<H::Transferred, Error>,
}

/// What an [`Evaluated`] says.
#[allow(inconsistent_fields)]
pub enum EvaluatedView<H: Host, Env, Value> {
    Call { callback: H::EvalFn, env: Env, value: Value },
    Transfer { env: Env, value: Value, resolve: H::ValueReply },
    Done { resolve: H::Reply, message: Result<(), Error> },
}

impl<H: Host, Env, Value> View for Evaluated<H, Env, Value> {
    type V = EvaluatedView<H, Env, Value>;

    open spec fn view(&self) -> EvaluatedView<H, Env, Value> {
        match *self {
            Evaluated::Call { callback, env, value } => EvaluatedView::Call {
                callback,
                env,
                value,
            },
            Evaluated::Transfer(action, stage) => EvaluatedView::Transfer {
                env: action.env,
                value: action.value,
                resolve: stage.resolve(),
            },
            Evaluated::Done { resolve, message } => EvaluatedView::Done { resolve, message },
        }
    }
}

impl<H: Host> AwaitTransfer<H> {
    /// Where the caller is waiting.
    pub closed spec fn resolve(&self) -> H::ValueReply {
        self.resolve
    }

    /// Ends with the value in its new form, or with the error that kept it from getting there: the
    /// caller gets either.
    pub fn transferred(self, form: Result<H::Transferred, Error>) -> (reply: ValueMessage<H>)
        ensures
            reply == value_reply::<H>(self.resolve(), form),
            reply.resolve == self.resolve(),
            reply.message == form,
    {
        ValueMessage { resolve: self.resolve, message: form }
    }
}

/// What the caller who waits at `resolve` is sent when transferring the value has led to `form`.
pub open spec fn value_reply<H: Host>(
    resolve: H::ValueReply,
    form: Result<H::Transferred, Error>,
) -> ValueMessage<H> {
    ValueMessage { resolve, message: form }
}

/// What the thread that executes native code has to do: call `callback` with `env`, then hand the
/// result to `after`.
pub struct Execution<H: Host, Env> {
    pub callback: H::ExecFn,
    pub env: Env,
    pub after: AfterExec<H>,
}

/// What follows an executed callback.
pub enum AfterExec<H: Host> {
    /// Nobody is waiting.
    Return,
    /// Somebody is waiting at the other end.
    ResolveThenReturn(H::Reply),
}

/// What the thread does with the result of an executed callback: first send `message` to the
/// waiting caller, if there is one, then treat `result` as the outcome of the event.
pub struct Executed<H: Host> {
    pub message: Option<(H::Reply, Result<(), Error>)>,
    pub result: Result<(), Error>,
}

impl<H: Host> EvalCallback<H> {
    /// What happens when a script has evaluated to `value`.
    pub open spec fn on_value<Env, Value>(self, env: Env, value: Value) -> EvaluatedView<
        H,
        Env,
        Value,
    > {
        match self {
            EvalCallback::User(callback) => EvaluatedView::Call { callback, env, value },
            EvalCallback::Resolve(resolve) => EvaluatedView::Transfer { env, value, resolve },
            EvalCallback::Complete(resolve) => EvaluatedView::Done { resolve, message: Ok(()) },
        }
    }

    /// Decides what is done with the value of an evaluated script.
    pub fn evaluated<Env, Value>(self, env: Env, value: Value) -> (effect: Evaluated<
        H,
        Env,
        Value,
    >)
        ensures
            effect@ == self.on_value(env, value),
            match self {
                EvalCallback::User(f) => {
                    &&& effect matches Evaluated::Call { callback, env: e, value: v }
                    &&& callback == f
                    &&& e == env
                    &&& v == value
                },
                EvalCallback::Resolve(reply) => {
                    &&& effect matches Evaluated::Transfer(action, stage)
                    &&& action.env == env
                    &&& action.value == value
                    &&& stage.resolve() == reply
                },
                EvalCallback::Complete(reply) => {
                    &&& effect matches Evaluated::Done { resolve, message }
                    &&& resolve == reply
                    &&& message is Ok
                },
            },
    {
        match self {
            EvalCallback::User(callback) => Evaluated::Call { callback, env, value },
            EvalCallback::Resolve(resolve) => Evaluated::Transfer(
                TransferValue { env, value },
                AwaitTransfer { resolve },
            ),
            EvalCallback::Complete(resolve) => Evaluated::Done { resolve, message: Ok(()) },
        }
    }
}

impl<H: Host> ExecCallback<H> {
    /// What happens when the callback is to run in `env`.
    pub open spec fn on_env<Env>(self, env: Env) -> Execution<H, Env> {
        match self {
            ExecCallback::User(callback) => Execution { callback, env, after: AfterExec::Return },
            ExecCallback::UserThenResolve(callback, resolve) => Execution {
                callback,
                env,
                after: AfterExec::ResolveThenReturn(resolve),
            },
        }
    }

    /// Starts the execution: the caller's callback is called with `env`, whether or not somebody is
    /// waiting.
    pub fn started<Env>(self, env: Env) -> (execution: Execution<H, Env>)
        ensures
            execution == self.on_env(env),
            execution.env == env,
            match self {
                ExecCallback::User(f) => execution.callback == f && execution.after is Return,
                ExecCallback::UserThenResolve(f, reply) => execution.callback == f
                    && execution.after == AfterExec::<H>::ResolveThenReturn(reply),
            },
    {
        match self {
            ExecCallback::User(callback) => Execution { callback, env, after: AfterExec::Return },
            ExecCallback::UserThenResolve(callback, resolve) => Execution {
                callback,
                env,
                after: AfterExec::ResolveThenReturn(resolve),
            },
        }
    }
}

impl<H: Host> AfterExec<H> {
    /// What happens when the callback has returned `result`.
    pub open spec fn on_result(self, result: Result<(), Error>) -> Executed<H> {
        match self {
            AfterExec::Return => Executed { message: None, result },
            AfterExec::ResolveThenReturn(resolve) => Executed {
                message: Some((resolve, Ok(()))),
                result,
            },
        }
    }

    /// Decides what is done with the result of the callback. A waiting caller learns that the
    /// callback has run, not whether it succeeded; the result itself stays with the thread.
    pub fn finished(self, result: Result<(), Error>) -> (executed: Executed<H>)
        ensures
            executed == self.on_result(result),
            executed.result == result,
            match self {
                AfterExec::Return => executed.message is None,
                AfterExec::ResolveThenReturn(reply) => executed.message == Some(
                    (reply, Ok::<(), Error>(())),
                ),
            },
    {
        match self {
            AfterExec::Return => Executed { message: None, result },
            AfterExec::ResolveThenReturn(resolve) => Executed {
                message: Some((resolve, Ok(()))),
                result,
            },
        }
    }
}

/// What a list of strings says is the text of each string, in the same order and number.
pub proof fn strings_are_all_kept(strings: Seq<String>)
    ensures
        strings_view(strings).len() == strings.len(),
        forall|i: int|
            0 <= i < strings.len() ==> #[trigger] strings_view(strings)[i] == strings[i]@,
{
}

/// An event for the main thread says all that it carries.
pub proof fn main_events_say_what_they_carry<H: Host>(event: NodejsMainEvent<H>)
    ensures
        match event {
            NodejsMainEvent::Eval { code, callback } => {
                &&& event@ matches MainEventView::Task(TaskView::Eval { code: c, callback: f })
                &&& c == code@
                &&& f == callback
            },
            NodejsMainEvent::EvalTypeScript { code, callback } => {
                &&& event@ matches MainEventView::Task(
                    TaskView::EvalTypeScript { code: c, callback: f },
                )
                &&& c == code@
                &&& f == callback
            },
            NodejsMainEvent::Exec { callback } => {
                &&& event@ matches MainEventView::Task(TaskView::Exec { callback: f })
                &&& f == callback
            },
            NodejsMainEvent::Require { specifier, resolve } => {
                &&& event@ matches MainEventView::Task(
                    TaskView::Require { specifier: s, resolve: r },
                )
                &&& s == specifier@
                &&& r == resolve
            },
            NodejsMainEvent::Import { specifier, resolve } => {
                &&& event@ matches MainEventView::Task(
                    TaskView::Import { specifier: s, resolve: r },
                )
                &&& s == specifier@
                &&& r == resolve
            },
            NodejsMainEvent::StartWorker { rx_wrk, argv, resolve } => {
                &&& event@ matches MainEventView::StartWorker { rx_wrk: x, argv: a, resolve: r }
                &&& x == rx_wrk
                &&& a.len() == argv@.len()
                &&& forall|i: int| 0 <= i < argv@.len() ==> #[trigger] a[i] == argv@[i]@
                &&& r == resolve
            },
            NodejsMainEvent::StopWorker { id, resolve } => {
                &&& event@ matches MainEventView::StopWorker { id: i, resolve: r }
                &&& i == id@
                &&& r == resolve
            },
            NodejsMainEvent::StopMain { resolve } => {
                &&& event@ matches MainEventView::StopMain { resolve: r }
                &&& r == resolve
            },
        },
{
}

/// A worker is told the same as the main thread would be: work that carries the same says the same.
pub proof fn workers_are_told_the_same<H: Host>(
    main: NodejsMainEvent<H>,
    worker: NodejsWorkerEvent<H>,
)
    ensures
        (main matches NodejsMainEvent::Eval { code, callback } && (
        worker matches NodejsWorkerEvent::Eval { code: c, callback: f } && c@ == code@ && f
            == callback)) ==> main@ == MainEventView::Task(worker@),
        (main matches NodejsMainEvent::EvalTypeScript { code, callback } && (
        worker matches NodejsWorkerEvent::EvalTypeScript { code: c, callback: f } && c@ == code@
            && f == callback)) ==> main@ == MainEventView::Task(worker@),
        (main matches NodejsMainEvent::Exec { callback } && (
        worker matches NodejsWorkerEvent::Exec { callback: f } && f == callback)) ==> main@
            == MainEventView::Task(worker@),
        (main matches NodejsMainEvent::Require { specifier, resolve } && (
        worker matches NodejsWorkerEvent::Require { specifier: s, resolve: r } && s@ == specifier@
            && r == resolve)) ==> main@ == MainEventView::Task(worker@),
        (main matches NodejsMainEvent::Import { specifier, resolve } && (
        worker matches NodejsWorkerEvent::Import { specifier: s, resolve: r } && s@ == specifier@
            && r == resolve)) ==> main@ == MainEventView::Task(worker@),
{
}

/// A callback that nobody waits for is called with the value of the script and its environment.
pub proof fn callback_gets_the_value<H: Host, Env, Value>(
    callback: H::EvalFn,
    env: Env,
    value: Value,
)
    ensures
        EvalCallback::<H>::User(callback).on_value(env, value) matches EvaluatedView::Call {
            callback: f,
            env: e,
            value: v,
        } && f == callback && e == env && v == value,
{
}

/// Native code that nobody waits for runs in the environment, nobody is told, and what it returned
/// is the outcome of the event.
pub proof fn native_code_runs_alone<H: Host, Env>(
    callback: H::ExecFn,
    env: Env,
    result: Result<(), Error>,
)
    ensures
        ({
            let execution = ExecCallback::<H>::User(callback).on_env(env);
            &&& execution.callback == callback
            &&& execution.env == env
            &&& execution.after.on_result(result).message is None
            &&& execution.after.on_result(result).result == result
        }),
{
}

/// A caller that waits for the value of a script gets it, on the channel where the caller listens:
/// it is that value that is brought into another form, and what came of that is sent.
pub proof fn waiting_for_a_value_returns_it<H: Host, Env, Value>(
    resolve: H::ValueReply,
    env: Env,
    value: Value,
    form: Result<H::Transferred, Error>,
)
    ensures
        EvalCallback::<H>::Resolve(resolve).on_value(env, value) matches EvaluatedView::Transfer {
            env: e,
            value: v,
            resolve: r,
        } && e == env && v == value && value_reply::<H>(r, form) == (ValueMessage::<H> {
            resolve,
            message: form,
        }),
{
}

/// A caller that waits until a module was evaluated learns that it was, on the channel where the
/// caller listens, whatever the value is.
pub proof fn waiting_for_a_module_succeeds<H: Host, Env, Value>(
    resolve: H::Reply,
    env: Env,
    value: Value,
)
    ensures
        EvalCallback::<H>::Complete(resolve).on_value(env, value) == (EvaluatedView::<
            H,
            Env,
            Value,
        >::Done { resolve, message: Ok(()) }),
{
}

/// A caller that waits for native code learns that it has run, on the channel where it listens,
/// even if it failed; what the code returned is the outcome of the event all the same.
pub proof fn waiting_for_native_code_succeeds<H: Host, Env>(
    callback: H::ExecFn,
    resolve: H::Reply,
    env: Env,
    result: Result<(), Error>,
)
    ensures
        ({
            let execution = ExecCallback::<H>::UserThenResolve(callback, resolve).on_env(env);
            &&& execution.callback == callback
            &&& execution.env == env
            &&& execution.after.on_result(result) == (Executed::<H> {
                message: Some((resolve, Ok(()))),
                result,
            })
        }),
{
}

/// Waiting changes nothing about how native code is run or what becomes of its result.
pub proof fn waiting_does_not_change_execution<H: Host, Env>(
    callback: H::ExecFn,
    resolve: H::Reply,
    env: Env,
    result: Result<(), Error>,
)
    ensures
        ({
            let alone = ExecCallback::<H>::User(callback).on_env(env);
            let waited = ExecCallback::<H>::UserThenResolve(callback, resolve).on_env(env);
            &&& alone.callback == waited.callback
            &&& alone.env == waited.env
            &&& alone.after.on_result(result).result == waited.after.on_result(result).result
        }),
{
}

} // verus!
