//! The handle to a Node.js worker thread.

use vstd::prelude::*;
use crate::call::{stop_result, Post, Request, Stop};
use crate::events::{
    EvalCallback, ExecCallback, MainEventView, NodejsMainEvent, NodejsWorkerEvent, TaskView,
};
use crate::host::Host;
use crate::options::NodejsOptions;
use crate::process::Process;

verus! {

/// A handle to a Node.js worker thread.
pub struct NodejsWorker<H: Host> {
    id: String,
    tx_main: H::MainSender,
    tx_wrk: H::WorkerSender,
}

/// The ends of the two channels that a new worker needs.
pub struct WorkerEnds<H: Host> {
    /// Where the handle sends its events.
    pub tx_wrk: H::WorkerSender,
    /// Where the worker thread receives them.
    pub rx_wrk: H::WorkerReceiver,
    /// Where the main thread sends the identifier of the worker.
    pub resolve: H::WorkerIdReply,
}

/// A worker thread is being started, by an event that has to be sent on [`WorkerStart::to`]. When a
/// reply has come, or cannot come any more, [`WorkerStart::started`] comes next.
pub struct WorkerStart<H: Host> {
    tx_main: H::MainSender,
    tx_wrk: H::WorkerSender,
}

/// The handle of a worker was given up, and its thread is being stopped, by an event that has to be
/// sent on [`WorkerStopping::to`]. When an acknowledgement has come, or cannot come any more,
/// [`WorkerStopping::stopped`] comes next.
pub struct WorkerStopping<H: Host> {
    tx_main: H::MainSender,
    tx_wrk: H::WorkerSender,
}

/// How dropping the handle of a worker goes on.
pub enum WorkerStopped<H: Host> {
    /// The worker did not stop, because the main thread is gone. The handle cannot be dropped.
    Stuck,
    /// The worker has stopped, and other contexts are left.
    Done,
    /// The worker has stopped, and the main thread has to be stopped too.
    StopMain(Stop<H::MainSender, NodejsMainEvent<H>>),
}

impl<H: Host> WorkerStart<H> {
    /// The channel to the main thread.
    pub closed spec fn tx_main(&self) -> H::MainSender {
        self.tx_main
    }

    /// The channel to the worker thread.
    pub closed spec fn tx_wrk(&self) -> H::WorkerSender {
        self.tx_wrk
    }

    /// The channel that the event is sent on.
    pub fn to(&self) -> (to: &H::MainSender)
        ensures
            *to == self.tx_main(),
    {
        &self.tx_main
    }

    /// Ends starting a worker, given the identifier that was received. Without one there is no
    /// worker: the main thread is gone, and the call that starts the worker cannot return.
    pub fn started(self, id: Option<String>) -> (worker: Option<NodejsWorker<H>>)
        ensures
            worker is Some <==> id is Some,
            worker matches Some(w) ==> w.id() == id->0@ && w.tx_main() == self.tx_main()
                && w.tx_wrk() == self.tx_wrk(),
    {
        match id {
            None => None,
            Some(id) => Some(NodejsWorker { id, tx_main: self.tx_main, tx_wrk: self.tx_wrk }),
        }
    }
}

impl<H: Host> WorkerStopping<H> {
    /// The channel to the main thread.
    pub closed spec fn tx_main(&self) -> H::MainSender {
        self.tx_main
    }

    /// The channel to the worker thread.
    pub closed spec fn tx_wrk(&self) -> H::WorkerSender {
        self.tx_wrk
    }

    /// The channel that the event is sent on.
    pub fn to(&self) -> (to: &H::MainSender)
        ensures
            *to == self.tx_main(),
    {
        &self.tx_main
    }

    /// Goes on when the worker thread was to be stopped: `delivered` tells whether the main thread
    /// could be told so, and `acknowledged` whether it answered. If both hold the context is given
    /// up, and if it was the last one, the main thread has to be stopped too.
    ///
    /// The channel to the worker thread is handed back, to be closed when all that is done.
    pub fn stopped(
        self,
        process: &mut Process<H>,
        delivered: bool,
        acknowledged: bool,
        resolve: H::StopReply,
    ) -> (next: (WorkerStopped<H>, H::WorkerSender))
        ensures
            next.1 == self.tx_wrk(),
            !(delivered && acknowledged) ==> next.0 is Stuck && final(process)@ == old(process)@,
            delivered && acknowledged ==> {
                &&& final(process)@ == old(process)@.left()
                &&& !old(process)@.is_last() ==> next.0 is Done
                &&& old(process)@.is_last() ==> (next.0 matches WorkerStopped::StopMain(stop)
                    && stop.to == self.tx_main() && stop.event@ == (MainEventView::<H>::StopMain {
                    resolve,
                }))
                &&& next.0 matches WorkerStopped::StopMain(stop) ==> (
                stop.event matches NodejsMainEvent::StopMain { resolve: r } && r == resolve)
            },
    {
        if !stop_result(delivered, acknowledged) {
            return (WorkerStopped::Stuck, self.tx_wrk);
        }
        let next = if process.leave() {
            WorkerStopped::StopMain(
                Stop { to: self.tx_main, event: NodejsMainEvent::StopMain { resolve } },
            )
        } else {
            WorkerStopped::Done
        };
        (next, self.tx_wrk)
    }
}

impl<H: Host> NodejsWorker<H> {
    /// The identifier that the main thread gave to the worker.
    pub closed spec fn id(&self) -> Seq<char> {
        self.id@
    }

    /// The channel to the main thread.
    pub closed spec fn tx_main(&self) -> H::MainSender {
        self.tx_main
    }

    /// The channel to the worker thread.
    pub closed spec fn tx_wrk(&self) -> H::WorkerSender {
        self.tx_wrk
    }

    /// Starts a worker thread with the arguments of `options`: there is one more context, and the
    /// event has to be sent to the main thread, on `tx_main`.
    pub fn start(
        process: &mut Process<H>,
        options: &NodejsOptions,
        tx_main: H::MainSender,
        ends: WorkerEnds<H>,
    ) -> (start: (WorkerStart<H>, NodejsMainEvent<H>))
        ensures
            final(process)@ == old(process)@.entered(),
            start.0.tx_main() == tx_main,
            start.0.tx_wrk() == ends.tx_wrk,
            start.1@ == (MainEventView::<H>::StartWorker {
                rx_wrk: ends.rx_wrk,
                argv: options.argv(),
                resolve: ends.resolve,
            }),
            ({
                &&& start.1 matches NodejsMainEvent::StartWorker { rx_wrk, argv, resolve }
                &&& rx_wrk == ends.rx_wrk
                &&& argv@ == options.args@
                &&& resolve == ends.resolve
            }),
    {
        process.enter();
        let event = NodejsMainEvent::StartWorker {
            rx_wrk: ends.rx_wrk,
            argv: options.as_argv(),
            resolve: ends.resolve,
        };
        (WorkerStart { tx_main, tx_wrk: ends.tx_wrk }, event)
    }

    /// Evaluates a block of CommonJS JavaScript. `callback` is called with the value of its last
    /// line.
    pub fn eval(&self, code: &str, callback: H::EvalFn) -> (post: Post<
        '_,
        H::WorkerSender,
        NodejsWorkerEvent<H>,
    >)
        ensures
            *post.to == self.tx_wrk(),
            post.event@ == (TaskView::<H>::Eval {
                code: code@,
                callback: EvalCallback::User(callback),
            }),
            ({
                &&& post.event matches NodejsWorkerEvent::Eval {
                    code: c,
                    callback: EvalCallback::User(f),
                }
                &&& c@ == code@
                &&& f == callback
            }),
    {
        Post {
            to: &self.tx_wrk,
            event: NodejsWorkerEvent::Eval {
                code: code.to_owned(),
                callback: EvalCallback::User(callback),
            },
        }
    }

    /// Evaluates a block of CommonJS JavaScript, and waits for its value.
    ///
    /// The last line of the script will be returned.
    pub fn eval_blocking(&self, code: &str, resolve: H::ValueReply) -> (request: Request<
        '_,
        H::WorkerSender,
        NodejsWorkerEvent<H>,
    >)
        ensures
            *request.to == self.tx_wrk(),
            request.event@ == (TaskView::<H>::Eval {
                code: code@,
                callback: EvalCallback::Resolve(resolve),
            }),
            ({
                &&& request.event matches NodejsWorkerEvent::Eval {
                    code: c,
                    callback: EvalCallback::Resolve(r),
                }
                &&& c@ == code@
                &&& r == resolve
            }),
    {
        Request {
            to: &self.tx_wrk,
            event: NodejsWorkerEvent::Eval {
                code: code.to_owned(),
                callback: EvalCallback::Resolve(resolve),
            },
        }
    }

    /// Evaluates a block of ESM JavaScript.
    pub fn eval_typescript(&self, code: &str, callback: H::EvalFn) -> (post: Post<
        '_,
        H::WorkerSender,
        NodejsWorkerEvent<H>,
    >)
        ensures
            *post.to == self.tx_wrk(),
            post.event@ == (TaskView::<H>::EvalTypeScript {
                code: code@,
                callback: EvalCallback::User(callback),
            }),
            ({
                &&& post.event matches NodejsWorkerEvent::EvalTypeScript {
                    code: c,
                    callback: EvalCallback::User(f),
                }
                &&& c@ == code@
                &&& f == callback
            }),
    {
        Post {
            to: &self.tx_wrk,
            event: NodejsWorkerEvent::EvalTypeScript {
                code: code.to_owned(),
                callback: EvalCallback::User(callback),
            },
        }
    }

    /// Evaluates a block of ESM JavaScript, and waits until that is done.
    pub fn eval_typescript_blocking(&self, code: &str, resolve: H::Reply) -> (request: Request<
        '_,
        H::WorkerSender,
        NodejsWorkerEvent<H>,
    >)
        ensures
            *request.to == self.tx_wrk(),
            request.event@ == (TaskView::<H>::EvalTypeScript {
                code: code@,
                callback: EvalCallback::Complete(resolve),
            }),
            ({
                &&& request.event matches NodejsWorkerEvent::EvalTypeScript {
                    code: c,
                    callback: EvalCallback::Complete(r),
                }
                &&& c@ == code@
                &&& r == resolve
            }),
    {
        Request {
            to: &self.tx_wrk,
            event: NodejsWorkerEvent::EvalTypeScript {
                code: code.to_owned(),
                callback: EvalCallback::Complete(resolve),
            },
        }
    }

    /// Executes native code in the JavaScript context, and waits until it has run.
    ///
    /// The callback is provided with the environment.
    pub fn exec_blocking(&self, callback: H::ExecFn, resolve: H::Reply) -> (request: Request<
        '_,
        H::WorkerSender,
        NodejsWorkerEvent<H>,
    >)
        ensures
            *request.to == self.tx_wrk(),
            request.event@ == (TaskView::<H>::Exec {
                callback: ExecCallback::UserThenResolve(callback,
                resolve),
            }),
            ({
                &&& request.event matches NodejsWorkerEvent::Exec {
                    callback: ExecCallback::UserThenResolve(f, r),
                }
                &&& f == callback
                &&& r == resolve
            }),
    {
        Request {
            to: &self.tx_wrk,
            event: NodejsWorkerEvent::Exec {
                callback: ExecCallback::UserThenResolve(callback, resolve),
            },
        }
    }

    /// Executes native code in the JavaScript context.
    ///
    /// The callback is provided with the environment.
    pub fn exec(&self, callback: H::ExecFn) -> (post: Post<
        '_,
        H::WorkerSender,
        NodejsWorkerEvent<H>,
    >)
        ensures
            *post.to == self.tx_wrk(),
            post.event@ == (TaskView::<H>::Exec { callback: ExecCallback::User(callback) }),
            ({
                &&& post.event matches NodejsWorkerEvent::Exec { callback: ExecCallback::User(f) }
                &&& f == callback
            }),
    {
        Post {
            to: &self.tx_wrk,
            event: NodejsWorkerEvent::Exec { callback: ExecCallback::User(callback) },
        }
    }

    /// Calls the `require()` function of Node.js to import code.
    pub fn require(&self, specifier: &str, resolve: H::Reply) -> (request: Request<
        '_,
        H::WorkerSender,
        NodejsWorkerEvent<H>,
    >)
        ensures
            *request.to == self.tx_wrk(),
            request.event@ == (TaskView::<H>::Require { specifier: specifier@, resolve }),
            ({
                &&& request.event matches NodejsWorkerEvent::Require { specifier: s, resolve: r }
                &&& s@ == specifier@
                &&& r == resolve
            }),
    {
        Request {
            to: &self.tx_wrk,
            event: NodejsWorkerEvent::Require { specifier: specifier.to_owned(), resolve },
        }
    }

    /// Calls `await import()` to import code.
    pub fn import(&self, specifier: &str, resolve: H::Reply) -> (request: Request<
        '_,
        H::WorkerSender,
        NodejsWorkerEvent<H>,
    >)
        ensures
            *request.to == self.tx_wrk(),
            request.event@ == (TaskView::<H>::Import { specifier: specifier@, resolve }),
            ({
                &&& request.event matches NodejsWorkerEvent::Import { specifier: s, resolve: r }
                &&& s@ == specifier@
                &&& r == resolve
            }),
    {
        Request {
            to: &self.tx_wrk,
            event: NodejsWorkerEvent::Import { specifier: specifier.to_owned(), resolve },
        }
    }

    /// Gives the handle up: the main thread has to stop the worker thread.
    pub fn drop(self, resolve: H::StopReply) -> (stop: (WorkerStopping<H>, NodejsMainEvent<H>))
        ensures
            stop.0.tx_main() == self.tx_main(),
            stop.0.tx_wrk() == self.tx_wrk(),
            stop.1@ == (MainEventView::<H>::StopWorker { id: self.id(), resolve }),
            ({
                &&& stop.1 matches NodejsMainEvent::StopWorker { id, resolve: r }
                &&& id@ == self.id()
                &&& r == resolve
            }),
    {
        (
            WorkerStopping { tx_main: self.tx_main, tx_wrk: self.tx_wrk },
            NodejsMainEvent::StopWorker { id: self.id, resolve },
        )
    }
}

} // verus!
