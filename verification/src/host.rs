//! The values of the embedding program that travel through the library unopened.

use vstd::prelude::*;

verus! {

/// Names the types of the channel ends and callbacks that handles and events carry.
///
/// The library moves values of these types from one place to another and never looks inside.
pub trait Host {
    /// Sends [`crate::events::NodejsMainEvent`]s to the main Node.js thread.
    type MainSender: Clone;

    /// Sends [`crate::events::NodejsWorkerEvent`]s to one worker thread.
    type WorkerSender;

    /// Receives the [`crate::events::NodejsWorkerEvent`]s of one worker thread.
    type WorkerReceiver;

    /// Called with the environment and the value that a script evaluated to.
    type EvalFn;

    /// Called with the environment; may fail.
    type ExecFn;

    /// Sends back the result of one request.
    type Reply;

    /// The form in which the value of a script leaves the JavaScript thread.
    type Transferred;

    /// Sends back the value that a script evaluated to.
    type ValueReply;

    /// Sends back the identifier of a started worker.
    type WorkerIdReply;

    /// Acknowledges that a thread has stopped.
    type StopReply;
}

} // verus!
