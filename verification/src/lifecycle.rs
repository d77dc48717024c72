//! What holds of the Node.js instance of a process over the whole life of the process.
//!
//! Loads overlap: one begins, others begin before it has ended, and each goes on when its turn
//! comes. The operations of a history are therefore the single calls, in the order in which they
//! are made.

use vstd::prelude::*;
use crate::error::{Error, ErrorView};
use crate::host::Host;
use crate::nodejs::{goes_on, hands_out, Load, Nodejs};
use crate::process::{outcome_view, ProcessView};

verus! {

/// A call that changes the contexts of a process.
pub enum ContextOp<H: Host> {
    /// A load begins.
    BeginLoad,
    /// A load that waits gets another turn.
    ResumeLoad,
    /// The attempt to start the instance that is under way ends with `outcome`.
    EndStart { outcome: Result<H::MainSender, ErrorView> },
    /// The attempt to start the instance that is under way is abandoned.
    AbandonStart,
    /// A worker is spawned. `answered` tells whether the main thread sends back its identifier.
    Spawn { answered: bool },
    /// A handle to the main thread is dropped.
    DropNodejs,
    /// A handle to a worker is dropped. `stopped` tells whether the main thread stops the worker.
    DropWorker { stopped: bool },
}

/// A process, what it has done, and what it holds.
pub struct World<H: Host> {
    pub process: ProcessView<H>,
    /// How many loads wait.
    pub waiting: nat,
    /// How many handles to the main thread there are.
    pub nodejs: nat,
    /// How many handles to workers there are.
    pub workers: nat,
    /// How many contexts are counted that nobody will give up: loading Node.js failed or was
    /// abandoned, the main thread never named a worker, or it never stopped one.
    pub lost: nat,
    /// How many loads were told to start the instance.
    pub starts: nat,
    /// How many of them abandoned the attempt.
    pub abandoned: nat,
    /// How often the main thread was told to stop.
    pub stops: nat,
}

impl<H: Host> World<H> {
    /// A process that has done nothing yet.
    pub open spec fn initial() -> World<H> {
        World {
            process: ProcessView::initial(),
            waiting: 0,
            nodejs: 0,
            workers: 0,
            lost: 0,
            starts: 0,
            abandoned: 0,
            stops: 0,
        }
    }

    /// How many attempts to start the instance are under way.
    pub open spec fn starting(self) -> nat {
        if self.process.starting {
            1
        } else {
            0
        }
    }

    /// How many attempts to start the instance have ended.
    pub open spec fn started(self) -> nat {
        if self.process.instance is Some {
            1
        } else {
            0
        }
    }

    /// Whether the operation can happen: what is used, resumed, ended or dropped exists, and the
    /// contexts can be counted.
    pub open spec fn admits(self, op: ContextOp<H>) -> bool {
        match op {
            ContextOp::BeginLoad => self.process.contexts < u32::MAX,
            ContextOp::ResumeLoad => self.waiting > 0,
            ContextOp::EndStart { outcome } => self.process.starting,
            ContextOp::AbandonStart => self.process.starting,
            ContextOp::Spawn { answered } => self.nodejs > 0 && self.process.contexts < u32::MAX,
            ContextOp::DropNodejs => self.nodejs > 0,
            ContextOp::DropWorker { stopped } => self.workers > 0,
        }
    }

    /// The world after the operation.
    pub open spec fn after(self, op: ContextOp<H>) -> World<H> {
        match op {
            ContextOp::BeginLoad => World { process: self.process.entered(), ..self }.turn(),
            ContextOp::ResumeLoad => World { waiting: (self.waiting - 1) as nat, ..self }.turn(),
            ContextOp::EndStart { outcome } => World {
                process: self.process.initialized(outcome),
                ..self
            }.handed_out(),
            ContextOp::AbandonStart => World {
                process: self.process.abandoned(),
                lost: self.lost + 1,
                abandoned: self.abandoned + 1,
                ..self
            },
            ContextOp::Spawn { answered } => World {
                process: self.process.entered(),
                workers: if answered {
                    self.workers + 1
                } else {
                    self.workers
                },
                lost: if answered {
                    self.lost
                } else {
                    self.lost + 1
                },
                ..self
            },
            ContextOp::DropNodejs => World { nodejs: (self.nodejs - 1) as nat, ..self.leave() },
            ContextOp::DropWorker { stopped } => if stopped {
                World { workers: (self.workers - 1) as nat, ..self.leave() }
            } else {
                World { workers: (self.workers - 1) as nat, lost: self.lost + 1, ..self }
            },
        }
    }

    /// The world after a load has had its turn: it starts the instance, or waits, or ends.
    pub open spec fn turn(self) -> World<H> {
        if self.process.is_unstarted() {
            World { process: self.process.claimed(), starts: self.starts + 1, ..self }
        } else if self.process.instance is None {
            World { process: self.process.claimed(), waiting: self.waiting + 1, ..self }
        } else {
            World { process: self.process.claimed(), ..self }.handed_out()
        }
    }

    /// The world after a load has ended: with a handle, or with the error of the instance.
    pub open spec fn handed_out(self) -> World<H> {
        if self.process.instance->0 is Ok {
            World { nodejs: self.nodejs + 1, ..self }
        } else {
            World { lost: self.lost + 1, ..self }
        }
    }

    /// The world after a context was given up.
    pub open spec fn leave(self) -> World<H> {
        World {
            process: self.process.left(),
            stops: if self.process.is_last() {
                self.stops + 1
            } else {
                self.stops
            },
            ..self
        }
    }

    /// The world after a history of operations, the first operation coming first.
    pub open spec fn after_all(self, ops: Seq<ContextOp<H>>) -> World<H>
        decreases ops.len(),
    {
        if ops.len() == 0 {
            self
        } else {
            self.after_all(ops.drop_last()).after(ops.last())
        }
    }

    /// Whether each operation of a history can happen when its turn comes.
    pub open spec fn admits_all(self, ops: Seq<ContextOp<H>>) -> bool
        decreases ops.len(),
    {
        ops.len() > 0 ==> {
            &&& self.admits_all(ops.drop_last())
            &&& self.after_all(ops.drop_last()).admits(ops.last())
        }
    }

    /// How many contexts there are: handles, loads that go on, and contexts that are lost.
    pub open spec fn contexts(self) -> nat {
        self.nodejs + self.workers + self.waiting + self.starting() + self.lost
    }

    /// What holds in every world.
    pub open spec fn sound(self) -> bool {
        &&& self.process.contexts == self.contexts()
        &&& self.starts == self.abandoned + self.starting() + self.started()
        &&& self.process.instance is Some ==> !self.process.starting
        &&& self.nodejs > 0 || self.workers > 0 || self.stops > 0 ==> (
        self.process.instance matches Some(Ok(_)))
    }
}

/// What a history counts when a load has its turn is what the load is told: to start the instance,
/// to wait, or that it has ended, with a handle or with an error. That holds of a load that begins
/// and of one that waited.
pub proof fn turns_are_those_of_loads<H: Host, P>(
    world: World<H>,
    op: ContextOp<H>,
    path: P,
    args: Seq<String>,
    load: Load<H, P>,
)
    requires
        op is BeginLoad || op is ResumeLoad,
        world.admits(op),
        goes_on(world.process, path, args, load),
    ensures
        ({
            let waiting = if op is ResumeLoad {
                world.waiting - 1
            } else {
                world.waiting as int
            };
            let after = world.after(op);
            &&& load is Start <==> after.starts == world.starts + 1
            &&& load !is Start <==> after.starts == world.starts
            &&& load is Wait <==> after.waiting == waiting + 1
            &&& load !is Wait <==> after.waiting == waiting
            &&& (load matches Load::Loaded(Ok(_))) <==> after.nodejs == world.nodejs + 1
            &&& !(load matches Load::Loaded(Ok(_))) <==> after.nodejs == world.nodejs
            &&& (load matches Load::Loaded(Err(_))) <==> after.lost == world.lost + 1
            &&& !(load matches Load::Loaded(Err(_))) <==> after.lost == world.lost
        }),
{
}

/// What a history counts when starting the instance has ended is what the load that started it is
/// told: that it has ended, with a handle or with an error.
pub proof fn ends_are_those_of_loads<H: Host>(
    world: World<H>,
    outcome: Result<H::MainSender, ErrorView>,
    loaded: Result<Nodejs<H>, Error>,
)
    requires
        world.admits(ContextOp::EndStart { outcome }),
        hands_out(world.process.initialized(outcome).instance->0, loaded),
    ensures
        ({
            let after = world.after(ContextOp::EndStart { outcome });
            &&& loaded is Ok <==> after.nodejs == world.nodejs + 1
            &&& loaded is Err <==> after.nodejs == world.nodejs
            &&& loaded is Err <==> after.lost == world.lost + 1
            &&& loaded is Ok <==> after.lost == world.lost
        }),
{
}

/// How a load goes on depends on the instance alone: the load starts it if no attempt to do so is
/// under way or has ended, waits if one is under way, and ends if one has ended. A load that starts
/// the instance does so from the library that it was given and with all its arguments, in their
/// order, and a load that waits keeps both.
pub proof fn loads_keep_path_and_arguments<H: Host, P>(
    process: ProcessView<H>,
    path: P,
    args: Seq<String>,
    load: Load<H, P>,
)
    requires
        goes_on(process, path, args, load),
    ensures
        load is Start <==> process.instance is None && !process.starting,
        load is Wait <==> process.instance is None && process.starting,
        load is Loaded <==> process.instance is Some,
        load matches Load::Start(step) ==> {
            &&& step.library() == path
            &&& step.argv()@.len() == args.len()
            &&& forall|i: int| 0 <= i < args.len() ==> #[trigger] step.argv()@[i] == args[i]
        },
        load matches Load::Wait(step) ==> {
            &&& step.library() == path
            &&& step.argv()@.len() == args.len()
            &&& forall|i: int| 0 <= i < args.len() ==> #[trigger] step.argv()@[i] == args[i]
        },
{
}

/// A load that had to wait, and then starts the instance after all, does so from the library and
/// with all the arguments that it was first given.
pub proof fn waiting_changes_neither_path_nor_arguments<H: Host, P>(
    before: ProcessView<H>,
    path: P,
    args: Seq<String>,
    load: Load<H, P>,
    after: ProcessView<H>,
    resumed: Load<H, P>,
)
    requires
        goes_on(before, path, args, load),
        load is Wait,
        goes_on(after, load->Wait_0.library(), load->Wait_0.argv()@, resumed),
    ensures
        resumed matches Load::Start(step) ==> step.library() == path && step.argv()@ == args,
        resumed matches Load::Wait(step) ==> step.library() == path && step.argv()@ == args,
{
}

/// What a load ends with is what starting the instance has ended with: a clone of its channel, or
/// an error with the same status and the same reason.
pub proof fn loads_hand_out_the_instance<H: Host>(
    instance: Result<H::MainSender, ErrorView>,
    loaded: Result<Nodejs<H>, Error>,
)
    requires
        hands_out(instance, loaded),
    ensures
        loaded is Ok <==> instance is Ok,
        loaded matches Ok(nodejs) ==> cloned(instance->Ok_0, nodejs.tx_main()),
        loaded matches Err(error) ==> error.status == instance->Err_0.status && error.reason@
            == instance->Err_0.reason,
{
}

/// Once an attempt to start the instance has ended, every load ends with what it has ended with,
/// whatever happened in between: a clone of the same channel, or an error with the same status and
/// the same reason.
pub proof fn every_load_gets_the_outcome<H: Host, P>(
    world: World<H>,
    outcome: Result<H::MainSender, Error>,
    ops: Seq<ContextOp<H>>,
    path: P,
    args: Seq<String>,
    load: Load<H, P>,
)
    requires
        world.process.instance is None,
        goes_on(
            world.after(ContextOp::EndStart { outcome: outcome_view(outcome) }).after_all(
                ops,
            ).process,
            path,
            args,
            load,
        ),
    ensures
        match outcome {
            Ok(tx_main) => load matches Load::Loaded(Ok(nodejs)) && cloned(
                tx_main,
                nodejs.tx_main(),
            ),
            Err(error) => load matches Load::Loaded(Err(e)) && e.status == error.status && e.reason@
                == error.reason@,
        },
{
    instance_never_changes(
        world.after(ContextOp::EndStart { outcome: outcome_view(outcome) }),
        ops,
    );
}

/// Each context counts for one, and going away undoes that; the count wraps around at the number of
/// values of a `u32`. A context is the last exactly if none is left when it goes away. Neither
/// touches the instance.
pub proof fn contexts_count_one_each<H: Host>(process: ProcessView<H>)
    ensures
        process.entered().contexts as int == (process.contexts + 1) % 0x1_0000_0000,
        process.left().contexts as int == (process.contexts - 1) % 0x1_0000_0000,
        process.is_last() <==> process.left().contexts == 0,
        process.is_last() <==> process.contexts == 1,
        process.entered().instance == process.instance,
        process.entered().starting == process.starting,
        process.left().instance == process.instance,
        process.left().starting == process.starting,
        ProcessView::<H>::initial().contexts == 0,
        ProcessView::<H>::initial().instance is None,
        !ProcessView::<H>::initial().starting,
{
}

/// Of the loads that have their turn one after the other, only the first can start the instance.
/// The first outcome of a start is kept as it is, and a later one is not. An attempt that is
/// abandoned leaves no outcome, and the instance to be started. None of that touches the count of
/// contexts.
pub proof fn first_outcome_is_kept<H: Host>(
    process: ProcessView<H>,
    outcome: Result<H::MainSender, ErrorView>,
)
    ensures
        process.is_unstarted() <==> process.instance is None && !process.starting,
        !process.claimed().is_unstarted(),
        process.claimed().starting <==> process.starting || process.instance is None,
        process.claimed().instance == process.instance,
        process.claimed().contexts == process.contexts,
        process.instance is None ==> process.initialized(outcome).instance == Some(outcome),
        process.instance is Some ==> process.initialized(outcome).instance == process.instance,
        !process.initialized(outcome).starting,
        process.initialized(outcome).contexts == process.contexts,
        process.abandoned().instance == process.instance,
        !process.abandoned().starting,
        process.abandoned().contexts == process.contexts,
{
}

/// What is remembered of how a start has ended is all of it: the channel itself, or the status and
/// the reason of the error.
pub proof fn outcome_is_remembered<T>(outcome: Result<T, Error>)
    ensures
        match outcome {
            Ok(value) => outcome_view(outcome) == Ok::<T, ErrorView>(value),
            Err(error) => outcome_view(outcome) matches Err(e) && e.status == error.status
                && e.reason == error.reason@,
        },
{
}

/// The count of contexts is exact at any time: it is that of the handles, of the loads that wait or
/// start the instance, and of the contexts that were lost.
pub proof fn contexts_are_counted<H: Host>(ops: Seq<ContextOp<H>>)
    requires
        World::<H>::initial().admits_all(ops),
    ensures
        World::<H>::initial().after_all(ops).sound(),
        World::<H>::initial().after_all(ops).process.contexts == World::<H>::initial().after_all(
            ops,
        ).contexts(),
    decreases ops.len(),
{
    if ops.len() > 0 {
        contexts_are_counted(ops.drop_last());
    }
}

/// However loads overlap, at most one of those that were told to start the instance did not abandon
/// the attempt. In particular, as long as no attempt is abandoned, the instance is started at most
/// once.
pub proof fn instance_is_started_at_most_once<H: Host>(ops: Seq<ContextOp<H>>)
    requires
        World::<H>::initial().admits_all(ops),
    ensures
        World::<H>::initial().after_all(ops).starts <= World::<H>::initial().after_all(
            ops,
        ).abandoned + 1,
{
    contexts_are_counted(ops);
}

/// A load is told to start the instance only if no attempt to do so is under way and none has
/// ended: two attempts never overlap.
pub proof fn attempts_never_overlap<H: Host>(ops: Seq<ContextOp<H>>, op: ContextOp<H>)
    requires
        World::<H>::initial().admits_all(ops),
        World::<H>::initial().after_all(ops).admits(op),
        World::<H>::initial().after_all(ops).after(op).starts > World::<H>::initial().after_all(
            ops,
        ).starts,
    ensures
        World::<H>::initial().after_all(ops).starting() == 0,
        World::<H>::initial().after_all(ops).started() == 0,
        World::<H>::initial().after_all(ops).after(op).starting() == 1,
{
    contexts_are_counted(ops);
}

/// Once an attempt to start the instance has ended, its outcome is what every later load goes by:
/// it never changes, and nobody is told to start the instance again, not even after it was stopped.
pub proof fn instance_never_changes<H: Host>(world: World<H>, ops: Seq<ContextOp<H>>)
    requires
        world.process.instance is Some,
    ensures
        world.after_all(ops).process.instance == world.process.instance,
        world.after_all(ops).starts == world.starts,
    decreases ops.len(),
{
    if ops.len() > 0 {
        instance_never_changes(world, ops.drop_last());
    }
}

/// A drop tells the main thread to stop exactly if it leaves no context: no handle, no load that
/// waits, and no lost context. In particular, a load that waits keeps the main thread running, and
/// as long as no context is lost, it is the drop of the last handle that stops it.
pub proof fn last_drop_stops_the_main_thread<H: Host>(ops: Seq<ContextOp<H>>, op: ContextOp<H>)
    requires
        World::<H>::initial().admits_all(ops),
        World::<H>::initial().after_all(ops).admits(op),
        op is DropNodejs || op == (ContextOp::<H>::DropWorker { stopped: true }),
    ensures
        ({
            let before = World::<H>::initial().after_all(ops);
            let after = before.after(op);
            &&& after.stops == before.stops + 1 <==> after.contexts() == 0
            &&& after.stops == before.stops <==> after.contexts() > 0
        }),
{
    contexts_are_counted(ops);
}

/// Nothing but a drop tells the main thread to stop.
pub proof fn only_drops_stop_the_main_thread<H: Host>(world: World<H>, op: ContextOp<H>)
    requires
        op !is DropNodejs,
        op != (ContextOp::<H>::DropWorker { stopped: true }),
    ensures
        world.after(op).stops == world.stops,
{
}

/// There are handles only if the instance was started with success. If starting it failed, there is
/// never a handle, and nothing is ever told to stop.
pub proof fn failed_start_leaves_no_handles<H: Host>(ops: Seq<ContextOp<H>>)
    requires
        World::<H>::initial().admits_all(ops),
        !(World::<H>::initial().after_all(ops).process.instance matches Some(Ok(_))),
    ensures
        World::<H>::initial().after_all(ops).nodejs == 0,
        World::<H>::initial().after_all(ops).workers == 0,
        World::<H>::initial().after_all(ops).stops == 0,
{
    contexts_are_counted(ops);
}

/// Once an attempt to start the instance has ended, each load that waits ends when its turn comes:
/// with a handle, or with the error that starting the instance ended with.
pub proof fn waiting_loads_end<H: Host>(world: World<H>)
    requires
        world.process.instance is Some,
        world.waiting > 0,
    ensures
        ({
            let after = world.after(ContextOp::ResumeLoad);
            &&& after.waiting == world.waiting - 1
            &&& after.nodejs + after.lost == world.nodejs + world.lost + 1
            &&& after.nodejs == world.nodejs + 1 <==> world.process.instance->0 is Ok
        }),
{
}

/// Once an attempt to start the instance is abandoned, the next load to have its turn starts the
/// instance.
pub proof fn abandoned_start_is_retried<H: Host>(ops: Seq<ContextOp<H>>, op: ContextOp<H>)
    requires
        World::<H>::initial().admits_all(ops),
        World::<H>::initial().after_all(ops).process.starting,
        op is BeginLoad || op is ResumeLoad,
    ensures
        ({
            let abandoned = World::<H>::initial().after_all(ops).after(ContextOp::AbandonStart);
            &&& abandoned.starting() == 0
            &&& abandoned.after(op).starting() == 1
            &&& abandoned.after(op).starts == abandoned.starts + 1
        }),
{
    contexts_are_counted(ops);
}

/// Giving a context up undoes taking it.
pub proof fn leaving_undoes_entering<H: Host>(process: ProcessView<H>)
    ensures
        process.entered().left() == process,
        process.left().entered() == process,
{
}

} // verus!
