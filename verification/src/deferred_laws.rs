//! What holds of a deferred over its whole life.

use vstd::prelude::*;
use crate::deferred::{
    finalizer_unhooks, AddHook, CallMode, CallResolver, ConvertValue, CreateName, CreateTsfn,
    DeferredData, HandleView, JsObject, NewStage, NextView, PromiseStage, PromiseView, RawDeferred,
    RejectPromise, ReleaseMode, ReleaseTsfn, RemoveHook, ResolvePromise, Settlement, TsfnUse, Value,
    ValueType, ASYNC_RESOURCE_NAME, ASYNC_RESOURCE_NAME_LENGTH, NULL,
};
use crate::error::{Error, ErrorView, NAPI_OK};

verus! {

/// Something that happens to the handle of a deferred.
pub enum HandleOp {
    /// A clone of the deferred is resolved or rejected.
    Settle,
    /// The environment tears down. `reachable` tells whether a clone of the deferred is left.
    Teardown { reachable: bool },
    /// The threadsafe function is finalized. `reachable` tells whether a clone of the deferred is
    /// left.
    Finalize { reachable: bool },
}

impl HandleOp {
    /// Whether the operation closes the handle.
    pub open spec fn closes(self) -> bool {
        match self {
            HandleOp::Settle => true,
            HandleOp::Teardown { reachable } => reachable,
            HandleOp::Finalize { reachable } => reachable,
        }
    }

    /// The uses of the threadsafe function that the operation makes of `handle`.
    pub open spec fn uses(self, handle: HandleView) -> Seq<TsfnUse> {
        match self {
            HandleOp::Settle => handle.settle_uses(),
            HandleOp::Teardown { reachable } => if reachable {
                handle.teardown_uses()
            } else {
                seq![]
            },
            HandleOp::Finalize { .. } => seq![],
        }
    }

    /// The handle after the operation.
    pub open spec fn apply(self, handle: HandleView) -> HandleView {
        if self.closes() {
            handle.closed()
        } else {
            handle
        }
    }
}

/// The handle after a history of operations, the first operation coming first.
pub open spec fn handle_after(handle: HandleView, ops: Seq<HandleOp>) -> HandleView
    decreases ops.len(),
{
    if ops.len() == 0 {
        handle
    } else {
        handle_after(ops.first().apply(handle), ops.drop_first())
    }
}

/// All uses of the threadsafe function in a history, in their order.
pub open spec fn uses_in(handle: HandleView, ops: Seq<HandleOp>) -> Seq<TsfnUse>
    decreases ops.len(),
{
    if ops.len() == 0 {
        seq![]
    } else {
        ops.first().uses(handle) + uses_in(ops.first().apply(handle), ops.drop_first())
    }
}

/// The first operation of a history that closes the handle.
pub open spec fn first_closing(ops: Seq<HandleOp>) -> Option<HandleOp>
    decreases ops.len(),
{
    if ops.len() == 0 {
        None
    } else if ops.first().closes() {
        Some(ops.first())
    } else {
        first_closing(ops.drop_first())
    }
}

/// How many releases there are among some uses.
pub open spec fn releases(uses: Seq<TsfnUse>) -> nat {
    uses.filter(|u: TsfnUse| u is Release).len()
}

/// A closed handle stays closed, and its threadsafe function is never used again.
pub proof fn closed_handle_is_inert(handle: HandleView, ops: Seq<HandleOp>)
    requires
        handle.aborted,
    ensures
        uses_in(handle, ops) == Seq::<TsfnUse>::empty(),
        handle_after(handle, ops) == handle,
    decreases ops.len(),
{
    if ops.len() > 0 {
        assert(ops.first().apply(handle) == handle);
        closed_handle_is_inert(handle, ops.drop_first());
    }
}

/// The first operation that closes the handle decides everything: the threadsafe function is used
/// by that operation and by no other. If it is a settlement, the function is called and then
/// released; if it is a teardown, the function is aborted without having been called; otherwise the
/// function is not used at all.
pub proof fn first_closing_operation_decides(handle: HandleView, ops: Seq<HandleOp>)
    requires
        !handle.aborted,
    ensures
        uses_in(handle, ops) == match first_closing(ops) {
            Some(op) => op.uses(handle),
            None => seq![],
        },
        handle_after(handle, ops).tsfn == handle.tsfn,
        handle_after(handle, ops).aborted <==> first_closing(ops) is Some,
    decreases ops.len(),
{
    if ops.len() > 0 {
        let op = ops.first();
        if op.closes() {
            closed_handle_is_inert(handle.closed(), ops.drop_first());
            assert(uses_in(handle, ops) =~= op.uses(handle));
        } else {
            first_closing_operation_decides(handle, ops.drop_first());
            assert(op.uses(handle) =~= seq![]);
            assert(uses_in(handle, ops) =~= uses_in(handle, ops.drop_first()));
        }
    }
}

/// The threadsafe function is released at most once, whatever happens to the deferred, and exactly
/// once if the first operation that closes the handle settles the deferred or tears down its
/// environment.
pub proof fn released_exactly_once(handle: HandleView, ops: Seq<HandleOp>)
    requires
        !handle.aborted,
    ensures
        releases(uses_in(handle, ops)) <= 1,
        releases(uses_in(handle, ops)) == 1 <==> (first_closing(ops) matches Some(op) && op
            !is Finalize),
{
    first_closing_operation_decides(handle, ops);
    first_closing_closes(ops);
    let uses = uses_in(handle, ops);
    reveal_with_fuel(Seq::filter, 3);
    if first_closing(ops) is Some {
        match first_closing(ops)->0 {
            HandleOp::Settle => {
                assert(uses.drop_last() =~= seq![uses[0]]);
                assert(uses.drop_last().drop_last() =~= seq![]);
            },
            HandleOp::Teardown { reachable } => {
                assert(uses.drop_last() =~= seq![]);
            },
            HandleOp::Finalize { reachable } => {},
        }
    }
}

/// The operation that [`first_closing`] finds closes the handle.
proof fn first_closing_closes(ops: Seq<HandleOp>)
    ensures
        first_closing(ops) matches Some(op) ==> op.closes(),
    decreases ops.len(),
{
    if ops.len() > 0 && !ops.first().closes() {
        first_closing_closes(ops.drop_first());
    }
}

/// The threadsafe function is never called without being released right after, and never used once
/// released.
pub proof fn never_used_after_release(handle: HandleView, ops: Seq<HandleOp>, i: int)
    requires
        !handle.aborted,
        0 <= i < uses_in(handle, ops).len(),
    ensures
        uses_in(handle, ops)[i] is Release ==> i == uses_in(handle, ops).len() - 1,
        uses_in(handle, ops)[i] is Call ==> i + 1 < uses_in(handle, ops).len() && uses_in(
            handle,
            ops,
        )[i + 1] is Release,
{
    first_closing_operation_decides(handle, ops);
}

/// A handle closes once and for all, and its threadsafe function stays the same: both hold after
/// any history. The threadsafe function is used only by operations that find the handle open.
pub proof fn handle_only_ever_closes(handle: HandleView, ops: Seq<HandleOp>, op: HandleOp)
    ensures
        handle_after(handle, ops).tsfn == handle.tsfn,
        handle.aborted ==> handle_after(handle, ops).aborted,
        op.uses(handle_after(handle, ops)).len() > 0 ==> !handle_after(handle, ops).aborted
            && !handle.aborted,
{
    if handle.aborted {
        closed_handle_is_inert(handle, ops);
    } else {
        first_closing_operation_decides(handle, ops);
    }
}

/// What becomes of the threadsafe function of a handle, over any history. Each use is of the
/// function that the handle holds. If a settlement closes the handle, the function is called, in
/// the mode that waits for room in the queue, and then released; if a teardown does, it is aborted
/// and nothing else; in all other cases it is not used.
pub proof fn uses_are_of_the_handles_function(handle: HandleView, ops: Seq<HandleOp>)
    ensures
        forall|i: int|
            0 <= i < uses_in(handle, ops).len() ==> match #[trigger] uses_in(handle, ops)[i] {
                TsfnUse::Call { tsfn, mode } => tsfn == handle.tsfn,
                TsfnUse::Release { tsfn, mode } => tsfn == handle.tsfn,
            },
        !handle.aborted && first_closing(ops) == Some(HandleOp::Settle) ==> uses_in(handle, ops)
            == seq![
            TsfnUse::Call { tsfn: handle.tsfn, mode: CallMode::Blocking },
            TsfnUse::Release { tsfn: handle.tsfn, mode: ReleaseMode::Release },
        ],
        !handle.aborted && first_closing(ops) == Some(HandleOp::Teardown { reachable: true })
            ==> uses_in(handle, ops) == seq![
            TsfnUse::Release { tsfn: handle.tsfn, mode: ReleaseMode::Abort },
        ],
        handle.aborted || first_closing(ops) is None || first_closing(ops)->0 is Finalize
            ==> uses_in(handle, ops).len() == 0,
{
    if handle.aborted {
        closed_handle_is_inert(handle, ops);
    } else {
        first_closing_operation_decides(handle, ops);
        first_closing_closes(ops);
    }
}

/// A teardown lets go of the function that the handle holds, in the mode that closes it at once,
/// exactly if the handle is open.
pub proof fn teardown_aborts_the_handles_function(handle: HandleView)
    ensures
        handle.teardown_release() is Some <==> !handle.aborted,
        handle.teardown_release() matches Some(ReleaseTsfn { tsfn, mode }) ==> tsfn == handle.tsfn
            && mode == ReleaseMode::Abort,
        handle.teardown_uses().len() <= 1,
        handle.teardown_uses().len() == 1 ==> handle.teardown_uses()[0] == (TsfnUse::Release {
            tsfn: handle.tsfn,
            mode: ReleaseMode::Abort,
        }),
{
}

/// Closing a handle, and learning how its threadsafe function was created, leave the rest of it as
/// it is.
pub proof fn handle_keeps_the_rest<E>(handle: HandleView, raw: Result<RawDeferred, E>)
    ensures
        handle.closed().aborted,
        handle.closed().tsfn == handle.tsfn,
        handle.stored(raw).aborted == handle.aborted,
        raw matches Ok(created) ==> handle.stored(raw).tsfn == created.tsfn,
        raw is Err ==> handle.stored(raw).tsfn == handle.tsfn,
{
}

/// What is done with a settlement is what it says: data that is discarded goes with no use, and
/// data that is delivered goes with a call and a release of the function it names.
pub proof fn settlement_uses_the_function_it_names<R>(settlement: Settlement<R>)
    ensures
        match settlement {
            Settlement::Discard(dropped) => {
                &&& settlement.uses().len() == 0
                &&& settlement.data() == dropped
            },
            Settlement::Settle { tsfn, data, call, release } => {
                &&& settlement.uses().len() == 2
                &&& settlement.uses()[0] == (TsfnUse::Call { tsfn, mode: call })
                &&& settlement.uses()[1] == (TsfnUse::Release { tsfn, mode: release })
                &&& settlement.data() == data
            },
        },
{
}

/// If clones of a deferred are settled, or its environment tears down while one is left, in any
/// order and any number of times, the threadsafe function is released exactly once in all: in the
/// ordinary way, after having been called once, if a settlement came first, and as an abort,
/// without having been called, if a teardown did.
pub proof fn settling_and_teardown_release_once(handle: HandleView, ops: Seq<HandleOp>)
    requires
        !handle.aborted,
        ops.len() > 0,
        forall|i: int|
            0 <= i < ops.len() ==> (#[trigger] ops[i] is Settle || ops[i] == (HandleOp::Teardown {
                reachable: true,
            })),
    ensures
        releases(uses_in(handle, ops)) == 1,
        ops[0] is Settle ==> uses_in(handle, ops) == handle.settle_uses(),
        ops[0] is Teardown ==> uses_in(handle, ops) == handle.teardown_uses(),
{
    assert(ops.first() == ops[0]);
    first_closing_operation_decides(handle, ops);
    released_exactly_once(handle, ops);
}

/// What the calls of Node-API report while a deferred is created.
pub struct CreationReplies {
    pub promise_status: i32,
    pub raw_deferred: usize,
    pub raw_promise: usize,
    pub name_status: i32,
    pub name: usize,
    pub tsfn_status: i32,
    pub tsfn: usize,
    pub hook_status: i32,
}

/// How the creation of a deferred ended.
pub struct Creation<S, C> {
    /// How many calls of Node-API were made.
    pub calls: nat,
    /// The weak references that were freed.
    pub freed: Seq<usize>,
    /// The handle, if it was new when the creation began.
    pub handle: HandleView,
    /// The name that was asked for.
    pub name: Option<CreateName>,
    /// The threadsafe function that was created, and what it was created with.
    pub tsfn: Option<(usize, CreateTsfn<C>)>,
    /// The cleanup hook that was to be added.
    pub hooking: Option<AddHook>,
    /// The cleanup hook that was added.
    pub hook: Option<AddHook>,
    /// The shared reference of the deferred and its promise, or the error.
    pub result: Result<(S, JsObject), ErrorView>,
}

/// What a deferred is created from.
pub struct CreationArgs<S, C> {
    pub env: usize,
    pub handle: S,
    pub handle_weak: usize,
    pub call_js: C,
}

/// Goes on from the outcome of creating the promise and the threadsafe function.
pub open spec fn creation_from_raw<S, C>(
    args: CreationArgs<S, C>,
    calls: nat,
    name: Option<CreateName>,
    params: Option<CreateTsfn<C>>,
    raw: Result<RawDeferred, ErrorView>,
    hook_status: i32,
) -> Creation<S, C> {
    let handle = HandleView { tsfn: NULL, aborted: false }.stored(raw);
    let new = NewStage { env: args.env, handle: args.handle, handle_weak: args.handle_weak };
    match new.on_raw(raw) {
        Err((error, free)) => Creation {
            calls,
            freed: seq![free],
            handle,
            name,
            tsfn: None,
            hooking: None,
            hook: None,
            result: Err(error),
        },
        Ok((hook, stage)) => Creation {
            calls: calls + 1,
            freed: seq![],
            handle,
            name,
            tsfn: Some((raw->Ok_0.tsfn, params->0)),
            hooking: Some(hook),
            hook: if hook_status == NAPI_OK {
                Some(hook)
            } else {
                None
            },
            result: stage.on_hooked(hook_status),
        },
    }
}

/// Follows the creation of a deferred through all its steps, as far as the replies let it get.
pub open spec fn creation<S, C>(args: CreationArgs<S, C>, r: CreationReplies) -> Creation<S, C> {
    let first = PromiseStage {
        env: args.env,
        finalize_data: args.handle_weak,
        call_js: args.call_js,
    };
    match first.on_created(r.promise_status, r.raw_deferred, r.raw_promise) {
        Err(error) => creation_from_raw(args, 1, None, None, Err(error), r.hook_status),
        Ok((name, second)) => match second.on_created(r.name_status, r.name) {
            Err(error) => creation_from_raw(args, 2, Some(name), None, Err(error), r.hook_status),
            Ok((params, third)) => creation_from_raw(
                args,
                3,
                Some(name),
                Some(params),
                third.on_created(r.tsfn_status, r.tsfn),
                r.hook_status,
            ),
        },
    }
}

/// All weak references that are freed, by the creation and by the finalizer of the threadsafe
/// function that it left behind.
pub open spec fn freed_in_total<S, C>(c: Creation<S, C>) -> Seq<usize> {
    c.freed + match c.tsfn {
        Some((_, params)) => seq![params.finalize_data],
        None => seq![],
    }
}

/// The weak reference to the handle is freed exactly once: by the creation if no threadsafe
/// function came to exist, and otherwise by the finalizer of that function, even if the creation
/// failed later.
pub proof fn weak_reference_is_freed_once<S, C>(args: CreationArgs<S, C>, r: CreationReplies)
    ensures
        freed_in_total(creation(args, r)) == seq![args.handle_weak],
        creation(args, r).freed.len() == 0 <==> creation(args, r).tsfn is Some,
{
}

/// A deferred is created if and only if every call of Node-API succeeds. Its promise is the one
/// that was created, as an object of the environment.
pub proof fn created_iff_every_call_succeeds<S, C>(args: CreationArgs<S, C>, r: CreationReplies)
    ensures
        ({
            let c = creation(args, r);
            &&& c.result is Ok <==> r.promise_status == NAPI_OK && r.name_status == NAPI_OK
                && r.tsfn_status == NAPI_OK && r.hook_status == NAPI_OK
            &&& c.result matches Ok((shared, promise)) ==> {
                &&& shared == args.handle
                &&& promise == JsObject(
                    Value { env: args.env, value: r.raw_promise, value_type: ValueType::Object },
                )
            }
        }),
{
}

/// The threadsafe function of a deferred runs the callback that the creation was given, settles the
/// deferred that belongs to the promise, hands the weak reference to its finalizer, has no function
/// of JavaScript and no limit to its queue, and belongs to one thread.
pub proof fn threadsafe_function_serves_its_promise<S, C>(
    args: CreationArgs<S, C>,
    r: CreationReplies,
)
    requires
        creation(args, r).tsfn is Some,
    ensures
        r.promise_status == NAPI_OK && r.name_status == NAPI_OK && r.tsfn_status == NAPI_OK,
        creation(args, r).tsfn == Some(
            (
                r.tsfn,
                CreateTsfn {
                    env: args.env,
                    func: NULL,
                    async_resource: NULL,
                    async_resource_name: r.name,
                    max_queue_size: 0,
                    initial_thread_count: 1,
                    finalize_data: args.handle_weak,
                    context: r.raw_deferred,
                    call_js: args.call_js,
                },
            ),
        ),
{
}

/// The calls that a creation makes, and what they are about. The name is asked for in the
/// environment of the promise, with the length of the whole text. The cleanup hook is for that
/// environment, and its argument is the weak reference, the same that the finalizer of the
/// threadsafe function is handed. Each call is made exactly if all before it succeeded.
pub proof fn creation_makes_these_calls<S, C>(args: CreationArgs<S, C>, r: CreationReplies)
    ensures
        ({
            let c = creation(args, r);
            let named = r.promise_status == NAPI_OK;
            let made = named && r.name_status == NAPI_OK;
            let hooked = made && r.tsfn_status == NAPI_OK;
            &&& c.name is Some <==> named
            &&& c.name matches Some(name) ==> name.env == args.env && name.length
                == ASYNC_RESOURCE_NAME@.len()
            &&& c.tsfn is Some <==> hooked
            &&& c.tsfn matches Some((tsfn, params)) ==> tsfn == r.tsfn && params.finalize_data
                == args.handle_weak && params.context == r.raw_deferred
            &&& c.hooking is Some <==> hooked
            &&& c.hooking matches Some(hook) ==> hook == (AddHook {
                env: args.env,
                arg: args.handle_weak,
            })
            &&& c.calls == 1 <==> !named
            &&& c.calls == 2 <==> named && !made
            &&& c.calls == 3 <==> made && !hooked
            &&& c.calls == 4 <==> hooked
        }),
{
    resource_name_is_whole();
}

/// If the creation succeeds, the cleanup hook that was added is that of the environment and of the
/// weak reference, which is also what the finalizer of the threadsafe function is handed and what
/// it takes the hook away with. If the creation fails, no hook is left behind.
pub proof fn hook_belongs_to_the_weak_reference<S, C>(args: CreationArgs<S, C>, r: CreationReplies)
    ensures
        ({
            let c = creation(args, r);
            &&& c.hook is Some <==> c.result is Ok
            &&& c.hook matches Some(hook) ==> hook == (AddHook {
                env: args.env,
                arg: args.handle_weak,
            })
            &&& c.hook is Some ==> c.tsfn is Some
            &&& c.tsfn matches Some((_, params)) ==> params.finalize_data == args.handle_weak
            &&& c.tsfn matches Some((_, params)) ==> args.env != NULL ==> finalizer_unhooks(
                args.env,
                params.finalize_data,
            ) == Some(RemoveHook { env: args.env, arg: args.handle_weak })
        }),
{
}

/// A finalizer takes a hook away exactly if there is an environment: the one of that environment
/// whose argument is what the finalizer was handed.
pub proof fn finalizer_unhooks_what_it_was_handed(env: usize, finalize_data: usize)
    ensures
        finalizer_unhooks(env, finalize_data) is Some <==> env != NULL,
        finalizer_unhooks(env, finalize_data) matches Some(hook) ==> hook.env == env && hook.arg
            == finalize_data,
{
}

/// A creation that fails says which call failed, with the status of that call.
pub proof fn failed_creation_names_the_call<S, C>(args: CreationArgs<S, C>, r: CreationReplies)
    ensures
        creation(args, r).result matches Err(error) ==> if r.promise_status != NAPI_OK {
            error.status == r.promise_status && error.reason == ""@
        } else if r.name_status != NAPI_OK {
            error.status == r.name_status && error.reason
                == "Create async resource name in JsDeferred failed"@
        } else if r.tsfn_status != NAPI_OK {
            error.status == r.tsfn_status && error.reason
                == "Create threadsafe function in JsDeferred failed"@
        } else {
            error.status == r.hook_status && error.reason == ""@
        },
{
}

/// The handle of a new deferred is open, and holds the threadsafe function that was created, or
/// none if none was.
pub proof fn new_handle_holds_the_created_function<S, C>(
    args: CreationArgs<S, C>,
    r: CreationReplies,
)
    ensures
        !creation(args, r).handle.aborted,
        r.promise_status == NAPI_OK && r.name_status == NAPI_OK && r.tsfn_status == NAPI_OK
            ==> creation(args, r).handle.tsfn == r.tsfn,
        r.promise_status != NAPI_OK || r.name_status != NAPI_OK || r.tsfn_status != NAPI_OK
            ==> creation(args, r).handle.tsfn == NULL,
{
}

/// Whatever happens to a new deferred, each use is of the threadsafe function that was created for
/// it. If a settlement comes first, that function is called and released; if a teardown does, it is
/// aborted.
pub proof fn new_deferred_uses_only_its_own_function<S, C>(
    args: CreationArgs<S, C>,
    r: CreationReplies,
    ops: Seq<HandleOp>,
)
    requires
        creation(args, r).result is Ok,
    ensures
        ({
            let uses = uses_in(creation(args, r).handle, ops);
            &&& forall|i: int|
                0 <= i < uses.len() ==> match #[trigger] uses[i] {
                    TsfnUse::Call { tsfn, mode } => tsfn == r.tsfn,
                    TsfnUse::Release { tsfn, mode } => tsfn == r.tsfn,
                }
            &&& first_closing(ops) == Some(HandleOp::Settle) ==> uses == seq![
                TsfnUse::Call { tsfn: r.tsfn, mode: CallMode::Blocking },
                TsfnUse::Release { tsfn: r.tsfn, mode: ReleaseMode::Release },
            ]
            &&& first_closing(ops) == Some(HandleOp::Teardown { reachable: true }) ==> uses == seq![
                TsfnUse::Release { tsfn: r.tsfn, mode: ReleaseMode::Abort },
            ]
        }),
{
    new_handle_holds_the_created_function(args, r);
    uses_are_of_the_handles_function(creation(args, r).handle, ops);
}

/// A new deferred is settled through the threadsafe function that was created for it, which is
/// called once and then released.
pub proof fn new_deferred_settles_through_its_own_function<S, C>(
    args: CreationArgs<S, C>,
    r: CreationReplies,
)
    requires
        creation(args, r).result is Ok,
    ensures
        creation(args, r).handle.settle_uses() == seq![
            TsfnUse::Call { tsfn: r.tsfn, mode: CallMode::Blocking },
            TsfnUse::Release { tsfn: r.tsfn, mode: ReleaseMode::Release },
        ],
{
}

/// The finalizer of a deferred removes exactly the cleanup hook that the creation added, as long as
/// the environment exists.
pub proof fn finalizer_removes_the_hook_that_was_added<S, C>(
    args: CreationArgs<S, C>,
    r: CreationReplies,
)
    requires
        args.env != NULL,
        creation(args, r).result is Ok,
    ensures
        ({
            let c = creation(args, r);
            c.hook matches Some(hook) && c.tsfn matches Some((_, params)) && finalizer_unhooks(
                args.env,
                params.finalize_data,
            ) == Some(RemoveHook { env: hook.env, arg: hook.arg })
        }),
{
}

/// The creation stops at the first call that fails, and reports the status of that call.
pub proof fn first_failing_call_is_reported<S, C>(args: CreationArgs<S, C>, r: CreationReplies)
    ensures
        ({
            let c = creation(args, r);
            let statuses = seq![r.promise_status, r.name_status, r.tsfn_status, r.hook_status];
            &&& 1 <= c.calls <= 4
            &&& forall|i: int| 0 <= i < c.calls - 1 ==> #[trigger] statuses[i] == NAPI_OK
            &&& c.result matches Err(error) ==> error.status == statuses[c.calls - 1]
                && error.status != NAPI_OK
        }),
{
}

/// The length that goes with the name of the threadsafe function is that of the whole text, the
/// terminator at its end counted.
pub proof fn resource_name_is_whole()
    ensures
        ASYNC_RESOURCE_NAME@.len() == ASYNC_RESOURCE_NAME_LENGTH,
        ASYNC_RESOURCE_NAME@.last() == '\0',
        forall|i: int|
            0 <= i < ASYNC_RESOURCE_NAME@.len() ==> (#[trigger] ASYNC_RESOURCE_NAME@[i]) as int
                <= 127,
{
    reveal_strlit("napi_resolve_deferred\0");
}

/// What a delivery to the JavaScript thread leads to.
pub struct Fate<R, Data> {
    /// The call of the resolver, if it was called.
    pub call: Option<CallResolver<R>>,
    /// The conversion of what the resolver returned, if there was one.
    pub convert: Option<ConvertValue<Data>>,
    /// The resolution that was tried, if there was one.
    pub resolve: Option<ResolvePromise>,
    /// Whether Node-API accepted that.
    pub accepted: bool,
    /// The promise that is rejected, and the error that it is rejected with.
    pub reject: Option<(PromiseView, ErrorView)>,
}

/// Follows a delivery to the environment `env` through all its steps: `returned` is what the
/// resolver returns, if it is called, `converted` what its value is turned into, and `status` that
/// of resolving the promise.
pub open spec fn fate<R, Data>(
    env: usize,
    context: usize,
    data: DeferredData<R>,
    returned: Result<Data, Error>,
    converted: Result<usize, Error>,
    status: i32,
) -> Fate<R, Data> {
    let promise = PromiseView { env, deferred: context };
    if env == NULL {
        Fate { call: None, convert: None, resolve: None, accepted: false, reject: None }
    } else {
        match promise.on_delivered(data.resolver) {
            NextView::Reject(of, error) => rejected(None, None, of, error),
            NextView::Do(call, calling) => match calling.on_returned(returned) {
                NextView::Reject(of, error) => rejected(Some(call), None, of, error),
                NextView::Do(convert, converting) => match converting.on_converted(converted) {
                    NextView::Reject(of, error) => rejected(Some(call), Some(convert), of, error),
                    NextView::Do(resolve, resolving) => Fate {
                        call: Some(call),
                        convert: Some(convert),
                        resolve: Some(resolve),
                        accepted: resolving.on_resolved(status) is None,
                        reject: match resolving.on_resolved(status) {
                            None => None,
                            Some(error) => Some((resolving, error)),
                        },
                    },
                },
            },
        }
    }
}

/// A promise that is rejected without having been resolved.
pub open spec fn rejected<R, Data>(
    call: Option<CallResolver<R>>,
    convert: Option<ConvertValue<Data>>,
    of: PromiseView,
    error: ErrorView,
) -> Fate<R, Data> {
    Fate { call, convert, resolve: None, accepted: false, reject: Some((of, error)) }
}

/// A delivery to a living environment settles the promise exactly once: it is resolved, or it is
/// rejected, and never both. It is resolved exactly if nothing fails on the way.
pub proof fn promise_is_settled_exactly_once<R, Data>(
    env: usize,
    context: usize,
    data: DeferredData<R>,
    returned: Result<Data, Error>,
    converted: Result<usize, Error>,
    status: i32,
)
    requires
        env != NULL,
    ensures
        ({
            let f = fate(env, context, data, returned, converted, status);
            &&& f.accepted <==> f.reject is None
            &&& f.accepted <==> data.resolver is Ok && returned is Ok && converted is Ok && status
                == NAPI_OK
            &&& f.accepted ==> f.resolve == Some(
                ResolvePromise { env, deferred: context, value: converted->Ok_0 },
            )
            &&& f.call is Some <==> data.resolver is Ok
        }),
{
}

/// What a delivery to a living environment does on its way: the resolver that was delivered is
/// called in that environment, what it returned is turned into a value of that environment, and
/// that value is what the deferred that the threadsafe function serves is resolved with. Each is
/// done exactly if all before it succeeded.
pub proof fn delivery_resolves_its_own_deferred<R, Data>(
    env: usize,
    context: usize,
    data: DeferredData<R>,
    returned: Result<Data, Error>,
    converted: Result<usize, Error>,
    status: i32,
)
    requires
        env != NULL,
    ensures
        ({
            let f = fate(env, context, data, returned, converted, status);
            &&& f.call is Some <==> data.resolver is Ok
            &&& f.call matches Some(call) ==> call.env == env && data.resolver == Ok::<R, Error>(
                call.resolver,
            )
            &&& f.convert is Some <==> data.resolver is Ok && returned is Ok
            &&& f.convert matches Some(convert) ==> convert.env == env && returned == Ok::<
                Data,
                Error,
            >(convert.data)
            &&& f.resolve is Some <==> data.resolver is Ok && returned is Ok && converted is Ok
            &&& f.resolve matches Some(resolve) ==> resolve.env == env && resolve.deferred
                == context && converted == Ok::<usize, Error>(resolve.value)
        }),
{
}

/// Whenever a delivery ends in a rejection, at whichever step, it is the promise of the delivery
/// that is rejected: that of its environment, and of the deferred that the threadsafe function
/// serves.
pub proof fn delivery_rejects_its_own_deferred<R, Data>(
    env: usize,
    context: usize,
    data: DeferredData<R>,
    returned: Result<Data, Error>,
    converted: Result<usize, Error>,
    status: i32,
)
    ensures
        fate(env, context, data, returned, converted, status).reject matches Some((promise, _))
            ==> env != NULL && promise.env == env && promise.deferred == context,
{
}

/// A rejection is of the promise whose environment and deferred it names.
pub proof fn rejection_names_its_promise(reject: RejectPromise)
    ensures
        reject.promise().env == reject.env,
        reject.promise().deferred == reject.deferred,
{
}

/// What is delivered through the threadsafe function of a new deferred settles the promise that was
/// handed out with the deferred: it is resolved, or rejected, through the raw deferred that was
/// created together with it.
pub proof fn delivery_settles_the_promise_that_was_created<S, C, R, Data>(
    args: CreationArgs<S, C>,
    r: CreationReplies,
    env: usize,
    data: DeferredData<R>,
    returned: Result<Data, Error>,
    converted: Result<usize, Error>,
    status: i32,
)
    requires
        creation(args, r).result is Ok,
        env != NULL,
    ensures
        ({
            let (_, promise) = creation(args, r).result->Ok_0;
            let (_, params) = creation(args, r).tsfn->0;
            let f = fate(env, params.context, data, returned, converted, status);
            &&& promise.0.value == r.raw_promise
            &&& f.accepted ==> f.resolve is Some
            &&& f.resolve matches Some(resolve) ==> resolve.env == env && resolve.deferred
                == r.raw_deferred
            &&& !f.accepted ==> f.reject is Some
            &&& f.reject matches Some((rejected, _)) ==> rejected.env == env && rejected.deferred
                == r.raw_deferred
        }),
{
}

/// Without an environment nothing happens to the promise, and the resolver is not called.
pub proof fn nothing_is_settled_without_environment<R, Data>(
    context: usize,
    data: DeferredData<R>,
    returned: Result<Data, Error>,
    converted: Result<usize, Error>,
    status: i32,
)
    ensures
        ({
            let f = fate(NULL, context, data, returned, converted, status);
            &&& f.call is None
            &&& f.convert is None
            &&& f.resolve is None
            &&& !f.accepted
            &&& f.reject is None
        }),
{
}

/// The promise is rejected with the first error on the way: the one that the deferred was rejected
/// with, that of the resolver, that of the conversion of its value, or that of resolving the
/// promise. It is the promise of `env` and of the deferred `context` that is rejected.
pub proof fn first_error_rejects_the_promise<R, Data>(
    env: usize,
    context: usize,
    data: DeferredData<R>,
    returned: Result<Data, Error>,
    converted: Result<usize, Error>,
    status: i32,
)
    requires
        env != NULL,
    ensures
        ({
            let reject = fate(env, context, data, returned, converted, status).reject;
            let promise = PromiseView { env, deferred: context };
            match data.resolver {
                Err(error) => reject == Some(
                    (promise, ErrorView { status: error.status, reason: error.reason@ }),
                ),
                Ok(_) => match returned {
                    Err(error) => reject == Some(
                        (promise, ErrorView { status: error.status, reason: error.reason@ }),
                    ),
                    Ok(_) => match converted {
                        Err(error) => reject == Some(
                            (promise, ErrorView { status: error.status, reason: error.reason@ }),
                        ),
                        Ok(_) => if status == NAPI_OK {
                            reject is None
                        } else {
                            reject == Some(
                                (
                                    promise,
                                    ErrorView { status, reason: "Resolve deferred value failed"@ },
                                ),
                            )
                        },
                    },
                },
            }
        }),
{
}

} // verus!
