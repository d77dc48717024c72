//! Promises that are settled from any thread.
//!
//! A deferred owns a threadsafe function of Node-API. Settling it calls that function once, which
//! makes the JavaScript thread resolve or reject the promise, and then releases it. When the
//! environment tears down first, the threadsafe function is aborted instead. [`DeferredHandle`]
//! decides between the two; it is shared by the deferred, the teardown hook and the finalizer, and
//! is only ever touched by one of them at a time.
//!
//! Objects of Node-API are known by their addresses. The address [`NULL`] stands for none.

use vstd::prelude::*;
use core::marker::PhantomData;
use crate::error::{check_status, Error, ErrorView, NAPI_OK};

verus! {

/// The null address.
pub const NULL: usize = 0;

/// How a threadsafe function is called when its queue is full.
#[derive(Clone, Copy, PartialEq, Eq, Debug, Structural)]
pub enum CallMode {
    NonBlocking,
    Blocking,
}

/// How a threadsafe function is let go of.
#[derive(Clone, Copy, PartialEq, Eq, Debug, Structural)]
pub enum ReleaseMode {
    /// What is queued is still delivered.
    Release,
    /// The threadsafe function closes at once.
    Abort,
}

/// What a threadsafe function delivers to the JavaScript thread: how to compute the value, or the
/// error that the promise is rejected with.
pub struct DeferredData<R> {
    pub resolver: Result<R, Error>,
}

/// What the owner of a deferred has to do in order to settle it.
pub enum Settlement<R> {
    /// Drop the data. The promise no longer exists, or is settled already.
    Discard(DeferredData<R>),
    /// Call `tsfn` with `data`, then release it, in this order.
    Settle { tsfn: usize, data: DeferredData<R>, call: CallMode, release: ReleaseMode },
}

/// A threadsafe function that has to be let go of.
#[derive(Clone, Copy, PartialEq, Eq, Debug, Structural)]
pub struct ReleaseTsfn {
    pub tsfn: usize,
    pub mode: ReleaseMode,
}

/// A use of a threadsafe function.
#[allow(inconsistent_fields)]
pub enum TsfnUse {
    Call { tsfn: usize, mode: CallMode },
    Release { tsfn: usize, mode: ReleaseMode },
}

/// The threadsafe function of a deferred, and whether it may still be used.
pub struct DeferredHandle {
    tsfn: usize,
    aborted: bool,
}

/// What a [`DeferredHandle`] knows.
pub struct HandleView {
    pub tsfn: usize,
    /// The deferred is settled, or its environment is gone.
    pub aborted: bool,
}

impl View for DeferredHandle {
    type V = HandleView;

    closed spec fn view(&self) -> HandleView {
        HandleView { tsfn: self.tsfn, aborted: self.aborted }
    }
}

impl HandleView {
    /// The handle once its threadsafe function may no longer be used.
    pub open spec fn closed(self) -> HandleView {
        HandleView { aborted: true, ..self }
    }

    /// The handle once the creation of its threadsafe function has ended.
    pub open spec fn stored<E>(self, raw: Result<RawDeferred, E>) -> HandleView {
        match raw {
            Ok(created) => HandleView { tsfn: created.tsfn, ..self },
            Err(_) => self,
        }
    }

    /// The uses of the threadsafe function that settling the deferred consists of.
    pub open spec fn settle_uses(self) -> Seq<TsfnUse> {
        if self.aborted {
            seq![]
        } else {
            seq![
                TsfnUse::Call { tsfn: self.tsfn, mode: CallMode::Blocking },
                TsfnUse::Release { tsfn: self.tsfn, mode: ReleaseMode::Release },
            ]
        }
    }

    /// The uses of the threadsafe function that a teardown of the environment consists of.
    pub open spec fn teardown_uses(self) -> Seq<TsfnUse> {
        release_uses(self.teardown_release())
    }

    /// The release that a teardown of the environment consists of.
    pub open spec fn teardown_release(self) -> Option<ReleaseTsfn> {
        if self.aborted {
            None
        } else {
            Some(ReleaseTsfn { tsfn: self.tsfn, mode: ReleaseMode::Abort })
        }
    }
}

impl<R> Settlement<R> {
    /// The uses of the threadsafe function, in their order.
    pub open spec fn uses(self) -> Seq<TsfnUse> {
        match self {
            Settlement::Discard(_) => seq![],
            Settlement::Settle { tsfn, data, call, release } => seq![
                TsfnUse::Call { tsfn, mode: call },
                TsfnUse::Release { tsfn, mode: release },
            ],
        }
    }

    /// What is dropped, or delivered to the JavaScript thread.
    pub open spec fn data(self) -> DeferredData<R> {
        match self {
            Settlement::Discard(data) => data,
            Settlement::Settle { tsfn, data, call, release } => data,
        }
    }
}

/// The release as a sequence of uses.
pub open spec fn release_uses(release: Option<ReleaseTsfn>) -> Seq<TsfnUse> {
    match release {
        None => seq![],
        Some(r) => seq![TsfnUse::Release { tsfn: r.tsfn, mode: r.mode }],
    }
}

impl DeferredHandle {
    /// A handle whose threadsafe function is still to be created.
    pub fn new() -> (handle: Self)
        ensures
            handle@ == (HandleView { tsfn: NULL, aborted: false }),
    {
        DeferredHandle { tsfn: NULL, aborted: false }
    }
}

/// Aborts the threadsafe function of a deferred when its environment starts to tear down, before
/// Node.js finalizes it.
///
/// `handle` is `None` if nobody can settle the deferred any more. Nothing is done in that case, nor
/// if the deferred is settled already.
pub fn deferred_env_teardown_cb(handle: Option<&mut DeferredHandle>) -> (release: Option<
    ReleaseTsfn,
>)
    ensures
        handle is None ==> release is None,
        handle matches Some(h) ==> {
            &&& final(h)@ == h@.closed()
            &&& release == h@.teardown_release()
            &&& release == if h@.aborted {
                None
            } else {
                Some(ReleaseTsfn { tsfn: h@.tsfn, mode: ReleaseMode::Abort })
            }
            &&& final(h)@.aborted
            &&& final(h)@.tsfn == h@.tsfn
        },
{
    match handle {
        None => None,
        Some(h) => {
            if h.aborted {
                None
            } else {
                h.aborted = true;
                Some(ReleaseTsfn { tsfn: h.tsfn, mode: ReleaseMode::Abort })
            }
        },
    }
}

/// A cleanup hook that has to be removed from `env`.
#[derive(Clone, Copy, PartialEq, Eq, Debug, Structural)]
pub struct RemoveHook {
    pub env: usize,
    pub arg: usize,
}

/// A threadsafe function is being finalized. When its hook is removed, [`Finalize::close`] comes
/// next.
pub struct Finalize {
    handle_weak: usize,
}

/// The teardown hook that finalizing a threadsafe function of `env` that was handed `finalize_data`
/// removes. An environment that is gone has none.
pub open spec fn finalizer_unhooks(env: usize, finalize_data: usize) -> Option<RemoveHook> {
    if env == NULL {
        None
    } else {
        Some(RemoveHook { env, arg: finalize_data })
    }
}

/// Finalizes the threadsafe function of a deferred: unregisters the teardown hook from an
/// environment that still exists.
pub fn deferred_finalize_cb(env: usize, finalize_data: usize) -> (finalize: (
    Option<RemoveHook>,
    Finalize,
))
    ensures
        finalize.0 == finalizer_unhooks(env, finalize_data),
        finalize.0 is None <==> env == NULL,
        finalize.0 matches Some(hook) ==> hook.env == env && hook.arg == finalize_data,
        finalize.1.handle_weak() == finalize_data,
{
    let unhook = if env != NULL {
        Some(RemoveHook { env, arg: finalize_data })
    } else {
        None
    };
    (unhook, Finalize { handle_weak: finalize_data })
}

impl Finalize {
    /// The weak reference to the handle that the finalizer and the teardown hook share.
    pub closed spec fn handle_weak(&self) -> usize {
        self.handle_weak
    }

    /// Closes the handle, if somebody can still settle the deferred, and returns the address of the
    /// weak reference, which has to be freed.
    pub fn close(self, handle: Option<&mut DeferredHandle>) -> (freed: usize)
        ensures
            freed == self.handle_weak(),
            handle matches Some(h) ==> {
                &&& final(h)@ == h@.closed()
                &&& final(h)@.aborted
                &&& final(h)@.tsfn == h@.tsfn
            },
    {
        match handle {
            None => {},
            Some(h) => {
                h.aborted = true;
            },
        }
        self.handle_weak
    }
}

/// The calls of Node-API whose failure is a defect of the program.
#[derive(Clone, Copy, PartialEq, Eq, Debug, Structural)]
pub enum TsfnCheck {
    /// The call that settles a deferred.
    Call,
    /// The release that follows.
    Release,
    /// The release at a teardown.
    Abort,
}

impl TsfnCheck {
    /// What a failure of the call is reported as.
    pub open spec fn message(self) -> Seq<char> {
        match self {
            TsfnCheck::Call => "Call threadsafe function in JsDeferred failed"@,
            TsfnCheck::Release => "Release threadsafe function in JsDeferred failed"@,
            TsfnCheck::Abort => "Abort deferred threadsafe function on env teardown failed"@,
        }
    }

    /// The message that a debug build stops with, given the status of the call; `None` if the call
    /// succeeded.
    pub fn failure(self, status: i32) -> (message: Option<&'static str>)
        ensures
            message is None <==> status == NAPI_OK,
            message matches Some(text) ==> text@ == self.message(),
            message matches Some(text) ==> match self {
                TsfnCheck::Call => text@ == "Call threadsafe function in JsDeferred failed"@,
                TsfnCheck::Release => text@ == "Release threadsafe function in JsDeferred failed"@,
                TsfnCheck::Abort => text@
                    == "Abort deferred threadsafe function on env teardown failed"@,
            },
    {
        if status == NAPI_OK {
            None
        } else {
            Some(
                match self {
                    TsfnCheck::Call => "Call threadsafe function in JsDeferred failed",
                    TsfnCheck::Release => "Release threadsafe function in JsDeferred failed",
                    TsfnCheck::Abort => "Abort deferred threadsafe function on env teardown failed",
                },
            )
        }
    }
}

/// The kinds of JavaScript values.
#[derive(Clone, Copy, PartialEq, Eq, Debug, Structural)]
pub enum ValueType {
    Undefined,
    Null,
    Boolean,
    Number,
    String,
    Symbol,
    Object,
    Function,
    External,
    BigInt,
}

/// A JavaScript value in an environment.
#[derive(Clone, Copy, PartialEq, Eq, Debug, Structural)]
pub struct Value {
    pub env: usize,
    pub value: usize,
    pub value_type: ValueType,
}

/// A JavaScript object.
#[derive(Clone, Copy, PartialEq, Eq, Debug, Structural)]
pub struct JsObject(pub Value);

/// The name under which the threadsafe function of a deferred shows up in diagnostics, with the
/// terminator that Node-API is handed too.
pub const ASYNC_RESOURCE_NAME: &'static str = "napi_resolve_deferred\0";

/// The length of [`ASYNC_RESOURCE_NAME`] in bytes, the terminator counted.
pub const ASYNC_RESOURCE_NAME_LENGTH: usize = 22;

/// A promise has to be created in `env`. [`AwaitPromise::created`] comes next.
#[derive(Clone, Copy, PartialEq, Eq, Debug, Structural)]
pub struct CreatePromise {
    pub env: usize,
}

/// The string made of the first `length` bytes of [`ASYNC_RESOURCE_NAME`] has to be created in
/// `env`. [`AwaitName::created`] comes next.
#[derive(Clone, Copy, PartialEq, Eq, Debug, Structural)]
pub struct CreateName {
    pub env: usize,
    pub length: usize,
}

/// A threadsafe function with these parameters has to be created in `env`; its finalizer is
/// [`deferred_finalize_cb`]. [`AwaitTsfn::created`] comes next.
pub struct CreateTsfn<C> {
    pub env: usize,
    pub func: usize,
    pub async_resource: usize,
    pub async_resource_name: usize,
    /// No limit, if 0.
    pub max_queue_size: usize,
    pub initial_thread_count: usize,
    pub finalize_data: usize,
    /// The deferred that the threadsafe function settles.
    pub context: usize,
    /// The callback that runs on the JavaScript thread when the threadsafe function is called.
    pub call_js: C,
}

/// The promise is being created.
pub struct AwaitPromise<C> {
    env: usize,
    finalize_data: usize,
    call_js: C,
}

/// The name is being created.
pub struct AwaitName<C> {
    env: usize,
    finalize_data: usize,
    call_js: C,
    raw_deferred: usize,
    raw_promise: usize,
}

/// The threadsafe function is being created.
pub struct AwaitTsfn {
    env: usize,
    raw_promise: usize,
}

/// What is known while the promise is being created.
pub struct PromiseStage<C> {
    pub env: usize,
    pub finalize_data: usize,
    pub call_js: C,
}

/// What is known while the name is being created.
pub struct NameStage<C> {
    pub env: usize,
    pub finalize_data: usize,
    pub call_js: C,
    pub raw_deferred: usize,
    pub raw_promise: usize,
}

/// What is known while the threadsafe function is being created.
pub struct TsfnStage {
    pub env: usize,
    pub raw_promise: usize,
}

impl<C> View for AwaitPromise<C> {
    type V = PromiseStage<C>;

    closed spec fn view(&self) -> PromiseStage<C> {
        PromiseStage { env: self.env, finalize_data: self.finalize_data, call_js: self.call_js }
    }
}

impl<C> View for AwaitName<C> {
    type V = NameStage<C>;

    closed spec fn view(&self) -> NameStage<C> {
        NameStage {
            env: self.env,
            finalize_data: self.finalize_data,
            call_js: self.call_js,
            raw_deferred: self.raw_deferred,
            raw_promise: self.raw_promise,
        }
    }
}

impl View for AwaitTsfn {
    type V = TsfnStage;

    closed spec fn view(&self) -> TsfnStage {
        TsfnStage { env: self.env, raw_promise: self.raw_promise }
    }
}

/// A threadsafe function and the promise that it settles.
#[derive(Clone, Copy, PartialEq, Eq, Debug, Structural)]
pub struct RawDeferred {
    pub tsfn: usize,
    pub promise: JsObject,
}

/// Starts to create a promise and a threadsafe function that settles it. `finalize_data` is for the
/// finalizer of that function, and `call_js` is the callback that it runs on the JavaScript thread.
pub fn js_deferred_new_raw<C>(env: usize, finalize_data: usize, call_js: C) -> (step: (
    CreatePromise,
    AwaitPromise<C>,
))
    ensures
        step.0 == (CreatePromise { env }),
        step.1@ == (PromiseStage { env, finalize_data, call_js }),
{
    (CreatePromise { env }, AwaitPromise { env, finalize_data, call_js })
}

impl<C> PromiseStage<C> {
    /// What follows the creation of the promise.
    pub open spec fn on_created(
        self,
        status: i32,
        raw_deferred: usize,
        raw_promise: usize,
    ) -> Result<(CreateName, NameStage<C>), ErrorView> {
        if status == NAPI_OK {
            Ok(
                (
                    CreateName { env: self.env, length: ASYNC_RESOURCE_NAME_LENGTH },
                    NameStage {
                        env: self.env,
                        finalize_data: self.finalize_data,
                        call_js: self.call_js,
                        raw_deferred,
                        raw_promise,
                    },
                ),
            )
        } else {
            Err(ErrorView { status, reason: ""@ })
        }
    }
}

impl<C> AwaitPromise<C> {
    /// Goes on from the status of creating the promise and, if it succeeded, the deferred and the
    /// promise.
    pub fn created(self, status: i32, raw_deferred: usize, raw_promise: usize) -> (step: Result<
        (CreateName, AwaitName<C>),
        Error,
    >)
        ensures
            match self@.on_created(status, raw_deferred, raw_promise) {
                Ok((action, stage)) => step matches Ok(next) && next.0 == action && next.1@
                    == stage,
                Err(error) => step matches Err(e) && e@ == error,
            },
            step is Ok <==> status == NAPI_OK,
            step matches Err(e) ==> e.status == status && e.reason@ == ""@,
            step matches Ok((action, stage)) ==> {
                &&& action.env == self@.env
                &&& action.length == ASYNC_RESOURCE_NAME_LENGTH
                &&& stage@.env == self@.env
                &&& stage@.finalize_data == self@.finalize_data
                &&& stage@.call_js == self@.call_js
                &&& stage@.raw_deferred == raw_deferred
                &&& stage@.raw_promise == raw_promise
            },
    {
        match check_status(status, "") {
            Err(error) => Err(error),
            Ok(_) => Ok(
                (
                    CreateName { env: self.env, length: ASYNC_RESOURCE_NAME_LENGTH },
                    AwaitName {
                        env: self.env,
                        finalize_data: self.finalize_data,
                        call_js: self.call_js,
                        raw_deferred,
                        raw_promise,
                    },
                ),
            ),
        }
    }
}

impl<C> NameStage<C> {
    /// What follows the creation of the name.
    pub open spec fn on_created(self, status: i32, async_resource_name: usize) -> Result<
        (CreateTsfn<C>, TsfnStage),
        ErrorView,
    > {
        if status == NAPI_OK {
            Ok(
                (
                    CreateTsfn {
                        env: self.env,
                        func: NULL,
                        async_resource: NULL,
                        async_resource_name,
                        max_queue_size: 0,
                        initial_thread_count: 1,
                        finalize_data: self.finalize_data,
                        context: self.raw_deferred,
                        call_js: self.call_js,
                    },
                    TsfnStage { env: self.env, raw_promise: self.raw_promise },
                ),
            )
        } else {
            Err(ErrorView { status, reason: "Create async resource name in JsDeferred failed"@ })
        }
    }
}

impl<C> AwaitName<C> {
    /// Goes on from the status of creating the name and, if it succeeded, the name.
    pub fn created(self, status: i32, async_resource_name: usize) -> (step: Result<
        (CreateTsfn<C>, AwaitTsfn),
        Error,
    >)
        ensures
            match self@.on_created(status, async_resource_name) {
                Ok((action, stage)) => step matches Ok(next) && next.0 == action && next.1@
                    == stage,
                Err(error) => step matches Err(e) && e@ == error,
            },
            step is Ok <==> status == NAPI_OK,
            step matches Err(e) ==> e.status == status && e.reason@
                == "Create async resource name in JsDeferred failed"@,
            step matches Ok((action, stage)) ==> {
                &&& action.env == self@.env
                &&& action.func == NULL
                &&& action.async_resource == NULL
                &&& action.async_resource_name == async_resource_name
                &&& action.max_queue_size == 0
                &&& action.initial_thread_count == 1
                &&& action.finalize_data == self@.finalize_data
                &&& action.context == self@.raw_deferred
                &&& action.call_js == self@.call_js
                &&& stage@.env == self@.env
                &&& stage@.raw_promise == self@.raw_promise
            },
    {
        match check_status(status, "Create async resource name in JsDeferred failed") {
            Err(error) => Err(error),
            Ok(_) => Ok(
                (
                    CreateTsfn {
                        env: self.env,
                        func: NULL,
                        async_resource: NULL,
                        async_resource_name,
                        max_queue_size: 0,
                        initial_thread_count: 1,
                        finalize_data: self.finalize_data,
                        context: self.raw_deferred,
                        call_js: self.call_js,
                    },
                    AwaitTsfn { env: self.env, raw_promise: self.raw_promise },
                ),
            ),
        }
    }
}

impl TsfnStage {
    /// What follows the creation of the threadsafe function.
    pub open spec fn on_created(self, status: i32, tsfn: usize) -> Result<RawDeferred, ErrorView> {
        if status == NAPI_OK {
            Ok(
                RawDeferred {
                    tsfn,
                    promise: JsObject(
                        Value {
                            env: self.env,
                            value: self.raw_promise,
                            value_type: ValueType::Object,
                        },
                    ),
                },
            )
        } else {
            Err(ErrorView { status, reason: "Create threadsafe function in JsDeferred failed"@ })
        }
    }
}

impl AwaitTsfn {
    /// Ends with the status of creating the threadsafe function and, if it succeeded, the
    /// threadsafe function.
    pub fn created(self, status: i32, tsfn: usize) -> (raw: Result<RawDeferred, Error>)
        ensures
            match self@.on_created(status, tsfn) {
                Ok(created) => raw == Ok::<RawDeferred, Error>(created),
                Err(error) => raw matches Err(e) && e@ == error,
            },
            raw is Ok <==> status == NAPI_OK,
            raw matches Err(e) ==> e.status == status && e.reason@
                == "Create threadsafe function in JsDeferred failed"@,
            raw matches Ok(created) ==> {
                &&& created.tsfn == tsfn
                &&& created.promise.0.env == self@.env
                &&& created.promise.0.value == self@.raw_promise
                &&& created.promise.0.value_type == ValueType::Object
            },
    {
        match check_status(status, "Create threadsafe function in JsDeferred failed") {
            Err(error) => Err(error),
            Ok(_) => Ok(
                RawDeferred {
                    tsfn,
                    promise: JsObject(
                        Value {
                            env: self.env,
                            value: self.raw_promise,
                            value_type: ValueType::Object,
                        },
                    ),
                },
            ),
        }
    }
}

/// A promise that can be settled once, from any thread.
///
/// `S` is a shared reference to a [`DeferredHandle`] behind a lock, `Data` the type of the value
/// and `Resolver` that of the function that computes it on the JavaScript thread.
pub struct JsDeferred<S, Data, Resolver> {
    handle: S,
    _data: PhantomData<Data>,
    _resolver: PhantomData<Resolver>,
}

/// A deferred is being created: its promise and its threadsafe function are.
/// [`NewDeferred::raw_created`] comes next.
pub struct NewDeferred<S> {
    env: usize,
    handle: S,
    handle_weak: usize,
}

/// The deferred could not be created, and the weak reference at `free` has to be freed.
pub struct NewFailed {
    pub error: Error,
    pub free: usize,
}

/// [`deferred_env_teardown_cb`] has to be added to the cleanup hooks of `env`, with the argument
/// `arg`. [`AwaitHook::hooked`] comes next.
#[derive(Clone, Copy, PartialEq, Eq, Debug, Structural)]
pub struct AddHook {
    pub env: usize,
    pub arg: usize,
}

/// The cleanup hook is being added.
pub struct AwaitHook<S> {
    handle: S,
    promise: JsObject,
}

/// What is known while the promise and the threadsafe function of a deferred are being created.
pub struct NewStage<S> {
    pub env: usize,
    /// The shared reference to the handle.
    pub handle: S,
    /// The weak reference to the handle that the finalizer and the teardown hook share.
    pub handle_weak: usize,
}

/// What is known while the cleanup hook is being added.
pub struct HookStage<S> {
    /// The shared reference to the handle.
    pub handle: S,
    pub promise: JsObject,
}

impl<S> View for NewDeferred<S> {
    type V = NewStage<S>;

    closed spec fn view(&self) -> NewStage<S> {
        NewStage { env: self.env, handle: self.handle, handle_weak: self.handle_weak }
    }
}

impl<S> View for AwaitHook<S> {
    type V = HookStage<S>;

    closed spec fn view(&self) -> HookStage<S> {
        HookStage { handle: self.handle, promise: self.promise }
    }
}

impl<S> NewStage<S> {
    /// What follows the creation of the promise and the threadsafe function: the hook, or an error
    /// and a weak reference to free.
    pub open spec fn on_raw<E>(self, raw: Result<RawDeferred, E>) -> Result<
        (AddHook, HookStage<S>),
        (E, usize),
    > {
        match raw {
            Ok(created) => Ok(
                (
                    AddHook { env: self.env, arg: self.handle_weak },
                    HookStage { handle: self.handle, promise: created.promise },
                ),
            ),
            Err(error) => Err((error, self.handle_weak)),
        }
    }
}

impl<S> NewDeferred<S> {
    /// Goes on from the outcome of creating the promise and the threadsafe function. `handle` is
    /// what the shared reference leads to.
    pub fn raw_created(self, raw: Result<RawDeferred, Error>, handle: &mut DeferredHandle) -> (step:
        Result<(AddHook, AwaitHook<S>), NewFailed>)
        ensures
            match self@.on_raw(raw) {
                Ok((action, stage)) => step matches Ok(next) && next.0 == action && next.1@
                    == stage,
                Err((error, free)) => step matches Err(failed) && failed == (NewFailed {
                    error,
                    free,
                }),
            },
            final(handle)@ == old(handle)@.stored(raw),
            match raw {
                Ok(created) => {
                    &&& step matches Ok((action, stage))
                    &&& action.env == self@.env
                    &&& action.arg == self@.handle_weak
                    &&& stage@.handle == self@.handle
                    &&& stage@.promise == created.promise
                    &&& final(handle)@.tsfn == created.tsfn
                },
                Err(error) => {
                    &&& step matches Err(failed)
                    &&& failed.error == error
                    &&& failed.free == self@.handle_weak
                    &&& final(handle)@.tsfn == old(handle)@.tsfn
                },
            },
            final(handle)@.aborted == old(handle)@.aborted,
    {
        match raw {
            Err(error) => Err(NewFailed { error, free: self.handle_weak }),
            Ok(created) => {
                handle.tsfn = created.tsfn;
                Ok(
                    (
                        AddHook { env: self.env, arg: self.handle_weak },
                        AwaitHook { handle: self.handle, promise: created.promise },
                    ),
                )
            },
        }
    }
}

impl<S> HookStage<S> {
    /// What adding the hook leads to: the shared reference of the deferred and its promise, or an
    /// error.
    pub open spec fn on_hooked(self, status: i32) -> Result<(S, JsObject), ErrorView> {
        if status == NAPI_OK {
            Ok((self.handle, self.promise))
        } else {
            Err(ErrorView { status, reason: ""@ })
        }
    }
}

impl<S> AwaitHook<S> {
    /// Ends with the status of adding the hook: the deferred and its promise, or an error. The weak
    /// reference is left to the finalizer in either case.
    pub fn hooked<Data, Resolver>(self, status: i32) -> (created: Result<
        (JsDeferred<S, Data, Resolver>, JsObject),
        Error,
    >)
        ensures
            match self@.on_hooked(status) {
                Ok((handle, promise)) => created matches Ok((d, p)) && d.handle() == handle && p
                    == promise,
                Err(error) => created matches Err(e) && e@ == error,
            },
            created is Ok <==> status == NAPI_OK,
            created matches Ok((d, p)) ==> d.handle() == self@.handle && p == self@.promise,
            created matches Err(e) ==> e.status == status && e.reason@ == ""@,
    {
        match check_status(status, "") {
            Err(error) => Err(error),
            Ok(_) => Ok(
                (
                    JsDeferred { handle: self.handle, _data: PhantomData, _resolver: PhantomData },
                    self.promise,
                ),
            ),
        }
    }
}

impl<S, Data, Resolver> JsDeferred<S, Data, Resolver> {
    /// The shared reference to the handle.
    pub closed spec fn handle(&self) -> S {
        self.handle
    }

    /// Starts to create a deferred in `env`. `handle` leads to a new [`DeferredHandle`],
    /// `handle_weak` is the address of a weak reference to the same, and `call_js` is the callback
    /// that runs [`napi_resolve_deferred`] on the JavaScript thread.
    ///
    /// The promise and the threadsafe function are to be created first, as the first two parts of
    /// the result say; their outcome is for the third.
    pub fn new<C>(env: usize, handle: S, handle_weak: usize, call_js: C) -> (step: (
        CreatePromise,
        AwaitPromise<C>,
        NewDeferred<S>,
    ))
        ensures
            step.0 == (CreatePromise { env }),
            step.1@ == (PromiseStage { env, finalize_data: handle_weak, call_js }),
            step.2@ == (NewStage { env, handle, handle_weak }),
    {
        let (action, stage) = js_deferred_new_raw(env, handle_weak, call_js);
        (action, stage, NewDeferred { env, handle, handle_weak })
    }

    /// The shared reference to the handle, to be locked before the deferred is settled.
    pub fn shared(&self) -> (handle: &S)
        ensures
            *handle == self.handle(),
    {
        &self.handle
    }

    /// Consumes the deferred, and resolves the promise. The provided function will be called from
    /// the JavaScript thread, and should return the resolved value.
    ///
    /// `handle` is what the shared reference leads to.
    pub fn resolve(self, handle: &mut DeferredHandle, resolver: Resolver) -> (settlement:
        Settlement<Resolver>)
        ensures
            final(handle)@ == old(handle)@.closed(),
            settlement.uses() == old(handle)@.settle_uses(),
            settlement.data().resolver == Ok::<Resolver, Error>(resolver),
            settlement is Discard <==> old(handle)@.aborted,
            match settlement {
                Settlement::Discard(dropped) => dropped.resolver == Ok::<Resolver, Error>(resolver),
                Settlement::Settle { tsfn, data, call, release } => {
                    &&& tsfn == old(handle)@.tsfn
                    &&& data.resolver == Ok::<Resolver, Error>(resolver)
                    &&& call == CallMode::Blocking
                    &&& release == ReleaseMode::Release
                },
            },
            final(handle)@.aborted,
            final(handle)@.tsfn == old(handle)@.tsfn,
    {
        self.call_tsfn(handle, Ok(resolver))
    }

    /// Consumes the deferred, and rejects the promise with the provided error.
    ///
    /// `handle` is what the shared reference leads to.
    pub fn reject(self, handle: &mut DeferredHandle, error: Error) -> (settlement: Settlement<
        Resolver,
    >)
        ensures
            final(handle)@ == old(handle)@.closed(),
            settlement.uses() == old(handle)@.settle_uses(),
            settlement.data().resolver == Err::<Resolver, Error>(error),
            settlement is Discard <==> old(handle)@.aborted,
            match settlement {
                Settlement::Discard(dropped) => dropped.resolver == Err::<Resolver, Error>(error),
                Settlement::Settle { tsfn, data, call, release } => {
                    &&& tsfn == old(handle)@.tsfn
                    &&& data.resolver == Err::<Resolver, Error>(error)
                    &&& call == CallMode::Blocking
                    &&& release == ReleaseMode::Release
                },
            },
            final(handle)@.aborted,
            final(handle)@.tsfn == old(handle)@.tsfn,
    {
        self.call_tsfn(handle, Err(error))
    }

    /// Settles the deferred with `result`, unless it is too late: the environment tore down, or a
    /// clone of the deferred was settled.
    ///
    /// `handle` is what the shared reference leads to.
    pub fn call_tsfn(
        self,
        handle: &mut DeferredHandle,
        result: Result<Resolver, Error>,
    ) -> (settlement: Settlement<Resolver>)
        ensures
            final(handle)@ == old(handle)@.closed(),
            settlement.uses() == old(handle)@.settle_uses(),
            settlement.data() == (DeferredData { resolver: result }),
            settlement is Discard <==> old(handle)@.aborted,
            match settlement {
                Settlement::Discard(dropped) => dropped.resolver == result,
                Settlement::Settle { tsfn, data, call, release } => {
                    &&& tsfn == old(handle)@.tsfn
                    &&& data.resolver == result
                    &&& call == CallMode::Blocking
                    &&& release == ReleaseMode::Release
                },
            },
            final(handle)@.aborted,
            final(handle)@.tsfn == old(handle)@.tsfn,
    {
        let data = DeferredData { resolver: result };
        if handle.aborted {
            return Settlement::Discard(data);
        }
        handle.aborted = true;
        Settlement::Settle {
            tsfn: handle.tsfn,
            data,
            call: CallMode::Blocking,
            release: ReleaseMode::Release,
        }
    }
}

impl<S: Clone, Data, Resolver> Clone for JsDeferred<S, Data, Resolver> {
    fn clone(&self) -> (copy: Self)
        ensures
            cloned(self.handle(), copy.handle()),
    {
        JsDeferred { handle: self.handle.clone(), _data: PhantomData, _resolver: PhantomData }
    }
}

/// The promise that a delivery to the JavaScript thread is about.
pub struct PromiseView {
    pub env: usize,
    pub deferred: usize,
}

/// What has to be done with what a threadsafe function delivered.
pub enum Delivery<R> {
    /// Drop it.
    Discard(DeferredData<R>),
    /// Settle the promise.
    Settle(Next<CallResolver<R>, AwaitReturn>),
}

/// The next step towards settling a promise.
pub enum Next<Action, Await> {
    /// Do the action, and hand its outcome to the stage that awaits it.
    Do(Action, Await),
    /// Reject the promise. That is the last step.
    Reject(RejectPromise),
}

/// The resolver has to be called in `env`. [`AwaitReturn::returned`] comes next.
pub struct CallResolver<R> {
    pub env: usize,
    pub resolver: R,
}

/// `data` has to be turned into a JavaScript value of `env`. [`AwaitConversion::converted`] comes
/// next.
pub struct ConvertValue<Data> {
    pub env: usize,
    pub data: Data,
}

/// `deferred` has to be resolved with `value`, in `env`. [`AwaitResolution::resolved`] comes next.
pub struct ResolvePromise {
    pub env: usize,
    pub deferred: usize,
    pub value: usize,
}

/// `error` has to be turned into a JavaScript value of `env`, and `deferred` has to be rejected
/// with that.
pub struct RejectPromise {
    pub env: usize,
    pub deferred: usize,
    pub error: Error,
}

/// The resolver is being called.
pub struct AwaitReturn {
    env: usize,
    deferred: usize,
}

/// What the resolver returned is being turned into a JavaScript value.
pub struct AwaitConversion {
    env: usize,
    deferred: usize,
}

/// The promise is being resolved.
pub struct AwaitResolution {
    env: usize,
    deferred: usize,
}

/// What a step towards settling a promise consists of: an action on behalf of a promise, or the
/// rejection of a promise with an error.
pub enum NextView<Action> {
    Do(Action, PromiseView),
    Reject(PromiseView, ErrorView),
}

impl RejectPromise {
    /// The promise that is rejected.
    pub open spec fn promise(self) -> PromiseView {
        PromiseView { env: self.env, deferred: self.deferred }
    }
}

impl<Action, Await: View<V = PromiseView>> View for Next<Action, Await> {
    type V = NextView<Action>;

    open spec fn view(&self) -> NextView<Action> {
        match *self {
            Next::Do(action, stage) => NextView::Do(action, stage@),
            Next::Reject(reject) => NextView::Reject(reject.promise(), reject.error@),
        }
    }
}

impl PromiseView {
    /// What comes first when data was delivered: the resolver is called, or the promise is rejected
    /// with the error that was delivered.
    pub open spec fn on_delivered<R>(self, resolver: Result<R, Error>) -> NextView<
        CallResolver<R>,
    > {
        match resolver {
            Ok(resolver) => NextView::Do(CallResolver { env: self.env, resolver }, self),
            Err(error) => NextView::Reject(self, error@),
        }
    }

    /// What comes after the resolver has returned.
    pub open spec fn on_returned<Data>(self, result: Result<Data, Error>) -> NextView<
        ConvertValue<Data>,
    > {
        match result {
            Ok(data) => NextView::Do(ConvertValue { env: self.env, data }, self),
            Err(error) => NextView::Reject(self, error@),
        }
    }

    /// What comes after the value was converted.
    pub open spec fn on_converted(self, result: Result<usize, Error>) -> NextView<ResolvePromise> {
        match result {
            Ok(value) => NextView::Do(
                ResolvePromise { env: self.env, deferred: self.deferred, value },
                self,
            ),
            Err(error) => NextView::Reject(self, error@),
        }
    }

    /// The error that the promise is rejected with if it could not be resolved.
    pub open spec fn on_resolved(self, status: i32) -> Option<ErrorView> {
        if status == NAPI_OK {
            None
        } else {
            Some(ErrorView { status, reason: "Resolve deferred value failed"@ })
        }
    }
}

/// Runs on the JavaScript thread when the threadsafe function delivers `data`: calls the resolver,
/// or rejects the promise.
///
/// Node.js delivers what is left in the queue without an environment while the threadsafe function
/// closes; there is no promise left to settle.
pub fn napi_resolve_deferred<R>(env: usize, context: usize, data: DeferredData<R>) -> (delivery:
    Delivery<R>)
    ensures
        env == NULL ==> delivery == Delivery::Discard(data),
        env != NULL ==> (delivery matches Delivery::Settle(next) && next@ == (PromiseView {
            env,
            deferred: context,
        }).on_delivered(data.resolver)),
        env != NULL ==> match data.resolver {
            Ok(resolver) => {
                &&& delivery matches Delivery::Settle(Next::Do(action, stage))
                &&& action.env == env
                &&& action.resolver == resolver
                &&& stage@.env == env
                &&& stage@.deferred == context
            },
            Err(error) => {
                &&& delivery matches Delivery::Settle(Next::Reject(reject))
                &&& reject.env == env
                &&& reject.deferred == context
                &&& reject.error == error
            },
        },
{
    if env == NULL {
        return Delivery::Discard(data);
    }
    Delivery::Settle(
        match data.resolver {
            Ok(resolver) => Next::Do(
                CallResolver { env, resolver },
                AwaitReturn { env, deferred: context },
            ),
            Err(error) => Next::Reject(RejectPromise { env, deferred: context, error }),
        },
    )
}

impl View for AwaitReturn {
    type V = PromiseView;

    closed spec fn view(&self) -> PromiseView {
        PromiseView { env: self.env, deferred: self.deferred }
    }
}

impl View for AwaitConversion {
    type V = PromiseView;

    closed spec fn view(&self) -> PromiseView {
        PromiseView { env: self.env, deferred: self.deferred }
    }
}

impl View for AwaitResolution {
    type V = PromiseView;

    closed spec fn view(&self) -> PromiseView {
        PromiseView { env: self.env, deferred: self.deferred }
    }
}

impl AwaitReturn {
    /// Goes on from what the resolver returned.
    pub fn returned<Data>(self, result: Result<Data, Error>) -> (next: Next<
        ConvertValue<Data>,
        AwaitConversion,
    >)
        ensures
            next@ == self@.on_returned(result),
            match result {
                Ok(data) => {
                    &&& next matches Next::Do(action, stage)
                    &&& action.env == self@.env
                    &&& action.data == data
                    &&& stage@.env == self@.env
                    &&& stage@.deferred == self@.deferred
                },
                Err(error) => {
                    &&& next matches Next::Reject(reject)
                    &&& reject.env == self@.env
                    &&& reject.deferred == self@.deferred
                    &&& reject.error == error
                },
            },
    {
        match result {
            Ok(data) => Next::Do(
                ConvertValue { env: self.env, data },
                AwaitConversion { env: self.env, deferred: self.deferred },
            ),
            Err(error) => Next::Reject(
                RejectPromise { env: self.env, deferred: self.deferred, error },
            ),
        }
    }
}

impl AwaitConversion {
    /// Goes on from the JavaScript value, or from the failure to make one.
    pub fn converted(self, result: Result<usize, Error>) -> (next: Next<
        ResolvePromise,
        AwaitResolution,
    >)
        ensures
            next@ == self@.on_converted(result),
            match result {
                Ok(value) => {
                    &&& next matches Next::Do(action, stage)
                    &&& action.env == self@.env
                    &&& action.deferred == self@.deferred
                    &&& action.value == value
                    &&& stage@.env == self@.env
                    &&& stage@.deferred == self@.deferred
                },
                Err(error) => {
                    &&& next matches Next::Reject(reject)
                    &&& reject.env == self@.env
                    &&& reject.deferred == self@.deferred
                    &&& reject.error == error
                },
            },
    {
        match result {
            Ok(value) => Next::Do(
                ResolvePromise { env: self.env, deferred: self.deferred, value },
                AwaitResolution { env: self.env, deferred: self.deferred },
            ),
            Err(error) => Next::Reject(
                RejectPromise { env: self.env, deferred: self.deferred, error },
            ),
        }
    }
}

impl AwaitResolution {
    /// Ends with the status of resolving the promise: unless it succeeded, the promise has to be
    /// rejected.
    pub fn resolved(self, status: i32) -> (reject: Option<RejectPromise>)
        ensures
            match self@.on_resolved(status) {
                None => reject is None,
                Some(error) => reject matches Some(r) && r.promise() == self@ && r.error@ == error,
            },
            reject is None <==> status == NAPI_OK,
            reject matches Some(r) ==> {
                &&& r.env == self@.env
                &&& r.deferred == self@.deferred
                &&& r.error.status == status
                &&& r.error.reason@ == "Resolve deferred value failed"@
            },
    {
        match check_status(status, "Resolve deferred value failed") {
            Ok(_) => None,
            Err(error) => Some(RejectPromise { env: self.env, deferred: self.deferred, error }),
        }
    }
}

} // verus!
