use edon::deferred::{
    deferred_env_teardown_cb, deferred_finalize_cb, js_deferred_new_raw, napi_resolve_deferred,
    AddHook, AwaitConversion, AwaitHook, AwaitName, AwaitResolution, AwaitReturn, AwaitTsfn,
    CallMode, CreateName, CreatePromise, DeferredData, DeferredHandle, Delivery, JsDeferred,
    JsObject, Next, ReleaseMode, ReleaseTsfn, RemoveHook, Settlement, TsfnCheck, Value, ValueType,
    ASYNC_RESOURCE_NAME, ASYNC_RESOURCE_NAME_LENGTH, NULL,
};
use edon::error::Error;

type Deferred = JsDeferred<u8, u64, &'static str>;

const OK: i32 = libnode_sys::Status::napi_ok;
const GENERIC_FAILURE: i32 = libnode_sys::Status::napi_generic_failure;

fn promise() -> JsObject {
    JsObject(Value { env: 100, value: 102, value_type: ValueType::Object })
}

fn hook(handle: &mut DeferredHandle) -> (AddHook, AwaitHook<u8>) {
    let (_, raw, new) = Deferred::new(100, 1, 200, "call");
    let (_, name) = raw.created(OK, 101, 102).ok().unwrap();
    let (_, tsfn) = name.created(OK, 103).ok().unwrap();
    let raw = tsfn.created(OK, 104);
    new.raw_created(raw, handle).ok().unwrap()
}

fn created(handle: &mut DeferredHandle) -> Deferred {
    let (deferred, object) = hook(handle).1.hooked(OK).ok().unwrap();
    assert_eq!(object, promise());
    deferred
}

fn naming() -> (CreateName, AwaitName<&'static str>) {
    let (action, stage) = js_deferred_new_raw(100, 200, "call");
    assert_eq!(action, CreatePromise { env: 100 });
    stage.created(OK, 101, 102).ok().unwrap()
}

fn making() -> AwaitTsfn {
    naming().1.created(OK, 103).ok().unwrap().1
}

#[test]
fn creation_step_by_step() {
    let (action, stage) = naming();
    assert_eq!(action, CreateName { env: 100, length: 22 });
    let (action, stage) = stage.created(OK, 103).ok().unwrap();
    assert_eq!(action.env, 100);
    assert_eq!((action.func, action.async_resource), (NULL, NULL));
    assert_eq!(action.async_resource_name, 103);
    assert_eq!((action.max_queue_size, action.initial_thread_count), (0, 1));
    assert_eq!((action.finalize_data, action.context), (200, 101));
    assert_eq!(action.call_js, "call");
    let raw = stage.created(OK, 104).ok().unwrap();
    assert_eq!((raw.tsfn, raw.promise), (104, promise()));
}

#[test]
fn new_deferred_hands_its_callback_on() {
    let (action, stage, _) = Deferred::new(100, 1, 200, "deliver");
    assert_eq!(action, CreatePromise { env: 100 });
    let (action, stage) = stage.created(OK, 101, 102).ok().unwrap();
    assert_eq!(action.env, 100);
    let (action, _) = stage.created(OK, 103).ok().unwrap();
    assert_eq!((action.call_js, action.finalize_data), ("deliver", 200));
}

#[test]
fn creation_stops_at_the_first_failure() {
    let (_, stage) = js_deferred_new_raw(100, 200, "call");
    let error = stage.created(GENERIC_FAILURE, 0, 0).err().unwrap();
    assert_eq!((error.status, error.reason.as_str()), (9, ""));
    let error = naming().1.created(10, 0).err().unwrap();
    assert_eq!(
        (error.status, error.reason.as_str()),
        (10, "Create async resource name in JsDeferred failed")
    );
    let error = making().created(15, 0).err().unwrap();
    assert_eq!(
        (error.status, error.reason.as_str()),
        (15, "Create threadsafe function in JsDeferred failed")
    );
}

#[test]
fn failed_creation_frees_the_weak_reference() {
    let mut handle = DeferredHandle::new();
    let (_, _, new) = Deferred::new(100, 1, 200, "call");
    let raw = Err(Error { status: 9, reason: "no promise".to_string() });
    let failed = new.raw_created(raw, &mut handle).err().unwrap();
    assert_eq!((failed.free, failed.error.reason.as_str()), (200, "no promise"));
}

#[test]
fn hook_guards_the_deferred() {
    let mut handle = DeferredHandle::new();
    let (action, stage) = hook(&mut handle);
    assert_eq!(action, AddHook { env: 100, arg: 200 });
    let (deferred, object) = stage.hooked::<u64, &'static str>(OK).ok().unwrap();
    assert_eq!(*deferred.shared(), 1);
    assert_eq!(object, promise());
}

#[test]
fn failed_hook_is_an_error() {
    let mut handle = DeferredHandle::new();
    let (_, stage) = hook(&mut handle);
    let error = stage.hooked::<u64, &'static str>(GENERIC_FAILURE).err().unwrap();
    assert_eq!((error.status, error.reason.as_str()), (9, ""));
}

#[test]
fn resolving_calls_and_releases() {
    let mut handle = DeferredHandle::new();
    match created(&mut handle).resolve(&mut handle, "value") {
        Settlement::Settle { tsfn, data, call, release } => {
            assert_eq!(tsfn, 104);
            assert_eq!(data.resolver.ok().unwrap(), "value");
            assert_eq!(call, CallMode::Blocking);
            assert_eq!(release, ReleaseMode::Release);
        }
        Settlement::Discard(_) => panic!("nothing was settled yet"),
    }
}

#[test]
fn clones_settle_once() {
    let mut handle = DeferredHandle::new();
    let deferred = created(&mut handle);
    let copy = deferred.clone();
    assert_eq!(copy.shared(), deferred.shared());
    let failure = Error { status: 1, reason: "panicked".to_string() };
    match deferred.reject(&mut handle, failure) {
        Settlement::Settle { tsfn, data, .. } => {
            assert_eq!(tsfn, 104);
            assert_eq!(data.resolver.err().unwrap().reason, "panicked");
        }
        Settlement::Discard(_) => panic!("nothing was settled yet"),
    }
    match copy.call_tsfn(&mut handle, Ok("late")) {
        Settlement::Discard(data) => assert_eq!(data.resolver.ok().unwrap(), "late"),
        Settlement::Settle { .. } => panic!("the other clone was settled"),
    }
}

#[test]
fn teardown_aborts_once() {
    let mut handle = DeferredHandle::new();
    let deferred = created(&mut handle);
    assert_eq!(
        deferred_env_teardown_cb(Some(&mut handle)),
        Some(ReleaseTsfn { tsfn: 104, mode: ReleaseMode::Abort })
    );
    assert_eq!(deferred_env_teardown_cb(Some(&mut handle)), None);
    assert!(matches!(deferred.resolve(&mut handle, "late"), Settlement::Discard(_)));
}

#[test]
fn teardown_after_settlement_does_nothing() {
    let mut handle = DeferredHandle::new();
    let _ = created(&mut handle).resolve(&mut handle, "value");
    assert_eq!(deferred_env_teardown_cb(Some(&mut handle)), None);
}

#[test]
fn teardown_without_deferred_does_nothing() {
    assert_eq!(deferred_env_teardown_cb(None), None);
}

#[test]
fn finalizer_unhooks_and_frees() {
    let mut handle = DeferredHandle::new();
    let deferred = created(&mut handle);
    let (unhook, finalize) = deferred_finalize_cb(100, 200);
    assert_eq!(unhook, Some(RemoveHook { env: 100, arg: 200 }));
    assert_eq!(finalize.close(Some(&mut handle)), 200);
    assert!(matches!(deferred.resolve(&mut handle, "late"), Settlement::Discard(_)));
}

#[test]
fn finalizer_without_environment() {
    let (unhook, finalize) = deferred_finalize_cb(NULL, 200);
    assert_eq!(unhook, None);
    assert_eq!(finalize.close(None), 200);
}

#[test]
fn failed_checks_have_messages() {
    assert_eq!(TsfnCheck::Call.failure(OK), None);
    assert_eq!(
        TsfnCheck::Call.failure(16),
        Some("Call threadsafe function in JsDeferred failed")
    );
    assert_eq!(
        TsfnCheck::Release.failure(1),
        Some("Release threadsafe function in JsDeferred failed")
    );
    assert_eq!(
        TsfnCheck::Abort.failure(1),
        Some("Abort deferred threadsafe function on env teardown failed")
    );
}

fn failure(reason: &str) -> Error {
    Error { status: 2, reason: reason.to_string() }
}

fn delivered() -> AwaitReturn {
    match napi_resolve_deferred(100, 101, DeferredData { resolver: Ok("value") }) {
        Delivery::Settle(Next::Do(action, stage)) => {
            assert_eq!((action.env, action.resolver), (100, "value"));
            stage
        }
        _ => panic!("there is a resolver"),
    }
}

fn returned() -> AwaitConversion {
    match delivered().returned(Ok(7u64)) {
        Next::Do(action, stage) => {
            assert_eq!((action.env, action.data), (100, 7));
            stage
        }
        Next::Reject(_) => panic!("the resolver returned a value"),
    }
}

fn converted() -> AwaitResolution {
    match returned().converted(Ok(105)) {
        Next::Do(action, stage) => {
            assert_eq!((action.env, action.deferred, action.value), (100, 101, 105));
            stage
        }
        Next::Reject(_) => panic!("the value was converted"),
    }
}

#[test]
fn delivery_resolves_the_promise() {
    assert!(converted().resolved(OK).is_none());
}

#[test]
fn delivery_rejects_with_the_first_error() {
    let data: DeferredData<&'static str> = DeferredData { resolver: Err(failure("rejected")) };
    match napi_resolve_deferred(100, 101, data) {
        Delivery::Settle(Next::Reject(reject)) => {
            assert_eq!((reject.env, reject.deferred), (100, 101));
            assert_eq!(reject.error.reason, "rejected");
        }
        _ => panic!("there is no resolver"),
    }
    match delivered().returned::<u64>(Err(failure("thrown"))) {
        Next::Reject(reject) => {
            assert_eq!((reject.env, reject.deferred), (100, 101));
            assert_eq!(reject.error.reason, "thrown");
        }
        Next::Do(..) => panic!("the resolver failed"),
    }
    match returned().converted(Err(failure("not a value"))) {
        Next::Reject(reject) => {
            assert_eq!((reject.env, reject.deferred), (100, 101));
            assert_eq!(reject.error.reason, "not a value");
        }
        Next::Do(..) => panic!("the conversion failed"),
    }
    let reject = converted().resolved(GENERIC_FAILURE).unwrap();
    assert_eq!((reject.env, reject.deferred), (100, 101));
    assert_eq!(
        (reject.error.status, reject.error.reason.as_str()),
        (9, "Resolve deferred value failed")
    );
}

#[test]
fn delivery_without_environment_is_dropped() {
    let data = DeferredData { resolver: Ok("value") };
    match napi_resolve_deferred(NULL, 101, data) {
        Delivery::Discard(data) => assert_eq!(data.resolver.ok().unwrap(), "value"),
        Delivery::Settle(_) => panic!("there is no promise left"),
    }
}

#[test]
fn resource_name_counts_its_terminator() {
    assert_eq!(ASYNC_RESOURCE_NAME.len(), ASYNC_RESOURCE_NAME_LENGTH);
    assert!(ASYNC_RESOURCE_NAME.ends_with('\0'));
}
