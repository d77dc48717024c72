use edon::call::{post_result, request_result, stop_result};
use edon::error::{check_status, Error, NAPI_OK};
use edon::events::{
    AfterExec, EvalCallback, Evaluated, ExecCallback, NodejsMainEvent, NodejsWorkerEvent,
};
use edon::host::Host;
use edon::nodejs::{Load, Nodejs, StartInstance};
use edon::nodejs_worker::{NodejsWorker, WorkerEnds, WorkerStopped};
use edon::options::NodejsOptions;
use edon::process::Process;

struct Ids;

impl Host for Ids {
    type MainSender = String;
    type WorkerSender = u8;
    type WorkerReceiver = u16;
    type EvalFn = u32;
    type ExecFn = i32;
    type Reply = u64;
    type Transferred = String;
    type ValueReply = (u64, u8);
    type WorkerIdReply = i64;
    type StopReply = i8;
}

fn strings(texts: &[&str]) -> Vec<String> {
    texts.iter().map(|t| t.to_string()).collect()
}

fn started(process: &mut Process<Ids>) -> Nodejs<Ids> {
    match Nodejs::load_default(process, "libnode.so") {
        Load::Start(library) => {
            let step = library.loaded(true);
            assert!(step.args().is_empty());
            Nodejs::started(process, step, Ok("main".to_string())).ok().unwrap()
        }
        Load::Wait(_) => panic!("nobody else is loading"),
        Load::Loaded(loaded) => loaded.ok().unwrap(),
    }
}

fn worker(nodejs: &Nodejs<Ids>, process: &mut Process<Ids>) -> NodejsWorker<Ids> {
    let ends = WorkerEnds { tx_wrk: 5, rx_wrk: 6, resolve: 7 };
    let (start, event) = nodejs.spawn_worker_thread(process, ends);
    assert_eq!(start.to(), "main");
    match event {
        NodejsMainEvent::StartWorker { rx_wrk, argv, resolve } => {
            assert_eq!(rx_wrk, 6);
            assert!(argv.is_empty());
            assert_eq!(resolve, 7);
        }
        _ => panic!("not a start"),
    }
    start.started(Some("worker-1".to_string())).unwrap()
}

fn drop_nodejs(nodejs: Nodejs<Ids>, process: &mut Process<Ids>) -> bool {
    match nodejs.drop(process, 9) {
        None => false,
        Some(stop) => {
            assert_eq!(stop.to, "main");
            assert!(matches!(stop.event, NodejsMainEvent::StopMain { resolve: 9 }));
            true
        }
    }
}

fn begin(process: &mut Process<Ids>, path: &'static str) -> StartInstance {
    match Nodejs::load_default(process, path) {
        Load::Start(library) => library.loaded(true),
        _ => panic!("nothing was started yet"),
    }
}

#[test]
fn first_load_starts_the_instance() {
    let mut process: Process<Ids> = Process::new();
    let args = strings(&["node", "--inspect"]);
    match Nodejs::load_with_args(&mut process, "/opt/libnode.so", args) {
        Load::Start(library) => {
            assert_eq!(*library.path(), "/opt/libnode.so");
            let step = library.loaded(true);
            assert_eq!(*step.args(), strings(&["node", "--inspect"]));
        }
        _ => panic!("nothing was started yet"),
    }
}

#[test]
fn library_that_cannot_be_loaded_changes_nothing() {
    let mut process: Process<Ids> = Process::new();
    match Nodejs::load_with_args(&mut process, "missing", strings(&["a"])) {
        Load::Start(library) => assert_eq!(*library.loaded(false).args(), strings(&["a"])),
        _ => panic!("nothing was started yet"),
    }
}

#[test]
fn options_name_path_and_arguments() {
    let mut process: Process<Ids> = Process::new();
    let options = NodejsOptions {
        libnode_path: "libnode.dylib".to_string(),
        args: strings(&["--no-warnings"]),
    };
    assert_eq!(options.as_argv(), strings(&["--no-warnings"]));
    match Nodejs::load(&mut process, options) {
        Load::Start(library) => {
            assert_eq!(library.path(), "libnode.dylib");
            assert_eq!(*library.loaded(true).args(), strings(&["--no-warnings"]));
        }
        _ => panic!("nothing was started yet"),
    }
    assert!(NodejsOptions::default().as_argv().is_empty());
    assert_eq!(NodejsOptions::default().libnode_path, "");
}

#[test]
fn second_load_shares_the_instance() {
    let mut process: Process<Ids> = Process::new();
    let first = started(&mut process);
    match Nodejs::load_with_args(&mut process, "other", strings(&["x"])) {
        Load::Loaded(Ok(second)) => {
            assert_eq!(second.exec(1).to, first.exec(1).to);
        }
        _ => panic!("the instance is running"),
    }
}

#[test]
fn failed_start_is_remembered() {
    let mut process: Process<Ids> = Process::new();
    let step = begin(&mut process, "x");
    let failure = Error { status: 9, reason: "no symbols".to_string() };
    let first = Nodejs::started(&mut process, step, Err(failure));
    assert_eq!(first.err().unwrap().reason, "no symbols");
    match Nodejs::load_default(&mut process, "y") {
        Load::Loaded(Err(error)) => {
            assert_eq!(error.status, 9);
            assert_eq!(error.reason, "no symbols");
        }
        _ => panic!("the failure must be repeated"),
    }
}

#[test]
fn overlapping_load_waits_for_the_first() {
    let mut process: Process<Ids> = Process::new();
    let step = begin(&mut process, "first");
    let waiting = match Nodejs::load_default(&mut process, "second") {
        Load::Wait(waiting) => waiting,
        _ => panic!("the first load is starting the instance"),
    };
    let waiting = match Nodejs::resume(&mut process, waiting) {
        Load::Wait(waiting) => waiting,
        _ => panic!("the first load is still starting the instance"),
    };
    let first = Nodejs::started(&mut process, step, Ok("main".to_string())).ok().unwrap();
    match Nodejs::resume(&mut process, waiting) {
        Load::Loaded(Ok(second)) => {
            assert_eq!(second.exec(1).to, "main");
            assert!(!drop_nodejs(first, &mut process));
            assert!(drop_nodejs(second, &mut process));
        }
        _ => panic!("the instance is running"),
    }
}

#[test]
fn waiting_load_keeps_the_main_thread_running() {
    let mut process: Process<Ids> = Process::new();
    let step = begin(&mut process, "first");
    let waiting = match Nodejs::load_default(&mut process, "second") {
        Load::Wait(waiting) => waiting,
        _ => panic!("the first load is starting the instance"),
    };
    let first = Nodejs::started(&mut process, step, Ok("main".to_string())).ok().unwrap();
    assert!(!drop_nodejs(first, &mut process));
    match Nodejs::resume(&mut process, waiting) {
        Load::Loaded(Ok(second)) => assert!(drop_nodejs(second, &mut process)),
        _ => panic!("the instance is running"),
    }
}

#[test]
fn waiting_load_gets_the_failure() {
    let mut process: Process<Ids> = Process::new();
    let step = begin(&mut process, "first");
    let waiting = match Nodejs::load_default(&mut process, "second") {
        Load::Wait(waiting) => waiting,
        _ => panic!("the first load is starting the instance"),
    };
    let failure = Error { status: 9, reason: "no symbols".to_string() };
    assert!(Nodejs::started(&mut process, step, Err(failure)).is_err());
    match Nodejs::resume(&mut process, waiting) {
        Load::Loaded(Err(error)) => assert_eq!(error.reason, "no symbols"),
        _ => panic!("the failure must be repeated"),
    }
}

#[test]
fn abandoned_start_is_retried_by_a_waiting_load() {
    let mut process: Process<Ids> = Process::new();
    let step = begin(&mut process, "first");
    let args = strings(&["retry"]);
    let waiting = match Nodejs::load_with_args(&mut process, "second", args) {
        Load::Wait(waiting) => waiting,
        _ => panic!("the first load is starting the instance"),
    };
    Nodejs::abandoned(&mut process, step);
    match Nodejs::resume(&mut process, waiting) {
        Load::Start(library) => {
            assert_eq!(*library.path(), "second");
            let step = library.loaded(true);
            assert_eq!(*step.args(), strings(&["retry"]));
            let nodejs = Nodejs::started(&mut process, step, Ok("main".to_string())).ok().unwrap();
            assert!(!drop_nodejs(nodejs, &mut process));
        }
        _ => panic!("the instance has to be started"),
    }
}

#[test]
fn last_context_stops_the_main_thread() {
    let mut process: Process<Ids> = Process::new();
    let first = started(&mut process);
    let second = started(&mut process);
    let third = started(&mut process);
    assert!(!drop_nodejs(second, &mut process));
    assert!(!drop_nodejs(first, &mut process));
    assert!(drop_nodejs(third, &mut process));
}

#[test]
fn worker_keeps_the_main_thread_running() {
    let mut process: Process<Ids> = Process::new();
    let nodejs = started(&mut process);
    let worker = worker(&nodejs, &mut process);
    assert!(!drop_nodejs(nodejs, &mut process));
    let (stopping, event) = worker.drop(3);
    assert_eq!(stopping.to(), "main");
    match event {
        NodejsMainEvent::StopWorker { id, resolve } => {
            assert_eq!(id, "worker-1");
            assert_eq!(resolve, 3);
        }
        _ => panic!("the worker must be stopped first"),
    }
    let (next, tx_wrk) = stopping.stopped(&mut process, true, true, 4);
    assert_eq!(tx_wrk, 5);
    match next {
        WorkerStopped::StopMain(stop) => {
            assert_eq!(stop.to, "main");
            assert!(matches!(stop.event, NodejsMainEvent::StopMain { resolve: 4 }));
        }
        _ => panic!("it was the last context"),
    }
}

#[test]
fn worker_is_not_the_last_context() {
    let mut process: Process<Ids> = Process::new();
    let nodejs = started(&mut process);
    let worker = worker(&nodejs, &mut process);
    let (stopping, _) = worker.drop(3);
    let (next, tx_wrk) = stopping.stopped(&mut process, true, true, 4);
    assert!(matches!(next, WorkerStopped::Done));
    assert_eq!(tx_wrk, 5);
    assert!(drop_nodejs(nodejs, &mut process));
}

#[test]
fn worker_that_does_not_stop_keeps_its_context() {
    let mut process: Process<Ids> = Process::new();
    let nodejs = started(&mut process);
    let (undelivered, _) = worker(&nodejs, &mut process).drop(3);
    let (next, tx_wrk) = undelivered.stopped(&mut process, false, false, 4);
    assert!(matches!(next, WorkerStopped::Stuck));
    assert_eq!(tx_wrk, 5);
    let (unanswered, _) = worker(&nodejs, &mut process).drop(3);
    let (next, _) = unanswered.stopped(&mut process, true, false, 4);
    assert!(matches!(next, WorkerStopped::Stuck));
    assert!(!drop_nodejs(nodejs, &mut process));
}

#[test]
fn instance_is_not_started_again_after_it_was_stopped() {
    let mut process: Process<Ids> = Process::new();
    let nodejs = started(&mut process);
    assert!(drop_nodejs(nodejs, &mut process));
    match Nodejs::load_default(&mut process, "x") {
        Load::Loaded(Ok(again)) => assert!(drop_nodejs(again, &mut process)),
        _ => panic!("the instance was started before"),
    }
}

#[test]
fn unanswered_worker_is_none() {
    let mut process: Process<Ids> = Process::new();
    let nodejs = started(&mut process);
    let options = NodejsOptions { libnode_path: String::new(), args: strings(&["--a", "b"]) };
    let ends = WorkerEnds { tx_wrk: 1, rx_wrk: 2, resolve: 3 };
    let (start, event) = nodejs.spawn_worker_thread_with_options(&mut process, &options, ends);
    assert_eq!(start.to(), "main");
    match event {
        NodejsMainEvent::StartWorker { argv, .. } => assert_eq!(argv, strings(&["--a", "b"])),
        _ => panic!("not a start"),
    }
    assert!(start.started(None).is_none());
    assert!(!drop_nodejs(nodejs, &mut process));
}

#[test]
fn module_is_registered_under_its_name() {
    let mut process: Process<Ids> = Process::new();
    let registration = started(&mut process).napi_module_register("my_native_extension", 11);
    assert_eq!(registration.module_name, "my_native_extension");
    assert_eq!(registration.register_function, 11);
}

#[test]
fn main_events_carry_what_was_asked() {
    let mut process: Process<Ids> = Process::new();
    let nodejs = started(&mut process);
    match nodejs.eval("1 + 1", 1).event {
        NodejsMainEvent::Eval { code, callback: EvalCallback::User(1) } => {
            assert_eq!(code, "1 + 1")
        }
        _ => panic!("eval"),
    }
    match nodejs.eval_blocking("1 + 1", (2, 0)).event {
        NodejsMainEvent::Eval { code, callback: EvalCallback::Resolve((2, 0)) } => {
            assert_eq!(code, "1 + 1")
        }
        _ => panic!("eval_blocking"),
    }
    match nodejs.eval_typescript("export {}", 3).event {
        NodejsMainEvent::EvalTypeScript { code, callback: EvalCallback::User(3) } => {
            assert_eq!(code, "export {}")
        }
        _ => panic!("eval_typescript"),
    }
    match nodejs.eval_typescript_blocking("export {}", 4).event {
        NodejsMainEvent::EvalTypeScript { code, callback: EvalCallback::Complete(4) } => {
            assert_eq!(code, "export {}")
        }
        _ => panic!("eval_typescript_blocking"),
    }
    let event = nodejs.exec(5).event;
    assert!(matches!(event, NodejsMainEvent::Exec { callback: ExecCallback::User(5) }));
    let event = nodejs.exec_blocking(6, 7).event;
    assert!(matches!(
        event,
        NodejsMainEvent::Exec { callback: ExecCallback::UserThenResolve(6, 7) }
    ));
    match nodejs.require("node:fs", 8).event {
        NodejsMainEvent::Require { specifier, resolve: 8 } => assert_eq!(specifier, "node:fs"),
        _ => panic!("require"),
    }
    match nodejs.import("node:path", 9).event {
        NodejsMainEvent::Import { specifier, resolve: 9 } => assert_eq!(specifier, "node:path"),
        _ => panic!("import"),
    }
}

#[test]
fn worker_events_go_to_the_worker() {
    let mut process: Process<Ids> = Process::new();
    let nodejs = started(&mut process);
    let worker = worker(&nodejs, &mut process);
    assert_eq!(*worker.exec(5).to, 5);
    match worker.eval("1", 1).event {
        NodejsWorkerEvent::Eval { code, callback: EvalCallback::User(1) } => assert_eq!(code, "1"),
        _ => panic!("eval"),
    }
    match worker.eval_blocking("2", (2, 0)).event {
        NodejsWorkerEvent::Eval { code, callback: EvalCallback::Resolve((2, 0)) } => {
            assert_eq!(code, "2")
        }
        _ => panic!("eval_blocking"),
    }
    match worker.eval_typescript("3", 3).event {
        NodejsWorkerEvent::EvalTypeScript { code, callback: EvalCallback::User(3) } => {
            assert_eq!(code, "3")
        }
        _ => panic!("eval_typescript"),
    }
    match worker.eval_typescript_blocking("4", 4).event {
        NodejsWorkerEvent::EvalTypeScript { code, callback: EvalCallback::Complete(4) } => {
            assert_eq!(code, "4")
        }
        _ => panic!("eval_typescript_blocking"),
    }
    let event = worker.exec(5).event;
    assert!(matches!(event, NodejsWorkerEvent::Exec { callback: ExecCallback::User(5) }));
    let event = worker.exec_blocking(6, 7).event;
    assert!(matches!(
        event,
        NodejsWorkerEvent::Exec { callback: ExecCallback::UserThenResolve(6, 7) }
    ));
    match worker.require("node:fs", 8).event {
        NodejsWorkerEvent::Require { specifier, resolve: 8 } => assert_eq!(specifier, "node:fs"),
        _ => panic!("require"),
    }
    match worker.import("node:path", 9).event {
        NodejsWorkerEvent::Import { specifier, resolve: 9 } => assert_eq!(specifier, "node:path"),
        _ => panic!("import"),
    }
}

#[test]
fn evaluated_script_reaches_its_callback() {
    let callback: EvalCallback<Ids> = EvalCallback::User(1);
    match callback.evaluated("env", 42) {
        Evaluated::Call { callback, env, value } => {
            assert_eq!((callback, env, value), (1, "env", 42));
        }
        _ => panic!("nobody waits"),
    }
}

fn transfer(form: Result<String, Error>) -> Result<String, Error> {
    let waiting: EvalCallback<Ids> = EvalCallback::Resolve((2, 0));
    match waiting.evaluated("env", 42) {
        Evaluated::Transfer(action, stage) => {
            assert_eq!((action.env, action.value), ("env", 42));
            let reply = stage.transferred(form);
            assert_eq!(reply.resolve, (2, 0));
            request_result(Some(reply.message)).unwrap()
        }
        _ => panic!("the caller waits for the value"),
    }
}

#[test]
fn waiting_caller_gets_the_value() {
    assert_eq!(transfer(Ok("42".to_string())).ok().unwrap(), "42");
}

#[test]
fn waiting_caller_learns_that_the_value_stayed_behind() {
    let failure = Error { status: 3, reason: "no text".to_string() };
    let error = transfer(Err(failure)).err().unwrap();
    assert_eq!((error.status, error.reason.as_str()), (3, "no text"));
}

#[test]
fn waiting_for_a_module_yields_no_value() {
    let waiting: EvalCallback<Ids> = EvalCallback::Complete(3);
    match waiting.evaluated("env", 42) {
        Evaluated::Done { resolve, message } => {
            assert_eq!(resolve, 3);
            assert!(message.is_ok());
        }
        _ => panic!("the caller waits for completion"),
    }
}

#[test]
fn waiting_caller_does_not_see_a_failure() {
    let callback: ExecCallback<Ids> = ExecCallback::UserThenResolve(1, 2);
    let execution = callback.started("env");
    assert_eq!((execution.callback, execution.env), (1, "env"));
    let failure = Error { status: 1, reason: "thrown".to_string() };
    let executed = execution.after.finished(Err(failure));
    let (resolve, message) = executed.message.unwrap();
    assert_eq!(resolve, 2);
    assert!(message.is_ok());
    assert_eq!(executed.result.err().unwrap().reason, "thrown");
}

#[test]
fn nobody_waits_for_plain_exec() {
    let callback: ExecCallback<Ids> = ExecCallback::User(1);
    let execution = callback.started(());
    assert_eq!(execution.callback, 1);
    assert!(matches!(execution.after, AfterExec::Return));
    let executed = execution.after.finished(Ok(()));
    assert!(executed.message.is_none());
    assert!(executed.result.is_ok());
}

#[test]
fn results_of_calls() {
    assert!(matches!(post_result(true), Some(Ok(()))));
    assert!(post_result(false).is_none());
    assert!(matches!(request_result(Some(Ok(()))), Some(Ok(()))));
    let failure = Error { status: 1, reason: "module not found".to_string() };
    let result = request_result::<()>(Some(Err(failure))).unwrap();
    assert_eq!(result.err().unwrap().reason, "module not found");
    assert!(request_result::<()>(None).is_none());
    assert!(stop_result(true, true));
    assert!(!stop_result(true, false));
    assert!(!stop_result(false, false));
}

#[test]
fn status_check() {
    assert_eq!(NAPI_OK, libnode_sys::Status::napi_ok);
    assert!(check_status(libnode_sys::Status::napi_ok, "fine").is_ok());
    let error = check_status(libnode_sys::Status::napi_closing, "too late").err().unwrap();
    assert_eq!((error.status, error.reason.as_str()), (16, "too late"));
    let copy = error.clone();
    assert_eq!((copy.status, copy.reason.as_str()), (16, "too late"));
}
