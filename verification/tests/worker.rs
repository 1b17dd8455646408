use js_core::handle::{JsCoreHandle, Readiness};
use js_core::protocol::{EngineError, Execute, JsCoreRequest, JsCoreResponse};
use js_core::worker::{Binding, Fault, JsCore, WorkerAction, WorkerEvent, WorkerPhase};

fn worker_in_race() -> JsCore {
    let (mut worker, _) = JsCore::start();
    worker.step(WorkerEvent::Started);
    worker.step(WorkerEvent::Bootstrapped(Ok(())));
    worker.step(WorkerEvent::Primed(Ok(())));
    worker
}

fn worker_in_service() -> JsCore {
    let mut worker = worker_in_race();
    worker.step(WorkerEvent::Probed(Ok(Binding::Defined)));
    worker
}

fn request(id: &str, script: &str) -> JsCoreRequest {
    JsCoreRequest { script: script.to_string(), id: id.to_string() }
}

fn failure(text: &str) -> EngineError {
    EngineError::new(text.to_string())
}

fn halted_with_notice(fault: Fault, text: &str) -> WorkerAction {
    WorkerAction::Halt { fault, notice: Some(JsCoreResponse::boot_failure(failure(text))) }
}

#[test]
fn start_gives_a_worker_and_a_handle_that_know_nothing() {
    let (worker, handle): (JsCore, JsCoreHandle) = JsCore::start();
    assert_eq!(worker.phase(), WorkerPhase::Created);
    assert_eq!(handle.initialized(), Readiness::Waiting);
}

#[test]
fn startup_runs_from_bootstrap_to_service() {
    let (mut worker, mut handle) = JsCore::start();
    assert_eq!(worker.step(WorkerEvent::Started), WorkerAction::Bootstrap);
    assert_eq!(worker.phase(), WorkerPhase::Bootstrapping);
    assert_eq!(
        worker.step(WorkerEvent::Bootstrapped(Ok(()))),
        WorkerAction::Prime { name: "js_core".to_string(), source: "initCore()".to_string() }
    );
    assert_eq!(worker.phase(), WorkerPhase::Priming);
    assert_eq!(
        worker.step(WorkerEvent::Primed(Ok(()))),
        WorkerAction::Watch { binding: "core".to_string() }
    );
    assert_eq!(worker.phase(), WorkerPhase::Racing);
    let action = worker.step(WorkerEvent::Probed(Ok(Binding::Defined)));
    assert_eq!(action, WorkerAction::Post(JsCoreResponse::boot_signal()));
    assert_eq!(worker.phase(), WorkerPhase::Serving);
    if let WorkerAction::Post(signal) = action {
        handle.deliver(signal);
    }
    assert_eq!(handle.initialized(), Readiness::Ready);
}

#[test]
fn the_race_goes_on_while_the_binding_is_missing() {
    let mut worker = worker_in_race();
    for round in 0..50 {
        let found = if round % 2 == 0 { Binding::Absent } else { Binding::Placeholder };
        assert_eq!(
            worker.step(WorkerEvent::Probed(Ok(found))),
            WorkerAction::Watch { binding: "core".to_string() }
        );
        assert_eq!(worker.phase(), WorkerPhase::Racing);
    }
}

#[test]
fn failed_bootstrap_halts_with_a_notice() {
    let (mut worker, mut handle) = JsCore::start();
    worker.step(WorkerEvent::Started);
    let action = worker.step(WorkerEvent::Bootstrapped(Err(failure("module not found"))));
    assert_eq!(action, halted_with_notice(Fault::BootstrapFailed, "module not found"));
    assert_eq!(worker.phase(), WorkerPhase::Halted);
    if let WorkerAction::Halt { notice: Some(notice), .. } = action {
        handle.deliver(notice);
    }
    assert_eq!(handle.initialized(), Readiness::Failed);
    assert_eq!(handle.boot_error(), Some(failure("module not found")));
}

#[test]
fn refused_init_script_halts_with_a_notice() {
    let (mut worker, _) = JsCore::start();
    worker.step(WorkerEvent::Started);
    worker.step(WorkerEvent::Bootstrapped(Ok(())));
    assert_eq!(
        worker.step(WorkerEvent::Primed(Err(failure("initCore is not defined")))),
        halted_with_notice(Fault::InitFailed, "initCore is not defined")
    );
    assert_eq!(worker.phase(), WorkerPhase::Halted);
}

#[test]
fn failed_probe_halts_with_a_notice() {
    let mut worker = worker_in_race();
    assert_eq!(
        worker.step(WorkerEvent::Probed(Err(failure("scope is gone")))),
        halted_with_notice(Fault::ProbeFailed, "scope is gone")
    );
    assert_eq!(worker.phase(), WorkerPhase::Halted);
}

#[test]
fn loop_that_runs_dry_during_the_race_halts_with_a_notice() {
    let mut worker = worker_in_race();
    assert_eq!(
        worker.step(WorkerEvent::LoopSettled(Ok(()))),
        halted_with_notice(Fault::LoopEnded, "event loop ended before the engine was ready")
    );
    assert_eq!(worker.phase(), WorkerPhase::Halted);
}

#[test]
fn loop_that_fails_during_the_race_halts_with_a_notice() {
    let mut worker = worker_in_race();
    assert_eq!(
        worker.step(WorkerEvent::LoopSettled(Err(failure("uncaught exception")))),
        halted_with_notice(Fault::LoopFailed, "uncaught exception")
    );
}

#[test]
fn a_request_is_evaluated_and_answered_under_its_id() {
    let mut worker = worker_in_service();
    assert_eq!(
        worker.step(WorkerEvent::Received(request("call-1", "40+2"))),
        WorkerAction::Evaluate(Execute { script: "40+2".to_string() })
    );
    assert_eq!(worker.phase(), WorkerPhase::Evaluating);
    assert_eq!(
        worker.step(WorkerEvent::Evaluated(Ok("42".to_string()))),
        WorkerAction::Post(JsCoreResponse::reply("call-1".to_string(), Ok("42".to_string())))
    );
    assert_eq!(worker.phase(), WorkerPhase::Serving);
}

#[test]
fn a_failed_script_is_answered_and_service_goes_on() {
    let mut worker = worker_in_service();
    worker.step(WorkerEvent::Received(request("call-1", "nonsense(")));
    assert_eq!(
        worker.step(WorkerEvent::Evaluated(Err(failure("SyntaxError")))),
        WorkerAction::Post(JsCoreResponse::reply("call-1".to_string(), Err(failure("SyntaxError"))))
    );
    assert_eq!(worker.phase(), WorkerPhase::Serving);
    assert_eq!(
        worker.step(WorkerEvent::Received(request("call-2", "1+1"))),
        WorkerAction::Evaluate(Execute { script: "1+1".to_string() })
    );
    assert_eq!(
        worker.step(WorkerEvent::Evaluated(Ok("2".to_string()))),
        WorkerAction::Post(JsCoreResponse::reply("call-2".to_string(), Ok("2".to_string())))
    );
}

#[test]
fn a_request_under_the_reserved_id_is_passed_over() {
    let mut worker = worker_in_service();
    assert_eq!(
        worker.step(WorkerEvent::Received(request("initialized", "1"))),
        WorkerAction::Serve
    );
    assert_eq!(worker.phase(), WorkerPhase::Serving);
}

#[test]
fn the_loop_must_not_settle_while_the_worker_serves() {
    let mut worker = worker_in_service();
    for round in 0..20 {
        worker.step(WorkerEvent::Received(request(&format!("call-{round}"), "1")));
        worker.step(WorkerEvent::Evaluated(Ok("1".to_string())));
        assert_eq!(worker.phase(), WorkerPhase::Serving);
    }
    assert_eq!(
        worker.step(WorkerEvent::LoopSettled(Ok(()))),
        WorkerAction::Halt { fault: Fault::LoopEnded, notice: None }
    );
    assert_eq!(worker.phase(), WorkerPhase::Halted);
    assert_eq!(
        worker.step(WorkerEvent::Received(request("call-late", "1"))),
        WorkerAction::Halt { fault: Fault::OutOfTurn, notice: None }
    );
}

#[test]
fn a_failing_loop_halts_a_serving_worker() {
    let mut worker = worker_in_service();
    assert_eq!(
        worker.step(WorkerEvent::LoopSettled(Err(failure("uncaught exception")))),
        WorkerAction::Halt { fault: Fault::LoopFailed, notice: None }
    );
    assert_eq!(worker.phase(), WorkerPhase::Halted);
}

#[test]
fn a_closed_mailbox_halts_a_serving_worker() {
    let mut worker = worker_in_service();
    assert_eq!(
        worker.step(WorkerEvent::MailboxClosed),
        WorkerAction::Halt { fault: Fault::MailboxClosed, notice: None }
    );
    assert_eq!(worker.phase(), WorkerPhase::Halted);
}

#[test]
fn an_event_out_of_turn_halts_the_worker() {
    let (mut worker, _) = JsCore::start();
    assert_eq!(
        worker.step(WorkerEvent::Evaluated(Ok("42".to_string()))),
        WorkerAction::Halt { fault: Fault::OutOfTurn, notice: None }
    );
    assert_eq!(worker.phase(), WorkerPhase::Halted);
    assert_eq!(
        worker.step(WorkerEvent::Started),
        WorkerAction::Halt { fault: Fault::OutOfTurn, notice: None }
    );
}

#[test]
fn no_boot_signal_without_the_binding() {
    let (mut worker, mut handle) = JsCore::start();
    worker.step(WorkerEvent::Started);
    worker.step(WorkerEvent::Bootstrapped(Ok(())));
    worker.step(WorkerEvent::Primed(Ok(())));
    for _ in 0..200 {
        match worker.step(WorkerEvent::Probed(Ok(Binding::Absent))) {
            WorkerAction::Post(response) => {
                handle.deliver(response);
            }
            WorkerAction::Watch { .. } => {}
            other => panic!("unexpected action {other:?}"),
        }
        assert_eq!(handle.initialized(), Readiness::Waiting);
    }
}
