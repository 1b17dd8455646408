use js_core::protocol::{boot_signal_id, EngineError, Execute, JsCoreRequest, JsCoreResponse};

#[test]
fn boot_signal_travels_under_the_reserved_id() {
    let signal = JsCoreResponse::boot_signal();
    assert_eq!(signal.id, "initialized");
    assert_eq!(signal.result, Ok("initialized".to_string()));
    assert!(signal.is_boot_message());
    assert_eq!(boot_signal_id(), "initialized");
}

#[test]
fn boot_failure_travels_under_the_reserved_id() {
    let notice = JsCoreResponse::boot_failure(EngineError::new("no main module".to_string()));
    assert_eq!(notice.id, "initialized");
    assert!(notice.is_boot_message());
    match notice.result {
        Err(reason) => assert_eq!(reason.description(), "no main module"),
        Ok(text) => panic!("a failed boot came back as {text}"),
    }
}

#[test]
fn reply_keeps_id_and_outcome() {
    let response = JsCoreResponse::reply("call-1".to_string(), Ok("42".to_string()));
    assert_eq!(response.id, "call-1");
    assert_eq!(response.result, Ok("42".to_string()));
    assert!(!response.is_boot_message());
}

#[test]
fn reply_carries_a_failure() {
    let thrown = EngineError::new("TypeError: x is not a function".to_string());
    let response = JsCoreResponse::reply("call-2".to_string(), Err(thrown.clone()));
    assert_eq!(response.result, Err(thrown));
}

#[test]
fn engine_error_keeps_its_description() {
    let error = EngineError::new("ReferenceError: x is not defined".to_string());
    assert_eq!(error.description(), "ReferenceError: x is not defined");
}

#[test]
fn engine_error_without_text_gets_one() {
    let error = EngineError::new(String::new());
    assert_eq!(error.description(), "script evaluation failed");
    assert!(!error.description().is_empty());
}

#[test]
fn clones_are_equal_to_what_they_copy() {
    let request = JsCoreRequest { script: "1".to_string(), id: "a".to_string() };
    assert_eq!(request.clone(), request);
    let response = JsCoreResponse::reply("a".to_string(), Err(EngineError::new("e".to_string())));
    assert_eq!(response.clone(), response);
    let message = Execute { script: "1".to_string() };
    assert_eq!(message.clone(), message);
}
