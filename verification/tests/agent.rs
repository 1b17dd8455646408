use js_core::agent::{
    run, AgentAction, AgentError, AgentEvent, AgentFunctions, AgentQuery, AgentReply, AgentStage,
    AgentStep, Report,
};

fn lines(texts: &[&str]) -> Report {
    Report::Lines(texts.iter().map(|text| text.to_string()).collect())
}

fn answers(texts: &[&str]) -> Vec<String> {
    texts.iter().map(|text| text.to_string()).collect()
}

#[test]
fn me_and_status_ask_nothing() {
    assert_eq!(
        AgentFunctions::Me.next_step(&answers(&[])),
        Ok(AgentStep::Call(AgentQuery::Me))
    );
    assert_eq!(
        AgentFunctions::Status.next_step(&answers(&[])),
        Ok(AgentStep::Call(AgentQuery::Status))
    );
}

#[test]
fn lock_asks_for_the_passphrase() {
    assert_eq!(
        AgentFunctions::Lock.next_step(&answers(&[])),
        Ok(AgentStep::Ask("Passphrase: ".to_string()))
    );
    assert_eq!(
        AgentFunctions::Lock.next_step(&answers(&["secret"])),
        Ok(AgentStep::Call(AgentQuery::Lock { passphrase: "secret".to_string() }))
    );
}

#[test]
fn unlock_uses_the_passphrase_it_came_with() {
    let command = AgentFunctions::Unlock { passphrase: Some("given".to_string()) };
    assert_eq!(
        command.next_step(&answers(&[])),
        Ok(AgentStep::Call(AgentQuery::Unlock { passphrase: "given".to_string() }))
    );
}

#[test]
fn unlock_asks_where_it_came_without() {
    let command = AgentFunctions::Unlock { passphrase: None };
    assert_eq!(
        command.next_step(&answers(&[])),
        Ok(AgentStep::Ask("Passphrase: ".to_string()))
    );
    assert_eq!(
        command.next_step(&answers(&["typed"])),
        Ok(AgentStep::Call(AgentQuery::Unlock { passphrase: "typed".to_string() }))
    );
}

#[test]
fn by_did_passes_the_did_on() {
    let command = AgentFunctions::ByDID { did: "did:key:z6Mk".to_string() };
    assert_eq!(
        command.next_step(&answers(&[])),
        Ok(AgentStep::Call(AgentQuery::ByDID { did: "did:key:z6Mk".to_string() }))
    );
}

#[test]
fn generate_uses_the_passphrase_it_came_with() {
    let command = AgentFunctions::Generate { passphrase: Some("given".to_string()) };
    assert_eq!(
        command.next_step(&answers(&[])),
        Ok(AgentStep::Call(AgentQuery::Generate { passphrase: "given".to_string() }))
    );
}

#[test]
fn generate_asks_twice_and_compares() {
    let command = AgentFunctions::Generate { passphrase: None };
    assert_eq!(
        command.next_step(&answers(&[])),
        Ok(AgentStep::Ask("Passphrase: ".to_string()))
    );
    assert_eq!(
        command.next_step(&answers(&["one"])),
        Ok(AgentStep::Ask("Repeat passphrase: ".to_string()))
    );
    assert_eq!(
        command.next_step(&answers(&["one", "one"])),
        Ok(AgentStep::Call(AgentQuery::Generate { passphrase: "one".to_string() }))
    );
}

#[test]
fn generate_fails_where_the_passphrases_differ() {
    let command = AgentFunctions::Generate { passphrase: None };
    let failed = command.next_step(&answers(&["one", "two"]));
    assert_eq!(failed, Err(AgentError::PassphraseMismatch));
    assert_eq!(AgentError::PassphraseMismatch.message(), "Passphrases do not match");
}

#[test]
fn me_shows_the_agent() {
    assert_eq!(AgentFunctions::Me.report(AgentReply::Agent), Ok(Report::ShowAgent));
}

#[test]
fn status_is_shown_in_four_lines() {
    let reply = AgentReply::Status {
        did: Some("did:key:z6Mk".to_string()),
        is_initialized: true,
        is_unlocked: false,
        did_document: Some("{}".to_string()),
    };
    assert_eq!(
        AgentFunctions::Status.report(reply),
        Ok(lines(&[
            "\x1b[36mDID: \x1b[97mdid:key:z6Mk",
            "\x1b[36mis_initiliazed: \x1b[97mtrue",
            "\x1b[36mis_unlocked: \x1b[97mfalse",
            "\x1b[36mDID Document:\n\x1b[97m{}",
        ]))
    );
}

#[test]
fn status_without_a_did_says_undefined() {
    let reply = AgentReply::Status {
        did: None,
        is_initialized: false,
        is_unlocked: true,
        did_document: None,
    };
    assert_eq!(
        AgentFunctions::Status.report(reply),
        Ok(lines(&[
            "\x1b[36mDID: \x1b[97m<undefined>",
            "\x1b[36mis_initiliazed: \x1b[97mfalse",
            "\x1b[36mis_unlocked: \x1b[97mtrue",
            "\x1b[36mDID Document:\n\x1b[97m<undefined>",
        ]))
    );
}

#[test]
fn key_changes_report_their_success() {
    let done = || AgentReply::Outcome { error: None };
    assert_eq!(AgentFunctions::Lock.report(done()), Ok(lines(&["Agent locked"])));
    assert_eq!(
        AgentFunctions::Unlock { passphrase: None }.report(done()),
        Ok(lines(&["Agent unlocked"]))
    );
    assert_eq!(
        AgentFunctions::Generate { passphrase: Some("p".to_string()) }.report(done()),
        Ok(lines(&["Agent generated"]))
    );
}

#[test]
fn key_changes_fail_with_the_error_of_the_service() {
    let refused = || AgentReply::Outcome { error: Some("wrong passphrase".to_string()) };
    for command in [
        AgentFunctions::Lock,
        AgentFunctions::Unlock { passphrase: None },
        AgentFunctions::Generate { passphrase: None },
    ] {
        let failed = command.report(refused());
        assert_eq!(failed, Err(AgentError::Refused("wrong passphrase".to_string())));
        assert_eq!(failed.unwrap_err().message(), "wrong passphrase");
    }
}

#[test]
fn lookup_shows_the_agent_or_says_it_is_missing() {
    let command = AgentFunctions::ByDID { did: "did:key:z6Mk".to_string() };
    assert_eq!(command.report(AgentReply::Lookup { found: true }), Ok(Report::ShowAgent));
    assert_eq!(
        command.report(AgentReply::Lookup { found: false }),
        Ok(lines(&["Agent not found"]))
    );
}

#[test]
fn a_reply_of_another_kind_is_an_error() {
    let failed = AgentFunctions::Me.report(AgentReply::Outcome { error: None });
    assert_eq!(failed, Err(AgentError::UnexpectedReply));
    assert_eq!(
        AgentError::UnexpectedReply.message(),
        "The agent service sent a reply of another kind"
    );
    assert_eq!(
        AgentFunctions::Lock.report(AgentReply::Agent),
        Err(AgentError::UnexpectedReply)
    );
    assert_eq!(
        AgentFunctions::Status.report(AgentReply::Lookup { found: true }),
        Err(AgentError::UnexpectedReply)
    );
}

#[test]
fn run_puts_the_query_at_once_where_nothing_is_to_ask() {
    let (session, action) = run("token".to_string(), AgentFunctions::Me);
    assert_eq!(
        action,
        AgentAction::Call { cap_token: "token".to_string(), query: AgentQuery::Me }
    );
    assert_eq!(session.stage(), AgentStage::Calling);
}

#[test]
fn run_status_shows_the_four_lines() {
    let (mut session, action) = run("token".to_string(), AgentFunctions::Status);
    assert_eq!(
        action,
        AgentAction::Call { cap_token: "token".to_string(), query: AgentQuery::Status }
    );
    let reply = AgentReply::Status {
        did: Some("did:key:z6Mk".to_string()),
        is_initialized: true,
        is_unlocked: true,
        did_document: None,
    };
    assert_eq!(
        session.step(AgentEvent::Reply(reply)),
        AgentAction::Show(lines(&[
            "\x1b[36mDID: \x1b[97mdid:key:z6Mk",
            "\x1b[36mis_initiliazed: \x1b[97mtrue",
            "\x1b[36mis_unlocked: \x1b[97mtrue",
            "\x1b[36mDID Document:\n\x1b[97m<undefined>",
        ]))
    );
    assert_eq!(session.stage(), AgentStage::Finished);
}

#[test]
fn run_lock_asks_then_calls_then_reports() {
    let (mut session, action) = run("token".to_string(), AgentFunctions::Lock);
    assert_eq!(action, AgentAction::Ask("Passphrase: ".to_string()));
    assert_eq!(session.stage(), AgentStage::Asking);
    assert_eq!(
        session.step(AgentEvent::Line("secret".to_string())),
        AgentAction::Call {
            cap_token: "token".to_string(),
            query: AgentQuery::Lock { passphrase: "secret".to_string() },
        }
    );
    assert_eq!(session.stage(), AgentStage::Calling);
    assert_eq!(
        session.step(AgentEvent::Reply(AgentReply::Outcome { error: None })),
        AgentAction::Show(lines(&["Agent locked"]))
    );
    assert_eq!(session.stage(), AgentStage::Finished);
}

#[test]
fn run_generate_asks_twice() {
    let command = AgentFunctions::Generate { passphrase: None };
    let (mut session, action) = run("token".to_string(), command);
    assert_eq!(action, AgentAction::Ask("Passphrase: ".to_string()));
    assert_eq!(
        session.step(AgentEvent::Line("one".to_string())),
        AgentAction::Ask("Repeat passphrase: ".to_string())
    );
    assert_eq!(
        session.step(AgentEvent::Line("one".to_string())),
        AgentAction::Call {
            cap_token: "token".to_string(),
            query: AgentQuery::Generate { passphrase: "one".to_string() },
        }
    );
    assert_eq!(
        session.step(AgentEvent::Reply(AgentReply::Outcome { error: None })),
        AgentAction::Show(lines(&["Agent generated"]))
    );
}

#[test]
fn run_generate_fails_on_a_mismatch_before_any_query() {
    let command = AgentFunctions::Generate { passphrase: None };
    let (mut session, _) = run("token".to_string(), command);
    session.step(AgentEvent::Line("one".to_string()));
    assert_eq!(
        session.step(AgentEvent::Line("two".to_string())),
        AgentAction::Fail(AgentError::PassphraseMismatch)
    );
    assert_eq!(session.stage(), AgentStage::Finished);
}

#[test]
fn run_unlock_fails_with_the_error_of_the_service() {
    let command = AgentFunctions::Unlock { passphrase: Some("given".to_string()) };
    let (mut session, action) = run("token".to_string(), command);
    assert_eq!(
        action,
        AgentAction::Call {
            cap_token: "token".to_string(),
            query: AgentQuery::Unlock { passphrase: "given".to_string() },
        }
    );
    let refused = AgentReply::Outcome { error: Some("wrong passphrase".to_string()) };
    assert_eq!(
        session.step(AgentEvent::Reply(refused)),
        AgentAction::Fail(AgentError::Refused("wrong passphrase".to_string()))
    );
}

#[test]
fn run_by_did_reports_a_missing_agent() {
    let command = AgentFunctions::ByDID { did: "did:key:z6Mk".to_string() };
    let (mut session, action) = run("token".to_string(), command);
    assert_eq!(
        action,
        AgentAction::Call {
            cap_token: "token".to_string(),
            query: AgentQuery::ByDID { did: "did:key:z6Mk".to_string() },
        }
    );
    assert_eq!(
        session.step(AgentEvent::Reply(AgentReply::Lookup { found: false })),
        AgentAction::Show(lines(&["Agent not found"]))
    );
}

#[test]
fn a_session_takes_nothing_it_did_not_ask_for() {
    let (mut session, _) = run("token".to_string(), AgentFunctions::Lock);
    assert_eq!(
        session.step(AgentEvent::Reply(AgentReply::Outcome { error: None })),
        AgentAction::Fail(AgentError::OutOfTurn)
    );
    assert_eq!(session.stage(), AgentStage::Finished);
    assert_eq!(
        session.step(AgentEvent::Line("secret".to_string())),
        AgentAction::Fail(AgentError::OutOfTurn)
    );
    assert_eq!(AgentError::OutOfTurn.message(), "Nothing was asked for");
}
