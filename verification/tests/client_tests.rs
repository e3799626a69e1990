use aiql_core::client::{AskAction, AskEvent, AskStep};

/// Plays a request against scripted collaborators: the translator always gives
/// `SELECT * FROM users;`, the healer `Healed SELECT * FROM users;`, and the
/// engine answers as `execute` says. Returns whether it finished with success
/// and, on failure, the error.
fn play(dry_run_ok: bool, execute: &dyn Fn(&str) -> (bool, Option<String>)) -> Result<bool, String> {
    let (mut step, mut action) = AskStep::start();
    let mut last_success = false;
    loop {
        let event = match action {
            AskAction::Translate => AskEvent::Translated { query: "SELECT * FROM users;".to_string() },
            AskAction::DryRun { .. } => AskEvent::DryRunChecked { ok: dry_run_ok },
            AskAction::Execute { query } => {
                let (success, error) = execute(&query);
                last_success = success;
                AskEvent::Executed { success, error }
            }
            AskAction::Heal { .. } => AskEvent::Healed { query: "Healed SELECT * FROM users;".to_string() },
            AskAction::Finish => return Ok(last_success),
            AskAction::Fail { message } => return Err(message),
        };
        let (next_step, next_action) = step.next(event);
        step = next_step;
        action = next_action;
    }
}

fn engine(fail_first: bool) -> impl Fn(&str) -> (bool, Option<String>) {
    move |query: &str| {
        if query.contains("Healed") {
            (true, None)
        } else if fail_first {
            (false, Some("Syntax error".to_string()))
        } else {
            (true, None)
        }
    }
}

#[test]
fn test_smart_client_success() {
    let result = play(true, &engine(false));
    assert!(result.unwrap());
}

#[test]
fn test_smart_client_healing() {
    let result = play(true, &engine(true));
    assert!(result.unwrap());
}

#[test]
fn test_smart_client_dry_run_failure() {
    let result = play(false, &engine(false));
    assert!(result.is_err());
    assert_eq!(result.err().unwrap(), "Dry run failed for generated query");
}

#[test]
fn heal_is_tried_once_only() {
    let healer_calls = std::cell::Cell::new(0);
    let (mut step, mut action) = AskStep::start();
    let mut finished = false;
    for _ in 0..10 {
        let event = match action {
            AskAction::Translate => AskEvent::Translated { query: "bad".to_string() },
            AskAction::DryRun { .. } => AskEvent::DryRunChecked { ok: true },
            AskAction::Execute { .. } => AskEvent::Executed { success: false, error: Some("boom".to_string()) },
            AskAction::Heal { query, error } => {
                assert_eq!(query, "bad");
                assert_eq!(error, "boom");
                healer_calls.set(healer_calls.get() + 1);
                AskEvent::Healed { query: "still bad".to_string() }
            }
            AskAction::Finish => {
                finished = true;
                break;
            }
            AskAction::Fail { .. } => panic!("no failure expected"),
        };
        let (s, a) = step.next(event);
        step = s;
        action = a;
    }
    assert!(finished);
    assert!(step.is_done());
    assert_eq!(healer_calls.get(), 1);
}

#[test]
fn failure_without_message_is_not_healed() {
    let (step, _) = AskStep::start();
    let (step, _) = step.next(AskEvent::Translated { query: "q".to_string() });
    let (step, _) = step.next(AskEvent::DryRunChecked { ok: true });
    let (step, action) = step.next(AskEvent::Executed { success: false, error: None });
    assert!(matches!(action, AskAction::Finish));
    assert!(step.is_done());
}

#[test]
fn outside_error_ends_the_request() {
    let (step, _) = AskStep::start();
    let (step, action) = step.next(AskEvent::Failed { message: "model unreachable".to_string() });
    assert!(step.is_done());
    match action {
        AskAction::Fail { message } => assert_eq!(message, "model unreachable"),
        _ => panic!("expected a failure"),
    }
}

#[test]
fn healed_query_is_dry_run_before_execution() {
    let (step, _) = AskStep::start();
    let (step, _) = step.next(AskEvent::Translated { query: "bad".to_string() });
    let (step, _) = step.next(AskEvent::DryRunChecked { ok: true });
    let (step, _) = step.next(AskEvent::Executed { success: false, error: Some("boom".to_string()) });
    let (step, action) = step.next(AskEvent::Healed { query: "fixed".to_string() });
    match action {
        AskAction::DryRun { query } => assert_eq!(query, "fixed"),
        _ => panic!("the healed query goes to the dry run first"),
    }
    let (step, action) = step.next(AskEvent::DryRunChecked { ok: false });
    assert!(step.is_done());
    match action {
        AskAction::Fail { message } => assert_eq!(message, "Dry run failed for generated query"),
        _ => panic!("expected a failure"),
    }
}

#[test]
fn healed_query_executes_after_dry_run() {
    let (step, _) = AskStep::start();
    let (step, _) = step.next(AskEvent::Translated { query: "bad".to_string() });
    let (step, _) = step.next(AskEvent::DryRunChecked { ok: true });
    let (step, _) = step.next(AskEvent::Executed { success: false, error: Some("boom".to_string()) });
    let (step, _) = step.next(AskEvent::Healed { query: "fixed".to_string() });
    let (step, action) = step.next(AskEvent::DryRunChecked { ok: true });
    match action {
        AskAction::Execute { query } => assert_eq!(query, "fixed"),
        _ => panic!("expected the healed query to run"),
    }
    let (step, action) = step.next(AskEvent::Executed { success: false, error: Some("again".to_string()) });
    assert!(matches!(action, AskAction::Finish));
    assert!(step.is_done());
}
