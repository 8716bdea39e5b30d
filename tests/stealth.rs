use chaser_oxide::stealth::{
    is_stale_context_error, StealthCommand, StealthError, StealthEvaluation, StealthEvent,
    ISOLATED_WORLD_NAME,
};

#[test]
fn evaluation_runs_in_an_isolated_world() {
    let (mut ev, first) = StealthEvaluation::new("navigator.userAgent");
    assert_eq!(first, StealthCommand::GetMainFrame);
    let c = ev.on_event(StealthEvent::MainFrame(Some("F1".to_string())));
    assert_eq!(c, StealthCommand::CreateIsolatedWorld { frame_id: "F1".to_string() });
    let c = ev.on_event(StealthEvent::WorldCreated(7));
    assert_eq!(
        c,
        StealthCommand::Evaluate { context_id: 7, expression: "navigator.userAgent".to_string() }
    );
    assert_eq!(ev.on_event(StealthEvent::Evaluated), StealthCommand::Finish);
    assert_eq!(ISOLATED_WORLD_NAME, "ghost");
}

#[test]
fn missing_main_frame_fails() {
    let (mut ev, _) = StealthEvaluation::new("1");
    assert_eq!(
        ev.on_event(StealthEvent::MainFrame(None)),
        StealthCommand::Fail(StealthError::NoMainFrame)
    );
}

#[test]
fn transport_failure_fails_at_once() {
    let (mut ev, _) = StealthEvaluation::new("1");
    ev.on_event(StealthEvent::MainFrame(Some("F".to_string())));
    assert_eq!(
        ev.on_event(StealthEvent::TransportFailed),
        StealthCommand::Fail(StealthError::Transport)
    );
}

#[test]
fn stale_context_is_recreated_once() {
    let (mut ev, _) = StealthEvaluation::new("document.title");
    ev.on_event(StealthEvent::MainFrame(Some("F1".to_string())));
    ev.on_event(StealthEvent::WorldCreated(3));
    assert_eq!(ev.on_event(StealthEvent::ContextGone), StealthCommand::GetMainFrame);
    let c = ev.on_event(StealthEvent::MainFrame(Some("F2".to_string())));
    assert_eq!(c, StealthCommand::CreateIsolatedWorld { frame_id: "F2".to_string() });
    let c = ev.on_event(StealthEvent::WorldCreated(4));
    assert_eq!(c, StealthCommand::Evaluate { context_id: 4, expression: "document.title".to_string() });
    assert_eq!(
        ev.on_event(StealthEvent::ContextGone),
        StealthCommand::Fail(StealthError::StaleContext)
    );
}

#[test]
fn out_of_order_events_fail() {
    let (mut ev, _) = StealthEvaluation::new("1");
    assert_eq!(
        ev.on_event(StealthEvent::Evaluated),
        StealthCommand::Fail(StealthError::Unexpected)
    );
    assert_eq!(
        ev.on_event(StealthEvent::MainFrame(Some("F".to_string()))),
        StealthCommand::Fail(StealthError::Unexpected)
    );
}

#[test]
fn stale_context_message_is_recognised() {
    assert!(is_stale_context_error("Cannot find context with specified id"));
    assert!(is_stale_context_error("Error -32000: Cannot find context with specified id (frame gone)"));
    assert!(!is_stale_context_error("Cannot find context"));
    assert!(!is_stale_context_error(""));
    assert!(!is_stale_context_error("Execution context was destroyed."));
}
