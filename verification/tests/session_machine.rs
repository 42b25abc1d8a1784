use openxr_core::event::XRState;
use openxr_core::session::{
    RuntimeEvent, RuntimeSessionState, SessionAction, SessionStateMachine, XrOptions,
    IDLE_SLEEP_MILLIS, VIEW_CONFIGURATION_PRIMARY_STEREO,
};

fn state_event(rs: RuntimeSessionState) -> Vec<RuntimeEvent> {
    vec![RuntimeEvent::SessionStateChanged(rs)]
}

#[test]
fn machine_starts_paused() {
    let m = SessionStateMachine::new();
    assert_eq!(m.state(), XRState::Paused);
    assert_eq!(m.previous_state(), XRState::Paused);
    assert!(!m.is_running());
}

#[test]
fn idle_ready_focused_stopping_scenario() {
    // One runtime report per tick: [Idle, Ready, Focused, Stopping].
    let mut m = SessionStateMachine::new();

    let tick1 = m.handle_openxr_events(&state_event(RuntimeSessionState::Idle));
    assert_eq!(tick1.changed_state, None); // already Paused
    assert!(tick1.actions.is_empty());
    assert!(tick1.idle_sleep);

    let tick2 = m.handle_openxr_events(&state_event(RuntimeSessionState::Ready));
    assert_eq!(tick2.changed_state, Some(XRState::Running));
    assert_eq!(tick2.actions, vec![SessionAction::BeginSession]);
    assert!(!tick2.idle_sleep);

    let tick3 = m.handle_openxr_events(&state_event(RuntimeSessionState::Focused));
    assert_eq!(tick3.changed_state, Some(XRState::RunningFocused));
    assert!(tick3.actions.is_empty());
    assert!(!tick3.idle_sleep);

    let tick4 = m.handle_openxr_events(&state_event(RuntimeSessionState::Stopping));
    assert_eq!(tick4.changed_state, Some(XRState::Paused));
    assert_eq!(tick4.actions, vec![SessionAction::EndSession]);
    // The stop itself was a transition, so this poll does not idle.
    assert!(!tick4.idle_sleep);
}

#[test]
fn table_rows_from_paused() {
    for (rs, expected) in [
        (RuntimeSessionState::Ready, Some(XRState::Running)),
        (RuntimeSessionState::Visible, Some(XRState::Running)),
        (RuntimeSessionState::Synchronized, Some(XRState::Running)),
        (RuntimeSessionState::Focused, Some(XRState::RunningFocused)),
        (RuntimeSessionState::Idle, None), // Paused already
        (RuntimeSessionState::Stopping, None), // Paused already
        (RuntimeSessionState::Exiting, Some(XRState::Exiting)),
        (RuntimeSessionState::LossPending, Some(XRState::Exiting)),
        (RuntimeSessionState::Unknown, None),
    ] {
        let mut m = SessionStateMachine::new();
        let outcome = m.handle_openxr_events(&state_event(rs));
        assert_eq!(outcome.changed_state, expected, "runtime state {:?}", rs);
    }
}

#[test]
fn edge_suppression_reports_nothing_for_a_repeat() {
    let mut m = SessionStateMachine::new();
    m.handle_openxr_events(&state_event(RuntimeSessionState::Visible));
    assert_eq!(m.state(), XRState::Running);
    let outcome = m.handle_openxr_events(&state_event(RuntimeSessionState::Synchronized));
    assert_eq!(outcome.changed_state, None);
    assert_eq!(m.state(), XRState::Running);
    assert_eq!(m.previous_state(), XRState::Paused);
}

#[test]
fn exiting_short_circuits_the_remaining_events() {
    let mut m = SessionStateMachine::new();
    let events = vec![
        RuntimeEvent::SessionStateChanged(RuntimeSessionState::Exiting),
        RuntimeEvent::SessionStateChanged(RuntimeSessionState::Ready),
    ];
    let outcome = m.handle_openxr_events(&events);
    assert_eq!(outcome.changed_state, Some(XRState::Exiting));
    assert_eq!(outcome.events_consumed, 1);
    assert!(outcome.actions.is_empty()); // the Ready event was never reached
    assert!(!outcome.idle_sleep);
    assert_eq!(m.state(), XRState::Exiting);
}

#[test]
fn instance_loss_forces_exiting() {
    let mut m = SessionStateMachine::new();
    let events = vec![
        RuntimeEvent::InstanceLossPending,
        RuntimeEvent::SessionStateChanged(RuntimeSessionState::Focused),
    ];
    let outcome = m.handle_openxr_events(&events);
    assert_eq!(outcome.changed_state, Some(XRState::Exiting));
    assert_eq!(outcome.events_consumed, 1);
    assert_eq!(m.state(), XRState::Exiting);
}

#[test]
fn ignored_events_change_nothing() {
    let mut m = SessionStateMachine::new();
    let events = vec![
        RuntimeEvent::EventsLost(7),
        RuntimeEvent::ReferenceSpaceChangePending,
        RuntimeEvent::PerfSettingsChanged,
        RuntimeEvent::VisibilityMaskChanged,
        RuntimeEvent::InteractionProfileChanged,
        RuntimeEvent::MainSessionVisibilityChanged,
        RuntimeEvent::Unknown,
    ];
    let outcome = m.handle_openxr_events(&events);
    assert_eq!(outcome.changed_state, None);
    assert!(outcome.actions.is_empty());
    assert_eq!(outcome.events_consumed, 7);
    assert!(outcome.idle_sleep); // still Paused, nothing changed
    assert_eq!(m.state(), XRState::Paused);
}

#[test]
fn one_poll_many_events_reports_the_last_transition() {
    let mut m = SessionStateMachine::new();
    let events = vec![
        RuntimeEvent::SessionStateChanged(RuntimeSessionState::Ready),
        RuntimeEvent::SessionStateChanged(RuntimeSessionState::Focused),
    ];
    let outcome = m.handle_openxr_events(&events);
    assert_eq!(outcome.changed_state, Some(XRState::RunningFocused));
    assert_eq!(outcome.actions, vec![SessionAction::BeginSession]);
    assert_eq!(outcome.events_consumed, 2);
    assert_eq!(m.previous_state(), XRState::Running);
}

#[test]
fn begin_and_end_are_obliged_even_without_a_transition() {
    // A Ready report while already Running still obliges a session begin.
    let mut m = SessionStateMachine::new();
    m.handle_openxr_events(&state_event(RuntimeSessionState::Ready));
    let outcome = m.handle_openxr_events(&state_event(RuntimeSessionState::Ready));
    assert_eq!(outcome.changed_state, None);
    assert_eq!(outcome.actions, vec![SessionAction::BeginSession]);
}

#[test]
fn is_running_tracks_both_running_states() {
    let mut m = SessionStateMachine::new();
    m.handle_openxr_events(&state_event(RuntimeSessionState::Visible));
    assert!(m.is_running());
    m.handle_openxr_events(&state_event(RuntimeSessionState::Focused));
    assert!(m.is_running());
    m.handle_openxr_events(&state_event(RuntimeSessionState::Idle));
    assert!(!m.is_running());
}

#[test]
fn empty_poll_sleeps_only_when_paused() {
    let mut m = SessionStateMachine::new();
    let none: Vec<RuntimeEvent> = Vec::new();
    assert!(m.handle_openxr_events(&none).idle_sleep);
    m.handle_openxr_events(&state_event(RuntimeSessionState::Visible));
    assert!(!m.handle_openxr_events(&none).idle_sleep);
}

#[test]
fn default_options_are_stereo_without_trackers() {
    let options = XrOptions::default();
    assert_eq!(options.view_type, VIEW_CONFIGURATION_PRIMARY_STEREO);
    assert_eq!(options.view_type, 2);
    assert!(!options.hand_trackers);
    assert_eq!(IDLE_SLEEP_MILLIS, 100);
}
