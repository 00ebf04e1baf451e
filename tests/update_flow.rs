use angular_momentum::dialog::{DialogButtons, DialogKind, Notice};
use angular_momentum::update_flow::{step, FlowAction, FlowEvent, FlowState};

/// Feeds the events to a fresh update check and collects what it asks for.
fn run(events: Vec<FlowEvent>) -> (FlowState, Vec<FlowAction>) {
    let mut state = FlowState::AcquiringUpdater;
    let mut actions = Vec::new();
    for e in events {
        let (next, a) = step(state, e);
        state = next;
        actions.push(a);
    }
    (state, actions)
}

fn installs(actions: &[FlowAction]) -> usize {
    actions.iter().filter(|a| matches!(a, FlowAction::Install)).count()
}

fn notices(actions: &[FlowAction]) -> Vec<Notice> {
    actions
        .iter()
        .filter_map(|a| match a {
            FlowAction::Show(n) => Some(n.clone()),
            _ => None,
        })
        .collect()
}

#[test]
fn accepted_update_installs_once_and_reports_success() {
    let (state, actions) = run(vec![
        FlowEvent::UpdaterReady,
        FlowEvent::UpdateFound("2.0.0".to_string()),
        FlowEvent::Answered(true),
        FlowEvent::Installed,
    ]);
    assert_eq!(state, FlowState::Finished);
    assert_eq!(installs(&actions), 1);
    assert_eq!(notices(&actions), vec![Notice::UpdateAvailable("2.0.0".to_string()), Notice::Installed]);
    let offer = Notice::UpdateAvailable("2.0.0".to_string()).render();
    assert_eq!(offer.title, "Update Available");
    assert_eq!(offer.message, "Version 2.0.0 is available. Would you like to install it now?");
    assert_eq!(offer.buttons, DialogButtons::OkCancel);
    let done = Notice::Installed.render();
    assert_eq!(done.title, "Update Complete");
    assert_eq!(done.message, "Update installed. Please restart the application.");
    assert_eq!(done.kind, DialogKind::Info);
}

#[test]
fn accepted_update_installs_once_and_reports_failure() {
    let (state, actions) = run(vec![
        FlowEvent::UpdaterReady,
        FlowEvent::UpdateFound("2.0.0".to_string()),
        FlowEvent::Answered(true),
        FlowEvent::InstallFailed("signature mismatch".to_string()),
        FlowEvent::Installed,
    ]);
    assert_eq!(state, FlowState::Finished);
    assert_eq!(installs(&actions), 1);
    assert_eq!(
        notices(&actions),
        vec![
            Notice::UpdateAvailable("2.0.0".to_string()),
            Notice::InstallFailed("signature mismatch".to_string()),
        ]
    );
    let d = Notice::InstallFailed("signature mismatch".to_string()).render();
    assert_eq!(d.title, "Update Error");
    assert_eq!(d.message, "Failed to install update: signature mismatch");
    assert_eq!(d.kind, DialogKind::Error);
    assert_eq!(d.buttons, DialogButtons::Acknowledge);
}

#[test]
fn no_update_informs_once() {
    let (state, actions) = run(vec![FlowEvent::UpdaterReady, FlowEvent::NoUpdate]);
    assert_eq!(state, FlowState::Finished);
    assert_eq!(actions[0], FlowAction::CheckForUpdate);
    assert_eq!(installs(&actions), 0);
    assert_eq!(notices(&actions), vec![Notice::UpToDate]);
    let d = Notice::UpToDate.render();
    assert_eq!(d.title, "No Updates");
    assert_eq!(d.message, "You're running the latest version.");
    assert_eq!(d.kind, DialogKind::Info);
}

#[test]
fn failed_check_reports_reason_once() {
    let (state, actions) = run(vec![
        FlowEvent::UpdaterReady,
        FlowEvent::CheckFailed("network unreachable".to_string()),
        FlowEvent::Answered(true),
    ]);
    assert_eq!(state, FlowState::Finished);
    assert_eq!(installs(&actions), 0);
    let shown = notices(&actions);
    assert_eq!(shown.len(), 1);
    let d = shown[0].render();
    assert_eq!(d.kind, DialogKind::Error);
    assert_eq!(d.title, "Update Error");
    assert_eq!(d.message, "Failed to check for updates: network unreachable");
    assert!(d.message.contains("network unreachable"));
}

#[test]
fn declined_update_is_left_alone() {
    let (state, actions) = run(vec![
        FlowEvent::UpdaterReady,
        FlowEvent::UpdateFound("2.0.0".to_string()),
        FlowEvent::Answered(false),
    ]);
    assert_eq!(state, FlowState::Finished);
    assert_eq!(installs(&actions), 0);
    assert_eq!(notices(&actions), vec![Notice::UpdateAvailable("2.0.0".to_string())]);
    assert_eq!(actions[2], FlowAction::Idle);
}

#[test]
fn unavailable_updater_reports_reason() {
    let (state, actions) = run(vec![FlowEvent::UpdaterUnavailable("plugin not registered".to_string())]);
    assert_eq!(state, FlowState::Finished);
    assert_eq!(installs(&actions), 0);
    let d = notices(&actions)[0].render();
    assert_eq!(d.title, "Update Error");
    assert_eq!(d.message, "Updater not available: plugin not registered");
    assert_eq!(d.kind, DialogKind::Error);
}

#[test]
fn unexpected_events_are_ignored() {
    let (state, action) = step(FlowState::Checking, FlowEvent::Answered(true));
    assert_eq!(state, FlowState::Checking);
    assert_eq!(action, FlowAction::Idle);
    let (state, action) = step(FlowState::Finished, FlowEvent::UpdateFound("3.0.0".to_string()));
    assert_eq!(state, FlowState::Finished);
    assert_eq!(action, FlowAction::Idle);
}
