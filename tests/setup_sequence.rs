use desktop_shell::platform::{Platform, VisualEffect};
use desktop_shell::setup::{
    failure_message, Setup, SetupAction, SetupEvent, SetupFailure, SetupStage,
};

fn drive(platform: Platform, events: &[SetupEvent]) -> (Setup, Vec<SetupAction>) {
    let (mut state, first) = Setup::begin(platform);
    let mut actions = vec![first];
    for ev in events {
        let (next, action) = state.step(*ev);
        state = next;
        actions.push(action);
    }
    (state, actions)
}

#[test]
fn macos_starts_cleanly() {
    let (state, actions) = drive(
        Platform::MacOs,
        &[
            SetupEvent::UpdaterRegistered { ok: true },
            SetupEvent::WindowLookup { found: true },
            SetupEvent::EffectApplied { ok: true },
        ],
    );
    assert_eq!(state.stage, SetupStage::Ready);
    assert_eq!(
        actions,
        vec![
            SetupAction::RegisterUpdater,
            SetupAction::FindMainWindow,
            SetupAction::ApplyEffect(VisualEffect::Vibrancy),
            SetupAction::Finish,
        ]
    );
}

#[test]
fn linux_starts_without_an_effect() {
    let (state, actions) = drive(
        Platform::Linux,
        &[SetupEvent::UpdaterRegistered { ok: true }, SetupEvent::WindowLookup { found: true }],
    );
    assert_eq!(state.stage, SetupStage::Ready);
    assert_eq!(
        actions,
        vec![SetupAction::RegisterUpdater, SetupAction::FindMainWindow, SetupAction::Finish]
    );
}

#[test]
fn mobile_skips_the_updater() {
    let (state, actions) = drive(Platform::Android, &[SetupEvent::WindowLookup { found: true }]);
    assert_eq!(state.stage, SetupStage::Ready);
    assert_eq!(actions, vec![SetupAction::FindMainWindow, SetupAction::Finish]);
}

#[test]
fn refused_effect_stops_with_unsupported_message() {
    let (state, actions) = drive(
        Platform::Windows,
        &[
            SetupEvent::UpdaterRegistered { ok: true },
            SetupEvent::WindowLookup { found: true },
            SetupEvent::EffectApplied { ok: false },
            SetupEvent::EffectApplied { ok: true },
        ],
    );
    assert_eq!(state.stage, SetupStage::Failed);
    let effect = VisualEffect::Mica { dark: Some(true) };
    assert_eq!(actions[2], SetupAction::ApplyEffect(effect));
    assert_eq!(actions[3], SetupAction::Abort(SetupFailure::EffectRefused(effect)));
    assert_eq!(actions[4], SetupAction::Wait);
    assert_eq!(
        failure_message(SetupFailure::EffectRefused(effect)),
        "Unsupported platform! 'apply_mica' is only supported on Windows"
    );
}

#[test]
fn missing_window_stops() {
    let (state, actions) = drive(
        Platform::MacOs,
        &[SetupEvent::UpdaterRegistered { ok: true }, SetupEvent::WindowLookup { found: false }],
    );
    assert_eq!(state.stage, SetupStage::Failed);
    assert_eq!(actions[2], SetupAction::Abort(SetupFailure::MissingWindow));
    assert_eq!(failure_message(SetupFailure::MissingWindow), "the main window was not created");
}

#[test]
fn failed_registration_stops() {
    let (state, actions) = drive(Platform::Linux, &[SetupEvent::UpdaterRegistered { ok: false }]);
    assert_eq!(state.stage, SetupStage::Failed);
    assert_eq!(actions[1], SetupAction::Abort(SetupFailure::UpdaterRegistration));
    assert_eq!(
        failure_message(SetupFailure::UpdaterRegistration),
        "error while running tauri application"
    );
}

#[test]
fn events_out_of_turn_are_ignored_in_setup() {
    let (state, _) = Setup::begin(Platform::Ios);
    let (next, action) = state.step(SetupEvent::EffectApplied { ok: false });
    assert_eq!(next, state);
    assert_eq!(action, SetupAction::Wait);
}
