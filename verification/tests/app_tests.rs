use murmur::app::{
    all_permissions_granted, check_permissions, handle_event, handle_feedback,
    handle_menu_command, needs_periodic_wakeup, permission_poll_due, Action, AppEvent, AppState, Feedback, MenuCommand,
    ModelCheck, PermissionPrompt, Permissions, RecordingState, BOOTSTRAP_MODEL, WEBSITE_URL,
};
use murmur::config::{Config, HotkeyChoice, OutputMode, Tier};
use murmur::transcriber::BackendChoice;

fn ready_state() -> AppState {
    let mut s = AppState::new(Config::default());
    s.transcriber_ready = true;
    s.permissions.microphone = true;
    s.permissions.accessibility = true;
    s
}

#[test]
fn new_state_is_idle() {
    let s = AppState::new(Config::default());
    assert_eq!(s.recording_state, RecordingState::Idle);
    assert!(s.download_progress.is_none());
    assert_eq!(s.permissions, Permissions::default());
    assert!(!s.transcriber_ready && !s.upgrading_backend && !s.pending_restart);
    assert_eq!(BOOTSTRAP_MODEL, "tiny.en");
    assert_eq!(s.loaded_model, "tiny.en");
    assert!(s.pending_model.is_none());
    assert!(!s.fluid_audio_available);
}

#[test]
fn press_starts_capture_when_ready() {
    let mut s = ready_state();
    let acts = handle_event(&mut s, AppEvent::HotkeyPressed);
    assert!(matches!(acts.as_slice(), [Action::StartCapture]));
    assert_eq!(s.recording_state, RecordingState::Idle);
}

#[test]
fn press_ignored_while_busy_or_loading() {
    let mut s = ready_state();
    s.recording_state = RecordingState::Transcribing;
    assert!(handle_event(&mut s, AppEvent::HotkeyPressed).is_empty());
    let mut s = ready_state();
    s.transcriber_ready = false;
    assert!(handle_event(&mut s, AppEvent::HotkeyPressed).is_empty());
}

#[test]
fn press_without_microphone_beeps() {
    let mut s = ready_state();
    s.permissions.microphone = false;
    let acts = handle_event(&mut s, AppEvent::HotkeyPressed);
    assert!(matches!(acts.as_slice(), [Action::PlayStopSound]));
}

#[test]
fn capture_failure_beeps_and_stays_idle() {
    let mut s = ready_state();
    let acts = handle_feedback(&mut s, Feedback::CaptureStarted(false));
    assert!(matches!(acts.as_slice(), [Action::PlayStopSound]));
    assert_eq!(s.recording_state, RecordingState::Idle);
}

#[test]
fn full_dictation_cycle_with_paste() {
    let mut s = ready_state();
    s.config.output_mode = OutputMode::PasteAtCursor;
    s.config.languages = vec!["en".to_string(), "fr".to_string()];
    handle_event(&mut s, AppEvent::HotkeyPressed);
    let acts = handle_feedback(&mut s, Feedback::CaptureStarted(true));
    assert!(matches!(acts.as_slice(), [Action::PlayStartSound, Action::RebuildTray]));
    assert_eq!(s.recording_state, RecordingState::Recording);
    let acts = handle_event(&mut s, AppEvent::HotkeyReleased);
    assert_eq!(s.recording_state, RecordingState::Transcribing);
    match acts.as_slice() {
        [Action::PlayStopSound, Action::StopCapture, Action::RebuildTray, Action::Transcribe(l)] => {
            assert_eq!(l, &vec!["en".to_string(), "fr".to_string()])
        }
        other => panic!("unexpected {:?}", other),
    }
    let acts = handle_event(&mut s, AppEvent::TranscriptionComplete("hello".to_string()));
    match acts.as_slice() {
        [Action::CopyToClipboard(t)] => assert_eq!(t, "hello"),
        other => panic!("unexpected {:?}", other),
    }
    let acts = handle_feedback(&mut s, Feedback::ClipboardWritten(true));
    assert!(matches!(acts.as_slice(), [Action::PasteAtCursor, Action::RebuildTray]));
    assert_eq!(s.recording_state, RecordingState::Idle);
}

#[test]
fn clipboard_mode_does_not_paste() {
    let mut s = ready_state();
    s.recording_state = RecordingState::Transcribing;
    let acts = handle_feedback(&mut s, Feedback::ClipboardWritten(true));
    assert!(matches!(acts.as_slice(), [Action::RebuildTray]));
    assert_eq!(s.recording_state, RecordingState::Idle);
}

#[test]
fn paste_skipped_without_accessibility_or_on_clipboard_error() {
    let mut s = ready_state();
    s.config.output_mode = OutputMode::PasteAtCursor;
    s.permissions.accessibility = false;
    let acts = handle_feedback(&mut s, Feedback::ClipboardWritten(true));
    assert!(matches!(acts.as_slice(), [Action::RebuildTray]));
    let mut s = ready_state();
    s.config.output_mode = OutputMode::PasteAtCursor;
    let acts = handle_feedback(&mut s, Feedback::ClipboardWritten(false));
    assert!(matches!(acts.as_slice(), [Action::RebuildTray]));
}

#[test]
fn release_without_recording_does_nothing() {
    let mut s = ready_state();
    assert!(handle_event(&mut s, AppEvent::HotkeyReleased).is_empty());
    assert_eq!(s.recording_state, RecordingState::Idle);
}

#[test]
fn transcription_error_returns_to_idle() {
    let mut s = ready_state();
    s.recording_state = RecordingState::Transcribing;
    let acts = handle_event(&mut s, AppEvent::TranscriptionError("no speech detected".to_string()));
    assert!(matches!(acts.as_slice(), [Action::ResetTrayIcon, Action::RebuildTray]));
    assert_eq!(s.recording_state, RecordingState::Idle);
}

#[test]
fn ready_transcriber_checks_for_tier_model() {
    let mut s = AppState::new(Config::default());
    let acts = handle_event(&mut s, AppEvent::TranscriberReady);
    assert!(s.transcriber_ready);
    match acts.as_slice() {
        [Action::RebuildTray, Action::CheckModel(ModelCheck::Upgrade, m)] => assert_eq!(m, "small"),
        other => panic!("unexpected {:?}", other),
    }
    s.upgrading_backend = true;
    let acts = handle_event(&mut s, AppEvent::TranscriberReady);
    assert!(matches!(acts.as_slice(), [Action::RebuildTray]));
}

#[test]
fn upgrade_model_present_or_missing() {
    let mut s = AppState::new(Config::default());
    let acts = handle_feedback(&mut s, Feedback::ModelPresent(ModelCheck::Upgrade, true));
    assert!(matches!(acts.as_slice(), [Action::SendEvent(AppEvent::BackendUpgradeReady)]));
    assert!(!s.upgrading_backend);
    s.config.selected_tier = Tier::Accurate;
    let acts = handle_feedback(&mut s, Feedback::ModelPresent(ModelCheck::Upgrade, false));
    match acts.as_slice() {
        [Action::SpawnUpgrade(m)] => assert_eq!(m, "large-v3"),
        other => panic!("unexpected {:?}", other),
    }
    assert!(s.upgrading_backend);
}

#[test]
fn backend_upgrade_loads_beside_running_transcriber() {
    let mut s = ready_state();
    s.config.selected_tier = Tier::Standard;
    s.upgrading_backend = true;
    s.download_progress = Some(("medium".to_string(), 40));
    let acts = handle_event(&mut s, AppEvent::BackendUpgradeReady);
    assert!(s.transcriber_ready && !s.upgrading_backend && s.download_progress.is_none());
    assert_eq!(s.loaded_model, "tiny.en");
    assert_eq!(s.pending_model, Some("medium".to_string()));
    match acts.as_slice() {
        [Action::RebuildTray, Action::StartTranscriber(BackendChoice::Whisper(m))] => {
            assert_eq!(m, "medium")
        }
        other => panic!("unexpected {:?}", other),
    }
    // presses are still served by the bootstrap transcriber
    let acts = handle_event(&mut s, AppEvent::HotkeyPressed);
    assert!(matches!(acts.as_slice(), [Action::StartCapture]));
}

#[test]
fn fast_upgrade_starts_fluid_audio_when_available() {
    let mut s = ready_state();
    s.fluid_audio_available = true;
    s.config.selected_tier = Tier::Fast;
    s.config.languages = vec!["en".to_string(), "fr".to_string()];
    s.upgrading_backend = true;
    let acts = handle_event(&mut s, AppEvent::BackendUpgradeReady);
    assert_eq!(s.pending_model, Some("small".to_string()));
    match acts.as_slice() {
        [Action::RebuildTray, Action::StartTranscriber(BackendChoice::FluidAudio)] => {}
        other => panic!("unexpected {:?}", other),
    }
    let mut s = ready_state();
    s.fluid_audio_available = true;
    s.config.selected_tier = Tier::Fast;
    s.config.languages = vec!["en".to_string(), "ja".to_string()];
    let acts = handle_event(&mut s, AppEvent::BackendUpgradeReady);
    match acts.as_slice() {
        [Action::RebuildTray, Action::StartTranscriber(BackendChoice::Whisper(m))] => {
            assert_eq!(m, "small")
        }
        other => panic!("unexpected {:?}", other),
    }
}

#[test]
fn upgraded_transcriber_takes_over_once() {
    let mut s = AppState::new(Config::default());
    handle_event(&mut s, AppEvent::TranscriberReady);
    let acts = handle_feedback(&mut s, Feedback::ModelPresent(ModelCheck::Upgrade, true));
    assert!(matches!(acts.as_slice(), [Action::SendEvent(AppEvent::BackendUpgradeReady)]));
    handle_event(&mut s, AppEvent::BackendUpgradeReady);
    let acts = handle_event(&mut s, AppEvent::TranscriberReady);
    assert!(matches!(acts.as_slice(), [Action::SwapTranscriber, Action::RebuildTray]));
    assert_eq!(s.loaded_model, "small");
    assert!(s.pending_model.is_none());
    assert!(s.transcriber_ready);
    let acts = handle_event(&mut s, AppEvent::TranscriberReady);
    assert!(matches!(acts.as_slice(), [Action::RebuildTray]));
}

#[test]
fn download_progress_first_then_updates() {
    let mut s = AppState::new(Config::default());
    let acts = handle_event(&mut s, AppEvent::ModelDownloadProgress("small".to_string(), 0));
    assert!(matches!(acts.as_slice(), [Action::RebuildTray]));
    let acts = handle_event(&mut s, AppEvent::ModelDownloadProgress("small".to_string(), 37));
    match acts.as_slice() {
        [Action::UpdateTrayProgress(37, name)] => assert_eq!(name, "Fast"),
        other => panic!("unexpected {:?}", other),
    }
    assert_eq!(s.download_progress, Some(("small".to_string(), 37)));
}

#[test]
fn download_complete_restarts_when_pending() {
    let mut s = AppState::new(Config::default());
    s.download_progress = Some(("small".to_string(), 99));
    let acts = handle_event(&mut s, AppEvent::ModelDownloadComplete("small".to_string()));
    assert!(matches!(acts.as_slice(), [Action::RebuildTray]));
    assert!(s.download_progress.is_none());
    s.pending_restart = true;
    let acts = handle_event(&mut s, AppEvent::ModelDownloadComplete("small".to_string()));
    assert!(matches!(acts.as_slice(), [Action::SelfRestart]));
}

#[test]
fn quit_exits() {
    let mut s = ready_state();
    assert!(matches!(handle_event(&mut s, AppEvent::Quit).as_slice(), [Action::Exit]));
}

#[test]
fn menu_output_and_hotkey() {
    let mut s = ready_state();
    let acts = handle_event(
        &mut s,
        AppEvent::Menu(MenuCommand::SetOutputMode(OutputMode::PasteAtCursor)),
    );
    assert!(matches!(acts.as_slice(), [Action::SaveConfig, Action::RebuildTray]));
    assert_eq!(s.config.output_mode, OutputMode::PasteAtCursor);
    let acts = handle_menu_command(&mut s, MenuCommand::SetHotkey(HotkeyChoice::CapsLock));
    assert!(matches!(acts.as_slice(), [Action::SaveConfig, Action::SelfRestart]));
    assert_eq!(s.config.hotkey, HotkeyChoice::CapsLock);
}

#[test]
fn menu_tier_change_checks_model() {
    let mut s = ready_state();
    let acts = handle_menu_command(&mut s, MenuCommand::SetTier(Tier::Standard));
    assert_eq!(s.config.selected_tier, Tier::Standard);
    match acts.as_slice() {
        [Action::SaveConfig, Action::CheckModel(ModelCheck::TierChange, m)] => assert_eq!(m, "medium"),
        other => panic!("unexpected {:?}", other),
    }
    let acts = handle_feedback(&mut s, Feedback::ModelPresent(ModelCheck::TierChange, true));
    assert!(matches!(acts.as_slice(), [Action::SelfRestart]));
    let acts = handle_feedback(&mut s, Feedback::ModelPresent(ModelCheck::TierChange, false));
    match acts.as_slice() {
        [Action::RebuildTray, Action::SpawnDownload(m)] => assert_eq!(m, "medium"),
        other => panic!("unexpected {:?}", other),
    }
    assert!(s.pending_restart);
    assert_eq!(s.download_progress, Some(("medium".to_string(), 0)));
}

#[test]
fn menu_tier_change_ignored_during_download() {
    let mut s = ready_state();
    s.download_progress = Some(("small".to_string(), 10));
    let acts = handle_menu_command(&mut s, MenuCommand::SetTier(Tier::Accurate));
    assert!(acts.is_empty());
    assert_eq!(s.config.selected_tier, Tier::Fast);
}

#[test]
fn menu_toggle_language() {
    let mut s = ready_state();
    let acts = handle_menu_command(&mut s, MenuCommand::ToggleLanguage("es".to_string()));
    assert!(matches!(acts.as_slice(), [Action::SaveConfig, Action::RebuildTray]));
    assert_eq!(s.config.languages, vec!["en".to_string(), "es".to_string()]);
    let acts = handle_menu_command(&mut s, MenuCommand::ToggleLanguage("en".to_string()));
    assert!(acts.is_empty());
    assert_eq!(s.config.languages, vec!["en".to_string(), "es".to_string()]);
}

#[test]
fn menu_open_website() {
    let mut s = ready_state();
    let acts = handle_menu_command(&mut s, MenuCommand::OpenWebsite);
    match acts.as_slice() {
        [Action::OpenUrl(u)] => assert_eq!(u, "https://anubhavitis.github.io/murmur/"),
        other => panic!("unexpected {:?}", other),
    }
    assert_eq!(WEBSITE_URL, "https://anubhavitis.github.io/murmur/");
    assert!(s.transcriber_ready && s.recording_state == RecordingState::Idle);
    assert_eq!(s.config.selected_tier, Tier::Fast);
}

#[test]
fn permissions_prompt_microphone_first_then_accessibility_once() {
    let mut s = AppState::new(Config::default());
    let (changed, prompt) = check_permissions(&mut s, false, false);
    assert!(!changed);
    assert_eq!(prompt, Some(PermissionPrompt::Microphone));
    let (changed, prompt) = check_permissions(&mut s, false, false);
    assert!(!changed);
    assert_eq!(prompt, None);
    let (changed, prompt) = check_permissions(&mut s, true, false);
    assert!(changed);
    assert_eq!(prompt, Some(PermissionPrompt::Accessibility));
    let (_, prompt) = check_permissions(&mut s, true, false);
    assert_eq!(prompt, None);
    assert!(!all_permissions_granted(&s));
    let (changed, prompt) = check_permissions(&mut s, true, true);
    assert!(changed);
    assert_eq!(prompt, None);
    assert!(all_permissions_granted(&s));
}

#[test]
fn periodic_wakeup_when_busy_or_missing_permission() {
    let mut s = ready_state();
    assert!(!needs_periodic_wakeup(&s));
    s.recording_state = RecordingState::Recording;
    assert!(needs_periodic_wakeup(&s));
    s.recording_state = RecordingState::Idle;
    s.permissions.accessibility = false;
    assert!(needs_periodic_wakeup(&s));
}

#[test]
fn tier_change_ignored_while_its_download_runs() {
    let mut s = ready_state();
    handle_menu_command(&mut s, MenuCommand::SetTier(Tier::Accurate));
    handle_feedback(&mut s, Feedback::ModelPresent(ModelCheck::TierChange, false));
    let acts = handle_menu_command(&mut s, MenuCommand::SetTier(Tier::Standard));
    assert!(acts.is_empty());
    assert_eq!(s.config.selected_tier, Tier::Accurate);
}

#[test]
fn background_upgrade_started_once() {
    let mut s = AppState::new(Config::default());
    handle_event(&mut s, AppEvent::TranscriberReady);
    handle_feedback(&mut s, Feedback::ModelPresent(ModelCheck::Upgrade, false));
    let acts = handle_event(&mut s, AppEvent::TranscriberReady);
    assert!(matches!(acts.as_slice(), [Action::RebuildTray]));
    assert!(s.upgrading_backend);
}

#[test]
fn permission_poll_every_two_seconds_while_missing() {
    let mut s = ready_state();
    assert!(!permission_poll_due(&s, 5_000));
    s.permissions.microphone = false;
    assert!(!permission_poll_due(&s, 1_999));
    assert!(permission_poll_due(&s, 2_000));
}
