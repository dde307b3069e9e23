use murmur::app::{AppEvent, AppState, MenuCommand, RecordingState};
use murmur::config::Config;
use murmur::config::{HotkeyChoice, OutputMode, Tier};
use murmur::tray::{
    decimal_text, handle_menu_event, menu_layout, progress_label, split_languages, status_text,
    tier_installed, tier_item_label, tier_label, MenuIds,
};

fn ids() -> MenuIds {
    MenuIds {
        status: "1".to_string(),
        output_clipboard: "2".to_string(),
        output_paste: "3".to_string(),
        hotkey_right_alt: "4".to_string(),
        hotkey_caps_lock: "5".to_string(),
        current_model: "6".to_string(),
        tier_items: vec![
            (Tier::Fast, "7".to_string()),
            (Tier::Standard, "8".to_string()),
            (Tier::Accurate, "9".to_string()),
        ],
        language_items: vec![("fr".to_string(), "10".to_string()), ("de".to_string(), "11".to_string())],
        quit: "12".to_string(),
        website: "13".to_string(),
    }
}

#[test]
fn status_lines() {
    assert_eq!(status_text(RecordingState::Idle), "Status: Idle");
    assert_eq!(status_text(RecordingState::Recording), "Status: Recording...");
    assert_eq!(status_text(RecordingState::Transcribing), "Status: Transcribing...");
}

#[test]
fn fixed_items() {
    let ids = ids();
    assert!(matches!(handle_menu_event(&ids, "12"), Some(AppEvent::Quit)));
    assert!(matches!(
        handle_menu_event(&ids, "2"),
        Some(AppEvent::Menu(MenuCommand::SetOutputMode(OutputMode::Clipboard)))
    ));
    assert!(matches!(
        handle_menu_event(&ids, "3"),
        Some(AppEvent::Menu(MenuCommand::SetOutputMode(OutputMode::PasteAtCursor)))
    ));
    assert!(matches!(
        handle_menu_event(&ids, "4"),
        Some(AppEvent::Menu(MenuCommand::SetHotkey(HotkeyChoice::RightAlt)))
    ));
    assert!(matches!(
        handle_menu_event(&ids, "5"),
        Some(AppEvent::Menu(MenuCommand::SetHotkey(HotkeyChoice::CapsLock)))
    ));
    assert!(matches!(
        handle_menu_event(&ids, "13"),
        Some(AppEvent::Menu(MenuCommand::OpenWebsite))
    ));
}

#[test]
fn tier_and_language_items() {
    let ids = ids();
    assert!(matches!(
        handle_menu_event(&ids, "8"),
        Some(AppEvent::Menu(MenuCommand::SetTier(Tier::Standard)))
    ));
    assert!(matches!(
        handle_menu_event(&ids, "11"),
        Some(AppEvent::Menu(MenuCommand::ToggleLanguage(c))) if c == "de"
    ));
}

#[test]
fn passive_and_unknown_items_request_nothing() {
    let ids = ids();
    assert!(handle_menu_event(&ids, "1").is_none());
    assert!(handle_menu_event(&ids, "6").is_none());
    assert!(handle_menu_event(&ids, "nope").is_none());
}

#[test]
fn decimal_and_progress_labels() {
    assert_eq!(decimal_text(0), "0");
    assert_eq!(decimal_text(7), "7");
    assert_eq!(decimal_text(42), "42");
    assert_eq!(decimal_text(100), "100");
    assert_eq!(decimal_text(255), "255");
    assert_eq!(progress_label("small", 37), "Downloading: small (37%)");
    assert_eq!(progress_label("Fast", 0), "Downloading: Fast (0%)");
}

#[test]
fn language_menu_split() {
    let preferred = vec!["fr".to_string(), "en".to_string(), "xx".to_string()];
    let (top, rest) = split_languages(&preferred);
    let top_codes: Vec<&str> = top.iter().map(|l| l.code).collect();
    assert_eq!(top_codes, vec!["en", "fr"]);
    assert_eq!(rest.len(), 98);
    assert!(rest.iter().all(|l| l.code != "en" && l.code != "fr"));
    assert_eq!(rest[0].code, "zh");
    let (top, rest) = split_languages(&[]);
    assert!(top.is_empty());
    assert_eq!(rest.len(), 100);
}

#[test]
fn menu_layout_of_a_fresh_state() {
    let s = AppState::new(Config::default());
    let l = menu_layout(&s, "0.3.1", &[Tier::Fast, Tier::Accurate]);
    assert_eq!(l.status, "Status: Idle");
    assert!(l.clipboard_checked && l.right_alt_checked);
    assert_eq!(l.current, "Loading model...");
    let tiers: Vec<(Tier, &str, bool)> = l.tiers.iter().map(|(t, s, c)| (*t, s.as_str(), *c)).collect();
    assert_eq!(
        tiers,
        vec![
            (Tier::Fast, "Fast (465 MB)", true),
            (Tier::Standard, "\u{2b07} Standard (1.4 GB)", false),
            (Tier::Accurate, "Accurate (2.9 GB)", false),
        ]
    );
    assert_eq!(l.preferred.len(), 1);
    assert_eq!(l.preferred[0].0.code, "en");
    assert!(!l.preferred[0].1);
    assert_eq!(l.others.len(), 99);
    assert!(l.mic_warning && l.accessibility_warning);
    assert!(l.progress.is_none());
    assert_eq!(l.about, "Murmur v0.3.1");
}

#[test]
fn menu_layout_of_a_busy_state() {
    let mut s = AppState::new(Config::default());
    s.transcriber_ready = true;
    s.recording_state = RecordingState::Recording;
    s.config.output_mode = OutputMode::PasteAtCursor;
    s.config.hotkey = HotkeyChoice::CapsLock;
    s.config.selected_tier = Tier::Accurate;
    s.config.languages = vec!["de".to_string(), "en".to_string()];
    s.permissions.microphone = true;
    s.permissions.accessibility = true;
    s.download_progress = Some(("large-v3".to_string(), 12));
    let l = menu_layout(&s, "1.0.0", &[]);
    assert_eq!(l.status, "Status: Recording...");
    assert!(!l.clipboard_checked && !l.right_alt_checked);
    assert_eq!(l.current, "Tier: Accurate");
    assert!(l.tiers[2].2 && !l.tiers[0].2);
    let pref: Vec<(&str, bool)> = l.preferred.iter().map(|(g, e)| (g.code, *e)).collect();
    assert_eq!(pref, vec![("en", false), ("de", true)]);
    assert!(!l.mic_warning && !l.accessibility_warning);
    assert_eq!(l.progress, Some("Downloading: large-v3 (12%)".to_string()));
    assert_eq!(tier_label(Tier::Standard), "Standard (1.4 GB)");
    assert_eq!(l.tiers[0].1, "\u{2b07} Fast (465 MB)");
    assert_eq!(l.about, "Murmur v1.0.0");
}

#[test]
fn download_marker_on_missing_models() {
    assert_eq!(tier_item_label(Tier::Fast, true), "Fast (465 MB)");
    assert_eq!(tier_item_label(Tier::Fast, false), "\u{2b07} Fast (465 MB)");
    assert!(tier_installed(&[Tier::Standard, Tier::Fast], Tier::Fast));
    assert!(!tier_installed(&[Tier::Standard], Tier::Accurate));
    assert!(!tier_installed(&[], Tier::Standard));
}
