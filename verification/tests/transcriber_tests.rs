use murmur::languages::{is_parakeet_language, is_supported_on_tier, language_table, parakeet_languages};
use murmur::config::Tier;
use murmur::platform::{check_accessibility, prompt_accessibility, prompt_input_monitoring};
use murmur::text::{ends_with_text, is_white_space_char, same_text, trimmed};
use murmur::transcriber::{
    detect_language, fallback_backend, finish_transcript, fixed_language, is_english_model,
    resolve_backend, BackendChoice, LanguageDetection,
};

fn langs(v: &[&str]) -> Vec<String> {
    v.iter().map(|s| s.to_string()).collect()
}

#[test]
fn backend_is_whisper_with_tier_model() {
    assert_eq!(
        resolve_backend(&Tier::Fast, &langs(&["en"]), false),
        BackendChoice::Whisper("small".to_string())
    );
    assert_eq!(
        resolve_backend(&Tier::Accurate, &langs(&["fr", "de"]), false),
        BackendChoice::Whisper("large-v3".to_string())
    );
    assert_eq!(
        resolve_backend(&Tier::Standard, &langs(&["en"]), true),
        BackendChoice::Whisper("medium".to_string())
    );
    assert_eq!(
        resolve_backend(&Tier::Accurate, &langs(&["en"]), true),
        BackendChoice::Whisper("large-v3".to_string())
    );
}

#[test]
fn fast_tier_uses_fluid_audio_for_parakeet_languages() {
    assert_eq!(resolve_backend(&Tier::Fast, &langs(&["en"]), true), BackendChoice::FluidAudio);
    assert_eq!(
        resolve_backend(&Tier::Fast, &langs(&["en", "fr", "de", "uk"]), true),
        BackendChoice::FluidAudio
    );
    assert_eq!(resolve_backend(&Tier::Fast, &langs(&[]), true), BackendChoice::FluidAudio);
}

#[test]
fn fast_tier_keeps_whisper_for_other_languages() {
    assert_eq!(
        resolve_backend(&Tier::Fast, &langs(&["en", "ja"]), true),
        BackendChoice::Whisper("small".to_string())
    );
    assert_eq!(
        resolve_backend(&Tier::Fast, &langs(&["zh"]), true),
        BackendChoice::Whisper("small".to_string())
    );
    assert_eq!(
        resolve_backend(&Tier::Fast, &langs(&["en", "fr"]), false),
        BackendChoice::Whisper("small".to_string())
    );
}

#[test]
fn fluid_audio_falls_back_to_whisper_small() {
    assert_eq!(
        fallback_backend(&BackendChoice::FluidAudio),
        Some(BackendChoice::Whisper("small".to_string()))
    );
    assert_eq!(fallback_backend(&BackendChoice::Whisper("small".to_string())), None);
    assert_eq!(fallback_backend(&BackendChoice::Whisper("large-v3".to_string())), None);
}

#[test]
fn parakeet_language_list() {
    let p = parakeet_languages();
    assert_eq!(p.len(), 25);
    assert_eq!(p[0], "bg");
    assert_eq!(p[24], "uk");
    for c in ["en", "fr", "de", "es", "uk", "mt", "lt"] {
        assert!(is_parakeet_language(c));
    }
    for c in ["ja", "zh", "ko", "ar", "", "EN", "e"] {
        assert!(!is_parakeet_language(c));
    }
}

#[test]
fn fast_tier_support_with_fluid_audio() {
    assert!(is_supported_on_tier("fr", &Tier::Fast, true));
    assert!(!is_supported_on_tier("ja", &Tier::Fast, true));
    assert!(is_supported_on_tier("ja", &Tier::Fast, false));
    assert!(is_supported_on_tier("ja", &Tier::Standard, true));
    assert!(is_supported_on_tier("ja", &Tier::Accurate, true));
    for t in [Tier::Fast, Tier::Standard, Tier::Accurate] {
        assert!(is_supported_on_tier("en", &t, true));
        assert!(is_supported_on_tier("en", &t, false));
    }
}

#[test]
fn english_models() {
    assert!(is_english_model("tiny.en"));
    assert!(is_english_model("small.en"));
    assert!(!is_english_model("small"));
    assert!(!is_english_model("large-v3"));
    assert!(!is_english_model("en"));
    assert!(is_english_model(".en"));
}

#[test]
fn fixed_language_for_english_models_and_single_preference() {
    assert_eq!(fixed_language(true, &langs(&["fr", "de"])), Some("en".to_string()));
    assert_eq!(fixed_language(false, &langs(&["fr"])), Some("fr".to_string()));
    assert_eq!(fixed_language(false, &langs(&["fr", "en"])), None);
    assert_eq!(fixed_language(false, &langs(&[])), None);
}

#[test]
fn detection_picks_highest_rank_first_on_ties() {
    let d = LanguageDetection { ids: vec![Some(0), Some(2), Some(1)], ranks: vec![5, 9, 9] };
    assert_eq!(detect_language(&langs(&["en", "fr", "de"]), Some(&d)), "fr");
    let d = LanguageDetection { ids: vec![Some(0), Some(2)], ranks: vec![7, 1, 3] };
    assert_eq!(detect_language(&langs(&["en", "fr"]), Some(&d)), "en");
}

#[test]
fn detection_ignores_unknown_and_out_of_range_ids() {
    let d = LanguageDetection { ids: vec![None, Some(-1), Some(10), Some(1)], ranks: vec![100, 2] };
    assert_eq!(detect_language(&langs(&["xx", "yy", "zz", "de"]), Some(&d)), "de");
    let d = LanguageDetection { ids: vec![None, None], ranks: vec![1] };
    assert_eq!(detect_language(&langs(&["xx", "yy"]), Some(&d)), "en");
}

#[test]
fn single_preferred_language_wins_over_detection() {
    let d = LanguageDetection { ids: vec![None], ranks: vec![3] };
    assert_eq!(detect_language(&langs(&["fr"]), Some(&d)), "fr");
    assert_eq!(detect_language(&langs(&["fr"]), None), "fr");
}

#[test]
fn detection_failure_falls_back() {
    assert_eq!(detect_language(&langs(&["ja", "ko"]), None), "ja");
    assert_eq!(detect_language(&langs(&[]), None), "en");
}

#[test]
fn transcript_is_trimmed_concatenation() {
    assert_eq!(finish_transcript(&langs(&[" Hello", " world. "])), Ok("Hello world.".to_string()));
    assert_eq!(finish_transcript(&langs(&["\n\tx\u{3000}"])), Ok("x".to_string()));
}

#[test]
fn empty_transcript_is_an_error() {
    assert_eq!(finish_transcript(&langs(&[])), Err("no speech detected".to_string()));
    assert_eq!(finish_transcript(&langs(&["  ", "\n"])), Err("no speech detected".to_string()));
}

#[test]
fn text_helpers() {
    assert!(same_text("abc", "abc"));
    assert!(!same_text("abc", "abd"));
    assert!(ends_with_text("ggml-small.en", ".en"));
    assert!(!ends_with_text("en", ".en"));
    assert_eq!(trimmed("  a b  "), "a b");
    assert_eq!(trimmed(" \u{2003} "), "");
    assert_eq!(trimmed("x"), "x");
    assert!(is_white_space_char('\u{3000}'));
    assert!(!is_white_space_char('a'));
}

#[test]
fn language_table_contents() {
    let t = language_table();
    assert_eq!(t.len(), 100);
    assert_eq!(t[0].code, "en");
    assert_eq!(t[0].name, "English");
    assert_eq!(t[99].code, "yo");
    assert_eq!(t[99].name, "Yoruba");
    let mut codes: Vec<&str> = t.iter().map(|l| l.code).collect();
    codes.sort();
    codes.dedup();
    assert_eq!(codes.len(), 100);
    for l in &t {
        assert!(is_supported_on_tier(l.code, &Tier::Fast, false));
        assert!(is_supported_on_tier(l.code, &Tier::Accurate, true));
    }
}

#[test]
fn platform_grants_without_prompts() {
    assert!(check_accessibility());
    prompt_accessibility();
    prompt_input_monitoring();
}
