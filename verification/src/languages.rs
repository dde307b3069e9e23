//! The languages offered in the preferred-language menu.

use vstd::prelude::*;

use crate::config::Tier;
use crate::text::same_text;

verus! {

/// A language whisper can transcribe: its code and its English name.
#[derive(Clone, Copy, Debug)]
pub struct Language {
    pub code: &'static str,
    pub name: &'static str,
}

/// The offered languages: the twenty-one most common first, then the rest
/// in alphabetical order of name.
pub open spec fn spec_language_table() -> Seq<Language> {
    seq![
        Language { code: "en", name: "English" },
        Language { code: "zh", name: "Chinese" },
        Language { code: "de", name: "German" },
        Language { code: "es", name: "Spanish" },
        Language { code: "ru", name: "Russian" },
        Language { code: "ko", name: "Korean" },
        Language { code: "fr", name: "French" },
        Language { code: "ja", name: "Japanese" },
        Language { code: "pt", name: "Portuguese" },
        Language { code: "tr", name: "Turkish" },
        Language { code: "pl", name: "Polish" },
        Language { code: "nl", name: "Dutch" },
        Language { code: "ar", name: "Arabic" },
        Language { code: "sv", name: "Swedish" },
        Language { code: "it", name: "Italian" },
        Language { code: "id", name: "Indonesian" },
        Language { code: "hi", name: "Hindi" },
        Language { code: "vi", name: "Vietnamese" },
        Language { code: "uk", name: "Ukrainian" },
        Language { code: "th", name: "Thai" },
        Language { code: "ur", name: "Urdu" },
        Language { code: "af", name: "Afrikaans" },
        Language { code: "sq", name: "Albanian" },
        Language { code: "am", name: "Amharic" },
        Language { code: "hy", name: "Armenian" },
        Language { code: "as", name: "Assamese" },
        Language { code: "az", name: "Azerbaijani" },
        Language { code: "ba", name: "Bashkir" },
        Language { code: "eu", name: "Basque" },
        Language { code: "be", name: "Belarusian" },
        Language { code: "bn", name: "Bengali" },
        Language { code: "bs", name: "Bosnian" },
        Language { code: "br", name: "Breton" },
        Language { code: "bg", name: "Bulgarian" },
        Language { code: "yue", name: "Cantonese" },
        Language { code: "ca", name: "Catalan" },
        Language { code: "hr", name: "Croatian" },
        Language { code: "cs", name: "Czech" },
        Language { code: "da", name: "Danish" },
        Language { code: "et", name: "Estonian" },
        Language { code: "fo", name: "Faroese" },
        Language { code: "fi", name: "Finnish" },
        Language { code: "gl", name: "Galician" },
        Language { code: "ka", name: "Georgian" },
        Language { code: "el", name: "Greek" },
        Language { code: "gu", name: "Gujarati" },
        Language { code: "ht", name: "Haitian Creole" },
        Language { code: "ha", name: "Hausa" },
        Language { code: "haw", name: "Hawaiian" },
        Language { code: "he", name: "Hebrew" },
        Language { code: "hu", name: "Hungarian" },
        Language { code: "is", name: "Icelandic" },
        Language { code: "jw", name: "Javanese" },
        Language { code: "kn", name: "Kannada" },
        Language { code: "kk", name: "Kazakh" },
        Language { code: "km", name: "Khmer" },
        Language { code: "lo", name: "Lao" },
        Language { code: "la", name: "Latin" },
        Language { code: "lv", name: "Latvian" },
        Language { code: "ln", name: "Lingala" },
        Language { code: "lt", name: "Lithuanian" },
        Language { code: "lb", name: "Luxembourgish" },
        Language { code: "mk", name: "Macedonian" },
        Language { code: "mg", name: "Malagasy" },
        Language { code: "ms", name: "Malay" },
        Language { code: "ml", name: "Malayalam" },
        Language { code: "mt", name: "Maltese" },
        Language { code: "mi", name: "Maori" },
        Language { code: "mr", name: "Marathi" },
        Language { code: "mn", name: "Mongolian" },
        Language { code: "my", name: "Myanmar" },
        Language { code: "ne", name: "Nepali" },
        Language { code: "no", name: "Norwegian" },
        Language { code: "nn", name: "Nynorsk" },
        Language { code: "oc", name: "Occitan" },
        Language { code: "ps", name: "Pashto" },
        Language { code: "fa", name: "Persian" },
        Language { code: "pa", name: "Punjabi" },
        Language { code: "ro", name: "Romanian" },
        Language { code: "sa", name: "Sanskrit" },
        Language { code: "sr", name: "Serbian" },
        Language { code: "sn", name: "Shona" },
        Language { code: "sd", name: "Sindhi" },
        Language { code: "si", name: "Sinhala" },
        Language { code: "sk", name: "Slovak" },
        Language { code: "sl", name: "Slovenian" },
        Language { code: "so", name: "Somali" },
        Language { code: "su", name: "Sundanese" },
        Language { code: "sw", name: "Swahili" },
        Language { code: "tl", name: "Tagalog" },
        Language { code: "tg", name: "Tajik" },
        Language { code: "ta", name: "Tamil" },
        Language { code: "tt", name: "Tatar" },
        Language { code: "te", name: "Telugu" },
        Language { code: "bo", name: "Tibetan" },
        Language { code: "tk", name: "Turkmen" },
        Language { code: "uz", name: "Uzbek" },
        Language { code: "cy", name: "Welsh" },
        Language { code: "yi", name: "Yiddish" },
        Language { code: "yo", name: "Yoruba" },
    ]
}

/// The offered languages, as [`spec_language_table`] lists them.
pub fn language_table() -> (r: Vec<Language>)
    ensures
        r@ == spec_language_table(),
{
    let r = vec![
        Language { code: "en", name: "English" },
        Language { code: "zh", name: "Chinese" },
        Language { code: "de", name: "German" },
        Language { code: "es", name: "Spanish" },
        Language { code: "ru", name: "Russian" },
        Language { code: "ko", name: "Korean" },
        Language { code: "fr", name: "French" },
        Language { code: "ja", name: "Japanese" },
        Language { code: "pt", name: "Portuguese" },
        Language { code: "tr", name: "Turkish" },
        Language { code: "pl", name: "Polish" },
        Language { code: "nl", name: "Dutch" },
        Language { code: "ar", name: "Arabic" },
        Language { code: "sv", name: "Swedish" },
        Language { code: "it", name: "Italian" },
        Language { code: "id", name: "Indonesian" },
        Language { code: "hi", name: "Hindi" },
        Language { code: "vi", name: "Vietnamese" },
        Language { code: "uk", name: "Ukrainian" },
        Language { code: "th", name: "Thai" },
        Language { code: "ur", name: "Urdu" },
        Language { code: "af", name: "Afrikaans" },
        Language { code: "sq", name: "Albanian" },
        Language { code: "am", name: "Amharic" },
        Language { code: "hy", name: "Armenian" },
        Language { code: "as", name: "Assamese" },
        Language { code: "az", name: "Azerbaijani" },
        Language { code: "ba", name: "Bashkir" },
        Language { code: "eu", name: "Basque" },
        Language { code: "be", name: "Belarusian" },
        Language { code: "bn", name: "Bengali" },
        Language { code: "bs", name: "Bosnian" },
        Language { code: "br", name: "Breton" },
        Language { code: "bg", name: "Bulgarian" },
        Language { code: "yue", name: "Cantonese" },
        Language { code: "ca", name: "Catalan" },
        Language { code: "hr", name: "Croatian" },
        Language { code: "cs", name: "Czech" },
        Language { code: "da", name: "Danish" },
        Language { code: "et", name: "Estonian" },
        Language { code: "fo", name: "Faroese" },
        Language { code: "fi", name: "Finnish" },
        Language { code: "gl", name: "Galician" },
        Language { code: "ka", name: "Georgian" },
        Language { code: "el", name: "Greek" },
        Language { code: "gu", name: "Gujarati" },
        Language { code: "ht", name: "Haitian Creole" },
        Language { code: "ha", name: "Hausa" },
        Language { code: "haw", name: "Hawaiian" },
        Language { code: "he", name: "Hebrew" },
        Language { code: "hu", name: "Hungarian" },
        Language { code: "is", name: "Icelandic" },
        Language { code: "jw", name: "Javanese" },
        Language { code: "kn", name: "Kannada" },
        Language { code: "kk", name: "Kazakh" },
        Language { code: "km", name: "Khmer" },
        Language { code: "lo", name: "Lao" },
        Language { code: "la", name: "Latin" },
        Language { code: "lv", name: "Latvian" },
        Language { code: "ln", name: "Lingala" },
        Language { code: "lt", name: "Lithuanian" },
        Language { code: "lb", name: "Luxembourgish" },
        Language { code: "mk", name: "Macedonian" },
        Language { code: "mg", name: "Malagasy" },
        Language { code: "ms", name: "Malay" },
        Language { code: "ml", name: "Malayalam" },
        Language { code: "mt", name: "Maltese" },
        Language { code: "mi", name: "Maori" },
        Language { code: "mr", name: "Marathi" },
        Language { code: "mn", name: "Mongolian" },
        Language { code: "my", name: "Myanmar" },
        Language { code: "ne", name: "Nepali" },
        Language { code: "no", name: "Norwegian" },
        Language { code: "nn", name: "Nynorsk" },
        Language { code: "oc", name: "Occitan" },
        Language { code: "ps", name: "Pashto" },
        Language { code: "fa", name: "Persian" },
        Language { code: "pa", name: "Punjabi" },
        Language { code: "ro", name: "Romanian" },
        Language { code: "sa", name: "Sanskrit" },
        Language { code: "sr", name: "Serbian" },
        Language { code: "sn", name: "Shona" },
        Language { code: "sd", name: "Sindhi" },
        Language { code: "si", name: "Sinhala" },
        Language { code: "sk", name: "Slovak" },
        Language { code: "sl", name: "Slovenian" },
        Language { code: "so", name: "Somali" },
        Language { code: "su", name: "Sundanese" },
        Language { code: "sw", name: "Swahili" },
        Language { code: "tl", name: "Tagalog" },
        Language { code: "tg", name: "Tajik" },
        Language { code: "ta", name: "Tamil" },
        Language { code: "tt", name: "Tatar" },
        Language { code: "te", name: "Telugu" },
        Language { code: "bo", name: "Tibetan" },
        Language { code: "tk", name: "Turkmen" },
        Language { code: "uz", name: "Uzbek" },
        Language { code: "cy", name: "Welsh" },
        Language { code: "yi", name: "Yiddish" },
        Language { code: "yo", name: "Yoruba" },
    ];
    assert(r@ =~= spec_language_table());
    r
}

/// The languages FluidAudio's Parakeet model transcribes.
pub open spec fn spec_parakeet_languages() -> Seq<Seq<char>> {
    seq!["bg"@, "hr"@, "cs"@, "da"@, "nl"@, "en"@, "et"@, "fi"@, "fr"@, "de"@, "el"@, "hu"@, "it"@, "lv"@, "lt"@, "mt"@, "pl"@, "pt"@, "ro"@, "ru"@, "sk"@, "sl"@, "es"@, "sv"@, "uk"@]
}

/// The languages FluidAudio's Parakeet model transcribes.
pub fn parakeet_languages() -> (r: Vec<&'static str>)
    ensures
        r@.map_values(|c: &'static str| c@) == spec_parakeet_languages(),
{
    let r = vec!["bg", "hr", "cs", "da", "nl", "en", "et", "fi", "fr", "de", "el", "hu", "it", "lv", "lt", "mt", "pl", "pt", "ro", "ru", "sk", "sl", "es", "sv", "uk"];
    assert(r@.map_values(|c: &'static str| c@) =~= spec_parakeet_languages());
    r
}

/// Whether FluidAudio's Parakeet model transcribes the language `code`.
pub fn is_parakeet_language(code: &str) -> (r: bool)
    ensures
        r == spec_parakeet_languages().contains(code@),
{
    let list = parakeet_languages();
    let ghost views = list@.map_values(|c: &'static str| c@);
    let mut i: usize = 0;
    while i < list.len()
        invariant
            views == list@.map_values(|c: &'static str| c@),
            views == spec_parakeet_languages(),
            i <= list@.len(),
            forall|j: int| 0 <= j < i ==> views[j] != code@,
        decreases list@.len() - i,
    {
        if same_text(list[i], code) {
            assert(views[i as int] == code@);
            return true;
        }
        i = i + 1;
    }
    false
}

/// Whether a language can be transcribed on a tier. When FluidAudio is
/// available (a FluidAudio build on Apple Silicon), the Fast tier runs
/// Parakeet and so only its languages; every other tier, and the Fast tier
/// without FluidAudio, runs whisper, which transcribes every language.
pub open spec fn spec_is_supported_on_tier(code: Seq<char>, tier: Tier, fluid_audio_available: bool) -> bool {
    if tier == Tier::Fast && fluid_audio_available {
        spec_parakeet_languages().contains(code)
    } else {
        true
    }
}

/// Whether a language can be transcribed on a tier, as
/// [`spec_is_supported_on_tier`] describes.
pub fn is_supported_on_tier(code: &str, tier: &Tier, fluid_audio_available: bool) -> (r: bool)
    ensures
        r == spec_is_supported_on_tier(code@, *tier, fluid_audio_available),
{
    match tier {
        Tier::Fast => {
            if fluid_audio_available {
                is_parakeet_language(code)
            } else {
                true
            }
        },
        Tier::Standard | Tier::Accurate => true,
    }
}

/// With FluidAudio available, the Fast tier transcribes exactly Bulgarian,
/// Croatian, Czech, Danish, Dutch, English, Estonian, Finnish, French,
/// German, Greek, Hungarian, Italian, Latvian, Lithuanian, Maltese, Polish,
/// Portuguese, Romanian, Russian, Slovak, Slovenian, Spanish, Swedish and
/// Ukrainian, and no other language; every other tier, and the Fast tier
/// without FluidAudio, transcribes every language.
pub proof fn lemma_supported_languages_by_tier()
    ensures
        forall|code: Seq<char>|
            #[trigger] spec_is_supported_on_tier(code, Tier::Fast, true) <==> set!["bg"@, "hr"@, "cs"@, "da"@, "nl"@, "en"@, "et"@, "fi"@, "fr"@, "de"@, "el"@, "hu"@, "it"@, "lv"@, "lt"@, "mt"@, "pl"@, "pt"@, "ro"@, "ru"@, "sk"@, "sl"@, "es"@, "sv"@, "uk"@].contains(code),
        forall|code: Seq<char>, t: Tier, available: bool|
            (t != Tier::Fast || !available) ==> #[trigger] spec_is_supported_on_tier(code, t, available),
{
    let s = spec_parakeet_languages();
    assert forall|code: Seq<char>|
        #[trigger] spec_is_supported_on_tier(code, Tier::Fast, true) <==> set!["bg"@, "hr"@, "cs"@, "da"@, "nl"@, "en"@, "et"@, "fi"@, "fr"@, "de"@, "el"@, "hu"@, "it"@, "lv"@, "lt"@, "mt"@, "pl"@, "pt"@, "ro"@, "ru"@, "sk"@, "sl"@, "es"@, "sv"@, "uk"@].contains(code) by {
        assert(s[0] == "bg"@);
        assert(s[1] == "hr"@);
        assert(s[2] == "cs"@);
        assert(s[3] == "da"@);
        assert(s[4] == "nl"@);
        assert(s[5] == "en"@);
        assert(s[6] == "et"@);
        assert(s[7] == "fi"@);
        assert(s[8] == "fr"@);
        assert(s[9] == "de"@);
        assert(s[10] == "el"@);
        assert(s[11] == "hu"@);
        assert(s[12] == "it"@);
        assert(s[13] == "lv"@);
        assert(s[14] == "lt"@);
        assert(s[15] == "mt"@);
        assert(s[16] == "pl"@);
        assert(s[17] == "pt"@);
        assert(s[18] == "ro"@);
        assert(s[19] == "ru"@);
        assert(s[20] == "sk"@);
        assert(s[21] == "sl"@);
        assert(s[22] == "es"@);
        assert(s[23] == "sv"@);
        assert(s[24] == "uk"@);
        if s.contains(code) {
            let i = choose|i: int| 0 <= i < s.len() && s[i] == code;
            if i == 0 {
            } else if i == 1 {
            } else if i == 2 {
            } else if i == 3 {
            } else if i == 4 {
            } else if i == 5 {
            } else if i == 6 {
            } else if i == 7 {
            } else if i == 8 {
            } else if i == 9 {
            } else if i == 10 {
            } else if i == 11 {
            } else if i == 12 {
            } else if i == 13 {
            } else if i == 14 {
            } else if i == 15 {
            } else if i == 16 {
            } else if i == 17 {
            } else if i == 18 {
            } else if i == 19 {
            } else if i == 20 {
            } else if i == 21 {
            } else if i == 22 {
            } else if i == 23 {
            } else if i == 24 {
            }
        }
    }
}

/// English is transcribed on every tier, with or without FluidAudio.
pub proof fn lemma_english_always_supported(tier: Tier, fluid_audio_available: bool)
    ensures
        spec_is_supported_on_tier("en"@, tier, fluid_audio_available),
{
    assert(spec_parakeet_languages()[5] == "en"@);
}

} // verus!
