//! User settings: output mode, hotkey, quality tier and preferred languages.

use vstd::prelude::*;

use crate::text::same_text;

verus! {

/// Where a finished transcript goes.
#[derive(Clone, Copy, Debug, PartialEq, Eq, Structural)]
pub enum OutputMode {
    Clipboard,
    PasteAtCursor,
}

/// The key held down to record.
#[derive(Clone, Copy, Debug, PartialEq, Eq, Structural)]
pub enum HotkeyChoice {
    RightAlt,
    CapsLock,
}

/// Quality/speed tradeoff, each tier backed by one whisper model.
#[derive(Clone, Copy, Debug, PartialEq, Eq, Structural)]
pub enum Tier {
    Fast,
    Standard,
    Accurate,
}

impl Tier {
    /// The whisper model of the tier.
    pub open spec fn spec_whisper_model(self) -> Seq<char> {
        match self {
            Tier::Fast => "small"@,
            Tier::Standard => "medium"@,
            Tier::Accurate => "large-v3"@,
        }
    }

    /// The tier's name in menus.
    pub open spec fn spec_display_name(self) -> Seq<char> {
        match self {
            Tier::Fast => "Fast"@,
            Tier::Standard => "Standard"@,
            Tier::Accurate => "Accurate"@,
        }
    }

    /// The approximate download size of the tier's model.
    pub open spec fn spec_download_size(self) -> Seq<char> {
        match self {
            Tier::Fast => "465 MB"@,
            Tier::Standard => "1.4 GB"@,
            Tier::Accurate => "2.9 GB"@,
        }
    }

    /// The tier label shown for a model name; unknown names count as Fast.
    pub open spec fn spec_label_for_model(model: Seq<char>) -> Seq<char> {
        if model == "small.en"@ || model == "small"@ {
            "Fast"@
        } else if model == "medium.en"@ || model == "medium"@ {
            "Standard"@
        } else if model == "large-v3"@ {
            "Accurate"@
        } else {
            "Fast"@
        }
    }

    /// The tier that replaces a model name stored by older versions.
    pub open spec fn spec_from_legacy_model(model: Seq<char>) -> Tier {
        if model == "tiny.en"@ || model == "tiny"@ || model == "base.en"@ || model == "base"@
            || model == "small.en"@ || model == "small"@ {
            Tier::Fast
        } else if model == "medium.en"@ || model == "medium"@ {
            Tier::Standard
        } else {
            Tier::Accurate
        }
    }

    /// The whisper model name of this tier.
    pub fn whisper_model(&self) -> (r: &'static str)
        ensures
            r@ == self.spec_whisper_model(),
    {
        match self {
            Tier::Fast => "small",
            Tier::Standard => "medium",
            Tier::Accurate => "large-v3",
        }
    }

    /// The name shown in menus.
    pub fn display_name(&self) -> (r: &'static str)
        ensures
            r@ == self.spec_display_name(),
    {
        match self {
            Tier::Fast => "Fast",
            Tier::Standard => "Standard",
            Tier::Accurate => "Accurate",
        }
    }

    /// The approximate size of the model download.
    pub fn download_size(&self) -> (r: &'static str)
        ensures
            r@ == self.spec_download_size(),
    {
        match self {
            Tier::Fast => "465 MB",
            Tier::Standard => "1.4 GB",
            Tier::Accurate => "2.9 GB",
        }
    }

    /// The tier label for a model name.
    pub fn label_for_model(model: &str) -> (r: &'static str)
        ensures
            r@ == Self::spec_label_for_model(model@),
    {
        if same_text(model, "small.en") || same_text(model, "small") {
            "Fast"
        } else if same_text(model, "medium.en") || same_text(model, "medium") {
            "Standard"
        } else if same_text(model, "large-v3") {
            "Accurate"
        } else {
            "Fast"
        }
    }

    /// The tier that replaces a model name stored by older versions.
    pub fn from_legacy_model(model: &str) -> (r: Tier)
        ensures
            r == Self::spec_from_legacy_model(model@),
    {
        if same_text(model, "tiny.en") || same_text(model, "tiny") || same_text(model, "base.en")
            || same_text(model, "base") || same_text(model, "small.en") || same_text(model, "small") {
            Tier::Fast
        } else if same_text(model, "medium.en") || same_text(model, "medium") {
            Tier::Standard
        } else {
            Tier::Accurate
        }
    }
}


/// A location under the user's home directory, one entry per path component.
#[derive(Clone, Debug)]
pub struct HomePath {
    pub parts: Vec<String>,
}

impl View for HomePath {
    type V = Seq<Seq<char>>;

    open spec fn view(&self) -> Seq<Seq<char>> {
        texts(self.parts@)
    }
}

/// The characters of each string of a sequence.
pub open spec fn texts(v: Seq<String>) -> Seq<Seq<char>> {
    v.map_values(|s: String| s@)
}

/// The index of the first occurrence of `x` in `s`, if any.
pub open spec fn first_index(s: Seq<Seq<char>>, x: Seq<char>) -> int
    recommends
        s.contains(x),
{
    choose|i: int| 0 <= i < s.len() && s[i] == x && forall|j: int| 0 <= j < i ==> s[j] != x
}

/// An occurrence of `x` among the first `n` elements of `s` with none before it.
proof fn earliest_occurrence(s: Seq<Seq<char>>, x: Seq<char>, n: int) -> (k: int)
    requires
        0 <= n <= s.len(),
        exists|i: int| 0 <= i < n && s[i] == x,
    ensures
        0 <= k < n,
        s[k] == x,
        forall|j: int| 0 <= j < k ==> s[j] != x,
    decreases n,
{
    if exists|i: int| 0 <= i < n - 1 && s[i] == x {
        earliest_occurrence(s, x, n - 1)
    } else {
        n - 1
    }
}

/// [`first_index`] is the first occurrence.
pub proof fn lemma_first_index(s: Seq<Seq<char>>, x: Seq<char>)
    requires
        s.contains(x),
    ensures
        0 <= first_index(s, x) < s.len(),
        s[first_index(s, x)] == x,
        forall|j: int| 0 <= j < first_index(s, x) ==> s[j] != x,
{
    let w: int = earliest_occurrence(s, x, s.len() as int);
    assert(0 <= w < s.len() && s[w] == x && forall|j: int| 0 <= j < w ==> s[j] != x);
}

/// The preferred-language list after toggling `code`: English cannot be
/// toggled, a present code is removed (its first occurrence), an absent one is
/// appended, and an emptied list falls back to English.
pub open spec fn toggled_languages(langs: Seq<Seq<char>>, code: Seq<char>) -> Seq<Seq<char>> {
    if code == "en"@ {
        langs
    } else {
        let changed = if langs.contains(code) {
            langs.remove(first_index(langs, code))
        } else {
            langs.push(code)
        };
        if changed.len() == 0 {
            seq!["en"@]
        } else {
            changed
        }
    }
}

/// `c` is the settings in use after loading `stored`, and `save` says whether
/// they must be written back.
pub open spec fn loaded_settings(stored: StoredConfig, c: Config, save: bool) -> bool {
    let base = match stored {
        StoredConfig::Parsed(p) => p,
        _ => c,
    };
    &&& stored !is Parsed ==> c.is_default()
    &&& c.selected_model is None
    &&& c.selected_tier == match base.selected_model {
        Some(m) => Tier::spec_from_legacy_model(m@),
        None => base.selected_tier,
    }
    &&& c.output_mode == base.output_mode
    &&& c.hotkey == base.hotkey
    &&& c.langs() == if base.langs().len() == 0 {
        seq!["en"@]
    } else {
        base.langs()
    }
    &&& save == (stored is Missing || base.selected_model is Some)
}

/// Loaded settings always hold at least one preferred language and no legacy
/// model name.
pub proof fn lemma_loaded_settings_complete(stored: StoredConfig, c: Config, save: bool)
    requires
        loaded_settings(stored, c, save),
    ensures
        c.langs().len() > 0,
        c.selected_model is None,
{
}

/// Loading keeps every choice stored in a readable file: its output mode and
/// hotkey always (also when a legacy model name is migrated), its tier unless
/// a legacy model name replaces it, and its languages unless there are none
/// (English then). Without a readable file the defaults apply. The file is
/// written back exactly when it was missing or held a legacy model name.
pub proof fn lemma_loading_keeps_user_choices(stored: StoredConfig, c: Config, save: bool)
    requires
        loaded_settings(stored, c, save),
    ensures
        c.selected_model is None,
        stored matches StoredConfig::Parsed(p) ==> {
            &&& c.output_mode == p.output_mode
            &&& c.hotkey == p.hotkey
            &&& p.selected_model is None ==> c.selected_tier == p.selected_tier
            &&& p.languages@.len() > 0 ==> c.langs() == p.langs()
            &&& p.languages@.len() == 0 ==> c.langs() == seq!["en"@]
            &&& save == p.selected_model is Some
        },
        stored !is Parsed ==> {
            &&& c.output_mode == OutputMode::Clipboard
            &&& c.hotkey == HotkeyChoice::RightAlt
            &&& c.selected_tier == Tier::Fast
            &&& c.langs() == seq!["en"@]
        },
        stored is Missing ==> save,
        stored is Unreadable ==> !save,
{
}

/// The lengths and first characters that tell the model names apart.
proof fn lemma_model_names_differ()
    ensures
        "tiny.en"@.len() == 7,
        "tiny"@.len() == 4,
        "base.en"@.len() == 7,
        "base"@.len() == 4,
        "small.en"@.len() == 8,
        "small.en"@[0] == 's',
        "small"@.len() == 5,
        "medium.en"@.len() == 9,
        "medium"@.len() == 6,
        "large-v3"@.len() == 8,
        "large-v3"@[0] == 'l',
{
    reveal_strlit("tiny.en");
    reveal_strlit("tiny");
    reveal_strlit("base.en");
    reveal_strlit("base");
    reveal_strlit("small.en");
    reveal_strlit("small");
    reveal_strlit("medium.en");
    reveal_strlit("medium");
    reveal_strlit("large-v3");
}

/// Each tier's model is labelled with the tier's display name.
pub proof fn lemma_label_of_tier_model(t: Tier)
    ensures
        Tier::spec_label_for_model(t.spec_whisper_model()) == t.spec_display_name(),
{
    lemma_model_names_differ();
    assert("large-v3"@ != "small.en"@ && "large-v3"@ != "small"@ && "large-v3"@ != "medium.en"@
        && "large-v3"@ != "medium"@ && "medium"@ != "small.en"@ && "medium"@ != "small"@);
}

/// A tier's model name, stored as a legacy model name, migrates back to the
/// same tier.
pub proof fn lemma_legacy_model_round_trip(t: Tier)
    ensures
        Tier::spec_from_legacy_model(t.spec_whisper_model()) == t,
{
    lemma_model_names_differ();
    assert("large-v3"@ != "small.en"@ && "large-v3"@ != "small"@ && "large-v3"@ != "medium.en"@
        && "large-v3"@ != "medium"@ && "large-v3"@ != "tiny.en"@ && "large-v3"@ != "tiny"@
        && "large-v3"@ != "base.en"@ && "large-v3"@ != "base"@);
    assert("medium"@ != "small.en"@ && "medium"@ != "small"@ && "medium"@ != "tiny.en"@
        && "medium"@ != "tiny"@ && "medium"@ != "base.en"@ && "medium"@ != "base"@);
}

/// Toggling never empties a non-empty list, never removes English, and keeps
/// a list without duplicates without duplicates.
pub proof fn lemma_toggle_keeps_list_valid(langs: Seq<Seq<char>>, code: Seq<char>)
    ensures
        langs.len() > 0 ==> toggled_languages(langs, code).len() > 0,
        code != "en"@ ==> toggled_languages(langs, code).len() > 0,
        langs.contains("en"@) ==> toggled_languages(langs, code).contains("en"@),
        langs.no_duplicates() ==> toggled_languages(langs, code).no_duplicates(),
{
    if code != "en"@ {
        if langs.contains(code) {
            let k: int = first_index(langs, code);
            lemma_first_index(langs, code);
            let r = langs.remove(k);
            langs.remove_ensures(k);
            if langs.contains("en"@) {
                let e: int = choose|e: int| 0 <= e < langs.len() && langs[e] == "en"@;
                if e < k {
                    assert(r[e] == "en"@);
                } else {
                    assert(e != k);
                    assert(r[e - 1] == "en"@);
                }
            }
        } else {
            let r = langs.push(code);
            if langs.contains("en"@) {
                let e: int = choose|e: int| 0 <= e < langs.len() && langs[e] == "en"@;
                assert(r[e] == "en"@);
            }
        }
        let changed = if langs.contains(code) {
            langs.remove(first_index(langs, code))
        } else {
            langs.push(code)
        };
        if changed.len() == 0 {
            assert(seq!["en"@][0] == "en"@);
        }
    }
}

/// For a code other than English that is not in the list, toggling twice
/// gives the list back (an empty list comes back as English only).
pub proof fn lemma_toggle_twice_restores(langs: Seq<Seq<char>>, code: Seq<char>)
    requires
        code != "en"@,
        !langs.contains(code),
    ensures
        toggled_languages(toggled_languages(langs, code), code) == if langs.len() == 0 {
            seq!["en"@]
        } else {
            langs
        },
{
    let once = langs.push(code);
    assert(toggled_languages(langs, code) == once);
    assert(once[langs.len() as int] == code);
    assert(once.contains(code));
    let k: int = first_index(once, code);
    lemma_first_index(once, code);
    if k < langs.len() {
        assert(langs[k] == code);
    }
    assert(k == langs.len());
    assert(once.remove(k) =~= langs);
}

/// A code other than English that is absent is present after toggling, and
/// one that occurs once is absent after toggling.
pub proof fn lemma_toggle_flips_membership(langs: Seq<Seq<char>>, code: Seq<char>)
    requires
        code != "en"@,
        langs.no_duplicates(),
    ensures
        toggled_languages(langs, code).contains(code) == !langs.contains(code),
{
    if langs.contains(code) {
        let k: int = first_index(langs, code);
        lemma_first_index(langs, code);
        let r = langs.remove(k);
        langs.remove_ensures(k);
        if r.contains(code) {
            let j: int = choose|j: int| 0 <= j < r.len() && r[j] == code;
            if j < k {
                assert(langs[j] == code);
            } else {
                assert(langs[j + 1] == code);
            }
        }
        if r.len() == 0 {
            reveal_strlit("en");
            assert(seq!["en"@][0] == "en"@);
            if seq!["en"@].contains(code) {
                let j: int = choose|j: int| 0 <= j < seq!["en"@].len() && seq!["en"@][j] == code;
                assert(j == 0);
            }
        }
    } else {
        assert(langs.push(code)[langs.len() as int] == code);
    }
}

/// The tier used when none is stored.
pub fn default_tier() -> (r: Tier)
    ensures
        r == Tier::Fast,
{
    Tier::Fast
}

/// The preferred languages used when none are stored: English only.
pub fn default_languages() -> (r: Vec<String>)
    ensures
        texts(r@) == seq!["en"@],
{
    let mut v: Vec<String> = Vec::new();
    v.push(String::from_str("en"));
    assert(texts(v@) =~= seq!["en"@]);
    v
}

/// What was found where the settings file lives.
#[derive(Clone, Debug)]
pub enum StoredConfig {
    /// No settings file exists.
    Missing,
    /// A file exists but could not be read or parsed.
    Unreadable,
    /// The file parsed to these settings.
    Parsed(Config),
}

/// The user's settings.
#[derive(Clone, Debug)]
pub struct Config {
    pub selected_tier: Tier,
    /// A model name written by older versions, migrated to a tier on load.
    pub selected_model: Option<String>,
    pub output_mode: OutputMode,
    pub hotkey: HotkeyChoice,
    pub languages: Vec<String>,
}

impl Config {
    /// The preferred languages as character sequences.
    pub open spec fn langs(self) -> Seq<Seq<char>> {
        texts(self.languages@)
    }

    /// The settings a fresh install starts with.
    pub open spec fn is_default(self) -> bool {
        &&& self.selected_tier == Tier::Fast
        &&& self.selected_model is None
        &&& self.output_mode == OutputMode::Clipboard
        &&& self.hotkey == HotkeyChoice::RightAlt
        &&& self.langs() == seq!["en"@]
    }

    /// The settings directory, `~/.murmur`.
    pub fn base_dir() -> (r: HomePath)
        ensures
            r@ == seq![".murmur"@],
    {
        let mut parts: Vec<String> = Vec::new();
        parts.push(String::from_str(".murmur"));
        let r = HomePath { parts };
        assert(r@ =~= seq![".murmur"@]);
        r
    }

    /// The settings file, `~/.murmur/config.json`.
    pub fn config_path() -> (r: HomePath)
        ensures
            r@ == seq![".murmur"@, "config.json"@],
    {
        let mut r = Self::base_dir();
        let ghost before = r@;
        r.parts.push(String::from_str("config.json"));
        assert(r@ =~= before.push("config.json"@));
        r
    }

    /// The directory that holds model files, `~/.murmur/models`.
    pub fn models_dir() -> (r: HomePath)
        ensures
            r@ == seq![".murmur"@, "models"@],
    {
        let mut r = Self::base_dir();
        let ghost before = r@;
        r.parts.push(String::from_str("models"));
        assert(r@ =~= before.push("models"@));
        r
    }

    /// The settings in use after loading what was stored: unreadable or missing
    /// settings give the defaults, an empty language list becomes English only,
    /// and a legacy model name is replaced by its tier. The flag says whether
    /// the settings must be written back (the file was missing, or a legacy
    /// model name was migrated).
    pub fn from_stored(stored: StoredConfig) -> (r: (Config, bool))
        ensures
            loaded_settings(stored, r.0, r.1),
    {
        let missing = match &stored {
            StoredConfig::Missing => true,
            _ => false,
        };
        let mut config = match stored {
            StoredConfig::Parsed(c) => c,
            _ => Config::default(),
        };
        if config.languages.len() == 0 {
            config.languages.push(String::from_str("en"));
            assert(config.langs() =~= seq!["en"@]);
        }
        let mut save = missing;
        match config.selected_model.take() {
            Some(model) => {
                config.selected_tier = Tier::from_legacy_model(model.as_str());
                save = true;
            },
            None => {},
        }
        (config, save)
    }

    /// Toggles a preferred language as [`toggled_languages`] describes; returns
    /// false, changing nothing, for English.
    pub fn toggle_language(&mut self, code: String) -> (changed: bool)
        ensures
            changed == (code@ != "en"@),
            !changed ==> *final(self) == *old(self),
            final(self).langs() == toggled_languages(old(self).langs(), code@),
            final(self).selected_tier == old(self).selected_tier,
            final(self).selected_model == old(self).selected_model,
            final(self).output_mode == old(self).output_mode,
            final(self).hotkey == old(self).hotkey,
    {
        if same_text(code.as_str(), "en") {
            return false;
        }
        let ghost before = self.langs();
        let n: usize = self.languages.len();
        let mut i: usize = 0;
        let mut found = false;
        while i < n
            invariant_except_break
                n == self.languages.len(),
                self.langs() == before,
                i <= n,
                forall|j: int| 0 <= j < i ==> before[j] != code@,
                !found,
            ensures
                n == self.languages.len(),
                self.langs() == before,
                found ==> (i < n && before[i as int] == code@ && forall|j: int|
                    0 <= j < i ==> before[j] != code@),
                !found ==> forall|j: int| 0 <= j < n ==> before[j] != code@,
            decreases n - i,
        {
            if self.languages[i] == code {
                found = true;
                break;
            }
            i = i + 1;
        }
        if found {
            proof {
                let k: int = first_index(before, code@);
                assert(before.contains(code@));
                assert(0 <= k < before.len() && before[k] == code@ && forall|j: int|
                    0 <= j < k ==> before[j] != code@);
                assert(k == i as int);
            }
            self.languages.remove(i);
            assert(self.langs() =~= before.remove(i as int));
        } else {
            assert(!before.contains(code@));
            self.languages.push(code);
            assert(self.langs() =~= before.push(code@));
        }
        if self.languages.len() == 0 {
            self.languages.push(String::from_str("en"));
            assert(self.langs() =~= seq!["en"@]);
        }
        true
    }
}

impl Default for Config {
    fn default() -> (r: Self)
        ensures
            r.is_default(),
    {
        Config {
            selected_tier: default_tier(),
            selected_model: None,
            output_mode: OutputMode::Clipboard,
            hotkey: HotkeyChoice::RightAlt,
            languages: default_languages(),
        }
    }
}

} // verus!
