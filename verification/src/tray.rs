//! What the tray menu shows and which request each item stands for.

use vstd::prelude::*;

use crate::app::{AppEvent, AppState, MenuCommand, RecordingState};
use crate::config::{first_index, lemma_first_index, texts, HotkeyChoice, OutputMode, Tier};
use crate::languages::{language_table, spec_language_table, Language};
use crate::text::same_text;

verus! {

/// The status line at the top of the menu.
pub open spec fn spec_status_text(state: RecordingState) -> Seq<char> {
    match state {
        RecordingState::Idle => "Status: Idle"@,
        RecordingState::Recording => "Status: Recording..."@,
        RecordingState::Transcribing => "Status: Transcribing..."@,
    }
}

/// The status line at the top of the menu.
pub fn status_text(state: RecordingState) -> (r: &'static str)
    ensures
        r@ == spec_status_text(state),
{
    match state {
        RecordingState::Idle => "Status: Idle",
        RecordingState::Recording => "Status: Recording...",
        RecordingState::Transcribing => "Status: Transcribing...",
    }
}

/// The ids the menu library gave to the items of the tray menu.
#[derive(Clone, Debug)]
pub struct MenuIds {
    pub status: String,
    pub output_clipboard: String,
    pub output_paste: String,
    pub hotkey_right_alt: String,
    pub hotkey_caps_lock: String,
    pub current_model: String,
    pub website: String,
    /// One item per tier.
    pub tier_items: Vec<(Tier, String)>,
    /// One item per language: its code and the item's id.
    pub language_items: Vec<(String, String)>,
    pub quit: String,
}

impl MenuIds {
    /// The ids of the tier items.
    pub open spec fn tier_ids(self) -> Seq<Seq<char>> {
        self.tier_items@.map_values(|p: (Tier, String)| p.1@)
    }

    /// The ids of the language items.
    pub open spec fn language_ids(self) -> Seq<Seq<char>> {
        self.language_items@.map_values(|p: (String, String)| p.1@)
    }

    /// The request an item stands for: fixed items first, then the first tier
    /// item, then the first language item with that id; `None` for items that
    /// request nothing.
    pub open spec fn request_of(self, id: Seq<char>, r: Option<AppEvent>) -> bool {
        if id == self.quit@ {
            r == Some(AppEvent::Quit)
        } else if id == self.output_clipboard@ {
            r == Some(AppEvent::Menu(MenuCommand::SetOutputMode(OutputMode::Clipboard)))
        } else if id == self.output_paste@ {
            r == Some(AppEvent::Menu(MenuCommand::SetOutputMode(OutputMode::PasteAtCursor)))
        } else if id == self.hotkey_right_alt@ {
            r == Some(AppEvent::Menu(MenuCommand::SetHotkey(HotkeyChoice::RightAlt)))
        } else if id == self.hotkey_caps_lock@ {
            r == Some(AppEvent::Menu(MenuCommand::SetHotkey(HotkeyChoice::CapsLock)))
        } else if id == self.website@ {
            r == Some(AppEvent::Menu(MenuCommand::OpenWebsite))
        } else if self.tier_ids().contains(id) {
            r == Some(
                AppEvent::Menu(
                    MenuCommand::SetTier(self.tier_items@[first_index(self.tier_ids(), id)].0),
                ),
            )
        } else if self.language_ids().contains(id) {
            r matches Some(AppEvent::Menu(MenuCommand::ToggleLanguage(code))) && code@
                == self.language_items@[first_index(self.language_ids(), id)].0@
        } else {
            r is None
        }
    }
}

/// `id` is the id of one of the fixed items (status, output, hotkey, model
/// line, website, quit).
pub open spec fn is_fixed_id(ids: MenuIds, id: Seq<char>) -> bool {
    ||| id == ids.status@
    ||| id == ids.output_clipboard@
    ||| id == ids.output_paste@
    ||| id == ids.hotkey_right_alt@
    ||| id == ids.hotkey_caps_lock@
    ||| id == ids.current_model@
    ||| id == ids.website@
    ||| id == ids.quit@
}

/// A click on the `k`-th tier item, whose id no fixed item and no earlier
/// tier item shares, asks for exactly that item's tier; in particular a
/// click on a tier item is never ignored, whichever position it has.
pub proof fn lemma_tier_click_selects_its_tier(ids: MenuIds, k: int, r: Option<AppEvent>)
    requires
        0 <= k < ids.tier_items@.len(),
        !is_fixed_id(ids, ids.tier_items@[k].1@),
        forall|j: int| 0 <= j < k ==> ids.tier_items@[j].1@ != ids.tier_items@[k].1@,
        ids.request_of(ids.tier_items@[k].1@, r),
    ensures
        r == Some(AppEvent::Menu(MenuCommand::SetTier(ids.tier_items@[k].0))),
{
    let id = ids.tier_items@[k].1@;
    let t = ids.tier_ids();
    assert(t[k] == id);
    assert(t.contains(id));
    lemma_first_index(t, id);
    let f = first_index(t, id);
    if f < k {
        assert(t[f] == ids.tier_items@[f].1@);
    }
    if f > k {
        assert(t[k] != id);
    }
    assert(f == k);
}

/// A click on the `k`-th language item, whose id no fixed item, no tier item
/// and no earlier language item shares, toggles exactly that item's language.
pub proof fn lemma_language_click_toggles_its_language(ids: MenuIds, k: int, r: Option<AppEvent>)
    requires
        0 <= k < ids.language_items@.len(),
        !is_fixed_id(ids, ids.language_items@[k].1@),
        forall|j: int|
            0 <= j < ids.tier_items@.len() ==> ids.tier_items@[j].1@ != ids.language_items@[k].1@,
        forall|j: int| 0 <= j < k ==> ids.language_items@[j].1@ != ids.language_items@[k].1@,
        ids.request_of(ids.language_items@[k].1@, r),
    ensures
        r matches Some(AppEvent::Menu(MenuCommand::ToggleLanguage(code))) && code@
            == ids.language_items@[k].0@,
{
    let id = ids.language_items@[k].1@;
    let t = ids.tier_ids();
    if t.contains(id) {
        let j = choose|j: int| 0 <= j < t.len() && t[j] == id;
        assert(t[j] == ids.tier_items@[j].1@);
    }
    let l = ids.language_ids();
    assert(l[k] == id);
    assert(l.contains(id));
    lemma_first_index(l, id);
    let f = first_index(l, id);
    if f < k {
        assert(l[f] == ids.language_items@[f].1@);
    }
    if f > k {
        assert(l[k] != id);
    }
    assert(f == k);
}

/// The request made by clicking the item with id `clicked`.
pub fn handle_menu_event(ids: &MenuIds, clicked: &str) -> (r: Option<AppEvent>)
    ensures
        ids.request_of(clicked@, r),
{
    let c = String::from_str(clicked);
    if c == ids.quit {
        return Some(AppEvent::Quit);
    }
    if c == ids.output_clipboard {
        return Some(AppEvent::Menu(MenuCommand::SetOutputMode(OutputMode::Clipboard)));
    }
    if c == ids.output_paste {
        return Some(AppEvent::Menu(MenuCommand::SetOutputMode(OutputMode::PasteAtCursor)));
    }
    if c == ids.hotkey_right_alt {
        return Some(AppEvent::Menu(MenuCommand::SetHotkey(HotkeyChoice::RightAlt)));
    }
    if c == ids.hotkey_caps_lock {
        return Some(AppEvent::Menu(MenuCommand::SetHotkey(HotkeyChoice::CapsLock)));
    }
    if c == ids.website {
        return Some(AppEvent::Menu(MenuCommand::OpenWebsite));
    }
    let n: usize = ids.tier_items.len();
    let mut i: usize = 0;
    while i < n
        invariant
            n == ids.tier_items@.len(),
            i <= n,
            forall|j: int| 0 <= j < i ==> ids.tier_ids()[j] != clicked@,
            c@ == clicked@,
            clicked@ != ids.quit@,
            clicked@ != ids.output_clipboard@,
            clicked@ != ids.output_paste@,
            clicked@ != ids.hotkey_right_alt@,
            clicked@ != ids.hotkey_caps_lock@,
            clicked@ != ids.website@,
        decreases n - i,
    {
        if ids.tier_items[i].1 == c {
            proof {
                let k: int = first_index(ids.tier_ids(), clicked@);
                assert(ids.tier_ids()[i as int] == clicked@);
                assert(ids.tier_ids().contains(clicked@));
                assert(0 <= k < ids.tier_ids().len() && ids.tier_ids()[k] == clicked@ && forall|
                    j: int,
                | 0 <= j < k ==> ids.tier_ids()[j] != clicked@);
                assert(k == i as int);
            }
            return Some(AppEvent::Menu(MenuCommand::SetTier(ids.tier_items[i].0)));
        }
        i = i + 1;
    }
    assert(!ids.tier_ids().contains(clicked@));
    let m: usize = ids.language_items.len();
    let mut i: usize = 0;
    while i < m
        invariant
            m == ids.language_items@.len(),
            i <= m,
            forall|j: int| 0 <= j < i ==> ids.language_ids()[j] != clicked@,
            !ids.tier_ids().contains(clicked@),
            c@ == clicked@,
            clicked@ != ids.quit@,
            clicked@ != ids.output_clipboard@,
            clicked@ != ids.output_paste@,
            clicked@ != ids.hotkey_right_alt@,
            clicked@ != ids.hotkey_caps_lock@,
            clicked@ != ids.website@,
        decreases m - i,
    {
        if ids.language_items[i].1 == c {
            proof {
                let k: int = first_index(ids.language_ids(), clicked@);
                assert(ids.language_ids()[i as int] == clicked@);
                assert(ids.language_ids().contains(clicked@));
                assert(0 <= k < ids.language_ids().len() && ids.language_ids()[k] == clicked@
                    && forall|j: int| 0 <= j < k ==> ids.language_ids()[j] != clicked@);
                assert(k == i as int);
            }
            let code = ids.language_items[i].0.clone();
            return Some(AppEvent::Menu(MenuCommand::ToggleLanguage(code)));
        }
        i = i + 1;
    }
    assert(!ids.language_ids().contains(clicked@));
    None
}


/// The text of one decimal digit.
pub open spec fn digit(d: int) -> Seq<char> {
    if d == 0 {
        "0"@
    } else if d == 1 {
        "1"@
    } else if d == 2 {
        "2"@
    } else if d == 3 {
        "3"@
    } else if d == 4 {
        "4"@
    } else if d == 5 {
        "5"@
    } else if d == 6 {
        "6"@
    } else if d == 7 {
        "7"@
    } else if d == 8 {
        "8"@
    } else {
        "9"@
    }
}

/// The decimal writing of a natural number, without leading zeros.
pub open spec fn decimal(n: nat) -> Seq<char>
    decreases n,
{
    if n < 10 {
        digit(n as int)
    } else {
        decimal(n / 10) + digit((n % 10) as int)
    }
}

/// The text of a decimal digit.
fn digit_text(d: u8) -> (r: &'static str)
    requires
        d < 10,
    ensures
        r@ == digit(d as int),
{
    match d {
        0 => "0",
        1 => "1",
        2 => "2",
        3 => "3",
        4 => "4",
        5 => "5",
        6 => "6",
        7 => "7",
        8 => "8",
        _ => "9",
    }
}

/// The decimal writing of a byte.
pub fn decimal_text(n: u8) -> (r: String)
    ensures
        r@ == decimal(n as nat),
{
    if n < 10 {
        String::from_str(digit_text(n))
    } else if n < 100 {
        let r = String::from_str(digit_text(n / 10)).concat(digit_text(n % 10));
        assert(decimal((n / 10) as nat) == digit((n / 10) as int));
        r
    } else {
        let r = String::from_str(digit_text(n / 100)).concat(digit_text((n / 10) % 10)).concat(
            digit_text(n % 10),
        );
        assert(decimal((n / 100) as nat) == digit((n / 100) as int));
        assert((n / 10) as nat / 10 == (n / 100) as nat);
        assert(decimal((n / 10) as nat) == decimal((n / 100) as nat) + digit(((n / 10) % 10) as int));
        r
    }
}

/// The menu line of a running download.
pub open spec fn spec_progress_label(name: Seq<char>, pct: u8) -> Seq<char> {
    "Downloading: "@ + name + " ("@ + decimal(pct as nat) + "%)"@
}

/// The menu line of a running download.
pub fn progress_label(name: &str, pct: u8) -> (r: String)
    ensures
        r@ == spec_progress_label(name@, pct),
{
    String::from_str("Downloading: ").concat(name).concat(" (").concat(
        decimal_text(pct).as_str(),
    ).concat("%)")
}

/// The language is one of the preferred ones.
pub open spec fn is_preferred(preferred: Seq<Seq<char>>, lang: Language) -> bool {
    preferred.contains(lang.code@)
}

/// Selects the preferred languages.
pub open spec fn preferred_pred(pref: Seq<Seq<char>>) -> spec_fn(Language) -> bool {
    |l: Language| is_preferred(pref, l)
}

/// Selects the languages that are not preferred.
pub open spec fn other_pred(pref: Seq<Seq<char>>) -> spec_fn(Language) -> bool {
    |l: Language| !is_preferred(pref, l)
}

/// Whether the language with code `code` is among the preferred ones.
fn is_preferred_code(preferred: &[String], code: &str) -> (r: bool)
    ensures
        r == texts(preferred@).contains(code@),
{
    let mut i: usize = 0;
    while i < preferred.len()
        invariant
            i <= preferred@.len(),
            forall|j: int| 0 <= j < i ==> preferred@[j]@ != code@,
        decreases preferred@.len() - i,
    {
        if same_text(preferred[i].as_str(), code) {
            assert(texts(preferred@)[i as int] == code@);
            return true;
        }
        i = i + 1;
    }
    proof {
        if texts(preferred@).contains(code@) {
            let j: int = choose|j: int|
                0 <= j < texts(preferred@).len() && texts(preferred@)[j] == code@;
            assert(preferred@[j]@ == code@);
        }
    }
    false
}

/// The language menu: the preferred languages at the top, the others under
/// "Add language...", each group in the order of the language table.
pub fn split_languages(preferred: &[String]) -> (r: (Vec<Language>, Vec<Language>))
    ensures
        r.0@ == spec_language_table().filter(preferred_pred(texts(preferred@))),
        r.1@ == spec_language_table().filter(other_pred(texts(preferred@))),
{
    let table = language_table();
    let ghost pref = texts(preferred@);
    let ghost sel = preferred_pred(pref);
    let ghost rest = other_pred(pref);
    let mut chosen: Vec<Language> = Vec::new();
    let mut others: Vec<Language> = Vec::new();
    let n: usize = table.len();
    let mut i: usize = 0;
    while i < n
        invariant
            n == table@.len(),
            table@ == spec_language_table(),
            pref == texts(preferred@),
            i <= n,
            sel == preferred_pred(pref),
            rest == other_pred(pref),
            chosen@ == table@.take(i as int).filter(sel),
            others@ == table@.take(i as int).filter(rest),
        decreases n - i,
    {
        let lang = table[i];
        let keep = is_preferred_code(preferred, lang.code);
        proof {
            let prefix = table@.take(i as int);
            let next = table@.take(i + 1);
            assert(next.drop_last() =~= prefix);
            assert(next.last() == lang);
            assert(sel(lang) == keep);
            assert(rest(lang) == !keep);
            reveal_with_fuel(Seq::<Language>::filter, 1);
            assert(next.filter(sel) == if keep { prefix.filter(sel).push(lang) } else { prefix.filter(sel) });
            assert(next.filter(rest) == if keep { prefix.filter(rest) } else { prefix.filter(rest).push(lang) });
        }
        if keep {
            chosen.push(lang);
        } else {
            others.push(lang);
        }
        i = i + 1;
    }
    assert(table@.take(n as int) =~= table@);
    (chosen, others)
}


/// The label of a tier item: its name and download size.
pub open spec fn spec_tier_label(t: Tier) -> Seq<char> {
    t.spec_display_name() + " ("@ + t.spec_download_size() + ")"@
}

/// The label of a tier item: its name and download size.
pub fn tier_label(t: Tier) -> (r: String)
    ensures
        r@ == spec_tier_label(t),
{
    String::from_str(t.display_name()).concat(" (").concat(t.download_size()).concat(")")
}

/// The label of a tier item in the menu: a download arrow before the label
/// when the tier's model is not on disk yet.
pub open spec fn spec_tier_item_label(t: Tier, installed: bool) -> Seq<char> {
    if installed {
        spec_tier_label(t)
    } else {
        "\u{2b07} "@ + spec_tier_label(t)
    }
}

/// The label of a tier item in the menu, as [`spec_tier_item_label`] says.
pub fn tier_item_label(t: Tier, installed: bool) -> (r: String)
    ensures
        r@ == spec_tier_item_label(t, installed),
{
    if installed {
        tier_label(t)
    } else {
        let label = tier_label(t);
        String::from_str("\u{2b07} ").concat(label.as_str())
    }
}

/// A tier item carries the download arrow exactly when the tier's model is
/// not on disk; the rest of the label is the tier's name and size either way.
pub proof fn lemma_download_marker_iff_missing(t: Tier, installed: bool)
    ensures
        ({
            let l = spec_tier_item_label(t, installed);
            let mk = "\u{2b07} "@;
            &&& (l.len() >= mk.len() && l.subrange(0, mk.len() as int) == mk) == !installed
            &&& !installed ==> l.subrange(mk.len() as int, l.len() as int) == spec_tier_label(t)
            &&& installed ==> l == spec_tier_label(t)
        }),
{
    reveal_strlit("\u{2b07} ");
    reveal_strlit("Fast");
    reveal_strlit("Standard");
    reveal_strlit("Accurate");
    let l = spec_tier_item_label(t, installed);
    let mk = "\u{2b07} "@;
    let tl = spec_tier_label(t);
    assert(tl[0] == t.spec_display_name()[0]);
    if installed {
        if l.len() >= mk.len() && l.subrange(0, mk.len() as int) == mk {
            assert(l.subrange(0, mk.len() as int)[0] == l[0]);
        }
    } else {
        assert(l.subrange(0, mk.len() as int) =~= mk);
        assert(l.subrange(mk.len() as int, l.len() as int) =~= tl);
    }
}

/// Whether `t` is among the tiers whose model is on disk.
pub fn tier_installed(installed: &[Tier], t: Tier) -> (r: bool)
    ensures
        r == installed@.contains(t),
{
    let mut i: usize = 0;
    while i < installed.len()
        invariant
            i <= installed@.len(),
            forall|j: int| 0 <= j < i ==> installed@[j] != t,
        decreases installed@.len() - i,
    {
        if installed[i] == t {
            assert(installed@[i as int] == t);
            return true;
        }
        i = i + 1;
    }
    false
}

/// The line of the "About" section: the application's name and version.
pub open spec fn spec_about_label(version: Seq<char>) -> Seq<char> {
    "Murmur v"@ + version
}

/// The tiers in menu order.
pub open spec fn menu_tiers() -> Seq<Tier> {
    seq![Tier::Fast, Tier::Standard, Tier::Accurate]
}

/// The line that names the model in use.
pub open spec fn spec_current_label(state: AppState) -> Seq<char> {
    if state.transcriber_ready {
        "Tier: "@ + state.config.selected_tier.spec_display_name()
    } else {
        "Loading model..."@
    }
}

/// What the tray menu shows for a state.
#[derive(Debug)]
pub struct MenuLayout {
    /// The status line.
    pub status: String,
    /// Whether "Copy to Clipboard" is checked ("Paste at Cursor" is the other).
    pub clipboard_checked: bool,
    /// Whether the right Option/Alt key is checked (Caps Lock is the other).
    pub right_alt_checked: bool,
    /// The line that names the model in use.
    pub current: String,
    /// One item per tier: the tier, its label (marked for download when its
    /// model is not on disk), and whether it is checked.
    pub tiers: Vec<(Tier, String, bool)>,
    /// The preferred languages, checked, with whether each can be unchecked
    /// (English cannot).
    pub preferred: Vec<(Language, bool)>,
    /// The other languages, offered under "Add language...".
    pub others: Vec<Language>,
    /// Whether to warn that the microphone is not granted.
    pub mic_warning: bool,
    /// Whether to warn that accessibility is not granted.
    pub accessibility_warning: bool,
    /// The line of a running download, if any.
    pub progress: Option<String>,
    /// The "About" line: the name and version.
    pub about: String,
}

/// The tray menu for a state, for the application's `version` and the tiers
/// whose model is on disk.
pub fn menu_layout(state: &AppState, version: &str, installed: &[Tier]) -> (r: MenuLayout)
    ensures
        r.status@ == spec_status_text(state.recording_state),
        r.clipboard_checked == (state.config.output_mode == OutputMode::Clipboard),
        r.right_alt_checked == (state.config.hotkey == HotkeyChoice::RightAlt),
        r.current@ == spec_current_label(*state),
        r.tiers@.len() == 3,
        forall|i: int|
            0 <= i < 3 ==> {
                &&& (#[trigger] r.tiers@[i]).0 == menu_tiers()[i]
                &&& r.tiers@[i].1@ == spec_tier_item_label(
                    menu_tiers()[i],
                    installed@.contains(menu_tiers()[i]),
                )
                &&& r.tiers@[i].2 == (menu_tiers()[i] == state.config.selected_tier)
            },
        r.preferred@.map_values(|p: (Language, bool)| p.0) == spec_language_table().filter(
            preferred_pred(state.config.langs()),
        ),
        forall|i: int|
            0 <= i < r.preferred@.len() ==> (#[trigger] r.preferred@[i]).1 == (r.preferred@[i].0.code@
                != "en"@),
        r.others@ == spec_language_table().filter(other_pred(state.config.langs())),
        r.mic_warning == !state.permissions.microphone,
        r.accessibility_warning == !state.permissions.accessibility,
        match state.download_progress {
            Some((name, pct)) => r.progress matches Some(t) && t@ == spec_progress_label(name@, pct),
            None => r.progress is None,
        },
        r.about@ == spec_about_label(version@),
{
    let current = if state.transcriber_ready {
        String::from_str("Tier: ").concat(state.config.selected_tier.display_name())
    } else {
        String::from_str("Loading model...")
    };
    let mut tiers: Vec<(Tier, String, bool)> = Vec::new();
    tiers.push(
        (
            Tier::Fast,
            tier_item_label(Tier::Fast, tier_installed(installed, Tier::Fast)),
            state.config.selected_tier == Tier::Fast,
        ),
    );
    tiers.push(
        (
            Tier::Standard,
            tier_item_label(Tier::Standard, tier_installed(installed, Tier::Standard)),
            state.config.selected_tier == Tier::Standard,
        ),
    );
    tiers.push(
        (
            Tier::Accurate,
            tier_item_label(Tier::Accurate, tier_installed(installed, Tier::Accurate)),
            state.config.selected_tier == Tier::Accurate,
        ),
    );
    let (chosen, others) = split_languages(state.config.languages.as_slice());
    let mut preferred: Vec<(Language, bool)> = Vec::new();
    let n: usize = chosen.len();
    let mut i: usize = 0;
    while i < n
        invariant
            n == chosen@.len(),
            i <= n,
            preferred@.len() == i,
            forall|j: int| 0 <= j < i ==> (#[trigger] preferred@[j]).0 == chosen@[j],
            forall|j: int|
                0 <= j < i ==> (#[trigger] preferred@[j]).1 == (preferred@[j].0.code@ != "en"@),
        decreases n - i,
    {
        let lang = chosen[i];
        let locked = same_text(lang.code, "en");
        preferred.push((lang, !locked));
        i = i + 1;
    }
    assert(preferred@.map_values(|p: (Language, bool)| p.0) =~= chosen@);
    let progress = match &state.download_progress {
        Some((name, pct)) => Some(progress_label(name.as_str(), *pct)),
        None => None,
    };
    MenuLayout {
        status: String::from_str(status_text(state.recording_state)),
        clipboard_checked: state.config.output_mode == OutputMode::Clipboard,
        right_alt_checked: state.config.hotkey == HotkeyChoice::RightAlt,
        current,
        tiers,
        preferred,
        others,
        mic_warning: !state.permissions.microphone,
        accessibility_warning: !state.permissions.accessibility,
        progress,
        about: String::from_str("Murmur v").concat(version),
    }
}

} // verus!
