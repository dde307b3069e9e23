//! Application state and the decisions taken on each event: which state comes
//! next and which effects the event loop must carry out.

use vstd::prelude::*;

use crate::config::{
    lemma_toggle_flips_membership, texts, toggled_languages, Config, HotkeyChoice, OutputMode, Tier,
};
use crate::transcriber::{is_backend_for, resolve_backend, BackendChoice};

verus! {

/// The model every session starts with, before switching to the tier's model.
pub const BOOTSTRAP_MODEL: &'static str = "tiny.en";

/// The project's landing page, opened from the tray menu.
pub const WEBSITE_URL: &'static str = "https://anubhavitis.github.io/murmur/";

/// A request made from the tray menu.
#[derive(Debug)]
pub enum MenuCommand {
    SetTier(Tier),
    SetOutputMode(OutputMode),
    SetHotkey(HotkeyChoice),
    ToggleLanguage(String),
    /// Open the landing page in the browser.
    OpenWebsite,
}

/// Something that happened and that the application reacts to.
#[derive(Debug)]
pub enum AppEvent {
    HotkeyPressed,
    HotkeyReleased,
    TranscriptionComplete(String),
    TranscriptionError(String),
    TranscriberReady,
    ModelDownloadProgress(String, u8),
    ModelDownloadComplete(String),
    BackendUpgradeReady,
    Menu(MenuCommand),
    Quit,
}

/// Where the hold-to-talk cycle stands.
#[derive(Clone, Copy, Debug, PartialEq, Eq, Structural)]
pub enum RecordingState {
    Idle,
    Recording,
    Transcribing,
}

/// What the system has granted, and which prompts were already shown.
#[derive(Clone, Copy, Debug, PartialEq, Eq, Structural)]
pub struct Permissions {
    pub microphone: bool,
    pub accessibility: bool,
    pub prompted_mic: bool,
    pub prompted_accessibility: bool,
}

impl Default for Permissions {
    fn default() -> (r: Self)
        ensures
            !r.microphone && !r.accessibility && !r.prompted_mic && !r.prompted_accessibility,
    {
        Permissions {
            microphone: false,
            accessibility: false,
            prompted_mic: false,
            prompted_accessibility: false,
        }
    }
}

/// Everything the event loop keeps between events.
#[derive(Debug)]
pub struct AppState {
    pub config: Config,
    pub recording_state: RecordingState,
    pub download_progress: Option<(String, u8)>,
    pub permissions: Permissions,
    pub transcriber_ready: bool,
    pub upgrading_backend: bool,
    /// The model of the transcriber that serves requests (for FluidAudio, the
    /// tier's whisper model it stands in for).
    pub loaded_model: String,
    /// The model of a transcriber being loaded to take over, if any.
    pub pending_model: Option<String>,
    /// Whether FluidAudio can run here (a FluidAudio build on Apple Silicon).
    pub fluid_audio_available: bool,
    pub pending_restart: bool,
}

impl AppState {
    /// A fresh state: idle, nothing granted yet, no download, the bootstrap
    /// model being loaded.
    pub fn new(config: Config) -> (r: Self)
        ensures
            r.config == config,
            r.recording_state == RecordingState::Idle,
            r.download_progress is None,
            r.permissions == (Permissions {
                microphone: false,
                accessibility: false,
                prompted_mic: false,
                prompted_accessibility: false,
            }),
            !r.transcriber_ready,
            !r.upgrading_backend,
            !r.pending_restart,
            r.loaded_model@ == BOOTSTRAP_MODEL@,
            r.pending_model is None,
            !r.fluid_audio_available,
    {
        AppState {
            config,
            recording_state: RecordingState::Idle,
            download_progress: None,
            permissions: Permissions::default(),
            transcriber_ready: false,
            upgrading_backend: false,
            pending_restart: false,
            loaded_model: String::from_str(BOOTSTRAP_MODEL),
            pending_model: None,
            fluid_audio_available: false,
        }
    }
}


/// Which decision waits for a model-file presence check.
#[derive(Clone, Copy, Debug, PartialEq, Eq, Structural)]
pub enum ModelCheck {
    /// Switching from the bootstrap model to the tier's model.
    Upgrade,
    /// The user picked another tier.
    TierChange,
}

/// An effect that the event loop carries out for the library.
#[derive(Debug)]
pub enum Action {
    PlayStartSound,
    PlayStopSound,
    /// Start audio capture, then report [`Feedback::CaptureStarted`].
    StartCapture,
    /// Stop audio capture, keeping the samples for [`Action::Transcribe`].
    StopCapture,
    /// Transcribe the captured samples with these preferred languages.
    Transcribe(Vec<String>),
    /// Put the text on the clipboard, then report [`Feedback::ClipboardWritten`].
    CopyToClipboard(String),
    /// Simulate the paste shortcut.
    PasteAtCursor,
    RebuildTray,
    ResetTrayIcon,
    /// Show a download percentage next to the tier's display name.
    UpdateTrayProgress(u8, String),
    /// Check whether the model file exists, then report [`Feedback::ModelPresent`].
    CheckModel(ModelCheck, String),
    /// Download the model in the background, then send `BackendUpgradeReady`.
    SpawnUpgrade(String),
    /// Download the model in the background, then send `ModelDownloadComplete`.
    SpawnDownload(String),
    SendEvent(AppEvent),
    /// Start loading a second transcriber with this backend, while the
    /// current one keeps serving.
    StartTranscriber(BackendChoice),
    /// The second transcriber is ready: it replaces the current one.
    SwapTranscriber,
    SaveConfig,
    SelfRestart,
    /// Open the address in the default browser.
    OpenUrl(String),
    Exit,
}

/// The outcome of an action that the library waits for.
#[derive(Clone, Copy, Debug, PartialEq, Eq, Structural)]
pub enum Feedback {
    CaptureStarted(bool),
    ClipboardWritten(bool),
    ModelPresent(ModelCheck, bool),
}

/// A system permission dialog to show.
#[derive(Clone, Copy, Debug, PartialEq, Eq, Structural)]
pub enum PermissionPrompt {
    Microphone,
    Accessibility,
}

/// The model of the selected tier.
pub open spec fn target_model(s: AppState) -> Seq<char> {
    s.config.selected_tier.spec_whisper_model()
}

/// The action is `CheckModel(check, m)` for a model named `name`.
pub open spec fn checks_model(a: Action, check: ModelCheck, name: Seq<char>) -> bool {
    a matches Action::CheckModel(c, m) && c == check && m@ == name
}

/// The state after an accepted menu command, as a function of the state before.
pub open spec fn menu_outcome(old: AppState, cmd: MenuCommand, new: AppState, acts: Seq<Action>) -> bool {
    match cmd {
        MenuCommand::SetOutputMode(mode) => {
            &&& new == (AppState { config: Config { output_mode: mode, ..old.config }, ..old })
            &&& acts == seq![Action::SaveConfig, Action::RebuildTray]
        },
        MenuCommand::SetHotkey(h) => {
            &&& new == (AppState { config: Config { hotkey: h, ..old.config }, ..old })
            &&& acts == seq![Action::SaveConfig, Action::SelfRestart]
        },
        MenuCommand::SetTier(t) => if old.download_progress is Some {
            &&& new == old
            &&& acts == Seq::<Action>::empty()
        } else {
            &&& new == (AppState { config: Config { selected_tier: t, ..old.config }, ..old })
            &&& acts.len() == 2
            &&& acts[0] == Action::SaveConfig
            &&& checks_model(acts[1], ModelCheck::TierChange, t.spec_whisper_model())
        },
        MenuCommand::ToggleLanguage(code) => if code@ == "en"@ {
            &&& new == old
            &&& acts == Seq::<Action>::empty()
        } else {
            &&& new == (AppState { config: Config { languages: new.config.languages, ..old.config }, ..old })
            &&& new.config.langs() == toggled_languages(old.config.langs(), code@)
            &&& acts == seq![Action::SaveConfig, Action::RebuildTray]
        },
        MenuCommand::OpenWebsite => {
            &&& new == old
            &&& acts.len() == 1
            &&& acts[0] matches Action::OpenUrl(u) && u@ == WEBSITE_URL@
        },
    }
}

/// The state and effects after an event, as a function of the state before.
pub open spec fn event_outcome(old: AppState, event: AppEvent, new: AppState, acts: Seq<Action>) -> bool {
    match event {
        AppEvent::HotkeyPressed => {
            &&& new == old
            &&& acts == if old.recording_state != RecordingState::Idle || !old.transcriber_ready {
                Seq::<Action>::empty()
            } else if !old.permissions.microphone {
                seq![Action::PlayStopSound]
            } else {
                seq![Action::StartCapture]
            }
        },
        AppEvent::HotkeyReleased => if old.recording_state == RecordingState::Recording {
            &&& new == (AppState { recording_state: RecordingState::Transcribing, ..old })
            &&& acts.len() == 4
            &&& acts[0] == Action::PlayStopSound
            &&& acts[1] == Action::StopCapture
            &&& acts[2] == Action::RebuildTray
            &&& acts[3] matches Action::Transcribe(l) && texts(l@) == old.config.langs()
        } else {
            &&& new == old
            &&& acts == Seq::<Action>::empty()
        },
        AppEvent::TranscriptionComplete(text) => {
            &&& new == old
            &&& acts == seq![Action::CopyToClipboard(text)]
        },
        AppEvent::TranscriptionError(_) => {
            &&& new == (AppState { recording_state: RecordingState::Idle, ..old })
            &&& acts == seq![Action::ResetTrayIcon, Action::RebuildTray]
        },
        AppEvent::TranscriberReady => match old.pending_model {
            Some(m) => {
                &&& new == (AppState {
                    transcriber_ready: true,
                    loaded_model: m,
                    pending_model: None,
                    ..old
                })
                &&& acts == seq![Action::SwapTranscriber, Action::RebuildTray]
            },
            None => {
                &&& new == (AppState { transcriber_ready: true, ..old })
                &&& if old.loaded_model@ == BOOTSTRAP_MODEL@ && target_model(old)
                    != old.loaded_model@ && !old.upgrading_backend {
                    &&& acts.len() == 2
                    &&& acts[0] == Action::RebuildTray
                    &&& checks_model(acts[1], ModelCheck::Upgrade, target_model(old))
                } else {
                    acts == seq![Action::RebuildTray]
                }
            },
        },
        AppEvent::ModelDownloadProgress(model, pct) => {
            &&& new == (AppState { download_progress: Some((model, pct)), ..old })
            &&& if old.download_progress is None {
                acts == seq![Action::RebuildTray]
            } else {
                &&& acts.len() == 1
                &&& acts[0] matches Action::UpdateTrayProgress(p, name) && p == pct
                    && name@ == old.config.selected_tier.spec_display_name()
            }
        },
        AppEvent::ModelDownloadComplete(_) => {
            &&& new == (AppState { download_progress: None, ..old })
            &&& acts == if old.pending_restart {
                seq![Action::SelfRestart]
            } else {
                seq![Action::RebuildTray]
            }
        },
        AppEvent::BackendUpgradeReady => {
            &&& new == (AppState {
                upgrading_backend: false,
                download_progress: None,
                pending_model: new.pending_model,
                ..old
            })
            &&& new.pending_model matches Some(m) && m@ == target_model(old)
            &&& acts.len() == 2
            &&& acts[0] == Action::RebuildTray
            &&& acts[1] matches Action::StartTranscriber(c) && is_backend_for(
                c,
                old.config.selected_tier,
                old.config.langs(),
                old.fluid_audio_available,
            )
        },
        AppEvent::Menu(cmd) => menu_outcome(old, cmd, new, acts),
        AppEvent::Quit => {
            &&& new == old
            &&& acts == seq![Action::Exit]
        },
    }
}

/// The state and effects after the outcome of an action comes back.
pub open spec fn feedback_outcome(old: AppState, fb: Feedback, new: AppState, acts: Seq<Action>) -> bool {
    match fb {
        Feedback::CaptureStarted(ok) => if ok {
            &&& new == (AppState { recording_state: RecordingState::Recording, ..old })
            &&& acts == seq![Action::PlayStartSound, Action::RebuildTray]
        } else {
            &&& new == old
            &&& acts == seq![Action::PlayStopSound]
        },
        Feedback::ClipboardWritten(ok) => {
            &&& new == (AppState { recording_state: RecordingState::Idle, ..old })
            &&& acts == if ok && old.config.output_mode == OutputMode::PasteAtCursor
                && old.permissions.accessibility {
                seq![Action::PasteAtCursor, Action::RebuildTray]
            } else {
                seq![Action::RebuildTray]
            }
        },
        Feedback::ModelPresent(ModelCheck::Upgrade, present) => if present {
            &&& new == old
            &&& acts == seq![Action::SendEvent(AppEvent::BackendUpgradeReady)]
        } else {
            &&& new == (AppState { upgrading_backend: true, ..old })
            &&& acts.len() == 1
            &&& acts[0] matches Action::SpawnUpgrade(m) && m@ == target_model(old)
        },
        Feedback::ModelPresent(ModelCheck::TierChange, present) => if present {
            &&& new == old
            &&& acts == seq![Action::SelfRestart]
        } else {
            &&& new == (AppState {
                pending_restart: true,
                download_progress: new.download_progress,
                ..old
            })
            &&& new.download_progress matches Some((m, p)) && m@ == target_model(old) && p == 0
            &&& acts.len() == 2
            &&& acts[0] == Action::RebuildTray
            &&& acts[1] matches Action::SpawnDownload(m) && m@ == target_model(old)
        },
    }
}

/// A list holding one action.
fn one_action(a: Action) -> (v: Vec<Action>)
    ensures
        v@ == seq![a],
{
    let mut v = Vec::new();
    v.push(a);
    assert(v@ =~= seq![a]);
    v
}

/// The permissions after the system reported `microphone` and `accessibility`
/// as granted or not, and the prompt to show: the microphone first, then
/// accessibility once the microphone is granted, each at most once.
pub open spec fn permissions_after(p: Permissions, microphone: bool, accessibility: bool) -> (
    Permissions,
    Option<PermissionPrompt>,
) {
    let prompt = if !microphone && !p.prompted_mic {
        Some(PermissionPrompt::Microphone)
    } else if microphone && !accessibility && !p.prompted_accessibility {
        Some(PermissionPrompt::Accessibility)
    } else {
        None
    };
    (
        Permissions {
            microphone,
            accessibility,
            prompted_mic: p.prompted_mic || prompt == Some(PermissionPrompt::Microphone),
            prompted_accessibility: p.prompted_accessibility || prompt == Some(
                PermissionPrompt::Accessibility,
            ),
        },
        prompt,
    )
}

/// Whether both the microphone and accessibility are granted.
pub fn all_permissions_granted(state: &AppState) -> (r: bool)
    ensures
        r == (state.permissions.microphone && state.permissions.accessibility),
{
    state.permissions.microphone && state.permissions.accessibility
}

/// Whether the event loop must wake up periodically: to animate the icon
/// while busy, or to poll for permissions not yet granted.
pub fn needs_periodic_wakeup(state: &AppState) -> (r: bool)
    ensures
        r == (state.recording_state != RecordingState::Idle || !(state.permissions.microphone
            && state.permissions.accessibility)),
{
    state.recording_state != RecordingState::Idle || !all_permissions_granted(state)
}

/// How often missing permissions are polled, in milliseconds.
pub const PERMISSION_POLL_MS: u64 = 2000;

/// Whether the permissions must be polled again, `elapsed_ms` after the last
/// poll: only while one is missing, and at most every [`PERMISSION_POLL_MS`].
pub fn permission_poll_due(state: &AppState, elapsed_ms: u64) -> (r: bool)
    ensures
        r == (!(state.permissions.microphone && state.permissions.accessibility) && elapsed_ms
            >= PERMISSION_POLL_MS),
{
    !all_permissions_granted(state) && elapsed_ms >= PERMISSION_POLL_MS
}

/// Records what the system reports as granted and picks the next prompt: the
/// microphone first, then accessibility, each shown at most once. Returns
/// whether a grant changed, and the prompt to show.
pub fn check_permissions(state: &mut AppState, microphone: bool, accessibility: bool) -> (r: (
    bool,
    Option<PermissionPrompt>,
))
    ensures
        r.0 == (microphone != old(state).permissions.microphone || accessibility != old(
            state,
        ).permissions.accessibility),
        (final(state).permissions, r.1) == permissions_after(
            old(state).permissions,
            microphone,
            accessibility,
        ),
        *final(state) == (AppState { permissions: final(state).permissions, ..*old(state) }),
{
    let mut changed = false;
    if microphone != state.permissions.microphone {
        state.permissions.microphone = microphone;
        changed = true;
    }
    if accessibility != state.permissions.accessibility {
        state.permissions.accessibility = accessibility;
        changed = true;
    }
    let mut prompt = None;
    if !state.permissions.microphone && !state.permissions.prompted_mic {
        prompt = Some(PermissionPrompt::Microphone);
        state.permissions.prompted_mic = true;
    } else if state.permissions.microphone && !state.permissions.accessibility
        && !state.permissions.prompted_accessibility {
        prompt = Some(PermissionPrompt::Accessibility);
        state.permissions.prompted_accessibility = true;
    }
    (changed, prompt)
}

/// Applies a menu command to the settings.
pub fn handle_menu_command(state: &mut AppState, cmd: MenuCommand) -> (acts: Vec<Action>)
    ensures
        menu_outcome(*old(state), cmd, *final(state), acts@),
{
    match cmd {
        MenuCommand::SetOutputMode(mode) => {
            state.config.output_mode = mode;
            vec![Action::SaveConfig, Action::RebuildTray]
        },
        MenuCommand::SetHotkey(hotkey) => {
            state.config.hotkey = hotkey;
            vec![Action::SaveConfig, Action::SelfRestart]
        },
        MenuCommand::SetTier(tier) => {
            if state.download_progress.is_some() {
                return Vec::new();
            }
            state.config.selected_tier = tier;
            let model = String::from_str(tier.whisper_model());
            vec![Action::SaveConfig, Action::CheckModel(ModelCheck::TierChange, model)]
        },
        MenuCommand::ToggleLanguage(code) => {
            if state.config.toggle_language(code) {
                vec![Action::SaveConfig, Action::RebuildTray]
            } else {
                Vec::new()
            }
        },
        MenuCommand::OpenWebsite => one_action(Action::OpenUrl(String::from_str(WEBSITE_URL))),
    }
}

/// Decides the reaction to an event.
pub fn handle_event(state: &mut AppState, event: AppEvent) -> (acts: Vec<Action>)
    ensures
        event_outcome(*old(state), event, *final(state), acts@),
{
    match event {
        AppEvent::HotkeyPressed => {
            if state.recording_state != RecordingState::Idle || !state.transcriber_ready {
                Vec::new()
            } else if !state.permissions.microphone {
                one_action(Action::PlayStopSound)
            } else {
                one_action(Action::StartCapture)
            }
        },
        AppEvent::HotkeyReleased => {
            if state.recording_state != RecordingState::Recording {
                return Vec::new();
            }
            state.recording_state = RecordingState::Transcribing;
            let languages = state.config.languages.clone();
            assert(languages@ =~= state.config.languages@);
            vec![
                Action::PlayStopSound,
                Action::StopCapture,
                Action::RebuildTray,
                Action::Transcribe(languages),
            ]
        },
        AppEvent::TranscriptionComplete(text) => one_action(Action::CopyToClipboard(text)),
        AppEvent::TranscriptionError(_) => {
            state.recording_state = RecordingState::Idle;
            vec![Action::ResetTrayIcon, Action::RebuildTray]
        },
        AppEvent::TranscriberReady => {
            state.transcriber_ready = true;
            match state.pending_model.take() {
                Some(m) => {
                    state.loaded_model = m;
                    vec![Action::SwapTranscriber, Action::RebuildTray]
                },
                None => {
                    let target = state.config.selected_tier.whisper_model();
                    let on_bootstrap = crate::text::same_text(
                        state.loaded_model.as_str(),
                        BOOTSTRAP_MODEL,
                    );
                    let is_target = crate::text::same_text(state.loaded_model.as_str(), target);
                    if on_bootstrap && !is_target && !state.upgrading_backend {
                        vec![
                            Action::RebuildTray,
                            Action::CheckModel(ModelCheck::Upgrade, String::from_str(target)),
                        ]
                    } else {
                        one_action(Action::RebuildTray)
                    }
                },
            }
        },
        AppEvent::ModelDownloadProgress(model, pct) => {
            let first = state.download_progress.is_none();
            state.download_progress = Some((model, pct));
            if first {
                one_action(Action::RebuildTray)
            } else {
                let name = String::from_str(state.config.selected_tier.display_name());
                one_action(Action::UpdateTrayProgress(pct, name))
            }
        },
        AppEvent::ModelDownloadComplete(_) => {
            state.download_progress = None;
            if state.pending_restart {
                one_action(Action::SelfRestart)
            } else {
                one_action(Action::RebuildTray)
            }
        },
        AppEvent::BackendUpgradeReady => {
            let target = state.config.selected_tier.whisper_model();
            state.upgrading_backend = false;
            state.download_progress = None;
            state.pending_model = Some(String::from_str(target));
            let choice = resolve_backend(
                &state.config.selected_tier,
                state.config.languages.as_slice(),
                state.fluid_audio_available,
            );
            vec![Action::RebuildTray, Action::StartTranscriber(choice)]
        },
        AppEvent::Menu(cmd) => handle_menu_command(state, cmd),
        AppEvent::Quit => one_action(Action::Exit),
    }
}

/// Decides the reaction to the outcome of an action.
pub fn handle_feedback(state: &mut AppState, fb: Feedback) -> (acts: Vec<Action>)
    ensures
        feedback_outcome(*old(state), fb, *final(state), acts@),
{
    match fb {
        Feedback::CaptureStarted(ok) => {
            if ok {
                state.recording_state = RecordingState::Recording;
                vec![Action::PlayStartSound, Action::RebuildTray]
            } else {
                one_action(Action::PlayStopSound)
            }
        },
        Feedback::ClipboardWritten(ok) => {
            let paste = ok && state.config.output_mode == OutputMode::PasteAtCursor
                && state.permissions.accessibility;
            state.recording_state = RecordingState::Idle;
            if paste {
                vec![Action::PasteAtCursor, Action::RebuildTray]
            } else {
                one_action(Action::RebuildTray)
            }
        },
        Feedback::ModelPresent(ModelCheck::Upgrade, present) => {
            if present {
                one_action(Action::SendEvent(AppEvent::BackendUpgradeReady))
            } else {
                state.upgrading_backend = true;
                let target = String::from_str(state.config.selected_tier.whisper_model());
                one_action(Action::SpawnUpgrade(target))
            }
        },
        Feedback::ModelPresent(ModelCheck::TierChange, present) => {
            if present {
                one_action(Action::SelfRestart)
            } else {
                let model = state.config.selected_tier.whisper_model();
                state.pending_restart = true;
                state.download_progress = Some((String::from_str(model), 0));
                vec![Action::RebuildTray, Action::SpawnDownload(String::from_str(model))]
            }
        },
    }
}


/// Each permission prompt is shown at most once: after a check that prompted
/// for a permission, no later check prompts for it again.
pub proof fn lemma_prompt_at_most_once(
    p: Permissions,
    mic1: bool,
    acc1: bool,
    later: Permissions,
    mic2: bool,
    acc2: bool,
)
    requires
        later.prompted_mic || !permissions_after(p, mic1, acc1).0.prompted_mic,
        later.prompted_accessibility || !permissions_after(p, mic1, acc1).0.prompted_accessibility,
    ensures
        permissions_after(p, mic1, acc1).1 == Some(PermissionPrompt::Microphone)
            ==> permissions_after(later, mic2, acc2).1 != Some(PermissionPrompt::Microphone),
        permissions_after(p, mic1, acc1).1 == Some(PermissionPrompt::Accessibility)
            ==> permissions_after(later, mic2, acc2).1 != Some(PermissionPrompt::Accessibility),
{
}

/// Audio capture is started only from an idle state, with the model loaded and
/// the microphone granted.
pub proof fn lemma_capture_only_when_ready(old: AppState, event: AppEvent, new: AppState, acts: Seq<Action>)
    requires
        event_outcome(old, event, new, acts),
        acts.contains(Action::StartCapture),
    ensures
        old.recording_state == RecordingState::Idle,
        old.transcriber_ready,
        old.permissions.microphone,
{
    let i: int = choose|i: int| 0 <= i < acts.len() && acts[i] == Action::StartCapture;
    assert(acts[i] == Action::StartCapture);
}

/// Audio is transcribed only at the end of a recording, which moves the state
/// to transcribing.
pub proof fn lemma_transcribe_only_after_recording(
    old: AppState,
    event: AppEvent,
    new: AppState,
    acts: Seq<Action>,
    i: int,
)
    requires
        event_outcome(old, event, new, acts),
        0 <= i < acts.len(),
        acts[i] is Transcribe,
    ensures
        old.recording_state == RecordingState::Recording,
        new.recording_state == RecordingState::Transcribing,
{
}

/// The outcome of an action never changes the settings.
pub proof fn lemma_feedback_keeps_settings(old: AppState, fb: Feedback, new: AppState, acts: Seq<Action>)
    requires
        feedback_outcome(old, fb, new, acts),
    ensures
        new.config == old.config,
{
}

/// Each menu command changes only the setting it names, to the value it
/// carries, and leaves the rest of the state as it was: the output mode and
/// hotkey become exactly the chosen ones (whatever they were before), a tier
/// is taken unless a download is running, toggling a language other than
/// English flips whether it is preferred, English stays, and opening the
/// website changes nothing and opens the landing page.
pub proof fn lemma_menu_command_sets_what_it_names(
    old: AppState,
    cmd: MenuCommand,
    new: AppState,
    acts: Seq<Action>,
)
    requires
        menu_outcome(old, cmd, new, acts),
    ensures
        new == (AppState { config: new.config, ..old }),
        new.config.selected_model == old.config.selected_model,
        cmd matches MenuCommand::SetOutputMode(m) ==> {
            &&& new.config.output_mode == m
            &&& new.config.hotkey == old.config.hotkey
            &&& new.config.selected_tier == old.config.selected_tier
            &&& new.config.langs() == old.config.langs()
            &&& acts.contains(Action::SaveConfig)
        },
        cmd matches MenuCommand::SetHotkey(h) ==> {
            &&& new.config.hotkey == h
            &&& new.config.output_mode == old.config.output_mode
            &&& new.config.selected_tier == old.config.selected_tier
            &&& new.config.langs() == old.config.langs()
            &&& acts.contains(Action::SaveConfig)
        },
        cmd matches MenuCommand::SetTier(t) ==> if old.download_progress is None {
            &&& new.config.selected_tier == t
            &&& new.config.output_mode == old.config.output_mode
            &&& new.config.hotkey == old.config.hotkey
            &&& new.config.langs() == old.config.langs()
            &&& acts.contains(Action::SaveConfig)
        } else {
            &&& new == old
            &&& acts.len() == 0
        },
        cmd matches MenuCommand::ToggleLanguage(code) ==> {
            &&& new.config.output_mode == old.config.output_mode
            &&& new.config.hotkey == old.config.hotkey
            &&& new.config.selected_tier == old.config.selected_tier
            &&& (code@ == "en"@ ==> new == old && acts.len() == 0)
            &&& (code@ != "en"@ && old.config.langs().no_duplicates() ==> new.config.langs().contains(
                code@,
            ) == !old.config.langs().contains(code@))
        },
        cmd is OpenWebsite ==> {
            &&& new == old
            &&& acts.len() == 1
            &&& acts[0] matches Action::OpenUrl(u) && u@ == "https://anubhavitis.github.io/murmur/"@
        },
{
    match cmd {
        MenuCommand::SetOutputMode(_) => {
            assert(acts[0] == Action::SaveConfig);
        },
        MenuCommand::SetHotkey(_) => {
            assert(acts[0] == Action::SaveConfig);
        },
        MenuCommand::SetTier(_) => {
            if old.download_progress is None {
                assert(acts[0] == Action::SaveConfig);
            }
        },
        MenuCommand::ToggleLanguage(code) => {
            if code@ != "en"@ && old.config.langs().no_duplicates() {
                lemma_toggle_flips_membership(old.config.langs(), code@);
            }
        },
        MenuCommand::OpenWebsite => {},
    }
}

/// Every change of the settings is written to disk.
pub proof fn lemma_settings_changes_saved(old: AppState, event: AppEvent, new: AppState, acts: Seq<Action>)
    requires
        event_outcome(old, event, new, acts),
        new.config != old.config,
    ensures
        acts.contains(Action::SaveConfig),
{
    assert(acts[0] == Action::SaveConfig);
}

/// Hold, speak, release: from an idle state with the model loaded and the
/// microphone granted, a press, a successful capture, a release, a transcript
/// and a successful clipboard write bring the state back to idle with the same
/// settings; the transcript goes to the clipboard, and is pasted exactly when
/// the output mode is paste-at-cursor and accessibility is granted.
pub proof fn lemma_dictation_cycle(
    s0: AppState,
    s1: AppState,
    a1: Seq<Action>,
    s2: AppState,
    a2: Seq<Action>,
    s3: AppState,
    a3: Seq<Action>,
    text: String,
    s4: AppState,
    a4: Seq<Action>,
    s5: AppState,
    a5: Seq<Action>,
)
    requires
        s0.recording_state == RecordingState::Idle,
        s0.transcriber_ready,
        s0.permissions.microphone,
        event_outcome(s0, AppEvent::HotkeyPressed, s1, a1),
        feedback_outcome(s1, Feedback::CaptureStarted(true), s2, a2),
        event_outcome(s2, AppEvent::HotkeyReleased, s3, a3),
        event_outcome(s3, AppEvent::TranscriptionComplete(text), s4, a4),
        feedback_outcome(s4, Feedback::ClipboardWritten(true), s5, a5),
    ensures
        a1 == seq![Action::StartCapture],
        s2.recording_state == RecordingState::Recording,
        s3.recording_state == RecordingState::Transcribing,
        a3[3] matches Action::Transcribe(l) && texts(l@) == s0.config.langs(),
        a4 == seq![Action::CopyToClipboard(text)],
        s5.recording_state == RecordingState::Idle,
        s5.config == s0.config,
        a5.contains(Action::PasteAtCursor) == (s0.config.output_mode == OutputMode::PasteAtCursor
            && s0.permissions.accessibility),
{
    if s0.config.output_mode == OutputMode::PasteAtCursor && s0.permissions.accessibility {
        assert(a5[0] == Action::PasteAtCursor);
    } else {
        assert(a5 == seq![Action::RebuildTray]);
        if a5.contains(Action::PasteAtCursor) {
            let i: int = choose|i: int| 0 <= i < a5.len() && a5[i] == Action::PasteAtCursor;
            assert(a5[i] == Action::RebuildTray);
        }
    }
}


/// Once a tier's missing model is being downloaded, another tier change is
/// ignored until the download ends, so two downloads never race.
pub proof fn lemma_no_second_download(
    s0: AppState,
    s1: AppState,
    a1: Seq<Action>,
    t: Tier,
    s2: AppState,
    a2: Seq<Action>,
)
    requires
        feedback_outcome(s0, Feedback::ModelPresent(ModelCheck::TierChange, false), s1, a1),
        event_outcome(s1, AppEvent::Menu(MenuCommand::SetTier(t)), s2, a2),
    ensures
        s2 == s1,
        a2.len() == 0,
{
}

/// Once the tier's model is being fetched in the background, the bootstrap
/// transcriber becoming ready again does not start a second fetch.
pub proof fn lemma_single_background_upgrade(
    s0: AppState,
    s1: AppState,
    a1: Seq<Action>,
    s2: AppState,
    a2: Seq<Action>,
)
    requires
        s0.pending_model is None,
        feedback_outcome(s0, Feedback::ModelPresent(ModelCheck::Upgrade, false), s1, a1),
        event_outcome(s1, AppEvent::TranscriberReady, s2, a2),
    ensures
        a2 == seq![Action::RebuildTray],
        s2.upgrading_backend,
{
}

/// No tier's model is the bootstrap model.
pub proof fn lemma_tier_model_not_bootstrap(t: Tier)
    ensures
        t.spec_whisper_model() != BOOTSTRAP_MODEL@,
{
    reveal_strlit("tiny.en");
    reveal_strlit("small");
    reveal_strlit("medium");
    reveal_strlit("large-v3");
    assert(BOOTSTRAP_MODEL@.len() == 7);
}

/// While the tier's model loads, the running transcriber keeps serving: the
/// upgrade changes neither readiness, nor the recording, nor the model in use.
pub proof fn lemma_upgrade_keeps_serving(old: AppState, new: AppState, acts: Seq<Action>)
    requires
        event_outcome(old, AppEvent::BackendUpgradeReady, new, acts),
    ensures
        new.transcriber_ready == old.transcriber_ready,
        new.recording_state == old.recording_state,
        new.loaded_model == old.loaded_model,
        !acts.contains(Action::SwapTranscriber),
{
    if acts.contains(Action::SwapTranscriber) {
        let i: int = choose|i: int| 0 <= i < acts.len() && acts[i] == Action::SwapTranscriber;
        assert(acts[i] == Action::SwapTranscriber);
    }
}

/// The upgrade happens once: when the tier's transcriber becomes ready it
/// takes over, and from then on a ready transcriber starts no further upgrade.
pub proof fn lemma_upgrade_happens_once(
    s0: AppState,
    s1: AppState,
    a1: Seq<Action>,
    s2: AppState,
    a2: Seq<Action>,
    s3: AppState,
    a3: Seq<Action>,
)
    requires
        event_outcome(s0, AppEvent::BackendUpgradeReady, s1, a1),
        event_outcome(s1, AppEvent::TranscriberReady, s2, a2),
        event_outcome(s2, AppEvent::TranscriberReady, s3, a3),
    ensures
        s2.loaded_model@ == target_model(s0),
        s2.transcriber_ready,
        a2 == seq![Action::SwapTranscriber, Action::RebuildTray],
        a3 == seq![Action::RebuildTray],
{
    lemma_tier_model_not_bootstrap(s0.config.selected_tier);
}

} // verus!
