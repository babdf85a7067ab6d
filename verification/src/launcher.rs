use vstd::prelude::*;

use crate::chars::{push_str_chars, string_from_chars};
use crate::cli::{
    apply_flag, cli_args_of, default_cli_args, flag_string, flag_text, flag_text_is_read_back,
    non_empty, parse_from, takes_value, CliArgsView, FloatArg, OverlayFlag, OverlayRunMode,
    OVERLAY_CONTROL_PORT, bool_of, color_of, default_border_color,
};
use crate::providers::{
    completion_action_label, completion_action_name, ocr_provider_label, ocr_provider_name,
    overlay_language_of,
};
use crate::settings::{string_or_empty, text_or_empty, Settings, SettingsView};
use crate::text::{decimal, decimal_reads_back, decimal_string, push_decimal};

verus! {

/// The float options the resident overlay is started with, each as the text the desktop
/// shell writes for it.
#[derive(Debug)]
pub struct ResidentFloatTexts {
    pub mask_opacity: String,
    pub magnifier_scale: String,
    pub pin_opacity: String,
    pub pin_zoom_step: String,
}

/// How a `bool` is written: `true` or `false`.
pub open spec fn bool_text(b: bool) -> Seq<char> {
    if b {
        "true"@
    } else {
        "false"@
    }
}

pub(crate) fn bool_string(b: bool) -> (r: String)
    ensures
        r@ == bool_text(b),
{
    if b {
        "true".to_owned()
    } else {
        "false".to_owned()
    }
}

/// The command line the desktop shell starts the resident overlay with: capture mode,
/// resident, the control port, and the capture, magnifier, pin and OCR options of the
/// settings; an absent OCR text is written empty.
pub open spec fn resident_args_of(
    s: SettingsView,
    mask_opacity: Seq<char>,
    magnifier_scale: Seq<char>,
    pin_opacity: Seq<char>,
    pin_zoom_step: Seq<char>,
    registry: Option<Seq<char>>,
) -> Seq<Seq<char>> {
    seq![
        flag_text(OverlayFlag::Capture),
        flag_text(OverlayFlag::Resident),
        flag_text(OverlayFlag::ControlPort),
        decimal(OVERLAY_CONTROL_PORT as nat),
        flag_text(OverlayFlag::Language),
        s.interface.language,
        flag_text(OverlayFlag::Float(FloatArg::MaskOpacity)),
        mask_opacity,
        flag_text(OverlayFlag::BorderColor),
        s.capture.border_color,
        flag_text(OverlayFlag::ShowSizeLabel),
        bool_text(s.capture.show_size_label),
        flag_text(OverlayFlag::ShowToolbar),
        bool_text(s.capture.show_toolbar),
        flag_text(OverlayFlag::ShowMagnifier),
        bool_text(s.overlay.show_magnifier),
        flag_text(OverlayFlag::Float(FloatArg::MagnifierScale)),
        magnifier_scale,
        flag_text(OverlayFlag::PinHotkey),
        s.hotkeys.pin_selection,
        flag_text(OverlayFlag::CompletionAction),
        completion_action_label(s.capture.completion_action),
        flag_text(OverlayFlag::Float(FloatArg::PinOpacity)),
        pin_opacity,
        flag_text(OverlayFlag::Float(FloatArg::PinZoomStep)),
        pin_zoom_step,
        flag_text(OverlayFlag::PinAlwaysOnTop),
        bool_text(s.pin.always_on_top),
        flag_text(OverlayFlag::OcrProvider),
        ocr_provider_label(s.ocr.provider),
        flag_text(OverlayFlag::OcrLanguageHint),
        text_or_empty(s.ocr.language_hint),
        flag_text(OverlayFlag::OcrDefaultModelId),
        text_or_empty(s.ocr.default_model_id),
        flag_text(OverlayFlag::OcrModelsRegistry),
        text_or_empty(registry),
    ]
}

/// The command line the desktop shell starts the resident overlay with.
pub fn resident_overlay_args(
    settings: &Settings,
    floats: &ResidentFloatTexts,
    model_registry_path: Option<&str>,
) -> (r: Vec<String>)
    ensures
        r@.map_values(|a: String| a@) == resident_args_of(
            settings@,
            floats.mask_opacity@,
            floats.magnifier_scale@,
            floats.pin_opacity@,
            floats.pin_zoom_step@,
            match model_registry_path {
                Some(p) => Some(p@),
                None => None,
            },
        ),
{
    let registry: Option<String> = match model_registry_path {
        Some(p) => Some(p.to_owned()),
        None => None,
    };
    let mut r: Vec<String> = Vec::new();
    r.push(flag_string(OverlayFlag::Capture));
    r.push(flag_string(OverlayFlag::Resident));
    r.push(flag_string(OverlayFlag::ControlPort));
    r.push(decimal_string(OVERLAY_CONTROL_PORT as u128));
    r.push(flag_string(OverlayFlag::Language));
    r.push(settings.interface.language.clone());
    r.push(flag_string(OverlayFlag::Float(FloatArg::MaskOpacity)));
    r.push(floats.mask_opacity.clone());
    r.push(flag_string(OverlayFlag::BorderColor));
    r.push(settings.capture.border_color.clone());
    r.push(flag_string(OverlayFlag::ShowSizeLabel));
    r.push(bool_string(settings.capture.show_size_label));
    r.push(flag_string(OverlayFlag::ShowToolbar));
    r.push(bool_string(settings.capture.show_toolbar));
    r.push(flag_string(OverlayFlag::ShowMagnifier));
    r.push(bool_string(settings.overlay.show_magnifier));
    r.push(flag_string(OverlayFlag::Float(FloatArg::MagnifierScale)));
    r.push(floats.magnifier_scale.clone());
    r.push(flag_string(OverlayFlag::PinHotkey));
    r.push(settings.hotkeys.pin_selection.clone());
    r.push(flag_string(OverlayFlag::CompletionAction));
    r.push(completion_action_name(&settings.capture.completion_action));
    r.push(flag_string(OverlayFlag::Float(FloatArg::PinOpacity)));
    r.push(floats.pin_opacity.clone());
    r.push(flag_string(OverlayFlag::Float(FloatArg::PinZoomStep)));
    r.push(floats.pin_zoom_step.clone());
    r.push(flag_string(OverlayFlag::PinAlwaysOnTop));
    r.push(bool_string(settings.pin.always_on_top));
    r.push(flag_string(OverlayFlag::OcrProvider));
    r.push(ocr_provider_name(&settings.ocr.provider));
    r.push(flag_string(OverlayFlag::OcrLanguageHint));
    r.push(string_or_empty(&settings.ocr.language_hint));
    r.push(flag_string(OverlayFlag::OcrDefaultModelId));
    r.push(string_or_empty(&settings.ocr.default_model_id));
    r.push(flag_string(OverlayFlag::OcrModelsRegistry));
    r.push(string_or_empty(&registry));
    assert(r@.map_values(|a: String| a@) =~= resident_args_of(
        settings@,
        floats.mask_opacity@,
        floats.magnifier_scale@,
        floats.pin_opacity@,
        floats.pin_zoom_step@,
        registry.deep_view(),
    ));
    r
}

/// What the desktop shell knows of the resident overlay process it started.
#[derive(Debug)]
pub enum OverlayProcess {
    /// No process was started.
    NotStarted,
    /// The started process still runs.
    Running,
    /// The started process has exited.
    Exited,
    /// Asking the started process whether it exited failed, with this reason.
    ProbeFailed(String),
}

/// What making sure the resident overlay is up comes to.
#[derive(Debug)]
pub enum ResidentPlan {
    /// The overlay already answers; nothing is done.
    AlreadyReady,
    /// A new overlay process is started and waited for; the started process is stopped
    /// first when it still runs, and forgotten when it has exited.
    Start { stop_previous: bool },
    /// The started process could not be asked about; this is the error.
    Fail(String),
}

/// Makes sure the resident overlay is up: nothing when it answers; otherwise a new
/// process is started (a started one that still runs is stopped first), unless the
/// started process cannot be asked whether it exited.
pub fn ensure_overlay_resident(server_ready: bool, known: OverlayProcess) -> (r: ResidentPlan)
    ensures
        server_ready ==> r is AlreadyReady,
        !server_ready ==> match known {
            OverlayProcess::NotStarted => r == ResidentPlan::Start { stop_previous: false },
            OverlayProcess::Exited => r == ResidentPlan::Start { stop_previous: false },
            OverlayProcess::Running => r == ResidentPlan::Start { stop_previous: true },
            OverlayProcess::ProbeFailed(e) => r == ResidentPlan::Fail(e),
        },
{
    if server_ready {
        return ResidentPlan::AlreadyReady;
    }
    match known {
        OverlayProcess::NotStarted => ResidentPlan::Start { stop_previous: false },
        OverlayProcess::Exited => ResidentPlan::Start { stop_previous: false },
        OverlayProcess::Running => ResidentPlan::Start { stop_previous: true },
        OverlayProcess::ProbeFailed(e) => ResidentPlan::Fail(e),
    }
}

/// How long the desktop shell waits for a freshly started overlay to answer.
pub const OVERLAY_READY_TIMEOUT_MS: u64 = 15000;

/// How long the desktop shell pauses between two checks of a starting overlay.
pub const OVERLAY_READY_POLL_MS: u64 = 30;

/// What the desktop shell learns while it waits for the overlay.
#[derive(Debug)]
pub enum WaitEvent {
    /// This many milliseconds have passed since the wait began.
    Tick(u64),
    /// The overlay answered a ping, or did not.
    ServerAnswered(bool),
    /// The overlay process still runs.
    ProcessRunning,
    /// The overlay process exited, with this status.
    ProcessExited(String),
    /// Asking the overlay process whether it exited failed, with this reason.
    ProcessProbeFailed(String),
}

/// What the desktop shell does next while it waits for the overlay.
#[derive(Debug)]
pub enum WaitAction {
    /// Ping the overlay.
    PingServer,
    /// Ask the started overlay process whether it exited.
    CheckProcess,
    /// Pause this many milliseconds, then tell the time.
    Sleep(u64),
    /// The wait is over, with this outcome.
    Finish(Result<(), String>),
}

/// The message when the overlay exited before it answered.
pub open spec fn exited_before_ready_message(status: Seq<char>) -> Seq<char> {
    "resident screenshot overlay exited before becoming ready: "@ + status
}

/// The message when the overlay did not answer in time.
pub open spec fn not_ready_message(timeout_ms: nat) -> Seq<char> {
    "resident screenshot overlay did not become ready within "@ + decimal(timeout_ms) + " ms"@
}

/// One step of waiting for a starting overlay: while time is left, ping it; when it
/// answers, the wait succeeds; when it does not, check the started process (if there
/// is one), which fails the wait if it exited or cannot be asked, and otherwise pause
/// before the next check; once the time is up, the wait fails.
pub fn wait_for_overlay_server(event: WaitEvent, timeout_ms: u64, has_process: bool) -> (r: WaitAction)
    ensures
        match event {
            WaitEvent::Tick(elapsed) => if elapsed < timeout_ms {
                r is PingServer
            } else {
                r matches WaitAction::Finish(Err(m)) && m@ == not_ready_message(timeout_ms as nat)
            },
            WaitEvent::ServerAnswered(true) => r == WaitAction::Finish(Ok(())),
            WaitEvent::ServerAnswered(false) => if has_process {
                r is CheckProcess
            } else {
                r == WaitAction::Sleep(OVERLAY_READY_POLL_MS)
            },
            WaitEvent::ProcessRunning => r == WaitAction::Sleep(OVERLAY_READY_POLL_MS),
            WaitEvent::ProcessExited(status) => r matches WaitAction::Finish(Err(m))
                && m@ == exited_before_ready_message(status@),
            WaitEvent::ProcessProbeFailed(e) => r == WaitAction::Finish(Err(e)),
        },
{
    match event {
        WaitEvent::Tick(elapsed) => {
            if elapsed < timeout_ms {
                WaitAction::PingServer
            } else {
                let mut v: Vec<char> = Vec::new();
                push_str_chars(&mut v, "resident screenshot overlay did not become ready within ");
                push_decimal(&mut v, timeout_ms as u128);
                push_str_chars(&mut v, " ms");
                WaitAction::Finish(Err(string_from_chars(&v)))
            }
        },
        WaitEvent::ServerAnswered(ready) => {
            if ready {
                WaitAction::Finish(Ok(()))
            } else if has_process {
                WaitAction::CheckProcess
            } else {
                WaitAction::Sleep(OVERLAY_READY_POLL_MS)
            }
        },
        WaitEvent::ProcessRunning => WaitAction::Sleep(OVERLAY_READY_POLL_MS),
        WaitEvent::ProcessExited(status) => {
            let mut v: Vec<char> = Vec::new();
            push_str_chars(&mut v, "resident screenshot overlay exited before becoming ready: ");
            push_str_chars(&mut v, status.as_str());
            WaitAction::Finish(Err(string_from_chars(&v)))
        },
        WaitEvent::ProcessProbeFailed(e) => WaitAction::Finish(Err(e)),
    }
}

/// Where a capture launch stands: each phase waits for the outcome of the work it asked
/// for.
#[derive(Debug)]
pub enum LaunchPhase {
    /// Nothing is done yet.
    Start,
    /// The resident overlay is being made sure of.
    EnsuringResident,
    /// The configured capture delay is running.
    Delaying,
    /// The screen is being captured.
    Snapshotting,
    /// The capture command is being sent.
    Sending,
    /// The first send failed with this reason; the resident overlay is being restarted.
    Restarting(String),
    /// The first send failed with this reason; the command is being sent again.
    Resending(String),
}

/// Work the desktop shell does for a capture launch.
#[derive(Debug)]
pub enum LaunchAction {
    EnsureResident,
    /// Wait this many milliseconds.
    Sleep(u64),
    CaptureSnapshot,
    SendCommand,
    RestartResident,
}

/// The next step of a capture launch: more work in a new phase, or the end, where
/// success means that the snapshot's shared memory is kept.
#[derive(Debug)]
pub enum LaunchStep {
    Continue(LaunchPhase, LaunchAction),
    Finish(Result<(), String>),
}

/// The message when the capture command failed twice.
pub open spec fn retry_failed_message(first: Seq<char>, second: Seq<char>) -> Seq<char> {
    first + "; retry failed: "@ + second
}

/// One step of launching a capture: make sure the overlay is up, wait the capture delay
/// (when there is one), capture the screen and send the command; when the send fails,
/// restart the overlay once and send again, and when that fails too, fail with both
/// reasons. Any other failure ends the launch with its reason. `outcome` is that of the
/// work the phase asked for; at `Start` nothing was asked and it is not read.
pub fn launch_capture_overlay(phase: LaunchPhase, outcome: Result<(), String>, capture_delay_ms: u64) -> (r:
    LaunchStep)
    ensures
        match phase {
            LaunchPhase::Start => r == LaunchStep::Continue(
                LaunchPhase::EnsuringResident,
                LaunchAction::EnsureResident,
            ),
            LaunchPhase::EnsuringResident => match outcome {
                Ok(_) => if capture_delay_ms > 0 {
                    r == LaunchStep::Continue(LaunchPhase::Delaying, LaunchAction::Sleep(capture_delay_ms))
                } else {
                    r == LaunchStep::Continue(LaunchPhase::Snapshotting, LaunchAction::CaptureSnapshot)
                },
                Err(e) => r == LaunchStep::Finish(Err(e)),
            },
            LaunchPhase::Delaying => r == LaunchStep::Continue(
                LaunchPhase::Snapshotting,
                LaunchAction::CaptureSnapshot,
            ),
            LaunchPhase::Snapshotting => match outcome {
                Ok(_) => r == LaunchStep::Continue(LaunchPhase::Sending, LaunchAction::SendCommand),
                Err(e) => r == LaunchStep::Finish(Err(e)),
            },
            LaunchPhase::Sending => match outcome {
                Ok(_) => r == LaunchStep::Finish(Ok(())),
                Err(e) => r == LaunchStep::Continue(LaunchPhase::Restarting(e), LaunchAction::RestartResident),
            },
            LaunchPhase::Restarting(first) => match outcome {
                Ok(_) => r == LaunchStep::Continue(LaunchPhase::Resending(first), LaunchAction::SendCommand),
                Err(e) => r == LaunchStep::Finish(Err(e)),
            },
            LaunchPhase::Resending(first) => match outcome {
                Ok(_) => r == LaunchStep::Finish(Ok(())),
                Err(second) => r matches LaunchStep::Finish(Err(m)) && m@ == retry_failed_message(
                    first@,
                    second@,
                ),
            },
        },
{
    match phase {
        LaunchPhase::Start => LaunchStep::Continue(LaunchPhase::EnsuringResident, LaunchAction::EnsureResident),
        LaunchPhase::EnsuringResident => match outcome {
            Ok(()) => {
                if capture_delay_ms > 0 {
                    LaunchStep::Continue(LaunchPhase::Delaying, LaunchAction::Sleep(capture_delay_ms))
                } else {
                    LaunchStep::Continue(LaunchPhase::Snapshotting, LaunchAction::CaptureSnapshot)
                }
            },
            Err(e) => LaunchStep::Finish(Err(e)),
        },
        LaunchPhase::Delaying => LaunchStep::Continue(LaunchPhase::Snapshotting, LaunchAction::CaptureSnapshot),
        LaunchPhase::Snapshotting => match outcome {
            Ok(()) => LaunchStep::Continue(LaunchPhase::Sending, LaunchAction::SendCommand),
            Err(e) => LaunchStep::Finish(Err(e)),
        },
        LaunchPhase::Sending => match outcome {
            Ok(()) => LaunchStep::Finish(Ok(())),
            Err(e) => LaunchStep::Continue(LaunchPhase::Restarting(e), LaunchAction::RestartResident),
        },
        LaunchPhase::Restarting(first) => match outcome {
            Ok(()) => LaunchStep::Continue(LaunchPhase::Resending(first), LaunchAction::SendCommand),
            Err(e) => LaunchStep::Finish(Err(e)),
        },
        LaunchPhase::Resending(first) => match outcome {
            Ok(()) => LaunchStep::Finish(Ok(())),
            Err(second) => {
                let mut v: Vec<char> = Vec::new();
                push_str_chars(&mut v, first.as_str());
                push_str_chars(&mut v, "; retry failed: ");
                push_str_chars(&mut v, second.as_str());
                LaunchStep::Finish(Err(string_from_chars(&v)))
            },
        },
    }
}

/// A global hotkey the desktop shell asks the system for: its name and its accelerator.
#[derive(Debug)]
pub struct HotkeyRegistration {
    pub id: String,
    pub accelerator: String,
}

/// The hotkey that starts a capture: named `capture`, with the accelerator of the
/// settings. Pressing it launches a capture.
pub fn register_capture_hotkey(settings: &Settings) -> (r: HotkeyRegistration)
    ensures
        r.id@ == "capture"@,
        r.accelerator@ == settings@.hotkeys.capture,
{
    HotkeyRegistration { id: "capture".to_owned(), accelerator: settings.hotkeys.capture.clone() }
}

/// The capture hotkey the desktop shell holds: the listener of the registered hotkey, if
/// one is registered. `L` is the listener.
#[derive(Debug)]
pub struct HotkeySlot<L> {
    pub listener: Option<L>,
}

impl<L> HotkeySlot<L> {
    /// No hotkey registered.
    pub fn new() -> (r: Self)
        ensures
            r.listener is None,
    {
        HotkeySlot { listener: None }
    }

    /// Begins registering the capture hotkey for the settings: the hotkey registered
    /// before is dropped first, and the registration to ask the system for is returned.
    pub fn begin_registration(&mut self, settings: &Settings) -> (r: HotkeyRegistration)
        ensures
            final(self).listener is None,
            r.id@ == "capture"@,
            r.accelerator@ == settings@.hotkeys.capture,
    {
        self.listener = None;
        register_capture_hotkey(settings)
    }

    /// Takes the outcome of asking the system for the hotkey: its listener is kept, or,
    /// when the system refused, no hotkey stays registered and the error is returned.
    pub fn finish_registration(&mut self, outcome: Result<L, String>) -> (r: Result<(), String>)
        ensures
            match outcome {
                Ok(l) => r is Ok && final(self).listener == Some(l),
                Err(e) => r == Err::<(), String>(e) && final(self).listener is None,
            },
    {
        match outcome {
            Ok(l) => {
                self.listener = Some(l);
                Ok(())
            },
            Err(e) => {
                self.listener = None;
                Err(e)
            },
        }
    }
}

/// What the resident overlay makes of the command line it is started with: capture
/// mode, resident, the control port, the language and border colour as it reads them,
/// the switches and texts of the settings, blank OCR texts as absent, and the float
/// options in the order they were written.
pub open spec fn resident_view(
    s: SettingsView,
    mask_opacity: Seq<char>,
    magnifier_scale: Seq<char>,
    pin_opacity: Seq<char>,
    pin_zoom_step: Seq<char>,
    registry: Option<Seq<char>>,
) -> CliArgsView {
    CliArgsView {
        mode: OverlayRunMode::Capture,
        image: None,
        snapshot: None,
        language: overlay_language_of(s.interface.language),
        include_cursor: false,
        border_color: match color_of(s.capture.border_color) {
            Some(c) => c,
            None => default_border_color(),
        },
        show_size_label: s.capture.show_size_label,
        show_toolbar: s.capture.show_toolbar,
        show_magnifier: s.overlay.show_magnifier,
        pin_hotkey: s.hotkeys.pin_selection,
        completion_action: completion_action_label(s.capture.completion_action),
        pin_always_on_top: s.pin.always_on_top,
        ocr_provider: ocr_provider_label(s.ocr.provider),
        ocr_language_hint: non_empty(s.ocr.language_hint),
        ocr_default_model_id: non_empty(s.ocr.default_model_id),
        ocr_models_registry: non_empty(registry),
        resident: true,
        control_port: OVERLAY_CONTROL_PORT,
        float_values: seq![
            (FloatArg::MaskOpacity, mask_opacity),
            (FloatArg::MagnifierScale, magnifier_scale),
            (FloatArg::PinOpacity, pin_opacity),
            (FloatArg::PinZoomStep, pin_zoom_step),
        ],
    }
}

proof fn lemma_value_step(args: Seq<Seq<char>>, i: int, m: CliArgsView, flag: OverlayFlag)
    requires
        0 <= i,
        i + 1 < args.len(),
        args[i] == flag_text(flag),
        takes_value(flag),
    ensures
        parse_from(args, i, m) == parse_from(args, i + 2, apply_flag(m, flag, Some(args[i + 1]))),
{
    flag_text_is_read_back(flag);
}

proof fn lemma_switch_step(args: Seq<Seq<char>>, i: int, m: CliArgsView, flag: OverlayFlag)
    requires
        0 <= i < args.len(),
        args[i] == flag_text(flag),
        !takes_value(flag),
    ensures
        parse_from(args, i, m) == parse_from(args, i + 1, apply_flag(m, flag, None)),
{
    flag_text_is_read_back(flag);
}

proof fn lemma_bool_text_reads_back(b: bool)
    ensures
        bool_of(bool_text(b)) == Some(b),
{
    reveal_strlit("true");
    reveal_strlit("false");
    assert("true"@.len() != "false"@.len());
}

proof fn lemma_blank_text(value: Option<Seq<char>>)
    ensures
        non_empty(Some(text_or_empty(value))) == non_empty(value),
{
    reveal_strlit("");
}

/// The resident overlay reads, from the command line the desktop shell starts it with,
/// the options of the settings it was started for.
#[verifier::rlimit(100)]
pub proof fn resident_overlay_reads_settings(
    s: SettingsView,
    mask_opacity: Seq<char>,
    magnifier_scale: Seq<char>,
    pin_opacity: Seq<char>,
    pin_zoom_step: Seq<char>,
    registry: Option<Seq<char>>,
)
    ensures
        cli_args_of(
            resident_args_of(s, mask_opacity, magnifier_scale, pin_opacity, pin_zoom_step, registry),
        ) == resident_view(s, mask_opacity, magnifier_scale, pin_opacity, pin_zoom_step, registry),
{
    let a = resident_args_of(s, mask_opacity, magnifier_scale, pin_opacity, pin_zoom_step, registry);
    assert(a.len() == 36);
    let m0 = default_cli_args();
    lemma_switch_step(a, 0, m0, OverlayFlag::Capture);
    let m1 = apply_flag(m0, OverlayFlag::Capture, None);
    lemma_switch_step(a, 1, m1, OverlayFlag::Resident);
    let m2 = apply_flag(m1, OverlayFlag::Resident, None);
    lemma_value_step(a, 2, m2, OverlayFlag::ControlPort);
    let m3 = apply_flag(m2, OverlayFlag::ControlPort, Some(a[3]));
    lemma_value_step(a, 4, m3, OverlayFlag::Language);
    let m4 = apply_flag(m3, OverlayFlag::Language, Some(a[5]));
    lemma_value_step(a, 6, m4, OverlayFlag::Float(FloatArg::MaskOpacity));
    let m5 = apply_flag(m4, OverlayFlag::Float(FloatArg::MaskOpacity), Some(a[7]));
    lemma_value_step(a, 8, m5, OverlayFlag::BorderColor);
    let m6 = apply_flag(m5, OverlayFlag::BorderColor, Some(a[9]));
    lemma_value_step(a, 10, m6, OverlayFlag::ShowSizeLabel);
    let m7 = apply_flag(m6, OverlayFlag::ShowSizeLabel, Some(a[11]));
    lemma_value_step(a, 12, m7, OverlayFlag::ShowToolbar);
    let m8 = apply_flag(m7, OverlayFlag::ShowToolbar, Some(a[13]));
    lemma_value_step(a, 14, m8, OverlayFlag::ShowMagnifier);
    let m9 = apply_flag(m8, OverlayFlag::ShowMagnifier, Some(a[15]));
    lemma_value_step(a, 16, m9, OverlayFlag::Float(FloatArg::MagnifierScale));
    let m10 = apply_flag(m9, OverlayFlag::Float(FloatArg::MagnifierScale), Some(a[17]));
    lemma_value_step(a, 18, m10, OverlayFlag::PinHotkey);
    let m11 = apply_flag(m10, OverlayFlag::PinHotkey, Some(a[19]));
    lemma_value_step(a, 20, m11, OverlayFlag::CompletionAction);
    let m12 = apply_flag(m11, OverlayFlag::CompletionAction, Some(a[21]));
    lemma_value_step(a, 22, m12, OverlayFlag::Float(FloatArg::PinOpacity));
    let m13 = apply_flag(m12, OverlayFlag::Float(FloatArg::PinOpacity), Some(a[23]));
    lemma_value_step(a, 24, m13, OverlayFlag::Float(FloatArg::PinZoomStep));
    let m14 = apply_flag(m13, OverlayFlag::Float(FloatArg::PinZoomStep), Some(a[25]));
    lemma_value_step(a, 26, m14, OverlayFlag::PinAlwaysOnTop);
    let m15 = apply_flag(m14, OverlayFlag::PinAlwaysOnTop, Some(a[27]));
    lemma_value_step(a, 28, m15, OverlayFlag::OcrProvider);
    let m16 = apply_flag(m15, OverlayFlag::OcrProvider, Some(a[29]));
    lemma_value_step(a, 30, m16, OverlayFlag::OcrLanguageHint);
    let m17 = apply_flag(m16, OverlayFlag::OcrLanguageHint, Some(a[31]));
    lemma_value_step(a, 32, m17, OverlayFlag::OcrDefaultModelId);
    let m18 = apply_flag(m17, OverlayFlag::OcrDefaultModelId, Some(a[33]));
    lemma_value_step(a, 34, m18, OverlayFlag::OcrModelsRegistry);
    let m19 = apply_flag(m18, OverlayFlag::OcrModelsRegistry, Some(a[35]));
    assert(parse_from(a, 36, m19) == m19);
    decimal_reads_back(OVERLAY_CONTROL_PORT as nat, 65535);
    lemma_bool_text_reads_back(s.capture.show_size_label);
    lemma_bool_text_reads_back(s.capture.show_toolbar);
    lemma_bool_text_reads_back(s.overlay.show_magnifier);
    lemma_bool_text_reads_back(s.pin.always_on_top);
    lemma_blank_text(s.ocr.language_hint);
    lemma_blank_text(s.ocr.default_model_id);
    lemma_blank_text(registry);
    reveal(apply_flag);
    assert(m19.float_values =~= seq![
        (FloatArg::MaskOpacity, mask_opacity),
        (FloatArg::MagnifierScale, magnifier_scale),
        (FloatArg::PinOpacity, pin_opacity),
        (FloatArg::PinZoomStep, pin_zoom_step),
    ]);
    assert(m19 =~= resident_view(s, mask_opacity, magnifier_scale, pin_opacity, pin_zoom_step, registry));
}

} // verus!
