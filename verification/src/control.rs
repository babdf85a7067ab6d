use vstd::prelude::*;

use crate::chars::{push_str_chars, str_chars, str_is, string_from_chars};
use crate::cli::{color_of, parse_color, Rgb};
use crate::ocr_text::{non_empty_trimmed, optional_empty_to_none};
use crate::providers::{
    capture_action_from_name, capture_action_of, completion_action_label, completion_action_name,
    ocr_provider_label, ocr_provider_name, overlay_language_from_code, overlay_language_of,
    CaptureAction, OverlayLanguage,
};
use crate::settings::{settings_from_dto, AppSettingsDtoView, Settings, SettingsView};
use crate::text::{decimal, lemma_trimmed, push_decimal};

verus! {

/// The version of the line protocol between the desktop shell and the overlay.
pub const CONTROL_PROTOCOL_VERSION: u32 = 2;

/// The small commands of the control protocol, each a line `{"kind":…,"protocol":…}`.
#[derive(Debug, Clone, Copy, PartialEq, Eq, Structural)]
pub enum ControlCommandKind {
    Ping,
    PinSelection,
    Shutdown,
}

/// The kind name of a small control command.
pub open spec fn control_kind_label(kind: ControlCommandKind) -> Seq<char> {
    match kind {
        ControlCommandKind::Ping => "ping"@,
        ControlCommandKind::PinSelection => "pinSelection"@,
        ControlCommandKind::Shutdown => "shutdown"@,
    }
}

/// What a control line asks for.
#[derive(Debug, Clone, Copy, PartialEq, Eq, Structural)]
pub enum ControlRequest {
    Ping,
    PinSelection,
    Shutdown,
    /// Anything else, which must then read as a capture command.
    Capture,
}

/// What a control line asks for, from the kind and protocol it holds when it reads as a
/// small command: a small command is honoured only with the current protocol version.
pub open spec fn control_request_of(probe: Option<(Seq<char>, u32)>) -> ControlRequest {
    match probe {
        Some((kind, protocol)) => if protocol == CONTROL_PROTOCOL_VERSION && kind == "ping"@ {
            ControlRequest::Ping
        } else if protocol == CONTROL_PROTOCOL_VERSION && kind == "pinSelection"@ {
            ControlRequest::PinSelection
        } else if protocol == CONTROL_PROTOCOL_VERSION && kind == "shutdown"@ {
            ControlRequest::Shutdown
        } else {
            ControlRequest::Capture
        },
        None => ControlRequest::Capture,
    }
}

/// What a control line asks for, given the kind and protocol it holds when it reads as a
/// small command (`None` when it does not).
pub fn classify_control_request(probe: Option<(&str, u32)>) -> (r: ControlRequest)
    ensures
        r == control_request_of(
            match probe {
                Some((k, p)) => Some((k@, p)),
                None => None,
            },
        ),
{
    match probe {
        Some((kind, protocol)) => {
            if protocol == CONTROL_PROTOCOL_VERSION && str_is(kind, "ping") {
                ControlRequest::Ping
            } else if protocol == CONTROL_PROTOCOL_VERSION && str_is(kind, "pinSelection") {
                ControlRequest::PinSelection
            } else if protocol == CONTROL_PROTOCOL_VERSION && str_is(kind, "shutdown") {
                ControlRequest::Shutdown
            } else {
                ControlRequest::Capture
            }
        },
        None => ControlRequest::Capture,
    }
}

/// Each small command the desktop shell writes is read by the overlay as that same
/// command when it carries the current protocol version, and as no small command (so as
/// a capture command) under any other version; no two small commands share a name.
pub proof fn small_commands_are_read_as_sent(k: ControlCommandKind, other: ControlCommandKind, protocol: u32)
    ensures
        control_request_of(Some((control_kind_label(k), protocol))) == if protocol
            == CONTROL_PROTOCOL_VERSION {
            match k {
                ControlCommandKind::Ping => ControlRequest::Ping,
                ControlCommandKind::PinSelection => ControlRequest::PinSelection,
                ControlCommandKind::Shutdown => ControlRequest::Shutdown,
            }
        } else {
            ControlRequest::Capture
        },
        control_kind_label(k) == control_kind_label(other) <==> k == other,
{
    reveal_strlit("ping");
    reveal_strlit("pinSelection");
    reveal_strlit("shutdown");
    assert("ping"@.len() == 4);
    assert("pinSelection"@.len() == 12);
    assert("shutdown"@.len() == 8);
}

/// The line of a small control command, newline included.
pub open spec fn control_command_line_text(kind: ControlCommandKind) -> Seq<char> {
    "{\"kind\":\""@ + control_kind_label(kind) + "\",\"protocol\":"@ + decimal(
        CONTROL_PROTOCOL_VERSION as nat,
    ) + "}\n"@
}

/// The line of a small control command, newline included.
pub fn control_command_line(kind: ControlCommandKind) -> (r: String)
    ensures
        r@ == control_command_line_text(kind),
{
    let mut v: Vec<char> = Vec::new();
    push_str_chars(&mut v, "{\"kind\":\"");
    let k = match kind {
        ControlCommandKind::Ping => "ping",
        ControlCommandKind::PinSelection => "pinSelection",
        ControlCommandKind::Shutdown => "shutdown",
    };
    push_str_chars(&mut v, k);
    push_str_chars(&mut v, "\",\"protocol\":");
    push_decimal(&mut v, CONTROL_PROTOCOL_VERSION as u128);
    push_str_chars(&mut v, "}\n");
    string_from_chars(&v)
}

/// The overlay's answer to a ping, newline included.
pub open spec fn pong_line_text() -> Seq<char> {
    "{\"kind\":\"pong\",\"protocol\":"@ + decimal(CONTROL_PROTOCOL_VERSION as nat) + "}\n"@
}

/// The overlay's answer to a ping, newline included.
pub fn pong_line() -> (r: String)
    ensures
        r@ == pong_line_text(),
{
    let mut v: Vec<char> = Vec::new();
    push_str_chars(&mut v, "{\"kind\":\"pong\",\"protocol\":");
    push_decimal(&mut v, CONTROL_PROTOCOL_VERSION as u128);
    push_str_chars(&mut v, "}\n");
    string_from_chars(&v)
}

/// Whether `needle` occurs in `hay` at position `i`.
pub open spec fn occurs_at(hay: Seq<char>, needle: Seq<char>, i: int) -> bool {
    0 <= i && i + needle.len() <= hay.len() && hay.subrange(i, i + needle.len()) == needle
}

/// Whether `needle` occurs in `hay`.
pub open spec fn contains_text(hay: Seq<char>, needle: Seq<char>) -> bool {
    exists|i: int| occurs_at(hay, needle, i)
}

fn occurs_at_exec(hay: &[char], needle: &[char], i: usize) -> (b: bool)
    requires
        i + needle.len() <= hay.len(),
    ensures
        b == occurs_at(hay@, needle@, i as int),
{
    let mut k: usize = 0;
    while k < needle.len()
        invariant
            i + needle.len() <= hay.len(),
            k <= needle.len(),
            forall|j: int| 0 <= j < k ==> hay@[i + j] == needle@[j],
        decreases needle.len() - k,
    {
        if hay[i + k] != needle[k] {
            assert(hay@.subrange(i as int, i + needle.len())[k as int] != needle@[k as int]);
            return false;
        }
        k = k + 1;
    }
    assert(hay@.subrange(i as int, i + needle.len()) =~= needle@);
    true
}

/// Whether `needle` occurs in `hay`.
pub fn contains_str(hay: &str, needle: &str) -> (b: bool)
    ensures
        b == contains_text(hay@, needle@),
{
    let h = str_chars(hay);
    let n = str_chars(needle);
    if n.len() > h.len() {
        assert forall|i: int| !occurs_at(h@, n@, i) by {}
        return false;
    }
    let last = h.len() - n.len();
    let mut i: usize = 0;
    loop
        invariant
            h@ == hay@,
            n@ == needle@,
            n.len() <= h.len(),
            last == h.len() - n.len(),
            i <= last,
            forall|j: int| 0 <= j < i ==> !occurs_at(h@, n@, j),
        ensures
            forall|j: int| 0 <= j <= last ==> !occurs_at(h@, n@, j),
        decreases last - i,
    {
        if occurs_at_exec(&h, &n, i) {
            assert(occurs_at(h@, n@, i as int));
            return true;
        }
        if i == last {
            break;
        }
        i = i + 1;
    }
    assert forall|j: int| !occurs_at(h@, n@, j) by {}
    false
}

/// What the overlay's control server does with a line it read.
#[derive(Debug)]
pub enum ControlAction {
    /// Answer with the pong line.
    ReplyPong,
    /// Hand the command to the overlay, wait for it to be taken, and answer with the
    /// outcome; the label names the command in the log and in a timeout error.
    QueueWithAck(ControlCommandKind, &'static str),
    /// Hand the capture command to the overlay without waiting, and answer that it was
    /// accepted.
    QueueCapture,
    /// Report the error to the overlay and answer with it.
    Reject(String),
}

/// The message when a line reads as no command at all.
pub open spec fn unparsable_command_message(error: Seq<char>) -> Seq<char> {
    "failed to parse overlay command: "@ + error
}

/// What the overlay's control server does with a line: a ping is answered at once;
/// pinning the selection and shutting down are handed over and waited for; anything
/// else must read as a capture command (`capture_error` is why it did not, if it did
/// not), which is handed over without waiting, and otherwise rejected.
pub fn control_server_action(request: ControlRequest, capture_error: Option<String>) -> (r: ControlAction)
    ensures
        match request {
            ControlRequest::Ping => r is ReplyPong,
            ControlRequest::PinSelection => r matches ControlAction::QueueWithAck(k, l) && k
                == ControlCommandKind::PinSelection && l@ == "pin-selection"@,
            ControlRequest::Shutdown => r matches ControlAction::QueueWithAck(k, l) && k
                == ControlCommandKind::Shutdown && l@ == "shutdown"@,
            ControlRequest::Capture => match capture_error {
                None => r is QueueCapture,
                Some(e) => r matches ControlAction::Reject(m) && m@ == unparsable_command_message(e@),
            },
        },
{
    match request {
        ControlRequest::Ping => ControlAction::ReplyPong,
        ControlRequest::PinSelection => ControlAction::QueueWithAck(ControlCommandKind::PinSelection, "pin-selection"),
        ControlRequest::Shutdown => ControlAction::QueueWithAck(ControlCommandKind::Shutdown, "shutdown"),
        ControlRequest::Capture => match capture_error {
            None => ControlAction::QueueCapture,
            Some(e) => {
                let mut v: Vec<char> = Vec::new();
                push_str_chars(&mut v, "failed to parse overlay command: ");
                push_str_chars(&mut v, e.as_str());
                ControlAction::Reject(string_from_chars(&v))
            },
        },
    }
}

/// The part of the overlay's answer that tells the desktop shell the overlay is up.
pub open spec fn pong_marker() -> Seq<char> {
    "\"kind\":\"pong\""@
}

/// Whether an answer line tells that the overlay is up.
pub fn is_pong_response(line: &str) -> (b: bool)
    ensures
        b == (line@.len() > 0 && contains_text(line@, pong_marker())),
{
    if line.is_empty() {
        return false;
    }
    contains_str(line, "\"kind\":\"pong\"")
}

/// The overlay's answer to a ping is taken by the desktop shell as the overlay being up.
pub proof fn pong_answer_is_recognized()
    ensures
        pong_line_text().len() > 0 && contains_text(pong_line_text(), pong_marker()),
{
    reveal_strlit("{\"kind\":\"pong\",\"protocol\":");
    reveal_strlit("\"kind\":\"pong\"");
    reveal_strlit("}\n");
    let line = pong_line_text();
    let m = pong_marker();
    assert(line.subrange(1, 1 + m.len() as int) =~= m);
    assert(occurs_at(line, m, 1));
}

/// How the overlay took a command, as its log records it.
pub open spec fn ack_status_text(result: Result<(), Seq<char>>, label: Seq<char>) -> Seq<char> {
    match result {
        Ok(_) => "accepted"@,
        Err(m) => if label == "pin-selection"@ && m == "capture_overlay_inactive"@ {
            "inactive"@
        } else {
            "rejected"@
        },
    }
}

/// How the overlay took a command: accepted, rejected, or (for pinning a selection while
/// no capture is open) inactive.
pub fn ack_status(result: &Result<(), String>, label: &str) -> (r: &'static str)
    ensures
        r@ == ack_status_text(
            match result {
                Ok(_) => Ok(()),
                Err(m) => Err(m@),
            },
            label@,
        ),
{
    match result {
        Ok(()) => "accepted",
        Err(message) => {
            if str_is(label, "pin-selection") && str_is(message.as_str(), "capture_overlay_inactive") {
                "inactive"
            } else {
                "rejected"
            }
        },
    }
}

/// The message when the overlay did not take a command in time.
pub open spec fn ack_timeout_message(label: Seq<char>) -> Seq<char> {
    "resident screenshot overlay did not process the "@ + label + " command in time"@
}

/// The message when the overlay did not take a command in time.
pub fn ack_timeout_error(label: &str) -> (r: String)
    ensures
        r@ == ack_timeout_message(label@),
{
    let mut v: Vec<char> = Vec::new();
    push_str_chars(&mut v, "resident screenshot overlay did not process the ");
    push_str_chars(&mut v, label);
    push_str_chars(&mut v, " command in time");
    string_from_chars(&v)
}

/// The overlay's answer to a command: `accepted`, or `error` with the reason.
#[derive(Debug)]
pub struct OverlayControlResponse {
    pub kind: String,
    pub message: Option<String>,
}

/// The overlay's answer to a command with the given outcome.
pub fn control_response(result: Result<(), String>) -> (r: OverlayControlResponse)
    ensures
        result is Ok ==> r.kind@ == "accepted"@ && r.message is None,
        result matches Err(m) ==> r.kind@ == "error"@ && r.message == Some(m),
{
    match result {
        Ok(()) => OverlayControlResponse { kind: "accepted".to_owned(), message: None },
        Err(message) => OverlayControlResponse { kind: "error".to_owned(), message: Some(message) },
    }
}

/// What the desktop shell makes of the overlay's answer: `accepted` is success, `error`
/// the overlay's reason (or a general one when it gave none), and anything else an
/// unexpected answer.
pub open spec fn response_outcome(kind: Seq<char>, message: Option<Seq<char>>) -> Result<(), Seq<char>> {
    if kind == "accepted"@ {
        Ok(())
    } else if kind == "error"@ {
        match message {
            Some(m) => Err(m),
            None => Err("resident screenshot overlay rejected the command"@),
        }
    } else {
        Err("resident screenshot overlay returned unexpected response '"@ + kind + "'"@)
    }
}

/// What the desktop shell makes of the overlay's answer.
pub fn interpret_control_response(kind: &str, message: Option<String>) -> (r: Result<(), String>)
    ensures
        match r {
            Ok(_) => response_outcome(kind@, message.deep_view()) == Ok::<(), Seq<char>>(()),
            Err(e) => response_outcome(kind@, message.deep_view()) == Err::<(), Seq<char>>(e@),
        },
{
    if str_is(kind, "accepted") {
        Ok(())
    } else if str_is(kind, "error") {
        match message {
            Some(m) => Err(m),
            None => Err("resident screenshot overlay rejected the command".to_owned()),
        }
    } else {
        let mut v: Vec<char> = Vec::new();
        push_str_chars(&mut v, "resident screenshot overlay returned unexpected response '");
        push_str_chars(&mut v, kind);
        push_str_chars(&mut v, "'");
        Err(string_from_chars(&v))
    }
}

/// The desktop shell reads the overlay's answer as the outcome the overlay answered.
pub proof fn control_response_round_trip(result: Result<(), Seq<char>>)
    ensures
        response_outcome(
            match result {
                Ok(_) => "accepted"@,
                Err(_) => "error"@,
            },
            match result {
                Ok(_) => None,
                Err(m) => Some(m),
            },
        ) == result,
{
    reveal_strlit("accepted");
    reveal_strlit("error");
    assert("accepted"@.len() != "error"@.len());
    match result {
        Ok(u) => {
            assert(u == ());
        },
        Err(m) => {},
    }
}

/// The options a capture command carries, apart from the snapshot, the window regions
/// and the float options.
#[derive(Debug)]
pub struct OverlayCaptureCommand {
    pub kind: String,
    pub language: String,
    pub border_color: String,
    pub show_size_label: bool,
    pub show_toolbar: bool,
    pub show_magnifier: bool,
    pub pin_hotkey: String,
    pub completion_action: String,
    pub pin_always_on_top: bool,
    pub ocr_provider: String,
    pub ocr_language_hint: Option<String>,
    pub ocr_default_model_id: Option<String>,
    pub ocr_models_registry: Option<String>,
    pub translate_provider: String,
    pub translate_target_language: String,
    pub translate_segmentation_mode: String,
    pub translate_default_model_id: Option<String>,
    pub smart_merge_inline_label_max_chars: usize,
}

/// The capture command the desktop shell sends for the given settings, as the overlay
/// reads it: the desktop shell sends no translation or merging options, so the
/// overlay's defaults for them apply (local CTranslate2, Chinese, smart merging, no
/// model, labels of up to 32 characters).
pub fn capture_command_from_settings(settings: &Settings, model_registry_path: Option<String>) -> (r:
    OverlayCaptureCommand)
    ensures
        r.kind@ == "capture"@,
        r.language@ == settings@.interface.language,
        r.border_color@ == settings@.capture.border_color,
        r.show_size_label == settings@.capture.show_size_label,
        r.show_toolbar == settings@.capture.show_toolbar,
        r.show_magnifier == settings@.overlay.show_magnifier,
        r.pin_hotkey@ == settings@.hotkeys.pin_selection,
        r.completion_action@ == completion_action_label(settings@.capture.completion_action),
        r.pin_always_on_top == settings@.pin.always_on_top,
        r.ocr_provider@ == ocr_provider_label(settings@.ocr.provider),
        r.ocr_language_hint.deep_view() == settings@.ocr.language_hint,
        r.ocr_default_model_id.deep_view() == settings@.ocr.default_model_id,
        r.ocr_models_registry == model_registry_path,
        r.translate_provider@ == "local-ct2"@,
        r.translate_target_language@ == "zh-CN"@,
        r.translate_segmentation_mode@ == "smart-merge"@,
        r.translate_default_model_id is None,
        r.smart_merge_inline_label_max_chars == 32,
{
    OverlayCaptureCommand {
        kind: "capture".to_owned(),
        language: settings.interface.language.clone(),
        border_color: settings.capture.border_color.clone(),
        show_size_label: settings.capture.show_size_label,
        show_toolbar: settings.capture.show_toolbar,
        show_magnifier: settings.overlay.show_magnifier,
        pin_hotkey: settings.hotkeys.pin_selection.clone(),
        completion_action: completion_action_name(&settings.capture.completion_action),
        pin_always_on_top: settings.pin.always_on_top,
        ocr_provider: ocr_provider_name(&settings.ocr.provider),
        ocr_language_hint: clone_optional(&settings.ocr.language_hint),
        ocr_default_model_id: clone_optional(&settings.ocr.default_model_id),
        ocr_models_registry: model_registry_path,
        translate_provider: "local-ct2".to_owned(),
        translate_target_language: "zh-CN".to_owned(),
        translate_segmentation_mode: "smart-merge".to_owned(),
        translate_default_model_id: None,
        smart_merge_inline_label_max_chars: 32,
    }
}

fn clone_optional(value: &Option<String>) -> (r: Option<String>)
    ensures
        r == *value,
{
    match value {
        Some(v) => Some(v.clone()),
        None => None,
    }
}

/// The capture options the overlay takes from a capture command.
#[derive(Debug)]
pub struct CaptureSession {
    pub language: OverlayLanguage,
    /// The border colour, when the command names one.
    pub border_color: Option<Rgb>,
    pub show_size_label: bool,
    pub show_toolbar: bool,
    pub show_magnifier: bool,
    pub pin_hotkey: String,
    pub completion_action: CaptureAction,
    pub pin_always_on_top: bool,
    pub ocr_provider: String,
    pub ocr_language_hint: Option<String>,
    pub ocr_default_model_id: Option<String>,
    pub ocr_models_registry: Option<String>,
    pub translate_provider: String,
    pub translate_target_language: String,
    pub translate_segmentation_mode: String,
    /// The default translation model, when the command names one.
    pub translate_default_model_id: Option<String>,
    pub smart_merge_inline_label_max_chars: usize,
}

/// The message for a command of an unknown kind.
pub open spec fn unknown_command_message(kind: Seq<char>) -> Seq<char> {
    "unknown overlay command: "@ + kind
}

/// Whether an optional text, trimmed, is a present non-empty text of that value.
pub open spec fn trimmed_option(value: Option<Seq<char>>) -> Option<Seq<char>> {
    match value {
        Some(v) => non_empty_trimmed(v),
        None => None,
    }
}

impl CaptureSession {
    /// The capture options the overlay takes from a capture command: only commands of
    /// kind `capture` are taken; names are read as what they stand for and optional
    /// texts are trimmed, blank ones dropped.
    pub fn from_command(command: OverlayCaptureCommand) -> (r: Result<CaptureSession, String>)
        ensures
            command.kind@ != "capture"@ ==> (r matches Err(e) && e@ == unknown_command_message(
                command.kind@,
            )),
            command.kind@ == "capture"@ ==> (r matches Ok(s) && {
                &&& s.language == overlay_language_of(command.language@)
                &&& s.border_color == color_of(command.border_color@)
                &&& s.show_size_label == command.show_size_label
                &&& s.show_toolbar == command.show_toolbar
                &&& s.show_magnifier == command.show_magnifier
                &&& s.pin_hotkey == command.pin_hotkey
                &&& s.completion_action == capture_action_of(command.completion_action@)
                &&& s.pin_always_on_top == command.pin_always_on_top
                &&& s.ocr_provider == command.ocr_provider
                &&& s.ocr_language_hint.deep_view() == trimmed_option(
                    command.ocr_language_hint.deep_view(),
                )
                &&& s.ocr_default_model_id.deep_view() == trimmed_option(
                    command.ocr_default_model_id.deep_view(),
                )
                &&& s.ocr_models_registry.deep_view() == trimmed_option(
                    command.ocr_models_registry.deep_view(),
                )
                &&& s.translate_provider == command.translate_provider
                &&& s.translate_target_language == command.translate_target_language
                &&& s.translate_segmentation_mode == command.translate_segmentation_mode
                &&& s.translate_default_model_id.deep_view() == trimmed_option(
                    command.translate_default_model_id.deep_view(),
                )
                &&& s.smart_merge_inline_label_max_chars == command.smart_merge_inline_label_max_chars
            }),
    {
        if !str_is(command.kind.as_str(), "capture") {
            let mut v: Vec<char> = Vec::new();
            push_str_chars(&mut v, "unknown overlay command: ");
            push_str_chars(&mut v, command.kind.as_str());
            return Err(string_from_chars(&v));
        }
        Ok(
            CaptureSession {
                language: overlay_language_from_code(command.language.as_str()),
                border_color: parse_color(command.border_color.as_str()),
                show_size_label: command.show_size_label,
                show_toolbar: command.show_toolbar,
                show_magnifier: command.show_magnifier,
                pin_hotkey: command.pin_hotkey,
                completion_action: capture_action_from_name(command.completion_action.as_str()),
                pin_always_on_top: command.pin_always_on_top,
                ocr_provider: command.ocr_provider,
                ocr_language_hint: optional_empty_to_none(command.ocr_language_hint),
                ocr_default_model_id: optional_empty_to_none(command.ocr_default_model_id),
                ocr_models_registry: optional_empty_to_none(command.ocr_models_registry),
                translate_provider: command.translate_provider,
                translate_target_language: command.translate_target_language,
                translate_segmentation_mode: command.translate_segmentation_mode,
                translate_default_model_id: optional_empty_to_none(command.translate_default_model_id),
                smart_merge_inline_label_max_chars: command.smart_merge_inline_label_max_chars,
            },
        )
    }
}

/// The overlay's trimming leaves a text that is already trimmed and not blank as it is.
proof fn lemma_trimmed_option_stable(value: Seq<char>)
    ensures
        trimmed_option(non_empty_trimmed(value)) == non_empty_trimmed(value),
{
    lemma_trimmed(value);
}

/// A capture overlay started for settings loaded from the settings page takes the OCR
/// language hint and default model the settings hold as they are: the settings keep them
/// trimmed and never blank, so the overlay's own trimming changes nothing.
pub proof fn capture_overlay_keeps_ocr_texts(d: AppSettingsDtoView)
    ensures
        trimmed_option(settings_from_dto(d).ocr.language_hint) == settings_from_dto(d).ocr.language_hint,
        trimmed_option(settings_from_dto(d).ocr.default_model_id)
            == settings_from_dto(d).ocr.default_model_id,
{
    lemma_trimmed_option_stable(d.ocr.language_hint);
    lemma_trimmed_option_stable(d.ocr.default_model_id);
}

} // verus!
