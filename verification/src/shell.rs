use vstd::prelude::*;

use crate::chars::str_is;
use crate::providers::{is_listed_language, normalized_language};

verus! {

/// The surface the renderer draws on.
#[derive(Debug, Clone, Copy, PartialEq, Eq, Structural)]
pub enum RenderSurfaceKind {
    TransparentOverlay,
    PinWindow,
}

/// How a surface is rendered.
#[derive(Debug, Clone, Copy, PartialEq, Eq, Structural)]
pub struct RendererPlan {
    pub surface: RenderSurfaceKind,
    pub uses_gpu: bool,
    pub supports_text_overlays: bool,
}

impl RendererPlan {
    /// The plan of the capture overlay: a transparent surface drawn on the GPU, with text
    /// overlays.
    pub fn overlay() -> (r: RendererPlan)
        ensures
            r == (RendererPlan {
                surface: RenderSurfaceKind::TransparentOverlay,
                uses_gpu: true,
                supports_text_overlays: true,
            }),
    {
        RendererPlan {
            surface: RenderSurfaceKind::TransparentOverlay,
            uses_gpu: true,
            supports_text_overlays: true,
        }
    }
}

/// An annotation tool of the capture overlay.
#[derive(Debug, Clone, Copy, PartialEq, Eq, Structural)]
pub enum AnnotationTool {
    Arrow,
    Rectangle,
    Pen,
    Mosaic,
    Text,
}

/// An annotation drawn on a capture: its tool, the area it covers (`R`) and the points
/// it was drawn through (`P`).
#[derive(Debug, Clone)]
pub struct Annotation<R, P> {
    pub tool: AnnotationTool,
    pub bounds: R,
    pub points: Vec<P>,
}

/// What the capture overlay is doing.
#[derive(Debug, Clone, Copy, PartialEq, Eq, Structural)]
pub enum OverlayMode {
    Idle,
    Selecting,
    Annotating,
    Pinning,
}

/// An entry of the tray menu.
#[derive(Debug, Clone, Copy, PartialEq, Eq, Structural)]
pub enum TrayAction {
    Capture,
    ToggleHotkeys,
    OpenSettings,
    OpenHistory,
    Quit,
}

/// The entries of the tray menu, in order.
pub struct TrayMenuModel {
    pub actions: Vec<TrayAction>,
}

impl TrayMenuModel {
    /// The tray menu: capture, toggle hotkeys, settings, history and quit, in that order.
    pub fn new() -> (r: TrayMenuModel)
        ensures
            r.actions@ == seq![
                TrayAction::Capture,
                TrayAction::ToggleHotkeys,
                TrayAction::OpenSettings,
                TrayAction::OpenHistory,
                TrayAction::Quit,
            ],
    {
        let mut actions: Vec<TrayAction> = Vec::new();
        actions.push(TrayAction::Capture);
        actions.push(TrayAction::ToggleHotkeys);
        actions.push(TrayAction::OpenSettings);
        actions.push(TrayAction::OpenHistory);
        actions.push(TrayAction::Quit);
        assert(actions@ =~= seq![
            TrayAction::Capture,
            TrayAction::ToggleHotkeys,
            TrayAction::OpenSettings,
            TrayAction::OpenHistory,
            TrayAction::Quit,
        ]);
        TrayMenuModel { actions }
    }
}

/// The texts of the tray icon and its menu in one language.
#[derive(Debug, Clone, Copy)]
pub struct TrayLabels {
    pub app_name: &'static str,
    pub capture: &'static str,
    pub settings: &'static str,
    pub history: &'static str,
    pub quit: &'static str,
}

/// The interface language the tray is shown in: the one in the settings, or Chinese
/// when the settings cannot be read.
pub fn tray_language(settings_language: Option<String>) -> (r: String)
    ensures
        match settings_language {
            Some(l) => r == l,
            None => r@ == "zh-CN"@,
        },
{
    match settings_language {
        Some(l) => l,
        None => "zh-CN".to_owned(),
    }
}

/// The tray's texts in a language: application name, capture, settings, history and quit.
pub open spec fn tray_labels_of(language: Seq<char>) -> (Seq<char>, Seq<char>, Seq<char>, Seq<char>, Seq<char>) {
    if language == "en"@ {
        ("snap pin"@, "Start capture"@, "Settings"@, "History"@, "Quit"@)
    } else if language == "ja"@ {
        ("snap pin"@, "\u{30ad}\u{30e3}\u{30d7}\u{30c1}\u{30e3}\u{958b}\u{59cb}"@, "\u{8a2d}\u{5b9a}"@, "\u{5c65}\u{6b74}"@, "\u{7d42}\u{4e86}"@)
    } else if language == "ko"@ {
        ("snap pin"@, "\u{ce61}\u{cc98} \u{c2dc}\u{c791}"@, "\u{c124}\u{c815}"@, "\u{ae30}\u{b85d}"@, "\u{c885}\u{b8cc}"@)
    } else if language == "fr"@ {
        ("snap pin"@, "Demarrer la capture"@, "Reglages"@, "Historique"@, "Quitter"@)
    } else if language == "de"@ {
        ("snap pin"@, "Aufnahme starten"@, "Einstellungen"@, "Verlauf"@, "Beenden"@)
    } else {
        ("\u{8d34}\u{56fe}\u{9489}"@, "\u{5f00}\u{59cb}\u{622a}\u{56fe}"@, "\u{8bbe}\u{7f6e}"@, "\u{5386}\u{53f2}"@, "\u{9000}\u{51fa}"@)
    }
}

/// The tray's texts in a language: English, Japanese, Korean, French or German, and
/// Chinese for any other language.
pub fn labels(language: &str) -> (r: TrayLabels)
    ensures
        (r.app_name@, r.capture@, r.settings@, r.history@, r.quit@) == tray_labels_of(language@),
{
    if str_is(language, "en") {
        TrayLabels {
            app_name: "snap pin",
            capture: "Start capture",
            settings: "Settings",
            history: "History",
            quit: "Quit",
        }
    } else if str_is(language, "ja") {
        TrayLabels {
            app_name: "snap pin",
            capture: "\u{30ad}\u{30e3}\u{30d7}\u{30c1}\u{30e3}\u{958b}\u{59cb}",
            settings: "\u{8a2d}\u{5b9a}",
            history: "\u{5c65}\u{6b74}",
            quit: "\u{7d42}\u{4e86}",
        }
    } else if str_is(language, "ko") {
        TrayLabels {
            app_name: "snap pin",
            capture: "\u{ce61}\u{cc98} \u{c2dc}\u{c791}",
            settings: "\u{c124}\u{c815}",
            history: "\u{ae30}\u{b85d}",
            quit: "\u{c885}\u{b8cc}",
        }
    } else if str_is(language, "fr") {
        TrayLabels {
            app_name: "snap pin",
            capture: "Demarrer la capture",
            settings: "Reglages",
            history: "Historique",
            quit: "Quitter",
        }
    } else if str_is(language, "de") {
        TrayLabels {
            app_name: "snap pin",
            capture: "Aufnahme starten",
            settings: "Einstellungen",
            history: "Verlauf",
            quit: "Beenden",
        }
    } else {
        TrayLabels {
            app_name: "\u{8d34}\u{56fe}\u{9489}",
            capture: "\u{5f00}\u{59cb}\u{622a}\u{56fe}",
            settings: "\u{8bbe}\u{7f6e}",
            history: "\u{5386}\u{53f2}",
            quit: "\u{9000}\u{51fa}",
        }
    }
}

/// An entry of the tray menu as it is built: its event id and its text.
#[derive(Debug, Clone, Copy)]
pub struct TrayMenuItem {
    pub id: &'static str,
    pub label: &'static str,
}

/// The tray icon as it is built: its tooltip and its menu entries, in order.
#[derive(Debug)]
pub struct TrayMenuPlan {
    pub tooltip: &'static str,
    pub items: Vec<TrayMenuItem>,
}

/// The tray in a language: the application name as tooltip, and the entries capture,
/// settings, history and quit, with their ids and texts.
pub open spec fn tray_plan_matches(plan: TrayMenuPlan, language: Seq<char>) -> bool {
    let l = tray_labels_of(language);
    &&& plan.tooltip@ == l.0
    &&& plan.items@.len() == 4
    &&& plan.items@[0].id@ == "capture"@ && plan.items@[0].label@ == l.1
    &&& plan.items@[1].id@ == "settings"@ && plan.items@[1].label@ == l.2
    &&& plan.items@[2].id@ == "history"@ && plan.items@[2].label@ == l.3
    &&& plan.items@[3].id@ == "quit"@ && plan.items@[3].label@ == l.4
}

fn tray_plan(language: &str) -> (r: TrayMenuPlan)
    ensures
        tray_plan_matches(r, language@),
{
    let l = labels(language);
    let mut items: Vec<TrayMenuItem> = Vec::new();
    items.push(TrayMenuItem { id: "capture", label: l.capture });
    items.push(TrayMenuItem { id: "settings", label: l.settings });
    items.push(TrayMenuItem { id: "history", label: l.history });
    items.push(TrayMenuItem { id: "quit", label: l.quit });
    TrayMenuPlan { tooltip: l.app_name, items }
}

/// The tray icon the desktop shell installs, in the language of the settings, or in
/// Chinese when the settings cannot be read.
pub fn install(settings_language: Option<String>) -> (r: TrayMenuPlan)
    ensures
        tray_plan_matches(
            r,
            match settings_language {
                Some(l) => l@,
                None => "zh-CN"@,
            },
        ),
{
    let language = tray_language(settings_language);
    tray_plan(language.as_str())
}

/// The tray menu and tooltip the desktop shell puts in place when the language changes.
pub fn refresh(language: &str) -> (r: TrayMenuPlan)
    ensures
        tray_plan_matches(r, language@),
{
    tray_plan(language)
}

/// What a click on a tray menu entry does.
#[derive(Debug, Clone, Copy, PartialEq, Eq, Structural)]
pub enum TrayEvent {
    /// Leave the application.
    Quit,
    /// Launch a capture.
    Capture,
    /// Bring the main window to the front.
    ShowMainWindow,
    /// An entry the tray does not know.
    Unknown,
}

/// What a click on the tray menu entry with the given id does.
pub open spec fn tray_event_of(id: Seq<char>) -> TrayEvent {
    if id == "quit"@ {
        TrayEvent::Quit
    } else if id == "capture"@ {
        TrayEvent::Capture
    } else if id == "settings"@ || id == "history"@ {
        TrayEvent::ShowMainWindow
    } else {
        TrayEvent::Unknown
    }
}

/// What a click on the tray menu entry with the given id does: `quit` leaves, `capture`
/// launches a capture, `settings` and `history` bring the main window to the front.
pub fn tray_event(id: &str) -> (r: TrayEvent)
    ensures
        r == tray_event_of(id@),
{
    if str_is(id, "quit") {
        TrayEvent::Quit
    } else if str_is(id, "capture") {
        TrayEvent::Capture
    } else if str_is(id, "settings") || str_is(id, "history") {
        TrayEvent::ShowMainWindow
    } else {
        TrayEvent::Unknown
    }
}

/// Every entry of the tray menu, whatever the language, does what it is named for: the
/// capture entry launches a capture, the settings and history entries show the main
/// window, and the quit entry leaves.
pub proof fn tray_entries_do_what_they_say(plan: TrayMenuPlan, language: Seq<char>)
    requires
        tray_plan_matches(plan, language),
    ensures
        tray_event_of(plan.items@[0].id@) == TrayEvent::Capture,
        tray_event_of(plan.items@[1].id@) == TrayEvent::ShowMainWindow,
        tray_event_of(plan.items@[2].id@) == TrayEvent::ShowMainWindow,
        tray_event_of(plan.items@[3].id@) == TrayEvent::Quit,
{
    reveal_strlit("quit");
    reveal_strlit("capture");
    reveal_strlit("settings");
    reveal_strlit("history");
    assert("quit"@.len() != "capture"@.len());
    assert("quit"@.len() != "settings"@.len());
    assert("quit"@.len() != "history"@.len());
    assert("capture"@.len() != "settings"@.len());
    assert("capture"@[0] != "history"@[0]);
}

/// The tray reads the same whether its language is given as written or as normalized.
pub proof fn tray_labels_follow_normalized_language(language: Seq<char>)
    ensures
        tray_labels_of(normalized_language(language)) == tray_labels_of(language),
{
    reveal_strlit("en");
    reveal_strlit("ja");
    reveal_strlit("ko");
    reveal_strlit("fr");
    reveal_strlit("de");
    reveal_strlit("zh-CN");
    if !is_listed_language(language) {
        assert("zh-CN"@.len() != "en"@.len());
        assert("zh-CN"@.len() != "ja"@.len());
        assert("zh-CN"@.len() != "ko"@.len());
        assert("zh-CN"@.len() != "fr"@.len());
        assert("zh-CN"@.len() != "de"@.len());
    }
}

/// A command the desktop shell hands its core, as far as its name goes.
#[derive(Debug, Clone, Copy, PartialEq, Eq, Structural)]
pub enum CoreCommandKind {
    StartCapture,
    CancelCapture,
    CompleteCapture,
    PinImage,
    RunOcr,
    CancelOcr,
    Translate,
    RunOcrAndTranslate,
    UpdateSettings,
    RegisterModel,
    ImportModel,
    DrainEvents,
}

/// The log name of a command.
pub open spec fn command_label(value: CoreCommandKind) -> Seq<char> {
    match value {
        CoreCommandKind::StartCapture => "start_capture"@,
        CoreCommandKind::CancelCapture => "cancel_capture"@,
        CoreCommandKind::CompleteCapture => "complete_capture"@,
        CoreCommandKind::PinImage => "pin_image"@,
        CoreCommandKind::RunOcr => "run_ocr"@,
        CoreCommandKind::CancelOcr => "cancel_ocr"@,
        CoreCommandKind::Translate => "translate"@,
        CoreCommandKind::RunOcrAndTranslate => "run_ocr_and_translate"@,
        CoreCommandKind::UpdateSettings => "update_settings"@,
        CoreCommandKind::RegisterModel => "register_model"@,
        CoreCommandKind::ImportModel => "import_model"@,
        CoreCommandKind::DrainEvents => "drain_events"@,
    }
}

/// The name under which a core command is logged.
pub fn command_name(command: CoreCommandKind) -> (r: &'static str)
    ensures
        r@ == command_label(command),
{
    match command {
        CoreCommandKind::StartCapture => "start_capture",
        CoreCommandKind::CancelCapture => "cancel_capture",
        CoreCommandKind::CompleteCapture => "complete_capture",
        CoreCommandKind::PinImage => "pin_image",
        CoreCommandKind::RunOcr => "run_ocr",
        CoreCommandKind::CancelOcr => "cancel_ocr",
        CoreCommandKind::Translate => "translate",
        CoreCommandKind::RunOcrAndTranslate => "run_ocr_and_translate",
        CoreCommandKind::UpdateSettings => "update_settings",
        CoreCommandKind::RegisterModel => "register_model",
        CoreCommandKind::ImportModel => "import_model",
        CoreCommandKind::DrainEvents => "drain_events",
    }
}

/// An event the core reports, as far as its name goes.
#[derive(Debug, Clone, Copy, PartialEq, Eq, Structural)]
pub enum CoreEventKind {
    CaptureStarted,
    CaptureCanceled,
    CaptureFinished,
    ImagePinned,
    OcrQueued,
    OcrCanceled,
    OcrCompleted,
    TranslationQueued,
    TranslationCompleted,
    ModelRegistered,
    SettingsUpdated,
    Error,
}

/// The log name of a event.
pub open spec fn event_label(value: CoreEventKind) -> Seq<char> {
    match value {
        CoreEventKind::CaptureStarted => "capture_started"@,
        CoreEventKind::CaptureCanceled => "capture_canceled"@,
        CoreEventKind::CaptureFinished => "capture_finished"@,
        CoreEventKind::ImagePinned => "image_pinned"@,
        CoreEventKind::OcrQueued => "ocr_queued"@,
        CoreEventKind::OcrCanceled => "ocr_canceled"@,
        CoreEventKind::OcrCompleted => "ocr_completed"@,
        CoreEventKind::TranslationQueued => "translation_queued"@,
        CoreEventKind::TranslationCompleted => "translation_completed"@,
        CoreEventKind::ModelRegistered => "model_registered"@,
        CoreEventKind::SettingsUpdated => "settings_updated"@,
        CoreEventKind::Error => "error"@,
    }
}

/// The name under which a core event is logged.
pub fn event_name(event: CoreEventKind) -> (r: &'static str)
    ensures
        r@ == event_label(event),
{
    match event {
        CoreEventKind::CaptureStarted => "capture_started",
        CoreEventKind::CaptureCanceled => "capture_canceled",
        CoreEventKind::CaptureFinished => "capture_finished",
        CoreEventKind::ImagePinned => "image_pinned",
        CoreEventKind::OcrQueued => "ocr_queued",
        CoreEventKind::OcrCanceled => "ocr_canceled",
        CoreEventKind::OcrCompleted => "ocr_completed",
        CoreEventKind::TranslationQueued => "translation_queued",
        CoreEventKind::TranslationCompleted => "translation_completed",
        CoreEventKind::ModelRegistered => "model_registered",
        CoreEventKind::SettingsUpdated => "settings_updated",
        CoreEventKind::Error => "error",
    }
}

} // verus!
