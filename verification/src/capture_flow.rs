use vstd::prelude::*;

use crate::chars::{push_str_chars, str_is, string_from_chars};
use crate::ocr_text::{pin_image_id, pin_image_id_from_stem};
use crate::pixels::{check_shared_snapshot, snapshot_dimensions_fit, snapshot_load_error};
use crate::providers::{CaptureAction, ColorValueFormat, OcrProvider};

verus! {

/// Where the capture overlay stands.
#[derive(Debug, Clone, Copy, PartialEq, Eq, Structural)]
pub enum CaptureStatus {
    Idle,
    Selecting,
    Capturing,
}

/// What a capture action starts.
#[derive(Debug, Clone, Copy, PartialEq, Eq, Structural)]
pub enum CaptureStep {
    /// Nothing: no selection is being made, a capture is under way, or the selection is
    /// missing or too small.
    Ignore,
    /// Open the save dialog a moment later.
    DeferSave,
    /// Pin the selection.
    PinSelection,
    /// Copy the selection to the clipboard.
    CopySelection,
}

/// What a capture action starts: nothing unless a selection is being made and there is
/// one large enough; otherwise saving is deferred, copying copies, and pinning and the
/// editor (not implemented) pin. The status becomes `Capturing` unless nothing starts.
pub fn run_capture_action(
    status: CaptureStatus,
    has_selection: bool,
    selection_large_enough: bool,
    action: CaptureAction,
) -> (r: (CaptureStatus, CaptureStep))
    ensures
        (status != CaptureStatus::Selecting || !has_selection || !selection_large_enough) ==> r == (
            status,
            CaptureStep::Ignore,
        ),
        (status == CaptureStatus::Selecting && has_selection && selection_large_enough) ==> r == (
            CaptureStatus::Capturing,
            match action {
                CaptureAction::Save => CaptureStep::DeferSave,
                CaptureAction::Copy => CaptureStep::CopySelection,
                CaptureAction::Pin | CaptureAction::Editor => CaptureStep::PinSelection,
            },
        ),
{
    match status {
        CaptureStatus::Idle | CaptureStatus::Capturing => return (status, CaptureStep::Ignore),
        CaptureStatus::Selecting => {},
    }
    if !has_selection || !selection_large_enough {
        return (status, CaptureStep::Ignore);
    }
    let step = match action {
        CaptureAction::Save => CaptureStep::DeferSave,
        CaptureAction::Copy => CaptureStep::CopySelection,
        CaptureAction::Pin | CaptureAction::Editor => CaptureStep::PinSelection,
    };
    (CaptureStatus::Capturing, step)
}

/// Why the desktop shell's request to pin the current selection is refused.
pub open spec fn pin_selection_error(
    status: CaptureStatus,
    has_selection: bool,
    selection_large_enough: bool,
) -> Option<Seq<char>> {
    if status != CaptureStatus::Selecting {
        Some("capture_overlay_inactive"@)
    } else if !has_selection {
        Some("capture_selection_missing"@)
    } else if !selection_large_enough {
        Some("capture_selection_too_small"@)
    } else {
        None
    }
}

/// The desktop shell's request to pin the current selection: refused, with a code,
/// unless a selection is being made and there is one large enough; otherwise the
/// selection is pinned and a capture is under way.
pub fn pin_current_selection(
    status: CaptureStatus,
    has_selection: bool,
    selection_large_enough: bool,
) -> (r: Result<(CaptureStatus, CaptureStep), String>)
    ensures
        match pin_selection_error(status, has_selection, selection_large_enough) {
            Some(code) => r matches Err(e) && e@ == code,
            None => r == Ok::<(CaptureStatus, CaptureStep), String>(
                (CaptureStatus::Capturing, CaptureStep::PinSelection),
            ),
        },
{
    match status {
        CaptureStatus::Selecting => {},
        _ => return Err("capture_overlay_inactive".to_owned()),
    }
    if !has_selection {
        return Err("capture_selection_missing".to_owned());
    }
    if !selection_large_enough {
        return Err("capture_selection_too_small".to_owned());
    }
    Ok(run_capture_action(status, has_selection, selection_large_enough, CaptureAction::Pin))
}

/// The error code of a save dialog the user closed.
pub open spec fn save_canceled_code() -> Seq<char> {
    "save_canceled"@
}

/// What follows a finished capture action.
#[derive(Debug)]
pub enum CaptureOutcome {
    /// The overlay closes.
    Dismiss,
    /// The user makes the selection again; an error to show, if the action failed.
    Reselect(Option<String>),
}

/// What follows a finished capture action: the overlay closes after success; after a
/// cancelled save dialog the user selects again; after a failure too, with the error
/// shown.
pub fn finish_capture_action(result: Result<(), String>) -> (r: CaptureOutcome)
    ensures
        match result {
            Ok(_) => r is Dismiss,
            Err(e) => if e@ == save_canceled_code() {
                r == CaptureOutcome::Reselect(None)
            } else {
                r == CaptureOutcome::Reselect(Some(e))
            },
        },
{
    match result {
        Ok(()) => CaptureOutcome::Dismiss,
        Err(e) => {
            if str_is(e.as_str(), "save_canceled") {
                CaptureOutcome::Reselect(None)
            } else {
                CaptureOutcome::Reselect(Some(e))
            }
        },
    }
}

/// The screen capture back ends, in the order they are tried.
pub open spec fn backend_names() -> Seq<Seq<char>> {
    seq!["wgc"@, "dxgi"@, "gdi"@]
}

/// The screen capture back ends, in the order they are tried.
pub fn capture_backend_names() -> (r: Vec<&'static str>)
    ensures
        r@.map_values(|s: &'static str| s@) == backend_names(),
{
    let mut r: Vec<&'static str> = Vec::new();
    r.push("wgc");
    r.push("dxgi");
    r.push("gdi");
    assert(r@.map_values(|s: &'static str| s@) =~= backend_names());
    r
}

/// What the screen capture does next.
#[derive(Debug)]
pub enum BackendStep {
    /// Try the back end at this position.
    Try(usize),
    /// The capture is over: the back end that succeeded, or the error.
    Done(Result<usize, String>),
}

/// The message when no back end could be tried.
pub open spec fn no_backend_message() -> Seq<char> {
    "no screenshot backend is available"@
}

/// One step of capturing the screen: back ends are tried in order, the first that
/// succeeds gives the picture, and when all fail the last one's error is the outcome
/// (or, with no back end at all, that none is available). `last` is the outcome of the
/// back end at `tried - 1`, absent before the first.
pub fn capture_with_preferred_backend(tried: usize, last: Option<Result<(), String>>, count: usize) -> (r:
    BackendStep)
    requires
        tried <= count,
        tried == 0 <==> last is None,
    ensures
        match last {
            Some(Ok(_)) => r == BackendStep::Done(Ok((tried - 1) as usize)),
            Some(Err(e)) => if tried < count {
                r == BackendStep::Try(tried)
            } else {
                r == BackendStep::Done(Err(e))
            },
            None => if count > 0 {
                r == BackendStep::Try(0)
            } else {
                r matches BackendStep::Done(Err(m)) && m@ == no_backend_message()
            },
        },
{
    match last {
        Some(Ok(())) => BackendStep::Done(Ok(tried - 1)),
        Some(Err(e)) => {
            if tried < count {
                BackendStep::Try(tried)
            } else {
                BackendStep::Done(Err(e))
            }
        },
        None => {
            if count > 0 {
                BackendStep::Try(0)
            } else {
                BackendStep::Done(Err("no screenshot backend is available".to_owned()))
            }
        },
    }
}

/// How a pin image is recognised: by the system's OCR, or by the OCR engine, which loads
/// a local model first when the provider is a local one.
#[derive(Debug)]
pub struct PinOcrPlan {
    pub image_id: String,
    pub job_id: String,
    pub use_system_ocr: bool,
    pub load_local_model: bool,
}

/// How a pin image is recognised: the image is named `pin-` and the job `pin-ocr-`
/// followed by the image's safe file stem; the system provider uses the system's OCR,
/// and a local provider loads a model into the engine.
pub fn pin_ocr_plan(stem: Option<&str>, provider: &OcrProvider) -> (r: PinOcrPlan)
    ensures
        r.image_id@ == "pin-"@ + pin_image_id(
            match stem {
                Some(s) => Some(s@),
                None => None,
            },
        ),
        r.job_id@ == "pin-ocr-"@ + pin_image_id(
            match stem {
                Some(s) => Some(s@),
                None => None,
            },
        ),
        r.use_system_ocr == (*provider is System),
        r.load_local_model == (*provider is Local),
{
    let id = pin_image_id_from_stem(stem);
    let mut image_id: Vec<char> = Vec::new();
    push_str_chars(&mut image_id, "pin-");
    push_str_chars(&mut image_id, id.as_str());
    let mut job_id: Vec<char> = Vec::new();
    push_str_chars(&mut job_id, "pin-ocr-");
    push_str_chars(&mut job_id, id.as_str());
    let use_system_ocr = match provider {
        OcrProvider::System => true,
        _ => false,
    };
    let load_local_model = match provider {
        OcrProvider::Local(_) => true,
        _ => false,
    };
    PinOcrPlan {
        image_id: string_from_chars(&image_id),
        job_id: string_from_chars(&job_id),
        use_system_ocr,
        load_local_model,
    }
}

/// The model an OCR job runs with once a local model was found: the one the job names,
/// or else the one found.
pub fn job_model_after_selection(job_model: Option<String>, found: Option<String>) -> (r: Option<String>)
    ensures
        r == (if job_model is Some {
            job_model
        } else {
            found
        }),
{
    match job_model {
        Some(m) => Some(m),
        None => found,
    }
}

/// The edges of a selection a drag resizes.
#[derive(Debug, Clone, Copy, PartialEq, Eq, Structural)]
pub struct ResizeEdges {
    pub left: bool,
    pub right: bool,
    pub top: bool,
    pub bottom: bool,
}

/// What dragging the pointer does to the selection.
#[derive(Debug, Clone, Copy, PartialEq, Eq, Structural)]
pub enum CaptureDragMode {
    /// A new selection is drawn.
    Create,
    /// The selection moves.
    Move,
    /// The selection's edges near the pointer move.
    Resize(ResizeEdges),
}

/// What a drag starting at a point does to the selection: near any edge it resizes
/// those edges, inside it moves the selection, and elsewhere it draws a new one.
pub fn selection_drag_mode(
    near_left: bool,
    near_right: bool,
    near_top: bool,
    near_bottom: bool,
    inside: bool,
) -> (r: CaptureDragMode)
    ensures
        (near_left || near_right || near_top || near_bottom) ==> r == CaptureDragMode::Resize(
            ResizeEdges { left: near_left, right: near_right, top: near_top, bottom: near_bottom },
        ),
        !(near_left || near_right || near_top || near_bottom) && inside ==> r == CaptureDragMode::Move,
        !(near_left || near_right || near_top || near_bottom) && !inside ==> r == CaptureDragMode::Create,
{
    if near_left || near_right || near_top || near_bottom {
        CaptureDragMode::Resize(
            ResizeEdges { left: near_left, right: near_right, top: near_top, bottom: near_bottom },
        )
    } else if inside {
        CaptureDragMode::Move
    } else {
        CaptureDragMode::Create
    }
}

/// A drag of the pointer under way: where it started, the selection it started from,
/// and what it does.
#[derive(Debug, Clone, Copy, PartialEq, Eq)]
pub struct CaptureDrag<R, P> {
    pub start: P,
    pub start_selection: R,
    pub mode: CaptureDragMode,
}

/// Whether a drag under way draws a new selection.
pub open spec fn drag_creates<R, P>(drag: Option<CaptureDrag<R, P>>) -> bool {
    match drag {
        Some(d) => d.mode == CaptureDragMode::Create,
        None => false,
    }
}

/// The selection of the capture overlay as the pointer shapes it; `R` is a rectangle
/// and `P` a point on the screen.
#[derive(Debug, Clone, Copy)]
pub struct CaptureSelection<R, P> {
    pub selection: Option<R>,
    pub drag: Option<CaptureDrag<R, P>>,
    pub hovered_region: Option<R>,
}

impl<R: Copy, P: Copy> CaptureSelection<R, P> {
    /// No selection, no drag, no window region under the pointer.
    pub fn new() -> (r: Self)
        ensures
            r.selection is None,
            r.drag is None,
            r.hovered_region is None,
    {
        CaptureSelection { selection: None, drag: None, hovered_region: None }
    }

    /// The pointer hovers: while nothing is selected or dragged, the window region under
    /// it is shown; once something is selected, none is.
    pub fn hover(&mut self, region_under_pointer: Option<R>)
        ensures
            final(self).selection == old(self).selection,
            final(self).drag == old(self).drag,
            old(self).drag is None && old(self).selection is None ==> final(self).hovered_region
                == region_under_pointer,
            old(self).selection is Some ==> final(self).hovered_region is None,
            old(self).drag is Some && old(self).selection is None ==> final(self).hovered_region
                == old(self).hovered_region,
    {
        if self.drag.is_none() && self.selection.is_none() {
            self.hovered_region = region_under_pointer;
        } else if self.selection.is_some() {
            self.hovered_region = None;
        }
    }

    /// The primary button goes down at `at` (`at_rect` is the empty rectangle there):
    /// on a selection with its toolbar shown, a toolbar button under the pointer is
    /// clicked (returned, nothing else changes); otherwise a drag of the selection
    /// starts in the mode the point gives, or, with nothing selected, a new selection
    /// starts at the point.
    pub fn press(
        &mut self,
        at: P,
        at_rect: R,
        show_toolbar: bool,
        toolbar_action: Option<CaptureAction>,
        mode_at: CaptureDragMode,
    ) -> (r: Option<CaptureAction>)
        ensures
            final(self).hovered_region == old(self).hovered_region,
            match old(self).selection {
                Some(sel) => if show_toolbar && toolbar_action is Some {
                    r == toolbar_action && final(self).selection == old(self).selection
                        && final(self).drag == old(self).drag
                } else {
                    r is None && final(self).selection == old(self).selection && final(self).drag
                        == Some(CaptureDrag { start: at, start_selection: sel, mode: mode_at })
                },
                None => r is None && final(self).selection == Some(at_rect) && final(self).drag
                    == Some(CaptureDrag { start: at, start_selection: at_rect, mode: CaptureDragMode::Create }),
            },
    {
        match self.selection {
            Some(sel) => {
                if show_toolbar {
                    match toolbar_action {
                        Some(a) => {
                            return Some(a);
                        },
                        None => {},
                    }
                }
                self.drag = Some(CaptureDrag { start: at, start_selection: sel, mode: mode_at });
                None
            },
            None => {
                self.drag = Some(CaptureDrag { start: at, start_selection: at_rect, mode: CaptureDragMode::Create });
                self.selection = Some(at_rect);
                None
            },
        }
    }

    /// The primary button is held while a drag is under way: the selection becomes what
    /// the drag makes of it at the pointer.
    pub fn drag_to(&mut self, dragged: R)
        requires
            old(self).drag is Some,
        ensures
            final(self).selection == Some(dragged),
            final(self).drag == old(self).drag,
            final(self).hovered_region == old(self).hovered_region,
    {
        self.selection = Some(dragged);
    }

    /// The primary button is released: the drag ends; a click that would have drawn a
    /// new selection selects the window region under the pointer (or the one shown), or
    /// nothing; otherwise a selection too small to use is dropped. `was_click` tells
    /// whether the pointer barely moved since the press, and `large_enough` whether the
    /// current selection is large enough to use.
    pub fn release(&mut self, was_click: bool, clicked_region: Option<R>, large_enough: bool)
        ensures
            final(self).drag is None,
            final(self).hovered_region == old(self).hovered_region,
            (was_click && drag_creates(old(self).drag))
                ==> final(self).selection == (match clicked_region {
                Some(r) => Some(r),
                None => old(self).hovered_region,
            }),
            !(was_click && drag_creates(old(self).drag))
                ==> final(self).selection == (if old(self).selection is Some && !large_enough {
                None
            } else {
                old(self).selection
            }),
    {
        let created = match self.drag {
            Some(d) => d.mode == CaptureDragMode::Create,
            None => false,
        };
        self.drag = None;
        if was_click && created {
            self.selection = match clicked_region {
                Some(r) => Some(r),
                None => self.hovered_region,
            };
        } else if self.selection.is_some() && !large_enough {
            self.selection = None;
        }
    }
}

/// How the capture overlay starts: a resident overlay waits idle and serves commands
/// from the desktop shell; one started for a single capture is selecting at once and
/// serves none. The flag tells whether the command server runs.
pub fn initial_status(resident: bool) -> (r: (CaptureStatus, bool))
    ensures
        r == (if resident {
            (CaptureStatus::Idle, true)
        } else {
            (CaptureStatus::Selecting, false)
        }),
{
    if resident {
        (CaptureStatus::Idle, true)
    } else {
        (CaptureStatus::Selecting, false)
    }
}

/// The capture overlay's own state, apart from its options, its snapshot and the
/// geometry of its regions: where it stands, whether it stays resident, the selection
/// the pointer shapes, whether a save waits to open its dialog, the error shown, how a
/// picked colour is written and whether Shift was down in the last frame.
#[derive(Debug)]
pub struct CaptureUiState<R, P> {
    pub status: CaptureStatus,
    pub resident: bool,
    pub selection: CaptureSelection<R, P>,
    pub save_pending: bool,
    pub last_error: Option<String>,
    pub color_format: ColorValueFormat,
    pub shift_down_last_frame: bool,
}

/// Whether the selection, the drag, the hovered region and the waiting save are all
/// gone.
pub open spec fn capture_cleared<R, P>(s: CaptureUiState<R, P>) -> bool {
    &&& s.selection.selection is None
    &&& s.selection.drag is None
    &&& s.selection.hovered_region is None
    &&& !s.save_pending
}

impl<R: Copy, P: Copy> CaptureUiState<R, P> {
    /// The capture overlay as it starts: as [`initial_status`] says, with nothing
    /// selected, hex colours, and the error of loading its snapshot shown when it was
    /// started for a single capture (a resident overlay loads none).
    pub fn new(resident: bool, snapshot_error: Option<String>) -> (r: Self)
        ensures
            r.status == (if resident {
                CaptureStatus::Idle
            } else {
                CaptureStatus::Selecting
            }),
            r.resident == resident,
            capture_cleared(r),
            r.last_error == (if resident {
                None
            } else {
                snapshot_error
            }),
            r.color_format == ColorValueFormat::Hex,
            !r.shift_down_last_frame,
    {
        let (status, _serves_commands) = initial_status(resident);
        CaptureUiState {
            status,
            resident,
            selection: CaptureSelection::new(),
            save_pending: false,
            last_error: if resident {
                None
            } else {
                snapshot_error
            },
            color_format: ColorValueFormat::Hex,
            shift_down_last_frame: false,
        }
    }

    /// A capture command was taken and its snapshot loaded, or not (the error): the
    /// overlay starts selecting afresh with nothing selected and no save waiting; after
    /// a load, colours are written in hex again, Shift counts as up and no error shows;
    /// after a failed load, the error shows.
    pub fn begin_capture(&mut self, snapshot_loaded: Result<(), String>)
        ensures
            final(self).status == CaptureStatus::Selecting,
            final(self).resident == old(self).resident,
            capture_cleared(*final(self)),
            match snapshot_loaded {
                Ok(_) => {
                    &&& final(self).last_error is None
                    &&& final(self).color_format == ColorValueFormat::Hex
                    &&& !final(self).shift_down_last_frame
                },
                Err(e) => {
                    &&& final(self).last_error == Some(e)
                    &&& final(self).color_format == old(self).color_format
                    &&& final(self).shift_down_last_frame == old(self).shift_down_last_frame
                },
            },
    {
        self.save_pending = false;
        self.selection = CaptureSelection::new();
        self.status = CaptureStatus::Selecting;
        match snapshot_loaded {
            Ok(()) => {
                self.color_format = ColorValueFormat::Hex;
                self.shift_down_last_frame = false;
                self.last_error = None;
            },
            Err(e) => {
                self.last_error = Some(e);
            },
        }
    }

    /// A capture command was taken for a snapshot of the given dimensions: when they do
    /// not fit its bytes, the snapshot is not opened and the overlay starts selecting
    /// afresh, showing the load-failure text followed by `: invalid shared snapshot
    /// dimensions` (the command is still answered as taken); otherwise nothing changes
    /// yet and the snapshot is to be opened (returned true), after which
    /// [`Self::begin_capture`] takes the outcome.
    pub fn take_capture_command(
        &mut self,
        width: u32,
        height: u32,
        byte_len: usize,
        load_failed_text: &str,
    ) -> (open_snapshot: bool)
        ensures
            open_snapshot == snapshot_dimensions_fit(width, height, byte_len),
            open_snapshot ==> *final(self) == *old(self),
            !open_snapshot ==> {
                &&& final(self).status == CaptureStatus::Selecting
                &&& final(self).resident == old(self).resident
                &&& capture_cleared(*final(self))
                &&& final(self).last_error matches Some(e) && e@ == snapshot_load_error(
                    load_failed_text@,
                    "invalid shared snapshot dimensions"@,
                )
                &&& final(self).color_format == old(self).color_format
                &&& final(self).shift_down_last_frame == old(self).shift_down_last_frame
            },
    {
        match check_shared_snapshot(width, height, byte_len, load_failed_text) {
            Ok(()) => true,
            Err(e) => {
                self.begin_capture(Err(e));
                false
            },
        }
    }

    /// A command could not be taken: its error shows, nothing else changes.
    pub fn record_error(&mut self, error: String)
        ensures
            final(self).last_error == Some(error),
            final(self).status == old(self).status,
            final(self).resident == old(self).resident,
            final(self).selection == old(self).selection,
            final(self).save_pending == old(self).save_pending,
            final(self).color_format == old(self).color_format,
            final(self).shift_down_last_frame == old(self).shift_down_last_frame,
    {
        self.last_error = Some(error);
    }

    /// The overlay is dismissed: a resident one clears its capture, shows no error and
    /// waits idle; any other closes its window (returned true) and is left as it is.
    pub fn dismiss(&mut self) -> (close_window: bool)
        ensures
            close_window == !old(self).resident,
            old(self).resident ==> {
                &&& final(self).status == CaptureStatus::Idle
                &&& capture_cleared(*final(self))
                &&& final(self).last_error is None
                &&& final(self).resident
                &&& final(self).color_format == old(self).color_format
                &&& final(self).shift_down_last_frame == old(self).shift_down_last_frame
            },
            !old(self).resident ==> final(self).status == old(self).status && final(self).last_error
                == old(self).last_error && final(self).save_pending == old(self).save_pending
                && final(self).selection == old(self).selection,
    {
        if self.resident {
            self.selection = CaptureSelection::new();
            self.save_pending = false;
            self.last_error = None;
            self.status = CaptureStatus::Idle;
            false
        } else {
            true
        }
    }

    /// Shift is read each frame: going down switches how a picked colour is written.
    pub fn shift_state(&mut self, shift_down: bool)
        ensures
            final(self).color_format == (if shift_down && !old(self).shift_down_last_frame {
                old(self).color_format.toggled_spec()
            } else {
                old(self).color_format
            }),
            final(self).shift_down_last_frame == shift_down,
            final(self).status == old(self).status,
            final(self).resident == old(self).resident,
            final(self).selection == old(self).selection,
            final(self).save_pending == old(self).save_pending,
            final(self).last_error == old(self).last_error,
    {
        if shift_down && !self.shift_down_last_frame {
            self.color_format = self.color_format.toggled();
        }
        self.shift_down_last_frame = shift_down;
    }
}

} // verus!
