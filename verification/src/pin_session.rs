use vstd::prelude::*;

use crate::pin_text::{is_blank, text_is_blank, OcrBlockText, PinBlockTranslation};
use crate::toolbar::PinToolbarAction;

verus! {

/// What a pin window's OCR and translation stand at. `R` is the OCR result.
#[derive(Debug)]
pub struct PinOcrSession<R> {
    /// An OCR job is running.
    pub ocr_running: bool,
    /// A translation job is running.
    pub translate_running: bool,
    /// The OCR result shown.
    pub ocr_result: Option<R>,
    /// The status line shown, if any.
    pub ocr_status: Option<String>,
    /// The OCR block selected.
    pub selected_ocr_block: Option<usize>,
    /// The translations shown.
    pub block_translations: Vec<PinBlockTranslation>,
    /// A translation is to follow the running OCR.
    pub translate_after_ocr: bool,
}

/// What asking for a translation starts.
#[derive(Debug, Clone, Copy, PartialEq, Eq, Structural)]
pub enum TranslationStart {
    /// Nothing: a translation is already running.
    Nothing,
    /// OCR first (the flag tells whether an OCR job was started); the translation
    /// follows when it is done.
    OcrFirst(bool),
    /// The translation of the shown OCR result.
    Translation,
}

/// The status line while OCR runs.
pub open spec fn ocr_running_text() -> Seq<char> {
    "OCR running..."@
}

/// The status line while OCR runs before a translation.
pub open spec fn ocr_before_translation_text() -> Seq<char> {
    "OCR running before translation..."@
}

/// The status line while a translation runs.
pub open spec fn translation_running_text() -> Seq<char> {
    "Translation running..."@
}

impl<R> PinOcrSession<R> {
    /// What always holds: a block is selected only while an OCR result is shown, and no
    /// OCR result is shown while a new one is being made.
    pub open spec fn wf(&self) -> bool {
        &&& self.selected_ocr_block is Some ==> self.ocr_result is Some
        &&& self.ocr_running ==> self.ocr_result is None
    }

    /// A pin window before any OCR.
    pub fn new() -> (r: Self)
        ensures
            r.wf(),
            !r.ocr_running,
            !r.translate_running,
            r.ocr_result is None,
            r.ocr_status is None,
            r.selected_ocr_block is None,
            r.block_translations@.len() == 0,
            !r.translate_after_ocr,
    {
        PinOcrSession {
            ocr_running: false,
            translate_running: false,
            ocr_result: None,
            ocr_status: None,
            selected_ocr_block: None,
            block_translations: Vec::new(),
            translate_after_ocr: false,
        }
    }

    /// Asks for OCR of the pin's image: nothing while OCR runs; without an image, the
    /// result is dropped and `missing_image_text` shown; otherwise the result, the
    /// selection and the translations are dropped and an OCR job starts. Whether a job
    /// starts is returned.
    pub fn run_ocr(&mut self, has_image: bool, missing_image_text: &str) -> (started: bool)
        requires
            old(self).wf(),
        ensures
            final(self).wf(),
            started == (!old(self).ocr_running && has_image),
            old(self).ocr_running ==> *final(self) == *old(self),
            !old(self).ocr_running && !has_image ==> {
                &&& final(self).ocr_result is None
                &&& final(self).ocr_status matches Some(s) && s@ == missing_image_text@
                &&& final(self).selected_ocr_block is None
                &&& final(self).ocr_running == old(self).ocr_running
                &&& final(self).translate_running == old(self).translate_running
                &&& final(self).block_translations == old(self).block_translations
                &&& final(self).translate_after_ocr == old(self).translate_after_ocr
            },
            started ==> {
                &&& final(self).ocr_running
                &&& final(self).ocr_result is None
                &&& final(self).ocr_status matches Some(s) && s@ == ocr_running_text()
                &&& final(self).selected_ocr_block is None
                &&& final(self).block_translations@.len() == 0
                &&& final(self).translate_running == old(self).translate_running
                &&& final(self).translate_after_ocr == old(self).translate_after_ocr
            },
    {
        if self.ocr_running {
            return false;
        }
        if !has_image {
            self.ocr_result = None;
            self.ocr_status = Some(missing_image_text.to_owned());
            self.selected_ocr_block = None;
            return false;
        }
        self.ocr_status = Some("OCR running...".to_owned());
        self.ocr_result = None;
        self.selected_ocr_block = None;
        self.block_translations = Vec::new();
        self.ocr_running = true;
        true
    }

    /// Asks for a translation: nothing while one runs; without an OCR result that gives
    /// something to translate, OCR runs first and the translation is to follow it;
    /// otherwise the translations are dropped and a translation job starts.
    pub fn run_translation(&mut self, has_image: bool, has_units: bool, missing_image_text: &str) -> (r:
        TranslationStart)
        requires
            old(self).wf(),
        ensures
            final(self).wf(),
            old(self).translate_running ==> r == TranslationStart::Nothing && *final(self) == *old(
                self,
            ),
            !old(self).translate_running && (old(self).ocr_result is None || !has_units) ==> {
                &&& r == TranslationStart::OcrFirst(!old(self).ocr_running && has_image)
                &&& final(self).translate_after_ocr
                &&& final(self).ocr_status matches Some(s) && s@ == ocr_before_translation_text()
                &&& final(self).ocr_running == (old(self).ocr_running || has_image)
            },
            !old(self).translate_running && old(self).ocr_result is Some && has_units ==> {
                &&& r == TranslationStart::Translation
                &&& final(self).translate_running
                &&& !final(self).translate_after_ocr
                &&& final(self).ocr_status matches Some(s) && s@ == translation_running_text()
                &&& final(self).block_translations@.len() == 0
                &&& final(self).ocr_result == old(self).ocr_result
                &&& final(self).selected_ocr_block == old(self).selected_ocr_block
                &&& final(self).ocr_running == old(self).ocr_running
            },
    {
        if self.translate_running {
            return TranslationStart::Nothing;
        }
        if self.ocr_result.is_none() || !has_units {
            self.translate_after_ocr = true;
            let started = self.run_ocr(has_image, missing_image_text);
            self.ocr_status = Some("OCR running before translation...".to_owned());
            return TranslationStart::OcrFirst(started);
        }
        self.translate_after_ocr = false;
        self.ocr_status = Some("Translation running...".to_owned());
        self.block_translations = Vec::new();
        self.translate_running = true;
        TranslationStart::Translation
    }

    /// Closes the OCR view: the jobs are forgotten and the result, status, selection and
    /// translations dropped.
    pub fn close_ocr(&mut self)
        requires
            old(self).wf(),
        ensures
            final(self).wf(),
            !final(self).ocr_running,
            !final(self).translate_running,
            final(self).ocr_result is None,
            final(self).ocr_status is None,
            final(self).selected_ocr_block is None,
            final(self).block_translations@.len() == 0,
            !final(self).translate_after_ocr,
    {
        self.ocr_running = false;
        self.ocr_result = None;
        self.ocr_status = None;
        self.selected_ocr_block = None;
        self.translate_running = false;
        self.block_translations = Vec::new();
        self.translate_after_ocr = false;
    }

    /// Takes the outcome of the OCR job, if one runs: a result is shown with no
    /// selection, status or translations, and the translation that was to follow is due
    /// (returned); a failure drops the result and shows the error.
    pub fn finish_ocr(&mut self, result: Result<R, String>) -> (translate_now: bool)
        requires
            old(self).wf(),
        ensures
            final(self).wf(),
            !old(self).ocr_running ==> !translate_now && *final(self) == *old(self),
            old(self).ocr_running ==> !final(self).ocr_running && final(self).selected_ocr_block is None
                && final(self).translate_running == old(self).translate_running
                && final(self).translate_after_ocr == old(self).translate_after_ocr,
            old(self).ocr_running ==> match result {
                Ok(r) => {
                    &&& final(self).ocr_result == Some(r)
                    &&& final(self).ocr_status is None
                    &&& final(self).block_translations@.len() == 0
                    &&& translate_now == old(self).translate_after_ocr
                },
                Err(e) => {
                    &&& final(self).ocr_result is None
                    &&& final(self).ocr_status == Some(e)
                    &&& final(self).block_translations == old(self).block_translations
                    &&& !translate_now
                },
            },
    {
        if !self.ocr_running {
            return false;
        }
        self.ocr_running = false;
        match result {
            Ok(r) => {
                self.ocr_status = None;
                self.selected_ocr_block = None;
                self.block_translations = Vec::new();
                self.ocr_result = Some(r);
                self.translate_after_ocr
            },
            Err(e) => {
                self.ocr_result = None;
                self.selected_ocr_block = None;
                self.ocr_status = Some(e);
                false
            },
        }
    }

    /// Takes the outcome of the translation job, if one runs: the translations are
    /// shown, or dropped and the error shown; no translation is to follow any more.
    pub fn finish_translation(&mut self, result: Result<Vec<PinBlockTranslation>, String>)
        requires
            old(self).wf(),
        ensures
            final(self).wf(),
            !old(self).translate_running ==> *final(self) == *old(self),
            old(self).translate_running ==> !final(self).translate_running && !final(self).translate_after_ocr
                && final(self).ocr_result == old(self).ocr_result && final(self).selected_ocr_block
                == old(self).selected_ocr_block && final(self).ocr_running == old(self).ocr_running,
            old(self).translate_running ==> match result {
                Ok(ts) => final(self).ocr_status is None && final(self).block_translations == ts,
                Err(e) => final(self).ocr_status == Some(e) && final(self).block_translations@.len() == 0,
            },
    {
        if !self.translate_running {
            return;
        }
        self.translate_running = false;
        self.translate_after_ocr = false;
        match result {
            Ok(ts) => {
                self.ocr_status = None;
                self.block_translations = ts;
            },
            Err(e) => {
                self.block_translations = Vec::new();
                self.ocr_status = Some(e);
            },
        }
    }

    /// Selects the OCR block under a click, if any; nothing is selected while no OCR
    /// result is shown.
    pub fn select_block(&mut self, block: Option<usize>)
        requires
            old(self).wf(),
        ensures
            final(self).wf(),
            final(self).selected_ocr_block == (if old(self).ocr_result is Some {
                block
            } else {
                None
            }),
            final(self).ocr_result == old(self).ocr_result,
            final(self).ocr_running == old(self).ocr_running,
            final(self).translate_running == old(self).translate_running,
    {
        if self.ocr_result.is_some() {
            self.selected_ocr_block = block;
        } else {
            self.selected_ocr_block = None;
        }
    }
}

/// The last OCR block with text under the pointer, `under_pointer[i]` telling whether
/// the pointer is over block `i`'s area.
pub open spec fn block_at(blocks: Seq<OcrBlockText>, under_pointer: Seq<bool>) -> Option<int> {
    if exists|i: int|
        0 <= i < blocks.len() && i < under_pointer.len() && !is_blank(blocks[i].text@)
            && under_pointer[i] {
        Some(
            choose|i: int|
                0 <= i < blocks.len() && i < under_pointer.len() && !is_blank(blocks[i].text@)
                    && under_pointer[i] && forall|j: int|
                    i < j < blocks.len() && j < under_pointer.len() ==> !(!is_blank(
                        #[trigger] blocks[j].text@,
                    ) && under_pointer[j]),
        )
    } else {
        None
    }
}

/// The OCR block under the pointer: the last one with text whose area holds the pointer
/// (later blocks are drawn over earlier ones).
pub fn ocr_block_at(blocks: &[OcrBlockText], under_pointer: &[bool]) -> (r: Option<usize>)
    ensures
        block_at(blocks@, under_pointer@) == match r {
            Some(i) => Some(i as int),
            None => None::<int>,
        },
{
    let n = if blocks.len() < under_pointer.len() {
        blocks.len()
    } else {
        under_pointer.len()
    };
    let mut k: usize = n;
    while k > 0
        invariant
            k <= n,
            n <= blocks.len(),
            n <= under_pointer.len(),
            n == blocks.len() || n == under_pointer.len(),
            forall|j: int|
                k <= j < blocks@.len() && j < under_pointer@.len() ==> !(!is_blank(
                    #[trigger] blocks@[j].text@,
                ) && under_pointer@[j]),
        decreases k,
    {
        let i = k - 1;
        if under_pointer[i] && !text_is_blank(blocks[i].text.as_str()) {
            proof {
                let bs = blocks@;
                let us = under_pointer@;
                let c = choose|x: int|
                    0 <= x < bs.len() && x < us.len() && !is_blank(bs[x].text@) && us[x] && forall|j: int|
                        x < j < bs.len() && j < us.len() ==> !(!is_blank(#[trigger] bs[j].text@) && us[j]);
                assert(0 <= i < bs.len() && i < us.len() && !is_blank(bs[i as int].text@) && us[i as int]
                    && forall|j: int| i < j < bs.len() && j < us.len() ==> !(!is_blank(#[trigger] bs[j].text@) && us[j]));
                if c < i {
                    assert(!(!is_blank(bs[i as int].text@) && us[i as int]));
                }
                if c > i {
                    assert(!(!is_blank(bs[c].text@) && us[c]));
                }
            }
            return Some(i);
        }
        k = i;
    }
    None
}

/// What a pointer gesture on a pin window does.
#[derive(Debug, Clone, Copy, PartialEq, Eq, Structural)]
pub enum PinCanvasStep {
    /// A secondary click hides the shown toolbar.
    HideToolbar,
    /// A secondary click shows the toolbar at the edge nearest the pointer.
    ShowToolbar,
    /// A toolbar button was clicked.
    ToolbarAction(PinToolbarAction),
    /// A double click on the image closes the window.
    Close,
    /// A click on an OCR block selects it.
    SelectBlock(usize),
    /// Otherwise: a click off the toolbar drops the selection, and a drag off the
    /// toolbar and the OCR blocks moves the window.
    Pointer { clear_selection: bool, start_drag: bool },
}

/// What a pointer gesture on a pin window does, the first that applies: a secondary
/// click hides the toolbar when it is shown and otherwise shows it (when the pointer's
/// place is known); a click on a toolbar button runs it; a double click on the image off
/// the toolbar and the OCR blocks closes the window; a click on an OCR block selects it;
/// otherwise a click off the toolbar drops the selection and a drag off the toolbar and
/// the OCR blocks moves the window.
pub fn pin_canvas_step(
    secondary_clicked: bool,
    toolbar_shown: bool,
    pointer_known: bool,
    toolbar_action: Option<PinToolbarAction>,
    double_clicked: bool,
    clicked: bool,
    dragged: bool,
    over_image: bool,
    over_toolbar: bool,
    block_under_pointer: Option<usize>,
) -> (r: Option<PinCanvasStep>)
    ensures
        secondary_clicked ==> r == (if toolbar_shown {
            Some(PinCanvasStep::HideToolbar)
        } else if pointer_known {
            Some(PinCanvasStep::ShowToolbar)
        } else {
            None
        }),
        !secondary_clicked && toolbar_action is Some ==> r == Some(
            PinCanvasStep::ToolbarAction(toolbar_action->0),
        ),
        !secondary_clicked && toolbar_action is None ==> r == (if double_clicked && over_image
            && !over_toolbar && block_under_pointer is None {
            Some(PinCanvasStep::Close)
        } else if clicked && block_under_pointer is Some {
            Some(PinCanvasStep::SelectBlock(block_under_pointer->0))
        } else {
            Some(
                PinCanvasStep::Pointer {
                    clear_selection: clicked && !over_toolbar,
                    start_drag: dragged && !over_toolbar && block_under_pointer is None,
                },
            )
        }),
{
    if secondary_clicked {
        if toolbar_shown {
            return Some(PinCanvasStep::HideToolbar);
        }
        if pointer_known {
            return Some(PinCanvasStep::ShowToolbar);
        }
        return None;
    }
    if let Some(a) = toolbar_action {
        return Some(PinCanvasStep::ToolbarAction(a));
    }
    let over_ocr = block_under_pointer.is_some();
    if double_clicked && over_image && !over_toolbar && !over_ocr {
        return Some(PinCanvasStep::Close);
    }
    if clicked {
        if let Some(b) = block_under_pointer {
            return Some(PinCanvasStep::SelectBlock(b));
        }
    }
    Some(
        PinCanvasStep::Pointer {
            clear_selection: clicked && !over_toolbar,
            start_drag: dragged && !over_toolbar && !over_ocr,
        },
    )
}

} // verus!
