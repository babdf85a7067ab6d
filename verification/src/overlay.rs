use vstd::prelude::*;

use crate::shell::{CoreCommandKind, OverlayMode};

verus! {

/// An input of the overlay shell; `P` is a point on the screen.
#[derive(Debug, Clone, Copy, PartialEq, Eq)]
pub enum OverlayInput<P> {
    PointerDown(P),
    PointerMove(P),
    PointerUp(P),
    Escape,
    Confirm,
}

/// What a text overlay shows: recognised text or its translation.
#[derive(Debug, Clone, Copy, PartialEq, Eq, Structural)]
pub enum TextOverlayRole {
    Ocr,
    Translation,
}

/// A text shown over the screen: the text, its language if known, where it is (`B`),
/// and its role.
#[derive(Debug, Clone)]
pub struct TextOverlay<B> {
    pub text: String,
    pub language: Option<String>,
    pub bounds: B,
    pub role: TextOverlayRole,
}

/// The texts shown over the screen, in the order they were added.
#[derive(Debug)]
pub struct TextLayer<B> {
    pub overlays: Vec<TextOverlay<B>>,
}

impl<B> TextLayer<B> {
    /// An empty text layer.
    pub fn new() -> (r: Self)
        ensures
            r.overlays@.len() == 0,
    {
        TextLayer { overlays: Vec::new() }
    }

    /// Adds recognised text at the given place, with no language.
    pub fn set_ocr_text(&mut self, text: String, bounds: B)
        ensures
            final(self).overlays@ == old(self).overlays@.push(
                TextOverlay { text, language: None, bounds, role: TextOverlayRole::Ocr },
            ),
    {
        self.overlays.push(TextOverlay { text, language: None, bounds, role: TextOverlayRole::Ocr });
    }

    /// Adds a translation in the given language at the given place.
    pub fn set_translation_text(&mut self, text: String, language: String, bounds: B)
        ensures
            final(self).overlays@ == old(self).overlays@.push(
                TextOverlay {
                    text,
                    language: Some(language),
                    bounds,
                    role: TextOverlayRole::Translation,
                },
            ),
    {
        self.overlays.push(
            TextOverlay { text, language: Some(language), bounds, role: TextOverlayRole::Translation },
        );
    }

    /// The texts shown, in the order they were added.
    pub fn overlays(&self) -> (r: &Vec<TextOverlay<B>>)
        ensures
            r@ == self.overlays@,
    {
        &self.overlays
    }
}

/// A drag of the pointer: the point it started at and the point it has reached.
#[derive(Debug, Clone, Copy, PartialEq, Eq)]
pub struct SelectionDrag<P> {
    pub anchor: P,
    pub current: P,
}

impl<P: Copy> SelectionDrag<P> {
    /// A drag that starts, and so far stays, at `anchor`.
    pub fn new(anchor: P) -> (r: Self)
        ensures
            r == (SelectionDrag { anchor, current: anchor }),
    {
        SelectionDrag { anchor, current: anchor }
    }

    /// The drag reaches `current`.
    pub fn update(&mut self, current: P)
        ensures
            *final(self) == (SelectionDrag { anchor: old(self).anchor, current }),
    {
        self.current = current;
    }

    /// The rectangle the drag spans, as the two corners it was dragged between.
    pub fn rect(&self) -> (r: (P, P))
        ensures
            r == (self.anchor, self.current),
    {
        (self.anchor, self.current)
    }
}

/// The overlay shell: what it is doing, the selection (as the two corners it was dragged
/// between), and the drag under way, if any.
#[derive(Debug)]
pub struct OverlayApp<P> {
    pub mode: OverlayMode,
    pub selection: Option<(P, P)>,
    pub drag: Option<SelectionDrag<P>>,
}

impl<P: Copy> OverlayApp<P> {
    /// The overlay shell before any input: idle, with no selection.
    pub fn new() -> (r: Self)
        ensures
            r.mode == OverlayMode::Idle,
            r.selection is None,
            r.drag is None,
    {
        OverlayApp { mode: OverlayMode::Idle, selection: None, drag: None }
    }

    /// What the overlay shell says when it starts.
    pub fn boot_summary(&self) -> (r: String)
        ensures
            r@ == "snap_pin overlay shell ready: egui/wgpu integration point"@,
    {
        "snap_pin overlay shell ready: egui/wgpu integration point".to_owned()
    }

    /// Takes an input: pressing starts a drag and selecting; moving extends the drag and
    /// the selection with it; releasing ends the drag with the selection it made and the
    /// shell idle; escape drops drag and selection, goes idle and cancels the capture;
    /// confirming starts the capture.
    pub fn handle_input(&mut self, input: OverlayInput<P>) -> (r: Option<CoreCommandKind>)
        ensures
            match input {
                OverlayInput::PointerDown(p) => r is None && final(self).mode == OverlayMode::Selecting
                    && final(self).drag == Some(SelectionDrag { anchor: p, current: p })
                    && final(self).selection == old(self).selection,
                OverlayInput::PointerMove(p) => r is None && final(self).mode == old(self).mode
                    && match old(self).drag {
                    Some(d) => final(self).drag == Some(SelectionDrag { anchor: d.anchor, current: p })
                        && final(self).selection == Some((d.anchor, p)),
                    None => final(self).drag is None && final(self).selection == old(self).selection,
                },
                OverlayInput::PointerUp(p) => r is None && final(self).mode == OverlayMode::Idle
                    && final(self).drag is None && match old(self).drag {
                    Some(d) => final(self).selection == Some((d.anchor, p)),
                    None => final(self).selection == old(self).selection,
                },
                OverlayInput::Escape => r == Some(CoreCommandKind::CancelCapture) && final(self).mode
                    == OverlayMode::Idle && final(self).drag is None && final(self).selection is None,
                OverlayInput::Confirm => r == Some(CoreCommandKind::StartCapture) && final(self).mode
                    == old(self).mode && final(self).drag == old(self).drag && final(self).selection
                    == old(self).selection,
            },
    {
        match input {
            OverlayInput::PointerDown(p) => {
                self.mode = OverlayMode::Selecting;
                self.drag = Some(SelectionDrag::new(p));
                None
            },
            OverlayInput::PointerMove(p) => {
                match self.drag {
                    Some(d) => {
                        let mut d = d;
                        d.update(p);
                        self.drag = Some(d);
                        self.selection = Some(d.rect());
                    },
                    None => {},
                }
                None
            },
            OverlayInput::PointerUp(p) => {
                match self.drag {
                    Some(d) => {
                        let mut d = d;
                        d.update(p);
                        self.selection = Some(d.rect());
                    },
                    None => {},
                }
                self.drag = None;
                self.mode = OverlayMode::Idle;
                None
            },
            OverlayInput::Escape => {
                self.drag = None;
                self.selection = None;
                self.mode = OverlayMode::Idle;
                Some(CoreCommandKind::CancelCapture)
            },
            OverlayInput::Confirm => Some(CoreCommandKind::StartCapture),
        }
    }
}

/// A recognised text block as the overlay shell shows it: its text and place.
#[derive(Debug, Clone)]
pub struct OcrTextPlacement<B> {
    pub text: String,
    pub bounds: B,
}

/// What the overlay shell shows of an OCR result: each block's text at its place, after
/// the texts already shown.
pub fn show_ocr_result<B: Copy>(layer: &mut TextLayer<B>, blocks: &[OcrTextPlacement<B>])
    ensures
        final(layer).overlays@.len() == old(layer).overlays@.len() + blocks@.len(),
        forall|i: int| 0 <= i < old(layer).overlays@.len() ==> #[trigger] final(layer).overlays@[i] == old(
            layer,
        ).overlays@[i],
        forall|k: int|
            0 <= k < blocks@.len() ==> {
                let o = #[trigger] final(layer).overlays@[old(layer).overlays@.len() + k];
                &&& o.text@ == blocks@[k].text@
                &&& o.language is None
                &&& o.bounds == blocks@[k].bounds
                &&& o.role == TextOverlayRole::Ocr
            },
{
    let ghost start = layer.overlays@.len();
    let mut k: usize = 0;
    while k < blocks.len()
        invariant
            k <= blocks.len(),
            start == old(layer).overlays@.len(),
            layer.overlays@.len() == start + k,
            forall|i: int| 0 <= i < start ==> #[trigger] layer.overlays@[i] == old(layer).overlays@[i],
            forall|j: int|
                0 <= j < k ==> {
                    let o = #[trigger] layer.overlays@[start + j];
                    &&& o.text@ == blocks@[j].text@
                    &&& o.language is None
                    &&& o.bounds == blocks@[j].bounds
                    &&& o.role == TextOverlayRole::Ocr
                },
        decreases blocks.len() - k,
    {
        let text = blocks[k].text.clone();
        layer.set_ocr_text(text, blocks[k].bounds);
        assert(layer.overlays@[start + k as int].bounds == blocks@[k as int].bounds);
        k = k + 1;
    }
}

/// Where the overlay shell shows a translation: over the selection, or at the default
/// place when there is none.
pub fn translation_bounds<B: Copy>(selection: Option<B>, default: B) -> (r: B)
    ensures
        r == (match selection {
            Some(s) => s,
            None => default,
        }),
{
    match selection {
        Some(s) => s,
        None => default,
    }
}

} // verus!
