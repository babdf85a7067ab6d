use vstd::prelude::*;

verus! {

/// What a button of a pin window's toolbar does.
#[derive(Debug, Clone, Copy, PartialEq, Eq, Structural)]
pub enum PinToolbarAction {
    CopyImage,
    CopySelectedText,
    CopyAllText,
    SaveImage,
    RunOcr,
    CloseOcr,
    Translate,
    Close,
}

/// The edge of a pin window its toolbar sits at.
#[derive(Debug, Clone, Copy, PartialEq, Eq, Structural)]
pub enum PinToolbarEdge {
    Top,
    Right,
    Bottom,
    Left,
}

impl PinToolbarEdge {
    /// Whether a toolbar at this edge runs horizontally: at the top or the bottom.
    pub fn is_horizontal(self) -> (b: bool)
        ensures
            b == (self is Top || self is Bottom),
    {
        match self {
            PinToolbarEdge::Top | PinToolbarEdge::Bottom => true,
            _ => false,
        }
    }
}

/// The text a toolbar button shows, by the entry of the interface texts it takes.
#[derive(Debug, Clone, Copy, PartialEq, Eq, Structural)]
pub enum PinToolbarLabel {
    CopyImage,
    SaveImage,
    Ocr,
    CloseOcr,
    RerunOcr,
    Translate,
    Close,
    CopySelectedText,
    CopyAllText,
}

/// The keyboard shortcut a toolbar button names.
#[derive(Debug, Clone, Copy, PartialEq, Eq, Structural)]
pub enum ToolbarShortcut {
    CtrlC,
    CtrlShiftC,
    Esc,
}

/// How a shortcut is written.
pub open spec fn shortcut_label(shortcut: ToolbarShortcut) -> Seq<char> {
    match shortcut {
        ToolbarShortcut::CtrlC => "Ctrl+C"@,
        ToolbarShortcut::CtrlShiftC => "Ctrl+Shift+C"@,
        ToolbarShortcut::Esc => "Esc"@,
    }
}

/// How a shortcut is written.
pub fn shortcut_text(shortcut: ToolbarShortcut) -> (r: &'static str)
    ensures
        r@ == shortcut_label(shortcut),
{
    match shortcut {
        ToolbarShortcut::CtrlC => "Ctrl+C",
        ToolbarShortcut::CtrlShiftC => "Ctrl+Shift+C",
        ToolbarShortcut::Esc => "Esc",
    }
}

/// The bar a toolbar button sits in: the toolbar itself, or the OCR bar beside it.
#[derive(Debug, Clone, Copy, PartialEq, Eq, Structural)]
pub enum ToolbarBar {
    Primary,
    Extension,
}

/// A button of a pin window's toolbar, apart from where it is drawn: its bar, its place
/// in that bar counted from 0, its text, its shortcut, what it does and whether it can
/// be clicked.
#[derive(Debug, Clone, Copy, PartialEq, Eq, Structural)]
pub struct PinToolbarButton {
    pub bar: ToolbarBar,
    pub slot: usize,
    pub label: PinToolbarLabel,
    pub shortcut: Option<ToolbarShortcut>,
    pub action: PinToolbarAction,
    pub enabled: bool,
}

/// What a pin window's toolbar depends on: whether OCR text is shown, whether there is
/// any, and whether some of it is selected.
#[derive(Debug, Clone, Copy, PartialEq, Eq, Structural)]
pub struct PinToolbarState {
    pub ocr_active: bool,
    pub has_ocr_text: bool,
    pub has_selected_ocr_text: bool,
}

/// The toolbar's own buttons: copy image, save image, run OCR (close OCR while OCR text
/// is shown), translate and close.
pub open spec fn primary_buttons_of(state: PinToolbarState) -> Seq<PinToolbarButton> {
    seq![
        PinToolbarButton {
            bar: ToolbarBar::Primary,
            slot: 0,
            label: PinToolbarLabel::CopyImage,
            shortcut: Some(ToolbarShortcut::CtrlC),
            action: PinToolbarAction::CopyImage,
            enabled: true,
        },
        PinToolbarButton {
            bar: ToolbarBar::Primary,
            slot: 1,
            label: PinToolbarLabel::SaveImage,
            shortcut: None,
            action: PinToolbarAction::SaveImage,
            enabled: true,
        },
        PinToolbarButton {
            bar: ToolbarBar::Primary,
            slot: 2,
            label: if state.ocr_active {
                PinToolbarLabel::CloseOcr
            } else {
                PinToolbarLabel::Ocr
            },
            shortcut: None,
            action: if state.ocr_active {
                PinToolbarAction::CloseOcr
            } else {
                PinToolbarAction::RunOcr
            },
            enabled: true,
        },
        PinToolbarButton {
            bar: ToolbarBar::Primary,
            slot: 3,
            label: PinToolbarLabel::Translate,
            shortcut: None,
            action: PinToolbarAction::Translate,
            enabled: true,
        },
        PinToolbarButton {
            bar: ToolbarBar::Primary,
            slot: 4,
            label: PinToolbarLabel::Close,
            shortcut: Some(ToolbarShortcut::Esc),
            action: PinToolbarAction::Close,
            enabled: true,
        },
    ]
}

/// The OCR bar's buttons, shown while OCR text is: copy the selected text (when some is
/// selected), copy all text (when there is any) and run OCR again.
pub open spec fn extension_buttons_of(state: PinToolbarState) -> Seq<PinToolbarButton> {
    if state.ocr_active {
        seq![
            PinToolbarButton {
                bar: ToolbarBar::Extension,
                slot: 0,
                label: PinToolbarLabel::CopySelectedText,
                shortcut: Some(ToolbarShortcut::CtrlC),
                action: PinToolbarAction::CopySelectedText,
                enabled: state.has_selected_ocr_text,
            },
            PinToolbarButton {
                bar: ToolbarBar::Extension,
                slot: 1,
                label: PinToolbarLabel::CopyAllText,
                shortcut: Some(ToolbarShortcut::CtrlShiftC),
                action: PinToolbarAction::CopyAllText,
                enabled: state.has_ocr_text,
            },
            PinToolbarButton {
                bar: ToolbarBar::Extension,
                slot: 2,
                label: PinToolbarLabel::RerunOcr,
                shortcut: None,
                action: PinToolbarAction::RunOcr,
                enabled: true,
            },
        ]
    } else {
        Seq::empty()
    }
}

/// The buttons of a pin window's toolbar: its own, then those of the OCR bar.
pub fn pin_toolbar_buttons(state: PinToolbarState) -> (r: Vec<PinToolbarButton>)
    ensures
        r@ == primary_buttons_of(state) + extension_buttons_of(state),
{
    let mut r: Vec<PinToolbarButton> = Vec::new();
    r.push(
        PinToolbarButton {
            bar: ToolbarBar::Primary,
            slot: 0,
            label: PinToolbarLabel::CopyImage,
            shortcut: Some(ToolbarShortcut::CtrlC),
            action: PinToolbarAction::CopyImage,
            enabled: true,
        },
    );
    r.push(
        PinToolbarButton {
            bar: ToolbarBar::Primary,
            slot: 1,
            label: PinToolbarLabel::SaveImage,
            shortcut: None,
            action: PinToolbarAction::SaveImage,
            enabled: true,
        },
    );
    r.push(
        PinToolbarButton {
            bar: ToolbarBar::Primary,
            slot: 2,
            label: if state.ocr_active {
                PinToolbarLabel::CloseOcr
            } else {
                PinToolbarLabel::Ocr
            },
            shortcut: None,
            action: if state.ocr_active {
                PinToolbarAction::CloseOcr
            } else {
                PinToolbarAction::RunOcr
            },
            enabled: true,
        },
    );
    r.push(
        PinToolbarButton {
            bar: ToolbarBar::Primary,
            slot: 3,
            label: PinToolbarLabel::Translate,
            shortcut: None,
            action: PinToolbarAction::Translate,
            enabled: true,
        },
    );
    r.push(
        PinToolbarButton {
            bar: ToolbarBar::Primary,
            slot: 4,
            label: PinToolbarLabel::Close,
            shortcut: Some(ToolbarShortcut::Esc),
            action: PinToolbarAction::Close,
            enabled: true,
        },
    );
    if state.ocr_active {
        r.push(
            PinToolbarButton {
                bar: ToolbarBar::Extension,
                slot: 0,
                label: PinToolbarLabel::CopySelectedText,
                shortcut: Some(ToolbarShortcut::CtrlC),
                action: PinToolbarAction::CopySelectedText,
                enabled: state.has_selected_ocr_text,
            },
        );
        r.push(
            PinToolbarButton {
                bar: ToolbarBar::Extension,
                slot: 1,
                label: PinToolbarLabel::CopyAllText,
                shortcut: Some(ToolbarShortcut::CtrlShiftC),
                action: PinToolbarAction::CopyAllText,
                enabled: state.has_ocr_text,
            },
        );
        r.push(
            PinToolbarButton {
                bar: ToolbarBar::Extension,
                slot: 2,
                label: PinToolbarLabel::RerunOcr,
                shortcut: None,
                action: PinToolbarAction::RunOcr,
                enabled: true,
            },
        );
    }
    assert(r@ =~= primary_buttons_of(state) + extension_buttons_of(state));
    r
}

/// The buttons of the single-bar toolbar: copy image, save image, then (when there is
/// OCR text) copy the selected text and copy all text, then run OCR (named "run again"
/// when there is OCR text), translate and close; each in the next place.
pub open spec fn inline_buttons_of(has_ocr_text: bool, has_selected_ocr_text: bool) -> Seq<
    PinToolbarButton,
> {
    let head = seq![
        PinToolbarButton {
            bar: ToolbarBar::Primary,
            slot: 0,
            label: PinToolbarLabel::CopyImage,
            shortcut: Some(ToolbarShortcut::CtrlC),
            action: PinToolbarAction::CopyImage,
            enabled: true,
        },
        PinToolbarButton {
            bar: ToolbarBar::Primary,
            slot: 1,
            label: PinToolbarLabel::SaveImage,
            shortcut: None,
            action: PinToolbarAction::SaveImage,
            enabled: true,
        },
    ];
    let text = if has_ocr_text {
        seq![
            PinToolbarButton {
                bar: ToolbarBar::Primary,
                slot: 2,
                label: PinToolbarLabel::CopySelectedText,
                shortcut: Some(ToolbarShortcut::CtrlC),
                action: PinToolbarAction::CopySelectedText,
                enabled: has_selected_ocr_text,
            },
            PinToolbarButton {
                bar: ToolbarBar::Primary,
                slot: 3,
                label: PinToolbarLabel::CopyAllText,
                shortcut: Some(ToolbarShortcut::CtrlShiftC),
                action: PinToolbarAction::CopyAllText,
                enabled: true,
            },
        ]
    } else {
        Seq::empty()
    };
    let k: usize = if has_ocr_text {
        4
    } else {
        2
    };
    let tail = seq![
        PinToolbarButton {
            bar: ToolbarBar::Primary,
            slot: k,
            label: if has_ocr_text {
                PinToolbarLabel::RerunOcr
            } else {
                PinToolbarLabel::Ocr
            },
            shortcut: None,
            action: PinToolbarAction::RunOcr,
            enabled: true,
        },
        PinToolbarButton {
            bar: ToolbarBar::Primary,
            slot: (k + 1) as usize,
            label: PinToolbarLabel::Translate,
            shortcut: None,
            action: PinToolbarAction::Translate,
            enabled: true,
        },
        PinToolbarButton {
            bar: ToolbarBar::Primary,
            slot: (k + 2) as usize,
            label: PinToolbarLabel::Close,
            shortcut: Some(ToolbarShortcut::Esc),
            action: PinToolbarAction::Close,
            enabled: true,
        },
    ];
    head + text + tail
}

/// How many buttons the single-bar toolbar has: five, and two more when there is OCR
/// text. It is the number of buttons [`inline_pin_toolbar_buttons`] lays out.
pub fn pin_toolbar_button_count(has_ocr_text: bool) -> (r: usize)
    ensures
        r == (if has_ocr_text {
            7int
        } else {
            5int
        }),
        forall|s: bool| r == inline_buttons_of(has_ocr_text, s).len(),
{
    if has_ocr_text {
        7
    } else {
        5
    }
}

/// The buttons of the single-bar toolbar, each in the place it is listed at.
pub fn inline_pin_toolbar_buttons(has_ocr_text: bool, has_selected_ocr_text: bool) -> (r: Vec<
    PinToolbarButton,
>)
    ensures
        r@ == inline_buttons_of(has_ocr_text, has_selected_ocr_text),
        forall|i: int| 0 <= i < r@.len() ==> r@[i].slot == i,
{
    let mut r: Vec<PinToolbarButton> = Vec::new();
    r.push(
        PinToolbarButton {
            bar: ToolbarBar::Primary,
            slot: 0,
            label: PinToolbarLabel::CopyImage,
            shortcut: Some(ToolbarShortcut::CtrlC),
            action: PinToolbarAction::CopyImage,
            enabled: true,
        },
    );
    r.push(
        PinToolbarButton {
            bar: ToolbarBar::Primary,
            slot: 1,
            label: PinToolbarLabel::SaveImage,
            shortcut: None,
            action: PinToolbarAction::SaveImage,
            enabled: true,
        },
    );
    let mut k: usize = 2;
    if has_ocr_text {
        r.push(
            PinToolbarButton {
                bar: ToolbarBar::Primary,
                slot: 2,
                label: PinToolbarLabel::CopySelectedText,
                shortcut: Some(ToolbarShortcut::CtrlC),
                action: PinToolbarAction::CopySelectedText,
                enabled: has_selected_ocr_text,
            },
        );
        r.push(
            PinToolbarButton {
                bar: ToolbarBar::Primary,
                slot: 3,
                label: PinToolbarLabel::CopyAllText,
                shortcut: Some(ToolbarShortcut::CtrlShiftC),
                action: PinToolbarAction::CopyAllText,
                enabled: true,
            },
        );
        k = 4;
    }
    r.push(
        PinToolbarButton {
            bar: ToolbarBar::Primary,
            slot: k,
            label: if has_ocr_text {
                PinToolbarLabel::RerunOcr
            } else {
                PinToolbarLabel::Ocr
            },
            shortcut: None,
            action: PinToolbarAction::RunOcr,
            enabled: true,
        },
    );
    r.push(
        PinToolbarButton {
            bar: ToolbarBar::Primary,
            slot: k + 1,
            label: PinToolbarLabel::Translate,
            shortcut: None,
            action: PinToolbarAction::Translate,
            enabled: true,
        },
    );
    r.push(
        PinToolbarButton {
            bar: ToolbarBar::Primary,
            slot: k + 2,
            label: PinToolbarLabel::Close,
            shortcut: Some(ToolbarShortcut::Esc),
            action: PinToolbarAction::Close,
            enabled: true,
        },
    );
    assert(r@ =~= inline_buttons_of(has_ocr_text, has_selected_ocr_text));
    r
}

/// The action of the first button that can be clicked among those under the pointer,
/// `under_pointer[i]` telling whether the pointer is over button `i`.
pub open spec fn action_at(buttons: Seq<PinToolbarButton>, under_pointer: Seq<bool>) -> Option<
    PinToolbarAction,
>
    decreases buttons.len(),
{
    if buttons.len() == 0 || under_pointer.len() == 0 {
        None
    } else if buttons[0].enabled && under_pointer[0] {
        Some(buttons[0].action)
    } else {
        action_at(buttons.drop_first(), under_pointer.drop_first())
    }
}

/// What a click on the toolbar does: the action of the first button that can be clicked
/// among those under the pointer, if any.
pub fn pin_toolbar_action_at(buttons: &[PinToolbarButton], under_pointer: &[bool]) -> (r: Option<
    PinToolbarAction,
>)
    ensures
        r == action_at(buttons@, under_pointer@),
{
    let mut i: usize = 0;
    assert(buttons@.subrange(0, buttons@.len() as int) =~= buttons@);
    assert(under_pointer@.subrange(0, under_pointer@.len() as int) =~= under_pointer@);
    while i < buttons.len() && i < under_pointer.len()
        invariant
            i <= buttons.len(),
            i <= under_pointer.len(),
            action_at(buttons@.subrange(i as int, buttons@.len() as int), under_pointer@.subrange(
                i as int,
                under_pointer@.len() as int,
            )) == action_at(buttons@, under_pointer@),
        decreases buttons.len() - i,
    {
        let ghost bs = buttons@.subrange(i as int, buttons@.len() as int);
        let ghost us = under_pointer@.subrange(i as int, under_pointer@.len() as int);
        assert(bs[0] == buttons@[i as int]);
        assert(us[0] == under_pointer@[i as int]);
        if buttons[i].enabled && under_pointer[i] {
            return Some(buttons[i].action);
        }
        assert(bs.drop_first() =~= buttons@.subrange(i + 1, buttons@.len() as int));
        assert(us.drop_first() =~= under_pointer@.subrange(i + 1, under_pointer@.len() as int));
        i = i + 1;
    }
    assert(buttons@.subrange(i as int, buttons@.len() as int).len() == 0
        || under_pointer@.subrange(i as int, under_pointer@.len() as int).len() == 0);
    None
}

} // verus!
