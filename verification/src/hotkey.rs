use vstd::prelude::*;

use crate::chars::{chars_are, str_chars};
use crate::text::{
    ascii_lower, is_white_space, lemma_trimmed, lower_chars, lower_seq, parse_unsigned, parse_unsigned_chars, trim_chars, trimmed,
    upper_chars, upper_seq,
};

verus! {

/// A key that an overlay accelerator can name.
#[derive(Debug, Clone, Copy, PartialEq, Eq, Structural)]
pub enum OverlayKey {
    /// A letter key, `A` to `Z`.
    Letter(char),
    /// A digit key, `0` to `9`.
    Digit(u8),
    /// A function key, `F1` to `F24`.
    Function(u8),
    Escape,
    Enter,
    Space,
    Tab,
}

/// The function key with number `n`, if there is one.
pub open spec fn function_key_of(n: Option<nat>) -> Option<OverlayKey> {
    match n {
        Some(v) => if 1 <= v <= 24 {
            Some(OverlayKey::Function(v as u8))
        } else {
            None
        },
        None => None,
    }
}

/// The function key with number `number`, if there is one.
pub fn function_key(number: usize) -> (r: Option<OverlayKey>)
    ensures
        r == function_key_of(Some(number as nat)),
{
    if 1 <= number && number <= 24 {
        Some(OverlayKey::Function(number as u8))
    } else {
        None
    }
}

/// The key a part of an accelerator names, letters in either case: a letter, a digit,
/// `Esc`/`Escape`, `Enter`/`Return`, `Space`, `Tab`, or `F` and a number from 1 to 24.
pub open spec fn key_of(name: Seq<char>) -> Option<OverlayKey> {
    let u = upper_seq(name);
    if u.len() == 1 && 'A' <= u[0] && u[0] <= 'Z' {
        Some(OverlayKey::Letter(u[0]))
    } else if u.len() == 1 && '0' <= u[0] && u[0] <= '9' {
        Some(OverlayKey::Digit(((u[0] as u32) - ('0' as u32)) as u8))
    } else if u == "ESC"@ || u == "ESCAPE"@ {
        Some(OverlayKey::Escape)
    } else if u == "ENTER"@ || u == "RETURN"@ {
        Some(OverlayKey::Enter)
    } else if u == "SPACE"@ {
        Some(OverlayKey::Space)
    } else if u == "TAB"@ {
        Some(OverlayKey::Tab)
    } else if u.len() > 0 && u[0] == 'F' {
        function_key_of(parse_unsigned(u.drop_first(), 24))
    } else {
        None
    }
}

/// The key a part of an accelerator names, if it names one.
pub fn parse_overlay_key(key: &str) -> (r: Option<OverlayKey>)
    ensures
        r == key_of(key@),
{
    let c = str_chars(key);
    key_from_chars(&c)
}

fn key_from_chars(key: &[char]) -> (r: Option<OverlayKey>)
    ensures
        r == key_of(key@),
{
    let u = upper_chars(key);
    if u.len() == 1 && 'A' <= u[0] && u[0] <= 'Z' {
        Some(OverlayKey::Letter(u[0]))
    } else if u.len() == 1 && '0' <= u[0] && u[0] <= '9' {
        Some(OverlayKey::Digit((u[0] as u32 - 48) as u8))
    } else if chars_are(&u, "ESC") || chars_are(&u, "ESCAPE") {
        Some(OverlayKey::Escape)
    } else if chars_are(&u, "ENTER") || chars_are(&u, "RETURN") {
        Some(OverlayKey::Enter)
    } else if chars_are(&u, "SPACE") {
        Some(OverlayKey::Space)
    } else if chars_are(&u, "TAB") {
        Some(OverlayKey::Tab)
    } else if u.len() > 0 && u[0] == 'F' {
        let mut rest: Vec<char> = Vec::new();
        let mut i: usize = 1;
        while i < u.len()
            invariant
                1 <= i <= u.len(),
                rest@ == u@.subrange(1, i as int),
            decreases u.len() - i,
        {
            rest.push(u[i]);
            i = i + 1;
            assert(rest@ =~= u@.subrange(1, i as int));
        }
        assert(rest@ =~= u@.drop_first());
        match parse_unsigned_chars(&rest, 24) {
            Some(n) => function_key(n as usize),
            None => None,
        }
    } else {
        None
    }
}

/// The modifier keys held down.
#[derive(Debug, Clone, Copy, PartialEq, Eq, Structural)]
pub struct Modifiers {
    pub ctrl: bool,
    pub shift: bool,
    pub alt: bool,
    pub command: bool,
}

/// An accelerator: the modifiers it asks for and its key.
#[derive(Debug, Clone, Copy, PartialEq, Eq, Structural)]
pub struct OverlayHotkey {
    pub ctrl: bool,
    pub shift: bool,
    pub alt: bool,
    pub command: bool,
    pub key: OverlayKey,
}

/// Whether `c` separates the parts of an accelerator.
pub open spec fn is_accelerator_separator(c: char) -> bool {
    c == '+' || c == '-'
}

/// The parts of an accelerator, as `+` and `-` separate them, empty parts included.
pub open spec fn accelerator_parts(s: Seq<char>) -> Seq<Seq<char>>
    decreases s.len(),
{
    if s.len() == 0 {
        seq![Seq::<char>::empty()]
    } else if is_accelerator_separator(s.last()) {
        accelerator_parts(s.drop_last()).push(Seq::<char>::empty())
    } else {
        let p = accelerator_parts(s.drop_last());
        p.update(p.len() - 1, p.last().push(s.last()))
    }
}

proof fn lemma_accelerator_parts_non_empty(s: Seq<char>)
    ensures
        accelerator_parts(s).len() > 0,
    decreases s.len(),
{
    if s.len() > 0 {
        lemma_accelerator_parts_non_empty(s.drop_last());
    }
}

/// An accelerator before any part is read.
pub open spec fn initial_draft() -> (OverlayHotkey, bool) {
    (
        OverlayHotkey {
            ctrl: false,
            shift: false,
            alt: false,
            command: false,
            key: OverlayKey::Letter('X'),
        },
        false,
    )
}

/// An accelerator after one more part is read: blank parts are skipped, modifier names
/// (any case) set their modifier, and any other part must name a key, which replaces
/// the key read so far; a part that names nothing makes the accelerator invalid.
pub open spec fn read_part(d: (OverlayHotkey, bool), raw: Seq<char>) -> Option<(OverlayHotkey, bool)> {
    let p = trimmed(raw);
    let l = lower_seq(p);
    if p.len() == 0 {
        Some(d)
    } else if l == "ctrl"@ || l == "control"@ {
        Some((OverlayHotkey { ctrl: true, ..d.0 }, d.1))
    } else if l == "shift"@ {
        Some((OverlayHotkey { shift: true, ..d.0 }, d.1))
    } else if l == "alt"@ || l == "option"@ {
        Some((OverlayHotkey { alt: true, ..d.0 }, d.1))
    } else if l == "win"@ || l == "cmd"@ || l == "meta"@ || l == "super"@ {
        Some((OverlayHotkey { command: true, ..d.0 }, d.1))
    } else {
        match key_of(p) {
            Some(k) => Some((OverlayHotkey { key: k, ..d.0 }, true)),
            None => None,
        }
    }
}

/// An accelerator after the given parts are read in order.
pub open spec fn read_parts(parts: Seq<Seq<char>>) -> Option<(OverlayHotkey, bool)>
    decreases parts.len(),
{
    if parts.len() == 0 {
        Some(initial_draft())
    } else {
        match read_parts(parts.drop_last()) {
            Some(d) => read_part(d, parts.last()),
            None => None,
        }
    }
}

/// The hotkey an Electron/Tauri-style accelerator such as `Ctrl+Shift+X` stands for:
/// none when a part names nothing or no part names a key.
pub open spec fn hotkey_of(accelerator: Seq<char>) -> Option<OverlayHotkey> {
    match read_parts(accelerator_parts(accelerator)) {
        Some(d) => if d.1 {
            Some(d.0)
        } else {
            None
        },
        None => None,
    }
}

fn read_part_exec(d: (OverlayHotkey, bool), raw: &[char]) -> (r: Option<(OverlayHotkey, bool)>)
    ensures
        r == read_part(d, raw@),
{
    let p = trim_chars(raw);
    let l = lower_chars(&p);
    if p.len() == 0 {
        Some(d)
    } else if chars_are(&l, "ctrl") || chars_are(&l, "control") {
        Some((OverlayHotkey { ctrl: true, ..d.0 }, d.1))
    } else if chars_are(&l, "shift") {
        Some((OverlayHotkey { shift: true, ..d.0 }, d.1))
    } else if chars_are(&l, "alt") || chars_are(&l, "option") {
        Some((OverlayHotkey { alt: true, ..d.0 }, d.1))
    } else if chars_are(&l, "win") || chars_are(&l, "cmd") || chars_are(&l, "meta") || chars_are(
        &l,
        "super",
    ) {
        Some((OverlayHotkey { command: true, ..d.0 }, d.1))
    } else {
        match key_from_chars(&p) {
            Some(k) => Some((OverlayHotkey { key: k, ..d.0 }, true)),
            None => None,
        }
    }
}

/// The hotkey an accelerator such as `Ctrl+Shift+X` stands for, with `-` read as `+`;
/// `None` when a part names nothing or no part names a key.
pub fn parse_overlay_hotkey(accelerator: &str) -> (r: Option<OverlayHotkey>)
    ensures
        r == hotkey_of(accelerator@),
{
    let s = str_chars(accelerator);
    let mut state: Option<(OverlayHotkey, bool)> = Some(
        (
            OverlayHotkey {
                ctrl: false,
                shift: false,
                alt: false,
                command: false,
                key: OverlayKey::Letter('X'),
            },
            false,
        ),
    );
    let mut current: Vec<char> = Vec::new();
    let mut i: usize = 0;
    assert(s@.subrange(0, 0) =~= Seq::<char>::empty());
    assert(read_parts(Seq::<Seq<char>>::empty()) == Some(initial_draft()));
    assert(accelerator_parts(Seq::<char>::empty()).drop_last() =~= Seq::<Seq<char>>::empty());
    while i < s.len()
        invariant
            i <= s.len(),
            accelerator_parts(s@.subrange(0, i as int)).len() > 0,
            state == read_parts(accelerator_parts(s@.subrange(0, i as int)).drop_last()),
            current@ == accelerator_parts(s@.subrange(0, i as int)).last(),
        decreases s.len() - i,
    {
        let c = s[i];
        let ghost pre = s@.subrange(0, i as int);
        let ghost post = s@.subrange(0, i + 1);
        assert(post.drop_last() =~= pre);
        assert(post.last() == c);
        let ghost parts = accelerator_parts(pre);
        if c == '+' || c == '-' {
            let ghost np = parts.push(Seq::<char>::empty());
            assert(accelerator_parts(post) == np);
            assert(np.drop_last() =~= parts);
            assert(parts.drop_last() + seq![parts.last()] =~= parts);
            assert(read_parts(parts) == match read_parts(parts.drop_last()) {
                Some(d) => read_part(d, parts.last()),
                None => None,
            });
            state = match state {
                Some(d) => read_part_exec(d, &current),
                None => None,
            };
            current = Vec::new();
        } else {
            let ghost np = parts.update(parts.len() - 1, parts.last().push(c));
            assert(accelerator_parts(post) == np);
            assert(np.drop_last() =~= parts.drop_last());
            current.push(c);
        }
        i = i + 1;
        proof {
            lemma_accelerator_parts_non_empty(s@.subrange(0, i as int));
        }
    }
    assert(s@.subrange(0, s.len() as int) =~= s@);
    let ghost parts = accelerator_parts(s@);
    assert(parts.len() > 0);
    assert(read_parts(parts) == match read_parts(parts.drop_last()) {
        Some(d) => read_part(d, parts.last()),
        None => None,
    });
    let fin = match state {
        Some(d) => read_part_exec(d, &current),
        None => None,
    };
    match fin {
        Some(d) => if d.1 {
            Some(d.0)
        } else {
            None
        },
        None => None,
    }
}

/// Whether the modifiers held match those a hotkey asks for: Ctrl or the command key
/// count as Ctrl, Shift and Alt must match, and a hotkey that asks for the command key
/// needs it held.
pub open spec fn modifiers_match(hotkey: OverlayHotkey, modifiers: Modifiers) -> bool {
    &&& (modifiers.ctrl || modifiers.command) == hotkey.ctrl
    &&& modifiers.shift == hotkey.shift
    &&& modifiers.alt == hotkey.alt
    &&& (!hotkey.command || modifiers.command)
}

/// Whether the modifiers held match those a hotkey asks for.
pub fn hotkey_modifiers_match(hotkey: &OverlayHotkey, modifiers: &Modifiers) -> (b: bool)
    ensures
        b == modifiers_match(*hotkey, *modifiers),
{
    let ctrl_down = modifiers.ctrl || modifiers.command;
    ctrl_down == hotkey.ctrl && modifiers.shift == hotkey.shift && modifiers.alt == hotkey.alt
        && (!hotkey.command || modifiers.command)
}

/// A key press or release as the window reports it.
#[derive(Debug, Clone, Copy, PartialEq, Eq, Structural)]
pub struct KeyEvent {
    /// The key, when it is one an accelerator can name.
    pub key: Option<OverlayKey>,
    /// The physical key, when the window reports one an accelerator can name.
    pub physical_key: Option<OverlayKey>,
    pub pressed: bool,
    pub repeat: bool,
    pub modifiers: Modifiers,
}

/// An input event of a frame, as far as shortcuts read it.
#[derive(Debug, Clone, Copy, PartialEq, Eq, Structural)]
pub enum InputEvent {
    Key(KeyEvent),
    Copy,
    Cut,
    Other,
}

/// Whether a fresh press of `key` (or of the physical key `key`) is this event.
pub open spec fn is_fresh_press_of(e: KeyEvent, key: OverlayKey) -> bool {
    &&& e.pressed
    &&& !e.repeat
    &&& (e.key == Some(key) || e.physical_key == Some(key))
}

/// Whether an event presses a hotkey: a fresh press of its key with matching modifiers,
/// or a cut (the platform's Ctrl+X) when the hotkey is X and the frame's modifiers match.
pub open spec fn event_presses_hotkey(event: InputEvent, hotkey: OverlayHotkey, frame: Modifiers) -> bool {
    match event {
        InputEvent::Key(e) => is_fresh_press_of(e, hotkey.key) && modifiers_match(hotkey, e.modifiers),
        InputEvent::Cut => hotkey.key == OverlayKey::Letter('X') && modifiers_match(hotkey, frame),
        _ => false,
    }
}

/// Whether a frame's events hold a press of `key` as the window's `key_pressed` counts
/// them: a key event that presses the key, repeats included.
pub open spec fn key_pressed_in(events: Seq<InputEvent>, key: OverlayKey) -> bool {
    exists|i: int|
        0 <= i < events.len() && (#[trigger] events[i] matches InputEvent::Key(e) && e.pressed
            && e.key == Some(key))
}

/// Whether a frame's events hold a press of `key`, repeats included.
pub fn events_press_key(events: &Vec<InputEvent>, key: OverlayKey) -> (b: bool)
    ensures
        b == key_pressed_in(events@, key),
{
    let mut i: usize = 0;
    while i < events.len()
        invariant
            i <= events.len(),
            forall|k: int|
                0 <= k < i ==> !(#[trigger] events@[k] matches InputEvent::Key(e) && e.pressed && e.key
                    == Some(key)),
        decreases events.len() - i,
    {
        let hit = match events[i] {
            InputEvent::Key(e) => e.pressed && e.key == Some(key),
            _ => false,
        };
        if hit {
            assert(events@[i as int] matches InputEvent::Key(e) && e.pressed && e.key == Some(key));
            return true;
        }
        i = i + 1;
    }
    false
}

/// Whether a frame presses a hotkey: one of its events does, or the hotkey's key is
/// pressed while the frame's modifiers match.
pub open spec fn frame_presses_hotkey(events: Seq<InputEvent>, hotkey: OverlayHotkey, frame: Modifiers) -> bool {
    (exists|i: int| 0 <= i < events.len() && event_presses_hotkey(#[trigger] events[i], hotkey, frame))
        || (key_pressed_in(events, hotkey.key) && modifiers_match(hotkey, frame))
}

/// Whether one of a frame's events presses a hotkey.
fn some_event_presses_hotkey(events: &Vec<InputEvent>, hotkey: &OverlayHotkey, frame: &Modifiers) -> (b: bool)
    ensures
        b == exists|i: int| 0 <= i < events.len() && event_presses_hotkey(#[trigger] events@[i], *hotkey, *frame),
{
    let mut i: usize = 0;
    while i < events.len()
        invariant
            i <= events.len(),
            forall|k: int| 0 <= k < i ==> !event_presses_hotkey(#[trigger] events@[k], *hotkey, *frame),
        decreases events.len() - i,
    {
        let hit = match events[i] {
            InputEvent::Key(e) => e.pressed && !e.repeat && (e.key == Some(hotkey.key) || e.physical_key
                == Some(hotkey.key)) && hotkey_modifiers_match(hotkey, &e.modifiers),
            InputEvent::Cut => hotkey.key == OverlayKey::Letter('X') && hotkey_modifiers_match(hotkey, frame),
            _ => false,
        };
        if hit {
            assert(event_presses_hotkey(events@[i as int], *hotkey, *frame));
            return true;
        }
        i = i + 1;
    }
    false
}

/// Whether a frame presses a hotkey.
pub fn events_press_hotkey(events: &Vec<InputEvent>, hotkey: &OverlayHotkey, frame: &Modifiers) -> (b: bool)
    ensures
        b == frame_presses_hotkey(events@, *hotkey, *frame),
{
    some_event_presses_hotkey(events, hotkey, frame) || (events_press_key(events, hotkey.key)
        && hotkey_modifiers_match(hotkey, frame))
}

/// Whether an event is a fresh press of `key` with Ctrl (or the command key) and
/// without Alt, and with Shift when `with_shift`.
pub open spec fn event_is_command_shortcut(event: InputEvent, key: OverlayKey, with_shift: bool) -> bool {
    match event {
        InputEvent::Key(e) => is_fresh_press_of(e, key) && (e.modifiers.ctrl || e.modifiers.command)
            && (!with_shift || e.modifiers.shift) && !e.modifiers.alt,
        _ => false,
    }
}

/// Whether modifiers make a command shortcut: Ctrl (or the command key), no Alt, and
/// Shift when `with_shift`.
pub open spec fn command_modifiers(m: Modifiers, with_shift: bool) -> bool {
    (m.ctrl || m.command) && (!with_shift || m.shift) && !m.alt
}

/// Whether a frame holds a Ctrl (or command) shortcut with `key`, with Shift when
/// `with_shift`: one of its events is a fresh one, or the key is pressed while the
/// frame's modifiers make the shortcut.
pub open spec fn frame_has_command_shortcut(
    events: Seq<InputEvent>,
    key: OverlayKey,
    with_shift: bool,
    frame: Modifiers,
) -> bool {
    (exists|i: int| 0 <= i < events.len() && event_is_command_shortcut(#[trigger] events[i], key, with_shift))
        || (key_pressed_in(events, key) && command_modifiers(frame, with_shift))
}

fn some_event_is_command_shortcut(events: &Vec<InputEvent>, key: OverlayKey, with_shift: bool) -> (b: bool)
    ensures
        b == exists|i: int| 0 <= i < events.len() && event_is_command_shortcut(#[trigger] events@[i], key, with_shift),
{
    let mut i: usize = 0;
    while i < events.len()
        invariant
            i <= events.len(),
            forall|k: int| 0 <= k < i ==> !event_is_command_shortcut(#[trigger] events@[k], key, with_shift),
        decreases events.len() - i,
    {
        let hit = match events[i] {
            InputEvent::Key(e) => e.pressed && !e.repeat && (e.key == Some(key) || e.physical_key == Some(key))
                && (e.modifiers.ctrl || e.modifiers.command) && (!with_shift || e.modifiers.shift)
                && !e.modifiers.alt,
            _ => false,
        };
        if hit {
            assert(event_is_command_shortcut(events@[i as int], key, with_shift));
            return true;
        }
        i = i + 1;
    }
    false
}

/// Whether a frame holds a Ctrl (or command) shortcut with `key`, with Shift held when
/// `with_shift`.
pub fn events_have_command_shortcut(
    events: &Vec<InputEvent>,
    key: OverlayKey,
    with_shift: bool,
    frame: &Modifiers,
) -> (b: bool)
    ensures
        b == frame_has_command_shortcut(events@, key, with_shift, *frame),
{
    some_event_is_command_shortcut(events, key, with_shift) || (events_press_key(events, key) && (
    frame.ctrl || frame.command) && (!with_shift || frame.shift) && !frame.alt)
}

/// Whether a frame holds a copy request: a copy event or a Ctrl+C shortcut.
pub open spec fn frame_requests_copy(events: Seq<InputEvent>, frame: Modifiers) -> bool {
    (exists|i: int| 0 <= i < events.len() && events[i] == InputEvent::Copy) || frame_has_command_shortcut(
        events,
        OverlayKey::Letter('C'),
        false,
        frame,
    )
}

/// Whether a frame holds a copy request.
pub fn events_request_copy(events: &Vec<InputEvent>, frame: &Modifiers) -> (b: bool)
    ensures
        b == frame_requests_copy(events@, *frame),
{
    let mut i: usize = 0;
    while i < events.len()
        invariant
            i <= events.len(),
            forall|k: int| 0 <= k < i ==> events@[k] != InputEvent::Copy,
        decreases events.len() - i,
    {
        if events[i] == InputEvent::Copy {
            return true;
        }
        i = i + 1;
    }
    events_have_command_shortcut(events, OverlayKey::Letter('C'), false, frame)
}

/// What a shortcut does in the capture overlay.
#[derive(Debug, Clone, Copy, PartialEq, Eq, Structural)]
pub enum CaptureShortcut {
    /// Close the overlay.
    Dismiss,
    /// Pin the selection.
    Pin,
    /// Copy the selection.
    Copy,
    /// Save the selection.
    Save,
    /// Finish the selection as the completion action says.
    FinishSelection,
}

/// What the capture overlay's shortcuts do in a frame, the first that applies: Escape
/// closes, the pin hotkey (when it reads as one) pins, a copy request copies, Ctrl+S
/// saves, Enter finishes the selection, and P pins.
pub open spec fn capture_shortcut_of(
    events: Seq<InputEvent>,
    pin_hotkey: Option<OverlayHotkey>,
    frame: Modifiers,
) -> Option<CaptureShortcut> {
    if key_pressed_in(events, OverlayKey::Escape) {
        Some(CaptureShortcut::Dismiss)
    } else if pin_hotkey matches Some(h) && frame_presses_hotkey(events, h, frame) {
        Some(CaptureShortcut::Pin)
    } else if frame_requests_copy(events, frame) {
        Some(CaptureShortcut::Copy)
    } else if frame_has_command_shortcut(events, OverlayKey::Letter('S'), false, frame) {
        Some(CaptureShortcut::Save)
    } else if key_pressed_in(events, OverlayKey::Enter) {
        Some(CaptureShortcut::FinishSelection)
    } else if key_pressed_in(events, OverlayKey::Letter('P')) {
        Some(CaptureShortcut::Pin)
    } else {
        None
    }
}

/// What the capture overlay's shortcuts do in a frame; `pin_hotkey` is the configured
/// accelerator.
pub fn capture_shortcut(events: &Vec<InputEvent>, pin_hotkey: &str, frame: &Modifiers) -> (r: Option<
    CaptureShortcut,
>)
    ensures
        r == capture_shortcut_of(events@, hotkey_of(pin_hotkey@), *frame),
{
    if events_press_key(events, OverlayKey::Escape) {
        return Some(CaptureShortcut::Dismiss);
    }
    let pins = match parse_overlay_hotkey(pin_hotkey) {
        Some(h) => events_press_hotkey(events, &h, frame),
        None => false,
    };
    if pins {
        return Some(CaptureShortcut::Pin);
    }
    if events_request_copy(events, frame) {
        return Some(CaptureShortcut::Copy);
    }
    if events_have_command_shortcut(events, OverlayKey::Letter('S'), false, frame) {
        return Some(CaptureShortcut::Save);
    }
    if events_press_key(events, OverlayKey::Enter) {
        return Some(CaptureShortcut::FinishSelection);
    }
    if events_press_key(events, OverlayKey::Letter('P')) {
        return Some(CaptureShortcut::Pin);
    }
    None
}

/// Whether the capture overlay copies the colour under the pointer this frame: C was
/// pressed while neither Ctrl, Command nor Alt is held.
pub fn color_copy_requested(events: &Vec<InputEvent>, frame: &Modifiers) -> (b: bool)
    ensures
        b == (key_pressed_in(events@, OverlayKey::Letter('C')) && !frame.ctrl && !frame.command
            && !frame.alt),
{
    events_press_key(events, OverlayKey::Letter('C')) && !frame.ctrl && !frame.command && !frame.alt
}

/// What a pin window's shortcuts do in a frame.
#[derive(Debug, Clone, Copy, PartialEq, Eq, Structural)]
pub struct PinShortcuts {
    /// Escape closes the window.
    pub close: bool,
    /// Ctrl+Shift+C copies all OCR text.
    pub copy_all_text: bool,
    /// A copy request (when Ctrl+Shift+C did not apply) copies the selected text, or
    /// the image when no text is selected.
    pub copy_selection: bool,
}

/// What a pin window's shortcuts do in a frame.
pub fn pin_shortcuts(events: &Vec<InputEvent>, frame: &Modifiers) -> (r: PinShortcuts)
    ensures
        r.close == key_pressed_in(events@, OverlayKey::Escape),
        r.copy_all_text == frame_has_command_shortcut(events@, OverlayKey::Letter('C'), true, *frame),
        r.copy_selection == (!r.copy_all_text && frame_requests_copy(events@, *frame)),
{
    let close = events_press_key(events, OverlayKey::Escape);
    let copy_all_text = events_have_command_shortcut(events, OverlayKey::Letter('C'), true, frame);
    let copy_selection = !copy_all_text && events_request_copy(events, frame);
    PinShortcuts { close, copy_all_text, copy_selection }
}

/// A word written in lower-case ASCII letters, in any case, holds no separator and no
/// white space.
proof fn lemma_cased_word(m: Seq<char>, w: Seq<char>)
    requires
        lower_seq(m) == w,
        w.len() > 0,
        forall|i: int| 0 <= i < w.len() ==> 'a' <= #[trigger] w[i] && w[i] <= 'z',
    ensures
        forall|i: int| 0 <= i < m.len() ==> !is_accelerator_separator(#[trigger] m[i]),
        trimmed(m) == m,
{
    assert forall|i: int| 0 <= i < m.len() implies !is_accelerator_separator(#[trigger] m[i])
        && !is_white_space(m[i]) by {
        assert(lower_seq(m)[i] == ascii_lower(m[i]));
        assert('a' <= w[i] && w[i] <= 'z');
    }
    assert(m.len() == w.len());
    assert(!is_white_space(m[0]));
    assert(!is_white_space(m.last()));
    lemma_trimmed(m);
}

/// The parts of a text without separators are that text alone.
proof fn lemma_parts_plain(t: Seq<char>)
    requires
        forall|i: int| 0 <= i < t.len() ==> !is_accelerator_separator(#[trigger] t[i]),
    ensures
        accelerator_parts(t) == seq![t],
    decreases t.len(),
{
    if t.len() == 0 {
        assert(t =~= Seq::<char>::empty());
    } else {
        assert(!is_accelerator_separator(t[t.len() - 1]));
        lemma_parts_plain(t.drop_last());
        assert(t.drop_last().push(t.last()) =~= t);
        assert(seq![t.drop_last()].update(0, t.drop_last().push(t.last())) =~= seq![t]);
    }
}

/// A separator and a text without separators after `s` add that text as one more part.
proof fn lemma_parts_then(s: Seq<char>, t: Seq<char>)
    requires
        forall|i: int| 0 <= i < t.len() ==> !is_accelerator_separator(#[trigger] t[i]),
    ensures
        accelerator_parts(s + "+"@ + t) == accelerator_parts(s).push(t),
    decreases t.len(),
{
    reveal_strlit("+");
    let a = s + "+"@ + t;
    if t.len() == 0 {
        assert(a.drop_last() =~= s);
        assert(a.last() == '+');
        assert(t =~= Seq::<char>::empty());
    } else {
        lemma_parts_then(s, t.drop_last());
        assert(a.drop_last() =~= s + "+"@ + t.drop_last());
        assert(a.last() == t.last());
        assert(t.drop_last().push(t.last()) =~= t);
        let p = accelerator_parts(s).push(t.drop_last());
        assert(p.update(p.len() - 1, p.last().push(a.last())) =~= accelerator_parts(s).push(t));
    }
}

/// `Control` and `Ctrl`, in any case, name the Ctrl modifier: put before a letter key,
/// alone or with `Shift` in any case, they give that key with Ctrl held (and Shift where
/// it is named), the other modifiers not held.
pub proof fn control_names_the_ctrl_modifier(m: Seq<char>, shift: Seq<char>, c: char)
    requires
        lower_seq(m) == "control"@ || lower_seq(m) == "ctrl"@,
        lower_seq(shift) == "shift"@,
        'A' <= c && c <= 'Z',
    ensures
        hotkey_of(m + "+"@ + seq![c]) == Some(
            OverlayHotkey {
                ctrl: true,
                shift: false,
                alt: false,
                command: false,
                key: OverlayKey::Letter(c),
            },
        ),
        hotkey_of(m + "+"@ + shift + "+"@ + seq![c]) == Some(
            OverlayHotkey {
                ctrl: true,
                shift: true,
                alt: false,
                command: false,
                key: OverlayKey::Letter(c),
            },
        ),
{
    reveal_strlit("control");
    reveal_strlit("ctrl");
    reveal_strlit("shift");
    reveal_strlit("alt");
    reveal_strlit("option");
    reveal_strlit("win");
    reveal_strlit("cmd");
    reveal_strlit("meta");
    reveal_strlit("super");
    lemma_cased_word(m, lower_seq(m));
    lemma_cased_word(shift, "shift"@);
    let k = seq![c];
    assert(!is_accelerator_separator(k[0]) && !is_white_space(k[0]));
    assert(forall|i: int| 0 <= i < k.len() ==> !is_accelerator_separator(#[trigger] k[i]));
    lemma_trimmed(k);
    assert(trimmed(k) == k);
    assert(upper_seq(k) =~= k);
    assert(key_of(k) == Some(OverlayKey::Letter(c)));
    assert(lower_seq(k).len() == 1);
    lemma_parts_plain(m);
    lemma_parts_then(m, k);
    lemma_parts_then(m, shift);
    lemma_parts_then(m + "+"@ + shift, k);
    let i = initial_draft();
    let d1 = (OverlayHotkey { ctrl: true, ..i.0 }, i.1);
    assert(read_parts(seq![m].drop_last()) == Some(i)) by {
        assert(seq![m].drop_last() =~= Seq::<Seq<char>>::empty());
    }
    assert(trimmed(m) == m);
    assert(lower_seq(m).len() == m.len());
    assert(m.len() > 0);
    assert(lower_seq(trimmed(m)) == "control"@ || lower_seq(trimmed(m)) == "ctrl"@);
    assert(read_part(i, m) == Some(d1));
    assert(read_parts(seq![m]) == Some(d1));
    let d2 = (OverlayHotkey { shift: true, ..d1.0 }, d1.1);
    assert(lower_seq(shift).len() == shift.len());
    assert(shift.len() == 5);
    assert(lower_seq(trimmed(shift)) == "shift"@);
    assert(read_part(d1, shift) == Some(d2));
    assert(seq![m].push(k).drop_last() =~= seq![m]);
    assert(seq![m].push(shift).drop_last() =~= seq![m]);
    assert(seq![m].push(shift).push(k).drop_last() =~= seq![m].push(shift));
    assert(read_parts(seq![m].push(shift)) == Some(d2));
}

/// Each modifier name, in any case, sets its own modifier and no other: `Ctrl` or
/// `Control` sets Ctrl, `Shift` sets Shift, `Alt` or `Option` sets Alt, and `Win`,
/// `Cmd`, `Meta` or `Super` sets the command key; put before a letter key, it gives that
/// key with that modifier alone.
pub proof fn modifier_names_set_their_modifier(m: Seq<char>, c: char)
    requires
        'A' <= c && c <= 'Z',
    ensures
        lower_seq(m) == "ctrl"@ || lower_seq(m) == "control"@ ==> hotkey_of(m + "+"@ + seq![c])
            == Some(
            OverlayHotkey {
                ctrl: true,
                shift: false,
                alt: false,
                command: false,
                key: OverlayKey::Letter(c),
            },
        ),
        lower_seq(m) == "shift"@ ==> hotkey_of(m + "+"@ + seq![c]) == Some(
            OverlayHotkey {
                ctrl: false,
                shift: true,
                alt: false,
                command: false,
                key: OverlayKey::Letter(c),
            },
        ),
        lower_seq(m) == "alt"@ || lower_seq(m) == "option"@ ==> hotkey_of(m + "+"@ + seq![c])
            == Some(
            OverlayHotkey {
                ctrl: false,
                shift: false,
                alt: true,
                command: false,
                key: OverlayKey::Letter(c),
            },
        ),
        lower_seq(m) == "win"@ || lower_seq(m) == "cmd"@ || lower_seq(m) == "meta"@ || lower_seq(m)
            == "super"@ ==> hotkey_of(m + "+"@ + seq![c]) == Some(
            OverlayHotkey {
                ctrl: false,
                shift: false,
                alt: false,
                command: true,
                key: OverlayKey::Letter(c),
            },
        ),
{
    reveal_strlit("control");
    reveal_strlit("ctrl");
    reveal_strlit("shift");
    reveal_strlit("alt");
    reveal_strlit("option");
    reveal_strlit("win");
    reveal_strlit("cmd");
    reveal_strlit("meta");
    reveal_strlit("super");
    let l = lower_seq(m);
    if l == "ctrl"@ || l == "control"@ || l == "shift"@ || l == "alt"@ || l == "option"@ || l
        == "win"@ || l == "cmd"@ || l == "meta"@ || l == "super"@ {
        lemma_cased_word(m, l);
        let k = seq![c];
        assert(!is_accelerator_separator(k[0]) && !is_white_space(k[0]));
        assert(forall|i: int| 0 <= i < k.len() ==> !is_accelerator_separator(#[trigger] k[i]));
        lemma_trimmed(k);
        assert(upper_seq(k) =~= k);
        assert(key_of(k) == Some(OverlayKey::Letter(c)));
        assert(lower_seq(k).len() == 1);
        lemma_parts_plain(m);
        lemma_parts_then(m, k);
        assert(seq![m].drop_last() =~= Seq::<Seq<char>>::empty());
        assert(seq![m].push(k).drop_last() =~= seq![m]);
        assert(lower_seq(m).len() == m.len());
        assert(m.len() > 0);
        assert(trimmed(m) == m);
        assert("ctrl"@[0] != "meta"@[0]);
        assert("shift"@[1] != "super"@[1]);
        assert("alt"@[0] != "win"@[0] && "alt"@[0] != "cmd"@[0]);
        let i = initial_draft();
        let d = if l == "ctrl"@ || l == "control"@ {
            (OverlayHotkey { ctrl: true, ..i.0 }, i.1)
        } else if l == "shift"@ {
            (OverlayHotkey { shift: true, ..i.0 }, i.1)
        } else if l == "alt"@ || l == "option"@ {
            (OverlayHotkey { alt: true, ..i.0 }, i.1)
        } else {
            (OverlayHotkey { command: true, ..i.0 }, i.1)
        };
        assert(read_part(i, m) == Some(d));
        assert(read_parts(seq![m].drop_last()) == Some(i));
        assert(read_parts(seq![m]) == Some(d));
        assert(read_part(d, k) == Some((OverlayHotkey { key: OverlayKey::Letter(c), ..d.0 }, true)));
    }
}

} // verus!
