use vstd::prelude::*;

use crate::chars::{push_slice, str_chars, string_from_chars};
use crate::text::{
    is_ascii_alnum, is_ascii_alnum_char, is_white_space, is_white_space_char, trim_back,
    trim_chars, trim_str_chars, trimmed, is_trimmed, lemma_trimmed,
};

verus! {

/// Whether a character belongs to a CJK block in which OCR output needs no spaces
/// between characters.
pub open spec fn is_compact(c: char) -> bool {
    let u = c as u32;
    (0x2E80 <= u && u <= 0x2EFF) || (0x3000 <= u && u <= 0x303F) || (0x3040 <= u && u <= 0x30FF)
        || (0x31F0 <= u && u <= 0x31FF) || (0x3400 <= u && u <= 0x4DBF) || (0x4E00 <= u && u
        <= 0x9FFF) || (0xAC00 <= u && u <= 0xD7AF) || (0xF900 <= u && u <= 0xFAFF) || (0xFE10
        <= u && u <= 0xFE1F) || (0xFE30 <= u && u <= 0xFE4F) || (0xFF00 <= u && u <= 0xFFEF)
        || (0x20000 <= u && u <= 0x2FA1F)
}

/// Whether a character belongs to a CJK block in which OCR output needs no spaces.
pub fn is_compact_ocr_text_character(character: char) -> (b: bool)
    ensures
        b == is_compact(character),
{
    let u = character as u32;
    (0x2E80 <= u && u <= 0x2EFF) || (0x3000 <= u && u <= 0x303F) || (0x3040 <= u && u <= 0x30FF)
        || (0x31F0 <= u && u <= 0x31FF) || (0x3400 <= u && u <= 0x4DBF) || (0x4E00 <= u && u
        <= 0x9FFF) || (0xAC00 <= u && u <= 0xD7AF) || (0xF900 <= u && u <= 0xFAFF) || (0xFE10
        <= u && u <= 0xFE1F) || (0xFE30 <= u && u <= 0xFE4F) || (0xFF00 <= u && u <= 0xFFEF)
        || (0x20000 <= u && u <= 0x2FA1F)
}

/// The display form of `s`, read left to right: `pending` is the white space seen since
/// the last other character, and `prev_compact` whether that character was compact.
/// A run of white space between two compact characters is dropped; any other run is
/// kept as it was; white space after the last other character is dropped.
pub open spec fn collapse(s: Seq<char>, pending: Seq<char>, prev_compact: bool) -> Seq<char>
    decreases s.len(),
{
    if s.len() == 0 {
        seq![]
    } else if is_white_space(s[0]) {
        collapse(s.drop_first(), pending.push(s[0]), prev_compact)
    } else {
        let cur = is_compact(s[0]);
        let kept = if pending.len() > 0 && prev_compact && cur {
            Seq::<char>::empty()
        } else {
            pending
        };
        kept + seq![s[0]] + collapse(s.drop_first(), Seq::<char>::empty(), cur)
    }
}

/// The text drawn over an OCR block: the trimmed text, with the white space between two
/// compact (CJK) characters removed.
pub open spec fn display_text(s: Seq<char>) -> Seq<char> {
    collapse(trimmed(s), Seq::<char>::empty(), false)
}

/// The text drawn over an OCR block: trimmed, and without white space between two
/// CJK characters.
pub fn text_overlay_display_text(text: &str) -> (r: String)
    ensures
        r@ == display_text(text@),
{
    let t = trim_str_chars(text);
    let mut out: Vec<char> = Vec::new();
    let mut pending: Vec<char> = Vec::new();
    let mut prev_compact = false;
    let mut i: usize = 0;
    assert(t@.subrange(0, t.len() as int) =~= t@);
    while i < t.len()
        invariant
            i <= t.len(),
            out@ + collapse(t@.subrange(i as int, t.len() as int), pending@, prev_compact)
                == display_text(text@),
            t@ == trimmed(text@),
        decreases t.len() - i,
    {
        let c = t[i];
        let ghost rest = t@.subrange(i as int, t.len() as int);
        assert(rest.drop_first() =~= t@.subrange(i + 1, t.len() as int));
        assert(rest[0] == c);
        if is_white_space_char(c) {
            pending.push(c);
        } else {
            let cur = is_compact_ocr_text_character(c);
            let ghost old_out = out@;
            let ghost old_pending = pending@;
            let ghost old_prev = prev_compact;
            let ghost kept = if old_pending.len() > 0 && old_prev && cur {
                Seq::<char>::empty()
            } else {
                old_pending
            };
            assert(collapse(rest, old_pending, old_prev) == kept + seq![c] + collapse(
                t@.subrange(i + 1, t.len() as int),
                Seq::<char>::empty(),
                cur,
            ));
            if pending.len() > 0 && prev_compact && cur {
                assert(out@ + Seq::<char>::empty() =~= out@);
            } else {
                push_slice(&mut out, &pending);
            }
            out.push(c);
            pending = Vec::new();
            prev_compact = cur;
            assert(out@ =~= old_out + kept + seq![c]);
            assert(pending@ =~= Seq::<char>::empty());
            assert(out@ + collapse(t@.subrange(i + 1, t.len() as int), pending@, prev_compact)
                =~= old_out + (kept + seq![c] + collapse(
                t@.subrange(i + 1, t.len() as int),
                Seq::<char>::empty(),
                cur,
            )));
        }
        i = i + 1;
    }
    string_from_chars(&out)
}


/// Whether `c` is an ASCII letter.
pub open spec fn is_ascii_alpha(c: char) -> bool {
    ('a' <= c && c <= 'z') || ('A' <= c && c <= 'Z')
}

/// Whether a space goes between two OCR fragments: the left one ends in an ASCII letter,
/// digit, `)` or `]`, and the right one starts with an ASCII letter, digit, `(` or `[`.
pub open spec fn needs_space(left: Seq<char>, right: Seq<char>) -> bool {
    &&& left.len() > 0
    &&& right.len() > 0
    &&& (is_ascii_alnum(left.last()) || left.last() == ')' || left.last() == ']')
    &&& (is_ascii_alnum(right[0]) || right[0] == '(' || right[0] == '[')
}

/// Whether a space goes between two OCR fragments.
pub fn should_insert_space(left: &str, right: &str) -> (b: bool)
    ensures
        b == needs_space(left@, right@),
{
    let l = str_chars(left);
    let r = str_chars(right);
    if l.len() == 0 || r.len() == 0 {
        return false;
    }
    let lc = l[l.len() - 1];
    let rc = r[0];
    (is_ascii_alnum_char(lc) || lc == ')' || lc == ']') && (is_ascii_alnum_char(rc) || rc == '('
        || rc == '[')
}

/// The text after an OCR fragment is appended: a hyphen at the end of the text joins a
/// fragment that starts with an ASCII letter, a space separates two word-like ends, and
/// otherwise the fragment follows directly.
pub open spec fn appended(text: Seq<char>, fragment: Seq<char>) -> Seq<char> {
    if fragment.len() == 0 {
        text
    } else if text.len() == 0 {
        fragment
    } else if text.last() == '-' && is_ascii_alpha(fragment[0]) {
        text.drop_last() + fragment
    } else if needs_space(text, fragment) {
        text.push(' ') + fragment
    } else {
        text + fragment
    }
}

/// Appends an OCR fragment to `text`, joining hyphenated words and separating words.
pub fn append_ocr_fragment(text: &mut String, fragment: &str)
    ensures
        final(text)@ == appended(old(text)@, fragment@),
{
    let f = str_chars(fragment);
    if f.len() == 0 {
        return;
    }
    let mut t = str_chars(text.as_str());
    if t.len() == 0 {
        *text = string_from_chars(&f);
        return;
    }
    let first = f[0];
    if t[t.len() - 1] == '-' && (('a' <= first && first <= 'z') || ('A' <= first && first <= 'Z')) {
        t.pop();
        push_slice(&mut t, &f);
    } else if should_insert_space(text.as_str(), fragment) {
        t.push(' ');
        push_slice(&mut t, &f);
    } else {
        push_slice(&mut t, &f);
    }
    *text = string_from_chars(&t);
}

/// Whether a character ends a sentence.
pub open spec fn is_sentence_end(c: char) -> bool {
    c == '.' || c == '!' || c == '?' || c == ';' || c == ':' || c == '\u{3002}' || c == '\u{FF01}'
        || c == '\u{FF1F}' || c == '\u{FF1B}' || c == '\u{FF1A}'
}

/// Whether the last character of `text` that is not white space ends a sentence.
pub open spec fn ends_with_sentence_end(text: Seq<char>) -> bool {
    let t = trim_back(text);
    t.len() > 0 && is_sentence_end(t.last())
}

/// Whether the last character of `text` that is not white space ends a sentence.
pub fn ends_sentence(text: &str) -> (b: bool)
    ensures
        b == ends_with_sentence_end(text@),
{
    let s = str_chars(text);
    let mut j = s.len();
    assert(s@.subrange(0, j as int) =~= s@);
    while j > 0 && is_white_space_char(s[j - 1])
        invariant
            j <= s.len(),
            trim_back(s@) == trim_back(s@.subrange(0, j as int)),
        decreases j,
    {
        assert(s@.subrange(0, j as int).drop_last() =~= s@.subrange(0, j - 1));
        j = j - 1;
    }
    if j == 0 {
        assert(s@.subrange(0, 0) =~= Seq::<char>::empty());
        return false;
    }
    let c = s[j - 1];
    assert(s@.subrange(0, j as int).last() == c);
    c == '.' || c == '!' || c == '?' || c == ';' || c == ':' || c == '\u{3002}' || c == '\u{FF01}'
        || c == '\u{FF1F}' || c == '\u{FF1B}' || c == '\u{FF1A}'
}

/// `value` without surrounding white space, or `None` when nothing is left.
pub open spec fn non_empty_trimmed(value: Seq<char>) -> Option<Seq<char>> {
    if trimmed(value).len() == 0 {
        None
    } else {
        Some(trimmed(value))
    }
}

/// `value` without surrounding white space, or `None` when nothing is left.
pub fn empty_to_none(value: String) -> (r: Option<String>)
    ensures
        r matches Some(v) ==> non_empty_trimmed(value@) == Some(v@),
        r is None ==> non_empty_trimmed(value@) is None,
{
    let t = trim_str_chars(value.as_str());
    if t.len() == 0 {
        None
    } else {
        Some(string_from_chars(&t))
    }
}

/// An optional value without surrounding white space, or `None` when nothing is left.
pub fn optional_empty_to_none(value: Option<String>) -> (r: Option<String>)
    ensures
        r matches Some(v) ==> value matches Some(w) && non_empty_trimmed(w@) == Some(v@),
        r is None ==> (value is None || non_empty_trimmed(value->0@) is None),
{
    match value {
        Some(v) => empty_to_none(v),
        None => None,
    }
}

/// A character kept in a file-system-safe identifier: ASCII letters and digits, and the
/// characters `extra` names; every other character becomes `_`.
pub open spec fn safe_char(c: char, keep_dot: bool) -> char {
    if is_ascii_alnum(c) || c == '-' || c == '_' || (keep_dot && c == '.') {
        c
    } else {
        '_'
    }
}

/// `s` with every character replaced by [`safe_char`].
pub open spec fn safe_seq(s: Seq<char>, keep_dot: bool) -> Seq<char> {
    s.map_values(|c: char| safe_char(c, keep_dot))
}

fn safe_chars(s: &[char], keep_dot: bool) -> (r: Vec<char>)
    ensures
        r@ == safe_seq(s@, keep_dot),
{
    let mut r: Vec<char> = Vec::new();
    let mut i: usize = 0;
    while i < s.len()
        invariant
            i <= s.len(),
            r@ == safe_seq(s@.subrange(0, i as int), keep_dot),
        decreases s.len() - i,
    {
        let c = s[i];
        let kept = if is_ascii_alnum_char(c) || c == '-' || c == '_' || (keep_dot && c == '.') {
            c
        } else {
            '_'
        };
        r.push(kept);
        i = i + 1;
        assert(r@ =~= safe_seq(s@.subrange(0, i as int), keep_dot));
    }
    assert(s@.subrange(0, s.len() as int) =~= s@);
    r
}

/// The directory name under which a model is stored: its id with every character other
/// than ASCII letters, digits, `-`, `_` and `.` replaced by `_`.
pub fn safe_model_id(model_id: &str) -> (r: String)
    ensures
        r@ == safe_seq(model_id@, true),
{
    let v = str_chars(model_id);
    let r = safe_chars(&v, true);
    string_from_chars(&r)
}

/// The identifier of a pinned image from its file stem: `image` when the stem is missing
/// or empty, and every character other than ASCII letters, digits, `-` and `_` replaced
/// by `_`.
pub open spec fn pin_image_id(stem: Option<Seq<char>>) -> Seq<char> {
    match stem {
        Some(s) => if s.len() > 0 {
            safe_seq(s, false)
        } else {
            safe_seq("image"@, false)
        },
        None => safe_seq("image"@, false),
    }
}

/// The identifier of a pinned image from the stem of its file name.
pub fn pin_image_id_from_stem(stem: Option<&str>) -> (r: String)
    ensures
        r@ == pin_image_id(
            match stem {
                Some(s) => Some(s@),
                None => None,
            },
        ),
{
    let v = match stem {
        Some(s) => {
            let v = str_chars(s);
            if v.len() > 0 {
                v
            } else {
                str_chars("image")
            }
        },
        None => str_chars("image"),
    };
    let r = safe_chars(&v, false);
    string_from_chars(&r)
}

/// Appending an OCR fragment to text, for every text and fragment: nothing changes for an
/// empty fragment, an empty text becomes the fragment, a hyphen at the end of the text
/// is dropped before a fragment that starts with an ASCII letter, exactly one space goes
/// between a text ending in an ASCII letter, digit, `)` or `]` and a fragment starting
/// with an ASCII letter, digit, `(` or `[` (digits as letters), and otherwise the
/// fragment follows directly.
pub proof fn fragments_join_as_words(text: Seq<char>, fragment: Seq<char>)
    ensures
        fragment.len() == 0 ==> appended(text, fragment) == text,
        fragment.len() > 0 && text.len() == 0 ==> appended(text, fragment) == fragment,
        fragment.len() > 0 && text.len() > 0 && text.last() == '-' && (('a' <= fragment[0]
            && fragment[0] <= 'z') || ('A' <= fragment[0] && fragment[0] <= 'Z'))
            ==> appended(text, fragment) == text.drop_last() + fragment,
        fragment.len() > 0 && text.len() > 0 && text.last() != '-' && (('a' <= text.last()
            && text.last() <= 'z') || ('A' <= text.last() && text.last() <= 'Z') || ('0'
            <= text.last() && text.last() <= '9') || text.last() == ')' || text.last() == ']')
            && (('a' <= fragment[0] && fragment[0] <= 'z') || ('A' <= fragment[0] && fragment[0]
            <= 'Z') || ('0' <= fragment[0] && fragment[0] <= '9') || fragment[0] == '('
            || fragment[0] == '[') ==> appended(text, fragment) == text + seq![' '] + fragment,
        fragment.len() > 0 && text.len() > 0 && !(text.last() == '-' && (('a' <= fragment[0]
            && fragment[0] <= 'z') || ('A' <= fragment[0] && fragment[0] <= 'Z'))) && !((('a'
            <= text.last() && text.last() <= 'z') || ('A' <= text.last() && text.last() <= 'Z')
            || ('0' <= text.last() && text.last() <= '9') || text.last() == ')' || text.last()
            == ']') && (('a' <= fragment[0] && fragment[0] <= 'z') || ('A' <= fragment[0]
            && fragment[0] <= 'Z') || ('0' <= fragment[0] && fragment[0] <= '9') || fragment[0]
            == '(' || fragment[0] == '[')) ==> appended(text, fragment) == text + fragment,
{
    if fragment.len() > 0 && text.len() > 0 {
        assert(text.push(' ') + fragment =~= text + seq![' '] + fragment);
    }
}

/// Whether no character of `s` is white space.
pub open spec fn has_no_white_space(s: Seq<char>) -> bool {
    forall|i: int| 0 <= i < s.len() ==> !is_white_space(#[trigger] s[i])
}

/// Whether every character of `s` is white space.
pub open spec fn is_all_white_space(s: Seq<char>) -> bool {
    forall|i: int| 0 <= i < s.len() ==> is_white_space(#[trigger] s[i])
}

proof fn lemma_collapse_word(a: Seq<char>, r: Seq<char>, pc: bool)
    requires
        a.len() > 0,
        has_no_white_space(a),
    ensures
        collapse(a + r, Seq::<char>::empty(), pc) == a + collapse(r, Seq::<char>::empty(), is_compact(a.last())),
    decreases a.len(),
{
    let s = a + r;
    assert(s[0] == a[0]);
    assert(!is_white_space(a[0]));
    assert(s.drop_first() =~= a.drop_first() + r);
    if a.len() == 1 {
        assert(a.drop_first() + r =~= r);
        assert(a =~= seq![a[0]]);
        assert(Seq::<char>::empty() + seq![a[0]] + collapse(r, Seq::<char>::empty(), is_compact(a[0]))
            =~= a + collapse(r, Seq::<char>::empty(), is_compact(a.last())));
    } else {
        let t = a.drop_first();
        assert forall|i: int| 0 <= i < t.len() implies !is_white_space(#[trigger] t[i]) by {
            assert(t[i] == a[i + 1]);
        }
        lemma_collapse_word(t, r, is_compact(a[0]));
        assert(t.last() == a.last());
        assert(Seq::<char>::empty() + seq![a[0]] + (t + collapse(r, Seq::<char>::empty(), is_compact(t.last())))
            =~= a + collapse(r, Seq::<char>::empty(), is_compact(a.last())));
    }
}

proof fn lemma_collapse_space(w: Seq<char>, r: Seq<char>, pending: Seq<char>, pc: bool)
    requires
        is_all_white_space(w),
    ensures
        collapse(w + r, pending, pc) == collapse(r, pending + w, pc),
    decreases w.len(),
{
    if w.len() == 0 {
        assert(w + r =~= r);
        assert(pending + w =~= pending);
    } else {
        let s = w + r;
        assert(s[0] == w[0]);
        assert(s.drop_first() =~= w.drop_first() + r);
        let t = w.drop_first();
        assert forall|i: int| 0 <= i < t.len() implies is_white_space(#[trigger] t[i]) by {
            assert(t[i] == w[i + 1]);
        }
        lemma_collapse_space(t, r, pending.push(w[0]), pc);
        assert(pending.push(w[0]) + t =~= pending + w);
    }
}

/// The text drawn over an OCR block, for two words (no white space in either) with a run
/// of white space between them: the run stays as it is when an ASCII character is on
/// either side of it, and is dropped when CJK ideographs are on both sides; more
/// generally it stays unless the characters on both sides are compact.
pub proof fn display_keeps_spaces_beside_other_text(a: Seq<char>, w: Seq<char>, b: Seq<char>)
    requires
        a.len() > 0,
        b.len() > 0,
        w.len() > 0,
        has_no_white_space(a),
        has_no_white_space(b),
        is_all_white_space(w),
    ensures
        (a.last() as u32) < 0x80 || (b[0] as u32) < 0x80 ==> display_text(a + w + b) == a + w + b,
        (0x4E00 <= (a.last() as u32) && (a.last() as u32) <= 0x9FFF && 0x4E00 <= (b[0] as u32)
            && (b[0] as u32) <= 0x9FFF) ==> display_text(a + w + b) == a + b,
        !(is_compact(a.last()) && is_compact(b[0])) ==> display_text(a + w + b) == a + w + b,
        is_compact(a.last()) && is_compact(b[0]) ==> display_text(a + w + b) == a + b,
{
    let s = a + w + b;
    assert(s[0] == a[0]);
    assert(s.last() == b.last());
    assert(!is_white_space(a[0]));
    assert(!is_white_space(b[b.len() - 1]));
    lemma_trimmed(s);
    assert(is_trimmed(s));
    assert(trimmed(s) == s);
    assert(s =~= a + (w + b));
    lemma_collapse_word(a, w + b, false);
    let pc = is_compact(a.last());
    lemma_collapse_space(w, b, Seq::<char>::empty(), pc);
    assert(Seq::<char>::empty() + w =~= w);
    assert(!is_white_space(b[0]));
    let bt = b.drop_first();
    assert(collapse(b, w, pc) == (if w.len() > 0 && pc && is_compact(b[0]) {
        Seq::<char>::empty()
    } else {
        w
    }) + seq![b[0]] + collapse(bt, Seq::<char>::empty(), is_compact(b[0])));
    if bt.len() > 0 {
        assert forall|i: int| 0 <= i < bt.len() implies !is_white_space(#[trigger] bt[i]) by {
            assert(bt[i] == b[i + 1]);
        }
        lemma_collapse_word(bt, Seq::<char>::empty(), is_compact(b[0]));
        assert(bt + Seq::<char>::empty() =~= bt);
        assert(collapse(bt + Seq::<char>::empty(), Seq::<char>::empty(), is_compact(b[0])) == bt
            + collapse(Seq::<char>::empty(), Seq::<char>::empty(), is_compact(bt.last())));
        assert(collapse(bt, Seq::<char>::empty(), is_compact(b[0])) =~= bt);
    } else {
        assert(collapse(bt, Seq::<char>::empty(), is_compact(b[0])) =~= bt);
    }
    assert(seq![b[0]] + bt =~= b);
    if is_compact(a.last()) && is_compact(b[0]) {
        assert(display_text(s) =~= a + (Seq::<char>::empty() + seq![b[0]] + bt));
        assert(a + (Seq::<char>::empty() + seq![b[0]] + bt) =~= a + b);
    } else {
        assert(display_text(s) =~= a + (w + seq![b[0]] + bt));
        assert(a + (w + seq![b[0]] + bt) =~= a + w + b);
    }
}

} // verus!
