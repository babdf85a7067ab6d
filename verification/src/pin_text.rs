use vstd::prelude::*;

use crate::chars::{push_str_chars, slice_range, str_chars, string_from_chars};
use crate::providers::{PinTranslationSegmentationMode, TranslateProvider};
use crate::ocr_text::{append_ocr_fragment, appended};
use crate::text::{
    decimal, is_white_space, is_white_space_char, push_decimal, skip_white_space, trim_chars, trim_front,
    trim_str_chars, trimmed,
};

verus! {

/// What the pin window reads of an OCR text block: its text and the language it was
/// recognised in, if known.
#[derive(Debug, Clone)]
pub struct OcrBlockText {
    pub text: String,
    pub language: Option<String>,
}

/// A unit of OCR text sent for translation: its number, the OCR blocks it is made of,
/// its text and the language of its first block that has one.
#[derive(Debug, Clone)]
pub struct PinTranslatableBlock {
    pub index: usize,
    pub block_indices: Vec<usize>,
    pub text: String,
    pub source_language: Option<String>,
}

/// A translated unit: its number, its OCR blocks, the text that was translated, the
/// translation and the language translated into.
#[derive(Debug, Clone)]
pub struct PinBlockTranslation {
    pub index: usize,
    pub block_indices: Vec<usize>,
    pub source_text: String,
    pub translated_text: String,
    pub target_language: String,
}

/// What the translation engine answers for one unit.
#[derive(Debug, Clone)]
pub struct TranslationOutput {
    pub source_text: String,
    pub translated_text: String,
    pub target_language: String,
}

/// What the pin window asks the translation engine for one unit: its id, text and
/// language, the language to translate into, the provider and model to translate with,
/// and where the request comes from.
#[derive(Debug, Clone)]
pub struct PinTranslationRequest {
    pub id: String,
    pub source_text: String,
    pub source_language: Option<String>,
    pub target_language: String,
    pub provider: TranslateProvider,
    pub model_id: Option<String>,
    pub context: String,
}

/// Whether a text is empty once trimmed.
pub open spec fn is_blank(s: Seq<char>) -> bool {
    trimmed(s).len() == 0
}

/// The positions, in order, of the blocks among the first `n` whose text is not blank.
pub open spec fn non_blank_prefix(blocks: Seq<OcrBlockText>, n: int) -> Seq<usize>
    decreases n,
{
    if n <= 0 {
        Seq::empty()
    } else if is_blank(blocks[n - 1].text@) {
        non_blank_prefix(blocks, n - 1)
    } else {
        non_blank_prefix(blocks, n - 1).push((n - 1) as usize)
    }
}

/// The positions, in order, of the blocks whose text is not blank.
pub open spec fn non_blank_indices(blocks: Seq<OcrBlockText>) -> Seq<usize> {
    non_blank_prefix(blocks, blocks.len() as int)
}

proof fn lemma_non_blank_prefix_bounds(blocks: Seq<OcrBlockText>, n: int)
    requires
        0 <= n <= blocks.len(),
    ensures
        forall|k: int|
            0 <= k < non_blank_prefix(blocks, n).len() ==> #[trigger] non_blank_prefix(blocks, n)[k]
                < n,
    decreases n,
{
    if n > 0 {
        lemma_non_blank_prefix_bounds(blocks, n - 1);
        let prev = non_blank_prefix(blocks, n - 1);
        assert forall|k: int| 0 <= k < non_blank_prefix(blocks, n).len() implies #[trigger] non_blank_prefix(blocks, n)[k] < n by {
            if k < prev.len() {
                assert(prev[k] < n - 1);
            }
        }
    }
}

/// Whether a text is empty once trimmed.
pub fn text_is_blank(s: &str) -> (b: bool)
    ensures
        b == is_blank(s@),
{
    let t = trim_str_chars(s);
    t.len() == 0
}

/// The positions, in order, of the blocks whose text is not blank.
pub fn non_blank_blocks(blocks: &[OcrBlockText]) -> (r: Vec<usize>)
    ensures
        r@ == non_blank_indices(blocks@),
        forall|k: int| 0 <= k < r@.len() ==> #[trigger] r@[k] < blocks@.len(),
{
    let mut r: Vec<usize> = Vec::new();
    let mut i: usize = 0;
    while i < blocks.len()
        invariant
            i <= blocks.len(),
            r@ == non_blank_prefix(blocks@, i as int),
        decreases blocks.len() - i,
    {
        if !text_is_blank(blocks[i].text.as_str()) {
            r.push(i);
        }
        i = i + 1;
    }
    proof {
        lemma_non_blank_prefix_bounds(blocks@, blocks@.len() as int);
    }
    r
}

fn clone_language(value: &Option<String>) -> (r: Option<String>)
    ensures
        r == *value,
{
    match value {
        Some(v) => Some(v.clone()),
        None => None,
    }
}

/// Translation units by OCR block: one unit for each block whose text is not blank,
/// numbered by the block's position, with the block's text and language.
pub open spec fn units_by_block_match(blocks: Seq<OcrBlockText>, units: Seq<PinTranslatableBlock>) -> bool {
    let nb = non_blank_indices(blocks);
    &&& units.len() == nb.len()
    &&& forall|k: int|
        0 <= k < units.len() ==> {
            &&& (#[trigger] units[k]).index == nb[k]
            &&& units[k].block_indices@ == seq![nb[k]]
            &&& units[k].text == blocks[nb[k] as int].text
            &&& units[k].source_language == blocks[nb[k] as int].language
        }
}

/// Translation units by OCR block: one unit for each block whose text is not blank.
pub fn translatable_blocks_by_ocr_block(blocks: &[OcrBlockText]) -> (r: Vec<PinTranslatableBlock>)
    ensures
        units_by_block_match(blocks@, r@),
{
    let nb = non_blank_blocks(blocks);
    let mut r: Vec<PinTranslatableBlock> = Vec::new();
    let mut k: usize = 0;
    while k < nb.len()
        invariant
            k <= nb.len(),
            nb@ == non_blank_indices(blocks@),
            forall|j: int| 0 <= j < nb@.len() ==> #[trigger] nb@[j] < blocks@.len(),
            r@.len() == k,
            forall|j: int|
                0 <= j < k ==> {
                    &&& (#[trigger] r@[j]).index == nb@[j]
                    &&& r@[j].block_indices@ == seq![nb@[j]]
                    &&& r@[j].text == blocks@[nb@[j] as int].text
                    &&& r@[j].source_language == blocks@[nb@[j] as int].language
                },
        decreases nb.len() - k,
    {
        let i = nb[k];
        assert(i < blocks.len());
        let mut indices: Vec<usize> = Vec::new();
        indices.push(i);
        assert(indices@ =~= seq![i]);
        r.push(
            PinTranslatableBlock {
                index: i,
                block_indices: indices,
                text: blocks[i].text.clone(),
                source_language: clone_language(&blocks[i].language),
            },
        );
        k = k + 1;
    }
    r
}

/// The text of a group of OCR blocks: their trimmed texts joined as OCR fragments are.
pub open spec fn group_text(blocks: Seq<OcrBlockText>, group: Seq<usize>) -> Seq<char>
    decreases group.len(),
{
    if group.len() == 0 {
        Seq::empty()
    } else {
        appended(
            group_text(blocks, group.drop_last()),
            trimmed(blocks[group.last() as int].text@),
        )
    }
}

/// The language of the first block of a group that has one.
pub open spec fn group_language(blocks: Seq<OcrBlockText>, group: Seq<usize>) -> Option<String>
    decreases group.len(),
{
    if group.len() == 0 {
        None
    } else {
        match blocks[group[0] as int].language {
            Some(l) => Some(l),
            None => group_language(blocks, group.drop_first()),
        }
    }
}

/// Whether every position of a group names a block.
pub open spec fn group_in_range(blocks: Seq<OcrBlockText>, group: Seq<usize>) -> bool {
    forall|j: int| 0 <= j < group.len() ==> #[trigger] group[j] < blocks.len()
}

/// The translation unit made of a group of OCR blocks.
pub open spec fn unit_from_group_matches(
    unit: PinTranslatableBlock,
    index: usize,
    blocks: Seq<OcrBlockText>,
    group: Seq<usize>,
) -> bool {
    &&& unit.index == index
    &&& unit.block_indices@ == group
    &&& unit.text@ == group_text(blocks, group)
    &&& unit.source_language == group_language(blocks, group)
}

proof fn lemma_group_language_step(blocks: Seq<OcrBlockText>, group: Seq<usize>, j: int)
    requires
        0 <= j < group.len(),
        forall|i: int| 0 <= i < j ==> blocks[#[trigger] group[i] as int].language is None,
    ensures
        group_language(blocks, group) == group_language(blocks, group.subrange(j, group.len() as int)),
    decreases j,
{
    if j > 0 {
        assert(group.drop_first().subrange(j - 1, group.drop_first().len() as int) =~= group.subrange(
            j,
            group.len() as int,
        ));
        assert forall|i: int| 0 <= i < j - 1 implies blocks[#[trigger] group.drop_first()[i] as int].language is None by {
            assert(group.drop_first()[i] == group[i + 1]);
        }
        lemma_group_language_step(blocks, group.drop_first(), j - 1);
    } else {
        assert(group.subrange(0, group.len() as int) =~= group);
    }
}

/// The translation unit made of a group of OCR blocks: numbered `index`, made of the
/// group's blocks, with their trimmed texts joined and the first language among them.
pub fn translatable_block_from_group(index: usize, blocks: &[OcrBlockText], group: &[usize]) -> (r:
    PinTranslatableBlock)
    requires
        group.len() > 0,
        group_in_range(blocks@, group@),
    ensures
        unit_from_group_matches(r, index, blocks@, group@),
{
    let mut text = String::new();
    proof {
        reveal_strlit("");
    }
    let mut j: usize = 0;
    while j < group.len()
        invariant
            j <= group.len(),
            group_in_range(blocks@, group@),
            text@ == group_text(blocks@, group@.subrange(0, j as int)),
        decreases group.len() - j,
    {
        let b = group[j];
        assert(b < blocks.len());
        let t = trim_str_chars(blocks[b].text.as_str());
        let ts = string_from_chars(&t);
        append_ocr_fragment(&mut text, ts.as_str());
        assert(group@.subrange(0, j + 1).drop_last() =~= group@.subrange(0, j as int));
        j = j + 1;
    }
    assert(group@.subrange(0, group@.len() as int) =~= group@);
    let mut language: Option<String> = None;
    let mut j: usize = 0;
    while j < group.len()
        invariant
            j <= group.len(),
            group.len() > 0,
            group_in_range(blocks@, group@),
            forall|i: int| 0 <= i < j ==> blocks@[#[trigger] group@[i] as int].language is None,
        ensures
            j < group.len() ==> blocks@[group@[j as int] as int].language is Some,
            j == group.len() ==> forall|i: int|
                0 <= i < group.len() ==> blocks@[#[trigger] group@[i] as int].language is None,
        decreases group.len() - j,
    {
        let b = group[j];
        assert(b < blocks.len());
        if blocks[b].language.is_some() {
            break;
        }
        j = j + 1;
    }
    if j < group.len() {
        let b = group[j];
        language = clone_language(&blocks[b].language);
        proof {
            lemma_group_language_step(blocks@, group@, j as int);
            let sub = group@.subrange(j as int, group@.len() as int);
            assert(sub[0] == group@[j as int]);
            assert(group_language(blocks@, sub) == blocks@[group@[j as int] as int].language);
        }
    } else {
        proof {
            lemma_group_language_step(blocks@, group@, (group@.len() - 1) as int);
            let last = group@.subrange(group@.len() - 1, group@.len() as int);
            assert(last.drop_first().len() == 0);
            assert(last[0] == group@[group@.len() - 1]);
            assert(blocks@[last[0] as int].language is None);
            assert(group_language(blocks@, last.drop_first()) == None::<String>);
            assert(group_language(blocks@, last) == None::<String>);
        }
    }
    assert(language == group_language(blocks@, group@));
    let mut indices: Vec<usize> = Vec::new();
    let mut j: usize = 0;
    while j < group.len()
        invariant
            j <= group.len(),
            indices@ == group@.subrange(0, j as int),
        decreases group.len() - j,
    {
        indices.push(group[j]);
        j = j + 1;
        assert(indices@ =~= group@.subrange(0, j as int));
    }
    assert(indices@ =~= group@);
    assert(text@ == group_text(blocks@, group@));
    PinTranslatableBlock { index, block_indices: indices, text, source_language: language }
}

/// Translation units for the whole region: no unit when no block has text, and
/// otherwise one unit, numbered 0, made of every block that has text.
pub fn translatable_blocks_by_full_region(blocks: &[OcrBlockText]) -> (r: Vec<PinTranslatableBlock>)
    ensures
        non_blank_indices(blocks@).len() == 0 ==> r@.len() == 0,
        non_blank_indices(blocks@).len() > 0 ==> r@.len() == 1 && unit_from_group_matches(
            r@[0],
            0,
            blocks@,
            non_blank_indices(blocks@),
        ),
{
    let nb = non_blank_blocks(blocks);
    let mut r: Vec<PinTranslatableBlock> = Vec::new();
    if nb.len() == 0 {
        return r;
    }
    let unit = translatable_block_from_group(0, blocks, nb.as_slice());
    r.push(unit);
    r
}

/// Translation units from groups of OCR blocks that were formed beforehand: unit `k` is
/// made of group `k`.
pub fn translatable_blocks_from_groups(blocks: &[OcrBlockText], groups: &[Vec<usize>]) -> (r: Vec<
    PinTranslatableBlock,
>)
    requires
        forall|k: int|
            0 <= k < groups@.len() ==> (#[trigger] groups@[k])@.len() > 0 && group_in_range(
                blocks@,
                groups@[k]@,
            ),
    ensures
        r@.len() == groups@.len(),
        forall|k: int|
            0 <= k < r@.len() ==> unit_from_group_matches(
                #[trigger] r@[k],
                k as usize,
                blocks@,
                groups@[k]@,
            ),
{
    let mut r: Vec<PinTranslatableBlock> = Vec::new();
    let mut k: usize = 0;
    while k < groups.len()
        invariant
            k <= groups.len(),
            r@.len() == k,
            forall|j: int|
                0 <= j < groups@.len() ==> (#[trigger] groups@[j])@.len() > 0 && group_in_range(
                    blocks@,
                    groups@[j]@,
                ),
            forall|j: int|
                0 <= j < k ==> unit_from_group_matches(
                    #[trigger] r@[j],
                    j as usize,
                    blocks@,
                    groups@[j]@,
                ),
        decreases groups.len() - k,
    {
        let unit = translatable_block_from_group(k, blocks, groups[k].as_slice());
        r.push(unit);
        k = k + 1;
    }
    r
}

/// Whether a translation covers an OCR block: in block-replacement mode when it is the
/// block's own unit, and otherwise when the block is among its blocks.
pub open spec fn covers_block(t: PinBlockTranslation, index: usize, block_replace: bool) -> bool {
    if block_replace {
        t.index == index
    } else {
        t.block_indices@.contains(index)
    }
}

/// The first translation that covers an OCR block.
pub open spec fn first_covering(ts: Seq<PinBlockTranslation>, index: usize, block_replace: bool) -> Option<int> {
    if exists|k: int| 0 <= k < ts.len() && covers_block(ts[k], index, block_replace) {
        Some(
            choose|k: int|
                0 <= k < ts.len() && covers_block(ts[k], index, block_replace) && forall|j: int|
                    0 <= j < k ==> !covers_block(#[trigger] ts[j], index, block_replace),
        )
    } else {
        None
    }
}

fn contains_index(v: &[usize], x: usize) -> (b: bool)
    ensures
        b == v@.contains(x),
{
    let mut i: usize = 0;
    while i < v.len()
        invariant
            i <= v.len(),
            forall|j: int| 0 <= j < i ==> v@[j] != x,
        decreases v.len() - i,
    {
        if v[i] == x {
            assert(v@[i as int] == x);
            return true;
        }
        i = i + 1;
    }
    false
}

/// The position of the first translation that covers an OCR block: in block-replacement
/// mode the block's own unit, and otherwise the first unit the block belongs to.
pub fn translation_for_block(translations: &[PinBlockTranslation], index: usize, block_replace: bool) -> (r:
    Option<usize>)
    ensures
        match r {
            Some(k) => k < translations@.len() && covers_block(translations@[k as int], index, block_replace)
                && forall|j: int|
                0 <= j < k ==> !covers_block(#[trigger] translations@[j], index, block_replace),
            None => forall|j: int|
                0 <= j < translations@.len() ==> !covers_block(
                    #[trigger] translations@[j],
                    index,
                    block_replace,
                ),
        },
        first_covering(translations@, index, block_replace) == match r {
            Some(k) => Some(k as int),
            None => None::<int>,
        },
{
    let mut i: usize = 0;
    while i < translations.len()
        invariant
            i <= translations.len(),
            forall|j: int|
                0 <= j < i ==> !covers_block(#[trigger] translations@[j], index, block_replace),
        decreases translations.len() - i,
    {
        let hit = if block_replace {
            translations[i].index == index
        } else {
            contains_index(translations[i].block_indices.as_slice(), index)
        };
        if hit {
            proof {
                let ts = translations@;
                assert(covers_block(ts[i as int], index, block_replace));
                let c = choose|k: int|
                    0 <= k < ts.len() && covers_block(ts[k], index, block_replace) && forall|j: int|
                        0 <= j < k ==> !covers_block(#[trigger] ts[j], index, block_replace);
                assert(0 <= c < ts.len() && covers_block(ts[c], index, block_replace) && forall|j: int|
                    0 <= j < c ==> !covers_block(#[trigger] ts[j], index, block_replace));
                if c < i {
                    assert(!covers_block(ts[c], index, block_replace));
                }
                if c > i {
                    assert(!covers_block(ts[i as int], index, block_replace));
                }
            }
            return Some(i);
        }
        i = i + 1;
    }
    None
}

/// The position of the translation of an OCR block's own unit.
pub fn block_translation(translations: &[PinBlockTranslation], index: usize) -> (r: Option<usize>)
    ensures
        first_covering(translations@, index, true) == match r {
            Some(k) => Some(k as int),
            None => None::<int>,
        },
{
    translation_for_block(translations, index, true)
}

/// The OCR block a translation is shown at: in block-replacement mode its own unit
/// number, and otherwise its first block.
pub fn translation_display_block_index(translation: &PinBlockTranslation, block_replace: bool) -> (r:
    Option<usize>)
    ensures
        block_replace ==> r == Some(translation.index),
        !block_replace ==> r == (if translation.block_indices@.len() > 0 {
            Some(translation.block_indices@[0])
        } else {
            None
        }),
{
    if block_replace {
        return Some(translation.index);
    }
    if translation.block_indices.len() > 0 {
        Some(translation.block_indices[0])
    } else {
        None
    }
}

/// A text, trimmed, unless that leaves nothing.
pub open spec fn trimmed_text(s: Seq<char>) -> Option<Seq<char>> {
    if is_blank(s) {
        None
    } else {
        Some(trimmed(s))
    }
}

fn trimmed_text_of(s: &str) -> (r: Option<String>)
    ensures
        r.deep_view() == trimmed_text(s@),
{
    let t = trim_str_chars(s);
    if t.len() == 0 {
        None
    } else {
        Some(string_from_chars(&t))
    }
}

/// The text of the selected OCR block: its translation, trimmed, when it has one that is
/// not blank, and otherwise its own text, trimmed; nothing when no OCR result is shown,
/// no block is selected, the selected block does not exist or its text is blank.
pub open spec fn selected_text_of(
    blocks: Option<Seq<OcrBlockText>>,
    selected: Option<usize>,
    translations: Seq<PinBlockTranslation>,
    block_replace: bool,
) -> Option<Seq<char>> {
    match (blocks, selected) {
        (Some(bs), Some(index)) => {
            let from_translation = match first_covering(translations, index, block_replace) {
                Some(k) => trimmed_text(translations[k].translated_text@),
                None => None,
            };
            match from_translation {
                Some(t) => Some(t),
                None => if index < bs.len() {
                    trimmed_text(bs[index as int].text@)
                } else {
                    None
                },
            }
        },
        _ => None,
    }
}

/// The text of the selected OCR block, as the copy action takes it.
pub fn selected_ocr_text(
    blocks: Option<&[OcrBlockText]>,
    selected: Option<usize>,
    translations: &[PinBlockTranslation],
    block_replace: bool,
) -> (r: Option<String>)
    ensures
        r.deep_view() == selected_text_of(
            match blocks {
                Some(b) => Some(b@),
                None => None,
            },
            selected,
            translations@,
            block_replace,
        ),
{
    let bs = match blocks {
        Some(b) => b,
        None => return None,
    };
    let index = match selected {
        Some(i) => i,
        None => return None,
    };
    match translation_for_block(translations, index, block_replace) {
        Some(k) => {
            let t = trimmed_text_of(translations[k].translated_text.as_str());
            if t.is_some() {
                return t;
            }
        },
        None => {},
    }
    if index < bs.len() {
        trimmed_text_of(bs[index].text.as_str())
    } else {
        None
    }
}

/// The translations of the first `n` units, trimmed, the blank ones left out, one per
/// line.
pub open spec fn joined_translations(ts: Seq<PinBlockTranslation>, n: int) -> Seq<char>
    decreases n,
{
    if n <= 0 {
        Seq::empty()
    } else {
        let prev = joined_translations(ts, n - 1);
        let t = trimmed(ts[n - 1].translated_text@);
        if t.len() == 0 {
            prev
        } else if prev.len() == 0 {
            t
        } else {
            prev.push('\n') + t
        }
    }
}

/// All OCR text of a pin, as the copy-all action takes it: when there are translations,
/// their trimmed texts that are not blank, one per line; otherwise the recognised text,
/// trimmed; nothing when that leaves no text.
pub open spec fn all_text_of(translations: Seq<PinBlockTranslation>, plain_text: Option<Seq<char>>) -> Option<
    Seq<char>,
> {
    if translations.len() > 0 {
        let j = joined_translations(translations, translations.len() as int);
        if j.len() == 0 {
            None
        } else {
            Some(j)
        }
    } else {
        match plain_text {
            Some(p) => trimmed_text(p),
            None => None,
        }
    }
}

/// All OCR text of a pin, as the copy-all action takes it.
pub fn all_ocr_text(translations: &[PinBlockTranslation], plain_text: Option<&str>) -> (r: Option<String>)
    ensures
        r.deep_view() == all_text_of(
            translations@,
            match plain_text {
                Some(p) => Some(p@),
                None => None,
            },
        ),
{
    if translations.len() > 0 {
        let mut v: Vec<char> = Vec::new();
        let mut i: usize = 0;
        while i < translations.len()
            invariant
                i <= translations.len(),
                v@ == joined_translations(translations@, i as int),
            decreases translations.len() - i,
        {
            let t = trim_str_chars(translations[i].translated_text.as_str());
            if t.len() > 0 {
                if v.len() > 0 {
                    v.push('\n');
                }
                let ghost before = v@;
                let mut k: usize = 0;
                while k < t.len()
                    invariant
                        k <= t.len(),
                        v@ == before + t@.subrange(0, k as int),
                    decreases t.len() - k,
                {
                    v.push(t[k]);
                    k = k + 1;
                    assert(v@ =~= before + t@.subrange(0, k as int));
                }
                assert(t@.subrange(0, t@.len() as int) =~= t@);
            }
            i = i + 1;
        }
        if v.len() == 0 {
            None
        } else {
            Some(string_from_chars(&v))
        }
    } else {
        match plain_text {
            Some(p) => trimmed_text_of(p),
            None => None,
        }
    }
}

/// The positions, in order, of the units among the first `n` whose text is not blank.
pub open spec fn non_blank_unit_prefix(units: Seq<PinTranslatableBlock>, n: int) -> Seq<usize>
    decreases n,
{
    if n <= 0 {
        Seq::empty()
    } else if is_blank(units[n - 1].text@) {
        non_blank_unit_prefix(units, n - 1)
    } else {
        non_blank_unit_prefix(units, n - 1).push((n - 1) as usize)
    }
}

/// The positions, in order, of the units whose text is not blank.
pub open spec fn non_blank_units(units: Seq<PinTranslatableBlock>) -> Seq<usize> {
    non_blank_unit_prefix(units, units.len() as int)
}

/// The id of the request that translates unit `index`.
pub open spec fn request_id(index: usize) -> Seq<char> {
    "pin-translation-block-"@ + decimal(index as nat)
}

/// The request that translates a unit: its id, its trimmed text and its language, and
/// the target language, provider and model the pin window translates with.
pub open spec fn request_matches(
    request: PinTranslationRequest,
    unit: PinTranslatableBlock,
    target_language: Seq<char>,
    provider: TranslateProvider,
    model_id: Option<Seq<char>>,
) -> bool {
    &&& request.id@ == request_id(unit.index)
    &&& request.source_text@ == trimmed(unit.text@)
    &&& request.source_language == unit.source_language
    &&& request.target_language@ == target_language
    &&& request.provider == provider
    &&& request.model_id.deep_view() == model_id
    &&& request.context@ == "pin_window_block"@
}

/// The message when no unit has text to translate.
pub open spec fn nothing_to_translate_message() -> Seq<char> {
    "no OCR text to translate"@
}

/// The requests that translate a pin's units, with the positions of the units they are
/// for: the units whose text is blank are left out, and when none is left there is
/// nothing to translate.
pub fn pin_translation_requests(
    units: &[PinTranslatableBlock],
    target_language: &str,
    provider: TranslateProvider,
    model_id: &Option<String>,
) -> (r: Result<
    (Vec<usize>, Vec<PinTranslationRequest>),
    String,
>)
    ensures
        match r {
            Ok((kept, requests)) => {
                &&& kept@ == non_blank_units(units@)
                &&& kept@.len() > 0
                &&& requests@.len() == kept@.len()
                &&& forall|k: int|
                    0 <= k < kept@.len() ==> #[trigger] kept@[k] < units@.len() && request_matches(
                        requests@[k],
                        units@[kept@[k] as int],
                        target_language@,
                        provider,
                        model_id.deep_view(),
                    )
            },
            Err(e) => non_blank_units(units@).len() == 0 && e@ == nothing_to_translate_message(),
        },
{
    let mut kept: Vec<usize> = Vec::new();
    let mut requests: Vec<PinTranslationRequest> = Vec::new();
    let mut i: usize = 0;
    while i < units.len()
        invariant
            i <= units.len(),
            kept@ == non_blank_unit_prefix(units@, i as int),
            requests@.len() == kept@.len(),
            forall|k: int|
                0 <= k < kept@.len() ==> #[trigger] kept@[k] < i && request_matches(
                    requests@[k],
                    units@[kept@[k] as int],
                    target_language@,
                    provider,
                    model_id.deep_view(),
                ),
        decreases units.len() - i,
    {
        let u = &units[i];
        let t = trim_str_chars(u.text.as_str());
        if t.len() > 0 {
            let mut id: Vec<char> = Vec::new();
            push_str_chars(&mut id, "pin-translation-block-");
            push_decimal(&mut id, u.index as u128);
            requests.push(
                PinTranslationRequest {
                    id: string_from_chars(&id),
                    source_text: string_from_chars(&t),
                    source_language: clone_language(&u.source_language),
                    target_language: target_language.to_owned(),
                    provider,
                    model_id: clone_language(model_id),
                    context: "pin_window_block".to_owned(),
                },
            );
            kept.push(i);
        }
        i = i + 1;
    }
    if kept.len() == 0 {
        return Err("no OCR text to translate".to_owned());
    }
    Ok((kept, requests))
}

/// The request the pin window uses to pick a local translation model: the first unit's
/// trimmed text and language (empty and none when there is no unit).
pub fn model_selection_request(
    units: &[PinTranslatableBlock],
    target_language: &str,
    provider: TranslateProvider,
    model_id: &Option<String>,
) -> (r: PinTranslationRequest)
    ensures
        r.id@ == "pin-translation-model-selection"@,
        r.target_language@ == target_language@,
        r.provider == provider,
        r.model_id.deep_view() == model_id.deep_view(),
        r.context@ == "pin_window"@,
        units@.len() > 0 ==> r.source_text@ == trimmed(units@[0].text@) && r.source_language
            == units@[0].source_language,
        units@.len() == 0 ==> r.source_text@.len() == 0 && r.source_language is None,
{
    if units.len() > 0 {
        let t = trim_str_chars(units[0].text.as_str());
        PinTranslationRequest {
            id: "pin-translation-model-selection".to_owned(),
            source_text: string_from_chars(&t),
            source_language: clone_language(&units[0].source_language),
            target_language: target_language.to_owned(),
            provider,
            model_id: clone_language(model_id),
            context: "pin_window".to_owned(),
        }
    } else {
        let empty: Vec<char> = Vec::new();
        PinTranslationRequest {
            id: "pin-translation-model-selection".to_owned(),
            source_text: string_from_chars(&empty),
            source_language: None,
            target_language: target_language.to_owned(),
            provider,
            model_id: clone_language(model_id),
            context: "pin_window".to_owned(),
        }
    }
}

/// The message when the engine answers a different number of units than it was asked.
pub open spec fn count_mismatch_message(expected: nat, got: nat) -> Seq<char> {
    "translation result count mismatch: expected "@ + decimal(expected) + ", got "@ + decimal(got)
}

/// The translation of a unit from the engine's answer for it.
pub open spec fn translation_matches(
    t: PinBlockTranslation,
    unit: PinTranslatableBlock,
    result: TranslationOutput,
) -> bool {
    &&& t.index == unit.index
    &&& t.block_indices@ == unit.block_indices@
    &&& t.source_text == result.source_text
    &&& t.translated_text == result.translated_text
    &&& t.target_language == result.target_language
}

/// The translations of a pin's units from the engine's answers: the answer `k` is for
/// the unit at `kept[k]`; an answer count that differs from the request count is an
/// error.
pub fn pin_block_translations(
    units: &[PinTranslatableBlock],
    kept: &[usize],
    results: &[TranslationOutput],
) -> (r: Result<Vec<PinBlockTranslation>, String>)
    requires
        forall|k: int| 0 <= k < kept@.len() ==> #[trigger] kept@[k] < units@.len(),
    ensures
        kept@.len() != results@.len() ==> (r matches Err(e) && e@ == count_mismatch_message(
            kept@.len(),
            results@.len(),
        )),
        kept@.len() == results@.len() ==> (r matches Ok(ts) && ts@.len() == kept@.len() && forall|k: int|
            0 <= k < ts@.len() ==> translation_matches(
                #[trigger] ts@[k],
                units@[kept@[k] as int],
                results@[k],
            )),
{
    if kept.len() != results.len() {
        let mut v: Vec<char> = Vec::new();
        push_str_chars(&mut v, "translation result count mismatch: expected ");
        push_decimal(&mut v, kept.len() as u128);
        push_str_chars(&mut v, ", got ");
        push_decimal(&mut v, results.len() as u128);
        return Err(string_from_chars(&v));
    }
    let mut ts: Vec<PinBlockTranslation> = Vec::new();
    let mut k: usize = 0;
    while k < kept.len()
        invariant
            k <= kept.len(),
            kept@.len() == results@.len(),
            forall|j: int| 0 <= j < kept@.len() ==> #[trigger] kept@[j] < units@.len(),
            ts@.len() == k,
            forall|j: int|
                0 <= j < k ==> translation_matches(
                    #[trigger] ts@[j],
                    units@[kept@[j] as int],
                    results@[j],
                ),
        decreases kept.len() - k,
    {
        let u = &units[kept[k]];
        let mut indices: Vec<usize> = Vec::new();
        let mut j: usize = 0;
        while j < u.block_indices.len()
            invariant
                j <= u.block_indices@.len(),
                indices@ == u.block_indices@.subrange(0, j as int),
            decreases u.block_indices@.len() - j,
        {
            indices.push(u.block_indices[j]);
            j = j + 1;
            assert(indices@ =~= u.block_indices@.subrange(0, j as int));
        }
        assert(indices@ =~= u.block_indices@);
        ts.push(
            PinBlockTranslation {
                index: u.index,
                block_indices: indices,
                source_text: results[k].source_text.clone(),
                translated_text: results[k].translated_text.clone(),
                target_language: results[k].target_language.clone(),
            },
        );
        k = k + 1;
    }
    Ok(ts)
}

/// What `char::is_alphanumeric` answers for a character: whether it has Unicode's
/// `Alphabetic` or `Numeric` property.
pub uninterp spec fn unicode_alphanumeric(c: char) -> bool;

/// Whether a character is a letter or a digit in Unicode's sense.
///
/// Trusted: calls `char::is_alphanumeric` from std; the contract claims that the answer
/// is [`unicode_alphanumeric`] of the character, a property of the character alone.
#[verifier::external_body]
fn is_alphanumeric(c: char) -> (b: bool)
    ensures
        b == unicode_alphanumeric(c),
{
    c.is_alphanumeric()
}

/// The colons that end an inline label: ASCII and full width.
pub open spec fn is_label_colon(c: char) -> bool {
    c == ':' || c == '\u{FF1A}'
}

/// The punctuation that a label does not hold: full stop, comma and semicolon, ASCII
/// and Chinese.
pub open spec fn is_label_stop(c: char) -> bool {
    c == '.' || c == ',' || c == ';' || c == '\u{3002}' || c == '\u{FF0C}' || c == '\u{FF1B}'
}

/// How many words of `s` start among its first `n` characters: a word starts at a
/// character that is not white space and follows white space or the start.
pub open spec fn word_starts(s: Seq<char>, n: int) -> nat
    decreases n,
{
    if n <= 0 {
        0
    } else {
        word_starts(s, n - 1) + if !is_white_space(s[n - 1]) && (n == 1 || is_white_space(
            s[n - 2],
        )) {
            1nat
        } else {
            0nat
        }
    }
}

/// How many words `str::split_whitespace` finds in `s`.
pub open spec fn word_count(s: Seq<char>) -> nat {
    word_starts(s, s.len() as int)
}

/// The position of the first colon of `s`, if any.
pub open spec fn first_colon(s: Seq<char>) -> Option<int> {
    if exists|i: int| 0 <= i < s.len() && is_label_colon(s[i]) {
        Some(
            choose|i: int|
                0 <= i < s.len() && is_label_colon(s[i]) && forall|j: int|
                    0 <= j < i ==> !is_label_colon(#[trigger] s[j]),
        )
    } else {
        None
    }
}

/// The label a text starts with: what comes before its first colon, once the text's
/// leading white space is dropped, trimmed; none when there is no colon.
pub open spec fn inline_label_of(text: Seq<char>) -> Option<Seq<char>> {
    let t = trim_front(text);
    match first_colon(t) {
        Some(c) => Some(trimmed(t.subrange(0, c))),
        None => None,
    }
}

/// Whether a label makes an inline label, given for each of its characters whether it is
/// a letter or digit: at least one and at most `max_chars` characters, at most five
/// words, some letter or digit, and no full stop, comma or semicolon.
pub open spec fn label_qualifies(label: Seq<char>, alphanumeric: Seq<bool>, max_chars: nat) -> bool {
    &&& label.len() > 0
    &&& label.len() <= max_chars
    &&& word_count(label) <= 5
    &&& exists|i: int| 0 <= i < label.len() && #[trigger] alphanumeric[i]
    &&& !exists|i: int| 0 <= i < label.len() && is_label_stop(#[trigger] label[i])
}

/// Which characters of a text are letters or digits in Unicode's sense.
pub open spec fn alphanumeric_flags(s: Seq<char>) -> Seq<bool> {
    Seq::new(s.len(), |i: int| unicode_alphanumeric(s[i]))
}

/// Whether a text starts with an inline label such as `Name:`: the text before its first
/// colon, trimmed, makes an inline label.
pub open spec fn is_inline_label(text: Seq<char>, max_chars: nat) -> bool {
    match inline_label_of(text) {
        Some(label) => label_qualifies(label, alphanumeric_flags(label), max_chars),
        None => false,
    }
}

/// Whether a label makes an inline label, given for each of its characters
/// (`alphanumeric[i]` for `label[i]`) whether it is a letter or digit.
pub fn inline_label_qualifies(label: &[char], alphanumeric: &[bool], max_chars: usize) -> (b: bool)
    requires
        alphanumeric@.len() == label@.len(),
    ensures
        b == label_qualifies(label@, alphanumeric@, max_chars as nat),
{
    let n = label.len();
    if n == 0 || n > max_chars {
        return false;
    }
    let mut words: usize = 0;
    let mut any_alnum = false;
    let mut any_stop = false;
    let mut i: usize = 0;
    while i < n
        invariant
            i <= n,
            n == label@.len(),
            n == alphanumeric@.len(),
            words == word_starts(label@, i as int),
            words <= i,
            any_alnum == exists|j: int| 0 <= j < i && #[trigger] alphanumeric@[j],
            any_stop == exists|j: int| 0 <= j < i && is_label_stop(#[trigger] label@[j]),
        decreases n - i,
    {
        let ch = label[i];
        let ws = is_white_space_char(ch);
        if !ws && (i == 0 || is_white_space_char(label[i - 1])) {
            words = words + 1;
        }
        if alphanumeric[i] {
            any_alnum = true;
        }
        if ch == '.' || ch == ',' || ch == ';' || ch == '\u{3002}' || ch == '\u{FF0C}' || ch == '\u{FF1B}' {
            any_stop = true;
        }
        proof {
            assert(label@[i as int] == ch);
            if any_alnum && !alphanumeric@[i as int] {
                let j0 = choose|j: int| 0 <= j < i && #[trigger] alphanumeric@[j];
                assert(0 <= j0 < i + 1 && alphanumeric@[j0]);
            }
            if any_stop && !is_label_stop(ch) {
                let j0 = choose|j: int| 0 <= j < i && is_label_stop(#[trigger] label@[j]);
                assert(0 <= j0 < i + 1 && is_label_stop(label@[j0]));
            }
        }
        i = i + 1;
    }
    words <= 5 && any_alnum && !any_stop
}

/// Whether a text starts with an inline label such as `Name:`, which keeps the line from
/// being merged into the paragraph above it.
pub fn starts_with_inline_label(text: &str, inline_label_max_chars: usize) -> (b: bool)
    ensures
        b == is_inline_label(text@, inline_label_max_chars as nat),
{
    let s = str_chars(text);
    let start = skip_white_space(&s, 0);
    assert(s@.subrange(0, s@.len() as int) =~= s@);
    let ghost t = s@.subrange(start as int, s@.len() as int);
    let mut c: usize = start;
    while c < s.len()
        invariant
            start <= c <= s.len(),
            t == s@.subrange(start as int, s@.len() as int),
            forall|j: int| 0 <= j < c - start ==> !is_label_colon(#[trigger] t[j]),
        ensures
            c < s.len() ==> is_label_colon(t[c - start]),
        decreases s.len() - c,
    {
        if s[c] == ':' || s[c] == '\u{FF1A}' {
            assert(t[c - start] == s@[c as int]);
            break;
        }
        assert(t[c - start] == s@[c as int]);
        c = c + 1;
    }
    if c >= s.len() {
        assert(!exists|i: int| 0 <= i < t.len() && is_label_colon(t[i]));
        return false;
    }
    proof {
        let w = choose|i: int|
            0 <= i < t.len() && is_label_colon(t[i]) && forall|j: int|
                0 <= j < i ==> !is_label_colon(#[trigger] t[j]);
        assert(is_label_colon(t[c - start]));
        if w < c - start {
            assert(!is_label_colon(t[w]));
        }
        if w > c - start {
            assert(!is_label_colon(t[c - start]));
        }
        assert(first_colon(t) == Some((c - start) as int));
    }
    let raw = slice_range(&s, start, c);
    assert(raw@ =~= t.subrange(0, (c - start) as int));
    let label = trim_chars(&raw);
    let mut flags: Vec<bool> = Vec::new();
    let mut i: usize = 0;
    while i < label.len()
        invariant
            i <= label@.len(),
            flags@.len() == i,
            forall|j: int| 0 <= j < i ==> flags@[j] == unicode_alphanumeric(#[trigger] label@[j]),
        decreases label.len() - i,
    {
        flags.push(is_alphanumeric(label[i]));
        i = i + 1;
    }
    assert(flags@ =~= alphanumeric_flags(label@));
    inline_label_qualifies(label.as_slice(), flags.as_slice(), inline_label_max_chars)
}


/// The translation units of an OCR result in the given mode: one per block with text
/// when replacing blocks, one for the whole region, or, when merging, one per group of
/// blocks (`merged_groups`, formed from the blocks' places beforehand).
pub fn translatable_blocks_for_result(
    mode: PinTranslationSegmentationMode,
    blocks: &[OcrBlockText],
    merged_groups: &[Vec<usize>],
) -> (r: Vec<PinTranslatableBlock>)
    requires
        mode == PinTranslationSegmentationMode::SmartMerge ==> forall|k: int|
            0 <= k < merged_groups@.len() ==> (#[trigger] merged_groups@[k])@.len() > 0
                && group_in_range(blocks@, merged_groups@[k]@),
    ensures
        mode == PinTranslationSegmentationMode::BlockReplace ==> units_by_block_match(blocks@, r@),
        mode == PinTranslationSegmentationMode::FullRegion ==> {
            &&& non_blank_indices(blocks@).len() == 0 ==> r@.len() == 0
            &&& non_blank_indices(blocks@).len() > 0 ==> r@.len() == 1 && unit_from_group_matches(
                r@[0],
                0,
                blocks@,
                non_blank_indices(blocks@),
            )
        },
        mode == PinTranslationSegmentationMode::SmartMerge ==> {
            &&& r@.len() == merged_groups@.len()
            &&& forall|k: int|
                0 <= k < r@.len() ==> unit_from_group_matches(
                    #[trigger] r@[k],
                    k as usize,
                    blocks@,
                    merged_groups@[k]@,
                )
        },
{
    match mode {
        PinTranslationSegmentationMode::BlockReplace => translatable_blocks_by_ocr_block(blocks),
        PinTranslationSegmentationMode::FullRegion => translatable_blocks_by_full_region(blocks),
        PinTranslationSegmentationMode::SmartMerge => translatable_blocks_from_groups(blocks, merged_groups),
    }
}

} // verus!
