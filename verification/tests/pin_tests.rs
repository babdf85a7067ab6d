use snap_pin::overlay::{
    show_ocr_result, translation_bounds, OcrTextPlacement, OverlayApp, OverlayInput, SelectionDrag,
    TextLayer,
    TextOverlayRole,
};
use snap_pin::pin_session::{ocr_block_at, pin_canvas_step, PinCanvasStep, PinOcrSession, TranslationStart};
use snap_pin::pin_text::{
    all_ocr_text, block_translation, model_selection_request, non_blank_blocks,
    pin_block_translations, pin_translation_requests, selected_ocr_text,
    inline_label_qualifies, starts_with_inline_label, text_is_blank, translatable_block_from_group,
    translatable_blocks_by_full_region, translatable_blocks_by_ocr_block,
    translatable_blocks_from_groups, translation_display_block_index, translation_for_block,
    translatable_blocks_for_result, OcrBlockText, PinBlockTranslation, PinTranslatableBlock,
    TranslationOutput,
};
use snap_pin::providers::{PinTranslationSegmentationMode, TranslateLocalBackend, TranslateProvider};
use snap_pin::shell::{CoreCommandKind, OverlayMode};
use snap_pin::toolbar::{
    inline_pin_toolbar_buttons, pin_toolbar_action_at, pin_toolbar_button_count,
    pin_toolbar_buttons, shortcut_text, PinToolbarAction, PinToolbarEdge, PinToolbarLabel,
    PinToolbarState, ToolbarBar, ToolbarShortcut,
};

fn block(text: &str, language: Option<&str>) -> OcrBlockText {
    OcrBlockText { text: text.to_owned(), language: language.map(str::to_owned) }
}

fn translation(index: usize, blocks: Vec<usize>, text: &str) -> PinBlockTranslation {
    PinBlockTranslation {
        index,
        block_indices: blocks,
        source_text: "src".to_owned(),
        translated_text: text.to_owned(),
        target_language: "en".to_owned(),
    }
}

#[test]
fn blank_blocks_are_left_out_of_translation_units() {
    let blocks = vec![block("Hello", Some("en")), block("   ", None), block(" World ", None)];
    assert!(text_is_blank(" \t "));
    assert!(!text_is_blank(" a "));
    assert_eq!(non_blank_blocks(&blocks), vec![0, 2]);
    let units = translatable_blocks_by_ocr_block(&blocks);
    assert_eq!(units.len(), 2);
    assert_eq!(units[0].index, 0);
    assert_eq!(units[0].block_indices, vec![0]);
    assert_eq!(units[0].text, "Hello");
    assert_eq!(units[0].source_language.as_deref(), Some("en"));
    assert_eq!(units[1].index, 2);
    assert_eq!(units[1].text, " World ");
    assert_eq!(units[1].source_language, None);
}

#[test]
fn full_region_joins_every_block_with_text() {
    let blocks = vec![
        block("multi-", None),
        block(" ", Some("de")),
        block("line text", None),
        block("(note)", Some("en")),
    ];
    let units = translatable_blocks_by_full_region(&blocks);
    assert_eq!(units.len(), 1);
    assert_eq!(units[0].index, 0);
    assert_eq!(units[0].block_indices, vec![0, 2, 3]);
    assert_eq!(units[0].text, "multiline text (note)");
    assert_eq!(units[0].source_language.as_deref(), Some("en"));
    assert!(translatable_blocks_by_full_region(&[block("  ", None)]).is_empty());
}

#[test]
fn groups_become_numbered_units() {
    let blocks = vec![block("A", None), block("b", Some("fr")), block("C.", None)];
    let unit = translatable_block_from_group(7, &blocks, &[2, 0]);
    assert_eq!(unit.index, 7);
    assert_eq!(unit.block_indices, vec![2, 0]);
    assert_eq!(unit.text, "C.A");
    let units = translatable_blocks_from_groups(&blocks, &[vec![0, 1], vec![2]]);
    assert_eq!(units.len(), 2);
    assert_eq!(units[0].index, 0);
    assert_eq!(units[0].text, "A b");
    assert_eq!(units[0].source_language.as_deref(), Some("fr"));
    assert_eq!(units[1].index, 1);
    assert_eq!(units[1].text, "C.");
}

#[test]
fn translations_are_found_by_block() {
    let ts = vec![translation(0, vec![0, 1], "one"), translation(3, vec![3], "two")];
    assert_eq!(translation_for_block(&ts, 1, false), Some(0));
    assert_eq!(translation_for_block(&ts, 3, false), Some(1));
    assert_eq!(translation_for_block(&ts, 2, false), None);
    assert_eq!(translation_for_block(&ts, 1, true), None);
    assert_eq!(block_translation(&ts, 3), Some(1));
    assert_eq!(translation_display_block_index(&ts[1], true), Some(3));
    assert_eq!(translation_display_block_index(&ts[0], false), Some(0));
    assert_eq!(translation_display_block_index(&translation(5, vec![], "x"), false), None);
}

#[test]
fn selected_text_prefers_the_translation() {
    let blocks = vec![block(" first ", None), block("  ", None)];
    let ts = vec![translation(0, vec![0], "  translated  ")];
    assert_eq!(selected_ocr_text(Some(&blocks), Some(0), &ts, false).as_deref(), Some("translated"));
    assert_eq!(selected_ocr_text(Some(&blocks), Some(0), &[], false).as_deref(), Some("first"));
    let blank = vec![translation(0, vec![0], "   ")];
    assert_eq!(selected_ocr_text(Some(&blocks), Some(0), &blank, false).as_deref(), Some("first"));
    assert_eq!(selected_ocr_text(Some(&blocks), Some(1), &[], false), None);
    assert_eq!(selected_ocr_text(Some(&blocks), Some(5), &[], false), None);
    assert_eq!(selected_ocr_text(Some(&blocks), None, &ts, false), None);
    assert_eq!(selected_ocr_text(None, Some(0), &ts, false), None);
}

#[test]
fn all_text_joins_translations_by_line() {
    let ts = vec![
        translation(0, vec![0], " one "),
        translation(1, vec![1], "   "),
        translation(2, vec![2], "three"),
    ];
    assert_eq!(all_ocr_text(&ts, Some("plain")).as_deref(), Some("one\nthree"));
    assert_eq!(all_ocr_text(&[translation(0, vec![0], " ")], Some("plain")), None);
    assert_eq!(all_ocr_text(&[], Some("  plain text \n")).as_deref(), Some("plain text"));
    assert_eq!(all_ocr_text(&[], Some("   ")), None);
    assert_eq!(all_ocr_text(&[], None), None);
}

fn unit(index: usize, text: &str, language: Option<&str>) -> PinTranslatableBlock {
    PinTranslatableBlock {
        index,
        block_indices: vec![index],
        text: text.to_owned(),
        source_language: language.map(str::to_owned),
    }
}

#[test]
fn translation_requests_skip_blank_units() {
    let units = vec![unit(4, " Hello ", Some("en")), unit(5, "  ", None), unit(12, "World", None)];
    let ct2 = TranslateProvider::Local(TranslateLocalBackend::CTranslate2);
    let model = Some("opus-en-fr".to_owned());
    let (kept, requests) = pin_translation_requests(&units, "fr", ct2, &model).expect("there is text");
    assert_eq!(kept, vec![0, 2]);
    assert_eq!(requests.len(), 2);
    assert_eq!(requests[0].id, "pin-translation-block-4");
    assert_eq!(requests[0].source_text, "Hello");
    assert_eq!(requests[0].source_language.as_deref(), Some("en"));
    assert_eq!(requests[0].context, "pin_window_block");
    assert_eq!(requests[0].target_language, "fr");
    assert_eq!(requests[0].provider, ct2);
    assert_eq!(requests[0].model_id.as_deref(), Some("opus-en-fr"));
    assert_eq!(requests[1].target_language, "fr");
    assert_eq!(requests[1].model_id.as_deref(), Some("opus-en-fr"));
    assert_eq!(requests[1].id, "pin-translation-block-12");
    let err = pin_translation_requests(&[unit(0, " ", None)], "fr", ct2, &None).unwrap_err();
    assert_eq!(err, "no OCR text to translate");
    let probe = model_selection_request(&units, "ja", TranslateProvider::Disabled, &None);
    assert_eq!(probe.id, "pin-translation-model-selection");
    assert_eq!(probe.source_text, "Hello");
    assert_eq!(probe.context, "pin_window");
    assert_eq!(probe.target_language, "ja");
    assert_eq!(probe.provider, TranslateProvider::Disabled);
    assert_eq!(probe.model_id, None);
    assert_eq!(model_selection_request(&[], "ja", ct2, &model).source_text, "");
    assert_eq!(model_selection_request(&[], "ja", ct2, &model).model_id.as_deref(), Some("opus-en-fr"));
}

#[test]
fn translation_answers_are_matched_to_units() {
    let units = vec![unit(4, "Hello", None), unit(5, " ", None), unit(12, "World", None)];
    let results = vec![
        TranslationOutput {
            source_text: "Hello".to_owned(),
            translated_text: "Bonjour".to_owned(),
            target_language: "fr".to_owned(),
        },
        TranslationOutput {
            source_text: "World".to_owned(),
            translated_text: "Monde".to_owned(),
            target_language: "fr".to_owned(),
        },
    ];
    let ts = pin_block_translations(&units, &[0, 2], &results).expect("counts match");
    assert_eq!(ts.len(), 2);
    assert_eq!(ts[0].index, 4);
    assert_eq!(ts[0].translated_text, "Bonjour");
    assert_eq!(ts[1].index, 12);
    assert_eq!(ts[1].block_indices, vec![12]);
    assert_eq!(ts[1].target_language, "fr");
    let err = pin_block_translations(&units, &[0, 2], &results[..1]).unwrap_err();
    assert_eq!(err, "translation result count mismatch: expected 2, got 1");
}

#[test]
fn inline_labels_are_recognised() {
    assert!(starts_with_inline_label("  Name: John", 32));
    assert!(starts_with_inline_label("\u{59d3}\u{540d}\u{ff1a}\u{5f20}\u{4e09}", 32));
    assert!(!starts_with_inline_label("No colon here", 32));
    assert!(!starts_with_inline_label(": empty label", 32));
    assert!(!starts_with_inline_label("Mr. Smith: hello", 32));
    assert!(!starts_with_inline_label("one two three four five six: x", 32));
    assert!(starts_with_inline_label("one two three four five: x", 32));
    assert!(!starts_with_inline_label("Name: John", 3));
    assert!(!starts_with_inline_label("--- : x", 32));
}

#[test]
fn toolbar_buttons_follow_the_ocr_state() {
    let closed = PinToolbarState { ocr_active: false, has_ocr_text: false, has_selected_ocr_text: false };
    let buttons = pin_toolbar_buttons(closed);
    assert_eq!(buttons.len(), 5);
    assert_eq!(buttons[2].action, PinToolbarAction::RunOcr);
    assert_eq!(buttons[2].label, PinToolbarLabel::Ocr);
    assert_eq!(buttons[4].shortcut, Some(ToolbarShortcut::Esc));
    let open = PinToolbarState { ocr_active: true, has_ocr_text: true, has_selected_ocr_text: false };
    let buttons = pin_toolbar_buttons(open);
    assert_eq!(buttons.len(), 8);
    assert_eq!(buttons[2].action, PinToolbarAction::CloseOcr);
    assert_eq!(buttons[5].bar, ToolbarBar::Extension);
    assert_eq!(buttons[5].action, PinToolbarAction::CopySelectedText);
    assert!(!buttons[5].enabled);
    assert!(buttons[6].enabled);
    assert_eq!(buttons[7].label, PinToolbarLabel::RerunOcr);
    assert_eq!(shortcut_text(ToolbarShortcut::CtrlShiftC), "Ctrl+Shift+C");
    assert!(PinToolbarEdge::Top.is_horizontal());
    assert!(!PinToolbarEdge::Left.is_horizontal());
}

#[test]
fn inline_toolbar_counts_its_buttons() {
    assert_eq!(pin_toolbar_button_count(false), 5);
    assert_eq!(pin_toolbar_button_count(true), 7);
    let buttons = inline_pin_toolbar_buttons(true, true);
    assert_eq!(buttons.len(), pin_toolbar_button_count(true));
    let actions: Vec<PinToolbarAction> = buttons.iter().map(|b| b.action).collect();
    assert_eq!(
        actions,
        vec![
            PinToolbarAction::CopyImage,
            PinToolbarAction::SaveImage,
            PinToolbarAction::CopySelectedText,
            PinToolbarAction::CopyAllText,
            PinToolbarAction::RunOcr,
            PinToolbarAction::Translate,
            PinToolbarAction::Close,
        ]
    );
    for (i, b) in buttons.iter().enumerate() {
        assert_eq!(b.slot, i);
    }
    assert_eq!(buttons[4].label, PinToolbarLabel::RerunOcr);
    assert_eq!(inline_pin_toolbar_buttons(false, false).len(), pin_toolbar_button_count(false));
}

#[test]
fn clicks_hit_the_first_enabled_button() {
    let state = PinToolbarState { ocr_active: true, has_ocr_text: false, has_selected_ocr_text: false };
    let buttons = pin_toolbar_buttons(state);
    let mut under = vec![false; buttons.len()];
    under[6] = true;
    assert_eq!(pin_toolbar_action_at(&buttons, &under), None);
    under[7] = true;
    assert_eq!(pin_toolbar_action_at(&buttons, &under), Some(PinToolbarAction::RunOcr));
    under[1] = true;
    assert_eq!(pin_toolbar_action_at(&buttons, &under), Some(PinToolbarAction::SaveImage));
}

#[test]
fn pin_session_translation_waits_for_ocr() {
    let mut session: PinOcrSession<Vec<String>> = PinOcrSession::new();
    let start = session.run_translation(true, false, "missing");
    assert_eq!(start, TranslationStart::OcrFirst(true));
    assert!(session.ocr_running);
    assert!(session.translate_after_ocr);
    assert_eq!(session.ocr_status.as_deref(), Some("OCR running before translation..."));
    let translate_now = session.finish_ocr(Ok(vec!["text".to_owned()]));
    assert!(translate_now);
    assert!(!session.ocr_running);
    assert_eq!(session.ocr_status, None);
    let start = session.run_translation(true, true, "missing");
    assert_eq!(start, TranslationStart::Translation);
    assert_eq!(session.ocr_status.as_deref(), Some("Translation running..."));
    session.finish_translation(Ok(vec![translation(0, vec![0], "hi")]));
    assert!(!session.translate_running);
    assert_eq!(session.block_translations.len(), 1);
    session.select_block(Some(0));
    assert_eq!(session.selected_ocr_block, Some(0));
    session.close_ocr();
    assert!(session.ocr_result.is_none());
    assert_eq!(session.selected_ocr_block, None);
    assert!(session.block_translations.is_empty());
}

#[test]
fn pin_session_without_image_reports_it() {
    let mut session: PinOcrSession<u8> = PinOcrSession::new();
    assert!(!session.run_ocr(false, "no image"));
    assert_eq!(session.ocr_status.as_deref(), Some("no image"));
    assert!(session.run_ocr(true, "no image"));
    assert!(!session.run_ocr(true, "no image"));
    assert!(!session.finish_ocr(Err("engine failed".to_owned())));
    assert_eq!(session.ocr_status.as_deref(), Some("engine failed"));
    session.select_block(Some(3));
    assert_eq!(session.selected_ocr_block, None);
    session.finish_translation(Err("ignored".to_owned()));
    assert_eq!(session.ocr_status.as_deref(), Some("engine failed"));
}

#[test]
fn overlay_shell_selection_by_drag() {
    let mut app: OverlayApp<(i32, i32)> = OverlayApp::new();
    assert_eq!(app.handle_input(OverlayInput::PointerMove((5, 5))), None);
    assert_eq!(app.selection, None);
    app.handle_input(OverlayInput::PointerDown((1, 2)));
    assert_eq!(app.mode, OverlayMode::Selecting);
    app.handle_input(OverlayInput::PointerMove((8, 9)));
    assert_eq!(app.selection, Some(((1, 2), (8, 9))));
    app.handle_input(OverlayInput::PointerUp((10, 12)));
    assert_eq!(app.mode, OverlayMode::Idle);
    assert_eq!(app.selection, Some(((1, 2), (10, 12))));
    assert_eq!(app.drag, None);
    assert_eq!(app.boot_summary(), "snap_pin overlay shell ready: egui/wgpu integration point");
    assert_eq!(app.handle_input(OverlayInput::Confirm), Some(CoreCommandKind::StartCapture));
    assert_eq!(app.selection, Some(((1, 2), (10, 12))));
    assert_eq!(app.handle_input(OverlayInput::Escape), Some(CoreCommandKind::CancelCapture));
    assert_eq!(app.selection, None);
}

#[test]
fn text_layer_keeps_overlays_in_order() {
    let mut layer: TextLayer<u32> = TextLayer::new();
    show_ocr_result(
        &mut layer,
        &[
            OcrTextPlacement { text: "a".to_owned(), bounds: 1 },
            OcrTextPlacement { text: "b".to_owned(), bounds: 2 },
        ],
    );
    layer.set_translation_text("A".to_owned(), "en".to_owned(), translation_bounds(None, 0));
    assert_eq!(layer.overlays().len(), 3);
    assert_eq!(layer.overlays[1].text, "b");
    assert_eq!(layer.overlays[1].bounds, 2);
    assert_eq!(layer.overlays[1].role, TextOverlayRole::Ocr);
    assert_eq!(layer.overlays[2].language.as_deref(), Some("en"));
    assert_eq!(layer.overlays[2].bounds, 0);
    assert_eq!(layer.overlays[2].role, TextOverlayRole::Translation);
    assert_eq!(translation_bounds(Some(7), 0), 7);
}

#[test]
fn ocr_block_under_pointer_is_the_last_with_text() {
    let blocks = vec![block("first", None), block("second", None), block("  ", None)];
    assert_eq!(ocr_block_at(&blocks, &[true, true, true]), Some(1));
    assert_eq!(ocr_block_at(&blocks, &[true, false, true]), Some(0));
    assert_eq!(ocr_block_at(&blocks, &[false, false, true]), None);
    assert_eq!(ocr_block_at(&blocks, &[true]), Some(0));
    assert_eq!(ocr_block_at(&[], &[true]), None);
}

#[test]
fn pin_canvas_gestures() {
    let step = |secondary: bool, shown: bool, action: Option<PinToolbarAction>, double: bool,
                click: bool, drag: bool, toolbar: bool, block: Option<usize>| {
        pin_canvas_step(secondary, shown, true, action, double, click, drag, true, toolbar, block)
    };
    assert_eq!(step(true, true, None, false, false, false, false, None), Some(PinCanvasStep::HideToolbar));
    assert_eq!(step(true, false, None, false, false, false, false, None), Some(PinCanvasStep::ShowToolbar));
    assert_eq!(
        pin_canvas_step(true, false, false, None, false, false, false, true, false, None),
        None
    );
    assert_eq!(
        step(false, true, Some(PinToolbarAction::RunOcr), true, true, false, true, None),
        Some(PinCanvasStep::ToolbarAction(PinToolbarAction::RunOcr))
    );
    assert_eq!(step(false, false, None, true, true, false, false, None), Some(PinCanvasStep::Close));
    assert_eq!(step(false, false, None, true, true, false, false, Some(2)), Some(PinCanvasStep::SelectBlock(2)));
    assert_eq!(
        step(false, false, None, false, true, false, false, None),
        Some(PinCanvasStep::Pointer { clear_selection: true, start_drag: false })
    );
    assert_eq!(
        step(false, true, None, false, true, true, true, None),
        Some(PinCanvasStep::Pointer { clear_selection: false, start_drag: false })
    );
    assert_eq!(
        step(false, false, None, false, false, true, false, Some(0)),
        Some(PinCanvasStep::Pointer { clear_selection: false, start_drag: false })
    );
    assert_eq!(
        step(false, false, None, false, false, true, false, None),
        Some(PinCanvasStep::Pointer { clear_selection: false, start_drag: true })
    );
}

#[test]
fn block_replacement_mode() {
    assert!(PinTranslationSegmentationMode::BlockReplace.uses_block_replacement());
    assert!(!PinTranslationSegmentationMode::FullRegion.uses_block_replacement());
    assert!(!PinTranslationSegmentationMode::SmartMerge.uses_block_replacement());
}

#[test]
fn translation_units_follow_the_mode() {
    let blocks = vec![block("Hello", Some("en")), block(" ", None), block("world", None)];
    let by_block = translatable_blocks_for_result(PinTranslationSegmentationMode::BlockReplace, &blocks, &[]);
    assert_eq!(by_block.iter().map(|u| u.index).collect::<Vec<_>>(), vec![0, 2]);
    let whole = translatable_blocks_for_result(PinTranslationSegmentationMode::FullRegion, &blocks, &[]);
    assert_eq!(whole.len(), 1);
    assert_eq!(whole[0].block_indices, vec![0, 2]);
    let merged = translatable_blocks_for_result(
        PinTranslationSegmentationMode::SmartMerge,
        &blocks,
        &[vec![2], vec![0]],
    );
    assert_eq!(merged.len(), 2);
    assert_eq!(merged[0].text, "world");
    assert_eq!(merged[1].index, 1);
    assert_eq!(merged[1].source_language.as_deref(), Some("en"));
}

#[test]
fn label_qualifies_on_given_letter_flags() {
    let label: Vec<char> = "Name".chars().collect();
    assert!(inline_label_qualifies(&label, &[true, true, true, true], 32));
    assert!(inline_label_qualifies(&label, &[false, false, false, true], 32));
    assert!(!inline_label_qualifies(&label, &[false, false, false, false], 32));
    assert!(!inline_label_qualifies(&label, &[true, true, true, true], 3));
    let stop: Vec<char> = "Mr. X".chars().collect();
    assert!(!inline_label_qualifies(&stop, &[true; 5], 32));
    let six: Vec<char> = "a b c d e f".chars().collect();
    assert!(!inline_label_qualifies(&six, &[true; 11], 32));
    assert!(!inline_label_qualifies(&[], &[], 32));
}

#[test]
fn selection_drag_spans_anchor_to_pointer() {
    let mut drag = SelectionDrag::new((3, 4));
    assert_eq!(drag.rect(), ((3, 4), (3, 4)));
    drag.update((9, 1));
    assert_eq!(drag.rect(), ((3, 4), (9, 1)));
    let mut app: OverlayApp<(i32, i32)> = OverlayApp::new();
    app.handle_input(OverlayInput::PointerDown((3, 4)));
    assert_eq!(app.drag, Some(SelectionDrag { anchor: (3, 4), current: (3, 4) }));
    app.handle_input(OverlayInput::PointerMove((9, 1)));
    assert_eq!(app.drag, Some(drag));
}
