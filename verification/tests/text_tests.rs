use snap_pin::chars::str_is;
use snap_pin::cli::{classify_flag, flag_string, parse_color, CliArgs, OverlayFlag, Rgb};
use snap_pin::hotkey::{
    capture_shortcut, color_copy_requested, events_have_command_shortcut, events_press_hotkey, events_press_key,
    events_request_copy, function_key, hotkey_modifiers_match, parse_overlay_hotkey,
    parse_overlay_key, pin_shortcuts, CaptureShortcut, InputEvent, KeyEvent, Modifiers,
    OverlayHotkey, OverlayKey, PinShortcuts,
};
use snap_pin::logging::{
    capture_file_name, configured_level, level_enabled, log_line, log_timestamp, snapshot_mapping_name,
    LogLevel,
};
use snap_pin::providers::{capture_action_from_name, completion_action_name, CaptureAction, CaptureCompletionAction};
use snap_pin::ocr_text::{
    append_ocr_fragment, empty_to_none, ends_sentence, is_compact_ocr_text_character,
    optional_empty_to_none, pin_image_id_from_stem, safe_model_id, should_insert_space,
    text_overlay_display_text,
};
use snap_pin::pixels::{
    bgra_to_rgba, bgra_to_rgba_in_place, check_shared_snapshot, shared_snapshot_pixels, frame_to_rgba, image_format_name, shareable_frame_format,
    snapshot_bytes_to_rgba, snapshot_dimensions_valid, snapshot_format, ImageFormat,
};
use snap_pin::text::{decimal_string, parse_unsigned_chars, trim_string};

fn no_mods() -> Modifiers {
    Modifiers { ctrl: false, shift: false, alt: false, command: false }
}

#[test]
fn trimming_and_numbers() {
    assert_eq!(trim_string("\u{3000} a b \n"), "a b");
    assert_eq!(decimal_string(0), "0");
    assert_eq!(decimal_string(47232), "47232");
    let digits: Vec<char> = "+65535".chars().collect();
    assert_eq!(parse_unsigned_chars(&digits, 65535), Some(65535));
    let too_big: Vec<char> = "65536".chars().collect();
    assert_eq!(parse_unsigned_chars(&too_big, 65535), None);
    let bad: Vec<char> = "12a".chars().collect();
    assert_eq!(parse_unsigned_chars(&bad, 65535), None);
    assert!(str_is("ping", "ping"));
    assert!(!str_is("ping", "pong"));
}

#[test]
fn ocr_display_text_closes_gaps_between_cjk_characters() {
    assert_eq!(text_overlay_display_text("  \u{4f60} \u{597d}  "), "\u{4f60}\u{597d}");
    assert_eq!(text_overlay_display_text("Hello  world"), "Hello  world");
    assert_eq!(text_overlay_display_text("\u{4f60} ok"), "\u{4f60} ok");
    assert_eq!(text_overlay_display_text("   "), "");
    assert!(is_compact_ocr_text_character('\u{3042}'));
    assert!(!is_compact_ocr_text_character('a'));
}

#[test]
fn ocr_fragments_are_joined() {
    let mut text = String::new();
    append_ocr_fragment(&mut text, "exam-");
    append_ocr_fragment(&mut text, "ple");
    assert_eq!(text, "example");
    append_ocr_fragment(&mut text, "text");
    assert_eq!(text, "example text");
    append_ocr_fragment(&mut text, "");
    append_ocr_fragment(&mut text, "\u{3002}");
    assert_eq!(text, "example text\u{3002}");
    assert!(should_insert_space("a)", "[b"));
    assert!(!should_insert_space("a,", "b"));
    assert!(ends_sentence("Done!  "));
    assert!(ends_sentence("\u{5b8c}\u{6210}\u{3002}"));
    assert!(!ends_sentence("no end"));
}

#[test]
fn blank_texts_become_none() {
    assert_eq!(empty_to_none("  x ".to_owned()).as_deref(), Some("x"));
    assert_eq!(empty_to_none(" ".to_owned()), None);
    assert_eq!(optional_empty_to_none(Some("\t".to_owned())), None);
    assert_eq!(optional_empty_to_none(None), None);
    assert_eq!(safe_model_id("ppocr v4/zh.det"), "ppocr_v4_zh.det");
    assert_eq!(pin_image_id_from_stem(Some("a.b c")), "a_b_c");
    assert_eq!(pin_image_id_from_stem(None), "image");
}

#[test]
fn overlay_flags_and_colors() {
    for flag in [OverlayFlag::Capture, OverlayFlag::ControlPort, OverlayFlag::OcrModelsRegistry] {
        let text: Vec<char> = flag_string(flag).chars().collect();
        assert_eq!(classify_flag(&text), Some(flag));
    }
    let unknown: Vec<char> = "--nope".chars().collect();
    assert_eq!(classify_flag(&unknown), None);
    assert_eq!(parse_color(" #2F8AA3 "), Some(Rgb { r: 47, g: 138, b: 163 }));
    assert_eq!(parse_color("##ff0000"), Some(Rgb { r: 255, g: 0, b: 0 }));
    assert_eq!(parse_color("fff"), None);
    assert_eq!(parse_color("gg0000"), None);
}

#[test]
fn overlay_command_line_values() {
    let args: Vec<String> = [
        "--pin",
        "--control-port",
        "8080",
        "--show-toolbar",
        "maybe",
        "--border-color",
        "zzz",
        "stray",
        "--ocr-language-hint",
        "",
        "--language",
    ]
    .iter()
    .map(|s| s.to_string())
    .collect();
    let parsed = CliArgs::parse(&args);
    assert_eq!(parsed.control_port, 8080);
    assert!(parsed.show_toolbar);
    assert_eq!(parsed.border_color, Rgb { r: 47, g: 138, b: 163 });
    assert_eq!(parsed.ocr_language_hint, None);
    assert_eq!(parsed.pin_hotkey, "Ctrl+Shift+X");
    let defaults = CliArgs::defaults();
    assert_eq!(defaults.control_port, 47232);
    assert_eq!(defaults.completion_action, "pin");
}

#[test]
fn hotkeys_are_parsed() {
    let hotkey = parse_overlay_hotkey("Ctrl+Shift+X").expect("valid accelerator");
    assert_eq!(
        hotkey,
        OverlayHotkey { ctrl: true, shift: true, alt: false, command: false, key: OverlayKey::Letter('X') }
    );
    let hotkey = parse_overlay_hotkey(" cmd - alt - f12 ").expect("valid accelerator");
    assert!(hotkey.command && hotkey.alt && !hotkey.ctrl);
    assert_eq!(hotkey.key, OverlayKey::Function(12));
    assert_eq!(parse_overlay_hotkey("Ctrl+Shift"), None);
    assert_eq!(parse_overlay_hotkey("Ctrl+Hyper+X"), None);
    assert_eq!(parse_overlay_key("esc"), Some(OverlayKey::Escape));
    assert_eq!(parse_overlay_key("Return"), Some(OverlayKey::Enter));
    assert_eq!(parse_overlay_key("7"), Some(OverlayKey::Digit(7)));
    assert_eq!(parse_overlay_key("F25"), None);
    assert_eq!(function_key(24), Some(OverlayKey::Function(24)));
    assert_eq!(function_key(0), None);
}

#[test]
fn hotkey_presses_are_recognised() {
    let hotkey = parse_overlay_hotkey("Ctrl+Shift+X").expect("valid accelerator");
    let held = Modifiers { ctrl: true, shift: true, alt: false, command: false };
    assert!(hotkey_modifiers_match(&hotkey, &held));
    assert!(!hotkey_modifiers_match(&hotkey, &no_mods()));
    let press = KeyEvent {
        key: Some(OverlayKey::Letter('X')),
        physical_key: None,
        pressed: true,
        repeat: false,
        modifiers: held,
    };
    assert!(events_press_hotkey(&vec![InputEvent::Other, InputEvent::Key(press)], &hotkey, &no_mods()));
    let repeat = KeyEvent { repeat: true, ..press };
    assert!(!events_press_hotkey(&vec![InputEvent::Key(repeat)], &hotkey, &no_mods()));
    assert!(events_press_hotkey(&vec![InputEvent::Cut], &hotkey, &held));
    let copy = KeyEvent {
        key: Some(OverlayKey::Letter('C')),
        physical_key: None,
        pressed: true,
        repeat: false,
        modifiers: Modifiers { ctrl: true, shift: false, alt: false, command: false },
    };
    assert!(events_request_copy(&vec![InputEvent::Key(copy)], &no_mods()));
    assert!(events_request_copy(&vec![InputEvent::Copy], &no_mods()));
    assert!(!events_request_copy(&vec![InputEvent::Other], &no_mods()));
    assert!(!events_have_command_shortcut(&vec![InputEvent::Key(copy)], OverlayKey::Letter('C'), true, &no_mods()));
    let repeated_c = KeyEvent { repeat: true, modifiers: no_mods(), ..copy };
    let ctrl = Modifiers { ctrl: true, shift: false, alt: false, command: false };
    assert!(!events_request_copy(&vec![InputEvent::Key(repeated_c)], &no_mods()));
    assert!(events_request_copy(&vec![InputEvent::Key(repeated_c)], &ctrl));
    assert!(events_press_hotkey(&vec![InputEvent::Key(repeat)], &hotkey, &held));
}

fn press(key: OverlayKey, modifiers: Modifiers) -> InputEvent {
    InputEvent::Key(KeyEvent { key: Some(key), physical_key: None, pressed: true, repeat: false, modifiers })
}

#[test]
fn capture_shortcuts_take_the_first_that_applies() {
    let ctrl = Modifiers { ctrl: true, shift: false, alt: false, command: false };
    let ctrl_shift = Modifiers { ctrl: true, shift: true, alt: false, command: false };
    assert_eq!(
        capture_shortcut(&vec![press(OverlayKey::Enter, no_mods()), press(OverlayKey::Escape, no_mods())], "Ctrl+Shift+X", &no_mods()),
        Some(CaptureShortcut::Dismiss)
    );
    assert_eq!(
        capture_shortcut(&vec![press(OverlayKey::Letter('X'), ctrl_shift)], "Ctrl+Shift+X", &ctrl_shift),
        Some(CaptureShortcut::Pin)
    );
    assert_eq!(
        capture_shortcut(&vec![press(OverlayKey::Letter('X'), ctrl_shift)], "not a hotkey", &ctrl_shift),
        None
    );
    assert_eq!(capture_shortcut(&vec![InputEvent::Copy], "Ctrl+Shift+X", &no_mods()), Some(CaptureShortcut::Copy));
    assert_eq!(
        capture_shortcut(&vec![press(OverlayKey::Letter('S'), ctrl)], "Ctrl+Shift+X", &ctrl),
        Some(CaptureShortcut::Save)
    );
    assert_eq!(
        capture_shortcut(&vec![press(OverlayKey::Enter, no_mods())], "Ctrl+Shift+X", &no_mods()),
        Some(CaptureShortcut::FinishSelection)
    );
    assert_eq!(
        capture_shortcut(&vec![press(OverlayKey::Letter('P'), no_mods())], "Ctrl+Shift+X", &no_mods()),
        Some(CaptureShortcut::Pin)
    );
    assert_eq!(
        capture_shortcut(
            &vec![press(OverlayKey::Letter('P'), no_mods()), press(OverlayKey::Enter, no_mods())],
            "Ctrl+Shift+X",
            &no_mods()
        ),
        Some(CaptureShortcut::FinishSelection)
    );
    assert_eq!(
        capture_shortcut(&vec![press(OverlayKey::Letter('Q'), no_mods())], "Ctrl+Shift+X", &no_mods()),
        None
    );
    assert!(events_press_key(&vec![press(OverlayKey::Tab, no_mods())], OverlayKey::Tab));
}

#[test]
fn color_copy_needs_c_without_command_keys() {
    let shift = Modifiers { ctrl: false, shift: true, alt: false, command: false };
    let ctrl = Modifiers { ctrl: true, shift: false, alt: false, command: false };
    let alt = Modifiers { ctrl: false, shift: false, alt: true, command: false };
    assert!(color_copy_requested(&vec![press(OverlayKey::Letter('C'), no_mods())], &no_mods()));
    assert!(color_copy_requested(&vec![press(OverlayKey::Letter('C'), shift)], &shift));
    assert!(!color_copy_requested(&vec![press(OverlayKey::Letter('C'), ctrl)], &ctrl));
    assert!(!color_copy_requested(&vec![press(OverlayKey::Letter('C'), alt)], &alt));
    assert!(!color_copy_requested(&vec![press(OverlayKey::Letter('V'), no_mods())], &no_mods()));
}

#[test]
fn pin_shortcuts_copy_all_before_selection() {
    let ctrl_shift = Modifiers { ctrl: true, shift: true, alt: false, command: false };
    let s = pin_shortcuts(&vec![press(OverlayKey::Letter('C'), ctrl_shift)], &ctrl_shift);
    assert_eq!(s, PinShortcuts { close: false, copy_all_text: true, copy_selection: false });
    let ctrl = Modifiers { ctrl: true, shift: false, alt: false, command: false };
    let s = pin_shortcuts(&vec![press(OverlayKey::Letter('C'), ctrl), press(OverlayKey::Escape, ctrl)], &ctrl);
    assert_eq!(s, PinShortcuts { close: true, copy_all_text: false, copy_selection: true });
}

#[test]
fn pixel_conversion() {
    assert_eq!(bgra_to_rgba(&[1, 2, 3, 9, 10, 20, 30, 0]), vec![3, 2, 1, 255, 30, 20, 10, 255]);
    let mut bytes = vec![1, 2, 3, 4];
    bgra_to_rgba_in_place(&mut bytes);
    assert_eq!(bytes, vec![3, 2, 1, 255]);
    assert_eq!(frame_to_rgba(ImageFormat::Rgba8, &vec![1, 2, 3, 4]), Ok(vec![1, 2, 3, 4]));
    assert_eq!(
        frame_to_rgba(ImageFormat::Png, &vec![1]),
        Err("PNG screenshot frames cannot be shared as raw memory".to_owned())
    );
    assert_eq!(shareable_frame_format(ImageFormat::Bgra8), Ok(ImageFormat::Bgra8));
    assert_eq!(image_format_name(ImageFormat::Png), "png");
    assert!(snapshot_dimensions_valid(2, 3, 24));
    assert!(!snapshot_dimensions_valid(2, 3, 23));
    assert!(!snapshot_dimensions_valid(0, 3, 0));
    assert_eq!(snapshot_format("bgra8"), Some(ImageFormat::Bgra8));
    assert_eq!(snapshot_format("png"), None);
    assert_eq!(snapshot_bytes_to_rgba("bgra8", vec![1, 2, 3, 4]), Some(vec![3, 2, 1, 255]));
    assert_eq!(snapshot_bytes_to_rgba("rgba8", vec![1, 2, 3, 4]), Some(vec![1, 2, 3, 4]));
    assert_eq!(snapshot_bytes_to_rgba("yuv", vec![1, 2, 3, 4]), None);
}

#[test]
fn log_names_and_levels() {
    assert_eq!(log_timestamp(1700000000, 5), "1700000000.005");
    assert_eq!(capture_file_name(1234), "snap_pin_capture_1234.png");
    assert_eq!(snapshot_mapping_name(42, 99), "Local\\snap_pin_snapshot_42_99");
    assert_eq!(configured_level(Some("debug")), LogLevel::Debug);
    assert_eq!(configured_level(None), LogLevel::Info);
}

#[test]
fn log_lines_and_levels() {
    assert_eq!(
        log_line("1700000000.005", 42, LogLevel::Warn, "snap_pin", "hello"),
        "[1700000000.005 pid=42] WARN  snap_pin - hello"
    );
    assert!(level_enabled(LogLevel::Error, LogLevel::Info));
    assert!(level_enabled(LogLevel::Info, LogLevel::Info));
    assert!(!level_enabled(LogLevel::Debug, LogLevel::Info));
    assert!(!level_enabled(LogLevel::Error, LogLevel::Off));
}

#[test]
fn decimal_text_reads_back() {
    for n in [0u64, 7, 10, 47232, 65535] {
        let text: Vec<char> = decimal_string(n as u128).chars().collect();
        assert_eq!(parse_unsigned_chars(&text, 65535), Some(n));
    }
}

#[test]
fn completion_names_select_overlay_actions() {
    let pairs = [
        (CaptureCompletionAction::Pin, CaptureAction::Pin),
        (CaptureCompletionAction::CopyToClipboard, CaptureAction::Copy),
        (CaptureCompletionAction::SaveToFile, CaptureAction::Save),
        (CaptureCompletionAction::OpenEditor, CaptureAction::Editor),
    ];
    for (completion, action) in pairs {
        assert_eq!(capture_action_from_name(&completion_action_name(&completion)), action);
    }
}

#[test]
fn small_bounds_on_numbers() {
    let three: Vec<char> = "3".chars().collect();
    let seven: Vec<char> = "7".chars().collect();
    let twelve: Vec<char> = "12".chars().collect();
    assert_eq!(parse_unsigned_chars(&three, 5), Some(3));
    assert_eq!(parse_unsigned_chars(&seven, 5), None);
    assert_eq!(parse_unsigned_chars(&twelve, 9), None);
    assert_eq!(parse_unsigned_chars(&three, 0), None);
    let zero: Vec<char> = "0".chars().collect();
    assert_eq!(parse_unsigned_chars(&zero, 0), Some(0));
}

#[test]
fn shared_snapshot_loading_errors() {
    assert!(check_shared_snapshot(2, 3, 24, "Failed to load screenshot").is_ok());
    assert_eq!(
        check_shared_snapshot(0, 3, 0, "Failed to load screenshot").unwrap_err(),
        "Failed to load screenshot: invalid shared snapshot dimensions"
    );
    assert_eq!(
        check_shared_snapshot(2, 3, 23, "Failed").unwrap_err(),
        "Failed: invalid shared snapshot dimensions"
    );
    assert_eq!(
        shared_snapshot_pixels("bgra8", Ok(vec![1, 2, 3, 4]), "Failed").unwrap(),
        vec![3, 2, 1, 255]
    );
    assert_eq!(shared_snapshot_pixels("rgba", Ok(vec![1, 2, 3, 4]), "Failed").unwrap(), vec![1, 2, 3, 4]);
    assert_eq!(
        shared_snapshot_pixels("png", Ok(vec![1, 2, 3, 4]), "Failed").unwrap_err(),
        "Failed: invalid RGBA buffer"
    );
    assert_eq!(
        shared_snapshot_pixels("rgba", Err("mapping not found".to_owned()), "Failed").unwrap_err(),
        "Failed: mapping not found"
    );
}
