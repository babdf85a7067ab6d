use snap_pin::capture_flow::{
    capture_backend_names, capture_with_preferred_backend, finish_capture_action,
    job_model_after_selection, pin_current_selection, pin_ocr_plan,
    run_capture_action, selection_drag_mode,
    initial_status, BackendStep, CaptureDragMode, CaptureUiState, CaptureOutcome, CaptureSelection, CaptureStatus, CaptureStep,
    ResizeEdges,
};
use snap_pin::cli::{CliArgs, FloatArg, OverlayRunMode, Rgb};
use snap_pin::launcher::{
    HotkeySlot,
    ensure_overlay_resident, launch_capture_overlay, register_capture_hotkey,
    resident_overlay_args, wait_for_overlay_server, LaunchAction, LaunchPhase, LaunchStep,
    OverlayProcess, ResidentFloatTexts, ResidentPlan, WaitAction, WaitEvent,
};
use snap_pin::pin_launch::{pin_window_args, PinWindowLaunch};
use snap_pin::providers::{
    CaptureAction, ColorValueFormat, CaptureCompletionAction, OcrExternalProvider, OcrLocalBackend, OcrProvider,
    OcrRunMode, OverlayLanguage, TranslateLocalBackend, TranslateProvider,
};
use snap_pin::settings::{
    CaptureSettings, HistorySettings, HotkeySettings, InterfaceSettings, OcrSettings,
    OverlaySettings, PinSettings, Settings, TranslateSettings,
};

fn sample_settings() -> Settings {
    Settings {
        interface: InterfaceSettings { language: "en".to_owned() },
        capture: CaptureSettings {
            include_cursor: false,
            auto_copy_to_clipboard: true,
            freeze_screen_on_capture: true,
            show_size_label: false,
            show_toolbar: true,
            capture_delay_ms: 0,
            border_color: "#ff8000".to_owned(),
            completion_action: CaptureCompletionAction::CopyToClipboard,
        },
        overlay: OverlaySettings { show_magnifier: true, click_through_pins: false },
        pin: PinSettings {
            click_through: false,
            always_on_top: false,
            remember_position: true,
            show_ocr_text: true,
            show_translation_text: true,
        },
        ocr: OcrSettings {
            mode: OcrRunMode::Standard,
            provider: OcrProvider::Local(OcrLocalBackend::OnnxRuntime),
            language_hint: Some("ja".to_owned()),
            auto_run_after_capture: false,
            default_model_id: None,
            provider_profiles: Vec::new(),
            default_provider_profile_id: None,
        },
        translate: TranslateSettings {
            provider: TranslateProvider::Local(TranslateLocalBackend::CTranslate2),
            target_language: "zh-CN".to_owned(),
            auto_translate_after_ocr: false,
            default_model_id: None,
        },
        hotkeys: HotkeySettings {
            capture: "Ctrl+Shift+A".to_owned(),
            pin_selection: "Ctrl+Shift+P".to_owned(),
            toggle_pins_click_through: "Ctrl+Shift+T".to_owned(),
            show_history: "Ctrl+Shift+H".to_owned(),
        },
        history: HistorySettings { enabled: true, max_entries: 100 },
    }
}

fn float_texts() -> ResidentFloatTexts {
    ResidentFloatTexts {
        mask_opacity: "0.46".to_owned(),
        magnifier_scale: "2".to_owned(),
        pin_opacity: "1".to_owned(),
        pin_zoom_step: "0.1".to_owned(),
    }
}

#[test]
fn resident_args_follow_the_settings() {
    let args = resident_overlay_args(&sample_settings(), &float_texts(), Some("C:/models.json"));
    let expected: Vec<&str> = vec![
        "--capture",
        "--resident",
        "--control-port",
        "47232",
        "--language",
        "en",
        "--mask-opacity",
        "0.46",
        "--border-color",
        "#ff8000",
        "--show-size-label",
        "false",
        "--show-toolbar",
        "true",
        "--show-magnifier",
        "true",
        "--magnifier-scale",
        "2",
        "--pin-hotkey",
        "Ctrl+Shift+P",
        "--completion-action",
        "copy",
        "--pin-opacity",
        "1",
        "--pin-zoom-step",
        "0.1",
        "--pin-always-on-top",
        "false",
        "--ocr-provider",
        "local-onnx",
        "--ocr-language-hint",
        "ja",
        "--ocr-default-model-id",
        "",
        "--ocr-models-registry",
        "C:/models.json",
    ];
    assert_eq!(args, expected);
}

#[test]
fn resident_overlay_reads_back_its_arguments() {
    let args = resident_overlay_args(&sample_settings(), &float_texts(), None);
    let parsed = CliArgs::parse(&args);
    assert_eq!(parsed.mode, OverlayRunMode::Capture);
    assert!(parsed.resident);
    assert_eq!(parsed.control_port, 47232);
    assert_eq!(parsed.language, OverlayLanguage::En);
    assert_eq!(parsed.border_color, Rgb { r: 255, g: 128, b: 0 });
    assert!(!parsed.show_size_label);
    assert!(parsed.show_toolbar);
    assert!(parsed.show_magnifier);
    assert_eq!(parsed.pin_hotkey, "Ctrl+Shift+P");
    assert_eq!(parsed.completion_action, "copy");
    assert!(!parsed.pin_always_on_top);
    assert_eq!(parsed.ocr_provider, "local-onnx");
    assert_eq!(parsed.ocr_language_hint.as_deref(), Some("ja"));
    assert_eq!(parsed.ocr_default_model_id, None);
    assert_eq!(parsed.ocr_models_registry, None);
    let floats: Vec<(FloatArg, &str)> =
        parsed.float_values.iter().map(|f| (f.arg, f.text.as_str())).collect();
    assert_eq!(
        floats,
        vec![
            (FloatArg::MaskOpacity, "0.46"),
            (FloatArg::MagnifierScale, "2"),
            (FloatArg::PinOpacity, "1"),
            (FloatArg::PinZoomStep, "0.1"),
        ]
    );
}

fn sample_pin_launch() -> PinWindowLaunch {
    PinWindowLaunch {
        image_path: "C:/pins/a.png".to_owned(),
        x: "10".to_owned(),
        y: "20".to_owned(),
        width: "300".to_owned(),
        height: "200".to_owned(),
        opacity: "0.8".to_owned(),
        zoom_step: "0.1".to_owned(),
        min_width: "96".to_owned(),
        min_height: "72".to_owned(),
        always_on_top: true,
        ocr_provider: "local-mnn".to_owned(),
        ocr_language_hint: None,
        ocr_default_model_id: Some("ppocr".to_owned()),
        ocr_models_registry: None,
        translate_provider: "api-deepl".to_owned(),
        translate_target_language: "en".to_owned(),
        translate_segmentation_mode: "smart-merge".to_owned(),
        translate_default_model_id: None,
        ocr_text_font_height_ratio: "0.46".to_owned(),
        ocr_text_min_font_size: "6".to_owned(),
        ocr_text_max_font_size: "42".to_owned(),
        ocr_text_padding_x: "2".to_owned(),
        ocr_text_padding_y: "1".to_owned(),
        ocr_text_interaction_padding_x: "2".to_owned(),
        ocr_text_interaction_padding_y: "4".to_owned(),
    }
}

#[test]
fn pin_window_args_list_every_option() {
    let args = pin_window_args(&sample_pin_launch());
    assert_eq!(args.len(), 51);
    assert_eq!(args[0], "--pin");
    assert_eq!(args[1], "--image");
    assert_eq!(args[2], "C:/pins/a.png");
    assert_eq!(args[19], "--pin-always-on-top");
    assert_eq!(args[20], "true");
    assert_eq!(args[24], "");
    assert_eq!(args[26], "ppocr");
    assert_eq!(args[29], "--translate-provider");
    assert_eq!(args[30], "api-deepl");
    assert_eq!(args[36], "");
    assert_eq!(args[50], "4");
}

#[test]
fn pin_window_reads_back_its_arguments() {
    let parsed = CliArgs::parse(&pin_window_args(&sample_pin_launch()));
    assert_eq!(parsed.mode, OverlayRunMode::Pin);
    assert_eq!(parsed.image.as_deref(), Some("C:/pins/a.png"));
    assert!(parsed.pin_always_on_top);
    assert_eq!(parsed.ocr_provider, "local-mnn");
    assert_eq!(parsed.ocr_language_hint, None);
    assert_eq!(parsed.ocr_default_model_id.as_deref(), Some("ppocr"));
    assert_eq!(parsed.language, OverlayLanguage::ZhCn);
    assert!(!parsed.resident);
    assert_eq!(parsed.float_values.len(), 15);
    assert_eq!(parsed.float_values[0].arg, FloatArg::X);
    assert_eq!(parsed.float_values[0].text, "10");
    assert_eq!(parsed.float_values[14].arg, FloatArg::OcrTextInteractionPaddingY);
    assert_eq!(parsed.float_values[14].text, "4");
}

#[test]
fn resident_overlay_plan() {
    assert!(matches!(ensure_overlay_resident(true, OverlayProcess::Running), ResidentPlan::AlreadyReady));
    assert!(matches!(
        ensure_overlay_resident(false, OverlayProcess::Running),
        ResidentPlan::Start { stop_previous: true }
    ));
    assert!(matches!(
        ensure_overlay_resident(false, OverlayProcess::Exited),
        ResidentPlan::Start { stop_previous: false }
    ));
    assert!(matches!(
        ensure_overlay_resident(false, OverlayProcess::NotStarted),
        ResidentPlan::Start { stop_previous: false }
    ));
    match ensure_overlay_resident(false, OverlayProcess::ProbeFailed("access denied".to_owned())) {
        ResidentPlan::Fail(e) => assert_eq!(e, "access denied"),
        other => panic!("unexpected plan {other:?}"),
    }
}

#[test]
fn waiting_for_the_overlay() {
    assert!(matches!(wait_for_overlay_server(WaitEvent::Tick(0), 15000, true), WaitAction::PingServer));
    match wait_for_overlay_server(WaitEvent::Tick(15000), 15000, true) {
        WaitAction::Finish(Err(e)) => {
            assert_eq!(e, "resident screenshot overlay did not become ready within 15000 ms")
        }
        other => panic!("unexpected action {other:?}"),
    }
    assert!(matches!(
        wait_for_overlay_server(WaitEvent::ServerAnswered(true), 15000, true),
        WaitAction::Finish(Ok(()))
    ));
    assert!(matches!(
        wait_for_overlay_server(WaitEvent::ServerAnswered(false), 15000, true),
        WaitAction::CheckProcess
    ));
    assert!(matches!(
        wait_for_overlay_server(WaitEvent::ServerAnswered(false), 15000, false),
        WaitAction::Sleep(30)
    ));
    assert!(matches!(
        wait_for_overlay_server(WaitEvent::ProcessRunning, 15000, true),
        WaitAction::Sleep(30)
    ));
    match wait_for_overlay_server(WaitEvent::ProcessExited("exit code: 1".to_owned()), 15000, true) {
        WaitAction::Finish(Err(e)) => assert_eq!(
            e,
            "resident screenshot overlay exited before becoming ready: exit code: 1"
        ),
        other => panic!("unexpected action {other:?}"),
    }
    match wait_for_overlay_server(WaitEvent::ProcessProbeFailed("gone".to_owned()), 15000, true) {
        WaitAction::Finish(Err(e)) => assert_eq!(e, "gone"),
        other => panic!("unexpected action {other:?}"),
    }
}

#[test]
fn capture_launch_retries_once_then_reports_both_errors() {
    let step = launch_capture_overlay(LaunchPhase::Start, Ok(()), 0);
    let LaunchStep::Continue(phase, LaunchAction::EnsureResident) = step else {
        panic!("launch should first make sure of the overlay");
    };
    let step = launch_capture_overlay(phase, Ok(()), 0);
    let LaunchStep::Continue(phase, LaunchAction::CaptureSnapshot) = step else {
        panic!("without delay the snapshot comes next");
    };
    let step = launch_capture_overlay(phase, Ok(()), 0);
    let LaunchStep::Continue(phase, LaunchAction::SendCommand) = step else {
        panic!("the command is sent after the snapshot");
    };
    let step = launch_capture_overlay(phase, Err("connection refused".to_owned()), 0);
    let LaunchStep::Continue(phase, LaunchAction::RestartResident) = step else {
        panic!("a failed send restarts the overlay");
    };
    let step = launch_capture_overlay(phase, Ok(()), 0);
    let LaunchStep::Continue(phase, LaunchAction::SendCommand) = step else {
        panic!("the command is sent again");
    };
    match launch_capture_overlay(phase, Err("timed out".to_owned()), 0) {
        LaunchStep::Finish(Err(e)) => assert_eq!(e, "connection refused; retry failed: timed out"),
        other => panic!("unexpected step {other:?}"),
    }
}

#[test]
fn capture_launch_waits_the_configured_delay() {
    let step = launch_capture_overlay(LaunchPhase::EnsuringResident, Ok(()), 250);
    assert!(matches!(step, LaunchStep::Continue(LaunchPhase::Delaying, LaunchAction::Sleep(250))));
    let step = launch_capture_overlay(LaunchPhase::Delaying, Ok(()), 250);
    assert!(matches!(step, LaunchStep::Continue(LaunchPhase::Snapshotting, LaunchAction::CaptureSnapshot)));
    let step = launch_capture_overlay(LaunchPhase::Sending, Ok(()), 250);
    assert!(matches!(step, LaunchStep::Finish(Ok(()))));
    match launch_capture_overlay(LaunchPhase::Snapshotting, Err("no screen".to_owned()), 0) {
        LaunchStep::Finish(Err(e)) => assert_eq!(e, "no screen"),
        other => panic!("unexpected step {other:?}"),
    }
}

#[test]
fn capture_command_carries_the_overlay_defaults_for_translation() {
    let command = snap_pin::control::capture_command_from_settings(&sample_settings(), None);
    assert_eq!(command.kind, "capture");
    assert_eq!(command.completion_action, "copy");
    assert_eq!(command.ocr_provider, "local-onnx");
    assert_eq!(command.translate_provider, "local-ct2");
    assert_eq!(command.translate_target_language, "zh-CN");
    assert_eq!(command.translate_segmentation_mode, "smart-merge");
    assert_eq!(command.smart_merge_inline_label_max_chars, 32);
    let session = snap_pin::control::CaptureSession::from_command(command).expect("capture");
    assert_eq!(session.completion_action, CaptureAction::Copy);
    assert_eq!(session.border_color, Some(Rgb { r: 255, g: 128, b: 0 }));
    assert_eq!(session.ocr_language_hint.as_deref(), Some("ja"));
}

#[test]
fn capture_hotkey_registration() {
    let registration = register_capture_hotkey(&sample_settings());
    assert_eq!(registration.id, "capture");
    assert_eq!(registration.accelerator, "Ctrl+Shift+A");
}

#[test]
fn capture_actions_start_only_on_a_usable_selection() {
    assert_eq!(
        run_capture_action(CaptureStatus::Idle, true, true, CaptureAction::Pin),
        (CaptureStatus::Idle, CaptureStep::Ignore)
    );
    assert_eq!(
        run_capture_action(CaptureStatus::Capturing, true, true, CaptureAction::Pin),
        (CaptureStatus::Capturing, CaptureStep::Ignore)
    );
    assert_eq!(
        run_capture_action(CaptureStatus::Selecting, false, true, CaptureAction::Pin),
        (CaptureStatus::Selecting, CaptureStep::Ignore)
    );
    assert_eq!(
        run_capture_action(CaptureStatus::Selecting, true, false, CaptureAction::Copy),
        (CaptureStatus::Selecting, CaptureStep::Ignore)
    );
    assert_eq!(
        run_capture_action(CaptureStatus::Selecting, true, true, CaptureAction::Save),
        (CaptureStatus::Capturing, CaptureStep::DeferSave)
    );
    assert_eq!(
        run_capture_action(CaptureStatus::Selecting, true, true, CaptureAction::Copy),
        (CaptureStatus::Capturing, CaptureStep::CopySelection)
    );
    assert_eq!(
        run_capture_action(CaptureStatus::Selecting, true, true, CaptureAction::Editor),
        (CaptureStatus::Capturing, CaptureStep::PinSelection)
    );
}

#[test]
fn capture_action_outcomes() {
    assert!(matches!(finish_capture_action(Ok(())), CaptureOutcome::Dismiss));
    assert!(matches!(
        finish_capture_action(Err("save_canceled".to_owned())),
        CaptureOutcome::Reselect(None)
    ));
    match finish_capture_action(Err("disk full".to_owned())) {
        CaptureOutcome::Reselect(Some(e)) => assert_eq!(e, "disk full"),
        other => panic!("unexpected outcome {other:?}"),
    }
}

#[test]
fn capture_backends_are_tried_in_order() {
    assert_eq!(capture_backend_names(), vec!["wgc", "dxgi", "gdi"]);
    assert!(matches!(capture_with_preferred_backend(0, None, 3), BackendStep::Try(0)));
    assert!(matches!(
        capture_with_preferred_backend(1, Some(Err("not_implemented".to_owned())), 3),
        BackendStep::Try(1)
    ));
    assert!(matches!(capture_with_preferred_backend(2, Some(Ok(())), 3), BackendStep::Done(Ok(1))));
    match capture_with_preferred_backend(3, Some(Err("gdi failed".to_owned())), 3) {
        BackendStep::Done(Err(e)) => assert_eq!(e, "gdi failed"),
        other => panic!("unexpected step {other:?}"),
    }
    match capture_with_preferred_backend(0, None, 0) {
        BackendStep::Done(Err(e)) => assert_eq!(e, "no screenshot backend is available"),
        other => panic!("unexpected step {other:?}"),
    }
}

#[test]
fn pin_ocr_plan_names_the_job_after_the_image() {
    let plan = pin_ocr_plan(Some("shot 01"), &OcrProvider::System);
    assert_eq!(plan.image_id, "pin-shot_01");
    assert_eq!(plan.job_id, "pin-ocr-shot_01");
    assert!(plan.use_system_ocr);
    assert!(!plan.load_local_model);
    let plan = pin_ocr_plan(None, &OcrProvider::Local(OcrLocalBackend::Mnn));
    assert_eq!(plan.image_id, "pin-image");
    assert!(!plan.use_system_ocr);
    assert!(plan.load_local_model);
    let plan = pin_ocr_plan(Some(""), &OcrProvider::ExternalApi(OcrExternalProvider::OpenAi));
    assert_eq!(plan.job_id, "pin-ocr-image");
    assert!(!plan.load_local_model);
}

#[test]
fn job_model_keeps_the_named_one() {
    assert_eq!(
        job_model_after_selection(Some("a".to_owned()), Some("b".to_owned())).as_deref(),
        Some("a")
    );
    assert_eq!(job_model_after_selection(None, Some("b".to_owned())).as_deref(), Some("b"));
    assert_eq!(job_model_after_selection(None, None), None);
}

#[test]
fn drag_modes_by_position() {
    assert_eq!(
        selection_drag_mode(true, false, false, true, true),
        CaptureDragMode::Resize(ResizeEdges { left: true, right: false, top: false, bottom: true })
    );
    assert_eq!(selection_drag_mode(false, false, false, false, true), CaptureDragMode::Move);
    assert_eq!(selection_drag_mode(false, false, false, false, false), CaptureDragMode::Create);
}

#[test]
fn pointer_shapes_the_selection() {
    type Rect = (i32, i32, i32, i32);
    let mut s: CaptureSelection<Rect, (i32, i32)> = CaptureSelection::new();
    s.hover(Some((0, 0, 100, 50)));
    assert_eq!(s.hovered_region, Some((0, 0, 100, 50)));
    assert_eq!(s.press((5, 5), (5, 5, 5, 5), true, None, CaptureDragMode::Create), None);
    assert_eq!(s.selection, Some((5, 5, 5, 5)));
    s.release(true, None, false);
    assert_eq!(s.selection, Some((0, 0, 100, 50)));
    assert!(s.drag.is_none());
    s.hover(Some((1, 1, 2, 2)));
    assert_eq!(s.hovered_region, None);
    assert_eq!(
        s.press((50, 20), (50, 20, 50, 20), true, Some(CaptureAction::Save), CaptureDragMode::Move),
        Some(CaptureAction::Save)
    );
    assert!(s.drag.is_none());
    assert_eq!(s.press((50, 20), (50, 20, 50, 20), false, Some(CaptureAction::Save), CaptureDragMode::Move), None);
    assert_eq!(s.drag.map(|d| d.mode), Some(CaptureDragMode::Move));
    s.drag_to((1, 2, 3, 4));
    assert_eq!(s.selection, Some((1, 2, 3, 4)));
    s.release(false, None, false);
    assert_eq!(s.selection, None);
}

#[test]
fn pinning_the_current_selection() {
    assert_eq!(
        pin_current_selection(CaptureStatus::Idle, true, true).unwrap_err(),
        "capture_overlay_inactive"
    );
    assert_eq!(
        pin_current_selection(CaptureStatus::Capturing, true, true).unwrap_err(),
        "capture_overlay_inactive"
    );
    assert_eq!(
        pin_current_selection(CaptureStatus::Selecting, false, true).unwrap_err(),
        "capture_selection_missing"
    );
    assert_eq!(
        pin_current_selection(CaptureStatus::Selecting, true, false).unwrap_err(),
        "capture_selection_too_small"
    );
    assert_eq!(
        pin_current_selection(CaptureStatus::Selecting, true, true).unwrap(),
        (CaptureStatus::Capturing, CaptureStep::PinSelection)
    );
}

#[test]
fn capture_overlay_starts_and_resets() {
    assert_eq!(initial_status(true), (CaptureStatus::Idle, true));
    assert_eq!(initial_status(false), (CaptureStatus::Selecting, false));

    let resident: CaptureUiState<(i32, i32, i32, i32), (i32, i32)> =
        CaptureUiState::new(true, Some("ignored".to_owned()));
    assert_eq!(resident.status, CaptureStatus::Idle);
    assert_eq!(resident.last_error, None);

    let mut single: CaptureUiState<(i32, i32, i32, i32), (i32, i32)> =
        CaptureUiState::new(false, Some("no snapshot".to_owned()));
    assert_eq!(single.status, CaptureStatus::Selecting);
    assert_eq!(single.last_error.as_deref(), Some("no snapshot"));
    assert!(single.dismiss());
    assert_eq!(single.status, CaptureStatus::Selecting);

    let mut s = resident;
    s.selection.hover(Some((0, 0, 10, 10)));
    s.selection.press((1, 1), (1, 1, 1, 1), true, None, CaptureDragMode::Create);
    s.save_pending = true;
    s.shift_state(true);
    assert_eq!(s.color_format, ColorValueFormat::Rgb);
    s.shift_state(true);
    assert_eq!(s.color_format, ColorValueFormat::Rgb);
    s.begin_capture(Err("load failed".to_owned()));
    assert_eq!(s.status, CaptureStatus::Selecting);
    assert_eq!(s.selection.selection, None);
    assert!(s.selection.drag.is_none());
    assert_eq!(s.selection.hovered_region, None);
    assert!(!s.save_pending);
    assert_eq!(s.last_error.as_deref(), Some("load failed"));
    assert_eq!(s.color_format, ColorValueFormat::Rgb);
    s.begin_capture(Ok(()));
    assert_eq!(s.last_error, None);
    assert_eq!(s.color_format, ColorValueFormat::Hex);
    assert!(!s.shift_down_last_frame);
    s.record_error("unknown overlay command: paint".to_owned());
    assert_eq!(s.last_error.as_deref(), Some("unknown overlay command: paint"));
    assert!(!s.dismiss());
    assert_eq!(s.status, CaptureStatus::Idle);
    assert_eq!(s.last_error, None);
}

#[test]
fn invalid_snapshot_dimensions_restart_the_selection() {
    let mut s: CaptureUiState<(i32, i32, i32, i32), (i32, i32)> = CaptureUiState::new(true, None);
    s.save_pending = true;
    assert!(s.take_capture_command(4, 2, 32, "Failed to load screenshot"));
    assert_eq!(s.status, CaptureStatus::Idle);
    assert!(s.save_pending);
    assert!(!s.take_capture_command(4, 2, 31, "Failed to load screenshot"));
    assert_eq!(s.status, CaptureStatus::Selecting);
    assert!(!s.save_pending);
    assert_eq!(
        s.last_error.as_deref(),
        Some("Failed to load screenshot: invalid shared snapshot dimensions")
    );
}

#[test]
fn capture_hotkey_slot() {
    let settings = sample_settings();
    let mut slot: HotkeySlot<u32> = HotkeySlot::new();
    let registration = slot.begin_registration(&settings);
    assert_eq!(registration.id, "capture");
    assert_eq!(registration.accelerator, settings.hotkeys.capture);
    assert_eq!(slot.finish_registration(Ok(11)), Ok(()));
    assert_eq!(slot.listener, Some(11));
    slot.begin_registration(&settings);
    assert_eq!(slot.listener, None);
    assert_eq!(slot.finish_registration(Err("accelerator in use".to_owned())), Err("accelerator in use".to_owned()));
    assert_eq!(slot.listener, None);
}
