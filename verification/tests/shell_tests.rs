use snap_pin::control::{
    ack_status, ack_timeout_error, classify_control_request, contains_str, control_command_line,
    control_response, control_server_action, interpret_control_response, is_pong_response,
    pong_line, CaptureSession, ControlAction, ControlCommandKind, ControlRequest,
    OverlayCaptureCommand,
};
use snap_pin::launch::{
    candidate_directories, cargo_overlay_args, choose_overlay_launch, executable_name,
    find_workspace_root, is_workspace_debug_executable, launch_description, OverlayLaunchChoice,
    WorkspaceRoot,
};
use snap_pin::models::{
    app_status, configured_models_dir, current_models_dir, migrated_models, model_dir_names,
    stored_model_positions, has_ready_local_ocr_model, model_source_status,
    model_storage_info, model_summary, models_summary_text, mvp_run_response, plan_model_migration,
    plan_storage_change, should_disable_local_auto_ocr, storage_change_error, storage_info,
    CaptureResponse, MigrationStep, ModelDomain, ModelRecord, ModelSource, StorageChange,
};
use snap_pin::providers::{CaptureAction, OcrLocalBackend, OcrProvider, OverlayLanguage};
use snap_pin::runtime::{
    check_download_can_start, ensure_no_model_download_running, DesktopIpcBridge,
    ModelDownloadProgress, ModelDownloadRuntime, RecentMappings,
};
use snap_pin::shell::{
    command_name, event_name, install, labels, refresh, tray_event, tray_language,
    AnnotationTool, CoreCommandKind, CoreEventKind, RenderSurfaceKind, RendererPlan, TrayAction,
    TrayEvent, TrayMenuModel,
};

#[test]
fn renderer_and_tray_model() {
    let plan = RendererPlan::overlay();
    assert_eq!(plan.surface, RenderSurfaceKind::TransparentOverlay);
    assert!(plan.uses_gpu && plan.supports_text_overlays);
    let menu = TrayMenuModel::new();
    assert_eq!(
        menu.actions,
        vec![
            TrayAction::Capture,
            TrayAction::ToggleHotkeys,
            TrayAction::OpenSettings,
            TrayAction::OpenHistory,
            TrayAction::Quit,
        ]
    );
    assert_ne!(AnnotationTool::Arrow, AnnotationTool::Mosaic);
}

#[test]
fn tray_texts_by_language() {
    let en = labels("en");
    assert_eq!(en.capture, "Start capture");
    assert_eq!(labels("de").quit, "Beenden");
    assert_eq!(labels("xx").app_name, "\u{8d34}\u{56fe}\u{9489}");
    assert_eq!(tray_language(None), "zh-CN");
    assert_eq!(tray_language(Some("fr".to_owned())), "fr");
    let plan = install(None);
    assert_eq!(plan.tooltip, "\u{8d34}\u{56fe}\u{9489}");
    let ids: Vec<&str> = plan.items.iter().map(|i| i.id).collect();
    assert_eq!(ids, vec!["capture", "settings", "history", "quit"]);
    let plan = refresh("fr");
    assert_eq!(plan.tooltip, "snap pin");
    assert_eq!(plan.items[1].label, "Reglages");
    for item in &plan.items {
        assert_ne!(tray_event(item.id), TrayEvent::Unknown);
    }
    assert_eq!(tray_event("capture"), TrayEvent::Capture);
    assert_eq!(tray_event("history"), TrayEvent::ShowMainWindow);
    assert_eq!(tray_event("quit"), TrayEvent::Quit);
    assert_eq!(tray_event("other"), TrayEvent::Unknown);
}

#[test]
fn core_names() {
    assert_eq!(command_name(CoreCommandKind::RunOcrAndTranslate), "run_ocr_and_translate");
    assert_eq!(event_name(CoreEventKind::TranslationCompleted), "translation_completed");
}

#[test]
fn control_protocol_lines() {
    assert_eq!(control_command_line(ControlCommandKind::Ping), "{\"kind\":\"ping\",\"protocol\":2}\n");
    assert_eq!(pong_line(), "{\"kind\":\"pong\",\"protocol\":2}\n");
    assert!(is_pong_response(&pong_line()));
    assert!(!is_pong_response(""));
    assert!(contains_str("abcdef", "cde"));
    assert!(!contains_str("abc", "abcd"));
    assert_eq!(classify_control_request(Some(("ping", 2))), ControlRequest::Ping);
    assert_eq!(classify_control_request(Some(("ping", 1))), ControlRequest::Capture);
    assert_eq!(classify_control_request(Some(("pinSelection", 2))), ControlRequest::PinSelection);
    assert_eq!(classify_control_request(None), ControlRequest::Capture);
}

#[test]
fn control_server_answers() {
    assert!(matches!(control_server_action(ControlRequest::Ping, None), ControlAction::ReplyPong));
    assert!(matches!(
        control_server_action(ControlRequest::Shutdown, None),
        ControlAction::QueueWithAck(ControlCommandKind::Shutdown, "shutdown")
    ));
    assert!(matches!(control_server_action(ControlRequest::Capture, None), ControlAction::QueueCapture));
    match control_server_action(ControlRequest::Capture, Some("expected value".to_owned())) {
        ControlAction::Reject(m) => assert_eq!(m, "failed to parse overlay command: expected value"),
        other => panic!("unexpected action {other:?}"),
    }
    assert_eq!(ack_status(&Ok(()), "shutdown"), "accepted");
    assert_eq!(ack_status(&Err("capture_overlay_inactive".to_owned()), "pin-selection"), "inactive");
    assert_eq!(ack_status(&Err("capture_overlay_inactive".to_owned()), "shutdown"), "rejected");
    assert_eq!(
        ack_timeout_error("shutdown"),
        "resident screenshot overlay did not process the shutdown command in time"
    );
}

#[test]
fn control_answers_read_back() {
    let accepted = control_response(Ok(()));
    assert_eq!(interpret_control_response(&accepted.kind, accepted.message), Ok(()));
    let rejected = control_response(Err("busy".to_owned()));
    assert_eq!(rejected.kind, "error");
    assert_eq!(interpret_control_response(&rejected.kind, rejected.message), Err("busy".to_owned()));
    assert_eq!(
        interpret_control_response("error", None),
        Err("resident screenshot overlay rejected the command".to_owned())
    );
    assert_eq!(
        interpret_control_response("weird", None),
        Err("resident screenshot overlay returned unexpected response 'weird'".to_owned())
    );
}

fn command(kind: &str) -> OverlayCaptureCommand {
    OverlayCaptureCommand {
        kind: kind.to_owned(),
        language: "ja".to_owned(),
        border_color: "#000000".to_owned(),
        show_size_label: true,
        show_toolbar: false,
        show_magnifier: true,
        pin_hotkey: "Ctrl+P".to_owned(),
        completion_action: "copy".to_owned(),
        pin_always_on_top: false,
        ocr_provider: "system".to_owned(),
        ocr_language_hint: Some("  ".to_owned()),
        ocr_default_model_id: Some(" m1 ".to_owned()),
        ocr_models_registry: None,
        translate_provider: "api-deepl".to_owned(),
        translate_target_language: "en".to_owned(),
        translate_segmentation_mode: "full-region".to_owned(),
        translate_default_model_id: Some("".to_owned()),
        smart_merge_inline_label_max_chars: 12,
    }
}

#[test]
fn capture_commands_become_sessions() {
    let session = CaptureSession::from_command(command("capture")).expect("a capture command");
    assert_eq!(session.language, OverlayLanguage::Ja);
    assert_eq!(session.completion_action, CaptureAction::Copy);
    assert!(!session.show_toolbar);
    assert_eq!(session.ocr_language_hint, None);
    assert_eq!(session.ocr_default_model_id.as_deref(), Some("m1"));
    assert_eq!(session.translate_provider, "api-deepl");
    assert_eq!(session.translate_segmentation_mode, "full-region");
    assert_eq!(session.translate_default_model_id, None);
    assert_eq!(session.smart_merge_inline_label_max_chars, 12);
    let err = CaptureSession::from_command(command("paint")).unwrap_err();
    assert_eq!(err, "unknown overlay command: paint");
}

#[test]
fn overlay_launch_choice() {
    assert_eq!(executable_name("egui_overlay", true), "egui_overlay.exe");
    assert_eq!(executable_name("egui_overlay", false), "egui_overlay");
    let parts = |s: &[&str]| s.iter().map(|p| p.to_string()).collect::<Vec<String>>();
    assert!(is_workspace_debug_executable(
        &parts(&["C:", "ws", "target", "debug", "app.exe"]),
        &parts(&["C:", "ws"])
    ));
    assert!(!is_workspace_debug_executable(
        &parts(&["C:", "ws", "target", "release", "app.exe"]),
        &parts(&["C:", "ws"])
    ));
    assert_eq!(find_workspace_root(&vec![false, true, true], false), Some(WorkspaceRoot::Ancestor(1)));
    assert_eq!(find_workspace_root(&vec![false], true), Some(WorkspaceRoot::CurrentDir));
    assert_eq!(find_workspace_root(&vec![], false), None);
    assert_eq!(choose_overlay_launch(true, true, &vec![true]), OverlayLaunchChoice::CargoDebug);
    assert_eq!(choose_overlay_launch(true, false, &vec![false, true]), OverlayLaunchChoice::Candidate(1));
    assert_eq!(choose_overlay_launch(true, false, &vec![false]), OverlayLaunchChoice::CargoFallback);
    assert_eq!(choose_overlay_launch(false, false, &vec![]), OverlayLaunchChoice::Sibling);
    assert_eq!(
        candidate_directories(Some("bin".to_owned()), None),
        vec!["bin".to_owned()]
    );
    assert_eq!(launch_description(true, "C:/ws"), "cargo run in C:/ws");
    assert_eq!(launch_description(false, "C:/o.exe"), "executable C:/o.exe");
    assert_eq!(
        cargo_overlay_args(vec!["--capture".to_owned()]),
        vec!["run", "-p", "egui_overlay", "--features", "local-ocr-rs", "--", "--capture"]
    );
}

fn record(id: &str, backend: &str, source: ModelSource, present: bool) -> ModelRecord {
    ModelRecord {
        id: id.to_owned(),
        name: format!("{id} model"),
        domain: ModelDomain::Ocr,
        backend: backend.to_owned(),
        source,
        required_files_present: present,
    }
}

#[test]
fn model_status_and_summaries() {
    let local = record("ppocr", "mnn", ModelSource::LocalPath("C:/m".to_owned()), true);
    let (source, availability, path) = model_source_status(&local);
    assert_eq!((source.as_str(), availability.as_str(), path.as_deref()), ("local-path", "ready", Some("C:/m")));
    let download = record("d", "mnn", ModelSource::Download { url: "https://x".to_owned() }, false);
    let summary = model_summary(&download, None);
    assert_eq!(summary.source, "download");
    assert_eq!(summary.availability, "not-downloaded");
    assert_eq!(summary.domain, "ocr");
    assert!(has_ready_local_ocr_model(&vec![download, local], None));
    let missing = record("ppocr", "mnn", ModelSource::LocalPath("C:/m".to_owned()), false);
    assert!(!has_ready_local_ocr_model(&vec![missing], Some("ppocr")));
    assert!(should_disable_local_auto_ocr(
        true,
        OcrProvider::Local(OcrLocalBackend::Mnn),
        "local-ocr-rs-enabled",
        false
    ));
    assert!(!should_disable_local_auto_ocr(
        true,
        OcrProvider::Local(OcrLocalBackend::Mnn),
        "local-ocr-rs-enabled",
        true
    ));
    assert!(!should_disable_local_auto_ocr(true, OcrProvider::System, "disabled", false));
    assert_eq!(
        models_summary_text(&vec!["a".to_owned(), "b".to_owned()]),
        "models: a, b"
    );
}

#[test]
fn app_status_and_responses() {
    let status = app_status(&vec!["capture".to_owned(), "ocr".to_owned()], &vec![], 2, 1, "local-ocr-rs-enabled");
    assert_eq!(status.boot_summary, "snap pin desktop shell ready: capture, ocr");
    assert_eq!(status.model_summary, "models: ");
    assert_eq!(status.history_summary, "history: 2 ocr result(s), 1 translation(s)");
    assert_eq!(status.local_ocr_runtime_status, "local-ocr-rs-enabled");
    let response = mvp_run_response(vec!["CaptureStarted".to_owned()], 0, 0);
    assert_eq!(response.events, vec!["CaptureStarted".to_owned()]);
    assert_eq!(response.history_summary, "history: 0 ocr result(s), 0 translation(s)");
    let capture = CaptureResponse { events: vec![] };
    assert!(capture.events.is_empty());
}

#[test]
fn model_storage() {
    let info = storage_info("C:/d".to_owned(), "D:/m".to_owned(), false);
    assert_eq!(info.current_ocr_models_dir, "D:/m");
    assert!(!info.using_default);
    let info = model_storage_info(Ok("C:/d".to_owned()), Ok("C:/d".to_owned()), true).expect("both known");
    assert!(info.using_default);
    assert_eq!(
        model_storage_info(Err("no app dir".to_owned()), Err("other".to_owned()), true).unwrap_err(),
        "no app dir"
    );
    assert_eq!(
        model_storage_info(Ok("C:/d".to_owned()), Err("no config".to_owned()), true).unwrap_err(),
        "no config"
    );
    assert_eq!(configured_models_dir(Some("  D:/models ")).as_deref(), Some("D:/models"));
    assert_eq!(configured_models_dir(Some("   ")), None);
    assert_eq!(plan_storage_change(true, false, false), StorageChange::EmptyTarget);
    assert_eq!(plan_storage_change(false, true, true), StorageChange::KeepLocation);
    assert_eq!(plan_storage_change(false, false, true), StorageChange::TargetInsideCurrent);
    assert_eq!(plan_storage_change(false, false, false), StorageChange::Migrate);
    assert_eq!(
        storage_change_error(StorageChange::TargetInsideCurrent).as_deref(),
        Some("model_storage_invalid_target: new model location must not be inside the current location")
    );
    assert_eq!(storage_change_error(StorageChange::Migrate), None);
    assert_eq!(plan_model_migration(ModelDomain::Translation, true, true, false, false), MigrationStep::Skip);
    assert_eq!(plan_model_migration(ModelDomain::Ocr, true, false, false, true), MigrationStep::Repoint);
    assert_eq!(plan_model_migration(ModelDomain::Ocr, true, true, false, true), MigrationStep::ReplaceAndMove);
    assert_eq!(plan_model_migration(ModelDomain::Ocr, true, true, false, false), MigrationStep::Move);
}

#[test]
fn ipc_bridge_keeps_message_order() {
    let mut bridge: DesktopIpcBridge<u32> = DesktopIpcBridge::new();
    bridge.send(1);
    bridge.send(2);
    bridge.send(3);
    assert_eq!(bridge.drain(), vec![1, 2, 3]);
    assert!(bridge.drain().is_empty());
}

#[test]
fn only_the_latest_mappings_stay_open() {
    let mut mappings: RecentMappings<u32> = RecentMappings::new();
    for m in 1..=6 {
        mappings.keep_mapping(m);
    }
    let kept: Vec<u32> = mappings.kept_mappings().iter().copied().collect();
    assert_eq!(kept, vec![3, 4, 5, 6]);
}

#[test]
fn model_download_progress() {
    assert_eq!(check_download_can_start(None), Ok(()));
    assert_eq!(check_download_can_start(Some(("ppocr", false))), Ok(()));
    assert_eq!(
        check_download_can_start(Some(("ppocr", true))),
        Err("model_download_already_running: 'ppocr' is already downloading".to_owned())
    );
    assert_eq!(
        ensure_no_model_download_running(Some(true)),
        Err("model_storage_busy: wait for the current model download to finish".to_owned())
    );
    assert_eq!(ensure_no_model_download_running(Some(false)), Ok(()));
    let mut progress: ModelDownloadProgress<u8> = ModelDownloadProgress::started("ppocr".to_owned());
    assert!(progress.running);
    progress.record("det".to_owned(), "det.mnn".to_owned(), 1, 3, 100, Some(400));
    assert_eq!(progress.file_index, 1);
    assert_eq!(progress.total_bytes, Some(400));
    progress.finish(Err("network".to_owned()));
    assert!(!progress.running);
    assert_eq!(progress.error.as_deref(), Some("network"));
    assert_eq!(progress.downloaded_bytes, 100);
}

#[test]
fn models_move_with_the_ocr_location() {
    let mut translation = record("opus/en-fr", "ct2", ModelSource::LocalPath("/old/opus".to_owned()), true);
    translation.domain = ModelDomain::Translation;
    let models = vec![
        record("paddle v4", "onnx", ModelSource::LocalPath("/old/paddle".to_owned()), true),
        record("builtin", "mnn", ModelSource::BuiltIn, true),
        translation,
        record("remote", "onnx", ModelSource::Download { url: "https://m.example".to_owned() }, false),
    ];
    let names = model_dir_names(&models);
    assert_eq!(names, vec!["paddle_v4", "builtin", "opus_en-fr", "remote"]);
    let new_dirs: Vec<String> = names.iter().map(|n| format!("/new/{n}")).collect();
    let moved = migrated_models(&models, &new_dirs);
    assert_eq!(moved.len(), 4);
    assert!(matches!(&moved[0].source, ModelSource::LocalPath(p) if p == "/new/paddle_v4"));
    assert_eq!(moved[0].id, "paddle v4");
    assert!(matches!(moved[1].source, ModelSource::BuiltIn));
    assert!(matches!(&moved[2].source, ModelSource::LocalPath(p) if p == "/old/opus"));
    assert!(matches!(&moved[3].source, ModelSource::Download { url } if url == "https://m.example"));
    assert_eq!(stored_model_positions(&moved), vec![0, 2, 3]);
}

#[test]
fn the_current_model_location() {
    assert_eq!(current_models_dir(Some("  /data/models "), Ok("/default".to_owned())), Ok("/data/models".to_owned()));
    assert_eq!(current_models_dir(Some("   "), Ok("/default".to_owned())), Ok("/default".to_owned()));
    assert_eq!(current_models_dir(None, Err("no app data dir".to_owned())), Err("no app data dir".to_owned()));
    assert_eq!(current_models_dir(Some("/x"), Err("no app data dir".to_owned())), Ok("/x".to_owned()));
}

#[test]
fn model_download_runtime_refusals() {
    let mut runtime: ModelDownloadRuntime<u32> = ModelDownloadRuntime::new();
    assert!(runtime.ensure_idle().is_ok());
    assert!(!runtime.cancel());
    assert_eq!(
        runtime.start("mystery".to_owned(), false).unwrap_err(),
        "model_download_source_missing: unsupported model id 'mystery'"
    );
    assert!(runtime.task.is_none());
    assert!(runtime.start("ppocr".to_owned(), true).is_ok());
    assert_eq!(runtime.task.as_ref().map(|t| t.model_id.as_str()), Some("ppocr"));
    assert_eq!(
        runtime.ensure_idle().unwrap_err(),
        "model_storage_busy: wait for the current model download to finish"
    );
    assert_eq!(
        runtime.start("other".to_owned(), true).unwrap_err(),
        "model_download_already_running: 'ppocr' is already downloading"
    );
    assert_eq!(
        runtime.start("mystery".to_owned(), false).unwrap_err(),
        "model_download_source_missing: unsupported model id 'mystery'"
    );
    assert!(runtime.cancel());
    assert!(runtime.task.as_ref().unwrap().cancel_requested);
    runtime.task.as_mut().unwrap().progress.finish(Ok(7));
    assert!(runtime.ensure_idle().is_ok());
    assert!(runtime.start("other".to_owned(), true).is_ok());
    assert!(!runtime.task.as_ref().unwrap().cancel_requested);
}
