use snap_pin::providers::{
    capture_action_from_name, completion_action_name, format_color_value, normalize_language, ocr_mode_name,
    ocr_provider_name, parse_completion_action, parse_ocr_mode, parse_ocr_provider,
    parse_pin_translate_provider, parse_translate_provider, segmentation_mode_from_name,
    translate_provider_label, translate_provider_name, CaptureAction, CaptureCompletionAction,
    ColorValueFormat, OcrExternalProvider, OcrLocalBackend, OcrProvider, OcrRunMode,
    OverlayLanguage, PinTranslationSegmentationMode, TranslateExperimentalBackend,
    TranslateExternalProvider, TranslateLocalBackend, TranslateProvider,
};
use snap_pin::settings::{
    AppSettingsDto, CaptureSettingsDto, HistorySettingsDto, HotkeySettingsDto,
    InterfaceSettingsDto, OcrProviderProfile, OcrProviderProfileDto, OcrSettingsDto,
    OverlaySettingsDto, PinSettingsDto, Settings, TranslationSettingsDto,
};

fn profile_dto(id: &str) -> OcrProviderProfileDto {
    OcrProviderProfileDto {
        id: id.to_owned(),
        provider: "api-azure".to_owned(),
        endpoint: " https://ocr.example ".to_owned(),
        model: "".to_owned(),
        language_hint: "  ".to_owned(),
        timeout_ms: 500_000,
        retry_limit: 9,
        privacy_notice_acknowledged: true,
    }
}

fn settings_dto(translate_provider: &str) -> AppSettingsDto {
    AppSettingsDto {
        interface: InterfaceSettingsDto { language: "zh-Hans".to_owned() },
        capture: CaptureSettingsDto {
            include_cursor: true,
            auto_copy_to_clipboard: false,
            freeze_screen_on_capture: true,
            show_size_label: true,
            show_toolbar: false,
            capture_delay_ms: 90_000,
            border_color: "#2f8aa3".to_owned(),
            completion_action: "save".to_owned(),
        },
        overlay: OverlaySettingsDto { show_magnifier: false },
        pin: PinSettingsDto {
            click_through: true,
            always_on_top: true,
            remember_position: false,
            show_ocr_text: true,
            show_translation_text: false,
        },
        ocr: OcrSettingsDto {
            mode: "advanced".to_owned(),
            provider: "api-google".to_owned(),
            language_hint: " en ".to_owned(),
            auto_run_after_capture: true,
            default_model_id: "".to_owned(),
            provider_profiles: vec![profile_dto(" main "), profile_dto("   ")],
            default_provider_profile_id: "main".to_owned(),
        },
        translation: TranslationSettingsDto {
            provider: translate_provider.to_owned(),
            target_language: "ja".to_owned(),
            auto_translate_after_ocr: true,
            default_model_id: " opus ".to_owned(),
        },
        hotkeys: HotkeySettingsDto {
            capture: "Ctrl+Shift+A".to_owned(),
            pin_selection: "Ctrl+Shift+X".to_owned(),
            toggle_pins_click_through: "Ctrl+Shift+T".to_owned(),
            show_history: "Ctrl+Shift+H".to_owned(),
        },
        history: HistorySettingsDto { enabled: true, max_entries: 3 },
    }
}

#[test]
fn settings_page_values_are_normalized() {
    let settings = Settings::from_dto(&settings_dto("api-deepl"));
    assert_eq!(settings.interface.language, "zh-CN");
    assert_eq!(settings.capture.capture_delay_ms, 30_000);
    assert_eq!(settings.capture.completion_action, CaptureCompletionAction::SaveToFile);
    assert!(!settings.capture.show_toolbar);
    assert!(settings.overlay.click_through_pins);
    assert_eq!(settings.ocr.mode, OcrRunMode::Advanced);
    assert_eq!(settings.ocr.provider, OcrProvider::ExternalApi(OcrExternalProvider::GoogleVision));
    assert_eq!(settings.ocr.language_hint.as_deref(), Some("en"));
    assert_eq!(settings.ocr.default_model_id, None);
    assert_eq!(settings.ocr.provider_profiles.len(), 1);
    let profile = &settings.ocr.provider_profiles[0];
    assert_eq!(profile.id, "main");
    assert_eq!(profile.provider, OcrExternalProvider::AzureVision);
    assert_eq!(profile.endpoint.as_deref(), Some("https://ocr.example"));
    assert_eq!(profile.model, None);
    assert_eq!(profile.language_hint, None);
    assert_eq!(profile.timeout_ms, 120_000);
    assert_eq!(profile.retry_limit, 5);
    assert_eq!(settings.ocr.default_provider_profile_id.as_deref(), Some("main"));
    assert_eq!(
        settings.translate.provider,
        TranslateProvider::ExternalApi(TranslateExternalProvider::DeepL)
    );
    assert_eq!(settings.translate.default_model_id.as_deref(), Some("opus"));
    assert_eq!(settings.history.max_entries, 10);
}

#[test]
fn settings_survive_a_save_and_reload() {
    let first = Settings::from_dto(&settings_dto("api-tencent"));
    let page = AppSettingsDto::from_settings(&first);
    assert_eq!(page.interface.language, "zh-CN");
    assert_eq!(page.capture.completion_action, "save");
    assert_eq!(page.ocr.provider, "api-google");
    assert_eq!(page.ocr.default_model_id, "");
    assert_eq!(page.translation.provider, "api-tencent");
    let second = Settings::from_dto(&page);
    assert_eq!(second.interface.language, first.interface.language);
    assert_eq!(second.capture.capture_delay_ms, first.capture.capture_delay_ms);
    assert_eq!(second.capture.completion_action, first.capture.completion_action);
    assert_eq!(second.ocr.mode, first.ocr.mode);
    assert_eq!(second.ocr.provider, first.ocr.provider);
    assert_eq!(second.ocr.language_hint, first.ocr.language_hint);
    assert_eq!(second.ocr.provider_profiles.len(), first.ocr.provider_profiles.len());
    assert_eq!(second.ocr.provider_profiles[0].endpoint, first.ocr.provider_profiles[0].endpoint);
    assert_eq!(second.ocr.provider_profiles[0].timeout_ms, first.ocr.provider_profiles[0].timeout_ms);
    assert_eq!(second.translate.provider, first.translate.provider);
    assert_eq!(second.translate.default_model_id, first.translate.default_model_id);
    assert_eq!(second.history.max_entries, first.history.max_entries);
}

#[test]
fn experimental_translation_does_not_survive_a_reload() {
    let first = Settings::from_dto(&settings_dto("experimental-rust-bert"));
    assert_eq!(
        first.translate.provider,
        TranslateProvider::Experimental(TranslateExperimentalBackend::RustBert)
    );
    let second = Settings::from_dto(&AppSettingsDto::from_settings(&first));
    assert_eq!(
        second.translate.provider,
        TranslateProvider::Local(TranslateLocalBackend::CTranslate2)
    );
}

#[test]
fn profiles_need_an_id() {
    assert!(OcrProviderProfile::try_from_dto(&profile_dto("  ")).is_none());
    let profile = OcrProviderProfile::try_from_dto(&profile_dto("x")).expect("has an id");
    let dto = OcrProviderProfileDto::from_profile(&profile);
    assert_eq!(dto.id, "x");
    assert_eq!(dto.provider, "api-azure");
    assert_eq!(dto.endpoint, "https://ocr.example");
    assert_eq!(dto.model, "");
    assert_eq!(dto.timeout_ms, 120_000);
    assert_eq!(dto.retry_limit, 5);
}

#[test]
fn provider_names_read_back() {
    for provider in [
        OcrProvider::Disabled,
        OcrProvider::System,
        OcrProvider::Local(OcrLocalBackend::Mnn),
        OcrProvider::Local(OcrLocalBackend::OnnxRuntime),
        OcrProvider::Local(OcrLocalBackend::PaddleRuntime),
        OcrProvider::ExternalApi(OcrExternalProvider::OpenAi),
        OcrProvider::ExternalApi(OcrExternalProvider::TencentOcr),
    ] {
        assert_eq!(parse_ocr_provider(&ocr_provider_name(&provider)), provider);
    }
    assert_eq!(ocr_provider_name(&OcrProvider::Local(OcrLocalBackend::Custom)), "local-custom");
    assert_eq!(parse_ocr_provider("local-custom"), OcrProvider::Local(OcrLocalBackend::Mnn));
    assert_eq!(parse_ocr_provider("whatever"), OcrProvider::Local(OcrLocalBackend::Mnn));
    for mode in [
        OcrRunMode::Lightweight,
        OcrRunMode::Standard,
        OcrRunMode::Compatible,
        OcrRunMode::Advanced,
        OcrRunMode::Cloud,
    ] {
        assert_eq!(parse_ocr_mode(&ocr_mode_name(&mode)), mode);
    }
    for action in [
        CaptureCompletionAction::Pin,
        CaptureCompletionAction::CopyToClipboard,
        CaptureCompletionAction::SaveToFile,
        CaptureCompletionAction::OpenEditor,
    ] {
        assert_eq!(parse_completion_action(&completion_action_name(&action)), action);
    }
    assert_eq!(completion_action_name(&CaptureCompletionAction::OpenEditor), "editor");
    assert_eq!(capture_action_from_name("copy"), CaptureAction::Copy);
    assert_eq!(capture_action_from_name("editor"), CaptureAction::Editor);
    assert_eq!(capture_action_from_name("nope"), CaptureAction::Pin);
    assert_eq!(CaptureAction::from_name("save"), CaptureAction::Save);
}

#[test]
fn translate_provider_names() {
    let deepl = TranslateProvider::ExternalApi(TranslateExternalProvider::DeepL);
    assert_eq!(translate_provider_name(&deepl), "api-deepl");
    assert_eq!(parse_translate_provider("api-deepl"), deepl);
    assert_eq!(
        translate_provider_name(&TranslateProvider::ExternalApi(TranslateExternalProvider::Custom)),
        "api-custom"
    );
    assert_eq!(
        parse_translate_provider("api-custom"),
        TranslateProvider::ExternalApi(TranslateExternalProvider::CustomHttp)
    );
    assert_eq!(
        parse_translate_provider("experimental-candle"),
        TranslateProvider::Experimental(TranslateExperimentalBackend::Candle)
    );
    assert_eq!(
        parse_pin_translate_provider("experimental-candle"),
        TranslateProvider::Local(TranslateLocalBackend::CTranslate2)
    );
    assert_eq!(
        translate_provider_label(&TranslateProvider::Experimental(TranslateExperimentalBackend::RustBert)),
        "experimental"
    );
    assert_eq!(translate_provider_label(&TranslateProvider::Custom), "custom");
}

#[test]
fn languages_are_normalized_once() {
    assert_eq!(normalize_language("fr"), "fr");
    assert_eq!(normalize_language("zh"), "zh-CN");
    assert_eq!(normalize_language("pt-BR"), "zh-CN");
    assert_eq!(normalize_language(&normalize_language("pt-BR")), "zh-CN");
    assert_eq!(OverlayLanguage::from_code("ko"), OverlayLanguage::Ko);
    assert_eq!(OverlayLanguage::from_code("zh-hans"), OverlayLanguage::ZhCn);
    assert_eq!(OverlayLanguage::from_code("xx"), OverlayLanguage::ZhCn);
}

#[test]
fn segmentation_modes_and_color_format() {
    assert_eq!(segmentation_mode_from_name("block-replace"), PinTranslationSegmentationMode::BlockReplace);
    assert_eq!(segmentation_mode_from_name("full-region"), PinTranslationSegmentationMode::FullRegion);
    assert_eq!(segmentation_mode_from_name("other"), PinTranslationSegmentationMode::SmartMerge);
    assert_eq!(
        PinTranslationSegmentationMode::from_name("smart-merge"),
        PinTranslationSegmentationMode::SmartMerge
    );
    assert_eq!(ColorValueFormat::Hex.toggled(), ColorValueFormat::Rgb);
    assert_eq!(ColorValueFormat::Rgb.toggled().toggled(), ColorValueFormat::Rgb);
}

#[test]
fn capture_overlay_takes_the_loaded_ocr_texts() {
    let settings = Settings::from_dto(&settings_dto("local-ct2"));
    let command = snap_pin::control::capture_command_from_settings(&settings, Some(" models.json ".to_owned()));
    assert_eq!(command.ocr_language_hint.as_deref(), Some("en"));
    let session = snap_pin::control::CaptureSession::from_command(command).expect("a capture command");
    assert_eq!(session.ocr_language_hint.as_deref(), Some("en"));
    assert_eq!(session.ocr_default_model_id, None);
    assert_eq!(session.ocr_models_registry.as_deref(), Some("models.json"));
}

#[test]
fn picked_colors_are_written_in_both_formats() {
    assert_eq!(format_color_value(47, 138, 163, ColorValueFormat::Hex), "#2F8AA3");
    assert_eq!(format_color_value(47, 138, 163, ColorValueFormat::Rgb), "47, 138, 163");
    assert_eq!(format_color_value(0, 9, 255, ColorValueFormat::Hex), "#0009FF");
    assert_eq!(format_color_value(0, 9, 255, ColorValueFormat::Rgb), "0, 9, 255");
}

#[test]
fn a_written_settings_page_is_written_back_unchanged() {
    let mut page = settings_dto("local-ct2");
    page.interface.language = "ja".to_owned();
    page.capture.capture_delay_ms = 250;
    page.capture.completion_action = "copy".to_owned();
    page.ocr.mode = "standard".to_owned();
    page.ocr.provider = "api-google".to_owned();
    page.ocr.language_hint = "en".to_owned();
    page.ocr.default_provider_profile_id = "main".to_owned();
    let mut profile = profile_dto("main");
    profile.endpoint = "https://ocr.example".to_owned();
    profile.language_hint = "".to_owned();
    profile.timeout_ms = 15_000;
    profile.retry_limit = 2;
    page.ocr.provider_profiles = vec![profile];
    page.translation.default_model_id = "opus".to_owned();
    page.history.max_entries = 200;
    let written = AppSettingsDto::from_settings(&Settings::from_dto(&page));
    assert_eq!(format!("{written:?}"), format!("{page:?}"));
}
