use vstd::prelude::*;

use crate::ocr_text::{empty_to_none, non_empty_trimmed};
use crate::providers::{
    completion_action_label, completion_action_name, completion_action_name_round_trip,
    completion_action_of, normalized_language_is_stable, ocr_external_provider_name_round_trip,
    ocr_mode_name_round_trip, ocr_provider_name_round_trip, translate_provider_name_round_trip,
    normalize_language, normalized_language, ocr_external_provider_label,
    ocr_external_provider_name, ocr_external_provider_of, ocr_mode_label, ocr_mode_name,
    ocr_mode_of, ocr_provider_label, ocr_provider_name, ocr_provider_of,
    parse_completion_action, parse_ocr_external_provider, parse_ocr_mode, parse_ocr_provider,
    parse_translate_provider, translate_provider_label_of, translate_provider_name,
    translate_provider_of, CaptureCompletionAction, OcrExternalProvider, OcrProvider,
    OcrRunMode, TranslateProvider,
};
use crate::text::{is_trimmed, lemma_trimmed, trim_str_chars, trimmed};
use crate::chars::string_from_chars;

verus! {

/// An external OCR service profile as the settings page edits it.
#[derive(Debug)]
pub struct OcrProviderProfileDto {
    pub id: String,
    pub provider: String,
    pub endpoint: String,
    pub model: String,
    pub language_hint: String,
    pub timeout_ms: u64,
    pub retry_limit: u8,
    pub privacy_notice_acknowledged: bool,
}

/// The value of a [`OcrProviderProfileDto`], with text as character sequences.
#[verifier::ext_equal]
pub struct OcrProviderProfileDtoView {
    pub id: Seq<char>,
    pub provider: Seq<char>,
    pub endpoint: Seq<char>,
    pub model: Seq<char>,
    pub language_hint: Seq<char>,
    pub timeout_ms: u64,
    pub retry_limit: u8,
    pub privacy_notice_acknowledged: bool,
}

impl View for OcrProviderProfileDto {
    type V = OcrProviderProfileDtoView;

    open spec fn view(&self) -> OcrProviderProfileDtoView {
        OcrProviderProfileDtoView {
            id: self.id@,
            provider: self.provider@,
            endpoint: self.endpoint@,
            model: self.model@,
            language_hint: self.language_hint@,
            timeout_ms: self.timeout_ms,
            retry_limit: self.retry_limit,
            privacy_notice_acknowledged: self.privacy_notice_acknowledged,
        }
    }
}

/// An external OCR service profile as the settings hold it.
#[derive(Debug)]
pub struct OcrProviderProfile {
    pub id: String,
    pub provider: OcrExternalProvider,
    pub endpoint: Option<String>,
    pub model: Option<String>,
    pub language_hint: Option<String>,
    pub timeout_ms: u64,
    pub retry_limit: u8,
    pub privacy_notice_acknowledged: bool,
}

/// The value of a [`OcrProviderProfile`], with text as character sequences.
#[verifier::ext_equal]
pub struct OcrProviderProfileView {
    pub id: Seq<char>,
    pub provider: OcrExternalProvider,
    pub endpoint: Option<Seq<char>>,
    pub model: Option<Seq<char>>,
    pub language_hint: Option<Seq<char>>,
    pub timeout_ms: u64,
    pub retry_limit: u8,
    pub privacy_notice_acknowledged: bool,
}

impl View for OcrProviderProfile {
    type V = OcrProviderProfileView;

    open spec fn view(&self) -> OcrProviderProfileView {
        OcrProviderProfileView {
            id: self.id@,
            provider: self.provider,
            endpoint: self.endpoint.deep_view(),
            model: self.model.deep_view(),
            language_hint: self.language_hint.deep_view(),
            timeout_ms: self.timeout_ms,
            retry_limit: self.retry_limit,
            privacy_notice_acknowledged: self.privacy_notice_acknowledged,
        }
    }
}

/// Interface settings as the settings page edits them.
#[derive(Debug)]
pub struct InterfaceSettingsDto {
    pub language: String,
}

/// The value of a [`InterfaceSettingsDto`], with text as character sequences.
#[verifier::ext_equal]
pub struct InterfaceSettingsDtoView {
    pub language: Seq<char>,
}

impl View for InterfaceSettingsDto {
    type V = InterfaceSettingsDtoView;

    open spec fn view(&self) -> InterfaceSettingsDtoView {
        InterfaceSettingsDtoView {
            language: self.language@,
        }
    }
}

/// Capture settings as the settings page edits them; the mask opacity, a float, is carried beside them.
#[derive(Debug)]
pub struct CaptureSettingsDto {
    pub include_cursor: bool,
    pub auto_copy_to_clipboard: bool,
    pub freeze_screen_on_capture: bool,
    pub show_size_label: bool,
    pub show_toolbar: bool,
    pub capture_delay_ms: u64,
    pub border_color: String,
    pub completion_action: String,
}

/// The value of a [`CaptureSettingsDto`], with text as character sequences.
#[verifier::ext_equal]
pub struct CaptureSettingsDtoView {
    pub include_cursor: bool,
    pub auto_copy_to_clipboard: bool,
    pub freeze_screen_on_capture: bool,
    pub show_size_label: bool,
    pub show_toolbar: bool,
    pub capture_delay_ms: u64,
    pub border_color: Seq<char>,
    pub completion_action: Seq<char>,
}

impl View for CaptureSettingsDto {
    type V = CaptureSettingsDtoView;

    open spec fn view(&self) -> CaptureSettingsDtoView {
        CaptureSettingsDtoView {
            include_cursor: self.include_cursor,
            auto_copy_to_clipboard: self.auto_copy_to_clipboard,
            freeze_screen_on_capture: self.freeze_screen_on_capture,
            show_size_label: self.show_size_label,
            show_toolbar: self.show_toolbar,
            capture_delay_ms: self.capture_delay_ms,
            border_color: self.border_color@,
            completion_action: self.completion_action@,
        }
    }
}

/// Overlay settings as the settings page edits them; the magnifier scale, a float, is carried beside them.
#[derive(Debug)]
pub struct OverlaySettingsDto {
    pub show_magnifier: bool,
}

/// The value of a [`OverlaySettingsDto`], with text as character sequences.
#[verifier::ext_equal]
pub struct OverlaySettingsDtoView {
    pub show_magnifier: bool,
}

impl View for OverlaySettingsDto {
    type V = OverlaySettingsDtoView;

    open spec fn view(&self) -> OverlaySettingsDtoView {
        OverlaySettingsDtoView {
            show_magnifier: self.show_magnifier,
        }
    }
}

/// Pin window settings as the settings page edits them; opacity, zoom step, minimum size and text overlay metrics, all floats, are carried beside them.
#[derive(Debug)]
pub struct PinSettingsDto {
    pub click_through: bool,
    pub always_on_top: bool,
    pub remember_position: bool,
    pub show_ocr_text: bool,
    pub show_translation_text: bool,
}

/// The value of a [`PinSettingsDto`], with text as character sequences.
#[verifier::ext_equal]
pub struct PinSettingsDtoView {
    pub click_through: bool,
    pub always_on_top: bool,
    pub remember_position: bool,
    pub show_ocr_text: bool,
    pub show_translation_text: bool,
}

impl View for PinSettingsDto {
    type V = PinSettingsDtoView;

    open spec fn view(&self) -> PinSettingsDtoView {
        PinSettingsDtoView {
            click_through: self.click_through,
            always_on_top: self.always_on_top,
            remember_position: self.remember_position,
            show_ocr_text: self.show_ocr_text,
            show_translation_text: self.show_translation_text,
        }
    }
}

/// OCR settings as the settings page edits them.
#[derive(Debug)]
pub struct OcrSettingsDto {
    pub mode: String,
    pub provider: String,
    pub language_hint: String,
    pub auto_run_after_capture: bool,
    pub default_model_id: String,
    pub provider_profiles: Vec<OcrProviderProfileDto>,
    pub default_provider_profile_id: String,
}

/// The value of a [`OcrSettingsDto`], with text as character sequences.
#[verifier::ext_equal]
pub struct OcrSettingsDtoView {
    pub mode: Seq<char>,
    pub provider: Seq<char>,
    pub language_hint: Seq<char>,
    pub auto_run_after_capture: bool,
    pub default_model_id: Seq<char>,
    pub provider_profiles: Seq<OcrProviderProfileDtoView>,
    pub default_provider_profile_id: Seq<char>,
}

impl View for OcrSettingsDto {
    type V = OcrSettingsDtoView;

    open spec fn view(&self) -> OcrSettingsDtoView {
        OcrSettingsDtoView {
            mode: self.mode@,
            provider: self.provider@,
            language_hint: self.language_hint@,
            auto_run_after_capture: self.auto_run_after_capture,
            default_model_id: self.default_model_id@,
            provider_profiles: self.provider_profiles@.map_values(|x: OcrProviderProfileDto| x@),
            default_provider_profile_id: self.default_provider_profile_id@,
        }
    }
}

/// Translation settings as the settings page edits them.
#[derive(Debug)]
pub struct TranslationSettingsDto {
    pub provider: String,
    pub target_language: String,
    pub auto_translate_after_ocr: bool,
    pub default_model_id: String,
}

/// The value of a [`TranslationSettingsDto`], with text as character sequences.
#[verifier::ext_equal]
pub struct TranslationSettingsDtoView {
    pub provider: Seq<char>,
    pub target_language: Seq<char>,
    pub auto_translate_after_ocr: bool,
    pub default_model_id: Seq<char>,
}

impl View for TranslationSettingsDto {
    type V = TranslationSettingsDtoView;

    open spec fn view(&self) -> TranslationSettingsDtoView {
        TranslationSettingsDtoView {
            provider: self.provider@,
            target_language: self.target_language@,
            auto_translate_after_ocr: self.auto_translate_after_ocr,
            default_model_id: self.default_model_id@,
        }
    }
}

/// Hotkey settings as the settings page edits them.
#[derive(Debug)]
pub struct HotkeySettingsDto {
    pub capture: String,
    pub pin_selection: String,
    pub toggle_pins_click_through: String,
    pub show_history: String,
}

/// The value of a [`HotkeySettingsDto`], with text as character sequences.
#[verifier::ext_equal]
pub struct HotkeySettingsDtoView {
    pub capture: Seq<char>,
    pub pin_selection: Seq<char>,
    pub toggle_pins_click_through: Seq<char>,
    pub show_history: Seq<char>,
}

impl View for HotkeySettingsDto {
    type V = HotkeySettingsDtoView;

    open spec fn view(&self) -> HotkeySettingsDtoView {
        HotkeySettingsDtoView {
            capture: self.capture@,
            pin_selection: self.pin_selection@,
            toggle_pins_click_through: self.toggle_pins_click_through@,
            show_history: self.show_history@,
        }
    }
}

/// History settings as the settings page edits them.
#[derive(Debug)]
pub struct HistorySettingsDto {
    pub enabled: bool,
    pub max_entries: usize,
}

/// The value of a [`HistorySettingsDto`], with text as character sequences.
#[verifier::ext_equal]
pub struct HistorySettingsDtoView {
    pub enabled: bool,
    pub max_entries: usize,
}

impl View for HistorySettingsDto {
    type V = HistorySettingsDtoView;

    open spec fn view(&self) -> HistorySettingsDtoView {
        HistorySettingsDtoView {
            enabled: self.enabled,
            max_entries: self.max_entries,
        }
    }
}

/// All settings as the settings page edits and stores them.
#[derive(Debug)]
pub struct AppSettingsDto {
    pub interface: InterfaceSettingsDto,
    pub capture: CaptureSettingsDto,
    pub overlay: OverlaySettingsDto,
    pub pin: PinSettingsDto,
    pub ocr: OcrSettingsDto,
    pub translation: TranslationSettingsDto,
    pub hotkeys: HotkeySettingsDto,
    pub history: HistorySettingsDto,
}

/// The value of a [`AppSettingsDto`], with text as character sequences.
#[verifier::ext_equal]
pub struct AppSettingsDtoView {
    pub interface: InterfaceSettingsDtoView,
    pub capture: CaptureSettingsDtoView,
    pub overlay: OverlaySettingsDtoView,
    pub pin: PinSettingsDtoView,
    pub ocr: OcrSettingsDtoView,
    pub translation: TranslationSettingsDtoView,
    pub hotkeys: HotkeySettingsDtoView,
    pub history: HistorySettingsDtoView,
}

impl View for AppSettingsDto {
    type V = AppSettingsDtoView;

    open spec fn view(&self) -> AppSettingsDtoView {
        AppSettingsDtoView {
            interface: self.interface@,
            capture: self.capture@,
            overlay: self.overlay@,
            pin: self.pin@,
            ocr: self.ocr@,
            translation: self.translation@,
            hotkeys: self.hotkeys@,
            history: self.history@,
        }
    }
}

/// Interface settings as the application holds them.
#[derive(Debug)]
pub struct InterfaceSettings {
    pub language: String,
}

/// The value of a [`InterfaceSettings`], with text as character sequences.
#[verifier::ext_equal]
pub struct InterfaceSettingsView {
    pub language: Seq<char>,
}

impl View for InterfaceSettings {
    type V = InterfaceSettingsView;

    open spec fn view(&self) -> InterfaceSettingsView {
        InterfaceSettingsView {
            language: self.language@,
        }
    }
}

/// Capture settings as the application holds them.
#[derive(Debug)]
pub struct CaptureSettings {
    pub include_cursor: bool,
    pub auto_copy_to_clipboard: bool,
    pub freeze_screen_on_capture: bool,
    pub show_size_label: bool,
    pub show_toolbar: bool,
    pub capture_delay_ms: u64,
    pub border_color: String,
    pub completion_action: CaptureCompletionAction,
}

/// The value of a [`CaptureSettings`], with text as character sequences.
#[verifier::ext_equal]
pub struct CaptureSettingsView {
    pub include_cursor: bool,
    pub auto_copy_to_clipboard: bool,
    pub freeze_screen_on_capture: bool,
    pub show_size_label: bool,
    pub show_toolbar: bool,
    pub capture_delay_ms: u64,
    pub border_color: Seq<char>,
    pub completion_action: CaptureCompletionAction,
}

impl View for CaptureSettings {
    type V = CaptureSettingsView;

    open spec fn view(&self) -> CaptureSettingsView {
        CaptureSettingsView {
            include_cursor: self.include_cursor,
            auto_copy_to_clipboard: self.auto_copy_to_clipboard,
            freeze_screen_on_capture: self.freeze_screen_on_capture,
            show_size_label: self.show_size_label,
            show_toolbar: self.show_toolbar,
            capture_delay_ms: self.capture_delay_ms,
            border_color: self.border_color@,
            completion_action: self.completion_action,
        }
    }
}

/// Overlay settings as the application holds them.
#[derive(Debug)]
pub struct OverlaySettings {
    pub show_magnifier: bool,
    pub click_through_pins: bool,
}

/// The value of a [`OverlaySettings`], with text as character sequences.
#[verifier::ext_equal]
pub struct OverlaySettingsView {
    pub show_magnifier: bool,
    pub click_through_pins: bool,
}

impl View for OverlaySettings {
    type V = OverlaySettingsView;

    open spec fn view(&self) -> OverlaySettingsView {
        OverlaySettingsView {
            show_magnifier: self.show_magnifier,
            click_through_pins: self.click_through_pins,
        }
    }
}

/// Pin window settings as the application holds them.
#[derive(Debug)]
pub struct PinSettings {
    pub click_through: bool,
    pub always_on_top: bool,
    pub remember_position: bool,
    pub show_ocr_text: bool,
    pub show_translation_text: bool,
}

/// The value of a [`PinSettings`], with text as character sequences.
#[verifier::ext_equal]
pub struct PinSettingsView {
    pub click_through: bool,
    pub always_on_top: bool,
    pub remember_position: bool,
    pub show_ocr_text: bool,
    pub show_translation_text: bool,
}

impl View for PinSettings {
    type V = PinSettingsView;

    open spec fn view(&self) -> PinSettingsView {
        PinSettingsView {
            click_through: self.click_through,
            always_on_top: self.always_on_top,
            remember_position: self.remember_position,
            show_ocr_text: self.show_ocr_text,
            show_translation_text: self.show_translation_text,
        }
    }
}

/// OCR settings as the application holds them.
#[derive(Debug)]
pub struct OcrSettings {
    pub mode: OcrRunMode,
    pub provider: OcrProvider,
    pub language_hint: Option<String>,
    pub auto_run_after_capture: bool,
    pub default_model_id: Option<String>,
    pub provider_profiles: Vec<OcrProviderProfile>,
    pub default_provider_profile_id: Option<String>,
}

/// The value of a [`OcrSettings`], with text as character sequences.
#[verifier::ext_equal]
pub struct OcrSettingsView {
    pub mode: OcrRunMode,
    pub provider: OcrProvider,
    pub language_hint: Option<Seq<char>>,
    pub auto_run_after_capture: bool,
    pub default_model_id: Option<Seq<char>>,
    pub provider_profiles: Seq<OcrProviderProfileView>,
    pub default_provider_profile_id: Option<Seq<char>>,
}

impl View for OcrSettings {
    type V = OcrSettingsView;

    open spec fn view(&self) -> OcrSettingsView {
        OcrSettingsView {
            mode: self.mode,
            provider: self.provider,
            language_hint: self.language_hint.deep_view(),
            auto_run_after_capture: self.auto_run_after_capture,
            default_model_id: self.default_model_id.deep_view(),
            provider_profiles: self.provider_profiles@.map_values(|x: OcrProviderProfile| x@),
            default_provider_profile_id: self.default_provider_profile_id.deep_view(),
        }
    }
}

/// Translation settings as the application holds them.
#[derive(Debug)]
pub struct TranslateSettings {
    pub provider: TranslateProvider,
    pub target_language: String,
    pub auto_translate_after_ocr: bool,
    pub default_model_id: Option<String>,
}

/// The value of a [`TranslateSettings`], with text as character sequences.
#[verifier::ext_equal]
pub struct TranslateSettingsView {
    pub provider: TranslateProvider,
    pub target_language: Seq<char>,
    pub auto_translate_after_ocr: bool,
    pub default_model_id: Option<Seq<char>>,
}

impl View for TranslateSettings {
    type V = TranslateSettingsView;

    open spec fn view(&self) -> TranslateSettingsView {
        TranslateSettingsView {
            provider: self.provider,
            target_language: self.target_language@,
            auto_translate_after_ocr: self.auto_translate_after_ocr,
            default_model_id: self.default_model_id.deep_view(),
        }
    }
}

/// Hotkey settings as the application holds them.
#[derive(Debug)]
pub struct HotkeySettings {
    pub capture: String,
    pub pin_selection: String,
    pub toggle_pins_click_through: String,
    pub show_history: String,
}

/// The value of a [`HotkeySettings`], with text as character sequences.
#[verifier::ext_equal]
pub struct HotkeySettingsView {
    pub capture: Seq<char>,
    pub pin_selection: Seq<char>,
    pub toggle_pins_click_through: Seq<char>,
    pub show_history: Seq<char>,
}

impl View for HotkeySettings {
    type V = HotkeySettingsView;

    open spec fn view(&self) -> HotkeySettingsView {
        HotkeySettingsView {
            capture: self.capture@,
            pin_selection: self.pin_selection@,
            toggle_pins_click_through: self.toggle_pins_click_through@,
            show_history: self.show_history@,
        }
    }
}

/// History settings as the application holds them.
#[derive(Debug)]
pub struct HistorySettings {
    pub enabled: bool,
    pub max_entries: usize,
}

/// The value of a [`HistorySettings`], with text as character sequences.
#[verifier::ext_equal]
pub struct HistorySettingsView {
    pub enabled: bool,
    pub max_entries: usize,
}

impl View for HistorySettings {
    type V = HistorySettingsView;

    open spec fn view(&self) -> HistorySettingsView {
        HistorySettingsView {
            enabled: self.enabled,
            max_entries: self.max_entries,
        }
    }
}

/// All settings as the application holds them.
#[derive(Debug)]
pub struct Settings {
    pub interface: InterfaceSettings,
    pub capture: CaptureSettings,
    pub overlay: OverlaySettings,
    pub pin: PinSettings,
    pub ocr: OcrSettings,
    pub translate: TranslateSettings,
    pub hotkeys: HotkeySettings,
    pub history: HistorySettings,
}

/// The value of a [`Settings`], with text as character sequences.
#[verifier::ext_equal]
pub struct SettingsView {
    pub interface: InterfaceSettingsView,
    pub capture: CaptureSettingsView,
    pub overlay: OverlaySettingsView,
    pub pin: PinSettingsView,
    pub ocr: OcrSettingsView,
    pub translate: TranslateSettingsView,
    pub hotkeys: HotkeySettingsView,
    pub history: HistorySettingsView,
}

impl View for Settings {
    type V = SettingsView;

    open spec fn view(&self) -> SettingsView {
        SettingsView {
            interface: self.interface@,
            capture: self.capture@,
            overlay: self.overlay@,
            pin: self.pin@,
            ocr: self.ocr@,
            translate: self.translate@,
            hotkeys: self.hotkeys@,
            history: self.history@,
        }
    }
}

/// The text of an optional value, or the empty text when there is none.
pub open spec fn text_or_empty(value: Option<Seq<char>>) -> Seq<char> {
    match value {
        Some(v) => v,
        None => Seq::<char>::empty(),
    }
}

/// The text of an optional value, or the empty text when there is none.
pub fn string_or_empty(value: &Option<String>) -> (r: String)
    ensures
        r@ == text_or_empty(value.deep_view()),
{
    match value {
        Some(v) => v.clone(),
        None => String::new(),
    }
}

/// `value` limited to `lo..=hi`.
pub open spec fn clamped(value: int, lo: int, hi: int) -> int {
    if value < lo {
        lo
    } else if value > hi {
        hi
    } else {
        value
    }
}

/// The longest capture delay, in milliseconds.
pub const MAX_CAPTURE_DELAY_MS: u64 = 30000;

/// The fewest and most history entries kept.
pub const MIN_HISTORY_ENTRIES: usize = 10;

/// The most history entries kept.
pub const MAX_HISTORY_ENTRIES: usize = 10000;

/// The shortest and longest request timeout of an external OCR service, in milliseconds.
pub const MIN_OCR_TIMEOUT_MS: u64 = 1000;

/// The longest request timeout of an external OCR service, in milliseconds.
pub const MAX_OCR_TIMEOUT_MS: u64 = 120000;

/// The most retries of an external OCR request.
pub const MAX_OCR_RETRY_LIMIT: u8 = 5;

/// The profile a settings page entry stands for: none when its id is blank.
pub open spec fn profile_from_dto(d: OcrProviderProfileDtoView) -> Option<OcrProviderProfileView> {
    if trimmed(d.id).len() == 0 {
        None
    } else {
        Some(
            OcrProviderProfileView {
                id: trimmed(d.id),
                provider: ocr_external_provider_of(d.provider),
                endpoint: non_empty_trimmed(d.endpoint),
                model: non_empty_trimmed(d.model),
                language_hint: non_empty_trimmed(d.language_hint),
                timeout_ms: clamped(
                    d.timeout_ms as int,
                    MIN_OCR_TIMEOUT_MS as int,
                    MAX_OCR_TIMEOUT_MS as int,
                ) as u64,
                retry_limit: if d.retry_limit > MAX_OCR_RETRY_LIMIT {
                    MAX_OCR_RETRY_LIMIT
                } else {
                    d.retry_limit
                },
                privacy_notice_acknowledged: d.privacy_notice_acknowledged,
            },
        )
    }
}

/// The settings page entry of a profile.
pub open spec fn profile_to_dto(p: OcrProviderProfileView) -> OcrProviderProfileDtoView {
    OcrProviderProfileDtoView {
        id: p.id,
        provider: ocr_external_provider_label(p.provider),
        endpoint: text_or_empty(p.endpoint),
        model: text_or_empty(p.model),
        language_hint: text_or_empty(p.language_hint),
        timeout_ms: p.timeout_ms,
        retry_limit: p.retry_limit,
        privacy_notice_acknowledged: p.privacy_notice_acknowledged,
    }
}

/// The profiles that the entries of a settings page stand for, in order, without the
/// entries whose id is blank.
pub open spec fn profiles_from_dtos(ds: Seq<OcrProviderProfileDtoView>) -> Seq<
    OcrProviderProfileView,
> {
    ds.filter_map(|d: OcrProviderProfileDtoView| profile_from_dto(d))
}

impl OcrProviderProfile {
    /// The profile a settings page entry stands for: `None` when its id is blank; the
    /// id and optional texts are trimmed, the timeout kept within 1 to 120 seconds and
    /// the retries within 5.
    pub fn try_from_dto(dto: &OcrProviderProfileDto) -> (r: Option<OcrProviderProfile>)
        ensures
            match r {
                Some(p) => profile_from_dto(dto@) == Some(p@),
                None => profile_from_dto(dto@) is None,
            },
    {
        let id = trim_str_chars(dto.id.as_str());
        if id.len() == 0 {
            return None;
        }
        let timeout_ms = if dto.timeout_ms < MIN_OCR_TIMEOUT_MS {
            MIN_OCR_TIMEOUT_MS
        } else if dto.timeout_ms > MAX_OCR_TIMEOUT_MS {
            MAX_OCR_TIMEOUT_MS
        } else {
            dto.timeout_ms
        };
        let retry_limit = if dto.retry_limit > MAX_OCR_RETRY_LIMIT {
            MAX_OCR_RETRY_LIMIT
        } else {
            dto.retry_limit
        };
        let p = OcrProviderProfile {
            id: string_from_chars(&id),
            provider: parse_ocr_external_provider(dto.provider.as_str()),
            endpoint: empty_to_none(dto.endpoint.clone()),
            model: empty_to_none(dto.model.clone()),
            language_hint: empty_to_none(dto.language_hint.clone()),
            timeout_ms,
            retry_limit,
            privacy_notice_acknowledged: dto.privacy_notice_acknowledged,
        };
        assert(p@ == profile_from_dto(dto@)->0);
        Some(p)
    }
}

impl OcrProviderProfileDto {
    /// The settings page entry of a profile.
    pub fn from_profile(profile: &OcrProviderProfile) -> (r: OcrProviderProfileDto)
        ensures
            r@ == profile_to_dto(profile@),
    {
        OcrProviderProfileDto {
            id: profile.id.clone(),
            provider: ocr_external_provider_name(&profile.provider),
            endpoint: string_or_empty(&profile.endpoint),
            model: string_or_empty(&profile.model),
            language_hint: string_or_empty(&profile.language_hint),
            timeout_ms: profile.timeout_ms,
            retry_limit: profile.retry_limit,
            privacy_notice_acknowledged: profile.privacy_notice_acknowledged,
        }
    }
}

/// The profiles that the entries of a settings page stand for.
fn profiles_from_dto_entries(dtos: &Vec<OcrProviderProfileDto>) -> (r: Vec<OcrProviderProfile>)
    ensures
        r@.map_values(|x: OcrProviderProfile| x@) == profiles_from_dtos(
            dtos@.map_values(|x: OcrProviderProfileDto| x@),
        ),
{
    let ghost ds = dtos@.map_values(|x: OcrProviderProfileDto| x@);
    let mut r: Vec<OcrProviderProfile> = Vec::new();
    let mut i: usize = 0;
    while i < dtos.len()
        invariant
            i <= dtos.len(),
            ds == dtos@.map_values(|x: OcrProviderProfileDto| x@),
            r@.map_values(|x: OcrProviderProfile| x@) == profiles_from_dtos(ds.take(i as int)),
        decreases dtos.len() - i,
    {
        let ghost before = r@.map_values(|x: OcrProviderProfile| x@);
        assert(ds.take(i + 1).drop_last() =~= ds.take(i as int));
        assert(ds.take(i + 1).last() == dtos@[i as int]@);
        match OcrProviderProfile::try_from_dto(&dtos[i]) {
            Some(p) => {
                r.push(p);
                assert(r@.map_values(|x: OcrProviderProfile| x@) =~= before + seq![p@]);
            },
            None => {},
        }
        i = i + 1;
    }
    assert(ds.take(dtos.len() as int) =~= ds);
    r
}

/// The settings page entries of a list of profiles.
fn profile_entries(profiles: &Vec<OcrProviderProfile>) -> (r: Vec<OcrProviderProfileDto>)
    ensures
        r@.map_values(|x: OcrProviderProfileDto| x@) == profiles@.map_values(
            |x: OcrProviderProfile| profile_to_dto(x@),
        ),
{
    let mut r: Vec<OcrProviderProfileDto> = Vec::new();
    let mut i: usize = 0;
    while i < profiles.len()
        invariant
            i <= profiles.len(),
            r@.map_values(|x: OcrProviderProfileDto| x@) == profiles@.take(i as int).map_values(
                |x: OcrProviderProfile| profile_to_dto(x@),
            ),
        decreases profiles.len() - i,
    {
        let d = OcrProviderProfileDto::from_profile(&profiles[i]);
        let ghost before = r@;
        r.push(d);
        assert(profiles@.take(i + 1) =~= profiles@.take(i as int).push(profiles@[i as int]));
        assert(r@ =~= before.push(d));
        assert(r@.map_values(|x: OcrProviderProfileDto| x@) =~= before.map_values(
            |x: OcrProviderProfileDto| x@,
        ).push(d@));
        assert(profiles@.take(i + 1).map_values(|x: OcrProviderProfile| profile_to_dto(x@))
            =~= profiles@.take(i as int).map_values(
            |x: OcrProviderProfile| profile_to_dto(x@),
        ).push(profile_to_dto(profiles@[i as int]@)));
        i = i + 1;
    }
    assert(profiles@.take(profiles.len() as int) =~= profiles@);
    r
}

/// The OCR settings that a settings page stands for.
pub open spec fn ocr_settings_from_dto(d: OcrSettingsDtoView) -> OcrSettingsView {
    OcrSettingsView {
        mode: ocr_mode_of(d.mode),
        provider: ocr_provider_of(d.provider),
        language_hint: non_empty_trimmed(d.language_hint),
        auto_run_after_capture: d.auto_run_after_capture,
        default_model_id: non_empty_trimmed(d.default_model_id),
        provider_profiles: profiles_from_dtos(d.provider_profiles),
        default_provider_profile_id: non_empty_trimmed(d.default_provider_profile_id),
    }
}

/// The settings page form of OCR settings.
pub open spec fn ocr_settings_to_dto(s: OcrSettingsView) -> OcrSettingsDtoView {
    OcrSettingsDtoView {
        mode: ocr_mode_label(s.mode),
        provider: ocr_provider_label(s.provider),
        language_hint: text_or_empty(s.language_hint),
        auto_run_after_capture: s.auto_run_after_capture,
        default_model_id: text_or_empty(s.default_model_id),
        provider_profiles: s.provider_profiles.map_values(
            |p: OcrProviderProfileView| profile_to_dto(p),
        ),
        default_provider_profile_id: text_or_empty(s.default_provider_profile_id),
    }
}

/// The capture settings that a settings page stands for.
pub open spec fn settings_from_dto_capture(d: CaptureSettingsDtoView) -> CaptureSettingsView {
    CaptureSettingsView {
        include_cursor: d.include_cursor,
        auto_copy_to_clipboard: d.auto_copy_to_clipboard,
        freeze_screen_on_capture: d.freeze_screen_on_capture,
        show_size_label: d.show_size_label,
        show_toolbar: d.show_toolbar,
        capture_delay_ms: if d.capture_delay_ms > MAX_CAPTURE_DELAY_MS {
            MAX_CAPTURE_DELAY_MS
        } else {
            d.capture_delay_ms
        },
        border_color: d.border_color,
        completion_action: completion_action_of(d.completion_action),
    }
}

/// The translation settings that a settings page stands for.
pub open spec fn settings_from_dto_translation(d: TranslationSettingsDtoView) -> TranslateSettingsView {
    TranslateSettingsView {
        provider: translate_provider_of(d.provider),
        target_language: d.target_language,
        auto_translate_after_ocr: d.auto_translate_after_ocr,
        default_model_id: non_empty_trimmed(d.default_model_id),
    }
}

/// The settings that a settings page stands for: languages normalized, names read as the
/// values they stand for, blank optional texts dropped and numbers kept within bounds.
pub open spec fn settings_from_dto(d: AppSettingsDtoView) -> SettingsView {
    SettingsView {
        interface: InterfaceSettingsView { language: normalized_language(d.interface.language) },
        capture: settings_from_dto_capture(d.capture),
        overlay: OverlaySettingsView {
            show_magnifier: d.overlay.show_magnifier,
            click_through_pins: d.pin.click_through,
        },
        pin: PinSettingsView {
            click_through: d.pin.click_through,
            always_on_top: d.pin.always_on_top,
            remember_position: d.pin.remember_position,
            show_ocr_text: d.pin.show_ocr_text,
            show_translation_text: d.pin.show_translation_text,
        },
        ocr: ocr_settings_from_dto(d.ocr),
        translate: settings_from_dto_translation(d.translation),
        hotkeys: HotkeySettingsView {
            capture: d.hotkeys.capture,
            pin_selection: d.hotkeys.pin_selection,
            toggle_pins_click_through: d.hotkeys.toggle_pins_click_through,
            show_history: d.hotkeys.show_history,
        },
        history: HistorySettingsView {
            enabled: d.history.enabled,
            max_entries: clamped(
                d.history.max_entries as int,
                MIN_HISTORY_ENTRIES as int,
                MAX_HISTORY_ENTRIES as int,
            ) as usize,
        },
    }
}

/// The settings page form of the settings.
pub open spec fn settings_to_dto(s: SettingsView) -> AppSettingsDtoView {
    AppSettingsDtoView {
        interface: InterfaceSettingsDtoView { language: normalized_language(s.interface.language) },
        capture: CaptureSettingsDtoView {
            include_cursor: s.capture.include_cursor,
            auto_copy_to_clipboard: s.capture.auto_copy_to_clipboard,
            freeze_screen_on_capture: s.capture.freeze_screen_on_capture,
            show_size_label: s.capture.show_size_label,
            show_toolbar: s.capture.show_toolbar,
            capture_delay_ms: s.capture.capture_delay_ms,
            border_color: s.capture.border_color,
            completion_action: completion_action_label(s.capture.completion_action),
        },
        overlay: OverlaySettingsDtoView { show_magnifier: s.overlay.show_magnifier },
        pin: PinSettingsDtoView {
            click_through: s.pin.click_through,
            always_on_top: s.pin.always_on_top,
            remember_position: s.pin.remember_position,
            show_ocr_text: s.pin.show_ocr_text,
            show_translation_text: s.pin.show_translation_text,
        },
        ocr: ocr_settings_to_dto(s.ocr),
        translation: TranslationSettingsDtoView {
            provider: translate_provider_label_of(s.translate.provider),
            target_language: s.translate.target_language,
            auto_translate_after_ocr: s.translate.auto_translate_after_ocr,
            default_model_id: text_or_empty(s.translate.default_model_id),
        },
        hotkeys: HotkeySettingsDtoView {
            capture: s.hotkeys.capture,
            pin_selection: s.hotkeys.pin_selection,
            toggle_pins_click_through: s.hotkeys.toggle_pins_click_through,
            show_history: s.hotkeys.show_history,
        },
        history: HistorySettingsDtoView {
            enabled: s.history.enabled,
            max_entries: s.history.max_entries,
        },
    }
}

impl OcrSettings {
    /// The OCR settings that a settings page stands for.
    pub fn from_dto(dto: &OcrSettingsDto) -> (r: OcrSettings)
        ensures
            r@ == ocr_settings_from_dto(dto@),
    {
        OcrSettings {
            mode: parse_ocr_mode(dto.mode.as_str()),
            provider: parse_ocr_provider(dto.provider.as_str()),
            language_hint: empty_to_none(dto.language_hint.clone()),
            auto_run_after_capture: dto.auto_run_after_capture,
            default_model_id: empty_to_none(dto.default_model_id.clone()),
            provider_profiles: profiles_from_dto_entries(&dto.provider_profiles),
            default_provider_profile_id: empty_to_none(dto.default_provider_profile_id.clone()),
        }
    }
}

impl OcrSettingsDto {
    /// The settings page form of OCR settings.
    pub fn from_settings(settings: &OcrSettings) -> (r: OcrSettingsDto)
        ensures
            r@ == ocr_settings_to_dto(settings@),
    {
        let profiles = profile_entries(&settings.provider_profiles);
        let r = OcrSettingsDto {
            mode: ocr_mode_name(&settings.mode),
            provider: ocr_provider_name(&settings.provider),
            language_hint: string_or_empty(&settings.language_hint),
            auto_run_after_capture: settings.auto_run_after_capture,
            default_model_id: string_or_empty(&settings.default_model_id),
            provider_profiles: profiles,
            default_provider_profile_id: string_or_empty(&settings.default_provider_profile_id),
        };
        assert(settings@.provider_profiles.map_values(
            |p: OcrProviderProfileView| profile_to_dto(p),
        ) =~= settings.provider_profiles@.map_values(|x: OcrProviderProfile| profile_to_dto(x@)));
        r
    }
}

impl CaptureSettings {
    /// The capture settings that a settings page stands for.
    pub fn from_dto(dto: &CaptureSettingsDto) -> (r: CaptureSettings)
        ensures
            r@ == settings_from_dto_capture(dto@),
    {
        let capture_delay_ms = if dto.capture_delay_ms > MAX_CAPTURE_DELAY_MS {
            MAX_CAPTURE_DELAY_MS
        } else {
            dto.capture_delay_ms
        };
        CaptureSettings {
            include_cursor: dto.include_cursor,
            auto_copy_to_clipboard: dto.auto_copy_to_clipboard,
            freeze_screen_on_capture: dto.freeze_screen_on_capture,
            show_size_label: dto.show_size_label,
            show_toolbar: dto.show_toolbar,
            capture_delay_ms,
            border_color: dto.border_color.clone(),
            completion_action: parse_completion_action(dto.completion_action.as_str()),
        }
    }
}

impl TranslateSettings {
    /// The translation settings that a settings page stands for.
    pub fn from_dto(dto: &TranslationSettingsDto) -> (r: TranslateSettings)
        ensures
            r@ == settings_from_dto_translation(dto@),
    {
        TranslateSettings {
            provider: parse_translate_provider(dto.provider.as_str()),
            target_language: dto.target_language.clone(),
            auto_translate_after_ocr: dto.auto_translate_after_ocr,
            default_model_id: empty_to_none(dto.default_model_id.clone()),
        }
    }
}

impl HotkeySettings {
    /// The hotkey settings that a settings page stands for.
    pub fn from_dto(dto: &HotkeySettingsDto) -> (r: HotkeySettings)
        ensures
            r@.capture == dto@.capture,
            r@.pin_selection == dto@.pin_selection,
            r@.toggle_pins_click_through == dto@.toggle_pins_click_through,
            r@.show_history == dto@.show_history,
    {
        HotkeySettings {
            capture: dto.capture.clone(),
            pin_selection: dto.pin_selection.clone(),
            toggle_pins_click_through: dto.toggle_pins_click_through.clone(),
            show_history: dto.show_history.clone(),
        }
    }
}

impl Settings {
    /// The settings that a settings page stands for.
    pub fn from_dto(dto: &AppSettingsDto) -> (r: Settings)
        ensures
            r@ == settings_from_dto(dto@),
    {
        let max_entries = if dto.history.max_entries < MIN_HISTORY_ENTRIES {
            MIN_HISTORY_ENTRIES
        } else if dto.history.max_entries > MAX_HISTORY_ENTRIES {
            MAX_HISTORY_ENTRIES
        } else {
            dto.history.max_entries
        };
        let r = Settings {
            interface: InterfaceSettings {
                language: normalize_language(dto.interface.language.as_str()),
            },
            capture: CaptureSettings::from_dto(&dto.capture),
            overlay: OverlaySettings {
                show_magnifier: dto.overlay.show_magnifier,
                click_through_pins: dto.pin.click_through,
            },
            pin: PinSettings {
                click_through: dto.pin.click_through,
                always_on_top: dto.pin.always_on_top,
                remember_position: dto.pin.remember_position,
                show_ocr_text: dto.pin.show_ocr_text,
                show_translation_text: dto.pin.show_translation_text,
            },
            ocr: OcrSettings::from_dto(&dto.ocr),
            translate: TranslateSettings::from_dto(&dto.translation),
            hotkeys: HotkeySettings::from_dto(&dto.hotkeys),
            history: HistorySettings { enabled: dto.history.enabled, max_entries },
        };
        assert(r@.hotkeys =~= settings_from_dto(dto@).hotkeys);
        r
    }
}

impl AppSettingsDto {
    /// The settings page form of the settings.
    pub fn from_settings(settings: &Settings) -> (r: AppSettingsDto)
        ensures
            r@ == settings_to_dto(settings@),
    {
        AppSettingsDto {
            interface: InterfaceSettingsDto {
                language: normalize_language(settings.interface.language.as_str()),
            },
            capture: CaptureSettingsDto {
                include_cursor: settings.capture.include_cursor,
                auto_copy_to_clipboard: settings.capture.auto_copy_to_clipboard,
                freeze_screen_on_capture: settings.capture.freeze_screen_on_capture,
                show_size_label: settings.capture.show_size_label,
                show_toolbar: settings.capture.show_toolbar,
                capture_delay_ms: settings.capture.capture_delay_ms,
                border_color: settings.capture.border_color.clone(),
                completion_action: completion_action_name(&settings.capture.completion_action),
            },
            overlay: OverlaySettingsDto { show_magnifier: settings.overlay.show_magnifier },
            pin: PinSettingsDto {
                click_through: settings.pin.click_through,
                always_on_top: settings.pin.always_on_top,
                remember_position: settings.pin.remember_position,
                show_ocr_text: settings.pin.show_ocr_text,
                show_translation_text: settings.pin.show_translation_text,
            },
            ocr: OcrSettingsDto::from_settings(&settings.ocr),
            translation: TranslationSettingsDto {
                provider: translate_provider_name(&settings.translate.provider),
                target_language: settings.translate.target_language.clone(),
                auto_translate_after_ocr: settings.translate.auto_translate_after_ocr,
                default_model_id: string_or_empty(&settings.translate.default_model_id),
            },
            hotkeys: HotkeySettingsDto {
                capture: settings.hotkeys.capture.clone(),
                pin_selection: settings.hotkeys.pin_selection.clone(),
                toggle_pins_click_through: settings.hotkeys.toggle_pins_click_through.clone(),
                show_history: settings.hotkeys.show_history.clone(),
            },
            history: HistorySettingsDto {
                enabled: settings.history.enabled,
                max_entries: settings.history.max_entries,
            },
        }
    }
}

/// Whether an optional text is absent, or present, non-empty and without surrounding
/// white space: the form in which the settings hold optional texts.
pub open spec fn is_stored_text(value: Option<Seq<char>>) -> bool {
    match value {
        Some(v) => v.len() > 0 && is_trimmed(v),
        None => true,
    }
}

proof fn lemma_optional_text_round_trip(v: Seq<char>)
    ensures
        is_stored_text(non_empty_trimmed(v)),
        non_empty_trimmed(text_or_empty(non_empty_trimmed(v))) == non_empty_trimmed(v),
{
    lemma_trimmed(v);
    let t = trimmed(v);
    if t.len() > 0 {
        lemma_trimmed(t);
    } else {
        lemma_trimmed(Seq::<char>::empty());
    }
}

proof fn lemma_stored_text_round_trip(value: Option<Seq<char>>)
    requires
        is_stored_text(value),
    ensures
        non_empty_trimmed(text_or_empty(value)) == value,
{
    match value {
        Some(v) => {
            lemma_trimmed(v);
        },
        None => {
            lemma_trimmed(Seq::<char>::empty());
        },
    }
}

/// Whether a profile is in the form in which the settings hold profiles.
pub open spec fn is_stored_profile(p: OcrProviderProfileView) -> bool {
    &&& p.id.len() > 0
    &&& is_trimmed(p.id)
    &&& is_stored_text(p.endpoint)
    &&& is_stored_text(p.model)
    &&& is_stored_text(p.language_hint)
    &&& MIN_OCR_TIMEOUT_MS <= p.timeout_ms <= MAX_OCR_TIMEOUT_MS
    &&& p.retry_limit <= MAX_OCR_RETRY_LIMIT
}

proof fn lemma_profile_from_dto_is_stored(d: OcrProviderProfileDtoView)
    ensures
        profile_from_dto(d) matches Some(p) ==> is_stored_profile(p),
{
    lemma_trimmed(d.id);
    lemma_optional_text_round_trip(d.endpoint);
    lemma_optional_text_round_trip(d.model);
    lemma_optional_text_round_trip(d.language_hint);
}

proof fn lemma_stored_profile_round_trip(p: OcrProviderProfileView)
    requires
        is_stored_profile(p),
    ensures
        profile_from_dto(profile_to_dto(p)) == Some(p),
{
    lemma_trimmed(p.id);
    ocr_external_provider_name_round_trip(p.provider);
    lemma_stored_text_round_trip(p.endpoint);
    lemma_stored_text_round_trip(p.model);
    lemma_stored_text_round_trip(p.language_hint);
    assert(profile_from_dto(profile_to_dto(p))->0 =~= p);
}

proof fn lemma_profiles_from_dtos_stored(ds: Seq<OcrProviderProfileDtoView>)
    ensures
        forall|i: int|
            0 <= i < profiles_from_dtos(ds).len() ==> is_stored_profile(
                #[trigger] profiles_from_dtos(ds)[i],
            ),
    decreases ds.len(),
{
    if ds.len() > 0 {
        lemma_profiles_from_dtos_stored(ds.drop_last());
        lemma_profile_from_dto_is_stored(ds.last());
        assert(profiles_from_dtos(ds) == match profile_from_dto(ds.last()) {
            Some(p) => profiles_from_dtos(ds.drop_last()) + seq![p],
            None => profiles_from_dtos(ds.drop_last()),
        });
    }
}

proof fn lemma_profiles_round_trip(ps: Seq<OcrProviderProfileView>)
    requires
        forall|i: int| 0 <= i < ps.len() ==> is_stored_profile(#[trigger] ps[i]),
    ensures
        profiles_from_dtos(ps.map_values(|p: OcrProviderProfileView| profile_to_dto(p))) == ps,
    decreases ps.len(),
{
    let ds = ps.map_values(|p: OcrProviderProfileView| profile_to_dto(p));
    if ps.len() > 0 {
        assert(ds.drop_last() =~= ps.drop_last().map_values(
            |p: OcrProviderProfileView| profile_to_dto(p),
        ));
        lemma_profiles_round_trip(ps.drop_last());
        lemma_stored_profile_round_trip(ps.last());
        assert(ds.last() == profile_to_dto(ps.last()));
        assert(profiles_from_dtos(ds) =~= ps.drop_last() + seq![ps.last()]);
        assert(ps.drop_last() + seq![ps.last()] =~= ps);
    } else {
        assert(ds =~= Seq::<OcrProviderProfileDtoView>::empty());
        assert(profiles_from_dtos(ds) =~= ps);
    }
}

/// Whether a translation provider name stands for an experimental runtime, whose stored
/// name does not read back as the same provider.
pub open spec fn is_experimental_translate_name(value: Seq<char>) -> bool {
    value == "experimental-rust-bert"@ || value == "experimental-candle"@
}

/// Settings saved from the settings page and loaded again are the settings that were
/// saved: writing the settings page form of the settings the application holds and
/// reading it back changes nothing, except for an experimental translation runtime,
/// which reads back as local CTranslate2.
pub proof fn settings_survive_save_and_reload(d: AppSettingsDtoView)
    requires
        !is_experimental_translate_name(d.translation.provider),
    ensures
        settings_from_dto(settings_to_dto(settings_from_dto(d))) == settings_from_dto(d),
{
    let s = settings_from_dto(d);
    let s2 = settings_from_dto(settings_to_dto(s));
    normalized_language_is_stable(d.interface.language);
    completion_action_name_round_trip(s.capture.completion_action);
    ocr_mode_name_round_trip(s.ocr.mode);
    ocr_provider_name_round_trip(s.ocr.provider);
    translate_provider_name_round_trip(s.translate.provider);
    lemma_optional_text_round_trip(d.ocr.language_hint);
    lemma_optional_text_round_trip(d.ocr.default_model_id);
    lemma_optional_text_round_trip(d.ocr.default_provider_profile_id);
    lemma_optional_text_round_trip(d.translation.default_model_id);
    lemma_profiles_from_dtos_stored(d.ocr.provider_profiles);
    lemma_profiles_round_trip(s.ocr.provider_profiles);
    assert(s2.ocr =~= s.ocr);
    assert(s2.translate =~= s.translate);
    assert(s2.capture =~= s.capture);
    assert(s2 =~= s);
}

/// Whether a profile entry of a settings page is in the form the settings page is
/// written in: a trimmed, non-blank id, a service name that reads back as itself, trimmed
/// optional texts, and numbers within their bounds.
pub open spec fn is_written_profile_entry(d: OcrProviderProfileDtoView) -> bool {
    &&& d.id.len() > 0
    &&& is_trimmed(d.id)
    &&& ocr_external_provider_label(ocr_external_provider_of(d.provider)) == d.provider
    &&& is_trimmed(d.endpoint)
    &&& is_trimmed(d.model)
    &&& is_trimmed(d.language_hint)
    &&& MIN_OCR_TIMEOUT_MS <= d.timeout_ms <= MAX_OCR_TIMEOUT_MS
    &&& d.retry_limit <= MAX_OCR_RETRY_LIMIT
}

/// Whether a settings page is in the form the settings page is written in: its language
/// is normalized, each name is one that is read as some value and written back as
/// itself, numbers are within the bounds reading keeps them in, optional texts are
/// trimmed, and every profile entry is in written form.
pub open spec fn is_written_settings_page(d: AppSettingsDtoView) -> bool {
    &&& normalized_language(d.interface.language) == d.interface.language
    &&& d.capture.capture_delay_ms <= MAX_CAPTURE_DELAY_MS
    &&& completion_action_label(completion_action_of(d.capture.completion_action))
        == d.capture.completion_action
    &&& ocr_mode_label(ocr_mode_of(d.ocr.mode)) == d.ocr.mode
    &&& ocr_provider_label(ocr_provider_of(d.ocr.provider)) == d.ocr.provider
    &&& is_trimmed(d.ocr.language_hint)
    &&& is_trimmed(d.ocr.default_model_id)
    &&& is_trimmed(d.ocr.default_provider_profile_id)
    &&& forall|i: int|
        0 <= i < d.ocr.provider_profiles.len() ==> is_written_profile_entry(
            #[trigger] d.ocr.provider_profiles[i],
        )
    &&& translate_provider_label_of(translate_provider_of(d.translation.provider))
        == d.translation.provider
    &&& is_trimmed(d.translation.default_model_id)
    &&& MIN_HISTORY_ENTRIES <= d.history.max_entries <= MAX_HISTORY_ENTRIES
}

proof fn lemma_trimmed_text_round_trip(v: Seq<char>)
    requires
        is_trimmed(v),
    ensures
        text_or_empty(non_empty_trimmed(v)) == v,
{
    lemma_trimmed(v);
}

proof fn lemma_written_profile_round_trip(d: OcrProviderProfileDtoView)
    requires
        is_written_profile_entry(d),
    ensures
        profile_from_dto(d) matches Some(p) && profile_to_dto(p) == d,
{
    lemma_trimmed(d.id);
    lemma_trimmed_text_round_trip(d.endpoint);
    lemma_trimmed_text_round_trip(d.model);
    lemma_trimmed_text_round_trip(d.language_hint);
    assert(profile_to_dto(profile_from_dto(d)->0) =~= d);
}

proof fn lemma_written_profiles_round_trip(ds: Seq<OcrProviderProfileDtoView>)
    requires
        forall|i: int| 0 <= i < ds.len() ==> is_written_profile_entry(#[trigger] ds[i]),
    ensures
        profiles_from_dtos(ds).map_values(|p: OcrProviderProfileView| profile_to_dto(p)) == ds,
    decreases ds.len(),
{
    if ds.len() > 0 {
        let front = ds.drop_last();
        assert forall|i: int| 0 <= i < front.len() implies is_written_profile_entry(
            #[trigger] front[i],
        ) by {
            assert(front[i] == ds[i]);
        }
        lemma_written_profiles_round_trip(front);
        assert(is_written_profile_entry(ds[ds.len() - 1]));
        lemma_written_profile_round_trip(ds.last());
        let p = profile_from_dto(ds.last())->0;
        assert(profiles_from_dtos(ds) == profiles_from_dtos(front) + seq![p]);
        assert(profiles_from_dtos(ds).map_values(|q: OcrProviderProfileView| profile_to_dto(q))
            =~= profiles_from_dtos(front).map_values(
            |q: OcrProviderProfileView| profile_to_dto(q),
        ) + seq![profile_to_dto(p)]);
        assert(front + seq![ds.last()] =~= ds);
    } else {
        assert(profiles_from_dtos(ds) =~= Seq::<OcrProviderProfileView>::empty());
        assert(profiles_from_dtos(ds).map_values(|q: OcrProviderProfileView| profile_to_dto(q))
            =~= ds);
    }
}

/// A settings page in the form the settings page is written in is written back
/// unchanged: reading it into settings and writing those settings gives the same page.
pub proof fn written_settings_page_reads_back(d: AppSettingsDtoView)
    requires
        is_written_settings_page(d),
    ensures
        settings_to_dto(settings_from_dto(d)) == d,
{
    let s = settings_from_dto(d);
    let e = settings_to_dto(s);
    lemma_trimmed_text_round_trip(d.ocr.language_hint);
    lemma_trimmed_text_round_trip(d.ocr.default_model_id);
    lemma_trimmed_text_round_trip(d.ocr.default_provider_profile_id);
    lemma_trimmed_text_round_trip(d.translation.default_model_id);
    lemma_written_profiles_round_trip(d.ocr.provider_profiles);
    assert(e.ocr.provider_profiles =~= d.ocr.provider_profiles);
    assert(e.interface =~= d.interface);
    assert(e.capture =~= d.capture);
    assert(e.overlay =~= d.overlay);
    assert(e.pin =~= d.pin);
    assert(e.ocr =~= d.ocr);
    assert(e.translation =~= d.translation);
    assert(e.hotkeys =~= d.hotkeys);
    assert(e.history =~= d.history);
    assert(e =~= d);
}

} // verus!
