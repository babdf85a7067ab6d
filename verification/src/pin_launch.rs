use vstd::prelude::*;

use crate::cli::{
    apply_flag, bool_of, cli_args_of, default_cli_args, flag_of, flag_string, flag_text,
    flag_text_is_read_back, non_empty, parse_from, takes_value, CliArgsView, FloatArg, OverlayFlag,
    OverlayRunMode,
};
use crate::launcher::{bool_string, bool_text};
use crate::settings::{string_or_empty, text_or_empty};

verus! {

/// What a pin window is started with. Float options are given as the texts the overlay
/// writes for them.
#[derive(Debug)]
pub struct PinWindowLaunch {
    pub image_path: String,
    pub x: String,
    pub y: String,
    pub width: String,
    pub height: String,
    pub opacity: String,
    pub zoom_step: String,
    pub min_width: String,
    pub min_height: String,
    pub always_on_top: bool,
    pub ocr_provider: String,
    pub ocr_language_hint: Option<String>,
    pub ocr_default_model_id: Option<String>,
    pub ocr_models_registry: Option<String>,
    pub translate_provider: String,
    pub translate_target_language: String,
    pub translate_segmentation_mode: String,
    pub translate_default_model_id: Option<String>,
    pub ocr_text_font_height_ratio: String,
    pub ocr_text_min_font_size: String,
    pub ocr_text_max_font_size: String,
    pub ocr_text_padding_x: String,
    pub ocr_text_padding_y: String,
    pub ocr_text_interaction_padding_x: String,
    pub ocr_text_interaction_padding_y: String,
}

/// The command line a pin window is started with: pin mode, the image, the window's
/// place, size and look, and its OCR, translation and text-overlay options; an absent
/// text is written empty.
pub open spec fn pin_args_of(l: PinWindowLaunch) -> Seq<Seq<char>> {
    seq![
        flag_text(OverlayFlag::Pin),
        flag_text(OverlayFlag::Image),
        l.image_path@,
        flag_text(OverlayFlag::Float(FloatArg::X)),
        l.x@,
        flag_text(OverlayFlag::Float(FloatArg::Y)),
        l.y@,
        flag_text(OverlayFlag::Float(FloatArg::Width)),
        l.width@,
        flag_text(OverlayFlag::Float(FloatArg::Height)),
        l.height@,
        flag_text(OverlayFlag::Float(FloatArg::PinOpacity)),
        l.opacity@,
        flag_text(OverlayFlag::Float(FloatArg::PinZoomStep)),
        l.zoom_step@,
        flag_text(OverlayFlag::Float(FloatArg::PinMinWidth)),
        l.min_width@,
        flag_text(OverlayFlag::Float(FloatArg::PinMinHeight)),
        l.min_height@,
        flag_text(OverlayFlag::PinAlwaysOnTop),
        bool_text(l.always_on_top),
        flag_text(OverlayFlag::OcrProvider),
        l.ocr_provider@,
        flag_text(OverlayFlag::OcrLanguageHint),
        text_or_empty(l.ocr_language_hint.deep_view()),
        flag_text(OverlayFlag::OcrDefaultModelId),
        text_or_empty(l.ocr_default_model_id.deep_view()),
        flag_text(OverlayFlag::OcrModelsRegistry),
        text_or_empty(l.ocr_models_registry.deep_view()),
        "--translate-provider"@,
        l.translate_provider@,
        "--translate-target-language"@,
        l.translate_target_language@,
        "--translate-segmentation-mode"@,
        l.translate_segmentation_mode@,
        "--translate-default-model-id"@,
        text_or_empty(l.translate_default_model_id.deep_view()),
        flag_text(OverlayFlag::Float(FloatArg::OcrTextFontHeightRatio)),
        l.ocr_text_font_height_ratio@,
        flag_text(OverlayFlag::Float(FloatArg::OcrTextMinFontSize)),
        l.ocr_text_min_font_size@,
        flag_text(OverlayFlag::Float(FloatArg::OcrTextMaxFontSize)),
        l.ocr_text_max_font_size@,
        flag_text(OverlayFlag::Float(FloatArg::OcrTextPaddingX)),
        l.ocr_text_padding_x@,
        flag_text(OverlayFlag::Float(FloatArg::OcrTextPaddingY)),
        l.ocr_text_padding_y@,
        flag_text(OverlayFlag::Float(FloatArg::OcrTextInteractionPaddingX)),
        l.ocr_text_interaction_padding_x@,
        flag_text(OverlayFlag::Float(FloatArg::OcrTextInteractionPaddingY)),
        l.ocr_text_interaction_padding_y@,
    ]
}

/// The command line a pin window is started with.
pub fn pin_window_args(launch: &PinWindowLaunch) -> (r: Vec<String>)
    ensures
        r@.map_values(|a: String| a@) == pin_args_of(*launch),
{
    let mut r: Vec<String> = Vec::new();
    r.push(flag_string(OverlayFlag::Pin));
    r.push(flag_string(OverlayFlag::Image));
    r.push(launch.image_path.clone());
    r.push(flag_string(OverlayFlag::Float(FloatArg::X)));
    r.push(launch.x.clone());
    r.push(flag_string(OverlayFlag::Float(FloatArg::Y)));
    r.push(launch.y.clone());
    r.push(flag_string(OverlayFlag::Float(FloatArg::Width)));
    r.push(launch.width.clone());
    r.push(flag_string(OverlayFlag::Float(FloatArg::Height)));
    r.push(launch.height.clone());
    r.push(flag_string(OverlayFlag::Float(FloatArg::PinOpacity)));
    r.push(launch.opacity.clone());
    r.push(flag_string(OverlayFlag::Float(FloatArg::PinZoomStep)));
    r.push(launch.zoom_step.clone());
    r.push(flag_string(OverlayFlag::Float(FloatArg::PinMinWidth)));
    r.push(launch.min_width.clone());
    r.push(flag_string(OverlayFlag::Float(FloatArg::PinMinHeight)));
    r.push(launch.min_height.clone());
    r.push(flag_string(OverlayFlag::PinAlwaysOnTop));
    r.push(bool_string(launch.always_on_top));
    r.push(flag_string(OverlayFlag::OcrProvider));
    r.push(launch.ocr_provider.clone());
    r.push(flag_string(OverlayFlag::OcrLanguageHint));
    r.push(string_or_empty(&launch.ocr_language_hint));
    r.push(flag_string(OverlayFlag::OcrDefaultModelId));
    r.push(string_or_empty(&launch.ocr_default_model_id));
    r.push(flag_string(OverlayFlag::OcrModelsRegistry));
    r.push(string_or_empty(&launch.ocr_models_registry));
    r.push("--translate-provider".to_owned());
    r.push(launch.translate_provider.clone());
    r.push("--translate-target-language".to_owned());
    r.push(launch.translate_target_language.clone());
    r.push("--translate-segmentation-mode".to_owned());
    r.push(launch.translate_segmentation_mode.clone());
    r.push("--translate-default-model-id".to_owned());
    r.push(string_or_empty(&launch.translate_default_model_id));
    r.push(flag_string(OverlayFlag::Float(FloatArg::OcrTextFontHeightRatio)));
    r.push(launch.ocr_text_font_height_ratio.clone());
    r.push(flag_string(OverlayFlag::Float(FloatArg::OcrTextMinFontSize)));
    r.push(launch.ocr_text_min_font_size.clone());
    r.push(flag_string(OverlayFlag::Float(FloatArg::OcrTextMaxFontSize)));
    r.push(launch.ocr_text_max_font_size.clone());
    r.push(flag_string(OverlayFlag::Float(FloatArg::OcrTextPaddingX)));
    r.push(launch.ocr_text_padding_x.clone());
    r.push(flag_string(OverlayFlag::Float(FloatArg::OcrTextPaddingY)));
    r.push(launch.ocr_text_padding_y.clone());
    r.push(flag_string(OverlayFlag::Float(FloatArg::OcrTextInteractionPaddingX)));
    r.push(launch.ocr_text_interaction_padding_x.clone());
    r.push(flag_string(OverlayFlag::Float(FloatArg::OcrTextInteractionPaddingY)));
    r.push(launch.ocr_text_interaction_padding_y.clone());
    assert(r@.map_values(|a: String| a@) =~= pin_args_of(*launch));
    r
}

/// What a pin window makes of the command line it is started with: pin mode, the image,
/// the always-on-top switch and the OCR options as given (blank texts as absent), the
/// float options in the order they were written, and every other option at its default.
/// The translation options are not options of the overlay and are passed over.
pub open spec fn pin_view(l: PinWindowLaunch) -> CliArgsView {
    CliArgsView {
        mode: OverlayRunMode::Pin,
        image: Some(l.image_path@),
        pin_always_on_top: l.always_on_top,
        ocr_provider: l.ocr_provider@,
        ocr_language_hint: non_empty(l.ocr_language_hint.deep_view()),
        ocr_default_model_id: non_empty(l.ocr_default_model_id.deep_view()),
        ocr_models_registry: non_empty(l.ocr_models_registry.deep_view()),
        float_values: seq![
            (FloatArg::X, l.x@),
            (FloatArg::Y, l.y@),
            (FloatArg::Width, l.width@),
            (FloatArg::Height, l.height@),
            (FloatArg::PinOpacity, l.opacity@),
            (FloatArg::PinZoomStep, l.zoom_step@),
            (FloatArg::PinMinWidth, l.min_width@),
            (FloatArg::PinMinHeight, l.min_height@),
            (FloatArg::OcrTextFontHeightRatio, l.ocr_text_font_height_ratio@),
            (FloatArg::OcrTextMinFontSize, l.ocr_text_min_font_size@),
            (FloatArg::OcrTextMaxFontSize, l.ocr_text_max_font_size@),
            (FloatArg::OcrTextPaddingX, l.ocr_text_padding_x@),
            (FloatArg::OcrTextPaddingY, l.ocr_text_padding_y@),
            (FloatArg::OcrTextInteractionPaddingX, l.ocr_text_interaction_padding_x@),
            (FloatArg::OcrTextInteractionPaddingY, l.ocr_text_interaction_padding_y@),
        ],
        ..default_cli_args()
    }
}

proof fn lemma_value_step(args: Seq<Seq<char>>, i: int, m: CliArgsView, flag: OverlayFlag)
    requires
        0 <= i,
        i + 1 < args.len(),
        args[i] == flag_text(flag),
        takes_value(flag),
    ensures
        parse_from(args, i, m) == parse_from(args, i + 2, apply_flag(m, flag, Some(args[i + 1]))),
{
    flag_text_is_read_back(flag);
}

proof fn lemma_skip_step(args: Seq<Seq<char>>, i: int, m: CliArgsView)
    requires
        0 <= i < args.len(),
        flag_of(args[i]) is None,
    ensures
        parse_from(args, i, m) == parse_from(args, i + 1, m),
{
}

proof fn lemma_unknown_translate_provider()
    ensures
        flag_of("--translate-provider"@) is None,
{
    reveal(flag_of);
    reveal_strlit("--translate-provider");
    reveal_strlit("--capture");
    assert("--translate-provider"@.len() != "--capture"@.len());
    reveal_strlit("--pin");
    assert("--translate-provider"@.len() != "--pin"@.len());
    reveal_strlit("--image");
    assert("--translate-provider"@.len() != "--image"@.len());
    reveal_strlit("--snapshot");
    assert("--translate-provider"@.len() != "--snapshot"@.len());
    reveal_strlit("--language");
    assert("--translate-provider"@.len() != "--language"@.len());
    reveal_strlit("--x");
    assert("--translate-provider"@.len() != "--x"@.len());
    reveal_strlit("--y");
    assert("--translate-provider"@.len() != "--y"@.len());
    reveal_strlit("--width");
    assert("--translate-provider"@.len() != "--width"@.len());
    reveal_strlit("--height");
    assert("--translate-provider"@.len() != "--height"@.len());
    reveal_strlit("--include-cursor");
    assert("--translate-provider"@.len() != "--include-cursor"@.len());
    reveal_strlit("--resident");
    assert("--translate-provider"@.len() != "--resident"@.len());
    reveal_strlit("--control-port");
    assert("--translate-provider"@.len() != "--control-port"@.len());
    reveal_strlit("--mask-opacity");
    assert("--translate-provider"@.len() != "--mask-opacity"@.len());
    reveal_strlit("--border-color");
    assert("--translate-provider"@.len() != "--border-color"@.len());
    reveal_strlit("--show-size-label");
    assert("--translate-provider"@.len() != "--show-size-label"@.len());
    reveal_strlit("--show-toolbar");
    assert("--translate-provider"@.len() != "--show-toolbar"@.len());
    reveal_strlit("--show-magnifier");
    assert("--translate-provider"@.len() != "--show-magnifier"@.len());
    reveal_strlit("--magnifier-scale");
    assert("--translate-provider"@.len() != "--magnifier-scale"@.len());
    reveal_strlit("--pin-hotkey");
    assert("--translate-provider"@.len() != "--pin-hotkey"@.len());
    reveal_strlit("--completion-action");
    assert("--translate-provider"@.len() != "--completion-action"@.len());
    reveal_strlit("--pin-opacity");
    assert("--translate-provider"@.len() != "--pin-opacity"@.len());
    reveal_strlit("--pin-zoom-step");
    assert("--translate-provider"@.len() != "--pin-zoom-step"@.len());
    reveal_strlit("--pin-min-width");
    assert("--translate-provider"@.len() != "--pin-min-width"@.len());
    reveal_strlit("--pin-min-height");
    assert("--translate-provider"@.len() != "--pin-min-height"@.len());
    reveal_strlit("--pin-always-on-top");
    assert("--translate-provider"@.len() != "--pin-always-on-top"@.len());
    reveal_strlit("--ocr-provider");
    assert("--translate-provider"@.len() != "--ocr-provider"@.len());
    reveal_strlit("--ocr-language-hint");
    assert("--translate-provider"@.len() != "--ocr-language-hint"@.len());
    reveal_strlit("--ocr-default-model-id");
    assert("--translate-provider"@.len() != "--ocr-default-model-id"@.len());
    reveal_strlit("--ocr-models-registry");
    assert("--translate-provider"@.len() != "--ocr-models-registry"@.len());
    reveal_strlit("--ocr-text-font-height-ratio");
    assert("--translate-provider"@.len() != "--ocr-text-font-height-ratio"@.len());
    reveal_strlit("--ocr-text-min-font-size");
    assert("--translate-provider"@.len() != "--ocr-text-min-font-size"@.len());
    reveal_strlit("--ocr-text-max-font-size");
    assert("--translate-provider"@.len() != "--ocr-text-max-font-size"@.len());
    reveal_strlit("--ocr-text-padding-x");
    assert("--translate-provider"@[2] != "--ocr-text-padding-x"@[2]);
    reveal_strlit("--ocr-text-padding-y");
    assert("--translate-provider"@[2] != "--ocr-text-padding-y"@[2]);
    reveal_strlit("--ocr-text-interaction-padding-x");
    assert("--translate-provider"@.len() != "--ocr-text-interaction-padding-x"@.len());
    reveal_strlit("--ocr-text-interaction-padding-y");
    assert("--translate-provider"@.len() != "--ocr-text-interaction-padding-y"@.len());
}

proof fn lemma_unknown_translate_target_language()
    ensures
        flag_of("--translate-target-language"@) is None,
{
    reveal(flag_of);
    reveal_strlit("--translate-target-language");
    reveal_strlit("--capture");
    assert("--translate-target-language"@.len() != "--capture"@.len());
    reveal_strlit("--pin");
    assert("--translate-target-language"@.len() != "--pin"@.len());
    reveal_strlit("--image");
    assert("--translate-target-language"@.len() != "--image"@.len());
    reveal_strlit("--snapshot");
    assert("--translate-target-language"@.len() != "--snapshot"@.len());
    reveal_strlit("--language");
    assert("--translate-target-language"@.len() != "--language"@.len());
    reveal_strlit("--x");
    assert("--translate-target-language"@.len() != "--x"@.len());
    reveal_strlit("--y");
    assert("--translate-target-language"@.len() != "--y"@.len());
    reveal_strlit("--width");
    assert("--translate-target-language"@.len() != "--width"@.len());
    reveal_strlit("--height");
    assert("--translate-target-language"@.len() != "--height"@.len());
    reveal_strlit("--include-cursor");
    assert("--translate-target-language"@.len() != "--include-cursor"@.len());
    reveal_strlit("--resident");
    assert("--translate-target-language"@.len() != "--resident"@.len());
    reveal_strlit("--control-port");
    assert("--translate-target-language"@.len() != "--control-port"@.len());
    reveal_strlit("--mask-opacity");
    assert("--translate-target-language"@.len() != "--mask-opacity"@.len());
    reveal_strlit("--border-color");
    assert("--translate-target-language"@.len() != "--border-color"@.len());
    reveal_strlit("--show-size-label");
    assert("--translate-target-language"@.len() != "--show-size-label"@.len());
    reveal_strlit("--show-toolbar");
    assert("--translate-target-language"@.len() != "--show-toolbar"@.len());
    reveal_strlit("--show-magnifier");
    assert("--translate-target-language"@.len() != "--show-magnifier"@.len());
    reveal_strlit("--magnifier-scale");
    assert("--translate-target-language"@.len() != "--magnifier-scale"@.len());
    reveal_strlit("--pin-hotkey");
    assert("--translate-target-language"@.len() != "--pin-hotkey"@.len());
    reveal_strlit("--completion-action");
    assert("--translate-target-language"@.len() != "--completion-action"@.len());
    reveal_strlit("--pin-opacity");
    assert("--translate-target-language"@.len() != "--pin-opacity"@.len());
    reveal_strlit("--pin-zoom-step");
    assert("--translate-target-language"@.len() != "--pin-zoom-step"@.len());
    reveal_strlit("--pin-min-width");
    assert("--translate-target-language"@.len() != "--pin-min-width"@.len());
    reveal_strlit("--pin-min-height");
    assert("--translate-target-language"@.len() != "--pin-min-height"@.len());
    reveal_strlit("--pin-always-on-top");
    assert("--translate-target-language"@.len() != "--pin-always-on-top"@.len());
    reveal_strlit("--ocr-provider");
    assert("--translate-target-language"@.len() != "--ocr-provider"@.len());
    reveal_strlit("--ocr-language-hint");
    assert("--translate-target-language"@.len() != "--ocr-language-hint"@.len());
    reveal_strlit("--ocr-default-model-id");
    assert("--translate-target-language"@.len() != "--ocr-default-model-id"@.len());
    reveal_strlit("--ocr-models-registry");
    assert("--translate-target-language"@.len() != "--ocr-models-registry"@.len());
    reveal_strlit("--ocr-text-font-height-ratio");
    assert("--translate-target-language"@.len() != "--ocr-text-font-height-ratio"@.len());
    reveal_strlit("--ocr-text-min-font-size");
    assert("--translate-target-language"@.len() != "--ocr-text-min-font-size"@.len());
    reveal_strlit("--ocr-text-max-font-size");
    assert("--translate-target-language"@.len() != "--ocr-text-max-font-size"@.len());
    reveal_strlit("--ocr-text-padding-x");
    assert("--translate-target-language"@.len() != "--ocr-text-padding-x"@.len());
    reveal_strlit("--ocr-text-padding-y");
    assert("--translate-target-language"@.len() != "--ocr-text-padding-y"@.len());
    reveal_strlit("--ocr-text-interaction-padding-x");
    assert("--translate-target-language"@.len() != "--ocr-text-interaction-padding-x"@.len());
    reveal_strlit("--ocr-text-interaction-padding-y");
    assert("--translate-target-language"@.len() != "--ocr-text-interaction-padding-y"@.len());
}

proof fn lemma_unknown_translate_segmentation_mode()
    ensures
        flag_of("--translate-segmentation-mode"@) is None,
{
    reveal(flag_of);
    reveal_strlit("--translate-segmentation-mode");
    reveal_strlit("--capture");
    assert("--translate-segmentation-mode"@.len() != "--capture"@.len());
    reveal_strlit("--pin");
    assert("--translate-segmentation-mode"@.len() != "--pin"@.len());
    reveal_strlit("--image");
    assert("--translate-segmentation-mode"@.len() != "--image"@.len());
    reveal_strlit("--snapshot");
    assert("--translate-segmentation-mode"@.len() != "--snapshot"@.len());
    reveal_strlit("--language");
    assert("--translate-segmentation-mode"@.len() != "--language"@.len());
    reveal_strlit("--x");
    assert("--translate-segmentation-mode"@.len() != "--x"@.len());
    reveal_strlit("--y");
    assert("--translate-segmentation-mode"@.len() != "--y"@.len());
    reveal_strlit("--width");
    assert("--translate-segmentation-mode"@.len() != "--width"@.len());
    reveal_strlit("--height");
    assert("--translate-segmentation-mode"@.len() != "--height"@.len());
    reveal_strlit("--include-cursor");
    assert("--translate-segmentation-mode"@.len() != "--include-cursor"@.len());
    reveal_strlit("--resident");
    assert("--translate-segmentation-mode"@.len() != "--resident"@.len());
    reveal_strlit("--control-port");
    assert("--translate-segmentation-mode"@.len() != "--control-port"@.len());
    reveal_strlit("--mask-opacity");
    assert("--translate-segmentation-mode"@.len() != "--mask-opacity"@.len());
    reveal_strlit("--border-color");
    assert("--translate-segmentation-mode"@.len() != "--border-color"@.len());
    reveal_strlit("--show-size-label");
    assert("--translate-segmentation-mode"@.len() != "--show-size-label"@.len());
    reveal_strlit("--show-toolbar");
    assert("--translate-segmentation-mode"@.len() != "--show-toolbar"@.len());
    reveal_strlit("--show-magnifier");
    assert("--translate-segmentation-mode"@.len() != "--show-magnifier"@.len());
    reveal_strlit("--magnifier-scale");
    assert("--translate-segmentation-mode"@.len() != "--magnifier-scale"@.len());
    reveal_strlit("--pin-hotkey");
    assert("--translate-segmentation-mode"@.len() != "--pin-hotkey"@.len());
    reveal_strlit("--completion-action");
    assert("--translate-segmentation-mode"@.len() != "--completion-action"@.len());
    reveal_strlit("--pin-opacity");
    assert("--translate-segmentation-mode"@.len() != "--pin-opacity"@.len());
    reveal_strlit("--pin-zoom-step");
    assert("--translate-segmentation-mode"@.len() != "--pin-zoom-step"@.len());
    reveal_strlit("--pin-min-width");
    assert("--translate-segmentation-mode"@.len() != "--pin-min-width"@.len());
    reveal_strlit("--pin-min-height");
    assert("--translate-segmentation-mode"@.len() != "--pin-min-height"@.len());
    reveal_strlit("--pin-always-on-top");
    assert("--translate-segmentation-mode"@.len() != "--pin-always-on-top"@.len());
    reveal_strlit("--ocr-provider");
    assert("--translate-segmentation-mode"@.len() != "--ocr-provider"@.len());
    reveal_strlit("--ocr-language-hint");
    assert("--translate-segmentation-mode"@.len() != "--ocr-language-hint"@.len());
    reveal_strlit("--ocr-default-model-id");
    assert("--translate-segmentation-mode"@.len() != "--ocr-default-model-id"@.len());
    reveal_strlit("--ocr-models-registry");
    assert("--translate-segmentation-mode"@.len() != "--ocr-models-registry"@.len());
    reveal_strlit("--ocr-text-font-height-ratio");
    assert("--translate-segmentation-mode"@.len() != "--ocr-text-font-height-ratio"@.len());
    reveal_strlit("--ocr-text-min-font-size");
    assert("--translate-segmentation-mode"@.len() != "--ocr-text-min-font-size"@.len());
    reveal_strlit("--ocr-text-max-font-size");
    assert("--translate-segmentation-mode"@.len() != "--ocr-text-max-font-size"@.len());
    reveal_strlit("--ocr-text-padding-x");
    assert("--translate-segmentation-mode"@.len() != "--ocr-text-padding-x"@.len());
    reveal_strlit("--ocr-text-padding-y");
    assert("--translate-segmentation-mode"@.len() != "--ocr-text-padding-y"@.len());
    reveal_strlit("--ocr-text-interaction-padding-x");
    assert("--translate-segmentation-mode"@.len() != "--ocr-text-interaction-padding-x"@.len());
    reveal_strlit("--ocr-text-interaction-padding-y");
    assert("--translate-segmentation-mode"@.len() != "--ocr-text-interaction-padding-y"@.len());
}

proof fn lemma_unknown_translate_default_model_id()
    ensures
        flag_of("--translate-default-model-id"@) is None,
{
    reveal(flag_of);
    reveal_strlit("--translate-default-model-id");
    reveal_strlit("--capture");
    assert("--translate-default-model-id"@.len() != "--capture"@.len());
    reveal_strlit("--pin");
    assert("--translate-default-model-id"@.len() != "--pin"@.len());
    reveal_strlit("--image");
    assert("--translate-default-model-id"@.len() != "--image"@.len());
    reveal_strlit("--snapshot");
    assert("--translate-default-model-id"@.len() != "--snapshot"@.len());
    reveal_strlit("--language");
    assert("--translate-default-model-id"@.len() != "--language"@.len());
    reveal_strlit("--x");
    assert("--translate-default-model-id"@.len() != "--x"@.len());
    reveal_strlit("--y");
    assert("--translate-default-model-id"@.len() != "--y"@.len());
    reveal_strlit("--width");
    assert("--translate-default-model-id"@.len() != "--width"@.len());
    reveal_strlit("--height");
    assert("--translate-default-model-id"@.len() != "--height"@.len());
    reveal_strlit("--include-cursor");
    assert("--translate-default-model-id"@.len() != "--include-cursor"@.len());
    reveal_strlit("--resident");
    assert("--translate-default-model-id"@.len() != "--resident"@.len());
    reveal_strlit("--control-port");
    assert("--translate-default-model-id"@.len() != "--control-port"@.len());
    reveal_strlit("--mask-opacity");
    assert("--translate-default-model-id"@.len() != "--mask-opacity"@.len());
    reveal_strlit("--border-color");
    assert("--translate-default-model-id"@.len() != "--border-color"@.len());
    reveal_strlit("--show-size-label");
    assert("--translate-default-model-id"@.len() != "--show-size-label"@.len());
    reveal_strlit("--show-toolbar");
    assert("--translate-default-model-id"@.len() != "--show-toolbar"@.len());
    reveal_strlit("--show-magnifier");
    assert("--translate-default-model-id"@.len() != "--show-magnifier"@.len());
    reveal_strlit("--magnifier-scale");
    assert("--translate-default-model-id"@.len() != "--magnifier-scale"@.len());
    reveal_strlit("--pin-hotkey");
    assert("--translate-default-model-id"@.len() != "--pin-hotkey"@.len());
    reveal_strlit("--completion-action");
    assert("--translate-default-model-id"@.len() != "--completion-action"@.len());
    reveal_strlit("--pin-opacity");
    assert("--translate-default-model-id"@.len() != "--pin-opacity"@.len());
    reveal_strlit("--pin-zoom-step");
    assert("--translate-default-model-id"@.len() != "--pin-zoom-step"@.len());
    reveal_strlit("--pin-min-width");
    assert("--translate-default-model-id"@.len() != "--pin-min-width"@.len());
    reveal_strlit("--pin-min-height");
    assert("--translate-default-model-id"@.len() != "--pin-min-height"@.len());
    reveal_strlit("--pin-always-on-top");
    assert("--translate-default-model-id"@.len() != "--pin-always-on-top"@.len());
    reveal_strlit("--ocr-provider");
    assert("--translate-default-model-id"@.len() != "--ocr-provider"@.len());
    reveal_strlit("--ocr-language-hint");
    assert("--translate-default-model-id"@.len() != "--ocr-language-hint"@.len());
    reveal_strlit("--ocr-default-model-id");
    assert("--translate-default-model-id"@.len() != "--ocr-default-model-id"@.len());
    reveal_strlit("--ocr-models-registry");
    assert("--translate-default-model-id"@.len() != "--ocr-models-registry"@.len());
    reveal_strlit("--ocr-text-font-height-ratio");
    assert("--translate-default-model-id"@[2] != "--ocr-text-font-height-ratio"@[2]);
    reveal_strlit("--ocr-text-min-font-size");
    assert("--translate-default-model-id"@.len() != "--ocr-text-min-font-size"@.len());
    reveal_strlit("--ocr-text-max-font-size");
    assert("--translate-default-model-id"@.len() != "--ocr-text-max-font-size"@.len());
    reveal_strlit("--ocr-text-padding-x");
    assert("--translate-default-model-id"@.len() != "--ocr-text-padding-x"@.len());
    reveal_strlit("--ocr-text-padding-y");
    assert("--translate-default-model-id"@.len() != "--ocr-text-padding-y"@.len());
    reveal_strlit("--ocr-text-interaction-padding-x");
    assert("--translate-default-model-id"@.len() != "--ocr-text-interaction-padding-x"@.len());
    reveal_strlit("--ocr-text-interaction-padding-y");
    assert("--translate-default-model-id"@.len() != "--ocr-text-interaction-padding-y"@.len());
}

proof fn lemma_blank_text(value: Option<Seq<char>>)
    ensures
        non_empty(Some(text_or_empty(value))) == non_empty(value),
{
    reveal_strlit("");
}

proof fn lemma_bool_text_reads_back(b: bool)
    ensures
        bool_of(bool_text(b)) == Some(b),
{
    reveal_strlit("true");
    reveal_strlit("false");
    assert("true"@.len() != "false"@.len());
}

/// A pin window reads, from the command line it is started with, the image, window and
/// OCR options it was started with, provided the texts given for the translation options
/// do not themselves spell an option (those the overlay passes over).
#[verifier::rlimit(100)]
pub proof fn pin_window_reads_launch(l: PinWindowLaunch)
    requires
        flag_of(l.translate_provider@) is None,
        flag_of(l.translate_target_language@) is None,
        flag_of(l.translate_segmentation_mode@) is None,
        flag_of(text_or_empty(l.translate_default_model_id.deep_view())) is None,
    ensures
        cli_args_of(pin_args_of(l)) == pin_view(l),
{
    let a = pin_args_of(l);
    assert(a.len() == 51);
    let m0 = default_cli_args();
    flag_text_is_read_back(OverlayFlag::Pin);
    let m1 = apply_flag(m0, OverlayFlag::Pin, None);
    lemma_value_step(a, 1, m1, OverlayFlag::Image);
    let m2 = apply_flag(m1, OverlayFlag::Image, Some(a[2]));
    lemma_value_step(a, 3, m2, OverlayFlag::Float(FloatArg::X));
    let m3 = apply_flag(m2, OverlayFlag::Float(FloatArg::X), Some(a[4]));
    lemma_value_step(a, 5, m3, OverlayFlag::Float(FloatArg::Y));
    let m4 = apply_flag(m3, OverlayFlag::Float(FloatArg::Y), Some(a[6]));
    lemma_value_step(a, 7, m4, OverlayFlag::Float(FloatArg::Width));
    let m5 = apply_flag(m4, OverlayFlag::Float(FloatArg::Width), Some(a[8]));
    lemma_value_step(a, 9, m5, OverlayFlag::Float(FloatArg::Height));
    let m6 = apply_flag(m5, OverlayFlag::Float(FloatArg::Height), Some(a[10]));
    lemma_value_step(a, 11, m6, OverlayFlag::Float(FloatArg::PinOpacity));
    let m7 = apply_flag(m6, OverlayFlag::Float(FloatArg::PinOpacity), Some(a[12]));
    lemma_value_step(a, 13, m7, OverlayFlag::Float(FloatArg::PinZoomStep));
    let m8 = apply_flag(m7, OverlayFlag::Float(FloatArg::PinZoomStep), Some(a[14]));
    lemma_value_step(a, 15, m8, OverlayFlag::Float(FloatArg::PinMinWidth));
    let m9 = apply_flag(m8, OverlayFlag::Float(FloatArg::PinMinWidth), Some(a[16]));
    lemma_value_step(a, 17, m9, OverlayFlag::Float(FloatArg::PinMinHeight));
    let m10 = apply_flag(m9, OverlayFlag::Float(FloatArg::PinMinHeight), Some(a[18]));
    lemma_value_step(a, 19, m10, OverlayFlag::PinAlwaysOnTop);
    let m11 = apply_flag(m10, OverlayFlag::PinAlwaysOnTop, Some(a[20]));
    lemma_value_step(a, 21, m11, OverlayFlag::OcrProvider);
    let m12 = apply_flag(m11, OverlayFlag::OcrProvider, Some(a[22]));
    lemma_value_step(a, 23, m12, OverlayFlag::OcrLanguageHint);
    let m13 = apply_flag(m12, OverlayFlag::OcrLanguageHint, Some(a[24]));
    lemma_value_step(a, 25, m13, OverlayFlag::OcrDefaultModelId);
    let m14 = apply_flag(m13, OverlayFlag::OcrDefaultModelId, Some(a[26]));
    lemma_value_step(a, 27, m14, OverlayFlag::OcrModelsRegistry);
    let m15 = apply_flag(m14, OverlayFlag::OcrModelsRegistry, Some(a[28]));
    lemma_unknown_translate_provider();
    lemma_unknown_translate_target_language();
    lemma_unknown_translate_segmentation_mode();
    lemma_unknown_translate_default_model_id();
    lemma_skip_step(a, 29, m15);
    lemma_skip_step(a, 30, m15);
    lemma_skip_step(a, 31, m15);
    lemma_skip_step(a, 32, m15);
    lemma_skip_step(a, 33, m15);
    lemma_skip_step(a, 34, m15);
    lemma_skip_step(a, 35, m15);
    lemma_skip_step(a, 36, m15);
    lemma_value_step(a, 37, m15, OverlayFlag::Float(FloatArg::OcrTextFontHeightRatio));
    let m16 = apply_flag(m15, OverlayFlag::Float(FloatArg::OcrTextFontHeightRatio), Some(a[38]));
    lemma_value_step(a, 39, m16, OverlayFlag::Float(FloatArg::OcrTextMinFontSize));
    let m17 = apply_flag(m16, OverlayFlag::Float(FloatArg::OcrTextMinFontSize), Some(a[40]));
    lemma_value_step(a, 41, m17, OverlayFlag::Float(FloatArg::OcrTextMaxFontSize));
    let m18 = apply_flag(m17, OverlayFlag::Float(FloatArg::OcrTextMaxFontSize), Some(a[42]));
    lemma_value_step(a, 43, m18, OverlayFlag::Float(FloatArg::OcrTextPaddingX));
    let m19 = apply_flag(m18, OverlayFlag::Float(FloatArg::OcrTextPaddingX), Some(a[44]));
    lemma_value_step(a, 45, m19, OverlayFlag::Float(FloatArg::OcrTextPaddingY));
    let m20 = apply_flag(m19, OverlayFlag::Float(FloatArg::OcrTextPaddingY), Some(a[46]));
    lemma_value_step(a, 47, m20, OverlayFlag::Float(FloatArg::OcrTextInteractionPaddingX));
    let m21 = apply_flag(m20, OverlayFlag::Float(FloatArg::OcrTextInteractionPaddingX), Some(a[48]));
    lemma_value_step(a, 49, m21, OverlayFlag::Float(FloatArg::OcrTextInteractionPaddingY));
    let m22 = apply_flag(m21, OverlayFlag::Float(FloatArg::OcrTextInteractionPaddingY), Some(a[50]));
    assert(parse_from(a, 51, m22) == m22);
    lemma_bool_text_reads_back(l.always_on_top);
    lemma_blank_text(l.ocr_language_hint.deep_view());
    lemma_blank_text(l.ocr_default_model_id.deep_view());
    lemma_blank_text(l.ocr_models_registry.deep_view());
    reveal(apply_flag);
    assert(m22.float_values =~= pin_view(l).float_values);
    assert(m22 =~= pin_view(l));
}

} // verus!
