use vstd::prelude::*;

use crate::chars::{chars_are, str_chars};
use crate::providers::{overlay_language_from_code, overlay_language_of, OverlayLanguage};
use crate::text::{parse_unsigned, parse_unsigned_chars, trim_str_chars, trimmed};

verus! {

/// A command-line option of the overlay whose value is a float.
#[derive(Debug, Clone, Copy, PartialEq, Eq, Structural)]
pub enum FloatArg {
    X,
    Y,
    Width,
    Height,
    MaskOpacity,
    MagnifierScale,
    PinOpacity,
    PinZoomStep,
    PinMinWidth,
    PinMinHeight,
    OcrTextFontHeightRatio,
    OcrTextMinFontSize,
    OcrTextMaxFontSize,
    OcrTextPaddingX,
    OcrTextPaddingY,
    OcrTextInteractionPaddingX,
    OcrTextInteractionPaddingY,
}

/// A command-line option of the overlay.
#[derive(Debug, Clone, Copy, PartialEq, Eq, Structural)]
pub enum OverlayFlag {
    Capture,
    Pin,
    Image,
    Snapshot,
    Language,
    IncludeCursor,
    Resident,
    ControlPort,
    BorderColor,
    ShowSizeLabel,
    ShowToolbar,
    ShowMagnifier,
    PinHotkey,
    CompletionAction,
    PinAlwaysOnTop,
    OcrProvider,
    OcrLanguageHint,
    OcrDefaultModelId,
    OcrModelsRegistry,
    Float(FloatArg),
}

/// The command-line spelling of an overlay option.
pub open spec fn flag_text(flag: OverlayFlag) -> Seq<char> {
    match flag {
        OverlayFlag::Capture => "--capture"@,
        OverlayFlag::Pin => "--pin"@,
        OverlayFlag::Image => "--image"@,
        OverlayFlag::Snapshot => "--snapshot"@,
        OverlayFlag::Language => "--language"@,
        OverlayFlag::Float(FloatArg::X) => "--x"@,
        OverlayFlag::Float(FloatArg::Y) => "--y"@,
        OverlayFlag::Float(FloatArg::Width) => "--width"@,
        OverlayFlag::Float(FloatArg::Height) => "--height"@,
        OverlayFlag::IncludeCursor => "--include-cursor"@,
        OverlayFlag::Resident => "--resident"@,
        OverlayFlag::ControlPort => "--control-port"@,
        OverlayFlag::Float(FloatArg::MaskOpacity) => "--mask-opacity"@,
        OverlayFlag::BorderColor => "--border-color"@,
        OverlayFlag::ShowSizeLabel => "--show-size-label"@,
        OverlayFlag::ShowToolbar => "--show-toolbar"@,
        OverlayFlag::ShowMagnifier => "--show-magnifier"@,
        OverlayFlag::Float(FloatArg::MagnifierScale) => "--magnifier-scale"@,
        OverlayFlag::PinHotkey => "--pin-hotkey"@,
        OverlayFlag::CompletionAction => "--completion-action"@,
        OverlayFlag::Float(FloatArg::PinOpacity) => "--pin-opacity"@,
        OverlayFlag::Float(FloatArg::PinZoomStep) => "--pin-zoom-step"@,
        OverlayFlag::Float(FloatArg::PinMinWidth) => "--pin-min-width"@,
        OverlayFlag::Float(FloatArg::PinMinHeight) => "--pin-min-height"@,
        OverlayFlag::PinAlwaysOnTop => "--pin-always-on-top"@,
        OverlayFlag::OcrProvider => "--ocr-provider"@,
        OverlayFlag::OcrLanguageHint => "--ocr-language-hint"@,
        OverlayFlag::OcrDefaultModelId => "--ocr-default-model-id"@,
        OverlayFlag::OcrModelsRegistry => "--ocr-models-registry"@,
        OverlayFlag::Float(FloatArg::OcrTextFontHeightRatio) => "--ocr-text-font-height-ratio"@,
        OverlayFlag::Float(FloatArg::OcrTextMinFontSize) => "--ocr-text-min-font-size"@,
        OverlayFlag::Float(FloatArg::OcrTextMaxFontSize) => "--ocr-text-max-font-size"@,
        OverlayFlag::Float(FloatArg::OcrTextPaddingX) => "--ocr-text-padding-x"@,
        OverlayFlag::Float(FloatArg::OcrTextPaddingY) => "--ocr-text-padding-y"@,
        OverlayFlag::Float(FloatArg::OcrTextInteractionPaddingX) => "--ocr-text-interaction-padding-x"@,
        OverlayFlag::Float(FloatArg::OcrTextInteractionPaddingY) => "--ocr-text-interaction-padding-y"@,
    }
}

/// The overlay option an argument spells, if any.
#[verifier::opaque]
pub open spec fn flag_of(arg: Seq<char>) -> Option<OverlayFlag> {
    if arg == "--capture"@ {
        Some(OverlayFlag::Capture)
    } else if arg == "--pin"@ {
        Some(OverlayFlag::Pin)
    } else if arg == "--image"@ {
        Some(OverlayFlag::Image)
    } else if arg == "--snapshot"@ {
        Some(OverlayFlag::Snapshot)
    } else if arg == "--language"@ {
        Some(OverlayFlag::Language)
    } else if arg == "--x"@ {
        Some(OverlayFlag::Float(FloatArg::X))
    } else if arg == "--y"@ {
        Some(OverlayFlag::Float(FloatArg::Y))
    } else if arg == "--width"@ {
        Some(OverlayFlag::Float(FloatArg::Width))
    } else if arg == "--height"@ {
        Some(OverlayFlag::Float(FloatArg::Height))
    } else if arg == "--include-cursor"@ {
        Some(OverlayFlag::IncludeCursor)
    } else if arg == "--resident"@ {
        Some(OverlayFlag::Resident)
    } else if arg == "--control-port"@ {
        Some(OverlayFlag::ControlPort)
    } else if arg == "--mask-opacity"@ {
        Some(OverlayFlag::Float(FloatArg::MaskOpacity))
    } else if arg == "--border-color"@ {
        Some(OverlayFlag::BorderColor)
    } else if arg == "--show-size-label"@ {
        Some(OverlayFlag::ShowSizeLabel)
    } else if arg == "--show-toolbar"@ {
        Some(OverlayFlag::ShowToolbar)
    } else if arg == "--show-magnifier"@ {
        Some(OverlayFlag::ShowMagnifier)
    } else if arg == "--magnifier-scale"@ {
        Some(OverlayFlag::Float(FloatArg::MagnifierScale))
    } else if arg == "--pin-hotkey"@ {
        Some(OverlayFlag::PinHotkey)
    } else if arg == "--completion-action"@ {
        Some(OverlayFlag::CompletionAction)
    } else if arg == "--pin-opacity"@ {
        Some(OverlayFlag::Float(FloatArg::PinOpacity))
    } else if arg == "--pin-zoom-step"@ {
        Some(OverlayFlag::Float(FloatArg::PinZoomStep))
    } else if arg == "--pin-min-width"@ {
        Some(OverlayFlag::Float(FloatArg::PinMinWidth))
    } else if arg == "--pin-min-height"@ {
        Some(OverlayFlag::Float(FloatArg::PinMinHeight))
    } else if arg == "--pin-always-on-top"@ {
        Some(OverlayFlag::PinAlwaysOnTop)
    } else if arg == "--ocr-provider"@ {
        Some(OverlayFlag::OcrProvider)
    } else if arg == "--ocr-language-hint"@ {
        Some(OverlayFlag::OcrLanguageHint)
    } else if arg == "--ocr-default-model-id"@ {
        Some(OverlayFlag::OcrDefaultModelId)
    } else if arg == "--ocr-models-registry"@ {
        Some(OverlayFlag::OcrModelsRegistry)
    } else if arg == "--ocr-text-font-height-ratio"@ {
        Some(OverlayFlag::Float(FloatArg::OcrTextFontHeightRatio))
    } else if arg == "--ocr-text-min-font-size"@ {
        Some(OverlayFlag::Float(FloatArg::OcrTextMinFontSize))
    } else if arg == "--ocr-text-max-font-size"@ {
        Some(OverlayFlag::Float(FloatArg::OcrTextMaxFontSize))
    } else if arg == "--ocr-text-padding-x"@ {
        Some(OverlayFlag::Float(FloatArg::OcrTextPaddingX))
    } else if arg == "--ocr-text-padding-y"@ {
        Some(OverlayFlag::Float(FloatArg::OcrTextPaddingY))
    } else if arg == "--ocr-text-interaction-padding-x"@ {
        Some(OverlayFlag::Float(FloatArg::OcrTextInteractionPaddingX))
    } else if arg == "--ocr-text-interaction-padding-y"@ {
        Some(OverlayFlag::Float(FloatArg::OcrTextInteractionPaddingY))
    } else {
        None
    }
}

/// The overlay option an argument spells, if any.
pub fn classify_flag(arg: &[char]) -> (r: Option<OverlayFlag>)
    ensures
        r == flag_of(arg@),
{
    reveal(flag_of);
    if chars_are(arg, "--capture") {
        Some(OverlayFlag::Capture)
    } else if chars_are(arg, "--pin") {
        Some(OverlayFlag::Pin)
    } else if chars_are(arg, "--image") {
        Some(OverlayFlag::Image)
    } else if chars_are(arg, "--snapshot") {
        Some(OverlayFlag::Snapshot)
    } else if chars_are(arg, "--language") {
        Some(OverlayFlag::Language)
    } else if chars_are(arg, "--x") {
        Some(OverlayFlag::Float(FloatArg::X))
    } else if chars_are(arg, "--y") {
        Some(OverlayFlag::Float(FloatArg::Y))
    } else if chars_are(arg, "--width") {
        Some(OverlayFlag::Float(FloatArg::Width))
    } else if chars_are(arg, "--height") {
        Some(OverlayFlag::Float(FloatArg::Height))
    } else if chars_are(arg, "--include-cursor") {
        Some(OverlayFlag::IncludeCursor)
    } else if chars_are(arg, "--resident") {
        Some(OverlayFlag::Resident)
    } else if chars_are(arg, "--control-port") {
        Some(OverlayFlag::ControlPort)
    } else if chars_are(arg, "--mask-opacity") {
        Some(OverlayFlag::Float(FloatArg::MaskOpacity))
    } else if chars_are(arg, "--border-color") {
        Some(OverlayFlag::BorderColor)
    } else if chars_are(arg, "--show-size-label") {
        Some(OverlayFlag::ShowSizeLabel)
    } else if chars_are(arg, "--show-toolbar") {
        Some(OverlayFlag::ShowToolbar)
    } else if chars_are(arg, "--show-magnifier") {
        Some(OverlayFlag::ShowMagnifier)
    } else if chars_are(arg, "--magnifier-scale") {
        Some(OverlayFlag::Float(FloatArg::MagnifierScale))
    } else if chars_are(arg, "--pin-hotkey") {
        Some(OverlayFlag::PinHotkey)
    } else if chars_are(arg, "--completion-action") {
        Some(OverlayFlag::CompletionAction)
    } else if chars_are(arg, "--pin-opacity") {
        Some(OverlayFlag::Float(FloatArg::PinOpacity))
    } else if chars_are(arg, "--pin-zoom-step") {
        Some(OverlayFlag::Float(FloatArg::PinZoomStep))
    } else if chars_are(arg, "--pin-min-width") {
        Some(OverlayFlag::Float(FloatArg::PinMinWidth))
    } else if chars_are(arg, "--pin-min-height") {
        Some(OverlayFlag::Float(FloatArg::PinMinHeight))
    } else if chars_are(arg, "--pin-always-on-top") {
        Some(OverlayFlag::PinAlwaysOnTop)
    } else if chars_are(arg, "--ocr-provider") {
        Some(OverlayFlag::OcrProvider)
    } else if chars_are(arg, "--ocr-language-hint") {
        Some(OverlayFlag::OcrLanguageHint)
    } else if chars_are(arg, "--ocr-default-model-id") {
        Some(OverlayFlag::OcrDefaultModelId)
    } else if chars_are(arg, "--ocr-models-registry") {
        Some(OverlayFlag::OcrModelsRegistry)
    } else if chars_are(arg, "--ocr-text-font-height-ratio") {
        Some(OverlayFlag::Float(FloatArg::OcrTextFontHeightRatio))
    } else if chars_are(arg, "--ocr-text-min-font-size") {
        Some(OverlayFlag::Float(FloatArg::OcrTextMinFontSize))
    } else if chars_are(arg, "--ocr-text-max-font-size") {
        Some(OverlayFlag::Float(FloatArg::OcrTextMaxFontSize))
    } else if chars_are(arg, "--ocr-text-padding-x") {
        Some(OverlayFlag::Float(FloatArg::OcrTextPaddingX))
    } else if chars_are(arg, "--ocr-text-padding-y") {
        Some(OverlayFlag::Float(FloatArg::OcrTextPaddingY))
    } else if chars_are(arg, "--ocr-text-interaction-padding-x") {
        Some(OverlayFlag::Float(FloatArg::OcrTextInteractionPaddingX))
    } else if chars_are(arg, "--ocr-text-interaction-padding-y") {
        Some(OverlayFlag::Float(FloatArg::OcrTextInteractionPaddingY))
    } else {
        None
    }
}

proof fn lemma_flag_capture()
    ensures
        flag_of("--capture"@) == Some(OverlayFlag::Capture),
{
    reveal(flag_of);
    reveal_strlit("--capture");
}

proof fn lemma_flag_pin()
    ensures
        flag_of("--pin"@) == Some(OverlayFlag::Pin),
{
    reveal(flag_of);
    reveal_strlit("--pin");
    reveal_strlit("--capture");
    assert("--capture"@.len() != "--pin"@.len());
}

proof fn lemma_flag_image()
    ensures
        flag_of("--image"@) == Some(OverlayFlag::Image),
{
    reveal(flag_of);
    reveal_strlit("--image");
    reveal_strlit("--capture");
    assert("--capture"@.len() != "--image"@.len());
    reveal_strlit("--pin");
    assert("--pin"@.len() != "--image"@.len());
}

proof fn lemma_flag_snapshot()
    ensures
        flag_of("--snapshot"@) == Some(OverlayFlag::Snapshot),
{
    reveal(flag_of);
    reveal_strlit("--snapshot");
    reveal_strlit("--capture");
    assert("--capture"@.len() != "--snapshot"@.len());
    reveal_strlit("--pin");
    assert("--pin"@.len() != "--snapshot"@.len());
    reveal_strlit("--image");
    assert("--image"@.len() != "--snapshot"@.len());
}

proof fn lemma_flag_language()
    ensures
        flag_of("--language"@) == Some(OverlayFlag::Language),
{
    reveal(flag_of);
    reveal_strlit("--language");
    reveal_strlit("--capture");
    assert("--capture"@.len() != "--language"@.len());
    reveal_strlit("--pin");
    assert("--pin"@.len() != "--language"@.len());
    reveal_strlit("--image");
    assert("--image"@.len() != "--language"@.len());
    reveal_strlit("--snapshot");
    assert("--snapshot"@[2] != "--language"@[2]);
}

proof fn lemma_flag_x()
    ensures
        flag_of("--x"@) == Some(OverlayFlag::Float(FloatArg::X)),
{
    reveal(flag_of);
    reveal_strlit("--x");
    reveal_strlit("--capture");
    assert("--capture"@.len() != "--x"@.len());
    reveal_strlit("--pin");
    assert("--pin"@.len() != "--x"@.len());
    reveal_strlit("--image");
    assert("--image"@.len() != "--x"@.len());
    reveal_strlit("--snapshot");
    assert("--snapshot"@.len() != "--x"@.len());
    reveal_strlit("--language");
    assert("--language"@.len() != "--x"@.len());
}

proof fn lemma_flag_y()
    ensures
        flag_of("--y"@) == Some(OverlayFlag::Float(FloatArg::Y)),
{
    reveal(flag_of);
    reveal_strlit("--y");
    reveal_strlit("--capture");
    assert("--capture"@.len() != "--y"@.len());
    reveal_strlit("--pin");
    assert("--pin"@.len() != "--y"@.len());
    reveal_strlit("--image");
    assert("--image"@.len() != "--y"@.len());
    reveal_strlit("--snapshot");
    assert("--snapshot"@.len() != "--y"@.len());
    reveal_strlit("--language");
    assert("--language"@.len() != "--y"@.len());
    reveal_strlit("--x");
    assert("--x"@[2] != "--y"@[2]);
}

proof fn lemma_flag_width()
    ensures
        flag_of("--width"@) == Some(OverlayFlag::Float(FloatArg::Width)),
{
    reveal(flag_of);
    reveal_strlit("--width");
    reveal_strlit("--capture");
    assert("--capture"@.len() != "--width"@.len());
    reveal_strlit("--pin");
    assert("--pin"@.len() != "--width"@.len());
    reveal_strlit("--image");
    assert("--image"@[2] != "--width"@[2]);
    reveal_strlit("--snapshot");
    assert("--snapshot"@.len() != "--width"@.len());
    reveal_strlit("--language");
    assert("--language"@.len() != "--width"@.len());
    reveal_strlit("--x");
    assert("--x"@.len() != "--width"@.len());
    reveal_strlit("--y");
    assert("--y"@.len() != "--width"@.len());
}

proof fn lemma_flag_height()
    ensures
        flag_of("--height"@) == Some(OverlayFlag::Float(FloatArg::Height)),
{
    reveal(flag_of);
    reveal_strlit("--height");
    reveal_strlit("--capture");
    assert("--capture"@.len() != "--height"@.len());
    reveal_strlit("--pin");
    assert("--pin"@.len() != "--height"@.len());
    reveal_strlit("--image");
    assert("--image"@.len() != "--height"@.len());
    reveal_strlit("--snapshot");
    assert("--snapshot"@.len() != "--height"@.len());
    reveal_strlit("--language");
    assert("--language"@.len() != "--height"@.len());
    reveal_strlit("--x");
    assert("--x"@.len() != "--height"@.len());
    reveal_strlit("--y");
    assert("--y"@.len() != "--height"@.len());
    reveal_strlit("--width");
    assert("--width"@.len() != "--height"@.len());
}

proof fn lemma_flag_include_cursor()
    ensures
        flag_of("--include-cursor"@) == Some(OverlayFlag::IncludeCursor),
{
    reveal(flag_of);
    reveal_strlit("--include-cursor");
    reveal_strlit("--capture");
    assert("--capture"@.len() != "--include-cursor"@.len());
    reveal_strlit("--pin");
    assert("--pin"@.len() != "--include-cursor"@.len());
    reveal_strlit("--image");
    assert("--image"@.len() != "--include-cursor"@.len());
    reveal_strlit("--snapshot");
    assert("--snapshot"@.len() != "--include-cursor"@.len());
    reveal_strlit("--language");
    assert("--language"@.len() != "--include-cursor"@.len());
    reveal_strlit("--x");
    assert("--x"@.len() != "--include-cursor"@.len());
    reveal_strlit("--y");
    assert("--y"@.len() != "--include-cursor"@.len());
    reveal_strlit("--width");
    assert("--width"@.len() != "--include-cursor"@.len());
    reveal_strlit("--height");
    assert("--height"@.len() != "--include-cursor"@.len());
}

proof fn lemma_flag_resident()
    ensures
        flag_of("--resident"@) == Some(OverlayFlag::Resident),
{
    reveal(flag_of);
    reveal_strlit("--resident");
    reveal_strlit("--capture");
    assert("--capture"@.len() != "--resident"@.len());
    reveal_strlit("--pin");
    assert("--pin"@.len() != "--resident"@.len());
    reveal_strlit("--image");
    assert("--image"@.len() != "--resident"@.len());
    reveal_strlit("--snapshot");
    assert("--snapshot"@[2] != "--resident"@[2]);
    reveal_strlit("--language");
    assert("--language"@[2] != "--resident"@[2]);
    reveal_strlit("--x");
    assert("--x"@.len() != "--resident"@.len());
    reveal_strlit("--y");
    assert("--y"@.len() != "--resident"@.len());
    reveal_strlit("--width");
    assert("--width"@.len() != "--resident"@.len());
    reveal_strlit("--height");
    assert("--height"@.len() != "--resident"@.len());
    reveal_strlit("--include-cursor");
    assert("--include-cursor"@.len() != "--resident"@.len());
}

proof fn lemma_flag_control_port()
    ensures
        flag_of("--control-port"@) == Some(OverlayFlag::ControlPort),
{
    reveal(flag_of);
    reveal_strlit("--control-port");
    reveal_strlit("--capture");
    assert("--capture"@.len() != "--control-port"@.len());
    reveal_strlit("--pin");
    assert("--pin"@.len() != "--control-port"@.len());
    reveal_strlit("--image");
    assert("--image"@.len() != "--control-port"@.len());
    reveal_strlit("--snapshot");
    assert("--snapshot"@.len() != "--control-port"@.len());
    reveal_strlit("--language");
    assert("--language"@.len() != "--control-port"@.len());
    reveal_strlit("--x");
    assert("--x"@.len() != "--control-port"@.len());
    reveal_strlit("--y");
    assert("--y"@.len() != "--control-port"@.len());
    reveal_strlit("--width");
    assert("--width"@.len() != "--control-port"@.len());
    reveal_strlit("--height");
    assert("--height"@.len() != "--control-port"@.len());
    reveal_strlit("--include-cursor");
    assert("--include-cursor"@.len() != "--control-port"@.len());
    reveal_strlit("--resident");
    assert("--resident"@.len() != "--control-port"@.len());
}

proof fn lemma_flag_mask_opacity()
    ensures
        flag_of("--mask-opacity"@) == Some(OverlayFlag::Float(FloatArg::MaskOpacity)),
{
    reveal(flag_of);
    reveal_strlit("--mask-opacity");
    reveal_strlit("--capture");
    assert("--capture"@.len() != "--mask-opacity"@.len());
    reveal_strlit("--pin");
    assert("--pin"@.len() != "--mask-opacity"@.len());
    reveal_strlit("--image");
    assert("--image"@.len() != "--mask-opacity"@.len());
    reveal_strlit("--snapshot");
    assert("--snapshot"@.len() != "--mask-opacity"@.len());
    reveal_strlit("--language");
    assert("--language"@.len() != "--mask-opacity"@.len());
    reveal_strlit("--x");
    assert("--x"@.len() != "--mask-opacity"@.len());
    reveal_strlit("--y");
    assert("--y"@.len() != "--mask-opacity"@.len());
    reveal_strlit("--width");
    assert("--width"@.len() != "--mask-opacity"@.len());
    reveal_strlit("--height");
    assert("--height"@.len() != "--mask-opacity"@.len());
    reveal_strlit("--include-cursor");
    assert("--include-cursor"@.len() != "--mask-opacity"@.len());
    reveal_strlit("--resident");
    assert("--resident"@.len() != "--mask-opacity"@.len());
    reveal_strlit("--control-port");
    assert("--control-port"@[2] != "--mask-opacity"@[2]);
}

proof fn lemma_flag_border_color()
    ensures
        flag_of("--border-color"@) == Some(OverlayFlag::BorderColor),
{
    reveal(flag_of);
    reveal_strlit("--border-color");
    reveal_strlit("--capture");
    assert("--capture"@.len() != "--border-color"@.len());
    reveal_strlit("--pin");
    assert("--pin"@.len() != "--border-color"@.len());
    reveal_strlit("--image");
    assert("--image"@.len() != "--border-color"@.len());
    reveal_strlit("--snapshot");
    assert("--snapshot"@.len() != "--border-color"@.len());
    reveal_strlit("--language");
    assert("--language"@.len() != "--border-color"@.len());
    reveal_strlit("--x");
    assert("--x"@.len() != "--border-color"@.len());
    reveal_strlit("--y");
    assert("--y"@.len() != "--border-color"@.len());
    reveal_strlit("--width");
    assert("--width"@.len() != "--border-color"@.len());
    reveal_strlit("--height");
    assert("--height"@.len() != "--border-color"@.len());
    reveal_strlit("--include-cursor");
    assert("--include-cursor"@.len() != "--border-color"@.len());
    reveal_strlit("--resident");
    assert("--resident"@.len() != "--border-color"@.len());
    reveal_strlit("--control-port");
    assert("--control-port"@[2] != "--border-color"@[2]);
    reveal_strlit("--mask-opacity");
    assert("--mask-opacity"@[2] != "--border-color"@[2]);
}

proof fn lemma_flag_show_size_label()
    ensures
        flag_of("--show-size-label"@) == Some(OverlayFlag::ShowSizeLabel),
{
    reveal(flag_of);
    reveal_strlit("--show-size-label");
    reveal_strlit("--capture");
    assert("--capture"@.len() != "--show-size-label"@.len());
    reveal_strlit("--pin");
    assert("--pin"@.len() != "--show-size-label"@.len());
    reveal_strlit("--image");
    assert("--image"@.len() != "--show-size-label"@.len());
    reveal_strlit("--snapshot");
    assert("--snapshot"@.len() != "--show-size-label"@.len());
    reveal_strlit("--language");
    assert("--language"@.len() != "--show-size-label"@.len());
    reveal_strlit("--x");
    assert("--x"@.len() != "--show-size-label"@.len());
    reveal_strlit("--y");
    assert("--y"@.len() != "--show-size-label"@.len());
    reveal_strlit("--width");
    assert("--width"@.len() != "--show-size-label"@.len());
    reveal_strlit("--height");
    assert("--height"@.len() != "--show-size-label"@.len());
    reveal_strlit("--include-cursor");
    assert("--include-cursor"@.len() != "--show-size-label"@.len());
    reveal_strlit("--resident");
    assert("--resident"@.len() != "--show-size-label"@.len());
    reveal_strlit("--control-port");
    assert("--control-port"@.len() != "--show-size-label"@.len());
    reveal_strlit("--mask-opacity");
    assert("--mask-opacity"@.len() != "--show-size-label"@.len());
    reveal_strlit("--border-color");
    assert("--border-color"@.len() != "--show-size-label"@.len());
}

proof fn lemma_flag_show_toolbar()
    ensures
        flag_of("--show-toolbar"@) == Some(OverlayFlag::ShowToolbar),
{
    reveal(flag_of);
    reveal_strlit("--show-toolbar");
    reveal_strlit("--capture");
    assert("--capture"@.len() != "--show-toolbar"@.len());
    reveal_strlit("--pin");
    assert("--pin"@.len() != "--show-toolbar"@.len());
    reveal_strlit("--image");
    assert("--image"@.len() != "--show-toolbar"@.len());
    reveal_strlit("--snapshot");
    assert("--snapshot"@.len() != "--show-toolbar"@.len());
    reveal_strlit("--language");
    assert("--language"@.len() != "--show-toolbar"@.len());
    reveal_strlit("--x");
    assert("--x"@.len() != "--show-toolbar"@.len());
    reveal_strlit("--y");
    assert("--y"@.len() != "--show-toolbar"@.len());
    reveal_strlit("--width");
    assert("--width"@.len() != "--show-toolbar"@.len());
    reveal_strlit("--height");
    assert("--height"@.len() != "--show-toolbar"@.len());
    reveal_strlit("--include-cursor");
    assert("--include-cursor"@.len() != "--show-toolbar"@.len());
    reveal_strlit("--resident");
    assert("--resident"@.len() != "--show-toolbar"@.len());
    reveal_strlit("--control-port");
    assert("--control-port"@[2] != "--show-toolbar"@[2]);
    reveal_strlit("--mask-opacity");
    assert("--mask-opacity"@[2] != "--show-toolbar"@[2]);
    reveal_strlit("--border-color");
    assert("--border-color"@[2] != "--show-toolbar"@[2]);
    reveal_strlit("--show-size-label");
    assert("--show-size-label"@.len() != "--show-toolbar"@.len());
}

proof fn lemma_flag_show_magnifier()
    ensures
        flag_of("--show-magnifier"@) == Some(OverlayFlag::ShowMagnifier),
{
    reveal(flag_of);
    reveal_strlit("--show-magnifier");
    reveal_strlit("--capture");
    assert("--capture"@.len() != "--show-magnifier"@.len());
    reveal_strlit("--pin");
    assert("--pin"@.len() != "--show-magnifier"@.len());
    reveal_strlit("--image");
    assert("--image"@.len() != "--show-magnifier"@.len());
    reveal_strlit("--snapshot");
    assert("--snapshot"@.len() != "--show-magnifier"@.len());
    reveal_strlit("--language");
    assert("--language"@.len() != "--show-magnifier"@.len());
    reveal_strlit("--x");
    assert("--x"@.len() != "--show-magnifier"@.len());
    reveal_strlit("--y");
    assert("--y"@.len() != "--show-magnifier"@.len());
    reveal_strlit("--width");
    assert("--width"@.len() != "--show-magnifier"@.len());
    reveal_strlit("--height");
    assert("--height"@.len() != "--show-magnifier"@.len());
    reveal_strlit("--include-cursor");
    assert("--include-cursor"@[2] != "--show-magnifier"@[2]);
    reveal_strlit("--resident");
    assert("--resident"@.len() != "--show-magnifier"@.len());
    reveal_strlit("--control-port");
    assert("--control-port"@.len() != "--show-magnifier"@.len());
    reveal_strlit("--mask-opacity");
    assert("--mask-opacity"@.len() != "--show-magnifier"@.len());
    reveal_strlit("--border-color");
    assert("--border-color"@.len() != "--show-magnifier"@.len());
    reveal_strlit("--show-size-label");
    assert("--show-size-label"@.len() != "--show-magnifier"@.len());
    reveal_strlit("--show-toolbar");
    assert("--show-toolbar"@.len() != "--show-magnifier"@.len());
}

proof fn lemma_flag_magnifier_scale()
    ensures
        flag_of("--magnifier-scale"@) == Some(OverlayFlag::Float(FloatArg::MagnifierScale)),
{
    reveal(flag_of);
    reveal_strlit("--magnifier-scale");
    reveal_strlit("--capture");
    assert("--capture"@.len() != "--magnifier-scale"@.len());
    reveal_strlit("--pin");
    assert("--pin"@.len() != "--magnifier-scale"@.len());
    reveal_strlit("--image");
    assert("--image"@.len() != "--magnifier-scale"@.len());
    reveal_strlit("--snapshot");
    assert("--snapshot"@.len() != "--magnifier-scale"@.len());
    reveal_strlit("--language");
    assert("--language"@.len() != "--magnifier-scale"@.len());
    reveal_strlit("--x");
    assert("--x"@.len() != "--magnifier-scale"@.len());
    reveal_strlit("--y");
    assert("--y"@.len() != "--magnifier-scale"@.len());
    reveal_strlit("--width");
    assert("--width"@.len() != "--magnifier-scale"@.len());
    reveal_strlit("--height");
    assert("--height"@.len() != "--magnifier-scale"@.len());
    reveal_strlit("--include-cursor");
    assert("--include-cursor"@.len() != "--magnifier-scale"@.len());
    reveal_strlit("--resident");
    assert("--resident"@.len() != "--magnifier-scale"@.len());
    reveal_strlit("--control-port");
    assert("--control-port"@.len() != "--magnifier-scale"@.len());
    reveal_strlit("--mask-opacity");
    assert("--mask-opacity"@.len() != "--magnifier-scale"@.len());
    reveal_strlit("--border-color");
    assert("--border-color"@.len() != "--magnifier-scale"@.len());
    reveal_strlit("--show-size-label");
    assert("--show-size-label"@[2] != "--magnifier-scale"@[2]);
    reveal_strlit("--show-toolbar");
    assert("--show-toolbar"@.len() != "--magnifier-scale"@.len());
    reveal_strlit("--show-magnifier");
    assert("--show-magnifier"@.len() != "--magnifier-scale"@.len());
}

proof fn lemma_flag_pin_hotkey()
    ensures
        flag_of("--pin-hotkey"@) == Some(OverlayFlag::PinHotkey),
{
    reveal(flag_of);
    reveal_strlit("--pin-hotkey");
    reveal_strlit("--capture");
    assert("--capture"@.len() != "--pin-hotkey"@.len());
    reveal_strlit("--pin");
    assert("--pin"@.len() != "--pin-hotkey"@.len());
    reveal_strlit("--image");
    assert("--image"@.len() != "--pin-hotkey"@.len());
    reveal_strlit("--snapshot");
    assert("--snapshot"@.len() != "--pin-hotkey"@.len());
    reveal_strlit("--language");
    assert("--language"@.len() != "--pin-hotkey"@.len());
    reveal_strlit("--x");
    assert("--x"@.len() != "--pin-hotkey"@.len());
    reveal_strlit("--y");
    assert("--y"@.len() != "--pin-hotkey"@.len());
    reveal_strlit("--width");
    assert("--width"@.len() != "--pin-hotkey"@.len());
    reveal_strlit("--height");
    assert("--height"@.len() != "--pin-hotkey"@.len());
    reveal_strlit("--include-cursor");
    assert("--include-cursor"@.len() != "--pin-hotkey"@.len());
    reveal_strlit("--resident");
    assert("--resident"@.len() != "--pin-hotkey"@.len());
    reveal_strlit("--control-port");
    assert("--control-port"@.len() != "--pin-hotkey"@.len());
    reveal_strlit("--mask-opacity");
    assert("--mask-opacity"@.len() != "--pin-hotkey"@.len());
    reveal_strlit("--border-color");
    assert("--border-color"@.len() != "--pin-hotkey"@.len());
    reveal_strlit("--show-size-label");
    assert("--show-size-label"@.len() != "--pin-hotkey"@.len());
    reveal_strlit("--show-toolbar");
    assert("--show-toolbar"@.len() != "--pin-hotkey"@.len());
    reveal_strlit("--show-magnifier");
    assert("--show-magnifier"@.len() != "--pin-hotkey"@.len());
    reveal_strlit("--magnifier-scale");
    assert("--magnifier-scale"@.len() != "--pin-hotkey"@.len());
}

proof fn lemma_flag_completion_action()
    ensures
        flag_of("--completion-action"@) == Some(OverlayFlag::CompletionAction),
{
    reveal(flag_of);
    reveal_strlit("--completion-action");
    reveal_strlit("--capture");
    assert("--capture"@.len() != "--completion-action"@.len());
    reveal_strlit("--pin");
    assert("--pin"@.len() != "--completion-action"@.len());
    reveal_strlit("--image");
    assert("--image"@.len() != "--completion-action"@.len());
    reveal_strlit("--snapshot");
    assert("--snapshot"@.len() != "--completion-action"@.len());
    reveal_strlit("--language");
    assert("--language"@.len() != "--completion-action"@.len());
    reveal_strlit("--x");
    assert("--x"@.len() != "--completion-action"@.len());
    reveal_strlit("--y");
    assert("--y"@.len() != "--completion-action"@.len());
    reveal_strlit("--width");
    assert("--width"@.len() != "--completion-action"@.len());
    reveal_strlit("--height");
    assert("--height"@.len() != "--completion-action"@.len());
    reveal_strlit("--include-cursor");
    assert("--include-cursor"@.len() != "--completion-action"@.len());
    reveal_strlit("--resident");
    assert("--resident"@.len() != "--completion-action"@.len());
    reveal_strlit("--control-port");
    assert("--control-port"@.len() != "--completion-action"@.len());
    reveal_strlit("--mask-opacity");
    assert("--mask-opacity"@.len() != "--completion-action"@.len());
    reveal_strlit("--border-color");
    assert("--border-color"@.len() != "--completion-action"@.len());
    reveal_strlit("--show-size-label");
    assert("--show-size-label"@.len() != "--completion-action"@.len());
    reveal_strlit("--show-toolbar");
    assert("--show-toolbar"@.len() != "--completion-action"@.len());
    reveal_strlit("--show-magnifier");
    assert("--show-magnifier"@.len() != "--completion-action"@.len());
    reveal_strlit("--magnifier-scale");
    assert("--magnifier-scale"@.len() != "--completion-action"@.len());
    reveal_strlit("--pin-hotkey");
    assert("--pin-hotkey"@.len() != "--completion-action"@.len());
}

proof fn lemma_flag_pin_opacity()
    ensures
        flag_of("--pin-opacity"@) == Some(OverlayFlag::Float(FloatArg::PinOpacity)),
{
    reveal(flag_of);
    reveal_strlit("--pin-opacity");
    reveal_strlit("--capture");
    assert("--capture"@.len() != "--pin-opacity"@.len());
    reveal_strlit("--pin");
    assert("--pin"@.len() != "--pin-opacity"@.len());
    reveal_strlit("--image");
    assert("--image"@.len() != "--pin-opacity"@.len());
    reveal_strlit("--snapshot");
    assert("--snapshot"@.len() != "--pin-opacity"@.len());
    reveal_strlit("--language");
    assert("--language"@.len() != "--pin-opacity"@.len());
    reveal_strlit("--x");
    assert("--x"@.len() != "--pin-opacity"@.len());
    reveal_strlit("--y");
    assert("--y"@.len() != "--pin-opacity"@.len());
    reveal_strlit("--width");
    assert("--width"@.len() != "--pin-opacity"@.len());
    reveal_strlit("--height");
    assert("--height"@.len() != "--pin-opacity"@.len());
    reveal_strlit("--include-cursor");
    assert("--include-cursor"@.len() != "--pin-opacity"@.len());
    reveal_strlit("--resident");
    assert("--resident"@.len() != "--pin-opacity"@.len());
    reveal_strlit("--control-port");
    assert("--control-port"@.len() != "--pin-opacity"@.len());
    reveal_strlit("--mask-opacity");
    assert("--mask-opacity"@.len() != "--pin-opacity"@.len());
    reveal_strlit("--border-color");
    assert("--border-color"@.len() != "--pin-opacity"@.len());
    reveal_strlit("--show-size-label");
    assert("--show-size-label"@.len() != "--pin-opacity"@.len());
    reveal_strlit("--show-toolbar");
    assert("--show-toolbar"@.len() != "--pin-opacity"@.len());
    reveal_strlit("--show-magnifier");
    assert("--show-magnifier"@.len() != "--pin-opacity"@.len());
    reveal_strlit("--magnifier-scale");
    assert("--magnifier-scale"@.len() != "--pin-opacity"@.len());
    reveal_strlit("--pin-hotkey");
    assert("--pin-hotkey"@.len() != "--pin-opacity"@.len());
    reveal_strlit("--completion-action");
    assert("--completion-action"@.len() != "--pin-opacity"@.len());
}

proof fn lemma_flag_pin_zoom_step()
    ensures
        flag_of("--pin-zoom-step"@) == Some(OverlayFlag::Float(FloatArg::PinZoomStep)),
{
    reveal(flag_of);
    reveal_strlit("--pin-zoom-step");
    reveal_strlit("--capture");
    assert("--capture"@.len() != "--pin-zoom-step"@.len());
    reveal_strlit("--pin");
    assert("--pin"@.len() != "--pin-zoom-step"@.len());
    reveal_strlit("--image");
    assert("--image"@.len() != "--pin-zoom-step"@.len());
    reveal_strlit("--snapshot");
    assert("--snapshot"@.len() != "--pin-zoom-step"@.len());
    reveal_strlit("--language");
    assert("--language"@.len() != "--pin-zoom-step"@.len());
    reveal_strlit("--x");
    assert("--x"@.len() != "--pin-zoom-step"@.len());
    reveal_strlit("--y");
    assert("--y"@.len() != "--pin-zoom-step"@.len());
    reveal_strlit("--width");
    assert("--width"@.len() != "--pin-zoom-step"@.len());
    reveal_strlit("--height");
    assert("--height"@.len() != "--pin-zoom-step"@.len());
    reveal_strlit("--include-cursor");
    assert("--include-cursor"@.len() != "--pin-zoom-step"@.len());
    reveal_strlit("--resident");
    assert("--resident"@.len() != "--pin-zoom-step"@.len());
    reveal_strlit("--control-port");
    assert("--control-port"@.len() != "--pin-zoom-step"@.len());
    reveal_strlit("--mask-opacity");
    assert("--mask-opacity"@.len() != "--pin-zoom-step"@.len());
    reveal_strlit("--border-color");
    assert("--border-color"@.len() != "--pin-zoom-step"@.len());
    reveal_strlit("--show-size-label");
    assert("--show-size-label"@.len() != "--pin-zoom-step"@.len());
    reveal_strlit("--show-toolbar");
    assert("--show-toolbar"@.len() != "--pin-zoom-step"@.len());
    reveal_strlit("--show-magnifier");
    assert("--show-magnifier"@.len() != "--pin-zoom-step"@.len());
    reveal_strlit("--magnifier-scale");
    assert("--magnifier-scale"@.len() != "--pin-zoom-step"@.len());
    reveal_strlit("--pin-hotkey");
    assert("--pin-hotkey"@.len() != "--pin-zoom-step"@.len());
    reveal_strlit("--completion-action");
    assert("--completion-action"@.len() != "--pin-zoom-step"@.len());
    reveal_strlit("--pin-opacity");
    assert("--pin-opacity"@.len() != "--pin-zoom-step"@.len());
}

proof fn lemma_flag_pin_min_width()
    ensures
        flag_of("--pin-min-width"@) == Some(OverlayFlag::Float(FloatArg::PinMinWidth)),
{
    reveal(flag_of);
    reveal_strlit("--pin-min-width");
    reveal_strlit("--capture");
    assert("--capture"@.len() != "--pin-min-width"@.len());
    reveal_strlit("--pin");
    assert("--pin"@.len() != "--pin-min-width"@.len());
    reveal_strlit("--image");
    assert("--image"@.len() != "--pin-min-width"@.len());
    reveal_strlit("--snapshot");
    assert("--snapshot"@.len() != "--pin-min-width"@.len());
    reveal_strlit("--language");
    assert("--language"@.len() != "--pin-min-width"@.len());
    reveal_strlit("--x");
    assert("--x"@.len() != "--pin-min-width"@.len());
    reveal_strlit("--y");
    assert("--y"@.len() != "--pin-min-width"@.len());
    reveal_strlit("--width");
    assert("--width"@.len() != "--pin-min-width"@.len());
    reveal_strlit("--height");
    assert("--height"@.len() != "--pin-min-width"@.len());
    reveal_strlit("--include-cursor");
    assert("--include-cursor"@.len() != "--pin-min-width"@.len());
    reveal_strlit("--resident");
    assert("--resident"@.len() != "--pin-min-width"@.len());
    reveal_strlit("--control-port");
    assert("--control-port"@.len() != "--pin-min-width"@.len());
    reveal_strlit("--mask-opacity");
    assert("--mask-opacity"@.len() != "--pin-min-width"@.len());
    reveal_strlit("--border-color");
    assert("--border-color"@.len() != "--pin-min-width"@.len());
    reveal_strlit("--show-size-label");
    assert("--show-size-label"@.len() != "--pin-min-width"@.len());
    reveal_strlit("--show-toolbar");
    assert("--show-toolbar"@.len() != "--pin-min-width"@.len());
    reveal_strlit("--show-magnifier");
    assert("--show-magnifier"@.len() != "--pin-min-width"@.len());
    reveal_strlit("--magnifier-scale");
    assert("--magnifier-scale"@.len() != "--pin-min-width"@.len());
    reveal_strlit("--pin-hotkey");
    assert("--pin-hotkey"@.len() != "--pin-min-width"@.len());
    reveal_strlit("--completion-action");
    assert("--completion-action"@.len() != "--pin-min-width"@.len());
    reveal_strlit("--pin-opacity");
    assert("--pin-opacity"@.len() != "--pin-min-width"@.len());
    reveal_strlit("--pin-zoom-step");
    assert("--pin-zoom-step"@[6] != "--pin-min-width"@[6]);
}

proof fn lemma_flag_pin_min_height()
    ensures
        flag_of("--pin-min-height"@) == Some(OverlayFlag::Float(FloatArg::PinMinHeight)),
{
    reveal(flag_of);
    reveal_strlit("--pin-min-height");
    reveal_strlit("--capture");
    assert("--capture"@.len() != "--pin-min-height"@.len());
    reveal_strlit("--pin");
    assert("--pin"@.len() != "--pin-min-height"@.len());
    reveal_strlit("--image");
    assert("--image"@.len() != "--pin-min-height"@.len());
    reveal_strlit("--snapshot");
    assert("--snapshot"@.len() != "--pin-min-height"@.len());
    reveal_strlit("--language");
    assert("--language"@.len() != "--pin-min-height"@.len());
    reveal_strlit("--x");
    assert("--x"@.len() != "--pin-min-height"@.len());
    reveal_strlit("--y");
    assert("--y"@.len() != "--pin-min-height"@.len());
    reveal_strlit("--width");
    assert("--width"@.len() != "--pin-min-height"@.len());
    reveal_strlit("--height");
    assert("--height"@.len() != "--pin-min-height"@.len());
    reveal_strlit("--include-cursor");
    assert("--include-cursor"@[2] != "--pin-min-height"@[2]);
    reveal_strlit("--resident");
    assert("--resident"@.len() != "--pin-min-height"@.len());
    reveal_strlit("--control-port");
    assert("--control-port"@.len() != "--pin-min-height"@.len());
    reveal_strlit("--mask-opacity");
    assert("--mask-opacity"@.len() != "--pin-min-height"@.len());
    reveal_strlit("--border-color");
    assert("--border-color"@.len() != "--pin-min-height"@.len());
    reveal_strlit("--show-size-label");
    assert("--show-size-label"@.len() != "--pin-min-height"@.len());
    reveal_strlit("--show-toolbar");
    assert("--show-toolbar"@.len() != "--pin-min-height"@.len());
    reveal_strlit("--show-magnifier");
    assert("--show-magnifier"@[2] != "--pin-min-height"@[2]);
    reveal_strlit("--magnifier-scale");
    assert("--magnifier-scale"@.len() != "--pin-min-height"@.len());
    reveal_strlit("--pin-hotkey");
    assert("--pin-hotkey"@.len() != "--pin-min-height"@.len());
    reveal_strlit("--completion-action");
    assert("--completion-action"@.len() != "--pin-min-height"@.len());
    reveal_strlit("--pin-opacity");
    assert("--pin-opacity"@.len() != "--pin-min-height"@.len());
    reveal_strlit("--pin-zoom-step");
    assert("--pin-zoom-step"@.len() != "--pin-min-height"@.len());
    reveal_strlit("--pin-min-width");
    assert("--pin-min-width"@.len() != "--pin-min-height"@.len());
}

proof fn lemma_flag_pin_always_on_top()
    ensures
        flag_of("--pin-always-on-top"@) == Some(OverlayFlag::PinAlwaysOnTop),
{
    reveal(flag_of);
    reveal_strlit("--pin-always-on-top");
    reveal_strlit("--capture");
    assert("--capture"@.len() != "--pin-always-on-top"@.len());
    reveal_strlit("--pin");
    assert("--pin"@.len() != "--pin-always-on-top"@.len());
    reveal_strlit("--image");
    assert("--image"@.len() != "--pin-always-on-top"@.len());
    reveal_strlit("--snapshot");
    assert("--snapshot"@.len() != "--pin-always-on-top"@.len());
    reveal_strlit("--language");
    assert("--language"@.len() != "--pin-always-on-top"@.len());
    reveal_strlit("--x");
    assert("--x"@.len() != "--pin-always-on-top"@.len());
    reveal_strlit("--y");
    assert("--y"@.len() != "--pin-always-on-top"@.len());
    reveal_strlit("--width");
    assert("--width"@.len() != "--pin-always-on-top"@.len());
    reveal_strlit("--height");
    assert("--height"@.len() != "--pin-always-on-top"@.len());
    reveal_strlit("--include-cursor");
    assert("--include-cursor"@.len() != "--pin-always-on-top"@.len());
    reveal_strlit("--resident");
    assert("--resident"@.len() != "--pin-always-on-top"@.len());
    reveal_strlit("--control-port");
    assert("--control-port"@.len() != "--pin-always-on-top"@.len());
    reveal_strlit("--mask-opacity");
    assert("--mask-opacity"@.len() != "--pin-always-on-top"@.len());
    reveal_strlit("--border-color");
    assert("--border-color"@.len() != "--pin-always-on-top"@.len());
    reveal_strlit("--show-size-label");
    assert("--show-size-label"@.len() != "--pin-always-on-top"@.len());
    reveal_strlit("--show-toolbar");
    assert("--show-toolbar"@.len() != "--pin-always-on-top"@.len());
    reveal_strlit("--show-magnifier");
    assert("--show-magnifier"@.len() != "--pin-always-on-top"@.len());
    reveal_strlit("--magnifier-scale");
    assert("--magnifier-scale"@.len() != "--pin-always-on-top"@.len());
    reveal_strlit("--pin-hotkey");
    assert("--pin-hotkey"@.len() != "--pin-always-on-top"@.len());
    reveal_strlit("--completion-action");
    assert("--completion-action"@[2] != "--pin-always-on-top"@[2]);
    reveal_strlit("--pin-opacity");
    assert("--pin-opacity"@.len() != "--pin-always-on-top"@.len());
    reveal_strlit("--pin-zoom-step");
    assert("--pin-zoom-step"@.len() != "--pin-always-on-top"@.len());
    reveal_strlit("--pin-min-width");
    assert("--pin-min-width"@.len() != "--pin-always-on-top"@.len());
    reveal_strlit("--pin-min-height");
    assert("--pin-min-height"@.len() != "--pin-always-on-top"@.len());
}

proof fn lemma_flag_ocr_provider()
    ensures
        flag_of("--ocr-provider"@) == Some(OverlayFlag::OcrProvider),
{
    reveal(flag_of);
    reveal_strlit("--ocr-provider");
    reveal_strlit("--capture");
    assert("--capture"@.len() != "--ocr-provider"@.len());
    reveal_strlit("--pin");
    assert("--pin"@.len() != "--ocr-provider"@.len());
    reveal_strlit("--image");
    assert("--image"@.len() != "--ocr-provider"@.len());
    reveal_strlit("--snapshot");
    assert("--snapshot"@.len() != "--ocr-provider"@.len());
    reveal_strlit("--language");
    assert("--language"@.len() != "--ocr-provider"@.len());
    reveal_strlit("--x");
    assert("--x"@.len() != "--ocr-provider"@.len());
    reveal_strlit("--y");
    assert("--y"@.len() != "--ocr-provider"@.len());
    reveal_strlit("--width");
    assert("--width"@.len() != "--ocr-provider"@.len());
    reveal_strlit("--height");
    assert("--height"@.len() != "--ocr-provider"@.len());
    reveal_strlit("--include-cursor");
    assert("--include-cursor"@.len() != "--ocr-provider"@.len());
    reveal_strlit("--resident");
    assert("--resident"@.len() != "--ocr-provider"@.len());
    reveal_strlit("--control-port");
    assert("--control-port"@[2] != "--ocr-provider"@[2]);
    reveal_strlit("--mask-opacity");
    assert("--mask-opacity"@[2] != "--ocr-provider"@[2]);
    reveal_strlit("--border-color");
    assert("--border-color"@[2] != "--ocr-provider"@[2]);
    reveal_strlit("--show-size-label");
    assert("--show-size-label"@.len() != "--ocr-provider"@.len());
    reveal_strlit("--show-toolbar");
    assert("--show-toolbar"@[2] != "--ocr-provider"@[2]);
    reveal_strlit("--show-magnifier");
    assert("--show-magnifier"@.len() != "--ocr-provider"@.len());
    reveal_strlit("--magnifier-scale");
    assert("--magnifier-scale"@.len() != "--ocr-provider"@.len());
    reveal_strlit("--pin-hotkey");
    assert("--pin-hotkey"@.len() != "--ocr-provider"@.len());
    reveal_strlit("--completion-action");
    assert("--completion-action"@.len() != "--ocr-provider"@.len());
    reveal_strlit("--pin-opacity");
    assert("--pin-opacity"@.len() != "--ocr-provider"@.len());
    reveal_strlit("--pin-zoom-step");
    assert("--pin-zoom-step"@.len() != "--ocr-provider"@.len());
    reveal_strlit("--pin-min-width");
    assert("--pin-min-width"@.len() != "--ocr-provider"@.len());
    reveal_strlit("--pin-min-height");
    assert("--pin-min-height"@.len() != "--ocr-provider"@.len());
    reveal_strlit("--pin-always-on-top");
    assert("--pin-always-on-top"@.len() != "--ocr-provider"@.len());
}

proof fn lemma_flag_ocr_language_hint()
    ensures
        flag_of("--ocr-language-hint"@) == Some(OverlayFlag::OcrLanguageHint),
{
    reveal(flag_of);
    reveal_strlit("--ocr-language-hint");
    reveal_strlit("--capture");
    assert("--capture"@.len() != "--ocr-language-hint"@.len());
    reveal_strlit("--pin");
    assert("--pin"@.len() != "--ocr-language-hint"@.len());
    reveal_strlit("--image");
    assert("--image"@.len() != "--ocr-language-hint"@.len());
    reveal_strlit("--snapshot");
    assert("--snapshot"@.len() != "--ocr-language-hint"@.len());
    reveal_strlit("--language");
    assert("--language"@.len() != "--ocr-language-hint"@.len());
    reveal_strlit("--x");
    assert("--x"@.len() != "--ocr-language-hint"@.len());
    reveal_strlit("--y");
    assert("--y"@.len() != "--ocr-language-hint"@.len());
    reveal_strlit("--width");
    assert("--width"@.len() != "--ocr-language-hint"@.len());
    reveal_strlit("--height");
    assert("--height"@.len() != "--ocr-language-hint"@.len());
    reveal_strlit("--include-cursor");
    assert("--include-cursor"@.len() != "--ocr-language-hint"@.len());
    reveal_strlit("--resident");
    assert("--resident"@.len() != "--ocr-language-hint"@.len());
    reveal_strlit("--control-port");
    assert("--control-port"@.len() != "--ocr-language-hint"@.len());
    reveal_strlit("--mask-opacity");
    assert("--mask-opacity"@.len() != "--ocr-language-hint"@.len());
    reveal_strlit("--border-color");
    assert("--border-color"@.len() != "--ocr-language-hint"@.len());
    reveal_strlit("--show-size-label");
    assert("--show-size-label"@.len() != "--ocr-language-hint"@.len());
    reveal_strlit("--show-toolbar");
    assert("--show-toolbar"@.len() != "--ocr-language-hint"@.len());
    reveal_strlit("--show-magnifier");
    assert("--show-magnifier"@.len() != "--ocr-language-hint"@.len());
    reveal_strlit("--magnifier-scale");
    assert("--magnifier-scale"@.len() != "--ocr-language-hint"@.len());
    reveal_strlit("--pin-hotkey");
    assert("--pin-hotkey"@.len() != "--ocr-language-hint"@.len());
    reveal_strlit("--completion-action");
    assert("--completion-action"@[2] != "--ocr-language-hint"@[2]);
    reveal_strlit("--pin-opacity");
    assert("--pin-opacity"@.len() != "--ocr-language-hint"@.len());
    reveal_strlit("--pin-zoom-step");
    assert("--pin-zoom-step"@.len() != "--ocr-language-hint"@.len());
    reveal_strlit("--pin-min-width");
    assert("--pin-min-width"@.len() != "--ocr-language-hint"@.len());
    reveal_strlit("--pin-min-height");
    assert("--pin-min-height"@.len() != "--ocr-language-hint"@.len());
    reveal_strlit("--pin-always-on-top");
    assert("--pin-always-on-top"@[2] != "--ocr-language-hint"@[2]);
    reveal_strlit("--ocr-provider");
    assert("--ocr-provider"@.len() != "--ocr-language-hint"@.len());
}

proof fn lemma_flag_ocr_default_model_id()
    ensures
        flag_of("--ocr-default-model-id"@) == Some(OverlayFlag::OcrDefaultModelId),
{
    reveal(flag_of);
    reveal_strlit("--ocr-default-model-id");
    reveal_strlit("--capture");
    assert("--capture"@.len() != "--ocr-default-model-id"@.len());
    reveal_strlit("--pin");
    assert("--pin"@.len() != "--ocr-default-model-id"@.len());
    reveal_strlit("--image");
    assert("--image"@.len() != "--ocr-default-model-id"@.len());
    reveal_strlit("--snapshot");
    assert("--snapshot"@.len() != "--ocr-default-model-id"@.len());
    reveal_strlit("--language");
    assert("--language"@.len() != "--ocr-default-model-id"@.len());
    reveal_strlit("--x");
    assert("--x"@.len() != "--ocr-default-model-id"@.len());
    reveal_strlit("--y");
    assert("--y"@.len() != "--ocr-default-model-id"@.len());
    reveal_strlit("--width");
    assert("--width"@.len() != "--ocr-default-model-id"@.len());
    reveal_strlit("--height");
    assert("--height"@.len() != "--ocr-default-model-id"@.len());
    reveal_strlit("--include-cursor");
    assert("--include-cursor"@.len() != "--ocr-default-model-id"@.len());
    reveal_strlit("--resident");
    assert("--resident"@.len() != "--ocr-default-model-id"@.len());
    reveal_strlit("--control-port");
    assert("--control-port"@.len() != "--ocr-default-model-id"@.len());
    reveal_strlit("--mask-opacity");
    assert("--mask-opacity"@.len() != "--ocr-default-model-id"@.len());
    reveal_strlit("--border-color");
    assert("--border-color"@.len() != "--ocr-default-model-id"@.len());
    reveal_strlit("--show-size-label");
    assert("--show-size-label"@.len() != "--ocr-default-model-id"@.len());
    reveal_strlit("--show-toolbar");
    assert("--show-toolbar"@.len() != "--ocr-default-model-id"@.len());
    reveal_strlit("--show-magnifier");
    assert("--show-magnifier"@.len() != "--ocr-default-model-id"@.len());
    reveal_strlit("--magnifier-scale");
    assert("--magnifier-scale"@.len() != "--ocr-default-model-id"@.len());
    reveal_strlit("--pin-hotkey");
    assert("--pin-hotkey"@.len() != "--ocr-default-model-id"@.len());
    reveal_strlit("--completion-action");
    assert("--completion-action"@.len() != "--ocr-default-model-id"@.len());
    reveal_strlit("--pin-opacity");
    assert("--pin-opacity"@.len() != "--ocr-default-model-id"@.len());
    reveal_strlit("--pin-zoom-step");
    assert("--pin-zoom-step"@.len() != "--ocr-default-model-id"@.len());
    reveal_strlit("--pin-min-width");
    assert("--pin-min-width"@.len() != "--ocr-default-model-id"@.len());
    reveal_strlit("--pin-min-height");
    assert("--pin-min-height"@.len() != "--ocr-default-model-id"@.len());
    reveal_strlit("--pin-always-on-top");
    assert("--pin-always-on-top"@.len() != "--ocr-default-model-id"@.len());
    reveal_strlit("--ocr-provider");
    assert("--ocr-provider"@.len() != "--ocr-default-model-id"@.len());
    reveal_strlit("--ocr-language-hint");
    assert("--ocr-language-hint"@.len() != "--ocr-default-model-id"@.len());
}

proof fn lemma_flag_ocr_models_registry()
    ensures
        flag_of("--ocr-models-registry"@) == Some(OverlayFlag::OcrModelsRegistry),
{
    reveal(flag_of);
    reveal_strlit("--ocr-models-registry");
    reveal_strlit("--capture");
    assert("--capture"@.len() != "--ocr-models-registry"@.len());
    reveal_strlit("--pin");
    assert("--pin"@.len() != "--ocr-models-registry"@.len());
    reveal_strlit("--image");
    assert("--image"@.len() != "--ocr-models-registry"@.len());
    reveal_strlit("--snapshot");
    assert("--snapshot"@.len() != "--ocr-models-registry"@.len());
    reveal_strlit("--language");
    assert("--language"@.len() != "--ocr-models-registry"@.len());
    reveal_strlit("--x");
    assert("--x"@.len() != "--ocr-models-registry"@.len());
    reveal_strlit("--y");
    assert("--y"@.len() != "--ocr-models-registry"@.len());
    reveal_strlit("--width");
    assert("--width"@.len() != "--ocr-models-registry"@.len());
    reveal_strlit("--height");
    assert("--height"@.len() != "--ocr-models-registry"@.len());
    reveal_strlit("--include-cursor");
    assert("--include-cursor"@.len() != "--ocr-models-registry"@.len());
    reveal_strlit("--resident");
    assert("--resident"@.len() != "--ocr-models-registry"@.len());
    reveal_strlit("--control-port");
    assert("--control-port"@.len() != "--ocr-models-registry"@.len());
    reveal_strlit("--mask-opacity");
    assert("--mask-opacity"@.len() != "--ocr-models-registry"@.len());
    reveal_strlit("--border-color");
    assert("--border-color"@.len() != "--ocr-models-registry"@.len());
    reveal_strlit("--show-size-label");
    assert("--show-size-label"@.len() != "--ocr-models-registry"@.len());
    reveal_strlit("--show-toolbar");
    assert("--show-toolbar"@.len() != "--ocr-models-registry"@.len());
    reveal_strlit("--show-magnifier");
    assert("--show-magnifier"@.len() != "--ocr-models-registry"@.len());
    reveal_strlit("--magnifier-scale");
    assert("--magnifier-scale"@.len() != "--ocr-models-registry"@.len());
    reveal_strlit("--pin-hotkey");
    assert("--pin-hotkey"@.len() != "--ocr-models-registry"@.len());
    reveal_strlit("--completion-action");
    assert("--completion-action"@.len() != "--ocr-models-registry"@.len());
    reveal_strlit("--pin-opacity");
    assert("--pin-opacity"@.len() != "--ocr-models-registry"@.len());
    reveal_strlit("--pin-zoom-step");
    assert("--pin-zoom-step"@.len() != "--ocr-models-registry"@.len());
    reveal_strlit("--pin-min-width");
    assert("--pin-min-width"@.len() != "--ocr-models-registry"@.len());
    reveal_strlit("--pin-min-height");
    assert("--pin-min-height"@.len() != "--ocr-models-registry"@.len());
    reveal_strlit("--pin-always-on-top");
    assert("--pin-always-on-top"@.len() != "--ocr-models-registry"@.len());
    reveal_strlit("--ocr-provider");
    assert("--ocr-provider"@.len() != "--ocr-models-registry"@.len());
    reveal_strlit("--ocr-language-hint");
    assert("--ocr-language-hint"@.len() != "--ocr-models-registry"@.len());
    reveal_strlit("--ocr-default-model-id");
    assert("--ocr-default-model-id"@.len() != "--ocr-models-registry"@.len());
}

proof fn lemma_flag_ocr_text_font_height_ratio()
    ensures
        flag_of("--ocr-text-font-height-ratio"@) == Some(OverlayFlag::Float(FloatArg::OcrTextFontHeightRatio)),
{
    reveal(flag_of);
    reveal_strlit("--ocr-text-font-height-ratio");
    reveal_strlit("--capture");
    assert("--capture"@.len() != "--ocr-text-font-height-ratio"@.len());
    reveal_strlit("--pin");
    assert("--pin"@.len() != "--ocr-text-font-height-ratio"@.len());
    reveal_strlit("--image");
    assert("--image"@.len() != "--ocr-text-font-height-ratio"@.len());
    reveal_strlit("--snapshot");
    assert("--snapshot"@.len() != "--ocr-text-font-height-ratio"@.len());
    reveal_strlit("--language");
    assert("--language"@.len() != "--ocr-text-font-height-ratio"@.len());
    reveal_strlit("--x");
    assert("--x"@.len() != "--ocr-text-font-height-ratio"@.len());
    reveal_strlit("--y");
    assert("--y"@.len() != "--ocr-text-font-height-ratio"@.len());
    reveal_strlit("--width");
    assert("--width"@.len() != "--ocr-text-font-height-ratio"@.len());
    reveal_strlit("--height");
    assert("--height"@.len() != "--ocr-text-font-height-ratio"@.len());
    reveal_strlit("--include-cursor");
    assert("--include-cursor"@.len() != "--ocr-text-font-height-ratio"@.len());
    reveal_strlit("--resident");
    assert("--resident"@.len() != "--ocr-text-font-height-ratio"@.len());
    reveal_strlit("--control-port");
    assert("--control-port"@.len() != "--ocr-text-font-height-ratio"@.len());
    reveal_strlit("--mask-opacity");
    assert("--mask-opacity"@.len() != "--ocr-text-font-height-ratio"@.len());
    reveal_strlit("--border-color");
    assert("--border-color"@.len() != "--ocr-text-font-height-ratio"@.len());
    reveal_strlit("--show-size-label");
    assert("--show-size-label"@.len() != "--ocr-text-font-height-ratio"@.len());
    reveal_strlit("--show-toolbar");
    assert("--show-toolbar"@.len() != "--ocr-text-font-height-ratio"@.len());
    reveal_strlit("--show-magnifier");
    assert("--show-magnifier"@.len() != "--ocr-text-font-height-ratio"@.len());
    reveal_strlit("--magnifier-scale");
    assert("--magnifier-scale"@.len() != "--ocr-text-font-height-ratio"@.len());
    reveal_strlit("--pin-hotkey");
    assert("--pin-hotkey"@.len() != "--ocr-text-font-height-ratio"@.len());
    reveal_strlit("--completion-action");
    assert("--completion-action"@.len() != "--ocr-text-font-height-ratio"@.len());
    reveal_strlit("--pin-opacity");
    assert("--pin-opacity"@.len() != "--ocr-text-font-height-ratio"@.len());
    reveal_strlit("--pin-zoom-step");
    assert("--pin-zoom-step"@.len() != "--ocr-text-font-height-ratio"@.len());
    reveal_strlit("--pin-min-width");
    assert("--pin-min-width"@.len() != "--ocr-text-font-height-ratio"@.len());
    reveal_strlit("--pin-min-height");
    assert("--pin-min-height"@.len() != "--ocr-text-font-height-ratio"@.len());
    reveal_strlit("--pin-always-on-top");
    assert("--pin-always-on-top"@.len() != "--ocr-text-font-height-ratio"@.len());
    reveal_strlit("--ocr-provider");
    assert("--ocr-provider"@.len() != "--ocr-text-font-height-ratio"@.len());
    reveal_strlit("--ocr-language-hint");
    assert("--ocr-language-hint"@.len() != "--ocr-text-font-height-ratio"@.len());
    reveal_strlit("--ocr-default-model-id");
    assert("--ocr-default-model-id"@.len() != "--ocr-text-font-height-ratio"@.len());
    reveal_strlit("--ocr-models-registry");
    assert("--ocr-models-registry"@.len() != "--ocr-text-font-height-ratio"@.len());
}

proof fn lemma_flag_ocr_text_min_font_size()
    ensures
        flag_of("--ocr-text-min-font-size"@) == Some(OverlayFlag::Float(FloatArg::OcrTextMinFontSize)),
{
    reveal(flag_of);
    reveal_strlit("--ocr-text-min-font-size");
    reveal_strlit("--capture");
    assert("--capture"@.len() != "--ocr-text-min-font-size"@.len());
    reveal_strlit("--pin");
    assert("--pin"@.len() != "--ocr-text-min-font-size"@.len());
    reveal_strlit("--image");
    assert("--image"@.len() != "--ocr-text-min-font-size"@.len());
    reveal_strlit("--snapshot");
    assert("--snapshot"@.len() != "--ocr-text-min-font-size"@.len());
    reveal_strlit("--language");
    assert("--language"@.len() != "--ocr-text-min-font-size"@.len());
    reveal_strlit("--x");
    assert("--x"@.len() != "--ocr-text-min-font-size"@.len());
    reveal_strlit("--y");
    assert("--y"@.len() != "--ocr-text-min-font-size"@.len());
    reveal_strlit("--width");
    assert("--width"@.len() != "--ocr-text-min-font-size"@.len());
    reveal_strlit("--height");
    assert("--height"@.len() != "--ocr-text-min-font-size"@.len());
    reveal_strlit("--include-cursor");
    assert("--include-cursor"@.len() != "--ocr-text-min-font-size"@.len());
    reveal_strlit("--resident");
    assert("--resident"@.len() != "--ocr-text-min-font-size"@.len());
    reveal_strlit("--control-port");
    assert("--control-port"@.len() != "--ocr-text-min-font-size"@.len());
    reveal_strlit("--mask-opacity");
    assert("--mask-opacity"@.len() != "--ocr-text-min-font-size"@.len());
    reveal_strlit("--border-color");
    assert("--border-color"@.len() != "--ocr-text-min-font-size"@.len());
    reveal_strlit("--show-size-label");
    assert("--show-size-label"@.len() != "--ocr-text-min-font-size"@.len());
    reveal_strlit("--show-toolbar");
    assert("--show-toolbar"@.len() != "--ocr-text-min-font-size"@.len());
    reveal_strlit("--show-magnifier");
    assert("--show-magnifier"@.len() != "--ocr-text-min-font-size"@.len());
    reveal_strlit("--magnifier-scale");
    assert("--magnifier-scale"@.len() != "--ocr-text-min-font-size"@.len());
    reveal_strlit("--pin-hotkey");
    assert("--pin-hotkey"@.len() != "--ocr-text-min-font-size"@.len());
    reveal_strlit("--completion-action");
    assert("--completion-action"@.len() != "--ocr-text-min-font-size"@.len());
    reveal_strlit("--pin-opacity");
    assert("--pin-opacity"@.len() != "--ocr-text-min-font-size"@.len());
    reveal_strlit("--pin-zoom-step");
    assert("--pin-zoom-step"@.len() != "--ocr-text-min-font-size"@.len());
    reveal_strlit("--pin-min-width");
    assert("--pin-min-width"@.len() != "--ocr-text-min-font-size"@.len());
    reveal_strlit("--pin-min-height");
    assert("--pin-min-height"@.len() != "--ocr-text-min-font-size"@.len());
    reveal_strlit("--pin-always-on-top");
    assert("--pin-always-on-top"@.len() != "--ocr-text-min-font-size"@.len());
    reveal_strlit("--ocr-provider");
    assert("--ocr-provider"@.len() != "--ocr-text-min-font-size"@.len());
    reveal_strlit("--ocr-language-hint");
    assert("--ocr-language-hint"@.len() != "--ocr-text-min-font-size"@.len());
    reveal_strlit("--ocr-default-model-id");
    assert("--ocr-default-model-id"@.len() != "--ocr-text-min-font-size"@.len());
    reveal_strlit("--ocr-models-registry");
    assert("--ocr-models-registry"@.len() != "--ocr-text-min-font-size"@.len());
    reveal_strlit("--ocr-text-font-height-ratio");
    assert("--ocr-text-font-height-ratio"@.len() != "--ocr-text-min-font-size"@.len());
}

proof fn lemma_flag_ocr_text_max_font_size()
    ensures
        flag_of("--ocr-text-max-font-size"@) == Some(OverlayFlag::Float(FloatArg::OcrTextMaxFontSize)),
{
    reveal(flag_of);
    reveal_strlit("--ocr-text-max-font-size");
    reveal_strlit("--capture");
    assert("--capture"@.len() != "--ocr-text-max-font-size"@.len());
    reveal_strlit("--pin");
    assert("--pin"@.len() != "--ocr-text-max-font-size"@.len());
    reveal_strlit("--image");
    assert("--image"@.len() != "--ocr-text-max-font-size"@.len());
    reveal_strlit("--snapshot");
    assert("--snapshot"@.len() != "--ocr-text-max-font-size"@.len());
    reveal_strlit("--language");
    assert("--language"@.len() != "--ocr-text-max-font-size"@.len());
    reveal_strlit("--x");
    assert("--x"@.len() != "--ocr-text-max-font-size"@.len());
    reveal_strlit("--y");
    assert("--y"@.len() != "--ocr-text-max-font-size"@.len());
    reveal_strlit("--width");
    assert("--width"@.len() != "--ocr-text-max-font-size"@.len());
    reveal_strlit("--height");
    assert("--height"@.len() != "--ocr-text-max-font-size"@.len());
    reveal_strlit("--include-cursor");
    assert("--include-cursor"@.len() != "--ocr-text-max-font-size"@.len());
    reveal_strlit("--resident");
    assert("--resident"@.len() != "--ocr-text-max-font-size"@.len());
    reveal_strlit("--control-port");
    assert("--control-port"@.len() != "--ocr-text-max-font-size"@.len());
    reveal_strlit("--mask-opacity");
    assert("--mask-opacity"@.len() != "--ocr-text-max-font-size"@.len());
    reveal_strlit("--border-color");
    assert("--border-color"@.len() != "--ocr-text-max-font-size"@.len());
    reveal_strlit("--show-size-label");
    assert("--show-size-label"@.len() != "--ocr-text-max-font-size"@.len());
    reveal_strlit("--show-toolbar");
    assert("--show-toolbar"@.len() != "--ocr-text-max-font-size"@.len());
    reveal_strlit("--show-magnifier");
    assert("--show-magnifier"@.len() != "--ocr-text-max-font-size"@.len());
    reveal_strlit("--magnifier-scale");
    assert("--magnifier-scale"@.len() != "--ocr-text-max-font-size"@.len());
    reveal_strlit("--pin-hotkey");
    assert("--pin-hotkey"@.len() != "--ocr-text-max-font-size"@.len());
    reveal_strlit("--completion-action");
    assert("--completion-action"@.len() != "--ocr-text-max-font-size"@.len());
    reveal_strlit("--pin-opacity");
    assert("--pin-opacity"@.len() != "--ocr-text-max-font-size"@.len());
    reveal_strlit("--pin-zoom-step");
    assert("--pin-zoom-step"@.len() != "--ocr-text-max-font-size"@.len());
    reveal_strlit("--pin-min-width");
    assert("--pin-min-width"@.len() != "--ocr-text-max-font-size"@.len());
    reveal_strlit("--pin-min-height");
    assert("--pin-min-height"@.len() != "--ocr-text-max-font-size"@.len());
    reveal_strlit("--pin-always-on-top");
    assert("--pin-always-on-top"@.len() != "--ocr-text-max-font-size"@.len());
    reveal_strlit("--ocr-provider");
    assert("--ocr-provider"@.len() != "--ocr-text-max-font-size"@.len());
    reveal_strlit("--ocr-language-hint");
    assert("--ocr-language-hint"@.len() != "--ocr-text-max-font-size"@.len());
    reveal_strlit("--ocr-default-model-id");
    assert("--ocr-default-model-id"@.len() != "--ocr-text-max-font-size"@.len());
    reveal_strlit("--ocr-models-registry");
    assert("--ocr-models-registry"@.len() != "--ocr-text-max-font-size"@.len());
    reveal_strlit("--ocr-text-font-height-ratio");
    assert("--ocr-text-font-height-ratio"@.len() != "--ocr-text-max-font-size"@.len());
    reveal_strlit("--ocr-text-min-font-size");
    assert("--ocr-text-min-font-size"@[12] != "--ocr-text-max-font-size"@[12]);
}

proof fn lemma_flag_ocr_text_padding_x()
    ensures
        flag_of("--ocr-text-padding-x"@) == Some(OverlayFlag::Float(FloatArg::OcrTextPaddingX)),
{
    reveal(flag_of);
    reveal_strlit("--ocr-text-padding-x");
    reveal_strlit("--capture");
    assert("--capture"@.len() != "--ocr-text-padding-x"@.len());
    reveal_strlit("--pin");
    assert("--pin"@.len() != "--ocr-text-padding-x"@.len());
    reveal_strlit("--image");
    assert("--image"@.len() != "--ocr-text-padding-x"@.len());
    reveal_strlit("--snapshot");
    assert("--snapshot"@.len() != "--ocr-text-padding-x"@.len());
    reveal_strlit("--language");
    assert("--language"@.len() != "--ocr-text-padding-x"@.len());
    reveal_strlit("--x");
    assert("--x"@.len() != "--ocr-text-padding-x"@.len());
    reveal_strlit("--y");
    assert("--y"@.len() != "--ocr-text-padding-x"@.len());
    reveal_strlit("--width");
    assert("--width"@.len() != "--ocr-text-padding-x"@.len());
    reveal_strlit("--height");
    assert("--height"@.len() != "--ocr-text-padding-x"@.len());
    reveal_strlit("--include-cursor");
    assert("--include-cursor"@.len() != "--ocr-text-padding-x"@.len());
    reveal_strlit("--resident");
    assert("--resident"@.len() != "--ocr-text-padding-x"@.len());
    reveal_strlit("--control-port");
    assert("--control-port"@.len() != "--ocr-text-padding-x"@.len());
    reveal_strlit("--mask-opacity");
    assert("--mask-opacity"@.len() != "--ocr-text-padding-x"@.len());
    reveal_strlit("--border-color");
    assert("--border-color"@.len() != "--ocr-text-padding-x"@.len());
    reveal_strlit("--show-size-label");
    assert("--show-size-label"@.len() != "--ocr-text-padding-x"@.len());
    reveal_strlit("--show-toolbar");
    assert("--show-toolbar"@.len() != "--ocr-text-padding-x"@.len());
    reveal_strlit("--show-magnifier");
    assert("--show-magnifier"@.len() != "--ocr-text-padding-x"@.len());
    reveal_strlit("--magnifier-scale");
    assert("--magnifier-scale"@.len() != "--ocr-text-padding-x"@.len());
    reveal_strlit("--pin-hotkey");
    assert("--pin-hotkey"@.len() != "--ocr-text-padding-x"@.len());
    reveal_strlit("--completion-action");
    assert("--completion-action"@.len() != "--ocr-text-padding-x"@.len());
    reveal_strlit("--pin-opacity");
    assert("--pin-opacity"@.len() != "--ocr-text-padding-x"@.len());
    reveal_strlit("--pin-zoom-step");
    assert("--pin-zoom-step"@.len() != "--ocr-text-padding-x"@.len());
    reveal_strlit("--pin-min-width");
    assert("--pin-min-width"@.len() != "--ocr-text-padding-x"@.len());
    reveal_strlit("--pin-min-height");
    assert("--pin-min-height"@.len() != "--ocr-text-padding-x"@.len());
    reveal_strlit("--pin-always-on-top");
    assert("--pin-always-on-top"@.len() != "--ocr-text-padding-x"@.len());
    reveal_strlit("--ocr-provider");
    assert("--ocr-provider"@.len() != "--ocr-text-padding-x"@.len());
    reveal_strlit("--ocr-language-hint");
    assert("--ocr-language-hint"@.len() != "--ocr-text-padding-x"@.len());
    reveal_strlit("--ocr-default-model-id");
    assert("--ocr-default-model-id"@.len() != "--ocr-text-padding-x"@.len());
    reveal_strlit("--ocr-models-registry");
    assert("--ocr-models-registry"@.len() != "--ocr-text-padding-x"@.len());
    reveal_strlit("--ocr-text-font-height-ratio");
    assert("--ocr-text-font-height-ratio"@.len() != "--ocr-text-padding-x"@.len());
    reveal_strlit("--ocr-text-min-font-size");
    assert("--ocr-text-min-font-size"@.len() != "--ocr-text-padding-x"@.len());
    reveal_strlit("--ocr-text-max-font-size");
    assert("--ocr-text-max-font-size"@.len() != "--ocr-text-padding-x"@.len());
}

proof fn lemma_flag_ocr_text_padding_y()
    ensures
        flag_of("--ocr-text-padding-y"@) == Some(OverlayFlag::Float(FloatArg::OcrTextPaddingY)),
{
    reveal(flag_of);
    reveal_strlit("--ocr-text-padding-y");
    reveal_strlit("--capture");
    assert("--capture"@.len() != "--ocr-text-padding-y"@.len());
    reveal_strlit("--pin");
    assert("--pin"@.len() != "--ocr-text-padding-y"@.len());
    reveal_strlit("--image");
    assert("--image"@.len() != "--ocr-text-padding-y"@.len());
    reveal_strlit("--snapshot");
    assert("--snapshot"@.len() != "--ocr-text-padding-y"@.len());
    reveal_strlit("--language");
    assert("--language"@.len() != "--ocr-text-padding-y"@.len());
    reveal_strlit("--x");
    assert("--x"@.len() != "--ocr-text-padding-y"@.len());
    reveal_strlit("--y");
    assert("--y"@.len() != "--ocr-text-padding-y"@.len());
    reveal_strlit("--width");
    assert("--width"@.len() != "--ocr-text-padding-y"@.len());
    reveal_strlit("--height");
    assert("--height"@.len() != "--ocr-text-padding-y"@.len());
    reveal_strlit("--include-cursor");
    assert("--include-cursor"@.len() != "--ocr-text-padding-y"@.len());
    reveal_strlit("--resident");
    assert("--resident"@.len() != "--ocr-text-padding-y"@.len());
    reveal_strlit("--control-port");
    assert("--control-port"@.len() != "--ocr-text-padding-y"@.len());
    reveal_strlit("--mask-opacity");
    assert("--mask-opacity"@.len() != "--ocr-text-padding-y"@.len());
    reveal_strlit("--border-color");
    assert("--border-color"@.len() != "--ocr-text-padding-y"@.len());
    reveal_strlit("--show-size-label");
    assert("--show-size-label"@.len() != "--ocr-text-padding-y"@.len());
    reveal_strlit("--show-toolbar");
    assert("--show-toolbar"@.len() != "--ocr-text-padding-y"@.len());
    reveal_strlit("--show-magnifier");
    assert("--show-magnifier"@.len() != "--ocr-text-padding-y"@.len());
    reveal_strlit("--magnifier-scale");
    assert("--magnifier-scale"@.len() != "--ocr-text-padding-y"@.len());
    reveal_strlit("--pin-hotkey");
    assert("--pin-hotkey"@.len() != "--ocr-text-padding-y"@.len());
    reveal_strlit("--completion-action");
    assert("--completion-action"@.len() != "--ocr-text-padding-y"@.len());
    reveal_strlit("--pin-opacity");
    assert("--pin-opacity"@.len() != "--ocr-text-padding-y"@.len());
    reveal_strlit("--pin-zoom-step");
    assert("--pin-zoom-step"@.len() != "--ocr-text-padding-y"@.len());
    reveal_strlit("--pin-min-width");
    assert("--pin-min-width"@.len() != "--ocr-text-padding-y"@.len());
    reveal_strlit("--pin-min-height");
    assert("--pin-min-height"@.len() != "--ocr-text-padding-y"@.len());
    reveal_strlit("--pin-always-on-top");
    assert("--pin-always-on-top"@.len() != "--ocr-text-padding-y"@.len());
    reveal_strlit("--ocr-provider");
    assert("--ocr-provider"@.len() != "--ocr-text-padding-y"@.len());
    reveal_strlit("--ocr-language-hint");
    assert("--ocr-language-hint"@.len() != "--ocr-text-padding-y"@.len());
    reveal_strlit("--ocr-default-model-id");
    assert("--ocr-default-model-id"@.len() != "--ocr-text-padding-y"@.len());
    reveal_strlit("--ocr-models-registry");
    assert("--ocr-models-registry"@.len() != "--ocr-text-padding-y"@.len());
    reveal_strlit("--ocr-text-font-height-ratio");
    assert("--ocr-text-font-height-ratio"@.len() != "--ocr-text-padding-y"@.len());
    reveal_strlit("--ocr-text-min-font-size");
    assert("--ocr-text-min-font-size"@.len() != "--ocr-text-padding-y"@.len());
    reveal_strlit("--ocr-text-max-font-size");
    assert("--ocr-text-max-font-size"@.len() != "--ocr-text-padding-y"@.len());
    reveal_strlit("--ocr-text-padding-x");
    assert("--ocr-text-padding-x"@[19] != "--ocr-text-padding-y"@[19]);
}

proof fn lemma_flag_ocr_text_interaction_padding_x()
    ensures
        flag_of("--ocr-text-interaction-padding-x"@) == Some(OverlayFlag::Float(FloatArg::OcrTextInteractionPaddingX)),
{
    reveal(flag_of);
    reveal_strlit("--ocr-text-interaction-padding-x");
    reveal_strlit("--capture");
    assert("--capture"@.len() != "--ocr-text-interaction-padding-x"@.len());
    reveal_strlit("--pin");
    assert("--pin"@.len() != "--ocr-text-interaction-padding-x"@.len());
    reveal_strlit("--image");
    assert("--image"@.len() != "--ocr-text-interaction-padding-x"@.len());
    reveal_strlit("--snapshot");
    assert("--snapshot"@.len() != "--ocr-text-interaction-padding-x"@.len());
    reveal_strlit("--language");
    assert("--language"@.len() != "--ocr-text-interaction-padding-x"@.len());
    reveal_strlit("--x");
    assert("--x"@.len() != "--ocr-text-interaction-padding-x"@.len());
    reveal_strlit("--y");
    assert("--y"@.len() != "--ocr-text-interaction-padding-x"@.len());
    reveal_strlit("--width");
    assert("--width"@.len() != "--ocr-text-interaction-padding-x"@.len());
    reveal_strlit("--height");
    assert("--height"@.len() != "--ocr-text-interaction-padding-x"@.len());
    reveal_strlit("--include-cursor");
    assert("--include-cursor"@.len() != "--ocr-text-interaction-padding-x"@.len());
    reveal_strlit("--resident");
    assert("--resident"@.len() != "--ocr-text-interaction-padding-x"@.len());
    reveal_strlit("--control-port");
    assert("--control-port"@.len() != "--ocr-text-interaction-padding-x"@.len());
    reveal_strlit("--mask-opacity");
    assert("--mask-opacity"@.len() != "--ocr-text-interaction-padding-x"@.len());
    reveal_strlit("--border-color");
    assert("--border-color"@.len() != "--ocr-text-interaction-padding-x"@.len());
    reveal_strlit("--show-size-label");
    assert("--show-size-label"@.len() != "--ocr-text-interaction-padding-x"@.len());
    reveal_strlit("--show-toolbar");
    assert("--show-toolbar"@.len() != "--ocr-text-interaction-padding-x"@.len());
    reveal_strlit("--show-magnifier");
    assert("--show-magnifier"@.len() != "--ocr-text-interaction-padding-x"@.len());
    reveal_strlit("--magnifier-scale");
    assert("--magnifier-scale"@.len() != "--ocr-text-interaction-padding-x"@.len());
    reveal_strlit("--pin-hotkey");
    assert("--pin-hotkey"@.len() != "--ocr-text-interaction-padding-x"@.len());
    reveal_strlit("--completion-action");
    assert("--completion-action"@.len() != "--ocr-text-interaction-padding-x"@.len());
    reveal_strlit("--pin-opacity");
    assert("--pin-opacity"@.len() != "--ocr-text-interaction-padding-x"@.len());
    reveal_strlit("--pin-zoom-step");
    assert("--pin-zoom-step"@.len() != "--ocr-text-interaction-padding-x"@.len());
    reveal_strlit("--pin-min-width");
    assert("--pin-min-width"@.len() != "--ocr-text-interaction-padding-x"@.len());
    reveal_strlit("--pin-min-height");
    assert("--pin-min-height"@.len() != "--ocr-text-interaction-padding-x"@.len());
    reveal_strlit("--pin-always-on-top");
    assert("--pin-always-on-top"@.len() != "--ocr-text-interaction-padding-x"@.len());
    reveal_strlit("--ocr-provider");
    assert("--ocr-provider"@.len() != "--ocr-text-interaction-padding-x"@.len());
    reveal_strlit("--ocr-language-hint");
    assert("--ocr-language-hint"@.len() != "--ocr-text-interaction-padding-x"@.len());
    reveal_strlit("--ocr-default-model-id");
    assert("--ocr-default-model-id"@.len() != "--ocr-text-interaction-padding-x"@.len());
    reveal_strlit("--ocr-models-registry");
    assert("--ocr-models-registry"@.len() != "--ocr-text-interaction-padding-x"@.len());
    reveal_strlit("--ocr-text-font-height-ratio");
    assert("--ocr-text-font-height-ratio"@.len() != "--ocr-text-interaction-padding-x"@.len());
    reveal_strlit("--ocr-text-min-font-size");
    assert("--ocr-text-min-font-size"@.len() != "--ocr-text-interaction-padding-x"@.len());
    reveal_strlit("--ocr-text-max-font-size");
    assert("--ocr-text-max-font-size"@.len() != "--ocr-text-interaction-padding-x"@.len());
    reveal_strlit("--ocr-text-padding-x");
    assert("--ocr-text-padding-x"@.len() != "--ocr-text-interaction-padding-x"@.len());
    reveal_strlit("--ocr-text-padding-y");
    assert("--ocr-text-padding-y"@.len() != "--ocr-text-interaction-padding-x"@.len());
}

proof fn lemma_flag_ocr_text_interaction_padding_y()
    ensures
        flag_of("--ocr-text-interaction-padding-y"@) == Some(OverlayFlag::Float(FloatArg::OcrTextInteractionPaddingY)),
{
    reveal(flag_of);
    reveal_strlit("--ocr-text-interaction-padding-y");
    reveal_strlit("--capture");
    assert("--capture"@.len() != "--ocr-text-interaction-padding-y"@.len());
    reveal_strlit("--pin");
    assert("--pin"@.len() != "--ocr-text-interaction-padding-y"@.len());
    reveal_strlit("--image");
    assert("--image"@.len() != "--ocr-text-interaction-padding-y"@.len());
    reveal_strlit("--snapshot");
    assert("--snapshot"@.len() != "--ocr-text-interaction-padding-y"@.len());
    reveal_strlit("--language");
    assert("--language"@.len() != "--ocr-text-interaction-padding-y"@.len());
    reveal_strlit("--x");
    assert("--x"@.len() != "--ocr-text-interaction-padding-y"@.len());
    reveal_strlit("--y");
    assert("--y"@.len() != "--ocr-text-interaction-padding-y"@.len());
    reveal_strlit("--width");
    assert("--width"@.len() != "--ocr-text-interaction-padding-y"@.len());
    reveal_strlit("--height");
    assert("--height"@.len() != "--ocr-text-interaction-padding-y"@.len());
    reveal_strlit("--include-cursor");
    assert("--include-cursor"@.len() != "--ocr-text-interaction-padding-y"@.len());
    reveal_strlit("--resident");
    assert("--resident"@.len() != "--ocr-text-interaction-padding-y"@.len());
    reveal_strlit("--control-port");
    assert("--control-port"@.len() != "--ocr-text-interaction-padding-y"@.len());
    reveal_strlit("--mask-opacity");
    assert("--mask-opacity"@.len() != "--ocr-text-interaction-padding-y"@.len());
    reveal_strlit("--border-color");
    assert("--border-color"@.len() != "--ocr-text-interaction-padding-y"@.len());
    reveal_strlit("--show-size-label");
    assert("--show-size-label"@.len() != "--ocr-text-interaction-padding-y"@.len());
    reveal_strlit("--show-toolbar");
    assert("--show-toolbar"@.len() != "--ocr-text-interaction-padding-y"@.len());
    reveal_strlit("--show-magnifier");
    assert("--show-magnifier"@.len() != "--ocr-text-interaction-padding-y"@.len());
    reveal_strlit("--magnifier-scale");
    assert("--magnifier-scale"@.len() != "--ocr-text-interaction-padding-y"@.len());
    reveal_strlit("--pin-hotkey");
    assert("--pin-hotkey"@.len() != "--ocr-text-interaction-padding-y"@.len());
    reveal_strlit("--completion-action");
    assert("--completion-action"@.len() != "--ocr-text-interaction-padding-y"@.len());
    reveal_strlit("--pin-opacity");
    assert("--pin-opacity"@.len() != "--ocr-text-interaction-padding-y"@.len());
    reveal_strlit("--pin-zoom-step");
    assert("--pin-zoom-step"@.len() != "--ocr-text-interaction-padding-y"@.len());
    reveal_strlit("--pin-min-width");
    assert("--pin-min-width"@.len() != "--ocr-text-interaction-padding-y"@.len());
    reveal_strlit("--pin-min-height");
    assert("--pin-min-height"@.len() != "--ocr-text-interaction-padding-y"@.len());
    reveal_strlit("--pin-always-on-top");
    assert("--pin-always-on-top"@.len() != "--ocr-text-interaction-padding-y"@.len());
    reveal_strlit("--ocr-provider");
    assert("--ocr-provider"@.len() != "--ocr-text-interaction-padding-y"@.len());
    reveal_strlit("--ocr-language-hint");
    assert("--ocr-language-hint"@.len() != "--ocr-text-interaction-padding-y"@.len());
    reveal_strlit("--ocr-default-model-id");
    assert("--ocr-default-model-id"@.len() != "--ocr-text-interaction-padding-y"@.len());
    reveal_strlit("--ocr-models-registry");
    assert("--ocr-models-registry"@.len() != "--ocr-text-interaction-padding-y"@.len());
    reveal_strlit("--ocr-text-font-height-ratio");
    assert("--ocr-text-font-height-ratio"@.len() != "--ocr-text-interaction-padding-y"@.len());
    reveal_strlit("--ocr-text-min-font-size");
    assert("--ocr-text-min-font-size"@.len() != "--ocr-text-interaction-padding-y"@.len());
    reveal_strlit("--ocr-text-max-font-size");
    assert("--ocr-text-max-font-size"@.len() != "--ocr-text-interaction-padding-y"@.len());
    reveal_strlit("--ocr-text-padding-x");
    assert("--ocr-text-padding-x"@.len() != "--ocr-text-interaction-padding-y"@.len());
    reveal_strlit("--ocr-text-padding-y");
    assert("--ocr-text-padding-y"@.len() != "--ocr-text-interaction-padding-y"@.len());
    reveal_strlit("--ocr-text-interaction-padding-x");
    assert("--ocr-text-interaction-padding-x"@[31] != "--ocr-text-interaction-padding-y"@[31]);
}

/// Every overlay option is read back from its spelling.
pub proof fn flag_text_is_read_back(flag: OverlayFlag)
    ensures
        flag_of(flag_text(flag)) == Some(flag),
{
    match flag {
        OverlayFlag::Capture => lemma_flag_capture(),
        OverlayFlag::Pin => lemma_flag_pin(),
        OverlayFlag::Image => lemma_flag_image(),
        OverlayFlag::Snapshot => lemma_flag_snapshot(),
        OverlayFlag::Language => lemma_flag_language(),
        OverlayFlag::Float(FloatArg::X) => lemma_flag_x(),
        OverlayFlag::Float(FloatArg::Y) => lemma_flag_y(),
        OverlayFlag::Float(FloatArg::Width) => lemma_flag_width(),
        OverlayFlag::Float(FloatArg::Height) => lemma_flag_height(),
        OverlayFlag::IncludeCursor => lemma_flag_include_cursor(),
        OverlayFlag::Resident => lemma_flag_resident(),
        OverlayFlag::ControlPort => lemma_flag_control_port(),
        OverlayFlag::Float(FloatArg::MaskOpacity) => lemma_flag_mask_opacity(),
        OverlayFlag::BorderColor => lemma_flag_border_color(),
        OverlayFlag::ShowSizeLabel => lemma_flag_show_size_label(),
        OverlayFlag::ShowToolbar => lemma_flag_show_toolbar(),
        OverlayFlag::ShowMagnifier => lemma_flag_show_magnifier(),
        OverlayFlag::Float(FloatArg::MagnifierScale) => lemma_flag_magnifier_scale(),
        OverlayFlag::PinHotkey => lemma_flag_pin_hotkey(),
        OverlayFlag::CompletionAction => lemma_flag_completion_action(),
        OverlayFlag::Float(FloatArg::PinOpacity) => lemma_flag_pin_opacity(),
        OverlayFlag::Float(FloatArg::PinZoomStep) => lemma_flag_pin_zoom_step(),
        OverlayFlag::Float(FloatArg::PinMinWidth) => lemma_flag_pin_min_width(),
        OverlayFlag::Float(FloatArg::PinMinHeight) => lemma_flag_pin_min_height(),
        OverlayFlag::PinAlwaysOnTop => lemma_flag_pin_always_on_top(),
        OverlayFlag::OcrProvider => lemma_flag_ocr_provider(),
        OverlayFlag::OcrLanguageHint => lemma_flag_ocr_language_hint(),
        OverlayFlag::OcrDefaultModelId => lemma_flag_ocr_default_model_id(),
        OverlayFlag::OcrModelsRegistry => lemma_flag_ocr_models_registry(),
        OverlayFlag::Float(FloatArg::OcrTextFontHeightRatio) => lemma_flag_ocr_text_font_height_ratio(),
        OverlayFlag::Float(FloatArg::OcrTextMinFontSize) => lemma_flag_ocr_text_min_font_size(),
        OverlayFlag::Float(FloatArg::OcrTextMaxFontSize) => lemma_flag_ocr_text_max_font_size(),
        OverlayFlag::Float(FloatArg::OcrTextPaddingX) => lemma_flag_ocr_text_padding_x(),
        OverlayFlag::Float(FloatArg::OcrTextPaddingY) => lemma_flag_ocr_text_padding_y(),
        OverlayFlag::Float(FloatArg::OcrTextInteractionPaddingX) => lemma_flag_ocr_text_interaction_padding_x(),
        OverlayFlag::Float(FloatArg::OcrTextInteractionPaddingY) => lemma_flag_ocr_text_interaction_padding_y(),
    }
}

/// The exec spelling of an overlay option.
pub fn flag_string(flag: OverlayFlag) -> (r: String)
    ensures
        r@ == flag_text(flag),
{
    match flag {
        OverlayFlag::Capture => "--capture".to_owned(),
        OverlayFlag::Pin => "--pin".to_owned(),
        OverlayFlag::Image => "--image".to_owned(),
        OverlayFlag::Snapshot => "--snapshot".to_owned(),
        OverlayFlag::Language => "--language".to_owned(),
        OverlayFlag::Float(FloatArg::X) => "--x".to_owned(),
        OverlayFlag::Float(FloatArg::Y) => "--y".to_owned(),
        OverlayFlag::Float(FloatArg::Width) => "--width".to_owned(),
        OverlayFlag::Float(FloatArg::Height) => "--height".to_owned(),
        OverlayFlag::IncludeCursor => "--include-cursor".to_owned(),
        OverlayFlag::Resident => "--resident".to_owned(),
        OverlayFlag::ControlPort => "--control-port".to_owned(),
        OverlayFlag::Float(FloatArg::MaskOpacity) => "--mask-opacity".to_owned(),
        OverlayFlag::BorderColor => "--border-color".to_owned(),
        OverlayFlag::ShowSizeLabel => "--show-size-label".to_owned(),
        OverlayFlag::ShowToolbar => "--show-toolbar".to_owned(),
        OverlayFlag::ShowMagnifier => "--show-magnifier".to_owned(),
        OverlayFlag::Float(FloatArg::MagnifierScale) => "--magnifier-scale".to_owned(),
        OverlayFlag::PinHotkey => "--pin-hotkey".to_owned(),
        OverlayFlag::CompletionAction => "--completion-action".to_owned(),
        OverlayFlag::Float(FloatArg::PinOpacity) => "--pin-opacity".to_owned(),
        OverlayFlag::Float(FloatArg::PinZoomStep) => "--pin-zoom-step".to_owned(),
        OverlayFlag::Float(FloatArg::PinMinWidth) => "--pin-min-width".to_owned(),
        OverlayFlag::Float(FloatArg::PinMinHeight) => "--pin-min-height".to_owned(),
        OverlayFlag::PinAlwaysOnTop => "--pin-always-on-top".to_owned(),
        OverlayFlag::OcrProvider => "--ocr-provider".to_owned(),
        OverlayFlag::OcrLanguageHint => "--ocr-language-hint".to_owned(),
        OverlayFlag::OcrDefaultModelId => "--ocr-default-model-id".to_owned(),
        OverlayFlag::OcrModelsRegistry => "--ocr-models-registry".to_owned(),
        OverlayFlag::Float(FloatArg::OcrTextFontHeightRatio) => "--ocr-text-font-height-ratio".to_owned(),
        OverlayFlag::Float(FloatArg::OcrTextMinFontSize) => "--ocr-text-min-font-size".to_owned(),
        OverlayFlag::Float(FloatArg::OcrTextMaxFontSize) => "--ocr-text-max-font-size".to_owned(),
        OverlayFlag::Float(FloatArg::OcrTextPaddingX) => "--ocr-text-padding-x".to_owned(),
        OverlayFlag::Float(FloatArg::OcrTextPaddingY) => "--ocr-text-padding-y".to_owned(),
        OverlayFlag::Float(FloatArg::OcrTextInteractionPaddingX) => "--ocr-text-interaction-padding-x".to_owned(),
        OverlayFlag::Float(FloatArg::OcrTextInteractionPaddingY) => "--ocr-text-interaction-padding-y".to_owned(),
    }
}

/// A colour given by its red, green and blue components.
#[derive(Debug, Clone, Copy, PartialEq, Eq, Structural)]
pub struct Rgb {
    pub r: u8,
    pub g: u8,
    pub b: u8,
}

/// Whether `c` is a hexadecimal digit.
pub open spec fn is_hex_digit(c: char) -> bool {
    ('0' <= c && c <= '9') || ('a' <= c && c <= 'f') || ('A' <= c && c <= 'F')
}

/// The value of a hexadecimal digit.
pub open spec fn hex_digit_value(c: char) -> nat {
    if '0' <= c && c <= '9' {
        ((c as u32) - ('0' as u32)) as nat
    } else if 'a' <= c && c <= 'f' {
        ((c as u32) - ('a' as u32) + 10) as nat
    } else {
        ((c as u32) - ('A' as u32) + 10) as nat
    }
}

/// The value of a string of hexadecimal digits.
pub open spec fn hex_value(s: Seq<char>) -> nat
    decreases s.len(),
{
    if s.len() == 0 {
        0
    } else {
        hex_value(s.drop_last()) * 16 + hex_digit_value(s.last())
    }
}

/// `s` without its leading `#` characters.
pub open spec fn strip_hashes(s: Seq<char>) -> Seq<char>
    decreases s.len(),
{
    if s.len() > 0 && s[0] == '#' {
        strip_hashes(s.drop_first())
    } else {
        s
    }
}

/// Whether every character of `s` is a hexadecimal digit.
pub open spec fn all_hex(s: Seq<char>) -> bool {
    forall|i: int| 0 <= i < s.len() ==> is_hex_digit(#[trigger] s[i])
}

/// The digits of a hexadecimal number as `u32::from_str_radix` reads them: an optional
/// `+` and at least one hexadecimal digit.
pub open spec fn hex_digits(s: Seq<char>) -> Option<Seq<char>> {
    let d = if s.len() > 0 && s[0] == '+' {
        s.drop_first()
    } else {
        s
    };
    if d.len() > 0 && all_hex(d) {
        Some(d)
    } else {
        None
    }
}

/// The colour a `#rrggbb` text gives: surrounding white space and leading `#` are
/// ignored, and six characters must remain that form a hexadecimal number.
pub open spec fn color_of(value: Seq<char>) -> Option<Rgb> {
    let h = strip_hashes(trimmed(value));
    if h.len() == 6 {
        match hex_digits(h) {
            Some(d) => {
                let v = hex_value(d);
                Some(Rgb { r: (v / 65536 % 256) as u8, g: (v / 256 % 256) as u8, b: (v % 256) as u8 })
            },
            None => None,
        }
    } else {
        None
    }
}

/// The colour a `#rrggbb` text gives, if it is one.
pub fn parse_color(value: &str) -> (r: Option<Rgb>)
    ensures
        r == color_of(value@),
{
    let t = trim_str_chars(value);
    let mut i: usize = 0;
    assert(t@.subrange(0, t.len() as int) =~= t@);
    while i < t.len() && t[i] == '#'
        invariant
            i <= t.len(),
            strip_hashes(t@) == strip_hashes(t@.subrange(i as int, t.len() as int)),
        decreases t.len() - i,
    {
        assert(t@.subrange(i as int, t.len() as int).drop_first() =~= t@.subrange(
            i + 1,
            t.len() as int,
        ));
        i = i + 1;
    }
    assert(t@.subrange(0, t.len() as int) =~= t@);
    let ghost h = t@.subrange(i as int, t.len() as int);
    assert(strip_hashes(t@) == h);
    if t.len() - i != 6 {
        return None;
    }
    let start = if t[i] == '+' {
        i + 1
    } else {
        i
    };
    let ghost d = t@.subrange(start as int, t.len() as int);
    assert(h[0] == t@[i as int]);
    if t[i] == '+' {
        assert(h.drop_first() =~= d);
    } else {
        assert(h =~= d);
    }
    if start == t.len() {
        return None;
    }
    let mut v: u32 = 0;
    let mut j = start;
    while j < t.len()
        invariant
            i <= start <= j <= t.len(),
            t.len() - i == 6,
            start < t.len(),
            d == t@.subrange(start as int, t.len() as int),
            h == t@.subrange(i as int, t.len() as int),
            t@ == trimmed(value@),
            strip_hashes(t@) == h,
            h.len() == 6,
            h[0] == t@[i as int],
            t@[i as int] == '+' ==> d == h.drop_first(),
            t@[i as int] != '+' ==> d == h,
            forall|k: int| start <= k < j ==> is_hex_digit(#[trigger] t@[k]),
            v as nat == hex_value(t@.subrange(start as int, j as int)),
            v < pow16(j - start),
            j - start <= 6,
        decreases t.len() - j,
    {
        let c = t[j];
        let ghost p = t@.subrange(start as int, j as int);
        let ghost q = t@.subrange(start as int, j + 1);
        assert(q.drop_last() =~= p);
        assert(q.last() == c);
        let dv: u32 = if '0' <= c && c <= '9' {
            c as u32 - 48
        } else if 'a' <= c && c <= 'f' {
            c as u32 - 97 + 10
        } else if 'A' <= c && c <= 'F' {
            c as u32 - 65 + 10
        } else {
            assert(d[j - start] == c);
            assert(!is_hex_digit(c));
            proof {
                lemma_hex_digits_none(h, d, (j - start) as int);
            }
            return None;
        };
        assert(dv == hex_digit_value(c));
        proof {
            lemma_pow16_values();
            assert(pow16(j + 1 - start) == 16 * pow16(j - start));
            assert(v * 16 + dv < pow16(j + 1 - start)) by (nonlinear_arith)
                requires
                    v < pow16(j - start),
                    dv < 16,
                    pow16(j + 1 - start) == pow16(j - start) * 16,
            ;
        }
        v = v * 16 + dv;
        j = j + 1;
    }
    assert(t@.subrange(start as int, j as int) =~= d);
    assert(hex_digits(h) == Some(d));
    proof {
        lemma_pow16_values();
        assert(pow16(j - start) <= 0x1000000);
        assert(v < 0x1000000);
        assert((v >> 16) & 0xff == v / 65536 % 256) by (bit_vector);
        assert((v >> 8) & 0xff == v / 256 % 256) by (bit_vector);
        assert(v & 0xff == v % 256) by (bit_vector);
    }
    let r = ((v >> 16) & 0xff) as u8;
    let g = ((v >> 8) & 0xff) as u8;
    let b = (v & 0xff) as u8;
    Some(Rgb { r, g, b })
}

/// `16` to the power `n`.
pub open spec fn pow16(n: int) -> nat
    decreases n,
{
    if n <= 0 {
        1
    } else {
        16 * pow16(n - 1)
    }
}

proof fn lemma_hex_digits_none(h: Seq<char>, d: Seq<char>, k: int)
    requires
        h.len() > 0 && h[0] == '+' ==> d == h.drop_first(),
        !(h.len() > 0 && h[0] == '+') ==> d == h,
        0 <= k < d.len(),
        !is_hex_digit(d[k]),
    ensures
        hex_digits(h) is None,
{
    assert(!all_hex(d));
}

proof fn lemma_pow16_values()
    ensures
        pow16(0) == 1,
        pow16(1) == 16,
        pow16(2) == 256,
        pow16(3) == 4096,
        pow16(4) == 65536,
        pow16(5) == 1048576,
        pow16(6) == 16777216,
{
    reveal_with_fuel(pow16, 7);
}

/// What `str::parse::<bool>()` gives.
pub open spec fn bool_of(value: Seq<char>) -> Option<bool> {
    if value == "true"@ {
        Some(true)
    } else if value == "false"@ {
        Some(false)
    } else {
        None
    }
}

fn parse_bool(value: &[char]) -> (r: Option<bool>)
    ensures
        r == bool_of(value@),
{
    if chars_are(value, "true") {
        Some(true)
    } else if chars_are(value, "false") {
        Some(false)
    } else {
        None
    }
}

/// What the overlay starts as.
#[derive(Debug, Clone, Copy, PartialEq, Eq, Structural)]
pub enum OverlayRunMode {
    Capture,
    Pin,
}

/// A float option as it was given on the command line, before it is read as a number.
#[derive(Debug)]
pub struct FloatValue {
    pub arg: FloatArg,
    pub text: String,
}

/// The overlay's command line, read. Float options are kept as given, in order; the
/// value of each is the last of its texts that reads as a number, and the defaults and
/// limits of the float options are applied where they are read.
#[derive(Debug)]
pub struct CliArgs {
    pub mode: OverlayRunMode,
    pub image: Option<String>,
    pub snapshot: Option<String>,
    pub language: OverlayLanguage,
    pub include_cursor: bool,
    pub border_color: Rgb,
    pub show_size_label: bool,
    pub show_toolbar: bool,
    pub show_magnifier: bool,
    pub pin_hotkey: String,
    pub completion_action: String,
    pub pin_always_on_top: bool,
    pub ocr_provider: String,
    pub ocr_language_hint: Option<String>,
    pub ocr_default_model_id: Option<String>,
    pub ocr_models_registry: Option<String>,
    pub resident: bool,
    pub control_port: u16,
    pub float_values: Vec<FloatValue>,
}

/// The value of [`CliArgs`], with text as character sequences.
#[verifier::ext_equal]
pub struct CliArgsView {
    pub mode: OverlayRunMode,
    pub image: Option<Seq<char>>,
    pub snapshot: Option<Seq<char>>,
    pub language: OverlayLanguage,
    pub include_cursor: bool,
    pub border_color: Rgb,
    pub show_size_label: bool,
    pub show_toolbar: bool,
    pub show_magnifier: bool,
    pub pin_hotkey: Seq<char>,
    pub completion_action: Seq<char>,
    pub pin_always_on_top: bool,
    pub ocr_provider: Seq<char>,
    pub ocr_language_hint: Option<Seq<char>>,
    pub ocr_default_model_id: Option<Seq<char>>,
    pub ocr_models_registry: Option<Seq<char>>,
    pub resident: bool,
    pub control_port: u16,
    pub float_values: Seq<(FloatArg, Seq<char>)>,
}

impl View for CliArgs {
    type V = CliArgsView;

    open spec fn view(&self) -> CliArgsView {
        CliArgsView {
            mode: self.mode,
            image: self.image.deep_view(),
            snapshot: self.snapshot.deep_view(),
            language: self.language,
            include_cursor: self.include_cursor,
            border_color: self.border_color,
            show_size_label: self.show_size_label,
            show_toolbar: self.show_toolbar,
            show_magnifier: self.show_magnifier,
            pin_hotkey: self.pin_hotkey@,
            completion_action: self.completion_action@,
            pin_always_on_top: self.pin_always_on_top,
            ocr_provider: self.ocr_provider@,
            ocr_language_hint: self.ocr_language_hint.deep_view(),
            ocr_default_model_id: self.ocr_default_model_id.deep_view(),
            ocr_models_registry: self.ocr_models_registry.deep_view(),
            resident: self.resident,
            control_port: self.control_port,
            float_values: self.float_values@.map_values(|f: FloatValue| (f.arg, f.text@)),
        }
    }
}

/// The port on which the resident overlay listens for commands.
pub const OVERLAY_CONTROL_PORT: u16 = 47232;

/// The border colour of a selection when none is given.
pub open spec fn default_border_color() -> Rgb {
    Rgb { r: 47, g: 138, b: 163 }
}

/// The overlay's options when none is given.
pub open spec fn default_cli_args() -> CliArgsView {
    CliArgsView {
        mode: OverlayRunMode::Capture,
        image: None,
        snapshot: None,
        language: OverlayLanguage::ZhCn,
        include_cursor: false,
        border_color: default_border_color(),
        show_size_label: true,
        show_toolbar: true,
        show_magnifier: true,
        pin_hotkey: "Ctrl+Shift+X"@,
        completion_action: "pin"@,
        pin_always_on_top: true,
        ocr_provider: "local-mnn"@,
        ocr_language_hint: None,
        ocr_default_model_id: None,
        ocr_models_registry: None,
        resident: false,
        control_port: OVERLAY_CONTROL_PORT,
        float_values: Seq::empty(),
    }
}

/// A value if it is not empty.
pub open spec fn non_empty(value: Option<Seq<char>>) -> Option<Seq<char>> {
    match value {
        Some(v) => if v.len() > 0 {
            Some(v)
        } else {
            None
        },
        None => None,
    }
}

/// The options after one option and the value it takes, `next`, are read.
#[verifier::opaque]
pub open spec fn apply_flag(m: CliArgsView, flag: OverlayFlag, next: Option<Seq<char>>) -> CliArgsView {
    match flag {
        OverlayFlag::Capture => CliArgsView { mode: OverlayRunMode::Capture, ..m },
        OverlayFlag::Pin => CliArgsView { mode: OverlayRunMode::Pin, ..m },
        OverlayFlag::Image => CliArgsView { image: next, ..m },
        OverlayFlag::Snapshot => CliArgsView { snapshot: next, ..m },
        OverlayFlag::Language => match next {
            Some(v) => CliArgsView { language: overlay_language_of(v), ..m },
            None => m,
        },
        OverlayFlag::IncludeCursor => CliArgsView { include_cursor: true, ..m },
        OverlayFlag::Resident => CliArgsView { resident: true, ..m },
        OverlayFlag::ControlPort => match next {
            Some(v) => match parse_unsigned(v, 65535) {
                Some(n) => CliArgsView { control_port: n as u16, ..m },
                None => m,
            },
            None => m,
        },
        OverlayFlag::BorderColor => match next {
            Some(v) => match color_of(v) {
                Some(c) => CliArgsView { border_color: c, ..m },
                None => m,
            },
            None => m,
        },
        OverlayFlag::ShowSizeLabel => match next {
            Some(v) => match bool_of(v) {
                Some(b) => CliArgsView { show_size_label: b, ..m },
                None => m,
            },
            None => m,
        },
        OverlayFlag::ShowToolbar => match next {
            Some(v) => match bool_of(v) {
                Some(b) => CliArgsView { show_toolbar: b, ..m },
                None => m,
            },
            None => m,
        },
        OverlayFlag::ShowMagnifier => match next {
            Some(v) => match bool_of(v) {
                Some(b) => CliArgsView { show_magnifier: b, ..m },
                None => m,
            },
            None => m,
        },
        OverlayFlag::PinAlwaysOnTop => match next {
            Some(v) => match bool_of(v) {
                Some(b) => CliArgsView { pin_always_on_top: b, ..m },
                None => m,
            },
            None => m,
        },
        OverlayFlag::PinHotkey => match next {
            Some(v) => CliArgsView { pin_hotkey: v, ..m },
            None => m,
        },
        OverlayFlag::CompletionAction => match next {
            Some(v) => CliArgsView { completion_action: v, ..m },
            None => m,
        },
        OverlayFlag::OcrProvider => match next {
            Some(v) => CliArgsView { ocr_provider: v, ..m },
            None => m,
        },
        OverlayFlag::OcrLanguageHint => CliArgsView { ocr_language_hint: non_empty(next), ..m },
        OverlayFlag::OcrDefaultModelId => CliArgsView {
            ocr_default_model_id: non_empty(next),
            ..m
        },
        OverlayFlag::OcrModelsRegistry => CliArgsView { ocr_models_registry: non_empty(next), ..m },
        OverlayFlag::Float(f) => match next {
            Some(v) => CliArgsView { float_values: m.float_values.push((f, v)), ..m },
            None => m,
        },
    }
}

/// Whether an option takes the argument after it as its value.
pub open spec fn takes_value(flag: OverlayFlag) -> bool {
    match flag {
        OverlayFlag::Capture | OverlayFlag::Pin | OverlayFlag::IncludeCursor
        | OverlayFlag::Resident => false,
        _ => true,
    }
}

/// The options after the arguments from `i` on are read, starting from `m`. An option
/// that takes a value takes the next argument, whatever it is; an argument that is no
/// option is skipped.
pub open spec fn parse_from(args: Seq<Seq<char>>, i: int, m: CliArgsView) -> CliArgsView
    decreases args.len() - i,
{
    if i < 0 || i >= args.len() {
        m
    } else {
        match flag_of(args[i]) {
            None => parse_from(args, i + 1, m),
            Some(flag) => if takes_value(flag) && i + 1 < args.len() {
                parse_from(args, i + 2, apply_flag(m, flag, Some(args[i + 1])))
            } else if takes_value(flag) {
                parse_from(args, i + 1, apply_flag(m, flag, None))
            } else {
                parse_from(args, i + 1, apply_flag(m, flag, None))
            },
        }
    }
}

/// The overlay's options that the arguments give.
pub open spec fn cli_args_of(args: Seq<Seq<char>>) -> CliArgsView {
    parse_from(args, 0, default_cli_args())
}

fn non_empty_value(value: Option<&String>) -> (r: Option<String>)
    ensures
        r.deep_view() == non_empty(
            match value {
                Some(v) => Some(v@),
                None => None,
            },
        ),
{
    match value {
        Some(v) => {
            if v.as_str().is_empty() {
                None
            } else {
                Some(v.clone())
            }
        },
        None => None,
    }
}

impl CliArgs {
    /// The overlay's options when none is given.
    pub fn defaults() -> (r: CliArgs)
        ensures
            r@ == default_cli_args(),
    {
        let r = CliArgs {
            mode: OverlayRunMode::Capture,
            image: None,
            snapshot: None,
            language: OverlayLanguage::ZhCn,
            include_cursor: false,
            border_color: Rgb { r: 47, g: 138, b: 163 },
            show_size_label: true,
            show_toolbar: true,
            show_magnifier: true,
            pin_hotkey: "Ctrl+Shift+X".to_owned(),
            completion_action: "pin".to_owned(),
            pin_always_on_top: true,
            ocr_provider: "local-mnn".to_owned(),
            ocr_language_hint: None,
            ocr_default_model_id: None,
            ocr_models_registry: None,
            resident: false,
            control_port: OVERLAY_CONTROL_PORT,
            float_values: Vec::new(),
        };
        assert(r@ =~= default_cli_args());
        r
    }

    #[verifier::rlimit(80)]
    fn apply(&mut self, flag: OverlayFlag, next: Option<&String>)
        ensures
            final(self)@ == apply_flag(
                old(self)@,
                flag,
                match next {
                    Some(v) => Some(v@),
                    None => None,
                },
            ),
    {
        reveal(apply_flag);
        let ghost nv = match next {
            Some(v) => Some(v@),
            None => None::<Seq<char>>,
        };
        match flag {
            OverlayFlag::Capture => self.mode = OverlayRunMode::Capture,
            OverlayFlag::Pin => self.mode = OverlayRunMode::Pin,
            OverlayFlag::Image => self.image = match next {
                Some(v) => Some(v.clone()),
                None => None,
            },
            OverlayFlag::Snapshot => self.snapshot = match next {
                Some(v) => Some(v.clone()),
                None => None,
            },
            OverlayFlag::Language => {
                if let Some(v) = next {
                    self.language = overlay_language_from_code(v.as_str());
                }
            },
            OverlayFlag::IncludeCursor => self.include_cursor = true,
            OverlayFlag::Resident => self.resident = true,
            OverlayFlag::ControlPort => {
                if let Some(v) = next {
                    let c = str_chars(v.as_str());
                    if let Some(n) = parse_unsigned_chars(&c, 65535) {
                        self.control_port = n as u16;
                    }
                }
            },
            OverlayFlag::BorderColor => {
                if let Some(v) = next {
                    if let Some(c) = parse_color(v.as_str()) {
                        self.border_color = c;
                    }
                }
            },
            OverlayFlag::ShowSizeLabel => {
                if let Some(v) = next {
                    let c = str_chars(v.as_str());
                    if let Some(b) = parse_bool(&c) {
                        self.show_size_label = b;
                    }
                }
            },
            OverlayFlag::ShowToolbar => {
                if let Some(v) = next {
                    let c = str_chars(v.as_str());
                    if let Some(b) = parse_bool(&c) {
                        self.show_toolbar = b;
                    }
                }
            },
            OverlayFlag::ShowMagnifier => {
                if let Some(v) = next {
                    let c = str_chars(v.as_str());
                    if let Some(b) = parse_bool(&c) {
                        self.show_magnifier = b;
                    }
                }
            },
            OverlayFlag::PinAlwaysOnTop => {
                if let Some(v) = next {
                    let c = str_chars(v.as_str());
                    if let Some(b) = parse_bool(&c) {
                        self.pin_always_on_top = b;
                    }
                }
            },
            OverlayFlag::PinHotkey => {
                if let Some(v) = next {
                    self.pin_hotkey = v.clone();
                }
            },
            OverlayFlag::CompletionAction => {
                if let Some(v) = next {
                    self.completion_action = v.clone();
                }
            },
            OverlayFlag::OcrProvider => {
                if let Some(v) = next {
                    self.ocr_provider = v.clone();
                }
            },
            OverlayFlag::OcrLanguageHint => self.ocr_language_hint = non_empty_value(next),
            OverlayFlag::OcrDefaultModelId => self.ocr_default_model_id = non_empty_value(next),
            OverlayFlag::OcrModelsRegistry => self.ocr_models_registry = non_empty_value(next),
            OverlayFlag::Float(f) => {
                if let Some(v) = next {
                    let ghost before = self.float_values@;
                    self.float_values.push(FloatValue { arg: f, text: v.clone() });
                    assert(self.float_values@.map_values(|x: FloatValue| (x.arg, x.text@))
                        =~= before.map_values(|x: FloatValue| (x.arg, x.text@)).push((f, v@)));
                }
            },
        }
        assert(self@ =~= apply_flag(old(self)@, flag, nv));
    }

    /// Reads the overlay's command line, the program name left out. An option that takes
    /// a value takes the next argument, whatever it is; a value that does not read as the
    /// option's type leaves the option as it was; an argument that is no option is
    /// skipped.
    #[verifier::rlimit(60)]
    pub fn parse(args: &Vec<String>) -> (r: CliArgs)
        ensures
            r@ == cli_args_of(args@.map_values(|a: String| a@)),
    {
        let ghost av = args@.map_values(|a: String| a@);
        let mut parsed = CliArgs::defaults();
        let mut i: usize = 0;
        while i < args.len()
            invariant
                i <= args.len(),
                av == args@.map_values(|a: String| a@),
                parse_from(av, i as int, parsed@) == cli_args_of(av),
            decreases args.len() - i,
        {
            let a = str_chars(args[i].as_str());
            assert(av[i as int] == a@);
            match classify_flag(&a) {
                None => {
                    i = i + 1;
                },
                Some(flag) => {
                    if takes_value_flag(flag) {
                        if i + 1 < args.len() {
                            assert(av[i + 1] == args@[i + 1]@);
                            parsed.apply(flag, Some(&args[i + 1]));
                            i = i + 2;
                        } else {
                            parsed.apply(flag, None);
                            i = i + 1;
                        }
                    } else {
                        parsed.apply(flag, None);
                        i = i + 1;
                    }
                },
            }
        }
        parsed
    }
}

/// Reading `--snapshot` or `--image` with an argument after it stores that argument,
/// as it is, as the snapshot or image path, and goes on after it; nothing else changes.
pub proof fn path_options_store_their_values(args: Seq<Seq<char>>, i: int, m: CliArgsView)
    requires
        0 <= i && i + 1 < args.len(),
        args[i] == "--snapshot"@ || args[i] == "--image"@,
    ensures
        args[i] == "--snapshot"@ ==> parse_from(args, i, m) == parse_from(
            args,
            i + 2,
            (CliArgsView { snapshot: Some(args[i + 1]), ..m }),
        ),
        args[i] == "--image"@ ==> parse_from(args, i, m) == parse_from(
            args,
            i + 2,
            (CliArgsView { image: Some(args[i + 1]), ..m }),
        ),
{
    reveal(apply_flag);
    lemma_flag_snapshot();
    lemma_flag_image();
    if args[i] == "--snapshot"@ {
        assert(apply_flag(m, OverlayFlag::Snapshot, Some(args[i + 1])) =~= CliArgsView {
            snapshot: Some(args[i + 1]),
            ..m
        });
    } else {
        assert(apply_flag(m, OverlayFlag::Image, Some(args[i + 1])) =~= CliArgsView {
            image: Some(args[i + 1]),
            ..m
        });
    }
}

/// A capture started with `--capture --snapshot <path>` has that path as its snapshot,
/// and a pin started with `--pin --image <path>` has that path as its image; every
/// other option keeps its default.
pub proof fn capture_and_pin_paths_are_kept(p: Seq<char>)
    ensures
        cli_args_of(seq!["--capture"@, "--snapshot"@, p]) == (CliArgsView {
            snapshot: Some(p),
            ..default_cli_args()
        }),
        cli_args_of(seq!["--pin"@, "--image"@, p]) == (CliArgsView {
            mode: OverlayRunMode::Pin,
            image: Some(p),
            ..default_cli_args()
        }),
        cli_args_of(seq!["--snapshot"@, p]).snapshot == Some(p),
        cli_args_of(seq!["--image"@, p]).image == Some(p),
{
    reveal(apply_flag);
    lemma_flag_capture();
    lemma_flag_pin();
    lemma_flag_snapshot();
    lemma_flag_image();
    let d = default_cli_args();
    let a = seq!["--capture"@, "--snapshot"@, p];
    assert(apply_flag(d, OverlayFlag::Capture, None) =~= d);
    path_options_store_their_values(a, 1, d);
    let ds = CliArgsView { snapshot: Some(p), ..d };
    assert(parse_from(a, 3, ds) == ds);
    assert(parse_from(a, 0, d) == parse_from(a, 1, d));
    let b = seq!["--pin"@, "--image"@, p];
    let dp = CliArgsView { mode: OverlayRunMode::Pin, ..d };
    assert(apply_flag(d, OverlayFlag::Pin, None) =~= dp);
    path_options_store_their_values(b, 1, dp);
    let dpi = CliArgsView { image: Some(p), ..dp };
    assert(parse_from(b, 3, dpi) == dpi);
    assert(parse_from(b, 0, d) == parse_from(b, 1, dp));
    let c = seq!["--snapshot"@, p];
    path_options_store_their_values(c, 0, d);
    assert(parse_from(c, 2, ds) == ds);
    let e = seq!["--image"@, p];
    path_options_store_their_values(e, 0, d);
    let di = CliArgsView { image: Some(p), ..d };
    assert(parse_from(e, 2, di) == di);
}

/// Reading `--pin-hotkey`, `--completion-action` or `--ocr-provider` with an argument
/// after it stores that argument, as it is, as the option's value, and goes on after it;
/// nothing else changes.
pub proof fn text_options_store_their_values(args: Seq<Seq<char>>, i: int, m: CliArgsView)
    requires
        0 <= i && i + 1 < args.len(),
    ensures
        args[i] == "--pin-hotkey"@ ==> parse_from(args, i, m) == parse_from(
            args,
            i + 2,
            (CliArgsView { pin_hotkey: args[i + 1], ..m }),
        ),
        args[i] == "--completion-action"@ ==> parse_from(args, i, m) == parse_from(
            args,
            i + 2,
            (CliArgsView { completion_action: args[i + 1], ..m }),
        ),
        args[i] == "--ocr-provider"@ ==> parse_from(args, i, m) == parse_from(
            args,
            i + 2,
            (CliArgsView { ocr_provider: args[i + 1], ..m }),
        ),
{
    reveal(apply_flag);
    lemma_flag_pin_hotkey();
    lemma_flag_completion_action();
    lemma_flag_ocr_provider();
    let v = args[i + 1];
    if args[i] == "--pin-hotkey"@ {
        assert(apply_flag(m, OverlayFlag::PinHotkey, Some(v)) =~= (CliArgsView {
            pin_hotkey: v,
            ..m
        }));
    } else if args[i] == "--completion-action"@ {
        assert(apply_flag(m, OverlayFlag::CompletionAction, Some(v)) =~= (CliArgsView {
            completion_action: v,
            ..m
        }));
    } else if args[i] == "--ocr-provider"@ {
        assert(apply_flag(m, OverlayFlag::OcrProvider, Some(v)) =~= (CliArgsView {
            ocr_provider: v,
            ..m
        }));
    }
}

fn takes_value_flag(flag: OverlayFlag) -> (b: bool)
    ensures
        b == takes_value(flag),
{
    match flag {
        OverlayFlag::Capture | OverlayFlag::Pin | OverlayFlag::IncludeCursor
        | OverlayFlag::Resident => false,
        _ => true,
    }
}

} // verus!
