use vstd::prelude::*;

use crate::chars::{push_str_chars, str_is, string_from_chars};
use crate::text::{decimal, push_decimal};

verus! {

/// What a capture does when the selection is finished.
#[derive(Debug, Clone, Copy, PartialEq, Eq, Structural)]
pub enum CaptureCompletionAction {
    Pin,
    CopyToClipboard,
    SaveToFile,
    OpenEditor,
}

/// The name under which a completion action is stored in settings.
pub open spec fn completion_action_label(value: CaptureCompletionAction) -> Seq<char> {
    match value {
        CaptureCompletionAction::Pin => "pin"@,
        CaptureCompletionAction::CopyToClipboard => "copy"@,
        CaptureCompletionAction::SaveToFile => "save"@,
        CaptureCompletionAction::OpenEditor => "editor"@,
    }
}

/// The name under which a completion action is stored in settings.
pub fn completion_action_name(value: &CaptureCompletionAction) -> (r: String)
    ensures
        r@ == completion_action_label(*value),
{
    match value {
        CaptureCompletionAction::Pin => "pin".to_owned(),
        CaptureCompletionAction::CopyToClipboard => "copy".to_owned(),
        CaptureCompletionAction::SaveToFile => "save".to_owned(),
        CaptureCompletionAction::OpenEditor => "editor".to_owned(),
    }
}

/// The completion action a stored name stands for; any other name means pinning.
pub open spec fn completion_action_of(value: Seq<char>) -> CaptureCompletionAction {
    if value == "copy"@ {
        CaptureCompletionAction::CopyToClipboard
    } else if value == "save"@ {
        CaptureCompletionAction::SaveToFile
    } else if value == "editor"@ {
        CaptureCompletionAction::OpenEditor
    } else {
        CaptureCompletionAction::Pin
    }
}

/// The completion action a stored name stands for; any other name means pinning.
pub fn parse_completion_action(value: &str) -> (r: CaptureCompletionAction)
    ensures
        r == completion_action_of(value@),
{
    if str_is(value, "copy") {
        CaptureCompletionAction::CopyToClipboard
    } else if str_is(value, "save") {
        CaptureCompletionAction::SaveToFile
    } else if str_is(value, "editor") {
        CaptureCompletionAction::OpenEditor
    } else {
        CaptureCompletionAction::Pin
    }
}

/// Reading back the stored name of a completion action gives the same action.
pub proof fn completion_action_name_round_trip(action: CaptureCompletionAction)
    ensures
        completion_action_of(completion_action_label(action)) == action,
{
    reveal_strlit("pin");
    reveal_strlit("copy");
    reveal_strlit("save");
    reveal_strlit("editor");
    assert("pin"@.len() != "copy"@.len());
    assert("pin"@.len() != "save"@.len());
    assert("pin"@.len() != "editor"@.len());
    assert("copy"@[0] != "save"@[0]);
    assert("copy"@.len() != "editor"@.len());
    assert("save"@.len() != "editor"@.len());
}

/// How much work local OCR spends on an image.
#[derive(Debug, Clone, Copy, PartialEq, Eq, Structural)]
pub enum OcrRunMode {
    Lightweight,
    Standard,
    Compatible,
    Advanced,
    Cloud,
}

/// The name under which an OCR mode is stored in settings.
pub open spec fn ocr_mode_label(value: OcrRunMode) -> Seq<char> {
    match value {
        OcrRunMode::Lightweight => "lightweight"@,
        OcrRunMode::Standard => "standard"@,
        OcrRunMode::Compatible => "compatible"@,
        OcrRunMode::Advanced => "advanced"@,
        OcrRunMode::Cloud => "cloud"@,
    }
}

/// The name under which an OCR mode is stored in settings.
pub fn ocr_mode_name(value: &OcrRunMode) -> (r: String)
    ensures
        r@ == ocr_mode_label(*value),
{
    match value {
        OcrRunMode::Lightweight => "lightweight".to_owned(),
        OcrRunMode::Standard => "standard".to_owned(),
        OcrRunMode::Compatible => "compatible".to_owned(),
        OcrRunMode::Advanced => "advanced".to_owned(),
        OcrRunMode::Cloud => "cloud".to_owned(),
    }
}

/// The OCR mode a stored name stands for; any other name means the standard mode.
pub open spec fn ocr_mode_of(value: Seq<char>) -> OcrRunMode {
    if value == "lightweight"@ {
        OcrRunMode::Lightweight
    } else if value == "compatible"@ {
        OcrRunMode::Compatible
    } else if value == "advanced"@ {
        OcrRunMode::Advanced
    } else if value == "cloud"@ {
        OcrRunMode::Cloud
    } else {
        OcrRunMode::Standard
    }
}

/// The OCR mode a stored name stands for; any other name means the standard mode.
pub fn parse_ocr_mode(value: &str) -> (r: OcrRunMode)
    ensures
        r == ocr_mode_of(value@),
{
    if str_is(value, "lightweight") {
        OcrRunMode::Lightweight
    } else if str_is(value, "compatible") {
        OcrRunMode::Compatible
    } else if str_is(value, "advanced") {
        OcrRunMode::Advanced
    } else if str_is(value, "cloud") {
        OcrRunMode::Cloud
    } else {
        OcrRunMode::Standard
    }
}

/// Reading back the stored name of an OCR mode gives the same mode.
pub proof fn ocr_mode_name_round_trip(mode: OcrRunMode)
    ensures
        ocr_mode_of(ocr_mode_label(mode)) == mode,
{
    reveal_strlit("lightweight");
    reveal_strlit("standard");
    reveal_strlit("compatible");
    reveal_strlit("advanced");
    reveal_strlit("cloud");
    assert("lightweight"@.len() != "standard"@.len());
    assert("lightweight"@.len() != "compatible"@.len());
    assert("lightweight"@.len() != "advanced"@.len());
    assert("lightweight"@.len() != "cloud"@.len());
    assert("standard"@.len() != "compatible"@.len());
    assert("standard"@[0] != "advanced"@[0]);
    assert("standard"@.len() != "cloud"@.len());
    assert("compatible"@.len() != "advanced"@.len());
    assert("compatible"@.len() != "cloud"@.len());
    assert("advanced"@.len() != "cloud"@.len());
}

/// A local OCR runtime.
#[derive(Debug, Clone, Copy, PartialEq, Eq, Structural)]
pub enum OcrLocalBackend {
    Mnn,
    OnnxRuntime,
    PaddleRuntime,
    Custom,
}

/// An OCR service reached over the network.
#[derive(Debug, Clone, Copy, PartialEq, Eq, Structural)]
pub enum OcrExternalProvider {
    OpenAi,
    AzureVision,
    GoogleVision,
    BaiduOcr,
    TencentOcr,
    Custom,
}

/// Where OCR runs.
#[derive(Debug, Clone, Copy, PartialEq, Eq, Structural)]
pub enum OcrProvider {
    Disabled,
    System,
    Local(OcrLocalBackend),
    ExternalApi(OcrExternalProvider),
}

/// The name under which an external OCR service is stored in settings.
pub open spec fn ocr_external_provider_label(value: OcrExternalProvider) -> Seq<char> {
    match value {
        OcrExternalProvider::OpenAi => "api-openai"@,
        OcrExternalProvider::AzureVision => "api-azure"@,
        OcrExternalProvider::GoogleVision => "api-google"@,
        OcrExternalProvider::BaiduOcr => "api-baidu"@,
        OcrExternalProvider::TencentOcr => "api-tencent"@,
        OcrExternalProvider::Custom => "api-custom"@,
    }
}

/// The name under which an external OCR service is stored in settings.
pub fn ocr_external_provider_name(value: &OcrExternalProvider) -> (r: String)
    ensures
        r@ == ocr_external_provider_label(*value),
{
    match value {
        OcrExternalProvider::OpenAi => "api-openai".to_owned(),
        OcrExternalProvider::AzureVision => "api-azure".to_owned(),
        OcrExternalProvider::GoogleVision => "api-google".to_owned(),
        OcrExternalProvider::BaiduOcr => "api-baidu".to_owned(),
        OcrExternalProvider::TencentOcr => "api-tencent".to_owned(),
        OcrExternalProvider::Custom => "api-custom".to_owned(),
    }
}

/// The external OCR service a stored name stands for; any other name means a custom service.
pub open spec fn ocr_external_provider_of(value: Seq<char>) -> OcrExternalProvider {
    if value == "api-openai"@ {
        OcrExternalProvider::OpenAi
    } else if value == "api-azure"@ {
        OcrExternalProvider::AzureVision
    } else if value == "api-google"@ {
        OcrExternalProvider::GoogleVision
    } else if value == "api-baidu"@ {
        OcrExternalProvider::BaiduOcr
    } else if value == "api-tencent"@ {
        OcrExternalProvider::TencentOcr
    } else {
        OcrExternalProvider::Custom
    }
}

/// The external OCR service a stored name stands for; any other name means a custom service.
pub fn parse_ocr_external_provider(value: &str) -> (r: OcrExternalProvider)
    ensures
        r == ocr_external_provider_of(value@),
{
    if str_is(value, "api-openai") {
        OcrExternalProvider::OpenAi
    } else if str_is(value, "api-azure") {
        OcrExternalProvider::AzureVision
    } else if str_is(value, "api-google") {
        OcrExternalProvider::GoogleVision
    } else if str_is(value, "api-baidu") {
        OcrExternalProvider::BaiduOcr
    } else if str_is(value, "api-tencent") {
        OcrExternalProvider::TencentOcr
    } else {
        OcrExternalProvider::Custom
    }
}

/// The name under which an OCR provider is stored in settings.
pub open spec fn ocr_provider_label(value: OcrProvider) -> Seq<char> {
    match value {
        OcrProvider::Disabled => "disabled"@,
        OcrProvider::System => "system"@,
        OcrProvider::Local(OcrLocalBackend::Mnn) => "local-mnn"@,
        OcrProvider::Local(OcrLocalBackend::OnnxRuntime) => "local-onnx"@,
        OcrProvider::Local(OcrLocalBackend::PaddleRuntime) => "local-paddle"@,
        OcrProvider::Local(OcrLocalBackend::Custom) => "local-custom"@,
        OcrProvider::ExternalApi(OcrExternalProvider::OpenAi) => "api-openai"@,
        OcrProvider::ExternalApi(OcrExternalProvider::AzureVision) => "api-azure"@,
        OcrProvider::ExternalApi(OcrExternalProvider::GoogleVision) => "api-google"@,
        OcrProvider::ExternalApi(OcrExternalProvider::BaiduOcr) => "api-baidu"@,
        OcrProvider::ExternalApi(OcrExternalProvider::TencentOcr) => "api-tencent"@,
        OcrProvider::ExternalApi(OcrExternalProvider::Custom) => "api-custom"@,
    }
}

/// The name under which an OCR provider is stored in settings.
pub fn ocr_provider_name(value: &OcrProvider) -> (r: String)
    ensures
        r@ == ocr_provider_label(*value),
{
    match value {
        OcrProvider::Disabled => "disabled".to_owned(),
        OcrProvider::System => "system".to_owned(),
        OcrProvider::Local(OcrLocalBackend::Mnn) => "local-mnn".to_owned(),
        OcrProvider::Local(OcrLocalBackend::OnnxRuntime) => "local-onnx".to_owned(),
        OcrProvider::Local(OcrLocalBackend::PaddleRuntime) => "local-paddle".to_owned(),
        OcrProvider::Local(OcrLocalBackend::Custom) => "local-custom".to_owned(),
        OcrProvider::ExternalApi(OcrExternalProvider::OpenAi) => "api-openai".to_owned(),
        OcrProvider::ExternalApi(OcrExternalProvider::AzureVision) => "api-azure".to_owned(),
        OcrProvider::ExternalApi(OcrExternalProvider::GoogleVision) => "api-google".to_owned(),
        OcrProvider::ExternalApi(OcrExternalProvider::BaiduOcr) => "api-baidu".to_owned(),
        OcrProvider::ExternalApi(OcrExternalProvider::TencentOcr) => "api-tencent".to_owned(),
        OcrProvider::ExternalApi(OcrExternalProvider::Custom) => "api-custom".to_owned(),
    }
}

/// The OCR provider a stored name stands for; any other name means local MNN.
pub open spec fn ocr_provider_of(value: Seq<char>) -> OcrProvider {
    if value == "disabled"@ {
        OcrProvider::Disabled
    } else if value == "system"@ {
        OcrProvider::System
    } else if value == "local-onnx"@ {
        OcrProvider::Local(OcrLocalBackend::OnnxRuntime)
    } else if value == "local-paddle"@ {
        OcrProvider::Local(OcrLocalBackend::PaddleRuntime)
    } else if value == "api-openai"@ {
        OcrProvider::ExternalApi(OcrExternalProvider::OpenAi)
    } else if value == "api-azure"@ {
        OcrProvider::ExternalApi(OcrExternalProvider::AzureVision)
    } else if value == "api-google"@ {
        OcrProvider::ExternalApi(OcrExternalProvider::GoogleVision)
    } else if value == "api-baidu"@ {
        OcrProvider::ExternalApi(OcrExternalProvider::BaiduOcr)
    } else if value == "api-tencent"@ {
        OcrProvider::ExternalApi(OcrExternalProvider::TencentOcr)
    } else if value == "api-custom"@ {
        OcrProvider::ExternalApi(OcrExternalProvider::Custom)
    } else {
        OcrProvider::Local(OcrLocalBackend::Mnn)
    }
}

/// The OCR provider a stored name stands for; any other name means local MNN.
pub fn parse_ocr_provider(value: &str) -> (r: OcrProvider)
    ensures
        r == ocr_provider_of(value@),
{
    if str_is(value, "disabled") {
        OcrProvider::Disabled
    } else if str_is(value, "system") {
        OcrProvider::System
    } else if str_is(value, "local-onnx") {
        OcrProvider::Local(OcrLocalBackend::OnnxRuntime)
    } else if str_is(value, "local-paddle") {
        OcrProvider::Local(OcrLocalBackend::PaddleRuntime)
    } else if str_is(value, "api-openai") {
        OcrProvider::ExternalApi(OcrExternalProvider::OpenAi)
    } else if str_is(value, "api-azure") {
        OcrProvider::ExternalApi(OcrExternalProvider::AzureVision)
    } else if str_is(value, "api-google") {
        OcrProvider::ExternalApi(OcrExternalProvider::GoogleVision)
    } else if str_is(value, "api-baidu") {
        OcrProvider::ExternalApi(OcrExternalProvider::BaiduOcr)
    } else if str_is(value, "api-tencent") {
        OcrProvider::ExternalApi(OcrExternalProvider::TencentOcr)
    } else if str_is(value, "api-custom") {
        OcrProvider::ExternalApi(OcrExternalProvider::Custom)
    } else {
        OcrProvider::Local(OcrLocalBackend::Mnn)
    }
}

/// What reading back the stored name of an OCR provider gives: the same provider, except
/// that a custom local backend reads back as local MNN.
pub open spec fn canonical_ocr_provider(provider: OcrProvider) -> OcrProvider {
    match provider {
        OcrProvider::Local(OcrLocalBackend::Custom) => OcrProvider::Local(OcrLocalBackend::Mnn),
        _ => provider,
    }
}

/// Reading back the stored name of an OCR provider gives the provider, except that a
/// custom local backend comes back as local MNN.
pub proof fn ocr_provider_name_round_trip(provider: OcrProvider)
    ensures
        ocr_provider_of(ocr_provider_label(provider)) == canonical_ocr_provider(provider),
{
    reveal_strlit("disabled");
    reveal_strlit("system");
    reveal_strlit("local-mnn");
    reveal_strlit("local-onnx");
    reveal_strlit("local-paddle");
    reveal_strlit("local-custom");
    reveal_strlit("api-openai");
    reveal_strlit("api-azure");
    reveal_strlit("api-google");
    reveal_strlit("api-baidu");
    reveal_strlit("api-tencent");
    reveal_strlit("api-custom");
    assert("disabled"@.len() != "system"@.len());
    assert("disabled"@.len() != "local-mnn"@.len());
    assert("disabled"@.len() != "local-onnx"@.len());
    assert("disabled"@.len() != "local-paddle"@.len());
    assert("disabled"@.len() != "local-custom"@.len());
    assert("disabled"@.len() != "api-openai"@.len());
    assert("disabled"@.len() != "api-azure"@.len());
    assert("disabled"@.len() != "api-google"@.len());
    assert("disabled"@.len() != "api-baidu"@.len());
    assert("disabled"@.len() != "api-tencent"@.len());
    assert("disabled"@.len() != "api-custom"@.len());
    assert("system"@.len() != "local-mnn"@.len());
    assert("system"@.len() != "local-onnx"@.len());
    assert("system"@.len() != "local-paddle"@.len());
    assert("system"@.len() != "local-custom"@.len());
    assert("system"@.len() != "api-openai"@.len());
    assert("system"@.len() != "api-azure"@.len());
    assert("system"@.len() != "api-google"@.len());
    assert("system"@.len() != "api-baidu"@.len());
    assert("system"@.len() != "api-tencent"@.len());
    assert("system"@.len() != "api-custom"@.len());
    assert("local-mnn"@.len() != "local-onnx"@.len());
    assert("local-mnn"@.len() != "local-paddle"@.len());
    assert("local-mnn"@.len() != "local-custom"@.len());
    assert("local-mnn"@.len() != "api-openai"@.len());
    assert("local-mnn"@[0] != "api-azure"@[0]);
    assert("local-mnn"@.len() != "api-google"@.len());
    assert("local-mnn"@[0] != "api-baidu"@[0]);
    assert("local-mnn"@.len() != "api-tencent"@.len());
    assert("local-mnn"@.len() != "api-custom"@.len());
    assert("local-onnx"@.len() != "local-paddle"@.len());
    assert("local-onnx"@.len() != "local-custom"@.len());
    assert("local-onnx"@[0] != "api-openai"@[0]);
    assert("local-onnx"@.len() != "api-azure"@.len());
    assert("local-onnx"@[0] != "api-google"@[0]);
    assert("local-onnx"@.len() != "api-baidu"@.len());
    assert("local-onnx"@.len() != "api-tencent"@.len());
    assert("local-onnx"@[0] != "api-custom"@[0]);
    assert("local-paddle"@[6] != "local-custom"@[6]);
    assert("local-paddle"@.len() != "api-openai"@.len());
    assert("local-paddle"@.len() != "api-azure"@.len());
    assert("local-paddle"@.len() != "api-google"@.len());
    assert("local-paddle"@.len() != "api-baidu"@.len());
    assert("local-paddle"@.len() != "api-tencent"@.len());
    assert("local-paddle"@.len() != "api-custom"@.len());
    assert("local-custom"@.len() != "api-openai"@.len());
    assert("local-custom"@.len() != "api-azure"@.len());
    assert("local-custom"@.len() != "api-google"@.len());
    assert("local-custom"@.len() != "api-baidu"@.len());
    assert("local-custom"@.len() != "api-tencent"@.len());
    assert("local-custom"@.len() != "api-custom"@.len());
    assert("api-openai"@.len() != "api-azure"@.len());
    assert("api-openai"@[4] != "api-google"@[4]);
    assert("api-openai"@.len() != "api-baidu"@.len());
    assert("api-openai"@.len() != "api-tencent"@.len());
    assert("api-openai"@[4] != "api-custom"@[4]);
    assert("api-azure"@.len() != "api-google"@.len());
    assert("api-azure"@[4] != "api-baidu"@[4]);
    assert("api-azure"@.len() != "api-tencent"@.len());
    assert("api-azure"@.len() != "api-custom"@.len());
    assert("api-google"@.len() != "api-baidu"@.len());
    assert("api-google"@.len() != "api-tencent"@.len());
    assert("api-google"@[4] != "api-custom"@[4]);
    assert("api-baidu"@.len() != "api-tencent"@.len());
    assert("api-baidu"@.len() != "api-custom"@.len());
    assert("api-tencent"@.len() != "api-custom"@.len());
}

/// Reading back the stored name of an external OCR service gives the same service.
pub proof fn ocr_external_provider_name_round_trip(provider: OcrExternalProvider)
    ensures
        ocr_external_provider_of(ocr_external_provider_label(provider)) == provider,
{
    reveal_strlit("api-openai");
    reveal_strlit("api-azure");
    reveal_strlit("api-google");
    reveal_strlit("api-baidu");
    reveal_strlit("api-tencent");
    reveal_strlit("api-custom");
    assert("api-openai"@.len() != "api-azure"@.len());
    assert("api-openai"@[4] != "api-google"@[4]);
    assert("api-openai"@.len() != "api-baidu"@.len());
    assert("api-openai"@.len() != "api-tencent"@.len());
    assert("api-openai"@[4] != "api-custom"@[4]);
    assert("api-azure"@.len() != "api-google"@.len());
    assert("api-azure"@[4] != "api-baidu"@[4]);
    assert("api-azure"@.len() != "api-tencent"@.len());
    assert("api-azure"@.len() != "api-custom"@.len());
    assert("api-google"@.len() != "api-baidu"@.len());
    assert("api-google"@.len() != "api-tencent"@.len());
    assert("api-google"@[4] != "api-custom"@[4]);
    assert("api-baidu"@.len() != "api-tencent"@.len());
    assert("api-baidu"@.len() != "api-custom"@.len());
    assert("api-tencent"@.len() != "api-custom"@.len());
}

/// A local translation runtime.
#[derive(Debug, Clone, Copy, PartialEq, Eq, Structural)]
pub enum TranslateLocalBackend {
    CTranslate2,
    Custom,
}

/// A translation service reached over the network.
#[derive(Debug, Clone, Copy, PartialEq, Eq, Structural)]
pub enum TranslateExternalProvider {
    DeepL,
    Google,
    Azure,
    OpenAi,
    Baidu,
    Tencent,
    CustomHttp,
    Custom,
}

/// An experimental local translation runtime.
#[derive(Debug, Clone, Copy, PartialEq, Eq, Structural)]
pub enum TranslateExperimentalBackend {
    RustBert,
    Candle,
}

/// Where translation runs.
#[derive(Debug, Clone, Copy, PartialEq, Eq, Structural)]
pub enum TranslateProvider {
    Disabled,
    Local(TranslateLocalBackend),
    ExternalApi(TranslateExternalProvider),
    Experimental(TranslateExperimentalBackend),
    Custom,
}

/// The name under which a translation provider is stored in settings.
pub open spec fn translate_provider_label_of(value: TranslateProvider) -> Seq<char> {
    match value {
        TranslateProvider::Disabled => "disabled"@,
        TranslateProvider::Local(TranslateLocalBackend::CTranslate2) => "local-ct2"@,
        TranslateProvider::Local(TranslateLocalBackend::Custom) => "local-custom"@,
        TranslateProvider::ExternalApi(TranslateExternalProvider::DeepL) => "api-deepl"@,
        TranslateProvider::ExternalApi(TranslateExternalProvider::Google) => "api-google"@,
        TranslateProvider::ExternalApi(TranslateExternalProvider::Azure) => "api-azure"@,
        TranslateProvider::ExternalApi(TranslateExternalProvider::OpenAi) => "api-openai"@,
        TranslateProvider::ExternalApi(TranslateExternalProvider::Baidu) => "api-baidu"@,
        TranslateProvider::ExternalApi(TranslateExternalProvider::Tencent) => "api-tencent"@,
        TranslateProvider::ExternalApi(TranslateExternalProvider::CustomHttp) => "api-custom"@,
        TranslateProvider::ExternalApi(TranslateExternalProvider::Custom) => "api-custom"@,
        TranslateProvider::Experimental(_) => "experimental"@,
        TranslateProvider::Custom => "custom"@,
    }
}

/// The name under which a translation provider is stored in settings.
pub fn translate_provider_name(value: &TranslateProvider) -> (r: String)
    ensures
        r@ == translate_provider_label_of(*value),
{
    match value {
        TranslateProvider::Disabled => "disabled".to_owned(),
        TranslateProvider::Local(TranslateLocalBackend::CTranslate2) => "local-ct2".to_owned(),
        TranslateProvider::Local(TranslateLocalBackend::Custom) => "local-custom".to_owned(),
        TranslateProvider::ExternalApi(TranslateExternalProvider::DeepL) => "api-deepl".to_owned(),
        TranslateProvider::ExternalApi(TranslateExternalProvider::Google) => "api-google".to_owned(),
        TranslateProvider::ExternalApi(TranslateExternalProvider::Azure) => "api-azure".to_owned(),
        TranslateProvider::ExternalApi(TranslateExternalProvider::OpenAi) => "api-openai".to_owned(),
        TranslateProvider::ExternalApi(TranslateExternalProvider::Baidu) => "api-baidu".to_owned(),
        TranslateProvider::ExternalApi(TranslateExternalProvider::Tencent) => "api-tencent".to_owned(),
        TranslateProvider::ExternalApi(TranslateExternalProvider::CustomHttp) => "api-custom".to_owned(),
        TranslateProvider::ExternalApi(TranslateExternalProvider::Custom) => "api-custom".to_owned(),
        TranslateProvider::Experimental(_) => "experimental".to_owned(),
        TranslateProvider::Custom => "custom".to_owned(),
    }
}

/// The name of a translation provider as it appears in timing records.
pub fn translate_provider_label(provider: &TranslateProvider) -> (r: String)
    ensures
        r@ == translate_provider_label_of(*provider),
{
    translate_provider_name(provider)
}

/// The translation provider a stored name stands for; any other name means local CTranslate2.
pub open spec fn translate_provider_of(value: Seq<char>) -> TranslateProvider {
    if value == "disabled"@ {
        TranslateProvider::Disabled
    } else if value == "api-deepl"@ {
        TranslateProvider::ExternalApi(TranslateExternalProvider::DeepL)
    } else if value == "api-google"@ {
        TranslateProvider::ExternalApi(TranslateExternalProvider::Google)
    } else if value == "api-azure"@ {
        TranslateProvider::ExternalApi(TranslateExternalProvider::Azure)
    } else if value == "api-openai"@ {
        TranslateProvider::ExternalApi(TranslateExternalProvider::OpenAi)
    } else if value == "api-baidu"@ {
        TranslateProvider::ExternalApi(TranslateExternalProvider::Baidu)
    } else if value == "api-tencent"@ {
        TranslateProvider::ExternalApi(TranslateExternalProvider::Tencent)
    } else if value == "api-custom"@ {
        TranslateProvider::ExternalApi(TranslateExternalProvider::CustomHttp)
    } else if value == "experimental-rust-bert"@ {
        TranslateProvider::Experimental(TranslateExperimentalBackend::RustBert)
    } else if value == "experimental-candle"@ {
        TranslateProvider::Experimental(TranslateExperimentalBackend::Candle)
    } else {
        TranslateProvider::Local(TranslateLocalBackend::CTranslate2)
    }
}

/// The translation provider a stored name stands for; any other name means local CTranslate2.
pub fn parse_translate_provider(value: &str) -> (r: TranslateProvider)
    ensures
        r == translate_provider_of(value@),
{
    if str_is(value, "disabled") {
        TranslateProvider::Disabled
    } else if str_is(value, "api-deepl") {
        TranslateProvider::ExternalApi(TranslateExternalProvider::DeepL)
    } else if str_is(value, "api-google") {
        TranslateProvider::ExternalApi(TranslateExternalProvider::Google)
    } else if str_is(value, "api-azure") {
        TranslateProvider::ExternalApi(TranslateExternalProvider::Azure)
    } else if str_is(value, "api-openai") {
        TranslateProvider::ExternalApi(TranslateExternalProvider::OpenAi)
    } else if str_is(value, "api-baidu") {
        TranslateProvider::ExternalApi(TranslateExternalProvider::Baidu)
    } else if str_is(value, "api-tencent") {
        TranslateProvider::ExternalApi(TranslateExternalProvider::Tencent)
    } else if str_is(value, "api-custom") {
        TranslateProvider::ExternalApi(TranslateExternalProvider::CustomHttp)
    } else if str_is(value, "experimental-rust-bert") {
        TranslateProvider::Experimental(TranslateExperimentalBackend::RustBert)
    } else if str_is(value, "experimental-candle") {
        TranslateProvider::Experimental(TranslateExperimentalBackend::Candle)
    } else {
        TranslateProvider::Local(TranslateLocalBackend::CTranslate2)
    }
}

/// The translation provider a pin window is given by name; experimental names are not offered there, and any other name means local CTranslate2.
pub open spec fn pin_translate_provider_of(value: Seq<char>) -> TranslateProvider {
    if value == "disabled"@ {
        TranslateProvider::Disabled
    } else if value == "api-deepl"@ {
        TranslateProvider::ExternalApi(TranslateExternalProvider::DeepL)
    } else if value == "api-google"@ {
        TranslateProvider::ExternalApi(TranslateExternalProvider::Google)
    } else if value == "api-azure"@ {
        TranslateProvider::ExternalApi(TranslateExternalProvider::Azure)
    } else if value == "api-openai"@ {
        TranslateProvider::ExternalApi(TranslateExternalProvider::OpenAi)
    } else if value == "api-baidu"@ {
        TranslateProvider::ExternalApi(TranslateExternalProvider::Baidu)
    } else if value == "api-tencent"@ {
        TranslateProvider::ExternalApi(TranslateExternalProvider::Tencent)
    } else if value == "api-custom"@ {
        TranslateProvider::ExternalApi(TranslateExternalProvider::CustomHttp)
    } else {
        TranslateProvider::Local(TranslateLocalBackend::CTranslate2)
    }
}

/// The translation provider a pin window is given by name; experimental names are not offered there, and any other name means local CTranslate2.
pub fn parse_pin_translate_provider(value: &str) -> (r: TranslateProvider)
    ensures
        r == pin_translate_provider_of(value@),
{
    if str_is(value, "disabled") {
        TranslateProvider::Disabled
    } else if str_is(value, "api-deepl") {
        TranslateProvider::ExternalApi(TranslateExternalProvider::DeepL)
    } else if str_is(value, "api-google") {
        TranslateProvider::ExternalApi(TranslateExternalProvider::Google)
    } else if str_is(value, "api-azure") {
        TranslateProvider::ExternalApi(TranslateExternalProvider::Azure)
    } else if str_is(value, "api-openai") {
        TranslateProvider::ExternalApi(TranslateExternalProvider::OpenAi)
    } else if str_is(value, "api-baidu") {
        TranslateProvider::ExternalApi(TranslateExternalProvider::Baidu)
    } else if str_is(value, "api-tencent") {
        TranslateProvider::ExternalApi(TranslateExternalProvider::Tencent)
    } else if str_is(value, "api-custom") {
        TranslateProvider::ExternalApi(TranslateExternalProvider::CustomHttp)
    } else {
        TranslateProvider::Local(TranslateLocalBackend::CTranslate2)
    }
}

/// What reading back the stored name of a translation provider gives: the same provider,
/// except that custom and experimental providers, which share their names, read back as
/// the provider each name stands for.
pub open spec fn canonical_translate_provider(provider: TranslateProvider) -> TranslateProvider {
    match provider {
        TranslateProvider::Local(TranslateLocalBackend::Custom) => TranslateProvider::Local(TranslateLocalBackend::CTranslate2),
        TranslateProvider::ExternalApi(TranslateExternalProvider::Custom) => TranslateProvider::ExternalApi(TranslateExternalProvider::CustomHttp),
        TranslateProvider::Experimental(_) => TranslateProvider::Local(TranslateLocalBackend::CTranslate2),
        TranslateProvider::Custom => TranslateProvider::Local(TranslateLocalBackend::CTranslate2),
        _ => provider,
    }
}

/// Reading back the stored name of a translation provider gives the provider, up to the
/// names that several providers share.
pub proof fn translate_provider_name_round_trip(provider: TranslateProvider)
    ensures
        translate_provider_of(translate_provider_label_of(provider)) == canonical_translate_provider(
            provider,
        ),
{
    reveal_strlit("api-azure");
    reveal_strlit("api-baidu");
    reveal_strlit("api-custom");
    reveal_strlit("api-deepl");
    reveal_strlit("api-google");
    reveal_strlit("api-openai");
    reveal_strlit("api-tencent");
    reveal_strlit("custom");
    reveal_strlit("disabled");
    reveal_strlit("experimental");
    reveal_strlit("experimental-candle");
    reveal_strlit("experimental-rust-bert");
    reveal_strlit("local-ct2");
    reveal_strlit("local-custom");
    assert("api-azure"@[4] != "api-baidu"@[4]);
    assert("api-azure"@.len() != "api-custom"@.len());
    assert("api-azure"@[4] != "api-deepl"@[4]);
    assert("api-azure"@.len() != "api-google"@.len());
    assert("api-azure"@.len() != "api-openai"@.len());
    assert("api-azure"@.len() != "api-tencent"@.len());
    assert("api-azure"@.len() != "custom"@.len());
    assert("api-azure"@.len() != "disabled"@.len());
    assert("api-azure"@.len() != "experimental"@.len());
    assert("api-azure"@.len() != "experimental-candle"@.len());
    assert("api-azure"@.len() != "experimental-rust-bert"@.len());
    assert("api-azure"@[0] != "local-ct2"@[0]);
    assert("api-azure"@.len() != "local-custom"@.len());
    assert("api-baidu"@.len() != "api-custom"@.len());
    assert("api-baidu"@[4] != "api-deepl"@[4]);
    assert("api-baidu"@.len() != "api-google"@.len());
    assert("api-baidu"@.len() != "api-openai"@.len());
    assert("api-baidu"@.len() != "api-tencent"@.len());
    assert("api-baidu"@.len() != "custom"@.len());
    assert("api-baidu"@.len() != "disabled"@.len());
    assert("api-baidu"@.len() != "experimental"@.len());
    assert("api-baidu"@.len() != "experimental-candle"@.len());
    assert("api-baidu"@.len() != "experimental-rust-bert"@.len());
    assert("api-baidu"@[0] != "local-ct2"@[0]);
    assert("api-baidu"@.len() != "local-custom"@.len());
    assert("api-custom"@.len() != "api-deepl"@.len());
    assert("api-custom"@[4] != "api-google"@[4]);
    assert("api-custom"@[4] != "api-openai"@[4]);
    assert("api-custom"@.len() != "api-tencent"@.len());
    assert("api-custom"@.len() != "custom"@.len());
    assert("api-custom"@.len() != "disabled"@.len());
    assert("api-custom"@.len() != "experimental"@.len());
    assert("api-custom"@.len() != "experimental-candle"@.len());
    assert("api-custom"@.len() != "experimental-rust-bert"@.len());
    assert("api-custom"@.len() != "local-ct2"@.len());
    assert("api-custom"@.len() != "local-custom"@.len());
    assert("api-deepl"@.len() != "api-google"@.len());
    assert("api-deepl"@.len() != "api-openai"@.len());
    assert("api-deepl"@.len() != "api-tencent"@.len());
    assert("api-deepl"@.len() != "custom"@.len());
    assert("api-deepl"@.len() != "disabled"@.len());
    assert("api-deepl"@.len() != "experimental"@.len());
    assert("api-deepl"@.len() != "experimental-candle"@.len());
    assert("api-deepl"@.len() != "experimental-rust-bert"@.len());
    assert("api-deepl"@[0] != "local-ct2"@[0]);
    assert("api-deepl"@.len() != "local-custom"@.len());
    assert("api-google"@[4] != "api-openai"@[4]);
    assert("api-google"@.len() != "api-tencent"@.len());
    assert("api-google"@.len() != "custom"@.len());
    assert("api-google"@.len() != "disabled"@.len());
    assert("api-google"@.len() != "experimental"@.len());
    assert("api-google"@.len() != "experimental-candle"@.len());
    assert("api-google"@.len() != "experimental-rust-bert"@.len());
    assert("api-google"@.len() != "local-ct2"@.len());
    assert("api-google"@.len() != "local-custom"@.len());
    assert("api-openai"@.len() != "api-tencent"@.len());
    assert("api-openai"@.len() != "custom"@.len());
    assert("api-openai"@.len() != "disabled"@.len());
    assert("api-openai"@.len() != "experimental"@.len());
    assert("api-openai"@.len() != "experimental-candle"@.len());
    assert("api-openai"@.len() != "experimental-rust-bert"@.len());
    assert("api-openai"@.len() != "local-ct2"@.len());
    assert("api-openai"@.len() != "local-custom"@.len());
    assert("api-tencent"@.len() != "custom"@.len());
    assert("api-tencent"@.len() != "disabled"@.len());
    assert("api-tencent"@.len() != "experimental"@.len());
    assert("api-tencent"@.len() != "experimental-candle"@.len());
    assert("api-tencent"@.len() != "experimental-rust-bert"@.len());
    assert("api-tencent"@.len() != "local-ct2"@.len());
    assert("api-tencent"@.len() != "local-custom"@.len());
    assert("custom"@.len() != "disabled"@.len());
    assert("custom"@.len() != "experimental"@.len());
    assert("custom"@.len() != "experimental-candle"@.len());
    assert("custom"@.len() != "experimental-rust-bert"@.len());
    assert("custom"@.len() != "local-ct2"@.len());
    assert("custom"@.len() != "local-custom"@.len());
    assert("disabled"@.len() != "experimental"@.len());
    assert("disabled"@.len() != "experimental-candle"@.len());
    assert("disabled"@.len() != "experimental-rust-bert"@.len());
    assert("disabled"@.len() != "local-ct2"@.len());
    assert("disabled"@.len() != "local-custom"@.len());
    assert("experimental"@.len() != "experimental-candle"@.len());
    assert("experimental"@.len() != "experimental-rust-bert"@.len());
    assert("experimental"@.len() != "local-ct2"@.len());
    assert("experimental"@[0] != "local-custom"@[0]);
    assert("experimental-candle"@.len() != "experimental-rust-bert"@.len());
    assert("experimental-candle"@.len() != "local-ct2"@.len());
    assert("experimental-candle"@.len() != "local-custom"@.len());
    assert("experimental-rust-bert"@.len() != "local-ct2"@.len());
    assert("experimental-rust-bert"@.len() != "local-custom"@.len());
    assert("local-ct2"@.len() != "local-custom"@.len());
}

/// Whether `value` is one of the interface languages kept as they are.
pub open spec fn is_listed_language(value: Seq<char>) -> bool {
    value == "en"@ || value == "ja"@ || value == "ko"@ || value == "fr"@ || value == "de"@
}

/// The interface language stored in settings: a listed language is kept, and every other
/// value (Chinese in any spelling among them) becomes `zh-CN`.
pub open spec fn normalized_language(value: Seq<char>) -> Seq<char> {
    if is_listed_language(value) {
        value
    } else {
        "zh-CN"@
    }
}

/// The interface language stored in settings.
pub fn normalize_language(value: &str) -> (r: String)
    ensures
        r@ == normalized_language(value@),
{
    if str_is(value, "en") || str_is(value, "ja") || str_is(value, "ko") || str_is(value, "fr") || str_is(value, "de") {
        value.to_owned()
    } else {
        "zh-CN".to_owned()
    }
}

/// The interface language of the capture overlay.
#[derive(Debug, Clone, Copy, PartialEq, Eq, Structural)]
pub enum OverlayLanguage {
    ZhCn,
    En,
    Ja,
    Ko,
    Fr,
    De,
}

/// The overlay language a language code stands for; any other code means Chinese.
pub open spec fn overlay_language_of(value: Seq<char>) -> OverlayLanguage {
    if value == "en"@ {
        OverlayLanguage::En
    } else if value == "ja"@ {
        OverlayLanguage::Ja
    } else if value == "ko"@ {
        OverlayLanguage::Ko
    } else if value == "fr"@ {
        OverlayLanguage::Fr
    } else if value == "de"@ {
        OverlayLanguage::De
    } else {
        OverlayLanguage::ZhCn
    }
}

/// The overlay language a language code stands for; any other code means Chinese.
pub fn overlay_language_from_code(value: &str) -> (r: OverlayLanguage)
    ensures
        r == overlay_language_of(value@),
{
    if str_is(value, "en") {
        OverlayLanguage::En
    } else if str_is(value, "ja") {
        OverlayLanguage::Ja
    } else if str_is(value, "ko") {
        OverlayLanguage::Ko
    } else if str_is(value, "fr") {
        OverlayLanguage::Fr
    } else if str_is(value, "de") {
        OverlayLanguage::De
    } else {
        OverlayLanguage::ZhCn
    }
}

impl OverlayLanguage {
    /// The overlay language a language code stands for; any other code means Chinese.
    pub fn from_code(value: &str) -> (r: OverlayLanguage)
        ensures
            r == overlay_language_of(value@),
    {
        overlay_language_from_code(value)
    }
}

/// Normalizing an interface language is idempotent, keeps it among the languages the
/// settings offer, and does not change the language the overlay shows.
pub proof fn normalized_language_is_stable(value: Seq<char>)
    ensures
        normalized_language(normalized_language(value)) == normalized_language(value),
        is_listed_language(normalized_language(value)) || normalized_language(value) == "zh-CN"@,
        overlay_language_of(normalized_language(value)) == overlay_language_of(value),
{
    reveal_strlit("en");
    reveal_strlit("ja");
    reveal_strlit("ko");
    reveal_strlit("fr");
    reveal_strlit("de");
    reveal_strlit("zh-CN");
    assert("en"@[0] != "ja"@[0]);
    assert("en"@[0] != "ko"@[0]);
    assert("en"@[0] != "fr"@[0]);
    assert("en"@[0] != "de"@[0]);
    assert("en"@.len() != "zh-CN"@.len());
    assert("ja"@[0] != "ko"@[0]);
    assert("ja"@[0] != "fr"@[0]);
    assert("ja"@[0] != "de"@[0]);
    assert("ja"@.len() != "zh-CN"@.len());
    assert("ko"@[0] != "fr"@[0]);
    assert("ko"@[0] != "de"@[0]);
    assert("ko"@.len() != "zh-CN"@.len());
    assert("fr"@[0] != "de"@[0]);
    assert("fr"@.len() != "zh-CN"@.len());
    assert("de"@.len() != "zh-CN"@.len());
}

/// What the capture overlay does with a finished selection.
#[derive(Debug, Clone, Copy, PartialEq, Eq, Structural)]
pub enum CaptureAction {
    Pin,
    Copy,
    Save,
    Editor,
}

/// The overlay action a completion name stands for; any other name means pinning.
pub open spec fn capture_action_of(value: Seq<char>) -> CaptureAction {
    if value == "copy"@ {
        CaptureAction::Copy
    } else if value == "save"@ {
        CaptureAction::Save
    } else if value == "editor"@ {
        CaptureAction::Editor
    } else {
        CaptureAction::Pin
    }
}

/// The overlay action a completion name stands for; any other name means pinning.
pub fn capture_action_from_name(value: &str) -> (r: CaptureAction)
    ensures
        r == capture_action_of(value@),
{
    if str_is(value, "copy") {
        CaptureAction::Copy
    } else if str_is(value, "save") {
        CaptureAction::Save
    } else if str_is(value, "editor") {
        CaptureAction::Editor
    } else {
        CaptureAction::Pin
    }
}

impl CaptureAction {
    /// The overlay action a completion name stands for; any other name means pinning.
    pub fn from_name(value: &str) -> (r: CaptureAction)
        ensures
            r == capture_action_of(value@),
    {
        capture_action_from_name(value)
    }
}

/// The overlay action that carries out a completion action of the settings.
pub open spec fn capture_action_for(action: CaptureCompletionAction) -> CaptureAction {
    match action {
        CaptureCompletionAction::Pin => CaptureAction::Pin,
        CaptureCompletionAction::CopyToClipboard => CaptureAction::Copy,
        CaptureCompletionAction::SaveToFile => CaptureAction::Save,
        CaptureCompletionAction::OpenEditor => CaptureAction::Editor,
    }
}

/// The overlay reads the completion name the desktop shell writes as the matching action.
pub proof fn completion_name_selects_overlay_action(action: CaptureCompletionAction)
    ensures
        capture_action_of(completion_action_label(action)) == capture_action_for(action),
        capture_action_of(completion_action_label(action)) == capture_action_for(
            completion_action_of(completion_action_label(action)),
        ),
{
    reveal_strlit("pin");
    reveal_strlit("copy");
    reveal_strlit("save");
    reveal_strlit("editor");
    assert("pin"@.len() != "copy"@.len());
    assert("pin"@.len() != "save"@.len());
    assert("pin"@.len() != "editor"@.len());
    assert("copy"@[0] != "save"@[0]);
    assert("copy"@.len() != "editor"@.len());
    assert("save"@.len() != "editor"@.len());
}

/// How a pin window splits OCR text into units to translate.
#[derive(Debug, Clone, Copy, PartialEq, Eq, Structural)]
pub enum PinTranslationSegmentationMode {
    SmartMerge,
    BlockReplace,
    FullRegion,
}

/// The segmentation mode a name stands for; any other name means smart merging.
pub open spec fn segmentation_mode_of(value: Seq<char>) -> PinTranslationSegmentationMode {
    if value == "block-replace"@ {
        PinTranslationSegmentationMode::BlockReplace
    } else if value == "full-region"@ {
        PinTranslationSegmentationMode::FullRegion
    } else {
        PinTranslationSegmentationMode::SmartMerge
    }
}

/// The segmentation mode a name stands for; any other name means smart merging.
pub fn segmentation_mode_from_name(value: &str) -> (r: PinTranslationSegmentationMode)
    ensures
        r == segmentation_mode_of(value@),
{
    if str_is(value, "block-replace") {
        PinTranslationSegmentationMode::BlockReplace
    } else if str_is(value, "full-region") {
        PinTranslationSegmentationMode::FullRegion
    } else {
        PinTranslationSegmentationMode::SmartMerge
    }
}

impl PinTranslationSegmentationMode {
    /// The segmentation mode a name stands for; any other name means smart merging.
    pub fn from_name(value: &str) -> (r: PinTranslationSegmentationMode)
        ensures
            r == segmentation_mode_of(value@),
    {
        segmentation_mode_from_name(value)
    }

    /// Whether each translation is drawn in place of its OCR block.
    pub fn uses_block_replacement(self) -> (b: bool)
        ensures
            b == (self == PinTranslationSegmentationMode::BlockReplace),
    {
        match self {
            PinTranslationSegmentationMode::BlockReplace => true,
            _ => false,
        }
    }
}

/// How a picked pixel colour is written out.
#[derive(Debug, Clone, Copy, PartialEq, Eq, Structural)]
pub enum ColorValueFormat {
    Hex,
    Rgb,
}

impl ColorValueFormat {
    /// The other colour format.
    pub open spec fn toggled_spec(self) -> ColorValueFormat {
        match self {
            ColorValueFormat::Hex => ColorValueFormat::Rgb,
            ColorValueFormat::Rgb => ColorValueFormat::Hex,
        }
    }

    /// The other colour format.
    pub fn toggled(self) -> (r: ColorValueFormat)
        ensures
            r != self,
            r == self.toggled_spec(),
    {
        match self {
            ColorValueFormat::Hex => ColorValueFormat::Rgb,
            ColorValueFormat::Rgb => ColorValueFormat::Hex,
        }
    }
}

/// The upper-case hexadecimal digit of a value below 16.
pub open spec fn hex_digit(d: nat) -> char {
    if d < 10 {
        (d + 48) as char
    } else {
        (d + 55) as char
    }
}

/// A byte as two upper-case hexadecimal digits.
pub open spec fn hex_byte(v: u8) -> Seq<char> {
    seq![hex_digit((v / 16) as nat), hex_digit((v % 16) as nat)]
}

/// How a picked colour is written: `#RRGGBB` in upper-case hexadecimal, or its red,
/// green and blue in decimal, separated by a comma and a space.
pub open spec fn color_value_text(red: u8, green: u8, blue: u8, format: ColorValueFormat) -> Seq<
    char,
> {
    match format {
        ColorValueFormat::Hex => seq!['#'] + hex_byte(red) + hex_byte(green) + hex_byte(blue),
        ColorValueFormat::Rgb => decimal(red as nat) + ", "@ + decimal(green as nat) + ", "@
            + decimal(blue as nat),
    }
}

fn hex_digit_char(d: u8) -> (c: char)
    requires
        d < 16,
    ensures
        c == hex_digit(d as nat),
{
    if d < 10 {
        (d + 48) as char
    } else {
        (d + 55) as char
    }
}

fn push_hex_byte(out: &mut Vec<char>, v: u8)
    ensures
        final(out)@ == old(out)@ + hex_byte(v),
{
    out.push(hex_digit_char(v / 16));
    out.push(hex_digit_char(v % 16));
}

/// A picked colour written in the given format: `#RRGGBB` in upper-case hexadecimal, or
/// `r, g, b` in decimal.
pub fn format_color_value(red: u8, green: u8, blue: u8, format: ColorValueFormat) -> (s: String)
    ensures
        s@ == color_value_text(red, green, blue, format),
{
    let mut v: Vec<char> = Vec::new();
    match format {
        ColorValueFormat::Hex => {
            v.push('#');
            push_hex_byte(&mut v, red);
            push_hex_byte(&mut v, green);
            push_hex_byte(&mut v, blue);
        },
        ColorValueFormat::Rgb => {
            push_decimal(&mut v, red as u128);
            push_str_chars(&mut v, ", ");
            push_decimal(&mut v, green as u128);
            push_str_chars(&mut v, ", ");
            push_decimal(&mut v, blue as u128);
        },
    }
    proof {
        reveal_strlit(", ");
    }
    assert(v@ =~= color_value_text(red, green, blue, format));
    string_from_chars(&v)
}

} // verus!
