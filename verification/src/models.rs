use vstd::prelude::*;

use crate::chars::{push_str_chars, str_is, string_from_chars};
use crate::ocr_text::{safe_model_id, safe_seq};
use crate::providers::OcrProvider;
use crate::settings::AppSettingsDto;
use crate::text::{decimal, push_decimal, trim_str_chars, trimmed};

verus! {

/// Where the OCR models are stored: the default location, the one in use, and whether
/// they are the same place.
#[derive(Debug)]
pub struct ModelStorageInfo {
    pub default_ocr_models_dir: String,
    pub current_ocr_models_dir: String,
    pub using_default: bool,
}

/// Where the OCR models are stored, from the default location, the one in use, and
/// whether the two name the same place.
pub fn storage_info(default_dir: String, current_dir: String, same_place: bool) -> (r: ModelStorageInfo)
    ensures
        r.default_ocr_models_dir == default_dir,
        r.current_ocr_models_dir == current_dir,
        r.using_default == same_place,
{
    ModelStorageInfo {
        default_ocr_models_dir: default_dir,
        current_ocr_models_dir: current_dir,
        using_default: same_place,
    }
}

/// Where the OCR models are stored, from the lookups of the default location and of the
/// one in use: the first lookup that failed gives the error.
pub fn model_storage_info(
    default_dir: Result<String, String>,
    current_dir: Result<String, String>,
    same_place: bool,
) -> (r: Result<ModelStorageInfo, String>)
    ensures
        match (default_dir, current_dir) {
            (Err(e), _) => r == Err::<ModelStorageInfo, String>(e),
            (Ok(_), Err(e)) => r == Err::<ModelStorageInfo, String>(e),
            (Ok(d), Ok(c)) => r == Ok::<ModelStorageInfo, String>(
                ModelStorageInfo {
                    default_ocr_models_dir: d,
                    current_ocr_models_dir: c,
                    using_default: same_place,
                },
            ),
        },
{
    let d = match default_dir {
        Ok(d) => d,
        Err(e) => return Err(e),
    };
    let c = match current_dir {
        Ok(c) => c,
        Err(e) => return Err(e),
    };
    Ok(storage_info(d, c, same_place))
}

/// The OCR model location a storage configuration names: its text without surrounding
/// white space, unless that is empty, in which case the default location applies.
pub open spec fn configured_dir_of(configured: Option<Seq<char>>) -> Option<Seq<char>> {
    match configured {
        Some(c) => if trimmed(c).len() > 0 {
            Some(trimmed(c))
        } else {
            None
        },
        None => None,
    }
}

/// The OCR model location a storage configuration names, if it names one.
pub fn configured_models_dir(configured: Option<&str>) -> (r: Option<String>)
    ensures
        r.deep_view() == configured_dir_of(
            match configured {
                Some(c) => Some(c@),
                None => None,
            },
        ),
{
    match configured {
        Some(c) => {
            let t = trim_str_chars(c);
            if t.len() > 0 {
                Some(string_from_chars(&t))
            } else {
                None
            }
        },
        None => None,
    }
}

/// Where the OCR models are stored now: the location the storage configuration names,
/// trimmed, when it names one; otherwise the default location, whose lookup may have
/// failed (that error is the answer).
pub fn current_models_dir(configured: Option<&str>, default_dir: Result<String, String>) -> (r: Result<
    String,
    String,
>)
    ensures
        match configured_dir_of(
            match configured {
                Some(c) => Some(c@),
                None => None,
            },
        ) {
            Some(c) => r matches Ok(v) && v@ == c,
            None => r == default_dir,
        },
{
    match configured_models_dir(configured) {
        Some(c) => Ok(c),
        None => default_dir,
    }
}

/// What moving the OCR models to a new location comes to.
#[derive(Debug, Clone, Copy, PartialEq, Eq, Structural)]
pub enum StorageChange {
    /// The new location is the current one: only the configuration is written again.
    KeepLocation,
    /// The models move to the new location.
    Migrate,
    /// The new location is empty.
    EmptyTarget,
    /// The new location lies inside the current one.
    TargetInsideCurrent,
}

/// What moving the OCR models to a new location comes to, from whether the new location
/// is empty, is the current one, or lies inside it.
pub open spec fn storage_change_of(target_empty: bool, same_as_current: bool, inside_current: bool) -> StorageChange {
    if target_empty {
        StorageChange::EmptyTarget
    } else if same_as_current {
        StorageChange::KeepLocation
    } else if inside_current {
        StorageChange::TargetInsideCurrent
    } else {
        StorageChange::Migrate
    }
}

/// What moving the OCR models to a new location comes to.
pub fn plan_storage_change(target_empty: bool, same_as_current: bool, inside_current: bool) -> (r: StorageChange)
    ensures
        r == storage_change_of(target_empty, same_as_current, inside_current),
{
    if target_empty {
        StorageChange::EmptyTarget
    } else if same_as_current {
        StorageChange::KeepLocation
    } else if inside_current {
        StorageChange::TargetInsideCurrent
    } else {
        StorageChange::Migrate
    }
}

/// The error a refused change of model location gives.
pub fn storage_change_error(change: StorageChange) -> (r: Option<String>)
    ensures
        change == StorageChange::EmptyTarget ==> (r matches Some(e) && e@
            == "model_storage_invalid_target: model location must not be empty"@),
        change == StorageChange::TargetInsideCurrent ==> (r matches Some(e) && e@
            == "model_storage_invalid_target: new model location must not be inside the current location"@),
        change == StorageChange::KeepLocation || change == StorageChange::Migrate ==> r is None,
{
    match change {
        StorageChange::EmptyTarget => Some(
            "model_storage_invalid_target: model location must not be empty".to_owned(),
        ),
        StorageChange::TargetInsideCurrent => Some(
            "model_storage_invalid_target: new model location must not be inside the current location".to_owned(),
        ),
        _ => None,
    }
}

/// What kind of models a manifest describes.
#[derive(Debug, Clone, Copy, PartialEq, Eq, Structural)]
pub enum ModelDomain {
    Ocr,
    Translation,
}

/// The name of a model domain in model summaries.
pub open spec fn model_domain_label(domain: ModelDomain) -> Seq<char> {
    match domain {
        ModelDomain::Ocr => "ocr"@,
        ModelDomain::Translation => "translation"@,
    }
}

/// What happens to one model when the OCR models move.
#[derive(Debug, Clone, Copy, PartialEq, Eq, Structural)]
pub enum MigrationStep {
    /// Not an OCR model stored in a local directory: left as it is.
    Skip,
    /// Its directory is missing or already in place: it is only pointed at the new place.
    Repoint,
    /// Its directory moves to the new place.
    Move,
    /// A directory already at the new place is removed first, then its directory moves.
    ReplaceAndMove,
}

/// What happens to one model when the OCR models move, from its domain, whether it is
/// stored in a local directory, whether that directory exists, whether it is already the
/// new place and whether something is at the new place.
pub open spec fn migration_step_of(
    domain: ModelDomain,
    local: bool,
    old_exists: bool,
    already_in_place: bool,
    target_exists: bool,
) -> MigrationStep {
    if domain != ModelDomain::Ocr || !local {
        MigrationStep::Skip
    } else if !old_exists || already_in_place {
        MigrationStep::Repoint
    } else if target_exists {
        MigrationStep::ReplaceAndMove
    } else {
        MigrationStep::Move
    }
}

/// What happens to one model when the OCR models move.
pub fn plan_model_migration(
    domain: ModelDomain,
    local: bool,
    old_exists: bool,
    already_in_place: bool,
    target_exists: bool,
) -> (r: MigrationStep)
    ensures
        r == migration_step_of(domain, local, old_exists, already_in_place, target_exists),
{
    if domain != ModelDomain::Ocr || !local {
        MigrationStep::Skip
    } else if !old_exists || already_in_place {
        MigrationStep::Repoint
    } else if target_exists {
        MigrationStep::ReplaceAndMove
    } else {
        MigrationStep::Move
    }
}

/// Where a model's files come from.
#[derive(Debug)]
pub enum ModelSource {
    BuiltIn,
    Download { url: String },
    LocalPath(String),
}

/// A model manifest as far as model summaries and readiness checks read it, with whether
/// the files it requires are all present in its directory.
#[derive(Debug)]
pub struct ModelRecord {
    pub id: String,
    pub name: String,
    pub domain: ModelDomain,
    pub backend: String,
    pub source: ModelSource,
    /// Whether every required file is present, for a model in a local directory.
    pub required_files_present: bool,
}

/// Whether a model moves with the OCR models: an OCR model stored in a local directory.
pub open spec fn moves_with_ocr_models(m: ModelRecord) -> bool {
    m.domain == ModelDomain::Ocr && m.source is LocalPath
}

/// The directory names under which the models are stored in the new location, one for
/// each model: its id made safe for a file name.
pub fn model_dir_names(models: &Vec<ModelRecord>) -> (r: Vec<String>)
    ensures
        r@.len() == models@.len(),
        forall|i: int| 0 <= i < r@.len() ==> #[trigger] r@[i]@ == safe_seq(models@[i].id@, true),
{
    let mut r: Vec<String> = Vec::new();
    let mut i: usize = 0;
    while i < models.len()
        invariant
            i <= models@.len(),
            r@.len() == i,
            forall|j: int| 0 <= j < i ==> #[trigger] r@[j]@ == safe_seq(models@[j].id@, true),
        decreases models.len() - i,
    {
        r.push(safe_model_id(models[i].id.as_str()));
        i = i + 1;
    }
    r
}

fn clone_source(source: &ModelSource) -> (r: ModelSource)
    ensures
        r == *source,
{
    match source {
        ModelSource::BuiltIn => ModelSource::BuiltIn,
        ModelSource::Download { url } => ModelSource::Download { url: url.clone() },
        ModelSource::LocalPath(p) => ModelSource::LocalPath(p.clone()),
    }
}

/// The models after the OCR models moved, `new_dirs[i]` being model `i`'s directory in
/// the new location: every OCR model stored in a local directory now points at its new
/// directory, and every other model is as it was, in the same order.
pub fn migrated_models(models: &Vec<ModelRecord>, new_dirs: &Vec<String>) -> (r: Vec<ModelRecord>)
    requires
        new_dirs@.len() == models@.len(),
    ensures
        r@.len() == models@.len(),
        forall|i: int|
            0 <= i < r@.len() ==> if moves_with_ocr_models(models@[i]) {
                &&& (#[trigger] r@[i]).source == ModelSource::LocalPath(new_dirs@[i])
                &&& r@[i].id == models@[i].id
                &&& r@[i].name == models@[i].name
                &&& r@[i].domain == models@[i].domain
                &&& r@[i].backend == models@[i].backend
                &&& r@[i].required_files_present == models@[i].required_files_present
            } else {
                r@[i] == models@[i]
            },
{
    let mut r: Vec<ModelRecord> = Vec::new();
    let mut i: usize = 0;
    while i < models.len()
        invariant
            i <= models@.len(),
            new_dirs@.len() == models@.len(),
            r@.len() == i,
            forall|j: int|
                0 <= j < i ==> if moves_with_ocr_models(models@[j]) {
                    &&& (#[trigger] r@[j]).source == ModelSource::LocalPath(new_dirs@[j])
                    &&& r@[j].id == models@[j].id
                    &&& r@[j].name == models@[j].name
                    &&& r@[j].domain == models@[j].domain
                    &&& r@[j].backend == models@[j].backend
                    &&& r@[j].required_files_present == models@[j].required_files_present
                } else {
                    r@[j] == models@[j]
                },
        decreases models.len() - i,
    {
        let m = &models[i];
        let moves = match m.domain {
            ModelDomain::Ocr => match m.source {
                ModelSource::LocalPath(_) => true,
                _ => false,
            },
            _ => false,
        };
        let source = if moves {
            ModelSource::LocalPath(new_dirs[i].clone())
        } else {
            clone_source(&m.source)
        };
        r.push(
            ModelRecord {
                id: m.id.clone(),
                name: m.name.clone(),
                domain: m.domain,
                backend: m.backend.clone(),
                source,
                required_files_present: m.required_files_present,
            },
        );
        i = i + 1;
    }
    r
}

/// The positions, in order, of the models among the first `n` that the model registry
/// file keeps: those not built in.
pub open spec fn stored_prefix(models: Seq<ModelRecord>, n: int) -> Seq<usize>
    decreases n,
{
    if n <= 0 {
        Seq::empty()
    } else if models[n - 1].source is BuiltIn {
        stored_prefix(models, n - 1)
    } else {
        stored_prefix(models, n - 1).push((n - 1) as usize)
    }
}

/// The positions, in order, of the models the model registry file keeps: exactly those
/// that are not built in.
pub fn stored_model_positions(models: &Vec<ModelRecord>) -> (r: Vec<usize>)
    ensures
        r@ == stored_prefix(models@, models@.len() as int),
{
    let mut r: Vec<usize> = Vec::new();
    let mut i: usize = 0;
    while i < models.len()
        invariant
            i <= models@.len(),
            r@ == stored_prefix(models@, i as int),
        decreases models.len() - i,
    {
        match models[i].source {
            ModelSource::BuiltIn => {},
            _ => {
                r.push(i);
            },
        }
        i = i + 1;
    }
    r
}

/// A model as the settings page lists it.
#[derive(Debug)]
pub struct ModelSummaryDto {
    pub id: String,
    pub name: String,
    pub domain: String,
    pub backend: String,
    pub source: String,
    pub availability: String,
    pub path: Option<String>,
    pub package_source: Option<String>,
}

/// Where a model comes from, whether it can be used, and its location, as the settings
/// page shows them.
pub open spec fn source_status_of(source: ModelSource, files_present: bool) -> (Seq<char>, Seq<char>, Option<Seq<char>>) {
    match source {
        ModelSource::BuiltIn => ("built-in"@, "manifest-only"@, None),
        ModelSource::Download { url } => ("download"@, "not-downloaded"@, Some(url@)),
        ModelSource::LocalPath(root) => (
            "local-path"@,
            if files_present {
                "ready"@
            } else {
                "missing-files"@
            },
            Some(root@),
        ),
    }
}

/// Where a model comes from, whether it can be used, and its location.
pub fn model_source_status(model: &ModelRecord) -> (r: (String, String, Option<String>))
    ensures
        (r.0@, r.1@, r.2.deep_view()) == source_status_of(model.source, model.required_files_present),
{
    match &model.source {
        ModelSource::BuiltIn => ("built-in".to_owned(), "manifest-only".to_owned(), None),
        ModelSource::Download { url } => (
            "download".to_owned(),
            "not-downloaded".to_owned(),
            Some(url.clone()),
        ),
        ModelSource::LocalPath(root) => (
            "local-path".to_owned(),
            if model.required_files_present {
                "ready".to_owned()
            } else {
                "missing-files".to_owned()
            },
            Some(root.clone()),
        ),
    }
}

/// A model as the settings page lists it; `package_source` names the built-in package a
/// model is downloaded from, when there is one.
pub fn model_summary(model: &ModelRecord, package_source: Option<String>) -> (r: ModelSummaryDto)
    ensures
        r.id == model.id,
        r.name == model.name,
        r.domain@ == model_domain_label(model.domain),
        r.backend == model.backend,
        (r.source@, r.availability@, r.path.deep_view()) == source_status_of(
            model.source,
            model.required_files_present,
        ),
        r.package_source == package_source,
{
    let (source, availability, path) = model_source_status(model);
    ModelSummaryDto {
        id: model.id.clone(),
        name: model.name.clone(),
        domain: match model.domain {
            ModelDomain::Ocr => "ocr".to_owned(),
            ModelDomain::Translation => "translation".to_owned(),
        },
        backend: model.backend.clone(),
        source,
        availability,
        path,
        package_source,
    }
}

/// Whether a model is a usable local MNN OCR model: an OCR model for the MNN backend,
/// stored in a local directory that holds all its required files, and the selected one
/// when a model is selected.
pub open spec fn is_ready_local_ocr_model(model: ModelRecord, selected: Option<Seq<char>>) -> bool {
    &&& match selected {
        Some(id) => id == model.id@,
        None => true,
    }
    &&& model.domain == ModelDomain::Ocr
    &&& model.backend@ == "mnn"@
    &&& model.source is LocalPath
    &&& model.required_files_present
}

/// Whether some model is a usable local MNN OCR model, the selected one when a model is
/// selected.
pub fn has_ready_local_ocr_model(models: &Vec<ModelRecord>, selected_model_id: Option<&str>) -> (b: bool)
    ensures
        b == exists|i: int|
            0 <= i < models.len() && is_ready_local_ocr_model(
                #[trigger] models@[i],
                match selected_model_id {
                    Some(s) => Some(s@),
                    None => None,
                },
            ),
{
    let ghost sel = match selected_model_id {
        Some(s) => Some(s@),
        None => None::<Seq<char>>,
    };
    let mut i: usize = 0;
    while i < models.len()
        invariant
            i <= models.len(),
            sel == match selected_model_id {
                Some(s) => Some(s@),
                None => None::<Seq<char>>,
            },
            forall|k: int| 0 <= k < i ==> !is_ready_local_ocr_model(#[trigger] models@[k], sel),
        decreases models.len() - i,
    {
        let model = &models[i];
        let selected_ok = match selected_model_id {
            Some(id) => str_is(id, model.id.as_str()),
            None => true,
        };
        let local = match &model.source {
            ModelSource::LocalPath(_) => true,
            _ => false,
        };
        if selected_ok && model.domain == ModelDomain::Ocr && str_is(model.backend.as_str(), "mnn")
            && local && model.required_files_present {
            assert(is_ready_local_ocr_model(models@[i as int], sel));
            return true;
        }
        i = i + 1;
    }
    false
}

/// The runtime status that tells local OCR is built in.
pub open spec fn local_ocr_enabled_status() -> Seq<char> {
    "local-ocr-rs-enabled"@
}

/// Whether automatic OCR after a capture must be switched off when settings are saved:
/// it is on, the provider is local, and either local OCR is not built in or no usable
/// local OCR model (the selected one, when one is selected) is there.
pub open spec fn must_disable_local_auto_ocr(
    auto_run: bool,
    provider: OcrProvider,
    runtime_status: Seq<char>,
    model_ready: bool,
) -> bool {
    auto_run && provider is Local && (runtime_status != local_ocr_enabled_status() || !model_ready)
}

/// Whether automatic OCR after a capture must be switched off when settings are saved;
/// `model_ready` tells whether a usable local OCR model is there.
pub fn should_disable_local_auto_ocr(
    auto_run: bool,
    provider: OcrProvider,
    runtime_status: &str,
    model_ready: bool,
) -> (b: bool)
    ensures
        b == must_disable_local_auto_ocr(auto_run, provider, runtime_status@, model_ready),
{
    if !auto_run {
        return false;
    }
    let local = match provider {
        OcrProvider::Local(_) => true,
        _ => false,
    };
    if !local {
        return false;
    }
    if !str_is(runtime_status, "local-ocr-rs-enabled") {
        return true;
    }
    !model_ready
}

/// The ids of a list, joined with `sep` between them.
pub open spec fn joined(items: Seq<Seq<char>>, sep: Seq<char>) -> Seq<char>
    decreases items.len(),
{
    if items.len() == 0 {
        Seq::<char>::empty()
    } else if items.len() == 1 {
        items[0]
    } else {
        joined(items.drop_last(), sep) + sep + items.last()
    }
}

/// Appends the items joined with `sep` between them.
pub fn push_joined(out: &mut Vec<char>, items: &Vec<String>, sep: &str)
    ensures
        final(out)@ == old(out)@ + joined(items@.map_values(|s: String| s@), sep@),
{
    let ghost views = items@.map_values(|s: String| s@);
    let mut i: usize = 0;
    while i < items.len()
        invariant
            i <= items.len(),
            views == items@.map_values(|s: String| s@),
            out@ == old(out)@ + joined(views.take(i as int), sep@),
        decreases items.len() - i,
    {
        let ghost before = out@;
        assert(views.take(i + 1).drop_last() =~= views.take(i as int));
        assert(views.take(i + 1).last() == items@[i as int]@);
        if i > 0 {
            push_str_chars(out, sep);
        }
        push_str_chars(out, items[i].as_str());
        if i == 0 {
            assert(joined(views.take(1), sep@) == views[0]) by {
                assert(views.take(1).len() == 1);
            }
            assert(joined(views.take(0), sep@) =~= Seq::<char>::empty());
        }
        assert(out@ =~= old(out)@ + joined(views.take(i + 1), sep@));
        i = i + 1;
    }
    assert(views.take(items.len() as int) =~= views);
}

/// The settings page line that lists the registered models.
pub fn models_summary_text(model_ids: &Vec<String>) -> (r: String)
    ensures
        r@ == "models: "@ + joined(model_ids@.map_values(|s: String| s@), ", "@),
{
    let mut v: Vec<char> = Vec::new();
    push_str_chars(&mut v, "models: ");
    push_joined(&mut v, model_ids, ", ");
    string_from_chars(&v)
}

/// The line that tells the desktop shell is up, with the capabilities of its core.
pub fn boot_summary_text(capabilities: &Vec<String>) -> (r: String)
    ensures
        r@ == "snap pin desktop shell ready: "@ + joined(capabilities@.map_values(|s: String| s@), ", "@),
{
    let mut v: Vec<char> = Vec::new();
    push_str_chars(&mut v, "snap pin desktop shell ready: ");
    push_joined(&mut v, capabilities, ", ");
    string_from_chars(&v)
}

/// The line that counts the history's OCR results and translations.
pub fn history_summary_text(ocr_results: u64, translations: u64) -> (r: String)
    ensures
        r@ == "history: "@ + decimal(ocr_results as nat) + " ocr result(s), "@ + decimal(
            translations as nat,
        ) + " translation(s)"@,
{
    let mut v: Vec<char> = Vec::new();
    push_str_chars(&mut v, "history: ");
    push_decimal(&mut v, ocr_results as u128);
    push_str_chars(&mut v, " ocr result(s), ");
    push_decimal(&mut v, translations as u128);
    push_str_chars(&mut v, " translation(s)");
    string_from_chars(&v)
}

/// What the desktop shell reports of itself: its boot line, its models, its history and
/// the state of the local OCR runtime.
#[derive(Debug)]
pub struct AppStatus {
    pub boot_summary: String,
    pub model_summary: String,
    pub history_summary: String,
    pub local_ocr_runtime_status: String,
}

/// What the desktop shell reports of itself, from its core's capabilities, its model
/// ids, its history counts and the local OCR runtime's state.
pub fn app_status(
    capabilities: &Vec<String>,
    model_ids: &Vec<String>,
    ocr_results: u64,
    translations: u64,
    local_ocr_runtime_status: &str,
) -> (r: AppStatus)
    ensures
        r.boot_summary@ == "snap pin desktop shell ready: "@ + joined(
            capabilities@.map_values(|s: String| s@),
            ", "@,
        ),
        r.model_summary@ == "models: "@ + joined(model_ids@.map_values(|s: String| s@), ", "@),
        r.history_summary@ == "history: "@ + decimal(ocr_results as nat) + " ocr result(s), "@
            + decimal(translations as nat) + " translation(s)"@,
        r.local_ocr_runtime_status@ == local_ocr_runtime_status@,
{
    AppStatus {
        boot_summary: boot_summary_text(capabilities),
        model_summary: models_summary_text(model_ids),
        history_summary: history_summary_text(ocr_results, translations),
        local_ocr_runtime_status: local_ocr_runtime_status.to_owned(),
    }
}

/// The answer to a run of the demonstration flow, or to draining the core's events: the
/// events, as text, and the history line.
#[derive(Debug)]
pub struct MvpRunResponse {
    pub events: Vec<String>,
    pub history_summary: String,
}

/// The answer to a run of the demonstration flow: the events it gave and the history
/// line after it.
pub fn mvp_run_response(events: Vec<String>, ocr_results: u64, translations: u64) -> (r: MvpRunResponse)
    ensures
        r.events@ == events@,
        r.history_summary@ == "history: "@ + decimal(ocr_results as nat) + " ocr result(s), "@
            + decimal(translations as nat) + " translation(s)"@,
{
    MvpRunResponse { events, history_summary: history_summary_text(ocr_results, translations) }
}

/// The answer to starting a capture: the events, as text, that starting it gave.
#[derive(Debug)]
pub struct CaptureResponse {
    pub events: Vec<String>,
}

/// The answer to importing or downloading a model: the events, as text, that
/// registering it gave, the models summary, the models and the settings afterwards.
#[derive(Debug)]
pub struct ModelImportResponse {
    pub events: Vec<String>,
    pub model_summary: String,
    pub models: Vec<ModelSummaryDto>,
    pub settings: AppSettingsDto,
}

} // verus!
