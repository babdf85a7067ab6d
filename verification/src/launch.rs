use vstd::prelude::*;

use crate::chars::{push_str_chars, str_is, string_from_chars};

verus! {

/// The file name of the overlay program on a platform: with `.exe` on Windows.
pub open spec fn executable_file_name(name: Seq<char>, windows: bool) -> Seq<char> {
    if windows {
        name + ".exe"@
    } else {
        name
    }
}

/// The file name of a program on this platform (`windows` when it is Windows).
pub fn executable_name(name: &str, windows: bool) -> (r: String)
    ensures
        r@ == executable_file_name(name@, windows),
{
    if windows {
        let mut v: Vec<char> = Vec::new();
        push_str_chars(&mut v, name);
        push_str_chars(&mut v, ".exe");
        string_from_chars(&v)
    } else {
        name.to_owned()
    }
}

/// Whether the components of `prefix` start those of `path`.
pub open spec fn components_start_with(path: Seq<Seq<char>>, prefix: Seq<Seq<char>>) -> bool {
    prefix.len() <= path.len() && path.subrange(0, prefix.len() as int) == prefix
}

/// The components of the directory of the workspace's debug builds.
pub open spec fn debug_dir_components(workspace: Seq<Seq<char>>) -> Seq<Seq<char>> {
    workspace + seq!["target"@, "debug"@]
}

/// Whether the running program is a debug build of the workspace: its path, by
/// components, lies under `target/debug` of the workspace.
pub fn is_workspace_debug_executable(current_exe: &Vec<String>, workspace: &Vec<String>) -> (b: bool)
    ensures
        b == components_start_with(
            current_exe@.map_values(|c: String| c@),
            debug_dir_components(workspace@.map_values(|c: String| c@)),
        ),
{
    let ghost exe = current_exe@.map_values(|c: String| c@);
    let ghost pre = debug_dir_components(workspace@.map_values(|c: String| c@));
    let n = workspace.len();
    if current_exe.len() < n || current_exe.len() - n < 2 {
        return false;
    }
    let mut i: usize = 0;
    while i < n
        invariant
            i <= n,
            n == workspace.len(),
            n + 2 <= current_exe.len(),
            exe == current_exe@.map_values(|c: String| c@),
            pre == debug_dir_components(workspace@.map_values(|c: String| c@)),
            forall|k: int| 0 <= k < i ==> exe[k] == pre[k],
        decreases n - i,
    {
        if !str_is(current_exe[i].as_str(), workspace[i].as_str()) {
            assert(exe.subrange(0, pre.len() as int)[i as int] != pre[i as int]);
            return false;
        }
        i = i + 1;
    }
    let t = str_is(current_exe[n].as_str(), "target");
    let d = str_is(current_exe[n + 1].as_str(), "debug");
    assert(pre[n as int] == "target"@);
    assert(pre[n + 1] == "debug"@);
    if !(t && d) {
        if !t {
            assert(exe.subrange(0, pre.len() as int)[n as int] != pre[n as int]);
        } else {
            assert(exe.subrange(0, pre.len() as int)[n + 1] != pre[n + 1]);
        }
        return false;
    }
    assert(exe.subrange(0, pre.len() as int) =~= pre);
    true
}

/// Where the workspace root was found.
#[derive(Debug, Clone, Copy, PartialEq, Eq, Structural)]
pub enum WorkspaceRoot {
    /// The `i`-th directory above the running program, counted from its own directory.
    Ancestor(usize),
    /// The current directory.
    CurrentDir,
}

/// The workspace root, from whether each directory above the program (nearest first)
/// holds the workspace markers, and whether the current directory does.
pub fn find_workspace_root(ancestor_has_markers: &Vec<bool>, cwd_has_markers: bool) -> (r: Option<WorkspaceRoot>)
    ensures
        match r {
            Some(WorkspaceRoot::Ancestor(i)) => i < ancestor_has_markers.len()
                && ancestor_has_markers@[i as int] && forall|j: int| 0 <= j < i ==> !ancestor_has_markers@[j],
            Some(WorkspaceRoot::CurrentDir) => cwd_has_markers && forall|j: int|
                0 <= j < ancestor_has_markers.len() ==> !ancestor_has_markers@[j],
            None => !cwd_has_markers && forall|j: int|
                0 <= j < ancestor_has_markers.len() ==> !ancestor_has_markers@[j],
        },
{
    let mut i: usize = 0;
    while i < ancestor_has_markers.len()
        invariant
            i <= ancestor_has_markers.len(),
            forall|j: int| 0 <= j < i ==> !ancestor_has_markers@[j],
        decreases ancestor_has_markers.len() - i,
    {
        if ancestor_has_markers[i] {
            return Some(WorkspaceRoot::Ancestor(i));
        }
        i = i + 1;
    }
    if cwd_has_markers {
        Some(WorkspaceRoot::CurrentDir)
    } else {
        None
    }
}

/// How the desktop shell starts the overlay.
#[derive(Debug, Clone, Copy, PartialEq, Eq, Structural)]
pub enum OverlayLaunchChoice {
    /// `cargo run` in the workspace, for a debug build of the workspace.
    CargoDebug,
    /// The overlay program in the `i`-th candidate directory.
    Candidate(usize),
    /// `cargo run` in the workspace, when no overlay program is found.
    CargoFallback,
    /// The overlay program beside the running one, found or not.
    Sibling,
}

/// How the desktop shell starts the overlay: through cargo for a debug build of the
/// workspace; else the first candidate directory that holds the overlay program; else
/// cargo if a workspace is found; else the program beside the running one.
pub fn choose_overlay_launch(
    workspace_found: bool,
    debug_build_of_workspace: bool,
    candidate_exists: &Vec<bool>,
) -> (r: OverlayLaunchChoice)
    ensures
        workspace_found && debug_build_of_workspace ==> r == OverlayLaunchChoice::CargoDebug,
        !(workspace_found && debug_build_of_workspace) ==> match r {
            OverlayLaunchChoice::Candidate(i) => i < candidate_exists.len()
                && candidate_exists@[i as int] && forall|j: int| 0 <= j < i ==> !candidate_exists@[j],
            OverlayLaunchChoice::CargoFallback => workspace_found && forall|j: int|
                0 <= j < candidate_exists.len() ==> !candidate_exists@[j],
            OverlayLaunchChoice::Sibling => !workspace_found && forall|j: int|
                0 <= j < candidate_exists.len() ==> !candidate_exists@[j],
            OverlayLaunchChoice::CargoDebug => false,
        },
{
    if workspace_found && debug_build_of_workspace {
        return OverlayLaunchChoice::CargoDebug;
    }
    let mut i: usize = 0;
    while i < candidate_exists.len()
        invariant
            i <= candidate_exists.len(),
            !(workspace_found && debug_build_of_workspace),
            forall|j: int| 0 <= j < i ==> !candidate_exists@[j],
        decreases candidate_exists.len() - i,
    {
        if candidate_exists[i] {
            return OverlayLaunchChoice::Candidate(i);
        }
        i = i + 1;
    }
    if workspace_found {
        OverlayLaunchChoice::CargoFallback
    } else {
        OverlayLaunchChoice::Sibling
    }
}

/// The directories searched for the overlay program, in order: that of the running
/// program, then the application's resource directory, each when known.
pub fn candidate_directories(exe_parent: Option<String>, resource_dir: Option<String>) -> (r: Vec<String>)
    ensures
        r@ == match (exe_parent, resource_dir) {
            (Some(p), Some(d)) => seq![p, d],
            (Some(p), None) => seq![p],
            (None, Some(d)) => seq![d],
            (None, None) => Seq::<String>::empty(),
        },
{
    let mut directories: Vec<String> = Vec::new();
    let ghost p0 = exe_parent;
    let ghost d0 = resource_dir;
    if let Some(parent) = exe_parent {
        directories.push(parent);
    }
    if let Some(dir) = resource_dir {
        directories.push(dir);
    }
    assert(directories@ =~= match (p0, d0) {
        (Some(p), Some(d)) => seq![p, d],
        (Some(p), None) => seq![p],
        (None, Some(d)) => seq![d],
        (None, None) => Seq::<String>::empty(),
    });
    directories
}

/// The log description of how the overlay is started, from the shown path of the
/// program or of the workspace.
pub fn launch_description(cargo: bool, shown_path: &str) -> (r: String)
    ensures
        cargo ==> r@ == "cargo run in "@ + shown_path@,
        !cargo ==> r@ == "executable "@ + shown_path@,
{
    let mut v: Vec<char> = Vec::new();
    if cargo {
        push_str_chars(&mut v, "cargo run in ");
    } else {
        push_str_chars(&mut v, "executable ");
    }
    push_str_chars(&mut v, shown_path);
    string_from_chars(&v)
}

/// The arguments of `cargo` that run the overlay with local OCR and hand it its own
/// arguments.
pub open spec fn cargo_overlay_args_of(overlay_args: Seq<Seq<char>>) -> Seq<Seq<char>> {
    seq!["run"@, "-p"@, "egui_overlay"@, "--features"@, "local-ocr-rs"@, "--"@] + overlay_args
}

/// The arguments of `cargo` that run the overlay with local OCR.
pub fn cargo_overlay_args(overlay_args: Vec<String>) -> (r: Vec<String>)
    ensures
        r@.map_values(|a: String| a@) == cargo_overlay_args_of(overlay_args@.map_values(|a: String| a@)),
{
    let mut r: Vec<String> = Vec::new();
    r.push("run".to_owned());
    r.push("-p".to_owned());
    r.push("egui_overlay".to_owned());
    r.push("--features".to_owned());
    r.push("local-ocr-rs".to_owned());
    r.push("--".to_owned());
    let ghost head = r@;
    let mut rest = overlay_args;
    let ghost args = rest@;
    r.append(&mut rest);
    assert(r@ =~= head + args);
    assert(r@.map_values(|a: String| a@) =~= cargo_overlay_args_of(args.map_values(|a: String| a@)));
    r
}

} // verus!
