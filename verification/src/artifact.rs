//! Paths, names and status strings shared by the two module builders.
//!
//! A deferred (boot-time) build produces a script file under `usr/bin/` and
//! a unit file under `etc/systemd/<scope>/`, both below the output root and
//! both named after one per-invocation token, plus the `systemctl enable`
//! line handed back to the caller. `BootArtifacts` carries all of those as
//! exact strings; the caller only has to write them to disk.

use vstd::prelude::*;

verus! {

/// The shared base name of the script file, the unit file and the unit
/// itself: `<tag>-<scope>-<token>`.
pub open spec fn unit_name_spec(tag: Seq<char>, scope_word: Seq<char>, token: Seq<char>) -> Seq<char> {
    tag + "-"@ + scope_word + "-"@ + token
}

/// The directory that receives generated scripts.
pub open spec fn script_dir_spec(root: Seq<char>) -> Seq<char> {
    root + "/usr/bin"@
}

/// The absolute path of the generated script.
pub open spec fn script_path_spec(root: Seq<char>, name: Seq<char>) -> Seq<char> {
    script_dir_spec(root) + "/"@ + name
}

/// The directory that receives generated unit files for the given scope.
pub open spec fn service_dir_spec(root: Seq<char>, scope_word: Seq<char>) -> Seq<char> {
    root + "/etc/systemd/"@ + scope_word
}

/// The absolute path of the generated unit file.
pub open spec fn service_path_spec(root: Seq<char>, scope_word: Seq<char>, name: Seq<char>) -> Seq<char> {
    service_dir_spec(root, scope_word) + "/"@ + name + ".service"@
}

/// The line handed back to the caller so the unit gets enabled.
pub open spec fn enable_command_spec(scope_word: Seq<char>, name: Seq<char>) -> Seq<char> {
    "systemctl enable --"@ + scope_word + " "@ + name
}

/// The status returned when the unit file already exists, so nothing was
/// written: presence of the unit file counts as prior registration.
pub open spec fn already_created_spec() -> Seq<char> {
    "echo \"service already created\""@
}

/// The tail of every unit file, from the restart policy to the install
/// section, ending with the final newline of the file.
pub open spec fn unit_suffix_spec() -> Seq<char> {
    "\nRestart=on-failure\nRestartSec=30\n\n[Install]\nWantedBy=default.target\n"@
}

/// Everything a deferred build asks the caller to put on disk, plus the
/// status line to hand back once that is done.
pub struct BootArtifacts {
    /// Directory of the script file, created if missing.
    pub script_dir: String,
    /// Path of the script file.
    pub script_path: String,
    /// Entire content of the script file.
    pub script_content: String,
    /// Directory of the unit file, created if missing.
    pub service_dir: String,
    /// Path of the unit file.
    pub service_path: String,
    /// Entire content of the unit file.
    pub service_content: String,
    /// Status line for a first-time registration.
    pub enable_command: String,
}

/// All path-like fields of `a` are the ones that `root`, `scope_word` and
/// the unit `name` determine; the two content fields are left to the
/// builders.
pub open spec fn placement_matches(
    a: BootArtifacts,
    root: Seq<char>,
    scope_word: Seq<char>,
    name: Seq<char>,
) -> bool {
    &&& a.script_dir@ == script_dir_spec(root)
    &&& a.script_path@ == script_path_spec(root, name)
    &&& a.service_dir@ == service_dir_spec(root, scope_word)
    &&& a.service_path@ == service_path_spec(root, scope_word, name)
    &&& a.enable_command@ == enable_command_spec(scope_word, name)
}

/// Builds `<tag>-<scope_word>-<token>`.
pub fn make_unit_name(tag: &str, scope_word: &str, token: &str) -> (r: String)
    ensures
        r@ == unit_name_spec(tag@, scope_word@, token@),
{
    String::from_str(tag).concat("-").concat(scope_word).concat("-").concat(token)
}

/// Assembles the artifact set for a deferred build from the rendered
/// script content and the module's unit-file text up to `ExecStart=`; the
/// script path and the shared unit-file tail complete the unit text here.
pub fn make_boot_artifacts(
    root: &str,
    scope_word: &str,
    name: &str,
    script_content: String,
    unit_prefix: &str,
) -> (a: BootArtifacts)
    ensures
        placement_matches(a, root@, scope_word@, name@),
        a.script_content == script_content,
        a.service_content@ == unit_prefix@ + script_path_spec(root@, name@) + unit_suffix_spec(),
{
    let script_dir = String::from_str(root).concat("/usr/bin");
    let script_path = script_dir.clone().concat("/").concat(name);
    let service_dir = String::from_str(root).concat("/etc/systemd/").concat(scope_word);
    let service_path = service_dir.clone().concat("/").concat(name).concat(".service");
    let enable_command = String::from_str("systemctl enable --").concat(scope_word).concat(
        " ",
    ).concat(name);
    let service_content = String::from_str(unit_prefix).concat(script_path.as_str()).concat(
        "\nRestart=on-failure\nRestartSec=30\n\n[Install]\nWantedBy=default.target\n",
    );
    BootArtifacts {
        script_dir,
        script_path,
        script_content,
        service_dir,
        service_path,
        service_content,
        enable_command,
    }
}

/// The status line for a deferred build: the enable command when the unit
/// file was new, and the fixed already-created line when it was found on
/// disk, in which case nothing may be written over it.
pub fn completion_status(unit_file_exists: bool, a: &BootArtifacts) -> (r: String)
    ensures
        unit_file_exists ==> r@ == already_created_spec(),
        !unit_file_exists ==> r@ == a.enable_command@,
{
    if unit_file_exists {
        String::from_str("echo \"service already created\"")
    } else {
        a.enable_command.clone()
    }
}

} // verus!
