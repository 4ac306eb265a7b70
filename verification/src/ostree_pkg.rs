//! The ostree-package module: renders a package-manager command line from
//! the manager, action and word lists of the configuration, and either
//! returns it for immediate use during the build or defers it to first
//! boot as a script plus unit file.

use vstd::prelude::*;

use crate::artifact::BootArtifacts;
use crate::artifact::make_boot_artifacts;
use crate::artifact::make_unit_name;
use crate::artifact::placement_matches;
use crate::artifact::script_path_spec;
use crate::artifact::unit_name_spec;
use crate::artifact::unit_suffix_spec;
use crate::cmdline::join_spaces;
use crate::cmdline::join_spaces_spec;
use crate::cmdline::seq_views;
use crate::token::fresh_token;

verus! {

/// The package manager the rendered command invokes.
#[allow(non_camel_case_types)]
#[derive(Clone, Copy, Debug, Default, PartialEq, Eq)]
pub enum Manager {
    #[default]
    dnf,
    dnf5,
    flatpak,
}

/// What the command asks the package manager to do.
#[allow(non_camel_case_types)]
#[derive(Clone, Copy, Debug, Default, PartialEq, Eq)]
pub enum Action {
    #[default]
    install,
    uninstall,
    add_remote,
    remove_remote,
}

/// When the command runs: during the image build, or on first boot.
#[allow(non_camel_case_types)]
#[derive(Clone, Copy, Debug, Default, PartialEq, Eq)]
pub enum On {
    #[default]
    build,
    boot,
}

/// Which init-manager instance the deferred unit is registered against.
#[allow(non_camel_case_types)]
#[derive(Clone, Copy, Debug, Default, PartialEq, Eq)]
pub enum As {
    #[default]
    system,
    user,
}

/// The parsed configuration of one ostree-package module.
#[derive(Clone, Debug)]
pub struct PkgModule {
    pub name: String,
    pub module_type: String,
    pub packages: Vec<String>,
    pub remotes: Vec<String>,
    pub manager: Manager,
    pub action: Action,
    pub on: On,
    pub scope: As,
    pub args: Vec<String>,
}

/// The name the rendered command starts with.
pub open spec fn manager_word(m: Manager) -> Seq<char> {
    match m {
        Manager::dnf => "dnf"@,
        Manager::dnf5 => "dnf5"@,
        Manager::flatpak => "flatpak"@,
    }
}

/// Every manager/action pair renders to a command except remote handling
/// on plain dnf, which has no such subcommand.
pub open spec fn supported(m: Manager, a: Action) -> bool {
    !(m is dnf && (a is add_remote || a is remove_remote))
}

/// The verb phrase between the manager name and the extra arguments;
/// empty for the unsupported pairs, which never render.
pub open spec fn verb_word(m: Manager, a: Action) -> Seq<char> {
    match (m, a) {
        (Manager::dnf, Action::install) => "install -y"@,
        (Manager::dnf, Action::uninstall) => "uninstall -y"@,
        (Manager::dnf, _) => Seq::<char>::empty(),
        (Manager::dnf5, Action::install) => "install -y"@,
        (Manager::dnf5, Action::uninstall) => "uninstall -y"@,
        (Manager::dnf5, Action::add_remote) => "-y copr enable"@,
        (Manager::dnf5, Action::remove_remote) => "-y copr remove"@,
        (Manager::flatpak, Action::install) => "install --noninteractive"@,
        (Manager::flatpak, Action::uninstall) => "uninstall --noninteractive"@,
        (Manager::flatpak, Action::add_remote) => "remote-add --if-not-exists"@,
        (Manager::flatpak, Action::remove_remote) => "remote-delete"@,
    }
}

/// The fixed message returned in place of a command for the unsupported
/// pairs.
pub open spec fn unsupported_word(a: Action) -> Seq<char> {
    if a is add_remote {
        "Error: add_remote is not supported on dnf"@
    } else {
        "Error: remove_remote is not supported on dnf"@
    }
}

/// The word naming the scope in paths, unit names and the enable command.
pub open spec fn scope_word(s: As) -> Seq<char> {
    match s {
        As::system => "system"@,
        As::user => "user"@,
    }
}

/// The list the action operates on: package names for install and
/// uninstall, remote names otherwise.
pub open spec fn operand_views(m: PkgModule) -> Seq<Seq<char>> {
    if m.action is install || m.action is uninstall {
        seq_views(m.packages@)
    } else {
        seq_views(m.remotes@)
    }
}

/// The full command line: manager, verb phrase, the extra arguments
/// joined by spaces, and the operands joined by spaces, separated by
/// single spaces. Empty lists keep their separators, so neighbouring
/// separators double up rather than collapse.
pub open spec fn command_of(m: PkgModule) -> Seq<char> {
    manager_word(m.manager) + " "@ + verb_word(m.manager, m.action) + " "@ + join_spaces_spec(
        seq_views(m.args@),
    ) + " "@ + join_spaces_spec(operand_views(m))
}

/// The unit-file text up to `ExecStart=`: the user-scope unit is ordered
/// after the sibling system-scope unit of this module family instead of
/// after the network.
pub open spec fn unit_prefix_spec(scope: As) -> Seq<char> {
    match scope {
        As::system => "\n[Unit]\nDescription=Install Packages after boot\nWants=network-online.target\nAfter=network-online.target\n\n[Service]\nType=oneshot\nExecStart="@,
        As::user => "\n[Unit]\nDescription=Install Packages after boot\nWants=network-online.target\nAfter=ostree-pkg-system.service\n\n[Service]\nType=oneshot\nExecStart="@,
    }
}

/// The entire unit-file content for a script at `script_path`.
pub open spec fn service_text_spec(scope: As, script_path: Seq<char>) -> Seq<char> {
    unit_prefix_spec(scope) + script_path + unit_suffix_spec()
}

/// What a build resolves to. An `Immediate` plan carries the line handed
/// straight back to the caller — a rendered command or the unsupported
/// message — and asks for no filesystem work at all; a `Boot` plan asks
/// the caller to write the carried artifacts.
pub enum BuildPlan {
    Immediate(String),
    Boot(BootArtifacts),
}

/// The plan a module renders to, given the output root and the token:
/// the unsupported message for remote handling on dnf, the command line
/// itself at build time, and the script/unit artifact set at boot time.
pub open spec fn plan_matches(r: BuildPlan, m: PkgModule, root: Seq<char>, token: Seq<char>) -> bool {
    if !supported(m.manager, m.action) {
        match r {
            BuildPlan::Immediate(s) => s@ == unsupported_word(m.action),
            _ => false,
        }
    } else if m.on is build {
        match r {
            BuildPlan::Immediate(s) => s@ == command_of(m),
            _ => false,
        }
    } else {
        match r {
            BuildPlan::Boot(a) => {
                let name = unit_name_spec("ostree-pkg"@, scope_word(m.scope), token);
                &&& placement_matches(a, root, scope_word(m.scope), name)
                &&& a.script_content@ == command_of(m) + "\n"@
                &&& a.service_content@ == service_text_spec(m.scope, script_path_spec(root, name))
            },
            _ => false,
        }
    }
}

fn manager_str(m: &Manager) -> (r: &'static str)
    ensures
        r@ == manager_word(*m),
{
    match m {
        Manager::dnf => "dnf",
        Manager::dnf5 => "dnf5",
        Manager::flatpak => "flatpak",
    }
}

fn verb_str(m: &Manager, a: &Action) -> (r: &'static str)
    ensures
        r@ == verb_word(*m, *a),
{
    match (m, a) {
        (Manager::dnf, Action::install) => "install -y",
        (Manager::dnf, Action::uninstall) => "uninstall -y",
        (Manager::dnf, _) => {
            proof {
                reveal_strlit("");
                assert(""@ =~= Seq::<char>::empty());
            }
            ""
        },
        (Manager::dnf5, Action::install) => "install -y",
        (Manager::dnf5, Action::uninstall) => "uninstall -y",
        (Manager::dnf5, Action::add_remote) => "-y copr enable",
        (Manager::dnf5, Action::remove_remote) => "-y copr remove",
        (Manager::flatpak, Action::install) => "install --noninteractive",
        (Manager::flatpak, Action::uninstall) => "uninstall --noninteractive",
        (Manager::flatpak, Action::add_remote) => "remote-add --if-not-exists",
        (Manager::flatpak, Action::remove_remote) => "remote-delete",
    }
}

fn scope_str(s: &As) -> (r: &'static str)
    ensures
        r@ == scope_word(*s),
{
    match s {
        As::system => "system",
        As::user => "user",
    }
}

fn unit_prefix_str(s: &As) -> (r: &'static str)
    ensures
        r@ == unit_prefix_spec(*s),
{
    match s {
        As::system => "\n[Unit]\nDescription=Install Packages after boot\nWants=network-online.target\nAfter=network-online.target\n\n[Service]\nType=oneshot\nExecStart=",
        As::user => "\n[Unit]\nDescription=Install Packages after boot\nWants=network-online.target\nAfter=ostree-pkg-system.service\n\n[Service]\nType=oneshot\nExecStart=",
    }
}

/// Renders the command line for the module, or the fixed unsupported
/// message for remote handling on plain dnf, for which no command exists.
pub fn render_command(m: &PkgModule) -> (r: Result<String, String>)
    ensures
        (r matches Ok(c)) <==> supported(m.manager, m.action),
        r matches Ok(c) ==> c@ == command_of(*m),
        r matches Err(e) ==> e@ == unsupported_word(m.action),
{
    if matches!(m.manager, Manager::dnf) && matches!(m.action, Action::add_remote) {
        return Err(String::from_str("Error: add_remote is not supported on dnf"));
    }
    if matches!(m.manager, Manager::dnf) && matches!(m.action, Action::remove_remote) {
        return Err(String::from_str("Error: remove_remote is not supported on dnf"));
    }
    let mut c = String::from_str(manager_str(&m.manager));
    c.append(" ");
    c.append(verb_str(&m.manager, &m.action));
    c.append(" ");
    let args_joined = join_spaces(&m.args);
    c.append(args_joined.as_str());
    c.append(" ");
    let operands = if matches!(m.action, Action::install | Action::uninstall) {
        join_spaces(&m.packages)
    } else {
        join_spaces(&m.remotes)
    };
    c.append(operands.as_str());
    Ok(c)
}

/// Resolves the module against the output root and the given token.
/// Validation comes first: the unsupported pairs resolve to an immediate
/// message whatever the trigger, so no path or file work follows them.
pub fn build_plan(m: &PkgModule, root: &str, token: &str) -> (r: BuildPlan)
    ensures
        plan_matches(r, *m, root@, token@),
{
    let rendered = render_command(m);
    match rendered {
        Err(message) => BuildPlan::Immediate(message),
        Ok(command) => match m.on {
            On::build => BuildPlan::Immediate(command),
            On::boot => {
                let scope = scope_str(&m.scope);
                let name = make_unit_name("ostree-pkg", scope, token);
                let script_content = command.concat("\n");
                let artifacts = make_boot_artifacts(
                    root,
                    scope,
                    name.as_str(),
                    script_content,
                    unit_prefix_str(&m.scope),
                );
                BuildPlan::Boot(artifacts)
            },
        },
    }
}

/// Resolves the module with a freshly generated token, which names the
/// script file, the unit file and the enabled unit alike.
pub fn build(m: &PkgModule, root: &str) -> (r: BuildPlan)
    ensures
        exists|t: Seq<char>| t.len() == 36 && plan_matches(r, *m, root@, t),
{
    let token = fresh_token();
    let r = build_plan(m, root, token.as_str());
    proof {
        assert(token@.len() == 36 && plan_matches(r, *m, root@, token@));
    }
    r
}

/// The rendered command depends only on the manager, the action and the
/// three word lists: two modules that agree there render the same
/// command, whatever their names, scopes, triggers — and whatever token
/// their invocations draw, since none appears in the command.
pub proof fn lemma_command_deterministic(a: PkgModule, b: PkgModule)
    requires
        a.manager == b.manager,
        a.action == b.action,
        seq_views(a.packages@) == seq_views(b.packages@),
        seq_views(a.remotes@) == seq_views(b.remotes@),
        seq_views(a.args@) == seq_views(b.args@),
    ensures
        command_of(a) == command_of(b),
{
}

/// An unsupported pair resolves to the fixed message alone: the plan is
/// immediate, so no filesystem write is asked for, and no token matters.
pub proof fn lemma_unsupported_is_immediate(r: BuildPlan, m: PkgModule, root: Seq<char>, t: Seq<char>)
    requires
        plan_matches(r, m, root, t),
        !supported(m.manager, m.action),
    ensures
        r matches BuildPlan::Immediate(s) && s@ == unsupported_word(m.action),
        forall|t2: Seq<char>| plan_matches(r, m, root, t2),
{
}

/// A build-time trigger resolves to the rendered command verbatim: the
/// plan is immediate, so no filesystem write is asked for, and no token
/// matters.
pub proof fn lemma_build_time_is_immediate(r: BuildPlan, m: PkgModule, root: Seq<char>, t: Seq<char>)
    requires
        plan_matches(r, m, root, t),
        supported(m.manager, m.action),
        m.on is build,
    ensures
        r matches BuildPlan::Immediate(s) && s@ == command_of(m),
        forall|t2: Seq<char>| plan_matches(r, m, root, t2),
{
}

/// A boot-time trigger asks for one script holding the rendered command
/// followed by a newline, and one unit file whose `ExecStart` line names
/// that script's path.
pub proof fn lemma_boot_artifacts(r: BuildPlan, m: PkgModule, root: Seq<char>, t: Seq<char>)
    requires
        plan_matches(r, m, root, t),
        supported(m.manager, m.action),
        m.on is boot,
    ensures
        r matches BuildPlan::Boot(a) && {
            &&& a.script_content@ == command_of(m) + "\n"@
            &&& a.service_content@ == unit_prefix_spec(m.scope) + a.script_path@
                + unit_suffix_spec()
        },
{
}

/// With all three word lists empty the separators still stand, so the
/// command ends in the verb phrase followed by two spaces.
pub proof fn lemma_empty_lists_double_spaces(m: PkgModule)
    requires
        supported(m.manager, m.action),
        m.packages@.len() == 0,
        m.remotes@.len() == 0,
        m.args@.len() == 0,
    ensures
        command_of(m) == manager_word(m.manager) + " "@ + verb_word(m.manager, m.action) + "  "@,
{
    reveal_strlit(" ");
    reveal_strlit("  ");
    assert(seq_views(m.args@) =~= Seq::<Seq<char>>::empty());
    assert(operand_views(m) =~= Seq::<Seq<char>>::empty());
    assert(command_of(m) =~= manager_word(m.manager) + " "@ + verb_word(m.manager, m.action)
        + "  "@);
}

} // verus!
