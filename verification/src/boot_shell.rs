//! The boot-shell module: turns an ordered list of raw shell command
//! lines into a script run once at first boot, deferred through the same
//! script/unit artifact pair as the package module.

use vstd::prelude::*;

use crate::artifact::BootArtifacts;
use crate::artifact::make_boot_artifacts;
use crate::artifact::make_unit_name;
use crate::artifact::placement_matches;
use crate::artifact::script_path_spec;
use crate::artifact::unit_name_spec;
use crate::artifact::unit_suffix_spec;
use crate::cmdline::seq_views;
use crate::token::fresh_token;

verus! {

/// Which init-manager instance the unit is registered against.
#[allow(non_camel_case_types)]
#[derive(Clone, Copy, Debug, Default, PartialEq, Eq)]
pub enum As {
    #[default]
    system,
    user,
}

/// The parsed configuration of one boot-shell module.
#[derive(Clone, Debug)]
pub struct PkgModule {
    pub name: String,
    pub module_type: String,
    pub packages: Vec<String>,
    pub remotes: Vec<String>,
    pub scope: As,
    pub commands: Vec<String>,
}

/// The word naming the scope in paths, unit names and the enable command.
pub open spec fn scope_word(s: As) -> Seq<char> {
    match s {
        As::system => "system"@,
        As::user => "user"@,
    }
}

/// The fixed opening of every generated script.
pub open spec fn script_header_spec() -> Seq<char> {
    "\n    \n    #!/bin/bash\n    -oeu pipefail\n\n    "@
}

/// The command lines in order, each followed by a newline.
pub open spec fn script_lines_spec(commands: Seq<Seq<char>>) -> Seq<char>
    decreases commands.len(),
{
    if commands.len() == 0 {
        Seq::empty()
    } else {
        script_lines_spec(commands.drop_last()) + commands.last() + "\n"@
    }
}

/// The unit-file text up to `ExecStart=`; both scopes share it.
pub open spec fn unit_prefix_spec() -> Seq<char> {
    "\n[Unit]\nDescription=Runs scripts after boot\nWants=network-online.target\nAfter=network-online.target\n\n[Service]\nType=oneshot\nExecStart="@
}

/// The artifact set a module resolves to, given the output root and the
/// token: a script of the header and the command lines in order, ending
/// in one more newline, and a unit file whose `ExecStart` line names the
/// script's path.
pub open spec fn artifacts_match(a: BootArtifacts, m: PkgModule, root: Seq<char>, token: Seq<char>) -> bool {
    let name = unit_name_spec("boot-shell"@, scope_word(m.scope), token);
    &&& placement_matches(a, root, scope_word(m.scope), name)
    &&& a.script_content@ == script_header_spec() + script_lines_spec(seq_views(m.commands@))
        + "\n"@
    &&& a.service_content@ == unit_prefix_spec() + script_path_spec(root, name)
        + unit_suffix_spec()
}

fn scope_str(s: &As) -> (r: &'static str)
    ensures
        r@ == scope_word(*s),
{
    match s {
        As::system => "system",
        As::user => "user",
    }
}

/// Renders the whole script: the fixed header, then each command line in
/// order followed by a newline, then the final newline of the file.
fn render_script(commands: &Vec<String>) -> (r: String)
    ensures
        r@ == script_header_spec() + script_lines_spec(seq_views(commands@)) + "\n"@,
{
    let mut r = String::from_str("\n    \n    #!/bin/bash\n    -oeu pipefail\n\n    ");
    let mut i: usize = 0;
    while i < commands.len()
        invariant
            i <= commands.len(),
            r@ == script_header_spec() + script_lines_spec(seq_views(commands@).take(i as int)),
        decreases commands.len() - i,
    {
        r.append(commands[i].as_str());
        r.append("\n");
        proof {
            let views = seq_views(commands@);
            assert(views.take(i + 1).drop_last() =~= views.take(i as int));
            assert(views.take(i + 1).last() == commands@[i as int]@);
            assert(r@ =~= script_header_spec() + script_lines_spec(views.take(i + 1)));
        }
        i = i + 1;
    }
    proof {
        assert(seq_views(commands@).take(commands@.len() as int) =~= seq_views(commands@));
    }
    r.concat("\n")
}

/// Resolves the module against the output root and the given token.
pub fn build_plan(m: &PkgModule, root: &str, token: &str) -> (a: BootArtifacts)
    ensures
        artifacts_match(a, *m, root@, token@),
{
    let scope = scope_str(&m.scope);
    let name = make_unit_name("boot-shell", scope, token);
    let script_content = render_script(&m.commands);
    make_boot_artifacts(
        root,
        scope,
        name.as_str(),
        script_content,
        "\n[Unit]\nDescription=Runs scripts after boot\nWants=network-online.target\nAfter=network-online.target\n\n[Service]\nType=oneshot\nExecStart=",
    )
}

/// Resolves the module with a freshly generated token, which names the
/// script file, the unit file and the enabled unit alike.
pub fn build(m: &PkgModule, root: &str) -> (a: BootArtifacts)
    ensures
        exists|t: Seq<char>| t.len() == 36 && artifacts_match(a, *m, root@, t),
{
    let token = fresh_token();
    let a = build_plan(m, root, token.as_str());
    proof {
        assert(token@.len() == 36 && artifacts_match(a, *m, root@, token@));
    }
    a
}

} // verus!
