//! Planning of profile installation and removal.
//!
//! The state machine has two states, installed and not installed, decided
//! by the profile's check script. A transition builds one composite shell
//! script: the distribution's package command (when the profile lists
//! packages) followed by the profile's own script (when present). The
//! plan is returned as a value; running it, with privilege, is the
//! caller's part.

use vstd::prelude::*;
use vstd::string::StringExecFns;

use crate::error::CfhdbError;

verus! {

/// The interpreter line and error mode every composite script starts with.
pub open spec fn script_header() -> Seq<char> {
    "#! /bin/bash\nset -e\n"@
}

/// The characters of the package install command for a package list.
pub open spec fn installer_line(package_list: Seq<char>) -> Seq<char> {
    "sudo dnf install "@ + package_list
}

/// The characters of the package removal command for a package list.
pub open spec fn uninstaller_line(package_list: Seq<char>) -> Seq<char> {
    "sudo dnf remove "@ + package_list
}

/// The items joined with a single space between neighbours.
pub open spec fn join_spaced(items: Seq<Seq<char>>) -> Seq<char>
    decreases items.len(),
{
    if items.len() == 0 {
        Seq::empty()
    } else if items.len() == 1 {
        items[0]
    } else {
        join_spaced(items.drop_last()) + " "@ + items.last()
    }
}

/// What an install or uninstall run amounts to.
#[derive(Debug, Clone)]
pub enum ScriptPlan {
    /// The profile is already in the requested state; report and stop.
    StateAlreadySatisfied,
    /// Neither packages nor a script are given; nothing to run.
    NoWork,
    /// Run this composite script with privilege.
    Run(String),
}

/// The distribution's package install invocation for a space-joined
/// package list.
pub fn distro_packages_installer(package_list: &str) -> (r: String)
    ensures
        r@ == installer_line(package_list@),
{
    let mut s: String = "sudo dnf install ".to_owned();
    s.append(package_list);
    s
}

/// The distribution's package removal invocation for a space-joined
/// package list.
pub fn distro_packages_uninstaller(package_list: &str) -> (r: String)
    ensures
        r@ == uninstaller_line(package_list@),
{
    let mut s: String = "sudo dnf remove ".to_owned();
    s.append(package_list);
    s
}

/// Joins the items with single spaces.
pub fn join_space(items: &Vec<String>) -> (r: String)
    ensures
        r@ == join_spaced(items.deep_view()),
{
    let mut out = String::new();
    let mut i: usize = 0;
    while i < items.len()
        invariant
            i <= items@.len(),
            out@ == join_spaced(items.deep_view().subrange(0, i as int)),
        decreases items.len() - i,
    {
        proof {
            assert(items.deep_view().subrange(0, i + 1).drop_last() =~= items.deep_view().subrange(
                0,
                i as int,
            ));
            assert(items.deep_view().subrange(0, i + 1).last() == items@[i as int]@);
        }
        if i > 0 {
            out.append(" ");
        }
        out.append(items[i].as_str());
        i += 1;
    }
    proof {
        assert(items.deep_view().subrange(0, items.deep_view().len() as int)
            =~= items.deep_view());
    }
    out
}

/// The wrapper around a profile's check script whose exit code decides
/// the installed state: exit zero means installed.
pub fn check_wrapper_script(check_script: &str) -> (r: String)
    ensures
        r@ == script_header() + check_script@ + " > /dev/null 2>&1"@,
{
    let mut s: String = "#! /bin/bash\nset -e\n".to_owned();
    s.append(check_script);
    s.append(" > /dev/null 2>&1");
    s
}

/// The installed state a check script's exit code reports: exit zero
/// means the profile is installed, anything else that it is not.
pub fn installed_from_exit_code(code: i32) -> (r: bool)
    ensures
        r == (code == 0),
{
    code == 0
}

/// Maps a privileged script's exit to the operation's result: a non-zero
/// exit is a `ScriptFailure`, never silently swallowed.
pub fn script_exit_result(exit_ok: bool) -> (r: Result<(), CfhdbError>)
    ensures
        exit_ok ==> r is Ok,
        !exit_ok ==> r == Err::<(), CfhdbError>(CfhdbError::ScriptFailure),
{
    if exit_ok {
        Ok(())
    } else {
        Err(CfhdbError::ScriptFailure)
    }
}

/// Plans an installation. Already installed: nothing runs. Otherwise the
/// composite script holds the package install command, the profile's
/// install script, or both in that order; with neither there is no work.
pub fn plan_install_action(
    packages: &Option<Vec<String>>,
    install_script: &Option<String>,
    installed: bool,
) -> (r: ScriptPlan)
    ensures
        installed ==> r is StateAlreadySatisfied,
        !installed ==> match (packages, install_script) {
            (Some(pk), Some(s)) => r matches ScriptPlan::Run(c) && c@ == script_header()
                + installer_line(join_spaced(pk.deep_view())) + "\n"@ + s@,
            (Some(pk), None) => r matches ScriptPlan::Run(c) && c@ == script_header()
                + installer_line(join_spaced(pk.deep_view())),
            (None, Some(s)) => r matches ScriptPlan::Run(c) && c@ == script_header() + s@,
            (None, None) => r is NoWork,
        },
{
    if installed {
        return ScriptPlan::StateAlreadySatisfied;
    }
    match (packages, install_script) {
        (Some(pk), Some(s)) => {
            let mut c: String = "#! /bin/bash\nset -e\n".to_owned();
            let line = distro_packages_installer(join_space(pk).as_str());
            c.append(line.as_str());
            c.append("\n");
            c.append(s.as_str());
            ScriptPlan::Run(c)
        },
        (Some(pk), None) => {
            let mut c: String = "#! /bin/bash\nset -e\n".to_owned();
            let line = distro_packages_installer(join_space(pk).as_str());
            c.append(line.as_str());
            ScriptPlan::Run(c)
        },
        (None, Some(s)) => {
            let mut c: String = "#! /bin/bash\nset -e\n".to_owned();
            c.append(s.as_str());
            ScriptPlan::Run(c)
        },
        (None, None) => ScriptPlan::NoWork,
    }
}

/// Plans a removal. Not installed: nothing runs. Otherwise the composite
/// script holds the package removal command, the profile's remove script,
/// or both in that order; with neither there is no work.
pub fn plan_uninstall_action(
    packages: &Option<Vec<String>>,
    remove_script: &Option<String>,
    installed: bool,
) -> (r: ScriptPlan)
    ensures
        !installed ==> r is StateAlreadySatisfied,
        installed ==> match (packages, remove_script) {
            (Some(pk), Some(s)) => r matches ScriptPlan::Run(c) && c@ == script_header()
                + uninstaller_line(join_spaced(pk.deep_view())) + "\n"@ + s@,
            (Some(pk), None) => r matches ScriptPlan::Run(c) && c@ == script_header()
                + uninstaller_line(join_spaced(pk.deep_view())),
            (None, Some(s)) => r matches ScriptPlan::Run(c) && c@ == script_header() + s@,
            (None, None) => r is NoWork,
        },
{
    if !installed {
        return ScriptPlan::StateAlreadySatisfied;
    }
    match (packages, remove_script) {
        (Some(pk), Some(s)) => {
            let mut c: String = "#! /bin/bash\nset -e\n".to_owned();
            let line = distro_packages_uninstaller(join_space(pk).as_str());
            c.append(line.as_str());
            c.append("\n");
            c.append(s.as_str());
            ScriptPlan::Run(c)
        },
        (Some(pk), None) => {
            let mut c: String = "#! /bin/bash\nset -e\n".to_owned();
            let line = distro_packages_uninstaller(join_space(pk).as_str());
            c.append(line.as_str());
            ScriptPlan::Run(c)
        },
        (None, Some(s)) => {
            let mut c: String = "#! /bin/bash\nset -e\n".to_owned();
            c.append(s.as_str());
            ScriptPlan::Run(c)
        },
        (None, None) => ScriptPlan::NoWork,
    }
}

/// Prefixes the privilege-elevation command when the caller is not
/// already privileged; a privileged caller runs the argument list as it
/// is.
pub fn elevate_argv(argv: Vec<String>, is_root: bool) -> (r: Vec<String>)
    ensures
        is_root ==> r.deep_view() == argv.deep_view(),
        !is_root ==> r.deep_view() == seq!["pkexec"@] + argv.deep_view(),
{
    let ghost origdv = argv.deep_view();
    if is_root {
        argv
    } else {
        let mut v: Vec<String> = Vec::new();
        v.push("pkexec".to_owned());
        let mut tail = argv;
        v.append(&mut tail);
        proof {
            assert(v.deep_view() =~= seq!["pkexec"@] + origdv);
        }
        v
    }
}

} // verus!
