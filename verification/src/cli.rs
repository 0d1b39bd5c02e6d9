//! Command-line decisions: which action the arguments select, whether
//! JSON output was asked for, and which arguments are operands.
//!
//! The JSON switch is sticky, the last action flag wins, and any other
//! argument is kept as an operand. Without an action flag the selection
//! stays `Unknown` and the front end rejects the invocation.

use vstd::prelude::*;

verus! {

/// What a command-line invocation asks for.
#[derive(Clone, Copy, Debug, PartialEq, Eq, Structural)]
pub enum CliAction {
    Unknown,
    Help,
    Version,
    ListPciDevices,
    ListPciProfiles,
    InstallPciProfile,
    UninstallPciProfile,
    EnablePciDevice,
    DisablePciDevice,
    StartPciDevice,
    StopPciDevice,
    ListUsbDevices,
    ListUsbProfiles,
    InstallUsbProfile,
    UninstallUsbProfile,
    EnableUsbDevice,
    DisableUsbDevice,
    StartUsbDevice,
    StopUsbDevice,
}

/// The action an argument selects, if it is an action flag.
pub open spec fn flag_action(arg: Seq<char>) -> Option<CliAction> {
    if arg == "-h"@ || arg == "--help"@ {
        Some(CliAction::Help)
    } else if arg == "-v"@ || arg == "--version"@ {
        Some(CliAction::Version)
    } else if arg == "-lpd"@ || arg == "--list-pci-devices"@ {
        Some(CliAction::ListPciDevices)
    } else if arg == "-lpp"@ || arg == "--list-pci-profiles"@ {
        Some(CliAction::ListPciProfiles)
    } else if arg == "-ipp"@ || arg == "--install-pci-profile"@ {
        Some(CliAction::InstallPciProfile)
    } else if arg == "-upp"@ || arg == "--uninstall-pci-profile"@ {
        Some(CliAction::UninstallPciProfile)
    } else if arg == "-epd"@ || arg == "--enable-pci-device"@ {
        Some(CliAction::EnablePciDevice)
    } else if arg == "-dpd"@ || arg == "--disable-pci-device"@ {
        Some(CliAction::DisablePciDevice)
    } else if arg == "-sspd"@ || arg == "--start-pci-device"@ {
        Some(CliAction::StartPciDevice)
    } else if arg == "-srpd"@ || arg == "--stop-pci-device"@ {
        Some(CliAction::StopPciDevice)
    } else if arg == "-lud"@ || arg == "--list-usb-devices"@ {
        Some(CliAction::ListUsbDevices)
    } else if arg == "-lup"@ || arg == "--list-usb-profiles"@ {
        Some(CliAction::ListUsbProfiles)
    } else if arg == "-iup"@ || arg == "--install-usb-profile"@ {
        Some(CliAction::InstallUsbProfile)
    } else if arg == "-uup"@ || arg == "--uninstall-usb-profile"@ {
        Some(CliAction::UninstallUsbProfile)
    } else if arg == "-eud"@ || arg == "--enable-usb-device"@ {
        Some(CliAction::EnableUsbDevice)
    } else if arg == "-dud"@ || arg == "--disable-usb-device"@ {
        Some(CliAction::DisableUsbDevice)
    } else if arg == "-ssud"@ || arg == "--start-usb-device"@ {
        Some(CliAction::StartUsbDevice)
    } else if arg == "-srud"@ || arg == "--stop-usb-device"@ {
        Some(CliAction::StopUsbDevice)
    } else {
        None
    }
}

/// Whether an argument switches on JSON output.
pub open spec fn is_json_flag(arg: Seq<char>) -> bool {
    arg == "-j"@ || arg == "--json"@
}

/// JSON output is on when any argument asked for it.
pub open spec fn fold_json(args: Seq<Seq<char>>) -> bool
    decreases args.len(),
{
    if args.len() == 0 {
        false
    } else {
        fold_json(args.drop_last()) || is_json_flag(args.last())
    }
}

/// The selected action: the last action flag wins; none leaves `Unknown`.
/// The JSON switch is no action flag.
pub open spec fn fold_action(args: Seq<Seq<char>>) -> CliAction
    decreases args.len(),
{
    if args.len() == 0 {
        CliAction::Unknown
    } else if is_json_flag(args.last()) {
        fold_action(args.drop_last())
    } else {
        match flag_action(args.last()) {
            Some(a) => a,
            None => fold_action(args.drop_last()),
        }
    }
}

/// The operands: every argument that is neither an action flag nor the
/// JSON switch, in order.
pub open spec fn fold_extra(args: Seq<Seq<char>>) -> Seq<Seq<char>>
    decreases args.len(),
{
    if args.len() == 0 {
        Seq::empty()
    } else {
        let prev = fold_extra(args.drop_last());
        if is_json_flag(args.last()) || flag_action(args.last()) is Some {
            prev
        } else {
            prev.push(args.last())
        }
    }
}

/// A parsed invocation.
#[derive(Debug, Clone)]
pub struct CliRequest {
    pub json: bool,
    pub action: CliAction,
    pub extra: Vec<String>,
}

fn json_flag_exec(arg: &String) -> (r: bool)
    ensures
        r == is_json_flag(arg@),
{
    let j: String = "-j".to_owned();
    let json: String = "--json".to_owned();
    *arg == j || *arg == json
}

fn action_flag_exec(arg: &String) -> (r: Option<CliAction>)
    ensures
        r == flag_action(arg@),
{
    let m = |short: &str, long: &str| -> (hit: bool)
        ensures
            hit == (arg@ == short@ || arg@ == long@),
        {
            let s: String = short.to_owned();
            let l: String = long.to_owned();
            *arg == s || *arg == l
        };
    if m("-h", "--help") {
        Some(CliAction::Help)
    } else if m("-v", "--version") {
        Some(CliAction::Version)
    } else if m("-lpd", "--list-pci-devices") {
        Some(CliAction::ListPciDevices)
    } else if m("-lpp", "--list-pci-profiles") {
        Some(CliAction::ListPciProfiles)
    } else if m("-ipp", "--install-pci-profile") {
        Some(CliAction::InstallPciProfile)
    } else if m("-upp", "--uninstall-pci-profile") {
        Some(CliAction::UninstallPciProfile)
    } else if m("-epd", "--enable-pci-device") {
        Some(CliAction::EnablePciDevice)
    } else if m("-dpd", "--disable-pci-device") {
        Some(CliAction::DisablePciDevice)
    } else if m("-sspd", "--start-pci-device") {
        Some(CliAction::StartPciDevice)
    } else if m("-srpd", "--stop-pci-device") {
        Some(CliAction::StopPciDevice)
    } else if m("-lud", "--list-usb-devices") {
        Some(CliAction::ListUsbDevices)
    } else if m("-lup", "--list-usb-profiles") {
        Some(CliAction::ListUsbProfiles)
    } else if m("-iup", "--install-usb-profile") {
        Some(CliAction::InstallUsbProfile)
    } else if m("-uup", "--uninstall-usb-profile") {
        Some(CliAction::UninstallUsbProfile)
    } else if m("-eud", "--enable-usb-device") {
        Some(CliAction::EnableUsbDevice)
    } else if m("-dud", "--disable-usb-device") {
        Some(CliAction::DisableUsbDevice)
    } else if m("-ssud", "--start-usb-device") {
        Some(CliAction::StartUsbDevice)
    } else if m("-srud", "--stop-usb-device") {
        Some(CliAction::StopUsbDevice)
    } else {
        None
    }
}

/// Parses an argument list into the JSON switch, the selected action and
/// the operands.
pub fn parse_args(args: Vec<String>) -> (r: CliRequest)
    ensures
        r.json == fold_json(args.deep_view()),
        r.action == fold_action(args.deep_view()),
        r.extra.deep_view() == fold_extra(args.deep_view()),
{
    let ghost adv = args.deep_view();
    let mut rest = args;
    let mut json: bool = false;
    let mut action = CliAction::Unknown;
    let mut extra: Vec<String> = Vec::new();
    proof {
        assert(adv.subrange(0, 0) =~= Seq::<Seq<char>>::empty());
    }
    while rest.len() > 0
        invariant
            adv == args.deep_view(),
            rest@.len() <= adv.len(),
            rest.deep_view() == adv.subrange(adv.len() - rest@.len(), adv.len() as int),
            json == fold_json(adv.subrange(0, adv.len() - rest@.len())),
            action == fold_action(adv.subrange(0, adv.len() - rest@.len())),
            extra.deep_view() == fold_extra(adv.subrange(0, adv.len() - rest@.len())),
        decreases rest.len(),
    {
        let ghost done = adv.len() - rest@.len();
        let ghost before = rest.deep_view();
        let ghost before_s = rest@;
        let arg = rest.remove(0);
        proof {
            assert(arg@ == before[0]);
            assert(arg@ == adv[done]);
            assert(rest@ =~= before_s.subrange(1, before_s.len() as int));
            assert forall|k: int| 0 <= k < rest.deep_view().len() implies rest.deep_view()[k]
                == adv.subrange(done + 1, adv.len() as int)[k] by {
                assert(rest@[k] == before_s[k + 1]);
                assert(rest.deep_view()[k] == rest@[k]@);
                assert(before[k + 1] == before_s[k + 1]@);
                assert(before[k + 1] == adv.subrange(done, adv.len() as int)[k + 1]);
            }
            assert(rest.deep_view() =~= adv.subrange(done + 1, adv.len() as int));
            assert(adv.subrange(0, done + 1).drop_last() =~= adv.subrange(0, done));
            assert(adv.subrange(0, done + 1).last() == adv[done]);
        }
        let ghost extra_before = extra.deep_view();
        if json_flag_exec(&arg) {
            json = true;
        } else {
            match action_flag_exec(&arg) {
                Some(a) => {
                    action = a;
                },
                None => {
                    extra.push(arg);
                    proof {
                        assert(extra.deep_view() =~= extra_before.push(adv[done]));
                    }
                },
            }
        }
        proof {
            assert(adv.subrange(0, adv.len() - rest@.len()) =~= adv.subrange(0, done + 1));
        }
    }
    proof {
        assert(adv.subrange(0, adv.len() as int) =~= adv);
    }
    CliRequest { json, action, extra }
}

/// Whether the action takes an operand (a bus-id or a profile codename).
pub fn action_needs_operand(action: CliAction) -> (r: bool)
    ensures
        r == !(action == CliAction::Unknown || action == CliAction::Help || action
            == CliAction::Version || action == CliAction::ListPciDevices || action
            == CliAction::ListUsbDevices),
{
    !(action == CliAction::Unknown || action == CliAction::Help || action == CliAction::Version
        || action == CliAction::ListPciDevices || action == CliAction::ListUsbDevices)
}

} // verus!
