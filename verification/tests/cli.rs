use libcfhdb::cli::{action_needs_operand, parse_args, CliAction};

fn args(xs: &[&str]) -> Vec<String> {
    xs.iter().map(|s| s.to_string()).collect()
}

#[test]
fn list_action_selected() {
    let r = parse_args(args(&["cfhdb", "-lpd"]));
    assert_eq!(r.action, CliAction::ListPciDevices);
    assert!(!r.json);
    assert_eq!(r.extra, vec!["cfhdb".to_string()]);
}

#[test]
fn long_flags_work() {
    let r = parse_args(args(&["cfhdb", "--install-usb-profile", "some-profile"]));
    assert_eq!(r.action, CliAction::InstallUsbProfile);
    assert_eq!(
        r.extra,
        vec!["cfhdb".to_string(), "some-profile".to_string()]
    );
}

#[test]
fn json_switch_is_sticky() {
    let r = parse_args(args(&["cfhdb", "--json", "-lud"]));
    assert!(r.json);
    assert_eq!(r.action, CliAction::ListUsbDevices);
    let r2 = parse_args(args(&["cfhdb", "-lud", "-j"]));
    assert!(r2.json);
    assert_eq!(r2.action, CliAction::ListUsbDevices);
}

#[test]
fn last_action_flag_wins() {
    let r = parse_args(args(&["cfhdb", "-lpd", "--list-usb-devices"]));
    assert_eq!(r.action, CliAction::ListUsbDevices);
}

#[test]
fn operands_kept_in_order() {
    let r = parse_args(args(&["cfhdb", "-lpp", "0000:01:00.0"]));
    assert_eq!(r.action, CliAction::ListPciProfiles);
    assert_eq!(
        r.extra,
        vec!["cfhdb".to_string(), "0000:01:00.0".to_string()]
    );
}

#[test]
fn no_action_flag_is_unknown() {
    let r = parse_args(args(&["cfhdb", "whatever"]));
    assert_eq!(r.action, CliAction::Unknown);
}

#[test]
fn operand_requirements() {
    assert!(!action_needs_operand(CliAction::Help));
    assert!(!action_needs_operand(CliAction::Version));
    assert!(!action_needs_operand(CliAction::ListPciDevices));
    assert!(!action_needs_operand(CliAction::ListUsbDevices));
    assert!(!action_needs_operand(CliAction::Unknown));
    assert!(action_needs_operand(CliAction::ListPciProfiles));
    assert!(action_needs_operand(CliAction::InstallPciProfile));
    assert!(action_needs_operand(CliAction::StopUsbDevice));
}
