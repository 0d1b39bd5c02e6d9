use libcfhdb::control::{
    derive_started, device_enabled, device_started_attr, kernel_driver_from_uevent,
    module_name_from_modinfo, sysfs_helper_argv, DeviceOp,
};
use libcfhdb::error::CfhdbError;
use libcfhdb::hex::from_hex;
use libcfhdb::install::{
    check_wrapper_script, distro_packages_installer, distro_packages_uninstaller, elevate_argv,
    installed_from_exit_code, join_space, plan_install_action, plan_uninstall_action,
    script_exit_result, ScriptPlan,
};

fn strings(xs: &[&str]) -> Vec<String> {
    xs.iter().map(|s| s.to_string()).collect()
}

#[test]
fn install_skipped_when_already_installed() {
    let plan = plan_install_action(&Some(strings(&["foo"])), &None, true);
    assert!(matches!(plan, ScriptPlan::StateAlreadySatisfied));
}

#[test]
fn install_packages_only_runs_exactly_the_installer() {
    // No install script: the composite script is the installer invocation
    // alone, no extra script text.
    let plan = plan_install_action(&Some(strings(&["foo"])), &None, false);
    match plan {
        ScriptPlan::Run(c) => {
            assert_eq!(c, "#! /bin/bash\nset -e\nsudo dnf install foo");
        }
        _ => panic!("packages present: a script must run"),
    }
}

#[test]
fn install_packages_and_script_compose() {
    let plan = plan_install_action(
        &Some(strings(&["foo", "bar"])),
        &Some("modprobe foo".to_string()),
        false,
    );
    match plan {
        ScriptPlan::Run(c) => {
            assert_eq!(
                c,
                "#! /bin/bash\nset -e\nsudo dnf install foo bar\nmodprobe foo"
            );
        }
        _ => panic!("packages present: a script must run"),
    }
}

#[test]
fn install_script_only() {
    let plan = plan_install_action(&None, &Some("modprobe foo".to_string()), false);
    match plan {
        ScriptPlan::Run(c) => assert_eq!(c, "#! /bin/bash\nset -e\nmodprobe foo"),
        _ => panic!("script present: it must run"),
    }
}

#[test]
fn install_nothing_to_do() {
    let plan = plan_install_action(&None, &None, false);
    assert!(matches!(plan, ScriptPlan::NoWork));
}

#[test]
fn uninstall_proceeds_only_when_installed() {
    // The check script's exit decides: installed (exit zero) lets the
    // removal proceed; not installed makes it a no-op.
    let proceed = plan_uninstall_action(&Some(strings(&["foo"])), &None, true);
    match proceed {
        ScriptPlan::Run(c) => assert_eq!(c, "#! /bin/bash\nset -e\nsudo dnf remove foo"),
        _ => panic!("installed: the removal must run"),
    }
    let skip = plan_uninstall_action(&Some(strings(&["foo"])), &None, false);
    assert!(matches!(skip, ScriptPlan::StateAlreadySatisfied));
}

#[test]
fn uninstall_composes_remove_script() {
    let plan = plan_uninstall_action(
        &Some(strings(&["foo"])),
        &Some("rm -f /etc/foo".to_string()),
        true,
    );
    match plan {
        ScriptPlan::Run(c) => {
            assert_eq!(c, "#! /bin/bash\nset -e\nsudo dnf remove foo\nrm -f /etc/foo");
        }
        _ => panic!("installed: the removal must run"),
    }
}

#[test]
fn script_exit_maps_to_result() {
    assert!(script_exit_result(true).is_ok());
    assert_eq!(script_exit_result(false), Err(CfhdbError::ScriptFailure));
}

#[test]
fn check_script_exit_zero_means_installed() {
    assert!(installed_from_exit_code(0));
    assert!(!installed_from_exit_code(1));
    assert!(!installed_from_exit_code(127));
}

#[test]
fn package_command_lines() {
    assert_eq!(distro_packages_installer("a b"), "sudo dnf install a b");
    assert_eq!(distro_packages_uninstaller("a b"), "sudo dnf remove a b");
}

#[test]
fn join_space_exact() {
    assert_eq!(join_space(&strings(&[])), "");
    assert_eq!(join_space(&strings(&["a"])), "a");
    assert_eq!(join_space(&strings(&["a", "b", "c"])), "a b c");
}

#[test]
fn check_wrapper_exact() {
    assert_eq!(
        check_wrapper_script("pacman -Q foo"),
        "#! /bin/bash\nset -e\npacman -Q foo > /dev/null 2>&1"
    );
}

#[test]
fn elevation_prefixes_pkexec_for_non_root() {
    let argv = strings(&["/var/cache/cfhdb/script_lock.sh"]);
    assert_eq!(elevate_argv(argv.clone(), true), argv);
    assert_eq!(
        elevate_argv(argv, false),
        strings(&["pkexec", "/var/cache/cfhdb/script_lock.sh"])
    );
}

#[test]
fn helper_argv_per_operation() {
    let helper = "/usr/lib/cfhdb/scripts/sysfs_helper.sh";
    assert_eq!(
        sysfs_helper_argv(DeviceOp::Stop, "pci", "0000:01:00.0", None),
        strings(&[helper, "stop_device", "pci", "0000:01:00.0"])
    );
    assert_eq!(
        sysfs_helper_argv(DeviceOp::Enable, "usb", "3-1.2", None),
        strings(&[helper, "enable_device", "usb", "3-1.2"])
    );
    assert_eq!(
        sysfs_helper_argv(DeviceOp::Disable, "pci", "0000:01:00.0", None),
        strings(&[helper, "disable_device", "pci", "0000:01:00.0"])
    );
    assert_eq!(
        sysfs_helper_argv(
            DeviceOp::Start,
            "pci",
            "0000:01:00.0",
            Some("nvidia".to_string())
        ),
        strings(&[helper, "start_device", "pci", "0000:01:00.0", "nvidia"])
    );
    assert_eq!(
        sysfs_helper_argv(DeviceOp::Start, "usb", "3-1.2", None),
        strings(&[helper, "start_device", "usb", "3-1.2", ""])
    );
}

#[test]
fn enabled_is_blacklist_absence() {
    let lines = strings(&["0000:01:00.0", "3-1.2"]);
    assert!(!device_enabled(&lines, &"0000:01:00.0".to_string()));
    assert!(device_enabled(&lines, &"0000:02:00.0".to_string()));
    assert!(device_enabled(&strings(&[]), &"0000:01:00.0".to_string()));
}

#[test]
fn started_requires_bound_driver() {
    assert_eq!(derive_started(&"Unknown".to_string(), Some(true)), None);
    assert_eq!(derive_started(&"Unknown".to_string(), None), None);
    assert_eq!(
        derive_started(&"nvme".to_string(), Some(true)),
        Some(true)
    );
    assert_eq!(
        derive_started(&"nvme".to_string(), Some(false)),
        Some(false)
    );
    assert_eq!(derive_started(&"nvme".to_string(), None), None);
}

#[test]
fn enable_attribute_bit() {
    assert!(device_started_attr("1"));
    assert!(device_started_attr("1\n"));
    assert!(!device_started_attr("0\n"));
    assert!(!device_started_attr(""));
}

#[test]
fn uevent_driver_line() {
    let lines = strings(&["MODALIAS=pci:x", "DRIVER=nvme", "DRIVER=other"]);
    assert_eq!(kernel_driver_from_uevent(&lines), Some("nvme".to_string()));
    assert_eq!(kernel_driver_from_uevent(&strings(&["MODALIAS=x"])), None);
    assert_eq!(kernel_driver_from_uevent(&strings(&["DRIVER="])), Some("".to_string()));
}

#[test]
fn modinfo_name_field() {
    let lines = strings(&[
        "filename:       /lib/modules/x/amdgpu.ko",
        "name:           amdgpu",
        "license:        GPL",
    ]);
    assert_eq!(module_name_from_modinfo(&lines), Some("amdgpu".to_string()));
    // Without whitespace after the tag there is no well-formed field.
    assert_eq!(module_name_from_modinfo(&strings(&["name:amdgpu"])), None);
    assert_eq!(module_name_from_modinfo(&strings(&["license: GPL"])), None);
    assert_eq!(module_name_from_modinfo(&strings(&[])), None);
}

#[test]
fn hex_rendering() {
    assert_eq!(from_hex(0x1234, 4), "1234");
    assert_eq!(from_hex(0x1a, 4), "001a");
    assert_eq!(from_hex(0, 2), "00");
    assert_eq!(from_hex(0x12345, 4), "12345");
    assert_eq!(from_hex(0xdead, 4), "dead");
    assert_eq!(from_hex(7, 1), "7");
}
