use libcfhdb::pci::{CfhdbPciDevice, CfhdbPciProfile, ProfileWrapper};
use libcfhdb::usb::{CfhdbUsbDevice, CfhdbUsbProfile, ProfileWrapper as UsbProfileWrapper};

fn pci_profile(
    codename: &str,
    class_ids: &[&str],
    vendor_ids: &[&str],
    device_ids: &[&str],
    bl_class: &[&str],
    bl_vendor: &[&str],
    bl_device: &[&str],
    priority: i32,
) -> CfhdbPciProfile {
    let v = |xs: &[&str]| xs.iter().map(|s| s.to_string()).collect::<Vec<String>>();
    CfhdbPciProfile {
        codename: codename.to_string(),
        i18n_desc: String::new(),
        icon_name: String::new(),
        license: String::new(),
        class_ids: v(class_ids),
        vendor_ids: v(vendor_ids),
        device_ids: v(device_ids),
        blacklisted_class_ids: v(bl_class),
        blacklisted_vendor_ids: v(bl_vendor),
        blacklisted_device_ids: v(bl_device),
        packages: None,
        check_script: "false".to_string(),
        install_script: None,
        remove_script: None,
        experimental: false,
        removable: false,
        priority,
    }
}

fn pci_device(class_id: &str, vendor_id: &str, device_id: &str, busid: &str) -> CfhdbPciDevice {
    CfhdbPciDevice {
        class_name: String::new(),
        device_name: String::new(),
        vendor_name: String::new(),
        class_id: class_id.to_string(),
        vendor_id: vendor_id.to_string(),
        device_id: device_id.to_string(),
        started: None,
        enabled: true,
        sysfs_busid: busid.to_string(),
        sysfs_id: String::new(),
        kernel_driver: "Unknown".to_string(),
        vendor_icon_name: String::new(),
        available_profiles: ProfileWrapper(None),
    }
}

fn usb_profile(
    codename: &str,
    class_codes: &[&str],
    vendor_ids: &[&str],
    product_ids: &[&str],
    bl_class: &[&str],
    bl_vendor: &[&str],
    bl_product: &[&str],
    priority: i32,
) -> CfhdbUsbProfile {
    let v = |xs: &[&str]| xs.iter().map(|s| s.to_string()).collect::<Vec<String>>();
    CfhdbUsbProfile {
        codename: codename.to_string(),
        i18n_desc: String::new(),
        icon_name: String::new(),
        license: String::new(),
        class_codes: v(class_codes),
        vendor_ids: v(vendor_ids),
        product_ids: v(product_ids),
        blacklisted_class_codes: v(bl_class),
        blacklisted_vendor_ids: v(bl_vendor),
        blacklisted_product_ids: v(bl_product),
        packages: None,
        check_script: "false".to_string(),
        install_script: None,
        remove_script: None,
        experimental: false,
        removable: false,
        priority,
    }
}

fn usb_device(class_code: &str, vendor_id: &str, product_id: &str, busid: &str) -> CfhdbUsbDevice {
    CfhdbUsbDevice {
        manufacturer_string_index: String::new(),
        product_string_index: String::new(),
        serial_number_string_index: String::new(),
        protocol_code: "0000".to_string(),
        class_code: class_code.to_string(),
        vendor_id: vendor_id.to_string(),
        product_id: product_id.to_string(),
        usb_version: "2.0".to_string(),
        bus_number: 1,
        port_number: 1,
        address: 2,
        sysfs_busid: busid.to_string(),
        kernel_driver: "Unknown".to_string(),
        started: None,
        enabled: true,
        speed: "2.0".to_string(),
        available_profiles: UsbProfileWrapper(None),
    }
}

#[test]
fn blacklist_wildcard_excludes_despite_inclusion() {
    let p = pci_profile("p", &["0300"], &["10de"], &["*"], &["*"], &[], &[], 0);
    assert!(!p.matches_device(
        &"0300".to_string(),
        &"10de".to_string(),
        &"1234".to_string()
    ));
}

#[test]
fn blacklist_literal_excludes_despite_inclusion() {
    let p = pci_profile("p", &["*"], &["*"], &["*"], &[], &["10de"], &[], 0);
    assert!(!p.matches_device(
        &"0300".to_string(),
        &"10de".to_string(),
        &"1234".to_string()
    ));
}

#[test]
fn missing_inclusion_axis_rejects() {
    let p = pci_profile("p", &["0300"], &["8086"], &["*"], &[], &[], &[], 0);
    assert!(!p.matches_device(
        &"0300".to_string(),
        &"10de".to_string(),
        &"1234".to_string()
    ));
}

#[test]
fn all_axes_satisfied_matches() {
    let p = pci_profile("p", &["0300"], &["10de"], &["*"], &[], &[], &[], 0);
    assert!(p.matches_device(
        &"0300".to_string(),
        &"10de".to_string(),
        &"1234".to_string()
    ));
}

#[test]
fn empty_inclusion_axis_never_matches() {
    // An empty device_ids set has no literal and no wildcard: unmatchable.
    let p = pci_profile("p", &["0300"], &["10de"], &[], &[], &[], &[], 0);
    assert!(!p.matches_device(
        &"0300".to_string(),
        &"10de".to_string(),
        &"1234".to_string()
    ));
    let mut d = pci_device("0300", "10de", "1234", "0000:01:00.0");
    CfhdbPciDevice::set_available_profiles(vec![p], &mut d);
    assert!(d.available_profiles.0.is_none());
}

#[test]
fn resolver_excludes_blacklisted_and_keeps_match() {
    let a = pci_profile("profile-a", &["0300"], &["10de"], &["*"], &[], &[], &[], 10);
    let b = pci_profile("profile-b", &["*"], &["*"], &["*"], &[], &["10de"], &[], 5);
    let mut d = pci_device("0300", "10de", "1234", "0000:01:00.0");
    CfhdbPciDevice::set_available_profiles(vec![a, b], &mut d);
    let resolved = d.available_profiles.0.clone().expect("one profile matches");
    assert_eq!(resolved.len(), 1);
    assert_eq!(resolved[0].codename, "profile-a");
}

#[test]
fn resolver_sorts_by_priority_stably() {
    let x = pci_profile("x", &["*"], &["*"], &["*"], &[], &[], &[], 5);
    let y = pci_profile("y", &["*"], &["*"], &["*"], &[], &[], &[], 5);
    let z = pci_profile("z", &["*"], &["*"], &["*"], &[], &[], &[], 1);
    let mut d = pci_device("0300", "10de", "1234", "0000:01:00.0");
    CfhdbPciDevice::set_available_profiles(vec![x, y, z], &mut d);
    let resolved = d.available_profiles.0.clone().expect("all match");
    let names: Vec<&str> = resolved.iter().map(|p| p.codename.as_str()).collect();
    assert_eq!(names, vec!["z", "x", "y"]);
    let prios: Vec<i32> = resolved.iter().map(|p| p.priority).collect();
    assert_eq!(prios, vec![1, 5, 5]);
}

#[test]
fn resolving_twice_yields_same_list() {
    let mk = || {
        vec![
            pci_profile("x", &["*"], &["*"], &["*"], &[], &[], &[], 7),
            pci_profile("y", &["0300"], &["*"], &["*"], &[], &[], &[], 3),
            pci_profile("w", &["0400"], &["*"], &["*"], &[], &[], &[], 1),
        ]
    };
    let mut d = pci_device("0300", "10de", "1234", "0000:01:00.0");
    CfhdbPciDevice::set_available_profiles(mk(), &mut d);
    let first: Vec<String> = d
        .available_profiles
        .0
        .clone()
        .expect("matches")
        .iter()
        .map(|p| p.codename.clone())
        .collect();
    CfhdbPciDevice::set_available_profiles(mk(), &mut d);
    let second: Vec<String> = d
        .available_profiles
        .0
        .clone()
        .expect("matches")
        .iter()
        .map(|p| p.codename.clone())
        .collect();
    assert_eq!(first, second);
    assert_eq!(first, vec!["y".to_string(), "x".to_string()]);
}

#[test]
fn resolver_zero_matches_clears_slot() {
    let a = pci_profile("a", &["0400"], &["*"], &["*"], &[], &[], &[], 0);
    let mut d = pci_device("0300", "10de", "1234", "0000:01:00.0");
    d.available_profiles = ProfileWrapper(Some(vec![pci_profile(
        "stale",
        &["*"],
        &["*"],
        &["*"],
        &[],
        &[],
        &[],
        0,
    )]));
    CfhdbPciDevice::set_available_profiles(vec![a], &mut d);
    assert!(d.available_profiles.0.is_none());
}

#[test]
fn usb_matching_mirrors_pci_rules() {
    let p = usb_profile("u", &["03"], &["046d"], &["*"], &[], &[], &[], 0);
    assert!(p.matches_device(
        &"03".to_string(),
        &"046d".to_string(),
        &"c077".to_string()
    ));
    let bl = usb_profile("u2", &["*"], &["*"], &["*"], &[], &[], &["c077"], 0);
    assert!(!bl.matches_device(
        &"03".to_string(),
        &"046d".to_string(),
        &"c077".to_string()
    ));
}

#[test]
fn usb_resolver_sorts_and_stores() {
    let a = usb_profile("low", &["*"], &["*"], &["*"], &[], &[], &[], -4);
    let b = usb_profile("high", &["*"], &["*"], &["*"], &[], &[], &[], 9);
    let mut d = usb_device("03", "046d", "c077", "3-1.2");
    CfhdbUsbDevice::set_available_profiles(vec![b, a], &mut d);
    let resolved = d.available_profiles.0.clone().expect("all match");
    let names: Vec<&str> = resolved.iter().map(|p| p.codename.as_str()).collect();
    assert_eq!(names, vec!["low", "high"]);
}

#[test]
fn profile_lookup_by_codename() {
    let a = pci_profile("first", &["*"], &["*"], &["*"], &[], &[], &[], 0);
    let b = pci_profile("second", &["*"], &["*"], &["*"], &[], &[], &[], 0);
    let found = CfhdbPciProfile::get_profile_from_codename("second", vec![a, b]).unwrap();
    assert_eq!(found.codename, "second");
    let missing = CfhdbPciProfile::get_profile_from_codename("third", vec![]);
    assert_eq!(missing.unwrap_err(), libcfhdb::error::CfhdbError::NotFound);
}

#[test]
fn device_lookup_by_busid() {
    let d1 = pci_device("0300", "10de", "1234", "0000:01:00.0");
    let d2 = pci_device("0200", "8086", "15f3", "0000:02:00.0");
    let found =
        CfhdbPciDevice::get_device_from_busid("0000:02:00.0", Some(vec![d1, d2])).unwrap();
    assert_eq!(found.sysfs_busid, "0000:02:00.0");
    let none_at_all = CfhdbPciDevice::get_device_from_busid("0000:02:00.0", None);
    assert_eq!(
        none_at_all.unwrap_err(),
        libcfhdb::error::CfhdbError::InvalidData
    );
    let not_there = CfhdbPciDevice::get_device_from_busid("0000:09:00.0", Some(vec![]));
    assert_eq!(
        not_there.unwrap_err(),
        libcfhdb::error::CfhdbError::NotFound
    );
}

#[test]
fn class_grouping_keeps_order() {
    let d1 = pci_device("0300", "10de", "1", "b1");
    let d2 = pci_device("0200", "8086", "2", "b2");
    let d3 = pci_device("0300", "1002", "3", "b3");
    let groups = CfhdbPciDevice::create_class_hashmap(vec![d1, d2, d3]);
    assert_eq!(groups.len(), 2);
    assert_eq!(groups[0].0, "0300");
    assert_eq!(groups[1].0, "0200");
    let g0: Vec<&str> = groups[0].1.iter().map(|d| d.sysfs_busid.as_str()).collect();
    assert_eq!(g0, vec!["b1", "b3"]);
    let g1: Vec<&str> = groups[1].1.iter().map(|d| d.sysfs_busid.as_str()).collect();
    assert_eq!(g1, vec!["b2"]);
}

#[test]
fn pci_dedup_first_seen_wins() {
    let mut d1 = pci_device("0300", "10de", "1", "b1");
    d1.device_name = "kept".to_string();
    let mut d1b = pci_device("0300", "10de", "1", "b1");
    d1b.device_name = "dropped".to_string();
    let d2 = pci_device("0200", "8086", "2", "b2");
    let out = CfhdbPciDevice::dedup_devices(vec![d1, d1b, d2]);
    assert_eq!(out.len(), 2);
    assert_eq!(out[0].device_name, "kept");
    assert_eq!(out[1].sysfs_busid, "b2");
}

#[test]
fn usb_dedup_drops_unknown_busid() {
    let d1 = usb_device("03", "046d", "c077", "3-1");
    let broken = usb_device("03", "046d", "c077", "???");
    let dup = usb_device("09", "1d6b", "0002", "3-1");
    let out = CfhdbUsbDevice::dedup_devices(vec![broken, d1, dup]);
    assert_eq!(out.len(), 1);
    assert_eq!(out[0].sysfs_busid, "3-1");
    assert_eq!(out[0].class_code, "03");
}
