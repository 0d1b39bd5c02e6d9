use libcfhdb::catalog::{
    bool_or_false, catalog_data, pick_desc, priority_value_of, script_field, string_or,
};
use libcfhdb::config::{
    check_cmd_path, lock_script_path, pci_blacklist_path, pci_cache_path, profile_config_path,
    profile_url_config_from_json, usb_blacklist_path, usb_cache_path,
};
use libcfhdb::error::CfhdbError;
use libcfhdb::pci::pci_profiles_from_catalog;
use libcfhdb::usb::usb_profiles_from_catalog;

#[test]
fn fetch_failure_without_cache_is_not_found() {
    assert_eq!(catalog_data(None, None), Err(CfhdbError::NotFound));
}

#[test]
fn fresh_fetch_wins_over_cache() {
    assert_eq!(
        catalog_data(Some("fresh".to_string()), Some("stale".to_string())),
        Ok("fresh".to_string())
    );
}

#[test]
fn cache_serves_when_fetch_failed() {
    assert_eq!(
        catalog_data(None, Some("stale".to_string())),
        Ok("stale".to_string())
    );
}

#[test]
fn catalog_not_json_is_parse_failure() {
    let r = pci_profiles_from_catalog("this is not json", "en_US");
    assert_eq!(r.unwrap_err(), CfhdbError::ParseFailure);
}

#[test]
fn catalog_without_profiles_array_is_empty() {
    let r = pci_profiles_from_catalog("{\"other\": 3}", "en_US").unwrap();
    assert!(r.is_empty());
}

#[test]
fn pci_catalog_fields_and_defaults() {
    let body = "{\"profiles\": [\
        {\"codename\": \"alpha\", \"i18n_desc\": \"base text\", \
         \"class_ids\": [\"0300\"], \"vendor_ids\": [\"10de\"], \"device_ids\": [\"*\"], \
         \"packages\": [\"pkg-a\", \"pkg-b\"], \"check_script\": \"test -e /x\", \
         \"install_script\": \"Option::is_none\", \"remove_script\": \"rm /x\", \
         \"experimental\": true, \"removable\": true, \"priority\": 12},\
        {\"codename\": \"beta\", \"packages\": \"Option::is_none\", \"priority\": 3},\
        {\"codename\": \"gamma\", \"priority\": 7}\
    ]}";
    let profiles = pci_profiles_from_catalog(body, "en_US").unwrap();
    assert_eq!(profiles.len(), 3);
    // Sorted ascending by priority.
    assert_eq!(profiles[0].codename, "beta");
    assert_eq!(profiles[1].codename, "gamma");
    assert_eq!(profiles[2].codename, "alpha");
    let alpha = &profiles[2];
    assert_eq!(alpha.i18n_desc, "base text");
    assert_eq!(alpha.icon_name, "package-x-generic");
    assert_eq!(alpha.license, "Unknown");
    assert_eq!(alpha.class_ids, vec!["0300".to_string()]);
    assert_eq!(alpha.vendor_ids, vec!["10de".to_string()]);
    assert_eq!(alpha.device_ids, vec!["*".to_string()]);
    assert!(alpha.blacklisted_class_ids.is_empty());
    assert_eq!(
        alpha.packages,
        Some(vec!["pkg-a".to_string(), "pkg-b".to_string()])
    );
    assert_eq!(alpha.check_script, "test -e /x");
    assert_eq!(alpha.install_script, None);
    assert_eq!(alpha.remove_script, Some("rm /x".to_string()));
    assert!(alpha.experimental);
    assert!(alpha.removable);
    assert_eq!(alpha.priority, 12);
    let beta = &profiles[0];
    assert_eq!(beta.codename, "beta");
    assert_eq!(beta.packages, None);
    assert_eq!(beta.check_script, "false");
    assert_eq!(beta.install_script, None);
    assert!(!beta.experimental);
    assert_eq!(beta.priority, 3);
    // A profile without a packages member parses as having none.
    let gamma = &profiles[1];
    assert_eq!(gamma.packages, None);
    assert!(gamma.class_ids.is_empty());
    assert_eq!(gamma.priority, 7);
}

#[test]
fn catalog_description_prefers_locale() {
    let body = "{\"profiles\": [\
        {\"codename\": \"a\", \"i18n_desc\": \"english\", \"i18n_desc[de_DE]\": \"deutsch\"},\
        {\"codename\": \"b\", \"i18n_desc\": \"english\", \"i18n_desc[de_DE]\": \"\"}\
    ]}";
    let profiles = pci_profiles_from_catalog(body, "de_DE").unwrap();
    assert_eq!(profiles[0].i18n_desc, "deutsch");
    // An empty localized text falls back to the base text.
    assert_eq!(profiles[1].i18n_desc, "english");
}

#[test]
fn usb_catalog_reads_usb_axis_names() {
    let body = "{\"profiles\": [\
        {\"codename\": \"u\", \"class_codes\": [\"03\"], \"vendor_ids\": [\"046d\"], \
         \"product_ids\": [\"c077\"], \"blacklisted_class_codes\": [\"09\"], \
         \"blacklisted_product_ids\": [\"ffff\"], \"priority\": -2}\
    ]}";
    let profiles = usb_profiles_from_catalog(body, "en_US").unwrap();
    assert_eq!(profiles.len(), 1);
    let u = &profiles[0];
    assert_eq!(u.class_codes, vec!["03".to_string()]);
    assert_eq!(u.product_ids, vec!["c077".to_string()]);
    assert_eq!(u.blacklisted_class_codes, vec!["09".to_string()]);
    assert_eq!(u.blacklisted_product_ids, vec!["ffff".to_string()]);
    assert_eq!(u.priority, -2);
}

#[test]
fn script_field_sentinel_and_absent_mean_none() {
    assert_eq!(script_field(None), None);
    assert_eq!(script_field(Some("Option::is_none".to_string())), None);
    assert_eq!(
        script_field(Some("echo hi".to_string())),
        Some("echo hi".to_string())
    );
}

#[test]
fn field_default_helpers() {
    assert_eq!(string_or(None, "fallback"), "fallback");
    assert_eq!(string_or(Some("x".to_string()), "fallback"), "x");
    assert!(bool_or_false(None) == false);
    assert!(bool_or_false(Some(true)));
    assert_eq!(
        pick_desc(Some("loc".to_string()), Some("base".to_string())),
        "loc"
    );
    assert_eq!(
        pick_desc(Some("".to_string()), Some("base".to_string())),
        "base"
    );
    assert_eq!(pick_desc(None, None), "");
}

#[test]
fn priority_outside_stored_width_defaults_to_zero() {
    assert_eq!(priority_value_of(None), 0);
    assert_eq!(priority_value_of(Some(41)), 41);
    assert_eq!(priority_value_of(Some(-41)), -41);
    assert_eq!(priority_value_of(Some(2147483647)), 2147483647);
    assert_eq!(priority_value_of(Some(2147483648)), 0);
    assert_eq!(priority_value_of(Some(-2147483649)), 0);
}

#[test]
fn url_config_parses_both_urls() {
    let body = "{\"pci_json_url\": \"https://x/pci.json\", \"usb_json_url\": \"https://x/usb.json\"}";
    let cfg = profile_url_config_from_json(body).unwrap();
    assert_eq!(cfg.pci_json_url, "https://x/pci.json");
    assert_eq!(cfg.usb_json_url, "https://x/usb.json");
}

#[test]
fn url_config_missing_field_is_parse_failure() {
    let body = "{\"pci_json_url\": \"https://x/pci.json\"}";
    assert_eq!(
        profile_url_config_from_json(body).unwrap_err(),
        CfhdbError::ParseFailure
    );
    assert_eq!(
        profile_url_config_from_json("garbage").unwrap_err(),
        CfhdbError::ParseFailure
    );
}

#[test]
fn fixed_paths() {
    assert_eq!(profile_config_path(), "/etc/cfhdb/profile-config.json");
    assert_eq!(pci_blacklist_path(), "/etc/cfhdb/pci_blacklist");
    assert_eq!(usb_blacklist_path(), "/etc/cfhdb/usb_blacklist");
    assert_eq!(pci_cache_path(), "/var/cache/cfhdb/pci.json");
    assert_eq!(usb_cache_path(), "/var/cache/cfhdb/usb.json");
    assert_eq!(lock_script_path(), "/var/cache/cfhdb/script_lock.sh");
    assert_eq!(check_cmd_path(), "/var/cache/cfhdb/check_cmd.sh");
}

#[test]
fn error_messages() {
    assert_eq!(CfhdbError::NotFound.message(), "not found");
    assert_eq!(CfhdbError::InvalidData.message(), "invalid data");
    assert_eq!(CfhdbError::ScriptFailure.message(), "script failed");
    assert_eq!(CfhdbError::ParseFailure.message(), "parse failure");
}
