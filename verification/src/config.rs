//! Process configuration: the catalog URLs read once at startup, and the
//! fixed filesystem paths the tool works with.

use vstd::prelude::*;

use crate::catalog::{json_document, member_text};
use crate::error::CfhdbError;

verus! {

/// The catalog URL for each bus kind, read from the profile configuration
/// file at startup and passed in as a value.
#[derive(Debug, Clone)]
pub struct ProfileUrlConfig {
    pub pci_json_url: String,
    pub usb_json_url: String,
}

/// Parses the profile configuration file's body: a JSON object with the
/// two catalog URLs. The result carries exactly the two members' texts;
/// a body that is not JSON, or whose `pci_json_url` or `usb_json_url`
/// member is absent or not a string, is a `ParseFailure`.
pub fn profile_url_config_from_json(data: &str) -> (r: Result<ProfileUrlConfig, CfhdbError>)
    ensures
        match json_document(data@) {
            None => r == Err::<ProfileUrlConfig, CfhdbError>(CfhdbError::ParseFailure),
            Some(root) => match (member_text(root, "pci_json_url"@), member_text(
                root,
                "usb_json_url"@,
            )) {
                (Some(p), Some(u)) => r matches Ok(c) && c.pci_json_url@ == p && c.usb_json_url@
                    == u,
                _ => r == Err::<ProfileUrlConfig, CfhdbError>(CfhdbError::ParseFailure),
            },
        },
{
    let root = match crate::catalog::parse_json_value(data) {
        Ok(v) => v,
        Err(_) => {
            return Err(CfhdbError::ParseFailure);
        },
    };
    let pci = match crate::catalog::member_string_opt(&root, "pci_json_url") {
        Some(s) => s,
        None => {
            return Err(CfhdbError::ParseFailure);
        },
    };
    let usb = match crate::catalog::member_string_opt(&root, "usb_json_url") {
        Some(s) => s,
        None => {
            return Err(CfhdbError::ParseFailure);
        },
    };
    Ok(ProfileUrlConfig { pci_json_url: pci, usb_json_url: usb })
}

/// The profile configuration file.
pub fn profile_config_path() -> (r: String)
    ensures
        r@ == "/etc/cfhdb/profile-config.json"@,
{
    "/etc/cfhdb/profile-config.json".to_owned()
}

/// The persisted blacklist of PCI bus-ids.
pub fn pci_blacklist_path() -> (r: String)
    ensures
        r@ == "/etc/cfhdb/pci_blacklist"@,
{
    "/etc/cfhdb/pci_blacklist".to_owned()
}

/// The persisted blacklist of USB bus-ids.
pub fn usb_blacklist_path() -> (r: String)
    ensures
        r@ == "/etc/cfhdb/usb_blacklist"@,
{
    "/etc/cfhdb/usb_blacklist".to_owned()
}

/// The cached copy of the last PCI catalog fetched.
pub fn pci_cache_path() -> (r: String)
    ensures
        r@ == "/var/cache/cfhdb/pci.json"@,
{
    "/var/cache/cfhdb/pci.json".to_owned()
}

/// The cached copy of the last USB catalog fetched.
pub fn usb_cache_path() -> (r: String)
    ensures
        r@ == "/var/cache/cfhdb/usb.json"@,
{
    "/var/cache/cfhdb/usb.json".to_owned()
}

/// The scratch file a composite script is written to before it runs.
pub fn lock_script_path() -> (r: String)
    ensures
        r@ == "/var/cache/cfhdb/script_lock.sh"@,
{
    "/var/cache/cfhdb/script_lock.sh".to_owned()
}

/// The generated wrapper around a profile's check script.
pub fn check_cmd_path() -> (r: String)
    ensures
        r@ == "/var/cache/cfhdb/check_cmd.sh"@,
{
    "/var/cache/cfhdb/check_cmd.sh".to_owned()
}

} // verus!
