//! PCI devices and driver profiles: the device model, the profile model,
//! and the resolver that attaches matching profiles to a device.

use vstd::prelude::*;

use crate::collect::{
    class_filter, dedup_spec, find_first, group_keys, ClassKeyed, DedupKeyed, LookupKeyed,
};
use crate::catalog::{entries_of, entry_matches_json, json_document};
use crate::error::CfhdbError;
use crate::matcher::ids_match;
use crate::sorting::{
    lemma_stable_reordering_unique, sorted_by_prio, stable_reordering, Prioritized,
};

verus! {

/// The slot a device carries its resolved profile list in: `None` until
/// the resolver has run or when nothing matched.
#[derive(Debug, Clone)]
pub struct ProfileWrapper(pub Option<Vec<CfhdbPciProfile>>);

/// A discovered PCI device with its derived state.
#[derive(Debug, Clone)]
pub struct CfhdbPciDevice {
    // String identification
    pub class_name: String,
    pub device_name: String,
    pub vendor_name: String,
    // Vendor IDs
    pub class_id: String,
    pub vendor_id: String,
    pub device_id: String,
    // System Info
    pub started: Option<bool>,
    pub enabled: bool,
    pub sysfs_busid: String,
    pub sysfs_id: String,
    pub kernel_driver: String,
    // Cfhdb Extras
    pub vendor_icon_name: String,
    pub available_profiles: ProfileWrapper,
}

/// A driver profile from the PCI catalog.
#[derive(Debug, Clone)]
pub struct CfhdbPciProfile {
    pub codename: String,
    pub i18n_desc: String,
    pub icon_name: String,
    pub license: String,
    pub class_ids: Vec<String>,
    pub vendor_ids: Vec<String>,
    pub device_ids: Vec<String>,
    pub blacklisted_class_ids: Vec<String>,
    pub blacklisted_vendor_ids: Vec<String>,
    pub blacklisted_device_ids: Vec<String>,
    pub packages: Option<Vec<String>>,
    pub check_script: String,
    pub install_script: Option<String>,
    pub remove_script: Option<String>,
    pub experimental: bool,
    pub removable: bool,
    pub priority: i32,
}

impl Prioritized for CfhdbPciProfile {
    open spec fn prio(&self) -> int {
        self.priority as int
    }

    fn priority_value(&self) -> (r: i32) {
        self.priority
    }
}

impl LookupKeyed for CfhdbPciProfile {
    open spec fn lookup_key(&self) -> Seq<char> {
        self.codename@
    }

    fn lookup_key_ref(&self) -> (r: &String) {
        &self.codename
    }
}

impl LookupKeyed for CfhdbPciDevice {
    open spec fn lookup_key(&self) -> Seq<char> {
        self.sysfs_busid@
    }

    fn lookup_key_ref(&self) -> (r: &String) {
        &self.sysfs_busid
    }
}

impl ClassKeyed for CfhdbPciDevice {
    open spec fn class_key(&self) -> Seq<char> {
        self.class_id@
    }

    fn class_key_ref(&self) -> (r: &String) {
        &self.class_id
    }
}

impl DedupKeyed for CfhdbPciDevice {
    open spec fn same_key(&self, other: &Self) -> bool {
        self.sysfs_busid@ == other.sysfs_busid@ && self.sysfs_id@ == other.sysfs_id@
    }

    open spec fn discard(&self) -> bool {
        false
    }

    fn key_matches(&self, other: &Self) -> (r: bool) {
        self.sysfs_busid == other.sysfs_busid && self.sysfs_id == other.sysfs_id
    }

    fn is_discard(&self) -> (r: bool) {
        false
    }
}

/// Whether the profile applies to a device carrying these identifiers.
pub open spec fn pci_profile_matches(
    p: CfhdbPciProfile,
    class_id: Seq<char>,
    vendor_id: Seq<char>,
    device_id: Seq<char>,
) -> bool {
    ids_match(
        p.class_ids.deep_view(),
        p.vendor_ids.deep_view(),
        p.device_ids.deep_view(),
        p.blacklisted_class_ids.deep_view(),
        p.blacklisted_vendor_ids.deep_view(),
        p.blacklisted_device_ids.deep_view(),
        class_id,
        vendor_id,
        device_id,
    )
}

/// The profiles of the catalog that match the identifiers, in catalog
/// order.
pub open spec fn matching_pci_profiles(
    catalog: Seq<CfhdbPciProfile>,
    class_id: Seq<char>,
    vendor_id: Seq<char>,
    device_id: Seq<char>,
) -> Seq<CfhdbPciProfile>
    decreases catalog.len(),
{
    if catalog.len() == 0 {
        Seq::empty()
    } else {
        let prev = matching_pci_profiles(catalog.drop_last(), class_id, vendor_id, device_id);
        if pci_profile_matches(catalog.last(), class_id, vendor_id, device_id) {
            prev.push(catalog.last())
        } else {
            prev
        }
    }
}

/// The resolved slot: `None` exactly when nothing matched, otherwise the
/// matching profiles sorted by ascending priority with catalog order kept
/// among equal priorities.
pub open spec fn resolved_slot_ok(
    catalog: Seq<CfhdbPciProfile>,
    class_id: Seq<char>,
    vendor_id: Seq<char>,
    device_id: Seq<char>,
    slot: Option<Seq<CfhdbPciProfile>>,
) -> bool {
    let matched = matching_pci_profiles(catalog, class_id, vendor_id, device_id);
    match slot {
        None => matched.len() == 0,
        Some(s) => matched.len() > 0 && sorted_by_prio(s) && stable_reordering(matched, s),
    }
}

/// The profile list stored in a wrapper, as a sequence.
pub open spec fn slot_view(w: ProfileWrapper) -> Option<Seq<CfhdbPciProfile>> {
    match w.0 {
        Some(v) => Some(v@),
        None => None,
    }
}

impl CfhdbPciProfile {
    /// Whether this profile applies to a device with these identifiers.
    pub fn matches_device(&self, class_id: &String, vendor_id: &String, device_id: &String) -> (r:
        bool)
        ensures
            r == pci_profile_matches(*self, class_id@, vendor_id@, device_id@),
    {
        crate::matcher::ids_match_exec(
            &self.class_ids,
            &self.vendor_ids,
            &self.device_ids,
            &self.blacklisted_class_ids,
            &self.blacklisted_vendor_ids,
            &self.blacklisted_device_ids,
            class_id,
            vendor_id,
            device_id,
        )
    }

    /// The profile with the given codename, moved out of the list; the
    /// first one when the codename repeats.
    pub fn get_profile_from_codename(codename: &str, profiles: Vec<CfhdbPciProfile>) -> (r: Result<
        CfhdbPciProfile,
        CfhdbError,
    >)
        ensures
            r == match find_first(profiles@, codename@) {
                Some(p) => Ok::<CfhdbPciProfile, CfhdbError>(p),
                None => Err::<CfhdbPciProfile, CfhdbError>(CfhdbError::NotFound),
            },
    {
        let owned: String = codename.to_owned();
        match crate::collect::extract_by_key(&owned, profiles) {
            Some(p) => Ok(p),
            None => Err(CfhdbError::NotFound),
        }
    }
}

/// The catalog profiles matching the given identifiers, in catalog order.
fn matching_profiles_exec(
    catalog: Vec<CfhdbPciProfile>,
    class_id: &String,
    vendor_id: &String,
    device_id: &String,
) -> (r: Vec<CfhdbPciProfile>)
    ensures
        r@ == matching_pci_profiles(catalog@, class_id@, vendor_id@, device_id@),
{
    let ghost orig = catalog@;
    let mut rest = catalog;
    let mut out: Vec<CfhdbPciProfile> = Vec::new();
    while rest.len() > 0
        invariant
            rest@.len() <= orig.len(),
            rest@ == orig.subrange(orig.len() - rest@.len(), orig.len() as int),
            out@ == matching_pci_profiles(
                orig.subrange(0, orig.len() - rest@.len()),
                class_id@,
                vendor_id@,
                device_id@,
            ),
        decreases rest.len(),
    {
        let ghost done = orig.len() - rest@.len();
        let p = rest.remove(0);
        proof {
            assert(p == orig[done]);
            assert(rest@ =~= orig.subrange(done + 1, orig.len() as int));
            assert(orig.subrange(0, done + 1).drop_last() =~= orig.subrange(0, done));
        }
        if p.matches_device(class_id, vendor_id, device_id) {
            out.push(p);
        }
        proof {
            assert(orig.subrange(0, orig.len() - rest@.len()) =~= orig.subrange(0, done + 1));
        }
    }
    proof {
        assert(orig.subrange(0, orig.len() as int) =~= orig);
    }
    out
}

impl CfhdbPciDevice {
    /// Resolves the device's profile list from the catalog: the slot is
    /// replaced with the matching profiles sorted by ascending priority
    /// (catalog order kept among ties), or emptied when nothing matches.
    /// Every other field of the device is left as it was.
    pub fn set_available_profiles(profile_data: Vec<CfhdbPciProfile>, device: &mut CfhdbPciDevice)
        ensures
            resolved_slot_ok(
                profile_data@,
                old(device).class_id@,
                old(device).vendor_id@,
                old(device).device_id@,
                slot_view(final(device).available_profiles),
            ),
            final(device).class_name == old(device).class_name,
            final(device).device_name == old(device).device_name,
            final(device).vendor_name == old(device).vendor_name,
            final(device).class_id == old(device).class_id,
            final(device).vendor_id == old(device).vendor_id,
            final(device).device_id == old(device).device_id,
            final(device).started == old(device).started,
            final(device).enabled == old(device).enabled,
            final(device).sysfs_busid == old(device).sysfs_busid,
            final(device).sysfs_id == old(device).sysfs_id,
            final(device).kernel_driver == old(device).kernel_driver,
            final(device).vendor_icon_name == old(device).vendor_icon_name,
    {
        let matched = matching_profiles_exec(
            profile_data,
            &device.class_id,
            &device.vendor_id,
            &device.device_id,
        );
        if matched.len() == 0 {
            device.available_profiles = ProfileWrapper(None);
        } else {
            let sorted = crate::sorting::sort_by_priority(matched);
            device.available_profiles = ProfileWrapper(Some(sorted));
        }
    }

    /// The device with the given bus-id, moved out of the enumerated list.
    /// `InvalidData` when enumeration yielded nothing, `NotFound` when no
    /// device carries the bus-id.
    pub fn get_device_from_busid(busid: &str, devices: Option<Vec<CfhdbPciDevice>>) -> (r: Result<
        CfhdbPciDevice,
        CfhdbError,
    >)
        ensures
            devices is None ==> r == Err::<CfhdbPciDevice, CfhdbError>(CfhdbError::InvalidData),
            devices matches Some(v) ==> r == match find_first(v@, busid@) {
                Some(d) => Ok::<CfhdbPciDevice, CfhdbError>(d),
                None => Err::<CfhdbPciDevice, CfhdbError>(CfhdbError::NotFound),
            },
    {
        match devices {
            None => Err(CfhdbError::InvalidData),
            Some(list) => {
                let owned: String = busid.to_owned();
                match crate::collect::extract_by_key(&owned, list) {
                    Some(d) => Ok(d),
                    None => Err(CfhdbError::NotFound),
                }
            },
        }
    }

    /// Drops enumeration entries that repeat an earlier bus-id and sysfs
    /// id, keeping the first of each.
    pub fn dedup_devices(devices: Vec<CfhdbPciDevice>) -> (r: Vec<CfhdbPciDevice>)
        ensures
            r@ == dedup_spec(devices@),
    {
        crate::collect::dedup_by_key(devices)
    }

    /// Groups devices by class identifier, keys in order of first
    /// occurrence, devices in enumeration order inside each group.
    pub fn create_class_hashmap(devices: Vec<CfhdbPciDevice>) -> (r: Vec<
        (String, Vec<CfhdbPciDevice>),
    >)
        ensures
            r@.len() == group_keys(devices@).len(),
            forall|g: int| 0 <= g < r@.len() ==> (#[trigger] r@[g].0)@ == group_keys(devices@)[g],
            forall|g: int| 0 <= g < r@.len() ==> (#[trigger] r@[g].1)@ == class_filter(
                devices@,
                r@[g].0@,
            ),
    {
        crate::collect::group_by_class(devices)
    }
}

/// A PCI profile built from a catalog entry, field for field.
pub open spec fn pci_profile_of(p: crate::catalog::ParsedProfile) -> CfhdbPciProfile {
    CfhdbPciProfile {
        codename: p.codename,
        i18n_desc: p.i18n_desc,
        icon_name: p.icon_name,
        license: p.license,
        class_ids: p.class_ids,
        vendor_ids: p.vendor_ids,
        device_ids: p.device_ids,
        blacklisted_class_ids: p.blacklisted_class_ids,
        blacklisted_vendor_ids: p.blacklisted_vendor_ids,
        blacklisted_device_ids: p.blacklisted_device_ids,
        packages: p.packages,
        check_script: p.check_script,
        install_script: p.install_script,
        remove_script: p.remove_script,
        experimental: p.experimental,
        removable: p.removable,
        priority: p.priority,
    }
}

/// The catalog entry a PCI profile carries, field for field.
pub open spec fn parsed_of_pci(p: CfhdbPciProfile) -> crate::catalog::ParsedProfile {
    crate::catalog::ParsedProfile {
        codename: p.codename,
        i18n_desc: p.i18n_desc,
        icon_name: p.icon_name,
        license: p.license,
        class_ids: p.class_ids,
        vendor_ids: p.vendor_ids,
        device_ids: p.device_ids,
        blacklisted_class_ids: p.blacklisted_class_ids,
        blacklisted_vendor_ids: p.blacklisted_vendor_ids,
        blacklisted_device_ids: p.blacklisted_device_ids,
        packages: p.packages,
        check_script: p.check_script,
        install_script: p.install_script,
        remove_script: p.remove_script,
        experimental: p.experimental,
        removable: p.removable,
        priority: p.priority,
    }
}

/// A sequence of PCI profiles that parses the catalog's entries one for
/// one, in catalog order, under the PCI axis key names and the field
/// rules of `entry_matches_json`.
pub open spec fn pci_entries_parsed(
    pre: Seq<CfhdbPciProfile>,
    entries: Seq<serde_json::Value>,
    locale: Seq<char>,
) -> bool {
    &&& pre.len() == entries.len()
    &&& forall|i: int|
        0 <= i < pre.len() ==> entry_matches_json(
            parsed_of_pci(#[trigger] pre[i]),
            entries[i],
            locale,
            "class_ids"@,
            "device_ids"@,
            "blacklisted_class_ids"@,
            "blacklisted_device_ids"@,
        )
}

/// Parses a PCI catalog body into profiles. Text that is not JSON is a
/// `ParseFailure` and nothing else is. The result is the stable
/// ascending-priority sort of the sequence that parses the `profiles`
/// array entry for entry, in catalog order, under the PCI field rules.
pub fn pci_profiles_from_catalog(data: &str, locale: &str) -> (r: Result<
    Vec<CfhdbPciProfile>,
    CfhdbError,
>)
    ensures
        r is Err <==> json_document(data@) is None,
        r matches Err(e) ==> e == CfhdbError::ParseFailure,
        r matches Ok(l) ==> sorted_by_prio(l@) && l@.len() == entries_of(data@).len() && (exists|
            pre: Seq<CfhdbPciProfile>,
        |
            stable_reordering(pre, l@) && #[trigger] pci_entries_parsed(
                pre,
                entries_of(data@),
                locale@,
            )),
{
    let parsed = match crate::catalog::parse_catalog(
        data,
        locale,
        "class_ids",
        "device_ids",
        "blacklisted_class_ids",
        "blacklisted_device_ids",
    ) {
        Ok(l) => l,
        Err(e) => {
            return Err(e);
        },
    };
    let ghost src = parsed@;
    let mut rest = parsed;
    let mut out: Vec<CfhdbPciProfile> = Vec::new();
    while rest.len() > 0
        invariant
            out@.len() + rest@.len() == src.len(),
            rest@ == src.subrange(src.len() - rest@.len(), src.len() as int),
            forall|k: int| 0 <= k < out@.len() ==> #[trigger] out@[k] == pci_profile_of(src[k]),
        decreases rest.len(),
    {
        let ghost done = src.len() - rest@.len();
        let p = rest.remove(0);
        proof {
            assert(p == src[done]);
            assert(rest@ =~= src.subrange(done + 1, src.len() as int));
        }
        out.push(
            CfhdbPciProfile {
                codename: p.codename,
                i18n_desc: p.i18n_desc,
                icon_name: p.icon_name,
                license: p.license,
                class_ids: p.class_ids,
                vendor_ids: p.vendor_ids,
                device_ids: p.device_ids,
                blacklisted_class_ids: p.blacklisted_class_ids,
                blacklisted_vendor_ids: p.blacklisted_vendor_ids,
                blacklisted_device_ids: p.blacklisted_device_ids,
                packages: p.packages,
                check_script: p.check_script,
                install_script: p.install_script,
                remove_script: p.remove_script,
                experimental: p.experimental,
                removable: p.removable,
                priority: p.priority,
            },
        );
    }
    let ghost pre = out@;
    let sorted = crate::sorting::sort_by_priority(out);
    proof {
        let entries = entries_of(data@);
        assert forall|i: int| 0 <= i < pre.len() implies entry_matches_json(
            parsed_of_pci(#[trigger] pre[i]),
            entries[i],
            locale@,
            "class_ids"@,
            "device_ids"@,
            "blacklisted_class_ids"@,
            "blacklisted_device_ids"@,
        ) by {
            assert(pre[i] == pci_profile_of(src[i]));
            assert(parsed_of_pci(pre[i]) == src[i]);
        }
        assert(pci_entries_parsed(pre, entries, locale@));
        assert(stable_reordering(pre, sorted@));
    }
    Ok(sorted)
}

/// Resolution is deterministic: two slots that both satisfy the resolver's
/// contract for the same catalog and the same device identifiers hold the
/// same value. Resolving twice therefore yields the same final list.
pub proof fn lemma_resolution_deterministic(
    catalog: Seq<CfhdbPciProfile>,
    class_id: Seq<char>,
    vendor_id: Seq<char>,
    device_id: Seq<char>,
    slot1: Option<Seq<CfhdbPciProfile>>,
    slot2: Option<Seq<CfhdbPciProfile>>,
)
    requires
        resolved_slot_ok(catalog, class_id, vendor_id, device_id, slot1),
        resolved_slot_ok(catalog, class_id, vendor_id, device_id, slot2),
    ensures
        slot1 == slot2,
{
    let matched = matching_pci_profiles(catalog, class_id, vendor_id, device_id);
    match (slot1, slot2) {
        (Some(s1), Some(s2)) => {
            lemma_stable_reordering_unique(s1, s2);
        },
        _ => {},
    }
}

} // verus!
