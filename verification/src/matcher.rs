//! Identifier matching: decides whether a profile applies to a device.
//!
//! A profile carries three inclusion axes (class, vendor, device identifier
//! sets) and three exclusion axes (the blacklists). An axis accepts an
//! identifier when the set holds the literal identifier or the wildcard
//! `"*"`. A single blacklist hit on any axis disqualifies the profile;
//! otherwise the profile matches exactly when all three inclusion axes
//! accept. An empty inclusion axis accepts nothing.

use vstd::prelude::*;

verus! {

/// The wildcard pattern that makes an axis accept any identifier.
pub open spec fn wildcard() -> Seq<char> {
    "*"@
}

/// An axis (a set of identifier patterns) accepts an identifier when it
/// holds the wildcard or the identifier itself.
pub open spec fn axis_accepts(axis: Seq<Seq<char>>, id: Seq<char>) -> bool {
    axis.contains(wildcard()) || axis.contains(id)
}

/// The matching rule over the six axes of a profile and the three
/// identifiers of a device: no blacklist axis may accept its identifier,
/// and every inclusion axis must accept its identifier.
pub open spec fn ids_match(
    class_axis: Seq<Seq<char>>,
    vendor_axis: Seq<Seq<char>>,
    device_axis: Seq<Seq<char>>,
    bl_class_axis: Seq<Seq<char>>,
    bl_vendor_axis: Seq<Seq<char>>,
    bl_device_axis: Seq<Seq<char>>,
    class_id: Seq<char>,
    vendor_id: Seq<char>,
    device_id: Seq<char>,
) -> bool {
    if axis_accepts(bl_class_axis, class_id) || axis_accepts(bl_vendor_axis, vendor_id)
        || axis_accepts(bl_device_axis, device_id) {
        false
    } else {
        axis_accepts(class_axis, class_id) && axis_accepts(vendor_axis, vendor_id)
            && axis_accepts(device_axis, device_id)
    }
}

/// Whether `list` holds a string whose characters equal `value`'s.
pub fn string_list_contains(list: &Vec<String>, value: &String) -> (r: bool)
    ensures
        r == list.deep_view().contains(value@),
{
    let mut i: usize = 0;
    while i < list.len()
        invariant
            i <= list.len(),
            forall|j: int| 0 <= j < i ==> list.deep_view()[j] != value@,
        decreases list.len() - i,
    {
        if list[i] == *value {
            assert(list.deep_view()[i as int] == value@);
            return true;
        }
        i += 1;
    }
    false
}

/// Whether the axis accepts the identifier: it holds `"*"` or the
/// identifier itself.
pub fn axis_accepts_id(axis: &Vec<String>, id: &String) -> (r: bool)
    ensures
        r == axis_accepts(axis.deep_view(), id@),
{
    let star: String = "*".to_owned();
    string_list_contains(axis, &star) || string_list_contains(axis, id)
}

/// Evaluates the matching rule on executable values.
pub fn ids_match_exec(
    class_axis: &Vec<String>,
    vendor_axis: &Vec<String>,
    device_axis: &Vec<String>,
    bl_class_axis: &Vec<String>,
    bl_vendor_axis: &Vec<String>,
    bl_device_axis: &Vec<String>,
    class_id: &String,
    vendor_id: &String,
    device_id: &String,
) -> (r: bool)
    ensures
        r == ids_match(
            class_axis.deep_view(),
            vendor_axis.deep_view(),
            device_axis.deep_view(),
            bl_class_axis.deep_view(),
            bl_vendor_axis.deep_view(),
            bl_device_axis.deep_view(),
            class_id@,
            vendor_id@,
            device_id@,
        ),
{
    if axis_accepts_id(bl_class_axis, class_id) || axis_accepts_id(bl_vendor_axis, vendor_id)
        || axis_accepts_id(bl_device_axis, device_id) {
        false
    } else {
        axis_accepts_id(class_axis, class_id) && axis_accepts_id(vendor_axis, vendor_id)
            && axis_accepts_id(device_axis, device_id)
    }
}

/// A blacklist hit on any axis excludes the profile, whatever the
/// inclusion axes say.
pub proof fn lemma_blacklist_excludes(
    class_axis: Seq<Seq<char>>,
    vendor_axis: Seq<Seq<char>>,
    device_axis: Seq<Seq<char>>,
    bl_class_axis: Seq<Seq<char>>,
    bl_vendor_axis: Seq<Seq<char>>,
    bl_device_axis: Seq<Seq<char>>,
    class_id: Seq<char>,
    vendor_id: Seq<char>,
    device_id: Seq<char>,
)
    requires
        axis_accepts(bl_class_axis, class_id) || axis_accepts(bl_vendor_axis, vendor_id)
            || axis_accepts(bl_device_axis, device_id),
    ensures
        !ids_match(
            class_axis,
            vendor_axis,
            device_axis,
            bl_class_axis,
            bl_vendor_axis,
            bl_device_axis,
            class_id,
            vendor_id,
            device_id,
        ),
{
}

/// An inclusion axis that accepts neither the wildcard nor the device's
/// identifier makes the whole match fail.
pub proof fn lemma_inclusion_axis_required(
    class_axis: Seq<Seq<char>>,
    vendor_axis: Seq<Seq<char>>,
    device_axis: Seq<Seq<char>>,
    bl_class_axis: Seq<Seq<char>>,
    bl_vendor_axis: Seq<Seq<char>>,
    bl_device_axis: Seq<Seq<char>>,
    class_id: Seq<char>,
    vendor_id: Seq<char>,
    device_id: Seq<char>,
)
    requires
        !axis_accepts(class_axis, class_id) || !axis_accepts(vendor_axis, vendor_id)
            || !axis_accepts(device_axis, device_id),
    ensures
        !ids_match(
            class_axis,
            vendor_axis,
            device_axis,
            bl_class_axis,
            bl_vendor_axis,
            bl_device_axis,
            class_id,
            vendor_id,
            device_id,
        ),
{
}

/// With all three inclusion axes satisfied and no blacklist axis
/// triggered, the profile matches.
pub proof fn lemma_all_axes_match(
    class_axis: Seq<Seq<char>>,
    vendor_axis: Seq<Seq<char>>,
    device_axis: Seq<Seq<char>>,
    bl_class_axis: Seq<Seq<char>>,
    bl_vendor_axis: Seq<Seq<char>>,
    bl_device_axis: Seq<Seq<char>>,
    class_id: Seq<char>,
    vendor_id: Seq<char>,
    device_id: Seq<char>,
)
    requires
        axis_accepts(class_axis, class_id),
        axis_accepts(vendor_axis, vendor_id),
        axis_accepts(device_axis, device_id),
        !axis_accepts(bl_class_axis, class_id),
        !axis_accepts(bl_vendor_axis, vendor_id),
        !axis_accepts(bl_device_axis, device_id),
    ensures
        ids_match(
            class_axis,
            vendor_axis,
            device_axis,
            bl_class_axis,
            bl_vendor_axis,
            bl_device_axis,
            class_id,
            vendor_id,
            device_id,
        ),
{
}

/// An empty inclusion axis never accepts an identifier: a profile with an
/// empty inclusion axis can match no device.
pub proof fn lemma_empty_axis_never_accepts(axis: Seq<Seq<char>>, id: Seq<char>)
    requires
        axis.len() == 0,
    ensures
        !axis_accepts(axis, id),
{
}

} // verus!
