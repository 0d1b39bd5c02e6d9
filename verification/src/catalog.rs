//! The profile catalog: JSON parsing, field defaulting and the
//! fetched-or-cached source decision.
//!
//! The catalog body is a JSON object with a `profiles` array. Decoding the
//! text goes through serde_json, whose results are named below
//! (`json_document`, `json_member_of`, ...); every rule about a field —
//! its default when absent, the sentinel string that stands for an absent
//! script, the priority range — is decided by verified functions whose
//! contracts are stated over those names.

use vstd::prelude::*;
use vstd::string::StringExecFns;

use crate::error::CfhdbError;
use crate::sorting::Prioritized;

verus! {

#[verifier::external_type_specification]
#[verifier::external_body]
pub struct ExJsonValue(serde_json::Value);

#[verifier::external_type_specification]
#[verifier::external_body]
pub struct ExJsonError(serde_json::Error);

// The names of what the serde_json calls return: each is a function of
// its arguments alone, stated by the trusted wrappers below and by
// nothing else.
pub uninterp spec fn json_document(data: Seq<char>) -> Option<serde_json::Value>;

pub uninterp spec fn json_member_of(v: serde_json::Value, key: Seq<char>) -> Option<
    serde_json::Value,
>;

pub uninterp spec fn json_string_of(v: serde_json::Value) -> Option<Seq<char>>;

pub uninterp spec fn json_array_of(v: serde_json::Value) -> Option<Seq<serde_json::Value>>;

pub uninterp spec fn json_bool_of(v: serde_json::Value) -> Option<bool>;

pub uninterp spec fn json_i64_of(v: serde_json::Value) -> Option<i64>;

/// Relies on serde_json::from_str: decodes a JSON document, or reports
/// that the text is not one. `json_document` names the decoded value.
#[verifier::external_body]
pub(crate) fn parse_json_value(data: &str) -> (r: Result<serde_json::Value, serde_json::Error>)
    ensures
        r is Ok <==> json_document(data@) is Some,
        r matches Ok(v) ==> json_document(data@) == Some(v),
{
    serde_json::from_str(data)
}

/// Relies on serde_json::Value::get: the member under the key when the
/// value is an object holding it, named `json_member_of`.
#[verifier::external_body]
fn json_get<'a>(v: &'a serde_json::Value, key: &str) -> (r: Option<&'a serde_json::Value>)
    ensures
        r is Some <==> json_member_of(*v, key@) is Some,
        r matches Some(m) ==> json_member_of(*v, key@) == Some(*m),
{
    v.get(key)
}

/// Relies on serde_json::Value::as_str: the owned text of a JSON string,
/// named `json_string_of`.
#[verifier::external_body]
fn json_as_string(v: &serde_json::Value) -> (r: Option<String>)
    ensures
        r is Some <==> json_string_of(*v) is Some,
        r matches Some(s) ==> json_string_of(*v) == Some(s@),
{
    match v.as_str() {
        Some(s) => Some(s.to_string()),
        None => None,
    }
}

/// Relies on serde_json::Value::as_array: the elements of a JSON array,
/// named `json_array_of`.
#[verifier::external_body]
fn json_as_array(v: &serde_json::Value) -> (r: Option<Vec<serde_json::Value>>)
    ensures
        r is Some <==> json_array_of(*v) is Some,
        r matches Some(items) ==> json_array_of(*v) == Some(items@),
{
    v.as_array().cloned()
}

/// Relies on serde_json::Value::as_bool: the value of a JSON boolean,
/// named `json_bool_of`.
#[verifier::external_body]
fn json_as_bool(v: &serde_json::Value) -> (r: Option<bool>)
    ensures
        r == json_bool_of(*v),
{
    v.as_bool()
}

/// Relies on serde_json::Value::as_i64: a JSON integer when it fits,
/// named `json_i64_of`.
#[verifier::external_body]
fn json_as_i64(v: &serde_json::Value) -> (r: Option<i64>)
    ensures
        r == json_i64_of(*v),
{
    v.as_i64()
}

/// The text of a member: the member exists and is a string.
pub open spec fn member_text(v: serde_json::Value, key: Seq<char>) -> Option<Seq<char>> {
    match json_member_of(v, key) {
        Some(m) => json_string_of(m),
        None => None,
    }
}

/// A text, or the default when there is none.
pub open spec fn text_or(o: Option<Seq<char>>, default: Seq<char>) -> Seq<char> {
    match o {
        Some(s) => s,
        None => default,
    }
}

/// The texts of an array's elements, a non-string element reading as
/// empty.
pub open spec fn texts_of(items: Seq<serde_json::Value>) -> Seq<Seq<char>> {
    Seq::new(items.len(), |i: int| text_or(json_string_of(items[i]), ""@))
}

/// The texts of an array member; an absent or non-array member reads as
/// the empty list.
pub open spec fn member_texts(v: serde_json::Value, key: Seq<char>) -> Seq<Seq<char>> {
    match json_member_of(v, key) {
        Some(m) => match json_array_of(m) {
            Some(items) => texts_of(items),
            None => Seq::empty(),
        },
        None => Seq::empty(),
    }
}

/// A script member's meaning: absent, non-string and the writer artifact
/// `"Option::is_none"` all mean that there is no script.
pub open spec fn script_of_member(v: serde_json::Value, key: Seq<char>) -> Option<Seq<char>> {
    match member_text(v, key) {
        None => None,
        Some(s) => if s == "Option::is_none"@ {
            None
        } else {
            Some(s)
        },
    }
}

/// The package list's meaning: an absent member or a string member (the
/// writer's way of spelling "no packages") give none; an array gives its
/// texts; anything else gives none.
pub open spec fn packages_of(v: serde_json::Value) -> Option<Seq<Seq<char>>> {
    match json_member_of(v, "packages"@) {
        None => None,
        Some(m) => if json_string_of(m) is Some {
            None
        } else {
            match json_array_of(m) {
                Some(items) => Some(texts_of(items)),
                None => None,
            }
        },
    }
}

/// A boolean member, or false when absent or not a boolean.
pub open spec fn bool_of_member(v: serde_json::Value, key: Seq<char>) -> bool {
    match json_member_of(v, key) {
        Some(m) => match json_bool_of(m) {
            Some(b) => b,
            None => false,
        },
        None => false,
    }
}

/// An integer member clamped to the stored priority width: the value when
/// it fits, zero when absent, not an integer, or out of range.
pub open spec fn priority_of_member(v: serde_json::Value, key: Seq<char>) -> int {
    match json_member_of(v, key) {
        Some(m) => match json_i64_of(m) {
            Some(x) => if -2147483648 <= x && x <= 2147483647 {
                x as int
            } else {
                0
            },
            None => 0,
        },
        None => 0,
    }
}

/// The description to surface: the locale's member when present and
/// non-empty, else the base member, else empty.
pub open spec fn desc_of(v: serde_json::Value, locale: Seq<char>) -> Seq<char> {
    let localized_key = "i18n_desc["@ + locale + "]"@;
    let base = text_or(member_text(v, "i18n_desc"@), Seq::empty());
    match member_text(v, localized_key) {
        Some(t) => if t.len() > 0 {
            t
        } else {
            base
        },
        None => base,
    }
}

/// The entries of the catalog's `profiles` array; a body without one
/// reads as empty.
pub open spec fn entries_of(data: Seq<char>) -> Seq<serde_json::Value> {
    match json_document(data) {
        Some(root) => match json_member_of(root, "profiles"@) {
            Some(m) => match json_array_of(m) {
                Some(items) => items,
                None => Seq::empty(),
            },
            None => Seq::empty(),
        },
        None => Seq::empty(),
    }
}

/// The view of an optional script.
pub open spec fn opt_text_view(o: Option<String>) -> Option<Seq<char>> {
    match o {
        Some(s) => Some(s@),
        None => None,
    }
}

/// The view of an optional package list.
pub open spec fn opt_texts_view(o: Option<Vec<String>>) -> Option<Seq<Seq<char>>> {
    match o {
        Some(v) => Some(v.deep_view()),
        None => None,
    }
}

/// A catalog entry with the axis fields under their shared names; the
/// PCI and USB profile types are built from it one for one.
pub struct ParsedProfile {
    pub codename: String,
    pub i18n_desc: String,
    pub icon_name: String,
    pub license: String,
    pub class_ids: Vec<String>,
    pub vendor_ids: Vec<String>,
    pub device_ids: Vec<String>,
    pub blacklisted_class_ids: Vec<String>,
    pub blacklisted_vendor_ids: Vec<String>,
    pub blacklisted_device_ids: Vec<String>,
    pub packages: Option<Vec<String>>,
    pub check_script: String,
    pub install_script: Option<String>,
    pub remove_script: Option<String>,
    pub experimental: bool,
    pub removable: bool,
    pub priority: i32,
}

impl Prioritized for ParsedProfile {
    open spec fn prio(&self) -> int {
        self.priority as int
    }

    fn priority_value(&self) -> (r: i32) {
        self.priority
    }
}

/// Every field rule of one catalog entry, stated over the JSON names:
/// string fields with their documented defaults, identifier axes as the
/// member's texts (absent means empty), scripts with the absent-or-
/// sentinel rule, packages with the string-means-none rule, booleans
/// defaulting to false, and the priority clamped to its stored width.
pub open spec fn entry_matches_json(
    p: ParsedProfile,
    v: serde_json::Value,
    locale: Seq<char>,
    class_key: Seq<char>,
    id_key: Seq<char>,
    bl_class_key: Seq<char>,
    bl_id_key: Seq<char>,
) -> bool {
    &&& p.codename@ == text_or(member_text(v, "codename"@), ""@)
    &&& p.i18n_desc@ == desc_of(v, locale)
    &&& p.icon_name@ == text_or(member_text(v, "icon_name"@), "package-x-generic"@)
    &&& p.license@ == text_or(member_text(v, "license"@), "Unknown"@)
    &&& p.class_ids.deep_view() == member_texts(v, class_key)
    &&& p.vendor_ids.deep_view() == member_texts(v, "vendor_ids"@)
    &&& p.device_ids.deep_view() == member_texts(v, id_key)
    &&& p.blacklisted_class_ids.deep_view() == member_texts(v, bl_class_key)
    &&& p.blacklisted_vendor_ids.deep_view() == member_texts(v, "blacklisted_vendor_ids"@)
    &&& p.blacklisted_device_ids.deep_view() == member_texts(v, bl_id_key)
    &&& opt_texts_view(p.packages) == packages_of(v)
    &&& p.check_script@ == text_or(member_text(v, "check_script"@), "false"@)
    &&& opt_text_view(p.install_script) == script_of_member(v, "install_script"@)
    &&& opt_text_view(p.remove_script) == script_of_member(v, "remove_script"@)
    &&& p.experimental == bool_of_member(v, "experimental"@)
    &&& p.removable == bool_of_member(v, "removable"@)
    &&& p.priority as int == priority_of_member(v, "priority"@)
}

/// A sequence of parsed entries, one per JSON entry, in catalog order.
pub open spec fn entries_parsed(
    pre: Seq<ParsedProfile>,
    entries: Seq<serde_json::Value>,
    locale: Seq<char>,
    class_key: Seq<char>,
    id_key: Seq<char>,
    bl_class_key: Seq<char>,
    bl_id_key: Seq<char>,
) -> bool {
    &&& pre.len() == entries.len()
    &&& forall|i: int|
        0 <= i < pre.len() ==> entry_matches_json(
            #[trigger] pre[i],
            entries[i],
            locale,
            class_key,
            id_key,
            bl_class_key,
            bl_id_key,
        )
}

/// A script field's value: an absent field and the writer artifact
/// `"Option::is_none"` both mean that there is no script.
pub fn script_field(value: Option<String>) -> (r: Option<String>)
    ensures
        r == match value {
            None => None::<String>,
            Some(s) => if s@ == "Option::is_none"@ {
                None::<String>
            } else {
                Some(s)
            },
        },
{
    match value {
        None => None,
        Some(s) => {
            let sentinel: String = "Option::is_none".to_owned();
            if s == sentinel {
                None
            } else {
                Some(s)
            }
        },
    }
}

/// The description to surface: the locale's text when present and
/// non-empty, else the base text, else empty.
pub fn pick_desc(localized: Option<String>, base: Option<String>) -> (r: String)
    ensures
        r@ == match localized {
            Some(t) => if t@.len() > 0 {
                t@
            } else {
                match base {
                    Some(b) => b@,
                    None => Seq::<char>::empty(),
                }
            },
            None => match base {
                Some(b) => b@,
                None => Seq::<char>::empty(),
            },
        },
{
    let fallback = |b: Option<String>| -> (f: String)
        ensures
            f@ == match b {
                Some(bb) => bb@,
                None => Seq::<char>::empty(),
            },
        {
            match b {
                Some(bb) => bb,
                None => String::new(),
            }
        };
    match localized {
        Some(t) => {
            if !t.as_str().is_empty() {
                t
            } else {
                fallback(base)
            }
        },
        None => fallback(base),
    }
}

/// The string value, or the default when the field is absent or not a
/// string.
pub fn string_or(value: Option<String>, default: &str) -> (r: String)
    ensures
        r@ == match value {
            Some(s) => s@,
            None => default@,
        },
{
    match value {
        Some(s) => s,
        None => default.to_owned(),
    }
}

/// The profile priority: the catalog's integer when it fits the stored
/// width, zero when it is absent or out of range.
pub fn priority_value_of(value: Option<i64>) -> (r: i32)
    ensures
        r as int == match value {
            Some(x) => if -2147483648 <= x && x <= 2147483647 {
                x as int
            } else {
                0
            },
            None => 0,
        },
{
    match value {
        Some(x) => {
            if x >= -2147483648i64 && x <= 2147483647i64 {
                x as i32
            } else {
                0
            }
        },
        None => 0,
    }
}

/// The boolean value, or false when absent or not a boolean.
pub fn bool_or_false(value: Option<bool>) -> (r: bool)
    ensures
        r == match value {
            Some(b) => b,
            None => false,
        },
{
    match value {
        Some(b) => b,
        None => false,
    }
}

/// The text of a string member, when the member is there and is a string.
pub(crate) fn member_string_opt(v: &serde_json::Value, key: &str) -> (r: Option<String>)
    ensures
        r is Some <==> member_text(*v, key@) is Some,
        r matches Some(s) ==> member_text(*v, key@) == Some(s@),
{
    match json_get(v, key) {
        Some(f) => json_as_string(f),
        None => None,
    }
}

/// The text of a string member, or the default.
fn member_string(v: &serde_json::Value, key: &str, default: &str) -> (r: String)
    ensures
        r@ == text_or(member_text(*v, key@), default@),
{
    string_or(member_string_opt(v, key), default)
}

/// The texts of an array's elements.
fn texts_of_items(items: &Vec<serde_json::Value>) -> (r: Vec<String>)
    ensures
        r.deep_view() == texts_of(items@),
{
    let mut out: Vec<String> = Vec::new();
    let mut i: usize = 0;
    while i < items.len()
        invariant
            i <= items@.len(),
            out@.len() == i,
            forall|k: int| 0 <= k < i ==> (#[trigger] out@[k])@ == texts_of(items@)[k],
        decreases items.len() - i,
    {
        out.push(string_or(json_as_string(&items[i]), ""));
        i += 1;
    }
    proof {
        assert(out.deep_view() =~= texts_of(items@));
    }
    out
}

/// The strings of an array member, each element's text or empty; an
/// absent or non-array member gives the empty list.
fn member_strings(v: &serde_json::Value, key: &str) -> (r: Vec<String>)
    ensures
        r.deep_view() == member_texts(*v, key@),
{
    match json_get(v, key) {
        Some(f) => match json_as_array(f) {
            Some(items) => texts_of_items(&items),
            None => {
                let empty: Vec<String> = Vec::new();
                proof {
                    assert(empty.deep_view() =~= Seq::<Seq<char>>::empty());
                }
                empty
            },
        },
        None => {
            let empty: Vec<String> = Vec::new();
            proof {
                assert(empty.deep_view() =~= Seq::<Seq<char>>::empty());
            }
            empty
        },
    }
}

/// A script member: absent, non-string and sentinel values all mean no
/// script.
fn member_script(v: &serde_json::Value, key: &str) -> (r: Option<String>)
    ensures
        opt_text_view(r) == script_of_member(*v, key@),
{
    match json_get(v, key) {
        Some(f) => script_field(json_as_string(f)),
        None => None,
    }
}

/// The package list: an absent member or a string member (the writer's
/// way of spelling "no packages") give none rather than aborting the
/// parse; an array gives its texts.
fn member_packages(v: &serde_json::Value) -> (r: Option<Vec<String>>)
    ensures
        opt_texts_view(r) == packages_of(*v),
{
    match json_get(v, "packages") {
        None => None,
        Some(f) => {
            match json_as_string(f) {
                Some(_) => None,
                None => match json_as_array(f) {
                    Some(items) => Some(texts_of_items(&items)),
                    None => None,
                },
            }
        },
    }
}

/// Builds one catalog entry from its JSON object. The identifier axes are
/// read under the given key names (the PCI and USB catalogs name them
/// differently); the description prefers the locale's variant.
fn parsed_profile_from_json(
    v: &serde_json::Value,
    locale: &str,
    class_key: &str,
    id_key: &str,
    bl_class_key: &str,
    bl_id_key: &str,
) -> (r: ParsedProfile)
    ensures
        entry_matches_json(r, *v, locale@, class_key@, id_key@, bl_class_key@, bl_id_key@),
{
    let mut localized_key: String = "i18n_desc[".to_owned();
    localized_key.append(locale);
    localized_key.append("]");
    let localized = member_string_opt(v, localized_key.as_str());
    let base_desc = member_string_opt(v, "i18n_desc");
    let priority_field = match json_get(v, "priority") {
        Some(f) => json_as_i64(f),
        None => None,
    };
    let experimental_field = match json_get(v, "experimental") {
        Some(f) => json_as_bool(f),
        None => None,
    };
    let removable_field = match json_get(v, "removable") {
        Some(f) => json_as_bool(f),
        None => None,
    };
    ParsedProfile {
        codename: member_string(v, "codename", ""),
        i18n_desc: pick_desc(localized, base_desc),
        icon_name: member_string(v, "icon_name", "package-x-generic"),
        license: member_string(v, "license", "Unknown"),
        class_ids: member_strings(v, class_key),
        vendor_ids: member_strings(v, "vendor_ids"),
        device_ids: member_strings(v, id_key),
        blacklisted_class_ids: member_strings(v, bl_class_key),
        blacklisted_vendor_ids: member_strings(v, "blacklisted_vendor_ids"),
        blacklisted_device_ids: member_strings(v, bl_id_key),
        packages: member_packages(v),
        check_script: member_string(v, "check_script", "false"),
        install_script: member_script(v, "install_script"),
        remove_script: member_script(v, "remove_script"),
        experimental: bool_or_false(experimental_field),
        removable: bool_or_false(removable_field),
        priority: priority_value_of(priority_field),
    }
}

/// Parses a catalog body. Text that is not JSON is a `ParseFailure`, and
/// nothing else is: a body without a `profiles` array yields the empty
/// catalog. The result parses the `profiles` array entry for entry, in
/// catalog order, under the field rules of `entry_matches_json`; the
/// per-bus callers sort it by priority.
pub fn parse_catalog(
    data: &str,
    locale: &str,
    class_key: &str,
    id_key: &str,
    bl_class_key: &str,
    bl_id_key: &str,
) -> (r: Result<Vec<ParsedProfile>, CfhdbError>)
    ensures
        r is Err <==> json_document(data@) is None,
        r matches Err(e) ==> e == CfhdbError::ParseFailure,
        r matches Ok(l) ==> entries_parsed(
            l@,
            entries_of(data@),
            locale@,
            class_key@,
            id_key@,
            bl_class_key@,
            bl_id_key@,
        ),
{
    let root = match parse_json_value(data) {
        Ok(v) => v,
        Err(_) => {
            return Err(CfhdbError::ParseFailure);
        },
    };
    let entries: Vec<serde_json::Value> = match json_get(&root, "profiles") {
        Some(f) => match json_as_array(f) {
            Some(a) => a,
            None => Vec::new(),
        },
        None => Vec::new(),
    };
    proof {
        assert(entries@ =~= entries_of(data@));
    }
    let mut out: Vec<ParsedProfile> = Vec::new();
    let mut i: usize = 0;
    while i < entries.len()
        invariant
            i <= entries@.len(),
            out@.len() == i,
            forall|k: int|
                0 <= k < i ==> entry_matches_json(
                    #[trigger] out@[k],
                    entries@[k],
                    locale@,
                    class_key@,
                    id_key@,
                    bl_class_key@,
                    bl_id_key@,
                ),
        decreases entries.len() - i,
    {
        out.push(
            parsed_profile_from_json(&entries[i], locale, class_key, id_key, bl_class_key, bl_id_key),
        );
        i += 1;
    }
    Ok(out)
}

/// Chooses the catalog source: a fresh fetch when one succeeded, else the
/// cache, else `NotFound` — a failed fetch with no cache fails the
/// operation.
pub fn catalog_data(fetched: Option<String>, cached: Option<String>) -> (r: Result<
    String,
    CfhdbError,
>)
    ensures
        r == match fetched {
            Some(b) => Ok::<String, CfhdbError>(b),
            None => match cached {
                Some(c) => Ok::<String, CfhdbError>(c),
                None => Err::<String, CfhdbError>(CfhdbError::NotFound),
            },
        },
{
    match fetched {
        Some(b) => Ok(b),
        None => match cached {
            Some(c) => Ok(c),
            None => Err(CfhdbError::NotFound),
        },
    }
}

} // verus!
