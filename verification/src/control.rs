//! Device control: the privileged helper invocations for starting,
//! stopping, enabling and disabling a device, and the derivation of a
//! device's state from what sysfs and the blacklist file hold.

use vstd::prelude::*;
use vstd::string::{StringExecFns, StrSliceExecFns};

verus! {

/// The four control operations over a device's bus-id.
#[derive(Clone, Copy, Debug, PartialEq, Eq, Structural)]
pub enum DeviceOp {
    Start,
    Stop,
    Enable,
    Disable,
}

/// The helper script that performs the privileged sysfs work.
pub open spec fn sysfs_helper_path() -> Seq<char> {
    "/usr/lib/cfhdb/scripts/sysfs_helper.sh"@
}

/// The argument list of the helper invocation for an operation: the
/// helper path, the operation verb, the bus kind, the bus-id, and for
/// `Start` the kernel module name (empty when unresolved). Privilege
/// elevation is layered on top by the caller.
pub fn sysfs_helper_argv(op: DeviceOp, bus: &str, busid: &str, module_name: Option<String>) -> (r:
    Vec<String>)
    ensures
        op == DeviceOp::Start ==> r.deep_view() == seq![
            sysfs_helper_path(),
            "start_device"@,
            bus@,
            busid@,
            (match module_name {
                Some(m) => m@,
                None => ""@,
            }),
        ],
        op == DeviceOp::Stop ==> r.deep_view() == seq![
            sysfs_helper_path(),
            "stop_device"@,
            bus@,
            busid@,
        ],
        op == DeviceOp::Enable ==> r.deep_view() == seq![
            sysfs_helper_path(),
            "enable_device"@,
            bus@,
            busid@,
        ],
        op == DeviceOp::Disable ==> r.deep_view() == seq![
            sysfs_helper_path(),
            "disable_device"@,
            bus@,
            busid@,
        ],
{
    let mut v: Vec<String> = Vec::new();
    v.push("/usr/lib/cfhdb/scripts/sysfs_helper.sh".to_owned());
    match op {
        DeviceOp::Start => v.push("start_device".to_owned()),
        DeviceOp::Stop => v.push("stop_device".to_owned()),
        DeviceOp::Enable => v.push("enable_device".to_owned()),
        DeviceOp::Disable => v.push("disable_device".to_owned()),
    }
    v.push(bus.to_owned());
    v.push(busid.to_owned());
    match op {
        DeviceOp::Start => {
            match module_name {
                Some(m) => v.push(m),
                None => v.push("".to_owned()),
            }
            proof {
                assert(v.deep_view() =~= seq![
                    sysfs_helper_path(),
                    "start_device"@,
                    bus@,
                    busid@,
                    (match module_name {
                        Some(m) => m@,
                        None => ""@,
                    }),
                ]);
            }
        },
        _ => {
            proof {
                if op == DeviceOp::Stop {
                    assert(v.deep_view() =~= seq![
                        sysfs_helper_path(),
                        "stop_device"@,
                        bus@,
                        busid@,
                    ]);
                } else if op == DeviceOp::Enable {
                    assert(v.deep_view() =~= seq![
                        sysfs_helper_path(),
                        "enable_device"@,
                        bus@,
                        busid@,
                    ]);
                } else {
                    assert(v.deep_view() =~= seq![
                        sysfs_helper_path(),
                        "disable_device"@,
                        bus@,
                        busid@,
                    ]);
                }
            }
        },
    }
    v
}

/// A device is enabled exactly when its bus-id stands on no line of the
/// persisted blacklist file.
pub fn device_enabled(blacklist_lines: &Vec<String>, busid: &String) -> (r: bool)
    ensures
        r == !blacklist_lines.deep_view().contains(busid@),
{
    !crate::matcher::string_list_contains(blacklist_lines, busid)
}

/// The started flag: `None` when no kernel driver is bound (nothing can
/// be started or stopped), otherwise whatever the live sysfs state says.
pub fn derive_started(kernel_driver: &String, raw_started: Option<bool>) -> (r: Option<bool>)
    ensures
        kernel_driver@ == "Unknown"@ ==> r is None,
        kernel_driver@ != "Unknown"@ ==> r == raw_started,
{
    let unknown: String = "Unknown".to_owned();
    if *kernel_driver == unknown {
        None
    } else {
        raw_started
    }
}

/// Whether a sysfs `enable` attribute reports the device live: the file
/// holds `1`, with or without the trailing newline.
pub fn device_started_attr(contents: &str) -> (r: bool)
    ensures
        r == (contents@ == "1"@ || contents@ == "1\n"@),
{
    let owned: String = contents.to_owned();
    let one: String = "1".to_owned();
    let one_nl: String = "1\n".to_owned();
    owned == one || owned == one_nl
}

/// The driver recorded in a uevent file: the value of the first
/// `DRIVER=` line, if any.
pub open spec fn uevent_driver(lines: Seq<Seq<char>>) -> Option<Seq<char>>
    decreases lines.len(),
{
    if lines.len() == 0 {
        None
    } else if lines[0].len() >= 7 && lines[0].subrange(0, 7) == "DRIVER="@ {
        Some(lines[0].subrange(7, lines[0].len() as int))
    } else {
        uevent_driver(lines.subrange(1, lines.len() as int))
    }
}

/// Whether the line starts with `DRIVER=`; if so, the value after it.
fn line_driver_value(line: &str) -> (r: Option<String>)
    ensures
        line@.len() >= 7 && line@.subrange(0, 7) == "DRIVER="@ ==> (r matches Some(v) && v@
            == line@.subrange(7, line@.len() as int)),
        !(line@.len() >= 7 && line@.subrange(0, 7) == "DRIVER="@) ==> r is None,
{
    let n = line.unicode_len();
    if n < 7 {
        return None;
    }
    let prefix: String = line.substring_char(0, 7).to_owned();
    let tag: String = "DRIVER=".to_owned();
    if prefix == tag {
        Some(line.substring_char(7, n).to_owned())
    } else {
        None
    }
}

/// The kernel driver bound to a device, read from the lines of its
/// sysfs uevent file: the value of the first `DRIVER=` line.
pub fn kernel_driver_from_uevent(lines: &Vec<String>) -> (r: Option<String>)
    ensures
        r is Some <==> uevent_driver(lines.deep_view()) is Some,
        r matches Some(s) ==> uevent_driver(lines.deep_view()) matches Some(t) && s@ == t,
{
    let mut i: usize = 0;
    proof {
        assert(lines.deep_view().subrange(0, lines.deep_view().len() as int)
            =~= lines.deep_view());
    }
    while i < lines.len()
        invariant
            i <= lines@.len(),
            uevent_driver(lines.deep_view()) == uevent_driver(
                lines.deep_view().subrange(i as int, lines.deep_view().len() as int),
            ),
        decreases lines.len() - i,
    {
        let ghost tail = lines.deep_view().subrange(i as int, lines.deep_view().len() as int);
        proof {
            assert(tail[0] == lines.deep_view()[i as int]);
            assert(tail.subrange(1, tail.len() as int) =~= lines.deep_view().subrange(
                i + 1,
                lines.deep_view().len() as int,
            ));
        }
        match line_driver_value(lines[i].as_str()) {
            Some(v) => {
                return Some(v);
            },
            None => {},
        }
        i += 1;
    }
    proof {
        assert(lines.deep_view().subrange(i as int, lines.deep_view().len() as int).len() == 0);
    }
    None
}

/// Whitespace as modinfo pads its field names.
pub open spec fn is_space_char(c: char) -> bool {
    c == ' ' || c == '\t'
}

/// A character a kernel module name is made of.
pub open spec fn is_word_char(c: char) -> bool {
    ('a' <= c && c <= 'z') || ('A' <= c && c <= 'Z') || ('0' <= c && c <= '9') || c == '_'
}

/// The number of leading whitespace characters.
pub open spec fn space_run(s: Seq<char>) -> int
    decreases s.len(),
{
    if s.len() == 0 {
        0
    } else if is_space_char(s[0]) {
        1 + space_run(s.subrange(1, s.len() as int))
    } else {
        0
    }
}

/// The number of leading module-name characters.
pub open spec fn word_run(s: Seq<char>) -> int
    decreases s.len(),
{
    if s.len() == 0 {
        0
    } else if is_word_char(s[0]) {
        1 + word_run(s.subrange(1, s.len() as int))
    } else {
        0
    }
}

proof fn lemma_space_run(s: Seq<char>)
    ensures
        0 <= space_run(s) <= s.len(),
        forall|i: int| 0 <= i < space_run(s) ==> is_space_char(#[trigger] s[i]),
        space_run(s) < s.len() ==> !is_space_char(s[space_run(s)]),
    decreases s.len(),
{
    if s.len() > 0 && is_space_char(s[0]) {
        let t = s.subrange(1, s.len() as int);
        lemma_space_run(t);
        assert forall|i: int| 0 <= i < space_run(s) implies is_space_char(#[trigger] s[i]) by {
            if i > 0 {
                assert(t[i - 1] == s[i]);
            }
        }
        if space_run(s) < s.len() {
            assert(t[space_run(s) - 1] == s[space_run(s)]);
        }
    }
}

proof fn lemma_word_run(s: Seq<char>)
    ensures
        0 <= word_run(s) <= s.len(),
        forall|i: int| 0 <= i < word_run(s) ==> is_word_char(#[trigger] s[i]),
        word_run(s) < s.len() ==> !is_word_char(s[word_run(s)]),
    decreases s.len(),
{
    if s.len() > 0 && is_word_char(s[0]) {
        let t = s.subrange(1, s.len() as int);
        lemma_word_run(t);
        assert forall|i: int| 0 <= i < word_run(s) implies is_word_char(#[trigger] s[i]) by {
            if i > 0 {
                assert(t[i - 1] == s[i]);
            }
        }
        if word_run(s) < s.len() {
            assert(t[word_run(s) - 1] == s[word_run(s)]);
        }
    }
}

/// The module name a modinfo output line announces: after the `name:`
/// tag and at least one space, the run of name characters.
pub open spec fn modinfo_line_name(l: Seq<char>) -> Option<Seq<char>> {
    if l.len() >= 5 && l.subrange(0, 5) == "name:"@ {
        let rest = l.subrange(5, l.len() as int);
        let sp = space_run(rest);
        let w = word_run(rest.subrange(sp, rest.len() as int));
        if sp >= 1 && w >= 1 {
            Some(rest.subrange(sp, sp + w))
        } else {
            None
        }
    } else {
        None
    }
}

/// The module name in modinfo output: the first line that announces one.
pub open spec fn modinfo_name(lines: Seq<Seq<char>>) -> Option<Seq<char>>
    decreases lines.len(),
{
    if lines.len() == 0 {
        None
    } else if modinfo_line_name(lines[0]) is Some {
        modinfo_line_name(lines[0])
    } else {
        modinfo_name(lines.subrange(1, lines.len() as int))
    }
}

fn is_space_exec(c: char) -> (r: bool)
    ensures
        r == is_space_char(c),
{
    c == ' ' || c == '\t'
}

fn is_word_exec(c: char) -> (r: bool)
    ensures
        r == is_word_char(c),
{
    ('a' <= c && c <= 'z') || ('A' <= c && c <= 'Z') || ('0' <= c && c <= '9') || c == '_'
}

/// Reads one modinfo output line for the `name:` field.
fn line_module_name(l: &str) -> (r: Option<String>)
    ensures
        r is Some <==> modinfo_line_name(l@) is Some,
        r matches Some(s) ==> (modinfo_line_name(l@) matches Some(t) && s@ == t),
{
    let n = l.unicode_len();
    if n < 5 {
        return None;
    }
    let prefix: String = l.substring_char(0, 5).to_owned();
    let tag: String = "name:".to_owned();
    if !(prefix == tag) {
        return None;
    }
    let ghost rest = l@.subrange(5, l@.len() as int);
    proof {
        lemma_space_run(rest);
    }
    let mut i: usize = 5;
    while i < n
        invariant
            5 <= i <= n,
            n == l@.len(),
            forall|k: int| 5 <= k < i ==> is_space_char(#[trigger] l@[k]),
        ensures
            5 <= i <= n,
            n == l@.len(),
            forall|k: int| 5 <= k < i ==> is_space_char(#[trigger] l@[k]),
            i < n ==> !is_space_char(l@[i as int]),
        decreases n - i,
    {
        if !is_space_exec(l.get_char(i)) {
            break ;
        }
        i += 1;
    }
    proof {
        let sp = space_run(rest);
        assert(rest.len() == n - 5);
        assert forall|k: int| 0 <= k < i - 5 implies is_space_char(#[trigger] rest[k]) by {
            assert(rest[k] == l@[k + 5]);
        }
        if sp < i - 5 {
            assert(is_space_char(rest[sp]));
            assert(false);
        }
        if sp > i - 5 {
            if i < n {
                assert(is_space_char(rest[i - 5]));
                assert(rest[i - 5] == l@[i as int]);
                assert(false);
            } else {
                assert(false);
            }
        }
        assert(sp == i - 5);
    }
    if i == 5 {
        return None;
    }
    let start = i;
    let ghost tailw = l@.subrange(start as int, l@.len() as int);
    proof {
        lemma_word_run(tailw);
        assert(tailw =~= rest.subrange(space_run(rest), rest.len() as int));
    }
    let mut j: usize = start;
    while j < n
        invariant
            start <= j <= n,
            n == l@.len(),
            forall|k: int| start <= k < j ==> is_word_char(#[trigger] l@[k]),
        ensures
            start <= j <= n,
            n == l@.len(),
            forall|k: int| start <= k < j ==> is_word_char(#[trigger] l@[k]),
            j < n ==> !is_word_char(l@[j as int]),
        decreases n - j,
    {
        if !is_word_exec(l.get_char(j)) {
            break ;
        }
        j += 1;
    }
    proof {
        let w = word_run(tailw);
        assert(tailw.len() == n - start);
        assert forall|k: int| 0 <= k < j - start implies is_word_char(#[trigger] tailw[k]) by {
            assert(tailw[k] == l@[k + start]);
        }
        if w < j - start {
            assert(is_word_char(tailw[w]));
            assert(false);
        }
        if w > j - start {
            if j < n {
                assert(is_word_char(tailw[j - start]));
                assert(tailw[j - start] == l@[j as int]);
                assert(false);
            } else {
                assert(false);
            }
        }
        assert(w == j - start);
    }
    if j == start {
        return None;
    }
    let name: String = l.substring_char(start, j).to_owned();
    proof {
        let sp = space_run(rest);
        let w = word_run(tailw);
        assert(name@ =~= rest.subrange(sp, sp + w));
    }
    Some(name)
}

/// The kernel module a device's modalias resolves to, read from the lines
/// of modinfo's output: the first `name:` field.
pub fn module_name_from_modinfo(lines: &Vec<String>) -> (r: Option<String>)
    ensures
        r is Some <==> modinfo_name(lines.deep_view()) is Some,
        r matches Some(s) ==> (modinfo_name(lines.deep_view()) matches Some(t) && s@ == t),
{
    let mut i: usize = 0;
    proof {
        assert(lines.deep_view().subrange(0, lines.deep_view().len() as int)
            =~= lines.deep_view());
    }
    while i < lines.len()
        invariant
            i <= lines@.len(),
            modinfo_name(lines.deep_view()) == modinfo_name(
                lines.deep_view().subrange(i as int, lines.deep_view().len() as int),
            ),
        decreases lines.len() - i,
    {
        let ghost tail = lines.deep_view().subrange(i as int, lines.deep_view().len() as int);
        proof {
            assert(tail[0] == lines.deep_view()[i as int]);
            assert(tail.subrange(1, tail.len() as int) =~= lines.deep_view().subrange(
                i + 1,
                lines.deep_view().len() as int,
            ));
        }
        match line_module_name(lines[i].as_str()) {
            Some(v) => {
                return Some(v);
            },
            None => {},
        }
        i += 1;
    }
    proof {
        assert(lines.deep_view().subrange(i as int, lines.deep_view().len() as int).len() == 0);
    }
    None
}

} // verus!
