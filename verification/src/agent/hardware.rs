//! The hardware report: peripherals, graphics adapters read from the
//! system tools' output, and the snapshot sent to the teacher server.
use vstd::prelude::*;
use vstd::string::StringExecFns;
use crate::text::{
    lines, trim, views, split_lines, trim_str, eq_ignore_ascii_case, eq_ignore_ascii_case_chars,
    chars_of, seq_contains, contains_str, str_eq,
};

verus! {

/// A disk and its space.
#[derive(Debug)]
pub struct DiskInfo {
    pub name: String,
    pub total_bytes: u64,
    pub free_bytes: u64,
}

/// A graphics adapter.
#[derive(Debug)]
pub struct GpuInfo {
    pub name: String,
}

/// The facts a machine reports about its hardware.
#[derive(Debug)]
pub struct HardwareSnapshot {
    pub cpu_model: String,
    pub cpu_cores: u32,
    pub total_memory_bytes: u64,
    pub disk_info: String,
    pub mac_addresses: String,
    pub gpu_info: String,
    pub os_version: String,
    pub hostname: String,
}

/// A peripheral and whether it is connected.
#[derive(Debug, Clone)]
pub struct PeripheralInfo {
    pub device_type: String,
    pub name: String,
    pub connected: bool,
}

/// The peripherals reported: a keyboard and a mouse, each with whether it was found.
pub fn detect_peripherals(has_keyboard: bool, has_mouse: bool) -> (p: Vec<PeripheralInfo>)
    ensures
        p@.len() == 2,
        p@[0].device_type@ == "keyboard"@,
        p@[0].name@ == "USB/PS2 Keyboard"@,
        p@[0].connected == has_keyboard,
        p@[1].device_type@ == "mouse"@,
        p@[1].name@ == "USB/PS2 Mouse"@,
        p@[1].connected == has_mouse,
{
    let mut p: Vec<PeripheralInfo> = Vec::new();
    p.push(
        PeripheralInfo {
            device_type: String::from_str("keyboard"),
            name: String::from_str("USB/PS2 Keyboard"),
            connected: has_keyboard,
        },
    );
    p.push(
        PeripheralInfo {
            device_type: String::from_str("mouse"),
            name: String::from_str("USB/PS2 Mouse"),
            connected: has_mouse,
        },
    );
    p
}

/// The directory whose entries show that a device type is present, for
/// the device types that are probed.
pub fn device_probe_path(device_type: &str) -> (r: Option<String>)
    ensures
        (device_type@ == "keyboard"@ || device_type@ == "mouse"@) ==> (r matches Some(p) && p@
            == "/dev/input/by-path"@),
        !(device_type@ == "keyboard"@ || device_type@ == "mouse"@) ==> r is None,
{
    if str_eq(device_type, "keyboard") || str_eq(device_type, "mouse") {
        Some(String::from_str("/dev/input/by-path"))
    } else {
        None
    }
}

/// Whether the device listing names a device: some line is neither blank nor the `Name` header.
pub open spec fn listing_names_device(text: Seq<char>) -> bool {
    exists|i: int|
        0 <= i < lines(text).len() && trim(#[trigger] lines(text)[i]).len() > 0 && !seq_contains(
            lines(text)[i],
            "Name"@,
        )
}

/// Whether the device listing names a device.
pub fn listing_reports_device(text: &str) -> (r: bool)
    ensures
        r == listing_names_device(text@),
{
    let ls = split_lines(text);
    let mut i: usize = 0;
    while i < ls.len()
        invariant
            views(ls@) == lines(text@),
            i <= ls@.len(),
            forall|j: int|
                0 <= j < i ==> !(trim(#[trigger] lines(text@)[j]).len() > 0 && !seq_contains(
                    lines(text@)[j],
                    "Name"@,
                )),
        decreases ls@.len() - i,
    {
        let t = trim_str(ls[i].as_str());
        assert(views(ls@)[i as int] == ls@[i as int]@);
        if !t.as_str().is_empty() && !contains_str(ls[i].as_str(), "Name") {
            return true;
        }
        i += 1;
    }
    false
}

/// The names kept from adapter listing lines, first to last: each line
/// trimmed, blank lines dropped, and with `skip_header` the `Name` header
/// (in any case) dropped too.
pub open spec fn kept_names(ls: Seq<Seq<char>>, skip_header: bool) -> Seq<Seq<char>>
    decreases ls.len(),
{
    if ls.len() == 0 {
        Seq::empty()
    } else {
        let rest = kept_names(ls.drop_last(), skip_header);
        let t = trim(ls.last());
        if t.len() == 0 || (skip_header && eq_ignore_ascii_case(t, "Name"@)) {
            rest
        } else {
            rest.push(t)
        }
    }
}

/// The lines after the first.
pub open spec fn after_first(ls: Seq<Seq<char>>) -> Seq<Seq<char>> {
    if ls.len() == 0 {
        ls
    } else {
        ls.drop_first()
    }
}

/// The adapter names in a listing whose first line is a column header (Windows).
pub open spec fn wmic_gpu_names(text: Seq<char>) -> Seq<Seq<char>> {
    kept_names(after_first(lines(text)), true)
}

/// The adapter names in a listing with one adapter per line (Linux).
pub open spec fn lspci_gpu_names(text: Seq<char>) -> Seq<Seq<char>> {
    kept_names(lines(text), false)
}

/// The names kept from the lines `ls[first..]`.
fn keep_names(ls: &Vec<String>, first: usize, skip_header: bool) -> (r: Vec<GpuInfo>)
    requires
        first <= ls@.len(),
    ensures
        r@.map_values(|g: GpuInfo| g.name@) == kept_names(views(ls@).skip(first as int), skip_header),
{
    let mut r: Vec<GpuInfo> = Vec::new();
    let mut i: usize = first;
    let ghost src = views(ls@).skip(first as int);
    assert(src.take(0) =~= Seq::<Seq<char>>::empty());
    while i < ls.len()
        invariant
            first <= i <= ls@.len(),
            src == views(ls@).skip(first as int),
            r@.map_values(|g: GpuInfo| g.name@) == kept_names(src.take(i - first), skip_header),
        decreases ls@.len() - i,
    {
        let ghost before = r@;
        let t = trim_str(ls[i].as_str());
        proof {
            assert(src.take(i + 1 - first).drop_last() =~= src.take(i - first));
            assert(src.take(i + 1 - first).last() == ls@[i as int]@);
        }
        let header = if skip_header {
            let tv = chars_of(t.as_str());
            let nv = chars_of("Name");
            eq_ignore_ascii_case_chars(tv.as_slice(), nv.as_slice())
        } else {
            false
        };
        if !t.as_str().is_empty() && !header {
            r.push(GpuInfo { name: t });
            proof {
                assert(r@.map_values(|g: GpuInfo| g.name@) =~= before.map_values(
                    |g: GpuInfo| g.name@,
                ).push(trim(ls@[i as int]@)));
            }
        }
        i += 1;
    }
    assert(src.take(ls@.len() - first) =~= src);
    r
}

/// The graphics adapters in a Windows adapter listing (header line first).
pub fn gpus_from_wmic(text: &str) -> (r: Vec<GpuInfo>)
    ensures
        r@.map_values(|g: GpuInfo| g.name@) == wmic_gpu_names(text@),
{
    let ls = split_lines(text);
    if ls.len() == 0 {
        proof {
            assert(views(ls@).skip(0) =~= views(ls@));
        }
        keep_names(&ls, 0, true)
    } else {
        proof {
            assert(views(ls@).skip(1) =~= views(ls@).drop_first());
        }
        keep_names(&ls, 1, true)
    }
}

/// The graphics adapters in a Linux adapter listing (one per line).
pub fn gpus_from_lspci(text: &str) -> (r: Vec<GpuInfo>)
    ensures
        r@.map_values(|g: GpuInfo| g.name@) == lspci_gpu_names(text@),
{
    let ls = split_lines(text);
    proof {
        assert(views(ls@).skip(0) =~= views(ls@));
    }
    keep_names(&ls, 0, false)
}

/// The processor model: the first processor's brand, or `unknown`.
pub fn cpu_model_or_unknown(first_brand: Option<String>) -> (r: String)
    ensures
        first_brand matches Some(b) ==> r@ == b@,
        first_brand is None ==> r@ == "unknown"@,
{
    match first_brand {
        Some(b) => b,
        None => String::from_str("unknown"),
    }
}

/// The operating system line: its name, a space, its version.
pub fn os_version_text(name: &str, version: &str) -> (r: String)
    ensures
        r@ == name@ + " "@ + version@,
{
    let mut r = String::from_str(name);
    r.append(" ");
    r.append(version);
    r
}

} // verus!
