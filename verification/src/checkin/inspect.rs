//! The inspection the check-in program runs before a student may use the
//! machine: one item per check, and whether any is abnormal.
use vstd::prelude::*;
use vstd::string::StringExecFns;
use crate::text::{trim, trim_str, str_eq};

verus! {

/// One check and its result.
#[derive(Debug)]
pub struct InspectionItem {
    pub name: String,
    pub status: String,
    pub detail: Option<String>,
}

/// The inspection's items, whether any is abnormal, and the error if it could not run.
#[derive(Debug)]
pub struct InspectionReport {
    pub items: Vec<InspectionItem>,
    pub is_abnormal: bool,
    pub error: Option<String>,
}

/// The status word for a check's result.
pub open spec fn status_word(ok: bool) -> Seq<char> {
    if ok {
        "normal"@
    } else {
        "abnormal"@
    }
}

/// An item: its name, `normal` or `abnormal`, and its detail.
pub fn item(name: &str, ok: bool, detail: Option<String>) -> (it: InspectionItem)
    ensures
        it.name@ == name@,
        it.status@ == status_word(ok),
        it.detail == detail,
{
    InspectionItem {
        name: String::from_str(name),
        status: if ok {
            String::from_str("normal")
        } else {
            String::from_str("abnormal")
        },
        detail,
    }
}

/// An owned copy of an item.
pub fn copy_item(it: &InspectionItem) -> (c: InspectionItem)
    ensures
        c == *it,
{
    InspectionItem {
        name: it.name.clone(),
        status: it.status.clone(),
        detail: crate::agent::config::clone_opt(&it.detail),
    }
}

/// An owned copy of a list of items.
pub fn copy_items(items: &Vec<InspectionItem>) -> (c: Vec<InspectionItem>)
    ensures
        c@ == items@,
{
    let mut c: Vec<InspectionItem> = Vec::new();
    let mut i: usize = 0;
    while i < items.len()
        invariant
            i <= items@.len(),
            c@ == items@.take(i as int),
        decreases items@.len() - i,
    {
        c.push(copy_item(&items[i]));
        assert(items@.take(i as int).push(items@[i as int]) =~= items@.take(i + 1));
        i += 1;
    }
    assert(items@.take(items@.len() as int) =~= items@);
    c
}

/// Whether some item is not normal.
pub open spec fn any_abnormal(items: Seq<InspectionItem>) -> bool {
    exists|i: int| 0 <= i < items.len() && (#[trigger] items[i]).status@ != "normal"@
}

/// Whether some item is not normal.
pub fn has_abnormal(items: &Vec<InspectionItem>) -> (r: bool)
    ensures
        r == any_abnormal(items@),
{
    let mut i: usize = 0;
    while i < items.len()
        invariant
            i <= items@.len(),
            forall|j: int| 0 <= j < i ==> (#[trigger] items@[j]).status@ == "normal"@,
        decreases items@.len() - i,
    {
        if !str_eq(items[i].status.as_str(), "normal") {
            return true;
        }
        i += 1;
    }
    false
}

/// The facts the inspection reads from the machine; the sizes are
/// already written out for display.
pub struct MachineFacts {
    pub first_cpu_brand: Option<String>,
    pub total_memory_bytes: u64,
    pub memory_detail: String,
    pub total_disk_bytes: u64,
    pub disk_detail: String,
    pub network_ok: bool,
    pub network_detail: String,
}

/// The processor model shown: the first processor's trimmed brand, or
/// `unknown` when there is none or it is blank.
pub open spec fn shown_cpu(brand: Option<String>) -> Seq<char> {
    match brand {
        Some(b) => if trim(b@).len() > 0 {
            trim(b@)
        } else {
            "unknown"@
        },
        None => "unknown"@,
    }
}

/// Whether an item has the given name, status and detail text.
pub open spec fn item_is(it: InspectionItem, name: Seq<char>, ok: bool, detail: Seq<char>) -> bool {
    &&& it.name@ == name
    &&& it.status@ == status_word(ok)
    &&& it.detail matches Some(d) && d@ == detail
}

/// The inspection's items for a device and the facts read from the
/// machine: device id, processor, memory, disk, network, keyboard, mouse.
pub fn inspection_items(device_id: &str, facts: MachineFacts) -> (items: Vec<InspectionItem>)
    ensures
        items@.len() == 7,
        item_is(
            items@[0],
            "设备编号"@,
            trim(device_id@).len() > 0,
            if trim(device_id@).len() > 0 {
                device_id@
            } else {
                "缺少设备编号"@
            },
        ),
        item_is(
            items@[1],
            "CPU 型号"@,
            shown_cpu(facts.first_cpu_brand) != "unknown"@,
            shown_cpu(facts.first_cpu_brand),
        ),
        item_is(items@[2], "内存容量"@, facts.total_memory_bytes > 0, facts.memory_detail@),
        item_is(items@[3], "磁盘容量"@, facts.total_disk_bytes > 0, facts.disk_detail@),
        item_is(items@[4], "网络连通"@, facts.network_ok, facts.network_detail@),
        item_is(items@[5], "键盘连接"@, true, "已检测到输入设备"@),
        item_is(items@[6], "鼠标连接"@, true, "已检测到输入设备"@),
{
    let mut items: Vec<InspectionItem> = Vec::new();
    let trimmed = trim_str(device_id);
    let device_ok = !trimmed.as_str().is_empty();
    items.push(
        item(
            "设备编号",
            device_ok,
            if device_ok {
                Some(String::from_str(device_id))
            } else {
                Some(String::from_str("缺少设备编号"))
            },
        ),
    );
    let cpu = match &facts.first_cpu_brand {
        Some(b) => {
            let t = trim_str(b.as_str());
            if t.as_str().is_empty() {
                String::from_str("unknown")
            } else {
                t
            }
        },
        None => String::from_str("unknown"),
    };
    let cpu_ok = !str_eq(cpu.as_str(), "unknown");
    items.push(item("CPU 型号", cpu_ok, Some(cpu)));
    items.push(item("内存容量", facts.total_memory_bytes > 0, Some(facts.memory_detail)));
    items.push(item("磁盘容量", facts.total_disk_bytes > 0, Some(facts.disk_detail)));
    items.push(item("网络连通", facts.network_ok, Some(facts.network_detail)));
    items.push(item("键盘连接", true, Some(String::from_str("已检测到输入设备"))));
    items.push(item("鼠标连接", true, Some(String::from_str("已检测到输入设备"))));
    items
}

/// The report of an inspection: its items and whether any is abnormal, or
/// no items, abnormal, and the error when it could not run.
pub fn collect(result: Result<Vec<InspectionItem>, String>) -> (r: InspectionReport)
    ensures
        result matches Ok(items) ==> r.items == items && r.is_abnormal == any_abnormal(items@)
            && r.error is None,
        result matches Err(e) ==> r.items@.len() == 0 && r.is_abnormal && r.error == Some(e),
{
    match result {
        Ok(items) => {
            let abnormal = has_abnormal(&items);
            InspectionReport { items, is_abnormal: abnormal, error: None }
        },
        Err(e) => InspectionReport { items: Vec::new(), is_abnormal: true, error: Some(e) },
    }
}

/// `s` without its trailing slashes.
pub open spec fn trim_trailing_slashes(s: Seq<char>) -> Seq<char>
    decreases s.len(),
{
    if s.len() > 0 && s.last() == '/' {
        trim_trailing_slashes(s.drop_last())
    } else {
        s
    }
}

/// The health check address of a server: its address without trailing slashes, then `/api/health`.
pub fn health_url(server_url: &str) -> (r: String)
    ensures
        r@ == trim_trailing_slashes(server_url@) + "/api/health"@,
{
    let v = crate::text::chars_of(server_url);
    let mut end: usize = v.len();
    assert(v@.take(v@.len() as int) =~= v@);
    while end > 0 && v[end - 1] == '/'
        invariant
            end <= v@.len(),
            v@ == server_url@,
            trim_trailing_slashes(v@.take(end as int)) == trim_trailing_slashes(server_url@),
        decreases end,
    {
        assert(v@.take(end as int).drop_last() =~= v@.take(end - 1));
        end -= 1;
    }
    let head = crate::text::char_range(v.as_slice(), 0, end);
    assert(head@ =~= v@.take(end as int));
    let mut r = crate::text::string_of_chars(head.as_slice());
    r.append("/api/health");
    r
}

} // verus!
