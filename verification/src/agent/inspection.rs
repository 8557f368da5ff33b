//! The machine inspection a student submits: the standard checklists, the
//! request, and the server's answer.
use vstd::prelude::*;
use vstd::string::StringExecFns;
use super::config::{Config, view_or};
pub use super::api::ApiResponse;
use super::api::failure_message;

verus! {

/// One checked item and its state.
#[derive(Debug)]
pub struct InspectionItem {
    pub item_name: String,
    pub status: String,
    pub description: Option<String>,
}

/// An inspection sent to the teacher server.
#[derive(Debug)]
pub struct InspectionSubmitRequest {
    pub device_id: String,
    pub inspection_type: String,
    pub items: Vec<InspectionItem>,
    pub is_abnormal: bool,
}

/// The teacher server's answer to an inspection.
#[derive(Debug)]
pub struct InspectionSubmitResponse {
    pub record_ids: Vec<String>,
    pub total_items: usize,
    pub abnormal_count: usize,
}

/// Whether the items are, in order, the named items each marked normal with no description.
pub open spec fn all_normal_named(items: Seq<InspectionItem>, names: Seq<Seq<char>>) -> bool {
    &&& items.len() == names.len()
    &&& forall|i: int|
        0 <= i < items.len() ==> {
            &&& (#[trigger] items[i]).item_name@ == names[i]
            &&& items[i].status@ == "normal"@
            &&& items[i].description is None
        }
}

/// An item with the given name marked normal.
fn normal_item(name: &str) -> (it: InspectionItem)
    ensures
        it.item_name@ == name@,
        it.status@ == "normal"@,
        it.description is None,
{
    InspectionItem {
        item_name: String::from_str(name),
        status: String::from_str("normal"),
        description: None,
    }
}

/// The hygiene checklist: keyboard, mouse, monitor, desk, all normal.
pub fn build_hygiene_items() -> (items: Vec<InspectionItem>)
    ensures
        all_normal_named(items@, seq!["keyboard"@, "mouse"@, "monitor"@, "desk"@]),
{
    let mut items: Vec<InspectionItem> = Vec::new();
    items.push(normal_item("keyboard"));
    items.push(normal_item("mouse"));
    items.push(normal_item("monitor"));
    items.push(normal_item("desk"));
    items
}

/// The equipment checklist: camera, microphone, headphone, all normal.
pub fn build_equipment_items() -> (items: Vec<InspectionItem>)
    ensures
        all_normal_named(items@, seq!["camera"@, "microphone"@, "headphone"@]),
{
    let mut items: Vec<InspectionItem> = Vec::new();
    items.push(normal_item("camera"));
    items.push(normal_item("microphone"));
    items.push(normal_item("headphone"));
    items
}

/// The single abnormal item an alert reports.
pub fn abnormal_items(alert_type: &str, description: &str) -> (items: Vec<InspectionItem>)
    ensures
        items@.len() == 1,
        items@[0].item_name@ == alert_type@,
        items@[0].status@ == "abnormal"@,
        items@[0].description matches Some(d) && d@ == description@,
{
    let mut items: Vec<InspectionItem> = Vec::new();
    items.push(
        InspectionItem {
            item_name: String::from_str(alert_type),
            status: String::from_str("abnormal"),
            description: Some(String::from_str(description)),
        },
    );
    items
}

/// The inspection request this machine sends.
pub fn inspection_request(
    config: &Config,
    inspection_type: &str,
    items: Vec<InspectionItem>,
    is_abnormal: bool,
) -> (r: InspectionSubmitRequest)
    ensures
        r.device_id@ == view_or(config.device_id, Seq::empty()),
        r.inspection_type@ == inspection_type@,
        r.items == items,
        r.is_abnormal == is_abnormal,
{
    InspectionSubmitRequest {
        device_id: match &config.device_id {
            Some(d) => d.clone(),
            None => String::new(),
        },
        inspection_type: String::from_str(inspection_type),
        items,
        is_abnormal,
    }
}

/// The teacher server's answer to an inspection: its summary when the
/// code is 0, else the server's message as the error.
pub fn inspection_result(resp: ApiResponse<InspectionSubmitResponse>) -> (r: Result<
    InspectionSubmitResponse,
    String,
>)
    requires
        resp.code == 0 ==> resp.data is Some,
    ensures
        resp.code == 0 ==> r == Ok::<InspectionSubmitResponse, String>(resp.data->0),
        resp.code != 0 ==> (r matches Err(e) && e@ == "Inspection submit failed: "@
            + resp.message@),
{
    if resp.code == 0 {
        match resp.data {
            Some(d) => Ok(d),
            None => Err(String::new()),
        }
    } else {
        Err(failure_message("Inspection submit failed: ", resp.message.as_str()))
    }
}

} // verus!
