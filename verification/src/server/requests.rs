//! The request and query bodies the teacher server accepts, and the small
//! answers it builds from them.
use vstd::prelude::*;

verus! {

/// One inspection item sent with a check-in.
#[derive(Debug)]
pub struct InspectionItemRequest {
    pub name: String,
    pub status: String,
    pub detail: Option<String>,
}

/// A check-in as the server receives it.
#[derive(Debug)]
pub struct CheckInRequest {
    pub device_id: String,
    pub student_id: Option<String>,
    pub timestamp: Option<u64>,
    pub inspection_items: Option<Vec<InspectionItemRequest>>,
    pub is_abnormal: Option<bool>,
}

/// A teacher's late check-in for a student.
#[derive(Debug)]
pub struct RetroactiveRequest {
    pub student_id: String,
    pub device_id: String,
    pub check_in_time: String,
    pub remarks: Option<String>,
}

/// The day attendance statistics are asked for.
#[derive(Debug)]
pub struct StatisticsQuery {
    pub date: Option<String>,
}

/// The device whose attendance context is asked for.
#[derive(Debug)]
pub struct ContextQuery {
    pub device_id: String,
}

/// The class and day of an attendance board.
#[derive(Debug)]
pub struct BoardQuery {
    pub class_id: Option<String>,
    pub date: Option<String>,
}

/// A student replacing their password.
#[derive(Debug)]
pub struct StudentSetPasswordRequest {
    pub student_id: String,
    pub old_password: String,
    pub new_password: String,
}

/// A class to create or rename.
#[derive(Debug)]
pub struct CreateClassRequest {
    pub name: String,
}

/// Students to put into a class.
#[derive(Debug)]
pub struct AssignStudentsRequest {
    pub student_ids: Vec<String>,
}

/// Devices to put into a class.
#[derive(Debug)]
pub struct AssignDevicesRequest {
    pub device_ids: Vec<String>,
}

/// A mode for a whole class.
#[derive(Debug)]
pub struct ClassModeRequest {
    pub target_mode: String,
    pub operator_name: Option<String>,
}

/// A password for all students of a class.
#[derive(Debug)]
pub struct ResetPasswordsRequest {
    pub password: Option<String>,
}

/// A password for one student.
#[derive(Debug)]
pub struct ResetPasswordRequest {
    pub password: Option<String>,
}

/// An inspection as the server receives it.
#[derive(Debug)]
pub struct InspectionSubmitRequest {
    pub device_id: String,
    pub inspection_type: String,
    pub items: Vec<InspectionItem>,
    pub is_abnormal: bool,
}

/// One inspection item as the server receives it.
#[derive(Debug)]
pub struct InspectionItem {
    pub item_name: String,
    pub status: String,
    pub description: Option<String>,
}

/// The kind of inspections listed.
#[derive(Debug)]
pub struct InspectionQuery {
    pub inspection_type: Option<String>,
}

/// The state of the alerts listed.
#[derive(Debug)]
pub struct AlertQuery {
    pub status: Option<String>,
}

/// How an alert was dealt with.
#[derive(Debug)]
pub struct ResolveAlertRequest {
    pub status: String,
    pub remarks: Option<String>,
}

/// The device whose guard policies are listed.
#[derive(Debug)]
pub struct PolicyQuery {
    pub device_id: Option<String>,
}

/// The counts on the dashboard.
#[derive(Debug)]
pub struct DashboardOverview {
    pub student_count: i64,
    pub registered_device_count: i64,
    pub online_device_count: i64,
    pub offline_device_count: i64,
}

} // verus!
