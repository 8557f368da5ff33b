//! The rules of the spreadsheet imports (students, seats, whitelist) and of
//! the classes' bulk operations: which rows are taken, which are refused
//! and with what message, and how failures map to answer codes.
use vstd::prelude::*;
use vstd::string::StringExecFns;
use crate::text::{decimal, seq_contains, contains_str, starts_with_str, str_eq, trim, trim_str, u64_to_decimal};

verus! {

/// `第{line}行：` followed by `rest`: the prefix of every row error.
pub open spec fn row_message(line: nat, rest: Seq<char>) -> Seq<char> {
    "第"@ + decimal(line) + "行："@ + rest
}

/// The error for a row: its line and what is wrong.
pub fn line_error(line: usize, rest: &str) -> (r: String)
    ensures
        r@ == row_message(line as nat, rest@),
{
    let mut r = String::from_str("第");
    let n = u64_to_decimal(line as u64);
    r.append(n.as_str());
    r.append("行：");
    r.append(rest);
    r
}

/// How a spreadsheet row is taken.
#[derive(Debug)]
pub enum RowCheck {
    /// An empty or header row: ignored.
    Skip,
    /// The row is refused and the import stops with this message.
    Reject(String),
    /// The row goes on to the checks against the database.
    Candidate,
}

/// The verdict on a student row: blank rows and the header are ignored;
/// name, class and seat are required, in that order.
pub open spec fn student_row_verdict(
    line: nat,
    student_no: Seq<char>,
    name: Seq<char>,
    class_name: Seq<char>,
    seat_no: Seq<char>,
) -> Option<Option<Seq<char>>> {
    if student_no.len() == 0 && name.len() == 0 && class_name.len() == 0 && seat_no.len() == 0 {
        None
    } else if student_no == "学号"@ || name == "姓名"@ {
        None
    } else if name.len() == 0 {
        Some(Some(row_message(line, "姓名为必填项"@)))
    } else if class_name.len() == 0 {
        Some(Some(row_message(line, "班级为必填项"@)))
    } else if seat_no.len() == 0 {
        Some(Some(row_message(line, "座位号为必填项"@)))
    } else {
        Some(None)
    }
}

/// Whether a row check is the one the verdict gives (`None`: skip;
/// `Some(Some(m))`: refuse with `m`; `Some(None)`: go on).
pub open spec fn row_check_is(r: RowCheck, verdict: Option<Option<Seq<char>>>) -> bool {
    match verdict {
        None => r is Skip,
        Some(Some(m)) => r matches RowCheck::Reject(e) && e@ == m,
        Some(None) => r is Candidate,
    }
}

/// The first checks on a student row (cells already trimmed).
pub fn check_student_row(
    line: usize,
    student_no: &str,
    name: &str,
    class_name: &str,
    seat_no: &str,
) -> (r: RowCheck)
    ensures
        row_check_is(
            r,
            student_row_verdict(line as nat, student_no@, name@, class_name@, seat_no@),
        ),
{
    if student_no.is_empty() && name.is_empty() && class_name.is_empty() && seat_no.is_empty() {
        return RowCheck::Skip;
    }
    if str_eq(student_no, "学号") || str_eq(name, "姓名") {
        return RowCheck::Skip;
    }
    if name.is_empty() {
        return RowCheck::Reject(line_error(line, "姓名为必填项"));
    }
    if class_name.is_empty() {
        return RowCheck::Reject(line_error(line, "班级为必填项"));
    }
    if seat_no.is_empty() {
        return RowCheck::Reject(line_error(line, "座位号为必填项"));
    }
    RowCheck::Candidate
}

/// The error for a row naming a class that does not exist.
pub fn class_missing_message(line: usize, class_name: &str) -> (r: String)
    ensures
        r@ == row_message(line as nat, "班级「"@ + class_name@ + "」不存在"@),
{
    let mut rest = String::from_str("班级「");
    rest.append(class_name);
    rest.append("」不存在");
    line_error(line, rest.as_str())
}

/// The student number a row is imported under: its own, or a generated
/// one when it is blank.
pub fn imported_student_no(student_no: String, generated: String) -> (r: String)
    ensures
        trim(student_no@).len() == 0 ==> r == generated,
        trim(student_no@).len() > 0 ==> r == student_no,
{
    let t = trim_str(student_no.as_str());
    if t.as_str().is_empty() {
        generated
    } else {
        student_no
    }
}

/// Whether a seat is taken by another student.
pub fn seat_taken_by_other(occupant: &Option<String>, student_no: &str) -> (r: bool)
    ensures
        r == (occupant matches Some(o) && o@ != student_no@),
{
    match occupant {
        Some(o) => !str_eq(o.as_str(), student_no),
        None => false,
    }
}

/// The error for a row whose seat is taken by another student.
pub fn seat_occupied_message(line: usize, seat_no: &str, occupant: &str) -> (r: String)
    ensures
        r@ == row_message(line as nat, "座位号 "@ + seat_no@ + " 已被学号 "@ + occupant@ + " 占用"@),
{
    let mut rest = String::from_str("座位号 ");
    rest.append(seat_no);
    rest.append(" 已被学号 ");
    rest.append(occupant);
    rest.append(" 占用");
    line_error(line, rest.as_str())
}

/// The password of an imported student: the row's, or `123456` when blank.
pub fn import_password(password: String) -> (r: String)
    ensures
        password@.len() > 0 ==> r == password,
        password@.len() == 0 ==> r@ == "123456"@,
{
    if password.as_str().is_empty() {
        String::from_str("123456")
    } else {
        password
    }
}

/// A password to set: the one given if not empty, else `123456`.
pub fn password_or_default(password: Option<String>) -> (r: String)
    ensures
        (password matches Some(p) && p@.len() > 0) ==> r == password->0,
        !(password matches Some(p) && p@.len() > 0) ==> r@ == "123456"@,
{
    match password {
        Some(p) => if p.as_str().is_empty() {
            String::from_str("123456")
        } else {
            p
        },
        None => String::from_str("123456"),
    }
}

/// A student row that passed every check.
#[derive(Debug)]
pub struct PendingRow {
    pub line: usize,
    pub student_no: String,
    pub name: String,
    pub password: String,
    pub class_id: String,
    pub seat_no: String,
}

/// Whether two rows claim the same seat of the same class.
pub open spec fn same_seat(a: PendingRow, b: PendingRow) -> bool {
    a.class_id@ == b.class_id@ && a.seat_no@ == b.seat_no@
}

/// Whether row `i` claims a seat an earlier row claimed.
pub open spec fn repeats_earlier(rows: Seq<PendingRow>, i: int) -> bool {
    exists|j: int| 0 <= j < i && same_seat(rows[j], #[trigger] rows[i])
}

/// The first row that claims a seat an earlier row claimed, if any.
pub fn find_duplicate_seat(rows: &Vec<PendingRow>) -> (r: Option<usize>)
    ensures
        r is None ==> forall|i: int| 0 <= i < rows@.len() ==> !repeats_earlier(rows@, i),
        r matches Some(i) ==> i < rows@.len() && repeats_earlier(rows@, i as int) && forall|k: int|
            0 <= k < i ==> !repeats_earlier(rows@, k),
{
    let mut i: usize = 0;
    while i < rows.len()
        invariant
            i <= rows@.len(),
            forall|k: int| 0 <= k < i ==> !repeats_earlier(rows@, k),
        decreases rows@.len() - i,
    {
        let mut j: usize = 0;
        while j < i
            invariant
                i < rows@.len(),
                j <= i,
                forall|k: int| 0 <= k < i ==> !repeats_earlier(rows@, k),
                forall|m: int| 0 <= m < j ==> !same_seat(rows@[m], rows@[i as int]),
            decreases i - j,
        {
            if str_eq(rows[j].class_id.as_str(), rows[i].class_id.as_str()) && str_eq(
                rows[j].seat_no.as_str(),
                rows[i].seat_no.as_str(),
            ) {
                assert(same_seat(rows@[j as int], rows@[i as int]));
                return Some(i);
            }
            j += 1;
        }
        i += 1;
    }
    None
}

/// The last check of a student import: it must have rows, and no two may
/// claim the same seat.
pub fn check_pending_students(rows: &Vec<PendingRow>) -> (r: Result<(), String>)
    ensures
        rows@.len() == 0 ==> (r matches Err(e) && e@ == "导入文件没有有效的学生数据"@),
        rows@.len() > 0 ==> (r is Ok <==> forall|i: int|
            0 <= i < rows@.len() ==> !repeats_earlier(rows@, i)),
        rows@.len() > 0 ==> (r matches Err(e) ==> exists|i: int|
            0 <= i < rows@.len() && repeats_earlier(rows@, i) && (forall|k: int|
                0 <= k < i ==> !repeats_earlier(rows@, k)) && e@ == row_message(
                rows@[i].line as nat,
                "座位号 "@ + rows@[i].seat_no@ + " 在导入文件中重复"@,
            )),
{
    if rows.len() == 0 {
        return Err(String::from_str("导入文件没有有效的学生数据"));
    }
    match find_duplicate_seat(rows) {
        None => Ok(()),
        Some(i) => {
            let mut rest = String::from_str("座位号 ");
            rest.append(rows[i].seat_no.as_str());
            rest.append(" 在导入文件中重复");
            Err(line_error(rows[i].line, rest.as_str()))
        },
    }
}

/// A device and the seat it is given.
#[derive(Debug)]
pub struct SeatAssignment {
    pub device_id: String,
    pub seat_no: String,
}

/// How a seat row is taken.
#[derive(Debug)]
pub enum SeatRowCheck {
    Skip,
    Reject(String),
    Accept(SeatAssignment),
}

/// The check on a seat row (cells already trimmed): blank rows and the
/// header are ignored; the device id and the seat are required.
pub fn check_seat_row(line: usize, device_id: String, seat_no: String) -> (r: SeatRowCheck)
    ensures
        device_id@.len() == 0 && seat_no@.len() == 0 ==> r is Skip,
        !(device_id@.len() == 0 && seat_no@.len() == 0) && device_id@ == "设备ID"@ ==> r is Skip,
        !(device_id@.len() == 0 && seat_no@.len() == 0) && device_id@ != "设备ID"@ ==> {
            &&& device_id@.len() == 0 ==> (r matches SeatRowCheck::Reject(e) && e@ == row_message(
                line as nat,
                "设备ID为必填项"@,
            ))
            &&& device_id@.len() > 0 && seat_no@.len() == 0 ==> (r matches SeatRowCheck::Reject(e)
                && e@ == row_message(line as nat, "座位号为必填项"@))
            &&& device_id@.len() > 0 && seat_no@.len() > 0 ==> (r matches SeatRowCheck::Accept(a)
                && a.device_id == device_id && a.seat_no == seat_no)
        },
{
    if device_id.as_str().is_empty() && seat_no.as_str().is_empty() {
        return SeatRowCheck::Skip;
    }
    if str_eq(device_id.as_str(), "设备ID") {
        return SeatRowCheck::Skip;
    }
    if device_id.as_str().is_empty() {
        return SeatRowCheck::Reject(line_error(line, "设备ID为必填项"));
    }
    if seat_no.as_str().is_empty() {
        return SeatRowCheck::Reject(line_error(line, "座位号为必填项"));
    }
    SeatRowCheck::Accept(SeatAssignment { device_id, seat_no })
}

/// The last check of a seat import: it must have rows.
pub fn check_pending_seats(rows: &Vec<SeatAssignment>) -> (r: Result<(), String>)
    ensures
        rows@.len() == 0 ==> (r matches Err(e) && e@ == "导入文件没有有效的座位数据"@),
        rows@.len() > 0 ==> r is Ok,
{
    if rows.len() == 0 {
        Err(String::from_str("导入文件没有有效的座位数据"))
    } else {
        Ok(())
    }
}

/// Whether a whitelist row is imported: it has a device code.
pub fn whitelist_row_kept(device_code: &str) -> (r: bool)
    ensures
        r == (device_code@.len() > 0),
{
    !device_code.is_empty()
}

/// The answer code for a failed student operation: 400 for the user's
/// mistakes (a required field, a missing class or student, a taken seat,
/// an empty import, a row error), 500 otherwise.
pub open spec fn spec_student_error_code(msg: Seq<char>) -> i32 {
    if seq_contains(msg, "必填"@) || seq_contains(msg, "不存在"@) || seq_contains(msg, "占用"@)
        || seq_contains(msg, "没有有效"@) || "第"@.is_prefix_of(msg) {
        400
    } else {
        500
    }
}

/// The answer code for a failed seat operation: 400 for the user's
/// mistakes (a repeated or taken seat, a device of another class, a
/// required field, an empty import, a row error), 500 otherwise.
pub open spec fn spec_seat_error_code(msg: Seq<char>) -> i32 {
    if seq_contains(msg, "重复"@) || seq_contains(msg, "占用"@) || seq_contains(msg, "不属于"@)
        || seq_contains(msg, "必填"@) || seq_contains(msg, "没有有效"@) || "第"@.is_prefix_of(
        msg,
    ) {
        400
    } else {
        500
    }
}

/// The answer code for a failed student operation.
pub fn student_error_code(msg: &str) -> (code: i32)
    ensures
        code == spec_student_error_code(msg@),
{
    if contains_str(msg, "必填") || contains_str(msg, "不存在") || contains_str(msg, "占用")
        || contains_str(msg, "没有有效") || starts_with_str(msg, "第") {
        400
    } else {
        500
    }
}

/// The answer code for a failed seat operation.
pub fn seat_error_code(msg: &str) -> (code: i32)
    ensures
        code == spec_seat_error_code(msg@),
{
    if contains_str(msg, "重复") || contains_str(msg, "占用") || contains_str(msg, "不属于")
        || contains_str(msg, "必填") || contains_str(msg, "没有有效") || starts_with_str(msg, "第") {
        400
    } else {
        500
    }
}

/// Every row error is answered as the user's mistake.
pub proof fn lemma_row_errors_are_client_errors(line: nat, rest: Seq<char>)
    ensures
        spec_student_error_code(row_message(line, rest)) == 400,
        spec_seat_error_code(row_message(line, rest)) == 400,
{
    let m = row_message(line, rest);
    assert(m.subrange(0, "第"@.len() as int) =~= "第"@);
}

/// The devices that get the check-in command after a class changes mode:
/// in teaching mode the devices that went to teaching, in open mode all
/// the class's devices, otherwise none.
pub fn checkin_targets(
    target_mode: &str,
    device_ids: Vec<String>,
    teaching_device_ids: Vec<String>,
) -> (r: Vec<String>)
    ensures
        target_mode@ == "teaching"@ ==> r == teaching_device_ids,
        target_mode@ == "open"@ ==> r == device_ids,
        target_mode@ != "teaching"@ && target_mode@ != "open"@ ==> r@.len() == 0,
{
    proof {
        reveal_strlit("open");
        reveal_strlit("teaching");
        assert("open"@.len() == 4 && "teaching"@.len() == 8);
    }
    if str_eq(target_mode, "teaching") {
        teaching_device_ids
    } else if str_eq(target_mode, "open") {
        device_ids
    } else {
        Vec::new()
    }
}

} // verus!
