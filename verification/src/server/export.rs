//! The CSV exports of the teacher server: usage sessions, attendance and
//! inspections.
use vstd::prelude::*;
use vstd::string::StringExecFns;
use crate::text::{seq_contains, contains_str, replace_all, replace_str, decimal, digit_char, u64_to_decimal};

verus! {

/// A cell of the usage export: quoted, with inner quotes doubled, when it
/// holds a comma, a quote or a line feed; as it is otherwise.
pub open spec fn spec_csv_cell(value: Seq<char>) -> Seq<char> {
    if seq_contains(value, ","@) || seq_contains(value, "\""@) || seq_contains(value, "\n"@) {
        "\""@ + replace_all(value, "\""@, "\"\""@) + "\""@
    } else {
        value
    }
}

/// A CSV cell for a value.
pub fn csv_cell(value: &str) -> (r: String)
    ensures
        r@ == spec_csv_cell(value@),
{
    if contains_str(value, ",") || contains_str(value, "\"") || contains_str(value, "\n") {
        proof {
            reveal_strlit("\"");
        }
        let inner = replace_str(value, "\"", "\"\"");
        let mut r = String::from_str("\"");
        r.append(inner.as_str());
        r.append("\"");
        r
    } else {
        String::from_str(value)
    }
}

/// A number written with at least two digits.
pub open spec fn two_digits(n: nat) -> Seq<char> {
    if n < 10 {
        "0"@ + decimal(n)
    } else {
        decimal(n)
    }
}

/// A duration in seconds as `HH:MM:SS` (hours may take more digits); empty
/// when unknown or negative.
pub open spec fn spec_format_duration(seconds: Option<i64>) -> Seq<char> {
    match seconds {
        Some(s) => if s >= 0 {
            two_digits((s / 3600) as nat) + ":"@ + two_digits(((s % 3600) / 60) as nat) + ":"@
                + two_digits((s % 60) as nat)
        } else {
            Seq::empty()
        },
        None => Seq::empty(),
    }
}

/// A number written with at least two digits.
fn pad2(n: u64) -> (r: String)
    ensures
        r@ == two_digits(n as nat),
{
    if n < 10 {
        let mut r = String::from_str("0");
        let d = u64_to_decimal(n);
        r.append(d.as_str());
        r
    } else {
        u64_to_decimal(n)
    }
}

/// A duration as `HH:MM:SS`.
pub fn format_duration(seconds: Option<i64>) -> (r: String)
    ensures
        r@ == spec_format_duration(seconds),
{
    match seconds {
        Some(s) => {
            if s >= 0 {
                let u = s as u64;
                let mut r = pad2(u / 3600);
                r.append(":");
                let m = pad2((u % 3600) / 60);
                r.append(m.as_str());
                r.append(":");
                let sec = pad2(u % 60);
                r.append(sec.as_str());
                r
            } else {
                String::new()
            }
        },
        None => String::new(),
    }
}

/// A usage session as exported.
#[derive(Debug)]
pub struct UsageExportRow {
    pub device_id: String,
    pub device_name: Option<String>,
    pub class_name: Option<String>,
    pub seat_no: Option<String>,
    pub user_name: String,
    pub start_time: String,
    pub end_time: Option<String>,
    pub duration_seconds: Option<i64>,
    pub inspection_ok: bool,
    pub inspection_summary: Option<String>,
}

/// The characters of an optional string, or `default`.
pub open spec fn or_text(o: Option<String>, default: Seq<char>) -> Seq<char> {
    match o {
        Some(s) => s@,
        None => default,
    }
}

/// The inspection column of a usage session.
pub open spec fn usage_inspection_text(r: UsageExportRow) -> Seq<char> {
    if r.inspection_ok {
        "正常"@
    } else {
        or_text(r.inspection_summary, "异常"@)
    }
}

/// One line of the usage export.
pub open spec fn usage_line(r: UsageExportRow) -> Seq<char> {
    spec_csv_cell(or_text(r.device_name, r.device_id@)) + ","@ + spec_csv_cell(
        or_text(r.class_name, Seq::empty()),
    ) + ","@ + spec_csv_cell(or_text(r.seat_no, Seq::empty())) + ","@ + spec_csv_cell(
        r.user_name@,
    ) + ","@ + spec_csv_cell(r.start_time@) + ","@ + spec_csv_cell(
        or_text(r.end_time, Seq::empty()),
    ) + ","@ + spec_csv_cell(spec_format_duration(r.duration_seconds)) + ","@ + spec_csv_cell(
        usage_inspection_text(r),
    ) + "\n"@
}

/// The header of the usage export, after a byte order mark.
pub open spec fn usage_header() -> Seq<char> {
    "\u{feff}设备,班级,座位号,使用人,开始时间,结束时间,使用时长,检查结果\n"@
}

/// The lines of a list of rows, first to last.
pub open spec fn usage_lines(rows: Seq<UsageExportRow>) -> Seq<char>
    decreases rows.len(),
{
    if rows.len() == 0 {
        Seq::empty()
    } else {
        usage_lines(rows.drop_last()) + usage_line(rows.last())
    }
}

/// The text of an optional string, or `default`.
fn text_or(o: &Option<String>, default: &str) -> (r: String)
    ensures
        r@ == or_text(*o, default@),
{
    match o {
        Some(s) => s.clone(),
        None => String::from_str(default),
    }
}

/// Appends a cell and a separator.
fn push_cell(out: &mut String, value: &str, sep: &str)
    ensures
        final(out)@ == old(out)@ + spec_csv_cell(value@) + sep@,
{
    let c = csv_cell(value);
    out.append(c.as_str());
    out.append(sep);
}

/// One line of the usage export.
fn usage_row_line(r: &UsageExportRow) -> (line: String)
    ensures
        line@ == usage_line(*r),
{
    let device = text_or(&r.device_name, r.device_id.as_str());
    let class_name = text_or(&r.class_name, "");
    let seat = text_or(&r.seat_no, "");
    let end = text_or(&r.end_time, "");
    let dur = format_duration(r.duration_seconds);
    let inspection = if r.inspection_ok {
        String::from_str("正常")
    } else {
        text_or(&r.inspection_summary, "异常")
    };
    let mut line = String::new();
    push_cell(&mut line, device.as_str(), ",");
    let ghost l1 = line@;
    push_cell(&mut line, class_name.as_str(), ",");
    let ghost l2 = line@;
    push_cell(&mut line, seat.as_str(), ",");
    let ghost l3 = line@;
    push_cell(&mut line, r.user_name.as_str(), ",");
    let ghost l4 = line@;
    push_cell(&mut line, r.start_time.as_str(), ",");
    let ghost l5 = line@;
    push_cell(&mut line, end.as_str(), ",");
    let ghost l6 = line@;
    push_cell(&mut line, dur.as_str(), ",");
    let ghost l7 = line@;
    push_cell(&mut line, inspection.as_str(), "\n");
    proof {
        reveal_strlit("");
        assert(""@ =~= Seq::<char>::empty());
        let c1 = spec_csv_cell(or_text(r.device_name, r.device_id@));
        let c2 = spec_csv_cell(or_text(r.class_name, Seq::empty()));
        let c3 = spec_csv_cell(or_text(r.seat_no, Seq::empty()));
        let c4 = spec_csv_cell(r.user_name@);
        let c5 = spec_csv_cell(r.start_time@);
        let c6 = spec_csv_cell(or_text(r.end_time, Seq::empty()));
        let c7 = spec_csv_cell(spec_format_duration(r.duration_seconds));
        let c8 = spec_csv_cell(usage_inspection_text(*r));
        assert(l1 =~= c1 + ","@);
        assert(l2 =~= c1 + ","@ + c2 + ","@);
        assert(l3 =~= c1 + ","@ + c2 + ","@ + c3 + ","@);
        assert(l4 =~= c1 + ","@ + c2 + ","@ + c3 + ","@ + c4 + ","@);
        assert(l5 =~= c1 + ","@ + c2 + ","@ + c3 + ","@ + c4 + ","@ + c5 + ","@);
        assert(l6 =~= c1 + ","@ + c2 + ","@ + c3 + ","@ + c4 + ","@ + c5 + ","@ + c6 + ","@);
        assert(l7 =~= c1 + ","@ + c2 + ","@ + c3 + ","@ + c4 + ","@ + c5 + ","@ + c6 + ","@ + c7
            + ","@);
        assert(line@ =~= usage_line(*r));
    }
    line
}

/// The usage export: the header, then one line per session.
pub fn usage_csv(rows: &Vec<UsageExportRow>) -> (csv: String)
    ensures
        csv@ == usage_header() + usage_lines(rows@),
{
    let mut csv = String::from_str("\u{feff}设备,班级,座位号,使用人,开始时间,结束时间,使用时长,检查结果\n");
    let mut i: usize = 0;
    assert(rows@.take(0) =~= Seq::<UsageExportRow>::empty());
    while i < rows.len()
        invariant
            i <= rows@.len(),
            csv@ == usage_header() + usage_lines(rows@.take(i as int)),
        decreases rows@.len() - i,
    {
        let line = usage_row_line(&rows[i]);
        csv.append(line.as_str());
        proof {
            assert(rows@.take(i + 1).drop_last() =~= rows@.take(i as int));
            assert(rows@.take(i + 1).last() == rows@[i as int]);
        }
        i += 1;
    }
    assert(rows@.take(rows@.len() as int) =~= rows@);
    csv
}

/// An attendance record as exported.
#[derive(Debug)]
pub struct AttendanceExportRow {
    pub student_name: Option<String>,
    pub student_no: Option<String>,
    pub class_name: Option<String>,
    pub seat_no: Option<String>,
    pub device_id: String,
    pub device_name: Option<String>,
    pub check_in_time: String,
    pub status: String,
}

/// One line of the attendance export (its fields are written as they are).
pub open spec fn attendance_line(r: AttendanceExportRow) -> Seq<char> {
    or_text(r.student_name, Seq::empty()) + ","@ + or_text(r.student_no, Seq::empty()) + ","@
        + or_text(r.class_name, Seq::empty()) + ","@ + or_text(r.seat_no, Seq::empty()) + ","@
        + or_text(r.device_name, r.device_id@) + ","@ + r.check_in_time@ + ","@ + r.status@
        + "\n"@
}

/// The lines of a list of attendance records, first to last.
pub open spec fn attendance_lines(rows: Seq<AttendanceExportRow>) -> Seq<char>
    decreases rows.len(),
{
    if rows.len() == 0 {
        Seq::empty()
    } else {
        attendance_lines(rows.drop_last()) + attendance_line(rows.last())
    }
}

/// The header of the attendance export, after a byte order mark.
pub open spec fn attendance_header() -> Seq<char> {
    "\u{feff}学生姓名,学号,班级,座位号,设备,签到时间,状态\n"@
}

/// The number of attendance records an export asks for: the query's limit, or 10000.
pub fn export_limit(limit: Option<i64>) -> (r: Option<i64>)
    ensures
        limit is Some ==> r == limit,
        limit is None ==> r == Some(10000i64),
{
    match limit {
        Some(l) => Some(l),
        None => Some(10000),
    }
}

/// One line of the attendance export.
fn attendance_row_line(r: &AttendanceExportRow) -> (line: String)
    ensures
        line@ == attendance_line(*r),
{
    let mut line = text_or(&r.student_name, "");
    line.append(",");
    let no = text_or(&r.student_no, "");
    line.append(no.as_str());
    line.append(",");
    let class_name = text_or(&r.class_name, "");
    line.append(class_name.as_str());
    line.append(",");
    let seat = text_or(&r.seat_no, "");
    line.append(seat.as_str());
    line.append(",");
    let device = text_or(&r.device_name, r.device_id.as_str());
    line.append(device.as_str());
    line.append(",");
    line.append(r.check_in_time.as_str());
    line.append(",");
    line.append(r.status.as_str());
    line.append("\n");
    proof {
        reveal_strlit("");
        assert(line@ =~= attendance_line(*r));
    }
    line
}

/// The attendance export: the header, then one line per record.
pub fn attendance_csv(rows: &Vec<AttendanceExportRow>) -> (csv: String)
    ensures
        csv@ == attendance_header() + attendance_lines(rows@),
{
    let mut csv = String::from_str("\u{feff}学生姓名,学号,班级,座位号,设备,签到时间,状态\n");
    let mut i: usize = 0;
    assert(rows@.take(0) =~= Seq::<AttendanceExportRow>::empty());
    while i < rows.len()
        invariant
            i <= rows@.len(),
            csv@ == attendance_header() + attendance_lines(rows@.take(i as int)),
        decreases rows@.len() - i,
    {
        let line = attendance_row_line(&rows[i]);
        csv.append(line.as_str());
        proof {
            assert(rows@.take(i + 1).drop_last() =~= rows@.take(i as int));
            assert(rows@.take(i + 1).last() == rows@[i as int]);
        }
        i += 1;
    }
    assert(rows@.take(rows@.len() as int) =~= rows@);
    csv
}

/// An inspection record as exported.
#[derive(Debug)]
pub struct InspectionExportRow {
    pub id: String,
    pub device_id: String,
    pub device_name: Option<String>,
    pub inspection_type: String,
    pub item_name: String,
    pub status: String,
    pub description: Option<String>,
    pub inspector: Option<String>,
    pub created_at: String,
}

/// One line of the inspection export (its fields are written as they are).
pub open spec fn inspection_line(r: InspectionExportRow) -> Seq<char> {
    r.id@ + ","@ + r.device_id@ + ","@ + or_text(r.device_name, Seq::empty()) + ","@
        + r.inspection_type@ + ","@ + r.item_name@ + ","@ + r.status@ + ","@ + or_text(
        r.description,
        Seq::empty(),
    ) + ","@ + or_text(r.inspector, Seq::empty()) + ","@ + r.created_at@ + "\n"@
}

/// The lines of a list of inspection records, first to last.
pub open spec fn inspection_lines(rows: Seq<InspectionExportRow>) -> Seq<char>
    decreases rows.len(),
{
    if rows.len() == 0 {
        Seq::empty()
    } else {
        inspection_lines(rows.drop_last()) + inspection_line(rows.last())
    }
}

/// The header of the inspection export.
pub open spec fn inspection_header() -> Seq<char> {
    "ID,设备ID,设备名称,检查类型,检查项目,状态,描述,检查人,创建时间\n"@
}

/// One line of the inspection export.
fn inspection_row_line(r: &InspectionExportRow) -> (line: String)
    ensures
        line@ == inspection_line(*r),
{
    let mut line = r.id.clone();
    line.append(",");
    line.append(r.device_id.as_str());
    line.append(",");
    let name = text_or(&r.device_name, "");
    line.append(name.as_str());
    line.append(",");
    line.append(r.inspection_type.as_str());
    line.append(",");
    line.append(r.item_name.as_str());
    line.append(",");
    line.append(r.status.as_str());
    line.append(",");
    let desc = text_or(&r.description, "");
    line.append(desc.as_str());
    line.append(",");
    let inspector = text_or(&r.inspector, "");
    line.append(inspector.as_str());
    line.append(",");
    line.append(r.created_at.as_str());
    line.append("\n");
    proof {
        reveal_strlit("");
        assert(line@ =~= inspection_line(*r));
    }
    line
}

/// The inspection export: the header, then one line per record.
pub fn inspection_csv(rows: &Vec<InspectionExportRow>) -> (csv: String)
    ensures
        csv@ == inspection_header() + inspection_lines(rows@),
{
    let mut csv = String::from_str("ID,设备ID,设备名称,检查类型,检查项目,状态,描述,检查人,创建时间\n");
    let mut i: usize = 0;
    assert(rows@.take(0) =~= Seq::<InspectionExportRow>::empty());
    while i < rows.len()
        invariant
            i <= rows@.len(),
            csv@ == inspection_header() + inspection_lines(rows@.take(i as int)),
        decreases rows@.len() - i,
    {
        let line = inspection_row_line(&rows[i]);
        csv.append(line.as_str());
        proof {
            assert(rows@.take(i + 1).drop_last() =~= rows@.take(i as int));
            assert(rows@.take(i + 1).last() == rows@[i as int]);
        }
        i += 1;
    }
    assert(rows@.take(rows@.len() as int) =~= rows@);
    csv
}

/// A cell that needs no quoting is written as it is; a quoted cell starts
/// and ends with a quote.
pub proof fn lemma_csv_cell_shape(value: Seq<char>)
    ensures
        !(seq_contains(value, ","@) || seq_contains(value, "\""@) || seq_contains(value, "\n"@))
            ==> spec_csv_cell(value) == value,
        (seq_contains(value, ","@) || seq_contains(value, "\""@) || seq_contains(value, "\n"@))
            ==> spec_csv_cell(value).len() >= 2 && spec_csv_cell(value)[0] == '"'
            && spec_csv_cell(value).last() == '"',
{
    reveal_strlit("\"");
}

/// Whether a character is a decimal digit.
pub open spec fn is_digit(c: char) -> bool {
    48 <= (c as int) <= 57
}

/// The number a decimal digit character stands for.
pub open spec fn digit_value(c: char) -> int {
    (c as int) - 48
}

/// Whether every character of `s` is a decimal digit.
pub open spec fn all_digits(s: Seq<char>) -> bool {
    forall|i: int| 0 <= i < s.len() ==> is_digit(#[trigger] s[i])
}

/// The number a string of decimal digits stands for (0 for no digits).
pub open spec fn digits_value(s: Seq<char>) -> int
    decreases s.len(),
{
    if s.len() == 0 {
        0
    } else {
        digits_value(s.drop_last()) * 10 + digit_value(s.last())
    }
}

/// Whether `t` is a duration `H:MM:SS` that stands for `s` seconds: hours
/// of at least two digits, minutes and seconds of two digits each and below
/// 60, together making up `s`.
pub open spec fn denotes_duration(t: Seq<char>, s: int) -> bool {
    exists|h: Seq<char>, m: Seq<char>, sec: Seq<char>|
        #![trigger digits_value(h), digits_value(m), digits_value(sec)]
        {
            &&& t == h + ":"@ + m + ":"@ + sec
            &&& all_digits(h) && h.len() >= 2
            &&& all_digits(m) && m.len() == 2
            &&& all_digits(sec) && sec.len() == 2
            &&& digits_value(m) < 60 && digits_value(sec) < 60
            &&& digits_value(h) * 3600 + digits_value(m) * 60 + digits_value(sec) == s
        }
}

proof fn lemma_digit_char(d: nat)
    requires
        d < 10,
    ensures
        is_digit(digit_char(d)),
        digit_value(digit_char(d)) == d,
{
}

proof fn lemma_decimal_value(n: nat)
    ensures
        all_digits(decimal(n)),
        digits_value(decimal(n)) == n,
        decimal(n).len() >= 1,
        n < 10 ==> decimal(n).len() == 1,
        n >= 10 ==> decimal(n).len() >= 2,
        10 <= n < 100 ==> decimal(n).len() == 2,
    decreases n,
{
    lemma_digit_char(n % 10);
    assert(digits_value(Seq::<char>::empty()) == 0);
    if n < 10 {
        assert(decimal(n).drop_last() =~= Seq::<char>::empty());
        assert(decimal(n).last() == digit_char(n));
    } else {
        lemma_decimal_value(n / 10);
        let d = decimal(n / 10);
        assert(decimal(n).drop_last() =~= d);
        assert(decimal(n).last() == digit_char(n % 10));
        assert(digits_value(decimal(n)) == digits_value(d) * 10 + digit_value(digit_char(n % 10)));
        assert forall|i: int| 0 <= i < decimal(n).len() implies is_digit(#[trigger] decimal(n)[i]) by {
            if i < d.len() {
                assert(decimal(n)[i] == d[i]);
            }
        }
    }
}

proof fn lemma_leading_zero(s: Seq<char>)
    ensures
        digits_value(seq!['0'] + s) == digits_value(s),
    decreases s.len(),
{
    assert(digits_value(Seq::<char>::empty()) == 0);
    assert(digit_value('0') == 0);
    if s.len() == 0 {
        assert((seq!['0'] + s).drop_last() =~= Seq::<char>::empty());
        assert((seq!['0'] + s).last() == '0');
    } else {
        lemma_leading_zero(s.drop_last());
        assert((seq!['0'] + s).drop_last() =~= seq!['0'] + s.drop_last());
        assert((seq!['0'] + s).last() == s.last());
        assert(digits_value(seq!['0'] + s) == digits_value(seq!['0'] + s.drop_last()) * 10
            + digit_value(s.last()));
    }
}

proof fn lemma_two_digits_value(n: nat)
    ensures
        all_digits(two_digits(n)),
        digits_value(two_digits(n)) == n,
        two_digits(n).len() >= 2,
        n < 100 ==> two_digits(n).len() == 2,
{
    lemma_decimal_value(n);
    if n < 10 {
        reveal_strlit("0");
        assert("0"@ =~= seq!['0']);
        lemma_leading_zero(decimal(n));
        let t = two_digits(n);
        assert forall|i: int| 0 <= i < t.len() implies is_digit(#[trigger] t[i]) by {
            if i > 0 {
                assert(t[i] == decimal(n)[i - 1]);
            }
        }
    }
}

/// The usage-duration text of a session of `s` seconds: for a known,
/// non-negative duration it is `H:MM:SS` standing for exactly `s` seconds;
/// otherwise it is empty.
pub proof fn lemma_duration_text_denotes_seconds(s: i64)
    ensures
        s >= 0 ==> denotes_duration(spec_format_duration(Some(s)), s as int),
        s < 0 ==> spec_format_duration(Some(s)).len() == 0,
        spec_format_duration(None).len() == 0,
{
    if s >= 0 {
        let hn = (s / 3600) as nat;
        let mn = ((s % 3600) / 60) as nat;
        let sn = (s % 60) as nat;
        assert(hn * 3600 + mn * 60 + sn == s && mn < 60 && sn < 60) by (nonlinear_arith)
            requires
                s >= 0,
                hn == s / 3600,
                mn == (s % 3600) / 60,
                sn == s % 60,
        ;
        lemma_two_digits_value(hn);
        lemma_two_digits_value(mn);
        lemma_two_digits_value(sn);
        let h = two_digits(hn);
        let m = two_digits(mn);
        let sec = two_digits(sn);
        assert(spec_format_duration(Some(s)) == h + ":"@ + m + ":"@ + sec);
        assert(digits_value(h) * 3600 + digits_value(m) * 60 + digits_value(sec) == s);
    }
}

} // verus!
