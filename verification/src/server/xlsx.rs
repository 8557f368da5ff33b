//! The spreadsheet exports of the teacher server (students, class seats,
//! the student import template), written with `rust_xlsxwriter`.
//!
//! A sheet is built from a header row (bold) and rows of text; the cells a
//! built sheet holds are stated exactly.  Empty texts leave their cell empty.
use vstd::prelude::*;
use vstd::string::StringExecFns;
use rust_xlsxwriter::{Format, Workbook, Worksheet};

verus! {

#[verifier::external_type_specification]
#[verifier::external_body]
pub struct ExWorksheet(Worksheet);

#[verifier::external_type_specification]
#[verifier::external_body]
pub struct ExWorkbook(Workbook);

/// The cells of a worksheet: (row, column) to the text written there and
/// whether it is bold.
pub uninterp spec fn sheet_cells(ws: Worksheet) -> Map<(u32, u16), (Seq<char>, bool)>;

/// The column widths set on a worksheet, in character units.
pub uninterp spec fn sheet_widths(ws: Worksheet) -> Map<u16, u16>;

/// The sheets of a workbook, in order: each sheet's cells and column widths.
pub uninterp spec fn workbook_sheets(wb: Workbook) -> Seq<
    (Map<(u32, u16), (Seq<char>, bool)>, Map<u16, u16>),
>;

/// What a worksheet holds: its cells and its column widths.
pub open spec fn sheet_contents(ws: Worksheet) -> (
    Map<(u32, u16), (Seq<char>, bool)>,
    Map<u16, u16>,
) {
    (sheet_cells(ws), sheet_widths(ws))
}

/// The first row number Excel does not have.
pub const ROW_LIMIT: u32 = 1048576;

/// The first column number Excel does not have.
pub const COL_LIMIT: u16 = 16384;

/// The longest text a cell takes, in characters.
pub const MAX_CELL_CHARS: usize = 32767;

/// A sheet without cells.
pub open spec fn no_cells() -> Map<(u32, u16), (Seq<char>, bool)> {
    Map::empty()
}

/// A sheet without column widths.
pub open spec fn no_widths() -> Map<u16, u16> {
    Map::empty()
}

/// Whether non-empty text can be written into a cell: the cell is within
/// Excel's rows and columns and the text within 32767 characters.
pub open spec fn cell_writable(row: u32, col: u16, text: Seq<char>) -> bool {
    row < ROW_LIMIT && col < COL_LIMIT && text.len() <= MAX_CELL_CHARS
}

/// The cells after writing `text` into a cell: empty text changes nothing.
pub open spec fn with_cell(
    cells: Map<(u32, u16), (Seq<char>, bool)>,
    row: u32,
    col: u16,
    text: Seq<char>,
    bold: bool,
) -> Map<(u32, u16), (Seq<char>, bool)> {
    if text.len() > 0 {
        cells.insert((row, col), (text, bold))
    } else {
        cells
    }
}

/// An empty worksheet (`Worksheet::new`).
#[verifier::external_body]
fn new_sheet() -> (ws: Worksheet)
    ensures
        sheet_cells(ws) == no_cells(),
        sheet_widths(ws) == no_widths(),
{
    Worksheet::new()
}

/// Writes text into a cell (`Worksheet::write_string`): empty text writes
/// nothing; other text fails outside Excel's rows and columns or beyond
/// 32767 characters, and otherwise becomes the cell's plain text.
#[verifier::external_body]
fn write_cell(ws: &mut Worksheet, row: u32, col: u16, text: &str) -> (r: Result<(), String>)
    ensures
        sheet_widths(*final(ws)) == sheet_widths(*old(ws)),
        r is Ok <==> (text@.len() == 0 || cell_writable(row, col, text@)),
        r is Ok ==> sheet_cells(*final(ws)) == with_cell(sheet_cells(*old(ws)), row, col, text@, false),
{
    ws.write_string(row, col, text).map(|_| ()).map_err(|e| e.to_string())
}

/// Writes text into a cell in bold (`Worksheet::write_string_with_format`
/// with a bold `Format`); it fails as `write_cell` does.
#[verifier::external_body]
fn write_bold_cell(ws: &mut Worksheet, row: u32, col: u16, text: &str) -> (r: Result<(), String>)
    requires
        text@.len() > 0,
    ensures
        sheet_widths(*final(ws)) == sheet_widths(*old(ws)),
        r is Ok <==> cell_writable(row, col, text@),
        r is Ok ==> sheet_cells(*final(ws)) == with_cell(sheet_cells(*old(ws)), row, col, text@, true),
{
    ws.write_string_with_format(row, col, text, &Format::new().set_bold()).map(|_| ()).map_err(
        |e| e.to_string(),
    )
}

/// Sets a column's width (`Worksheet::set_column_width`); it fails outside
/// Excel's columns.
#[verifier::external_body]
fn set_width(ws: &mut Worksheet, col: u16, width: u16) -> (r: Result<(), String>)
    requires
        width > 0,
    ensures
        sheet_cells(*final(ws)) == sheet_cells(*old(ws)),
        r is Ok <==> col < COL_LIMIT,
        r is Ok ==> sheet_widths(*final(ws)) == sheet_widths(*old(ws)).insert(col, width),
{
    ws.set_column_width(col, width).map(|_| ()).map_err(|e| e.to_string())
}

/// An empty workbook (`Workbook::new`): it has no sheets.
#[verifier::external_body]
fn new_workbook() -> (wb: Workbook)
    ensures
        workbook_sheets(wb).len() == 0,
{
    Workbook::new()
}

/// Adds a worksheet to a workbook (`Workbook::push_worksheet`): it becomes
/// the last sheet, with its cells and widths; only a missing sheet name is
/// filled in.
#[verifier::external_body]
fn push_sheet(wb: &mut Workbook, ws: Worksheet)
    ensures
        workbook_sheets(*final(wb)) == workbook_sheets(*old(wb)).push(sheet_contents(ws)),
{
    wb.push_worksheet(ws);
}

/// Whether bytes begin as a ZIP archive does: with the signature of a local
/// file header, `PK` followed by 3 and 4.
pub open spec fn starts_as_zip(b: Seq<u8>) -> bool {
    &&& b.len() >= 4
    &&& b[0] == 0x50u8
    &&& b[1] == 0x4bu8
    &&& b[2] == 3u8
    &&& b[3] == 4u8
}

/// The file a workbook is saved as (`Workbook::save_to_buffer`).  It is
/// written by `zip::ZipWriter` into an empty buffer, whose first entry's
/// local header comes first, so a saved file starts as a ZIP archive.  The
/// file also records when it was made, so nothing more is stated of its
/// bytes, nor when saving fails.
#[verifier::external_body]
fn save_workbook(wb: &mut Workbook) -> (r: Result<Vec<u8>, String>)
    ensures
        r matches Ok(b) ==> starts_as_zip(b@),
{
    wb.save_to_buffer().map_err(|e| e.to_string())
}

/// The workbook whose only sheet is `ws`.
pub fn workbook_of(ws: Worksheet) -> (wb: Workbook)
    ensures
        workbook_sheets(wb) == seq![sheet_contents(ws)],
{
    let mut wb = new_workbook();
    push_sheet(&mut wb, ws);
    wb
}

/// The spreadsheet file holding one worksheet: the workbook of that sheet
/// alone (`workbook_of`), saved; an xlsx package, which is a ZIP archive.
pub fn sheet_to_xlsx(ws: Worksheet) -> (r: Result<Vec<u8>, String>)
    ensures
        r matches Ok(b) ==> starts_as_zip(b@),
{
    let mut wb = workbook_of(ws);
    save_workbook(&mut wb)
}

/// A row's texts put into a cell map at row `r`, left to right; empty
/// texts leave their cell as it was.
pub open spec fn put_row(
    m: Map<(u32, u16), (Seq<char>, bool)>,
    r: u32,
    texts: Seq<Seq<char>>,
    bold: bool,
) -> Map<(u32, u16), (Seq<char>, bool)>
    decreases texts.len(),
{
    if texts.len() == 0 {
        m
    } else {
        with_cell(put_row(m, r, texts.drop_last(), bold), r, (texts.len() - 1) as u16, texts.last(), bold)
    }
}

/// The cells of a sheet with a bold header row and then the rows.
pub open spec fn table_cells(header: Seq<Seq<char>>, rows: Seq<Seq<Seq<char>>>) -> Map<
    (u32, u16),
    (Seq<char>, bool),
>
    decreases rows.len(),
{
    if rows.len() == 0 {
        put_row(no_cells(), 0, header, true)
    } else {
        put_row(table_cells(header, rows.drop_last()), rows.len() as u32, rows.last(), false)
    }
}

/// Whether the first `n` columns have the widths `w`.
pub open spec fn widths_set(m: Map<u16, u16>, w: Seq<u16>, n: int) -> bool {
    forall|k: int| 0 <= k < n ==> #[trigger] m.contains_key(k as u16) && m[k as u16] == w[k]
}

/// Whether a row's non-empty texts can be written at row `r`.
pub open spec fn row_writable(r: u32, texts: Seq<Seq<char>>) -> bool {
    forall|c: int|
        0 <= c < texts.len() && (#[trigger] texts[c]).len() > 0 ==> c < COL_LIMIT && cell_writable(
            r,
            c as u16,
            texts[c],
        )
}

/// Whether a whole table can be written: the header at row 0 and row `i` at `i + 1`.
pub open spec fn table_writable(header: Seq<Seq<char>>, rows: Seq<Seq<Seq<char>>>) -> bool {
    row_writable(0, header) && forall|i: int|
        0 <= i < rows.len() ==> row_writable((i + 1) as u32, #[trigger] rows[i])
}

/// The texts of a row of strings.
pub open spec fn texts(row: Seq<String>) -> Seq<Seq<char>> {
    row.map_values(|s: String| s@)
}

/// The texts of a table of strings.
pub open spec fn table_texts(rows: Seq<Vec<String>>) -> Seq<Seq<Seq<char>>> {
    rows.map_values(|r: Vec<String>| texts(r@))
}

/// Writes a row's texts at row `r`.
fn write_row(ws: &mut Worksheet, r: u32, row: &Vec<String>, bold: bool) -> (res: Result<(), String>)
    requires
        row@.len() <= COL_LIMIT,
        bold ==> forall|c: int| 0 <= c < row@.len() ==> (#[trigger] row@[c])@.len() > 0,
    ensures
        sheet_widths(*final(ws)) == sheet_widths(*old(ws)),
        res is Ok <==> row_writable(r, texts(row@)),
        res is Ok ==> sheet_cells(*final(ws)) == put_row(
            sheet_cells(*old(ws)),
            r,
            texts(row@),
            bold,
        ),
{
    let mut c: usize = 0;
    let ghost t = texts(row@);
    assert(t.take(0) =~= Seq::<Seq<char>>::empty());
    while c < row.len()
        invariant
            c <= row@.len() <= COL_LIMIT,
            t == texts(row@),
            bold ==> forall|k: int| 0 <= k < row@.len() ==> (#[trigger] row@[k])@.len() > 0,
            sheet_widths(*ws) == sheet_widths(*old(ws)),
            row_writable(r, t.take(c as int)),
            sheet_cells(*ws) == put_row(sheet_cells(*old(ws)), r, t.take(c as int), bold),
        decreases row@.len() - c,
    {
        let text = row[c].as_str();
        assert(t[c as int] == row@[c as int]@);
        let res = if bold {
            write_bold_cell(ws, r, c as u16, text)
        } else {
            write_cell(ws, r, c as u16, text)
        };
        proof {
            assert(t.take(c + 1).drop_last() =~= t.take(c as int));
            assert(t.take(c + 1).last() == t[c as int]);
        }
        match res {
            Ok(()) => {},
            Err(e) => {
                proof {
                    assert(t.take(c + 1)[c as int] == t[c as int]);
                    assert(!row_writable(r, t.take(c + 1)));
                    assert(!row_writable(r, t)) by {
                        assert(t[c as int] == t.take(c + 1)[c as int]);
                    }
                }
                return Err(e);
            },
        }
        proof {
            assert forall|k: int|
                0 <= k < t.take(c + 1).len() && (#[trigger] t.take(c + 1)[k]).len() > 0 implies k
                < COL_LIMIT && cell_writable(r, k as u16, t.take(c + 1)[k]) by {
                if k < c {
                    assert(t.take(c + 1)[k] == t.take(c as int)[k]);
                }
            }
        }
        c += 1;
    }
    assert(t.take(row@.len() as int) =~= t);
    Ok(())
}

/// A worksheet with `header` in bold on the first row and then `rows`,
/// with the given column widths; it fails exactly when a text cannot be written.
pub fn sheet_from_table(header: &Vec<String>, rows: &Vec<Vec<String>>, widths: &Vec<u16>) -> (r:
    Result<Worksheet, String>)
    requires
        header@.len() <= COL_LIMIT,
        forall|c: int| 0 <= c < header@.len() ==> (#[trigger] header@[c])@.len() > 0,
        forall|i: int| 0 <= i < rows@.len() ==> (#[trigger] rows@[i])@.len() <= COL_LIMIT,
        widths@.len() <= COL_LIMIT,
        forall|c: int| 0 <= c < widths@.len() ==> #[trigger] widths@[c] > 0,
    ensures
        r is Ok <==> table_writable(texts(header@), table_texts(rows@)),
        r matches Ok(ws) ==> sheet_cells(ws) == table_cells(texts(header@), table_texts(rows@)),
        r matches Ok(ws) ==> widths_set(sheet_widths(ws), widths@, widths@.len() as int),
{
    let mut ws = new_sheet();
    let ghost tr = table_texts(rows@);
    let ghost th = texts(header@);
    match write_row(&mut ws, 0, header, true) {
        Ok(()) => {},
        Err(e) => return Err(e),
    }
    assert(put_row(no_cells(), 0, th, true) == table_cells(th, tr.take(0)));
    let mut i: usize = 0;
    while i < rows.len()
        invariant
            i <= rows@.len(),
            tr == table_texts(rows@),
            th == texts(header@),
            forall|k: int| 0 <= k < rows@.len() ==> (#[trigger] rows@[k])@.len() <= COL_LIMIT,
            row_writable(0, th),
            forall|k: int| 0 <= k < i ==> row_writable((k + 1) as u32, #[trigger] tr[k]),
            sheet_cells(ws) == table_cells(th, tr.take(i as int)),
            sheet_widths(ws) == no_widths(),
        decreases rows@.len() - i,
    {
        let row_no = #[verifier::truncate] ((i + 1) as u32);
        assert(tr[i as int] == texts(rows@[i as int]@));
        match write_row(&mut ws, row_no, &rows[i], false) {
            Ok(()) => {},
            Err(e) => {
                assert(!row_writable((i + 1) as u32, tr[i as int]));
                return Err(e);
            },
        }
        proof {
            assert(tr.take(i + 1).drop_last() =~= tr.take(i as int));
            assert(tr.take(i + 1).last() == tr[i as int]);
            assert(tr.take(i + 1).len() == i + 1);
        }
        i += 1;
    }
    assert(tr.take(rows@.len() as int) =~= tr);
    let mut c: usize = 0;
    while c < widths.len()
        invariant
            c <= widths@.len() <= COL_LIMIT,
            forall|k: int| 0 <= k < widths@.len() ==> #[trigger] widths@[k] > 0,
            sheet_cells(ws) == table_cells(th, tr),
            widths_set(sheet_widths(ws), widths@, c as int),
            forall|key: u16| #[trigger] sheet_widths(ws).contains_key(key) ==> key < c,
        decreases widths@.len() - c,
    {
        let ghost before = sheet_widths(ws);
        let res = set_width(&mut ws, c as u16, widths[c]);
        match res {
            Ok(()) => {},
            Err(_) => {
                assert(false);
                return Err(String::new());
            },
        }
        proof {
            assert forall|k: int| 0 <= k < c + 1 implies #[trigger] sheet_widths(ws).contains_key(
                k as u16,
            ) && sheet_widths(ws)[k as u16] == widths@[k] by {
                if k < c {
                    assert((k as u16) != (c as u16));
                    assert(before.contains_key(k as u16) && before[k as u16] == widths@[k]);
                }
            }
        }
        c += 1;
    }
    Ok(ws)
}

/// Strings made from texts.
fn strings_of(items: Vec<&str>) -> (v: Vec<String>)
    ensures
        v@.len() == items@.len(),
        forall|k: int| 0 <= k < items@.len() ==> (#[trigger] v@[k])@ == items@[k]@,
{
    let mut v: Vec<String> = Vec::new();
    let mut i: usize = 0;
    while i < items.len()
        invariant
            i <= items@.len(),
            v@.len() == i,
            forall|k: int| 0 <= k < i ==> (#[trigger] v@[k])@ == items@[k]@,
        decreases items@.len() - i,
    {
        v.push(String::from_str(items[i]));
        i += 1;
    }
    v
}

/// The text of an optional string, or empty.
fn text_or_empty(o: &Option<String>) -> (r: String)
    ensures
        r@ == (match o {
            Some(s) => s@,
            None => Seq::<char>::empty(),
        }),
{
    match o {
        Some(s) => s.clone(),
        None => String::new(),
    }
}

/// The characters of an optional string, or nothing.
pub open spec fn or_empty(o: Option<String>) -> Seq<char> {
    match o {
        Some(s) => s@,
        None => Seq::empty(),
    }
}

/// A student as exported.
#[derive(Debug)]
pub struct StudentExportRow {
    pub student_no: String,
    pub name: String,
    pub class_name: Option<String>,
    pub seat_no: Option<String>,
    pub status: String,
    pub created_at: String,
}

/// The header of the student export.
pub open spec fn student_header() -> Seq<Seq<char>> {
    seq!["学号"@, "姓名"@, "班级"@, "座位号"@, "状态"@, "创建时间"@]
}

/// A student's row in the export.
pub open spec fn student_texts(r: StudentExportRow) -> Seq<Seq<char>> {
    seq![r.student_no@, r.name@, or_empty(r.class_name), or_empty(r.seat_no), r.status@, r.created_at@]
}

/// The rows of the student export.
pub open spec fn student_table(rows: Seq<StudentExportRow>) -> Seq<Seq<Seq<char>>> {
    rows.map_values(|r: StudentExportRow| student_texts(r))
}

/// The student export sheet.
pub fn students_sheet(rows: &Vec<StudentExportRow>) -> (r: Result<Worksheet, String>)
    ensures
        r is Ok <==> table_writable(student_header(), student_table(rows@)),
        r matches Ok(ws) ==> sheet_cells(ws) == table_cells(student_header(), student_table(rows@)),
{
    let header = strings_of(vec!["学号", "姓名", "班级", "座位号", "状态", "创建时间"]);
    let mut table: Vec<Vec<String>> = Vec::new();
    let mut i: usize = 0;
    while i < rows.len()
        invariant
            i <= rows@.len(),
            table@.len() == i,
            table_texts(table@) == student_table(rows@.take(i as int)),
            forall|k: int| 0 <= k < table@.len() ==> (#[trigger] table@[k])@.len() == 6,
        decreases rows@.len() - i,
    {
        let row = &rows[i];
        let mut cells: Vec<String> = Vec::new();
        cells.push(row.student_no.clone());
        cells.push(row.name.clone());
        cells.push(text_or_empty(&row.class_name));
        cells.push(text_or_empty(&row.seat_no));
        cells.push(row.status.clone());
        cells.push(row.created_at.clone());
        proof {
            assert(texts(cells@) =~= student_texts(*row));
        }
        let ghost old_table = table@;
        table.push(cells);
        proof {
            assert forall|k: int| 0 <= k < i + 1 implies #[trigger] table_texts(table@)[k]
                == student_table(rows@.take(i + 1))[k] by {
                if k < i {
                    assert(table@[k] == old_table[k]);
                    assert(table_texts(old_table)[k] == student_table(rows@.take(i as int))[k]);
                }
            }
            assert(table_texts(table@) =~= student_table(rows@.take(i + 1)));
        }
        i += 1;
    }
    assert(rows@.take(rows@.len() as int) =~= rows@);
    let widths: Vec<u16> = Vec::new();
    proof {
        reveal_strlit("学号");
        reveal_strlit("姓名");
        reveal_strlit("班级");
        reveal_strlit("座位号");
        reveal_strlit("状态");
        reveal_strlit("创建时间");
        assert(texts(header@) =~= student_header());
    }
    sheet_from_table(&header, &table, &widths)
}

/// A class's device as exported in its seat sheet.
#[derive(Debug)]
pub struct SeatExportRow {
    pub id: String,
    pub device_name: String,
    pub ip_address: String,
    pub seat_no: Option<String>,
}

/// The header of the class seat sheet.
pub open spec fn seat_header() -> Seq<Seq<char>> {
    seq!["设备ID"@, "设备名"@, "IP"@, "座位号"@]
}

/// A device's row in the class seat sheet.
pub open spec fn seat_texts(r: SeatExportRow) -> Seq<Seq<char>> {
    seq![r.id@, r.device_name@, r.ip_address@, or_empty(r.seat_no)]
}

/// The rows of the class seat sheet.
pub open spec fn seat_table(rows: Seq<SeatExportRow>) -> Seq<Seq<Seq<char>>> {
    rows.map_values(|r: SeatExportRow| seat_texts(r))
}

/// The column widths of the class seat sheet.
pub open spec fn seat_widths() -> Seq<u16> {
    seq![36u16, 18u16, 16u16, 12u16]
}

/// The class seat sheet.
pub fn class_seats_sheet(rows: &Vec<SeatExportRow>) -> (r: Result<Worksheet, String>)
    ensures
        r is Ok <==> table_writable(seat_header(), seat_table(rows@)),
        r matches Ok(ws) ==> sheet_cells(ws) == table_cells(seat_header(), seat_table(rows@)),
        r matches Ok(ws) ==> widths_set(sheet_widths(ws), seat_widths(), 4),
{
    let header = strings_of(vec!["设备ID", "设备名", "IP", "座位号"]);
    let mut table: Vec<Vec<String>> = Vec::new();
    let mut i: usize = 0;
    while i < rows.len()
        invariant
            i <= rows@.len(),
            table@.len() == i,
            table_texts(table@) == seat_table(rows@.take(i as int)),
            forall|k: int| 0 <= k < table@.len() ==> (#[trigger] table@[k])@.len() == 4,
        decreases rows@.len() - i,
    {
        let row = &rows[i];
        let mut cells: Vec<String> = Vec::new();
        cells.push(row.id.clone());
        cells.push(row.device_name.clone());
        cells.push(row.ip_address.clone());
        cells.push(text_or_empty(&row.seat_no));
        proof {
            assert(texts(cells@) =~= seat_texts(*row));
        }
        let ghost old_table = table@;
        table.push(cells);
        proof {
            assert forall|k: int| 0 <= k < i + 1 implies #[trigger] table_texts(table@)[k]
                == seat_table(rows@.take(i + 1))[k] by {
                if k < i {
                    assert(table@[k] == old_table[k]);
                    assert(table_texts(old_table)[k] == seat_table(rows@.take(i as int))[k]);
                }
            }
            assert(table_texts(table@) =~= seat_table(rows@.take(i + 1)));
        }
        i += 1;
    }
    assert(rows@.take(rows@.len() as int) =~= rows@);
    let widths: Vec<u16> = vec![36, 18, 16, 12];
    proof {
        reveal_strlit("设备ID");
        reveal_strlit("设备名");
        reveal_strlit("IP");
        reveal_strlit("座位号");
        assert(texts(header@) =~= seat_header());
        assert(widths@ =~= seat_widths());
    }
    sheet_from_table(&header, &table, &widths)
}

/// The header of the student import template.
pub open spec fn template_header() -> Seq<Seq<char>> {
    seq!["学号"@, "姓名"@, "班级"@, "座位号"@, "密码"@]
}

/// The example row of the student import template.
pub open spec fn template_example() -> Seq<Seq<char>> {
    seq!["S0001"@, "张三"@, "请填写已有班级名称"@, "请填写该班设备已分配的座位号"@, "123456"@]
}

/// The column widths of the student import template.
pub open spec fn template_widths() -> Seq<u16> {
    seq![16u16, 12u16, 24u16, 36u16, 12u16]
}

/// The student import template sheet: the header and one example row.
pub fn import_template_sheet() -> (r: Result<Worksheet, String>)
    ensures
        r matches Ok(ws) ==> sheet_cells(ws) == table_cells(template_header(), seq![template_example()])
            && widths_set(sheet_widths(ws), template_widths(), 5),
        r is Ok <==> table_writable(template_header(), seq![template_example()]),
{
    let header = strings_of(vec!["学号", "姓名", "班级", "座位号", "密码"]);
    let example = strings_of(vec!["S0001", "张三", "请填写已有班级名称", "请填写该班设备已分配的座位号", "123456"]);
    let mut table: Vec<Vec<String>> = Vec::new();
    table.push(example);
    let widths: Vec<u16> = vec![16, 12, 24, 36, 12];
    proof {
        reveal_strlit("学号");
        reveal_strlit("姓名");
        reveal_strlit("班级");
        reveal_strlit("座位号");
        reveal_strlit("密码");
        assert(texts(header@) =~= template_header());
        assert(texts(table@[0]@) =~= template_example());
        assert(table_texts(table@) =~= seq![template_example()]);
        assert(widths@ =~= template_widths());
    }
    sheet_from_table(&header, &table, &widths)
}

} // verus!
