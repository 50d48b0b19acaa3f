//! The first sheet of a workbook as rows of cell texts.
//!
//! Opening a workbook and reading a sheet are left to the caller: the
//! outside reader may stop on a malformed file, and only the caller can
//! contain that. What is decided here is which sheet is read, and what the
//! outcome of the reading means.

use vstd::prelude::*;
use calamine::Reader;
use crate::header::texts;

verus! {

/// `std::io::Cursor`, the in-memory reader that a workbook is opened on.
#[verifier::external_type_specification]
#[verifier::external_body]
#[verifier::reject_recursive_types(T)]
pub struct ExCursor<T>(std::io::Cursor<T>);

/// `calamine::Sheets`, an opened workbook of any supported format.
#[verifier::external_type_specification]
#[verifier::external_body]
#[verifier::reject_recursive_types(RS)]
pub struct ExSheets<RS>(calamine::Sheets<RS>);

/// `calamine::Range`, the rectangle of used cells of one sheet.
#[verifier::external_type_specification]
#[verifier::external_body]
#[verifier::reject_recursive_types(T)]
pub struct ExRange<T>(calamine::Range<T>);

/// `calamine::Data`, the value of one cell.
#[verifier::external_type_specification]
#[verifier::external_body]
pub struct ExData(calamine::Data);

/// The names of the sheets that an opened workbook holds, by position.
pub uninterp spec fn workbook_sheets(book: calamine::Sheets<std::io::Cursor<Vec<u8>>>) -> Seq<Seq<char>>;

/// The rows that a range holds, each cell by its text.
pub uninterp spec fn range_cells(range: calamine::Range<calamine::Data>) -> Seq<Seq<Seq<char>>>;

/// The texts of a table's cells, row by row.
pub open spec fn table_texts(rows: Seq<Vec<String>>) -> Seq<Seq<Seq<char>>> {
    Seq::new(rows.len(), |i: int| texts(rows[i]@))
}

/// Calls `calamine::Reader::sheet_names`, which copies the names out of the
/// metadata that opening the workbook has read. Trusted: the result lists
/// the names of the workbook's sheets by position.
#[verifier::external_body]
fn sheet_names(book: &calamine::Sheets<std::io::Cursor<Vec<u8>>>) -> (r: Vec<String>)
    ensures
        texts(r@) == workbook_sheets(*book),
{
    book.sheet_names()
}

/// Calls `calamine::Range::rows` and takes each cell by its text, as its
/// `Display` writes it. Trusted: the result is what the range holds, row by row.
#[verifier::external_body]
fn range_rows(range: &calamine::Range<calamine::Data>) -> (r: Vec<Vec<String>>)
    ensures
        table_texts(r@) == range_cells(*range),
{
    range.rows().map(|row| row.iter().map(|cell| cell.to_string()).collect()).collect()
}

/// The name of the sheet that is read: the first by position, whatever it is
/// called. `None` where the workbook has no sheet.
pub fn first_sheet_name(book: &calamine::Sheets<std::io::Cursor<Vec<u8>>>) -> (r: Option<String>)
    ensures
        match r {
            None => workbook_sheets(*book).len() == 0,
            Some(name) => workbook_sheets(*book).len() > 0 && name@ == workbook_sheets(*book)[0],
        },
{
    let names = sheet_names(book);
    if names.len() == 0 {
        assert(texts(names@).len() == 0);
        None
    } else {
        assert(texts(names@)[0] == names@[0]@);
        Some(names[0].clone())
    }
}

/// How far the reading of a workbook's first sheet came.
#[derive(Debug)]
pub enum FirstSheet {
    /// The bytes could not be opened as a workbook of any format.
    NoWorkbook,
    /// The workbook has no sheet.
    NoSheet,
    /// The first sheet could not be read.
    Unreadable,
    /// The used cells of the first sheet.
    Cells(calamine::Range<calamine::Data>),
}

/// Why a reading gave no table.
#[derive(Debug, Clone, Copy, PartialEq, Eq, Structural)]
pub enum ReadError {
    /// The bytes are no workbook of a known format, or its first sheet cannot
    /// be read.
    Decode,
    /// The workbook has no sheet, or its first sheet has no row.
    EmptySheet,
}

/// The table that rows of cells make: none without a row.
pub open spec fn table_of_cells(rows: Seq<Seq<Seq<char>>>) -> Result<Seq<Seq<Seq<char>>>, ReadError> {
    if rows.len() == 0 {
        Err(ReadError::EmptySheet)
    } else {
        Ok(rows)
    }
}

/// The table that a reading gives: the rows of the first sheet, the first of
/// them the header row.
pub open spec fn table_in(sheet: FirstSheet) -> Result<Seq<Seq<Seq<char>>>, ReadError> {
    match sheet {
        FirstSheet::NoWorkbook => Err(ReadError::Decode),
        FirstSheet::NoSheet => Err(ReadError::EmptySheet),
        FirstSheet::Unreadable => Err(ReadError::Decode),
        FirstSheet::Cells(range) => table_of_cells(range_cells(range)),
    }
}

/// Decides on the rows read from the first sheet: a sheet that could not be
/// read is a decoding failure, one without rows is empty, any other is the table.
pub fn table_from_rows(rows: Option<Vec<Vec<String>>>) -> (r: Result<Vec<Vec<String>>, ReadError>)
    ensures
        match rows {
            None => r == Err::<Vec<Vec<String>>, ReadError>(ReadError::Decode),
            Some(t) => if t.len() == 0 {
                r == Err::<Vec<Vec<String>>, ReadError>(ReadError::EmptySheet)
            } else {
                r == Ok::<Vec<Vec<String>>, ReadError>(t)
            },
        },
{
    match rows {
        None => Err(ReadError::Decode),
        Some(t) => if t.len() == 0 {
            Err(ReadError::EmptySheet)
        } else {
            Ok(t)
        },
    }
}

/// The table of a reading. The result has at least the header row.
pub fn read_table(sheet: &FirstSheet) -> (r: Result<Vec<Vec<String>>, ReadError>)
    ensures
        match r {
            Ok(t) => table_in(*sheet) == Ok::<Seq<Seq<Seq<char>>>, ReadError>(table_texts(t@)) && t.len() > 0,
            Err(e) => table_in(*sheet) == Err::<Seq<Seq<Seq<char>>>, ReadError>(e),
        },
{
    match sheet {
        FirstSheet::NoWorkbook => Err(ReadError::Decode),
        FirstSheet::NoSheet => Err(ReadError::EmptySheet),
        FirstSheet::Unreadable => Err(ReadError::Decode),
        FirstSheet::Cells(range) => table_from_rows(Some(range_rows(range))),
    }
}

} // verus!
