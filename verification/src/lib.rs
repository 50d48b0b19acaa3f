//! Validation of spreadsheet exports of catalogue records against fixed column
//! schemas: a workbook's first sheet is read into rows of cell texts, its header
//! row is turned into canonical field identifiers, the identifiers are matched
//! against the schema of a record kind, and every data row becomes a record that
//! is scanned for required fields without a value.

pub mod header;
pub mod laws;
pub mod reader;
pub mod record;
pub mod schema;
pub mod validate;
