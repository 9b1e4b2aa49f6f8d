//! Describes a spreadsheet workbook (sheets, cells, formatting, borders,
//! filters) and turns it into the ordered script that a spreadsheet engine
//! runs to write the workbook file.
//!
//! - `column`: column labels.
//! - `text`: decimal notation and text replacement.
//! - `model`: cells, widths, borders and sheets, built by chained setters.
//! - `stamp`: calendar times and their `YYYYMMDDHHMMSS` notation.
//! - `emit`: the script's lines, its text and its Shift_JIS bytes.
//! - `workbook`: the workbook, its default path, and the state of a write
//!   and how it ended.

pub mod column;
pub mod emit;
pub mod model;
pub mod stamp;
pub mod text;
pub mod workbook;
