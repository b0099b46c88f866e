use vstd::prelude::*;
use crate::clock::{stored_instant, Timestamp};
use crate::ident::{parse_id, uuid_parse};
use crate::sql::{row_view, text_view, SqlValue, SqlValueView};

verus! {

/// The cell at a position of a row; a position past the row's end reads as
/// `Unsupported`, so that a short row fails at its first missing column.
pub open spec fn cell(row: Seq<SqlValueView>, at: int) -> SqlValueView {
    if 0 <= at < row.len() {
        row[at]
    } else {
        SqlValueView::Unsupported
    }
}

/// A column that must hold text.
pub open spec fn text_col(row: Seq<SqlValueView>, at: int) -> Option<Seq<char>> {
    match cell(row, at) {
        SqlValueView::Text(s) => Some(s),
        _ => None,
    }
}

/// A column that holds text or NULL.
pub open spec fn opt_text_col(row: Seq<SqlValueView>, at: int) -> Option<Option<Seq<char>>> {
    match cell(row, at) {
        SqlValueView::Text(s) => Some(Some(s)),
        SqlValueView::Null => Some(None),
        _ => None,
    }
}

/// A column that must hold an integer of 32 bits.
pub open spec fn int_col(row: Seq<SqlValueView>, at: int) -> Option<i32> {
    match cell(row, at) {
        SqlValueView::Integer(n) => if i32::MIN <= n <= i32::MAX {
            Some(n as i32)
        } else {
            None
        },
        _ => None,
    }
}

/// A column that holds an integer of 32 bits or NULL.
pub open spec fn opt_int_col(row: Seq<SqlValueView>, at: int) -> Option<Option<i32>> {
    match cell(row, at) {
        SqlValueView::Integer(n) => if i32::MIN <= n <= i32::MAX {
            Some(Some(n as i32))
        } else {
            None
        },
        SqlValueView::Null => Some(None),
        _ => None,
    }
}

/// A column that must hold a flag: an integer, true unless it is zero.
pub open spec fn flag_col(row: Seq<SqlValueView>, at: int) -> Option<bool> {
    match cell(row, at) {
        SqlValueView::Integer(n) => Some(n != 0),
        _ => None,
    }
}

/// A column that must hold the text of an identifier.
pub open spec fn id_col(row: Seq<SqlValueView>, at: int) -> Option<u128> {
    match cell(row, at) {
        SqlValueView::Text(s) => uuid_parse(s),
        _ => None,
    }
}

/// A column that must hold the RFC 3339 text of an instant.
pub open spec fn instant_col(row: Seq<SqlValueView>, at: int) -> Option<Timestamp> {
    match cell(row, at) {
        SqlValueView::Text(s) => stored_instant(s),
        _ => None,
    }
}

/// A cell that holds a text or, for none, NULL.
pub open spec fn opt_text_cell(text: Option<Seq<char>>) -> SqlValueView {
    match text {
        Some(s) => SqlValueView::Text(s),
        None => SqlValueView::Null,
    }
}

/// A cell that holds a number or, for none, NULL.
pub open spec fn opt_int_cell(number: Option<i32>) -> SqlValueView {
    match number {
        Some(n) => SqlValueView::Integer(n as i64),
        None => SqlValueView::Null,
    }
}

/// A cell that holds a flag: one for true, zero for false.
pub open spec fn flag_cell(flag: bool) -> SqlValueView {
    SqlValueView::Integer(
        if flag {
            1i64
        } else {
            0i64
        },
    )
}

/// The view of an optional optional text.
pub open spec fn opt_text_view(text: Option<Option<String>>) -> Option<Option<Seq<char>>> {
    match text {
        Some(inner) => Some(text_view(inner)),
        None => None,
    }
}

/// Reads a column that must hold text.
pub fn read_text(row: &Vec<SqlValue>, at: usize) -> (text: Option<String>)
    ensures
        text_view(text) == text_col(row_view(row@), at as int),
{
    if at < row.len() {
        match &row[at] {
            SqlValue::Text(s) => Some(s.clone()),
            _ => None,
        }
    } else {
        None
    }
}

/// Reads a column that holds text or NULL.
pub fn read_opt_text(row: &Vec<SqlValue>, at: usize) -> (text: Option<Option<String>>)
    ensures
        opt_text_view(text) == opt_text_col(row_view(row@), at as int),
{
    if at < row.len() {
        match &row[at] {
            SqlValue::Text(s) => Some(Some(s.clone())),
            SqlValue::Null => Some(None),
            _ => None,
        }
    } else {
        None
    }
}

/// Reads a column that must hold an integer of 32 bits.
pub fn read_int(row: &Vec<SqlValue>, at: usize) -> (number: Option<i32>)
    ensures
        number == int_col(row_view(row@), at as int),
{
    if at < row.len() {
        match &row[at] {
            SqlValue::Integer(n) => {
                if -2147483648 <= *n && *n <= 2147483647 {
                    Some(*n as i32)
                } else {
                    None
                }
            },
            _ => None,
        }
    } else {
        None
    }
}

/// Reads a column that holds an integer of 32 bits or NULL.
pub fn read_opt_int(row: &Vec<SqlValue>, at: usize) -> (number: Option<Option<i32>>)
    ensures
        number == opt_int_col(row_view(row@), at as int),
{
    if at < row.len() {
        match &row[at] {
            SqlValue::Integer(n) => {
                if -2147483648 <= *n && *n <= 2147483647 {
                    Some(Some(*n as i32))
                } else {
                    None
                }
            },
            SqlValue::Null => Some(None),
            _ => None,
        }
    } else {
        None
    }
}

/// Reads a column that must hold a flag.
pub fn read_flag(row: &Vec<SqlValue>, at: usize) -> (flag: Option<bool>)
    ensures
        flag == flag_col(row_view(row@), at as int),
{
    if at < row.len() {
        match &row[at] {
            SqlValue::Integer(n) => Some(*n != 0),
            _ => None,
        }
    } else {
        None
    }
}

/// Reads a column that must hold the text of an identifier.
pub fn read_id(row: &Vec<SqlValue>, at: usize) -> (id: Option<u128>)
    ensures
        id == id_col(row_view(row@), at as int),
{
    if at < row.len() {
        match &row[at] {
            SqlValue::Text(s) => parse_id(s.as_str()),
            _ => None,
        }
    } else {
        None
    }
}

/// Reads a column that must hold the RFC 3339 text of an instant.
pub fn read_instant(row: &Vec<SqlValue>, at: usize) -> (instant: Option<Timestamp>)
    ensures
        instant == instant_col(row_view(row@), at as int),
{
    if at < row.len() {
        match &row[at] {
            SqlValue::Text(s) => Timestamp::from_text(s.as_str()),
            _ => None,
        }
    } else {
        None
    }
}

} // verus!
