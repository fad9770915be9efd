//! Records shown as rows of a table.

use crate::model::content::Attachment;
use crate::text::{decimal, spec_decimal, str_equal};
use vstd::prelude::*;
use vstd::string::*;

verus! {

/// A record with named columns. Nothing is promised of an implementation;
/// `Table` is verified for all of them.
pub trait TableRow {
    /// The names of the columns, in order.
    fn columns() -> Vec<&'static str>;

    /// The text of the cell in column `field`; `None` where the record has
    /// no such column.
    fn try_get_field(&self, field: &str) -> Option<String>;
}

/// Rows of one kind of record.
pub struct Table<Row: TableRow> {
    rows: Vec<Row>,
}

impl<Row: TableRow> View for Table<Row> {
    type V = Seq<Row>;

    closed spec fn view(&self) -> Seq<Row> {
        self.rows@
    }
}

impl<Row: TableRow> Table<Row> {
    /// The table of `rows`.
    pub fn new(rows: Vec<Row>) -> (table: Self)
        ensures
            table@ == rows@,
    {
        Table { rows }
    }

    /// The rows.
    pub fn rows(&self) -> (rows: &Vec<Row>)
        ensures
            rows@ == self@,
    {
        &self.rows
    }

    /// The number of rows.
    pub fn len(&self) -> (n: usize)
        ensures
            n == self@.len(),
    {
        self.rows.len()
    }

    /// The row at `index`; `None` past the end.
    pub fn row(&self, index: usize) -> (row: Option<&Row>)
        ensures
            match row {
                Some(r) => index < self@.len() && *r == self@[index as int],
                None => index >= self@.len(),
            },
    {
        if index < self.rows.len() {
            Some(&self.rows[index])
        } else {
            None
        }
    }
}

/// The text of an optional cell: the text itself, or nothing.
pub open spec fn spec_optional_cell(cell: Option<String>) -> Seq<char> {
    match cell {
        Some(text) => text@,
        None => Seq::empty(),
    }
}

/// The text of the cell of `part` in column `field`.
pub open spec fn spec_attachment_cell(part: Attachment, field: Seq<char>) -> Option<Seq<char>> {
    if field == "content_type"@ {
        Some(part.content_type@)
    } else if field == "size"@ {
        Some(spec_decimal(part.size as nat))
    } else if field == "key"@ {
        Some(spec_optional_cell(part.key))
    } else if field == "body"@ {
        Some(spec_optional_cell(part.body))
    } else {
        None
    }
}

/// The text of an optional cell.
fn optional_cell(cell: &Option<String>) -> (text: String)
    ensures
        text@ == spec_optional_cell(*cell),
{
    match cell {
        Some(t) => t.clone(),
        None => String::new(),
    }
}

impl TableRow for Attachment {
    fn columns() -> (names: Vec<&'static str>)
        ensures
            names@.len() == 4,
            names@[0]@ == "content_type"@,
            names@[1]@ == "size"@,
            names@[2]@ == "key"@,
            names@[3]@ == "body"@,
    {
        let mut names: Vec<&'static str> = Vec::new();
        names.push("content_type");
        names.push("size");
        names.push("key");
        names.push("body");
        names
    }

    fn try_get_field(&self, field: &str) -> (cell: Option<String>)
        ensures
            match cell {
                Some(text) => spec_attachment_cell(*self, field@) == Some(text@),
                None => spec_attachment_cell(*self, field@) is None,
            },
    {
        if str_equal(field, "content_type") {
            Some(self.content_type.clone())
        } else if str_equal(field, "size") {
            Some(decimal(self.size as u64))
        } else if str_equal(field, "key") {
            Some(optional_cell(&self.key))
        } else if str_equal(field, "body") {
            Some(optional_cell(&self.body))
        } else {
            None
        }
    }
}

} // verus!
