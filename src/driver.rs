use vstd::prelude::*;

use crate::format::{
    format_insert, insert_statement, mismatch_message, strings_view, Column, RowError,
};

verus! {

/// What the CSV reader produced for one record: its fields, or the description of a parse error.
pub type RecordEvent = Result<Vec<String>, String>;

/// The line printed for one record that is not skipped.
pub open spec fn output_line(
    db: Seq<char>,
    tb: Seq<char>,
    columns: Seq<Column>,
    event: RecordEvent,
) -> Seq<char> {
    match event {
        Ok(fields) => if fields@.len() == columns.len() {
            insert_statement(db, tb, columns, strings_view(fields@))
        } else {
            mismatch_message(columns.len(), fields@.len())
        },
        Err(msg) => msg@,
    }
}

/// What one step prints: nothing while the header row is still due, else its line.
pub open spec fn step_output(
    header_pending: bool,
    db: Seq<char>,
    tb: Seq<char>,
    columns: Seq<Column>,
    event: RecordEvent,
) -> Option<Seq<char>> {
    if header_pending {
        None
    } else {
        Some(output_line(db, tb, columns, event))
    }
}

/// What a run over `events` prints, step by step; after the first step no header is due.
pub open spec fn run_outputs(
    header_pending: bool,
    db: Seq<char>,
    tb: Seq<char>,
    columns: Seq<Column>,
    events: Seq<RecordEvent>,
) -> Seq<Option<Seq<char>>>
    decreases events.len(),
{
    if events.len() == 0 {
        Seq::empty()
    } else {
        seq![step_output(header_pending, db, tb, columns, events[0])] + run_outputs(
            false,
            db,
            tb,
            columns,
            events.drop_first(),
        )
    }
}

/// The text of an optional line.
pub open spec fn text_option(o: Option<String>) -> Option<Seq<char>> {
    match o {
        Some(s) => Some(s@),
        None => None,
    }
}

/// Turns the records of one input stream into INSERT statements for one table.
pub struct Importer {
    pub db: String,
    pub tb: String,
    pub columns: Vec<Column>,
    /// The next record is the header row, to be dropped.
    pub header_pending: bool,
}

impl Importer {
    /// An importer for `db.tb`; `skip_headers` drops the stream's first record.
    pub fn new(db: String, tb: String, columns: Vec<Column>, skip_headers: bool) -> (r: Importer)
        ensures
            r.db == db,
            r.tb == tb,
            r.columns == columns,
            r.header_pending == skip_headers,
    {
        Importer { db, tb, columns, header_pending: skip_headers }
    }

    /// Handles the next record; returns the line to print, if any.
    pub fn on_record(&mut self, event: &RecordEvent) -> (r: Option<String>)
        ensures
            final(self).db == old(self).db,
            final(self).tb == old(self).tb,
            final(self).columns == old(self).columns,
            !final(self).header_pending,
            text_option(r) == step_output(
                old(self).header_pending,
                old(self).db@,
                old(self).tb@,
                old(self).columns@,
                *event,
            ),
    {
        if self.header_pending {
            self.header_pending = false;
            return None;
        }
        match event {
            Ok(fields) => match format_insert(
                self.db.as_str(),
                self.tb.as_str(),
                &self.columns,
                fields,
            ) {
                Ok(sql) => Some(sql),
                Err(e) => Some(e.message()),
            },
            Err(msg) => Some(msg.clone()),
        }
    }
}

} // verus!
