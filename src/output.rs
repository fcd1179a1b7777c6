//! Where results go: the log level, the choice between printed records and a CSV
//! file, and the text of both.
use vstd::prelude::*;

use crate::errors::AppError;
use crate::text::{decimal, render_decimal, text_eq};

verus! {

/// How much the client logs.
#[derive(Debug, Clone, Copy, PartialEq, Eq, Structural)]
pub enum LogLevel {
    Error,
    Warn,
    Info,
    Debug,
    Trace,
}

/// The level that a `--debug-level` value selects; an unknown value selects `Info`.
pub open spec fn level_for(s: Seq<char>) -> LogLevel {
    if s == "error"@ {
        LogLevel::Error
    } else if s == "warn"@ {
        LogLevel::Warn
    } else if s == "debug"@ {
        LogLevel::Debug
    } else if s == "trace"@ {
        LogLevel::Trace
    } else {
        LogLevel::Info
    }
}

pub fn get_debug_filter(debug_level: &str) -> (r: LogLevel)
    ensures
        r == level_for(debug_level@),
{
    if text_eq(debug_level, "error") {
        LogLevel::Error
    } else if text_eq(debug_level, "warn") {
        LogLevel::Warn
    } else if text_eq(debug_level, "debug") {
        LogLevel::Debug
    } else if text_eq(debug_level, "trace") {
        LogLevel::Trace
    } else {
        LogLevel::Info
    }
}

/// Where a list of records goes.
#[derive(Debug, Clone, PartialEq, Eq)]
pub enum OutputPlan {
    /// Print each record as a numbered block.
    Records,
    /// Write the records as CSV to a new file of this name.
    CsvFile(String),
}

/// Decides where a list of records goes. Any output type but `csv` prints the
/// records. `csv` needs a file name (else `NoOutputFilename`) that names no existing
/// file (else `FileExists`); `file_exists` tells whether the named file exists.
pub fn handle_output_choice(
    output_type: &str,
    filename: Option<String>,
    file_exists: bool,
) -> (r: Result<OutputPlan, AppError>)
    ensures
        output_type@ != "csv"@ ==> r == Ok::<OutputPlan, AppError>(OutputPlan::Records),
        output_type@ == "csv"@ ==> match filename {
            None => r == Err::<OutputPlan, AppError>(AppError::NoOutputFilename),
            Some(f) => if file_exists {
                r == Err::<OutputPlan, AppError>(AppError::FileExists)
            } else {
                r == Ok::<OutputPlan, AppError>(OutputPlan::CsvFile(f))
            },
        },
{
    if !text_eq(output_type, "csv") {
        return Ok(OutputPlan::Records);
    }
    match filename {
        None => Err(AppError::NoOutputFilename),
        Some(f) => {
            if file_exists {
                Err(AppError::FileExists)
            } else {
                Ok(OutputPlan::CsvFile(f))
            }
        },
    }
}

/// Succeeds where the input file of an import exists.
pub fn check_input_file(file_exists: bool) -> (r: Result<(), AppError>)
    ensures
        file_exists <==> r is Ok,
        r matches Err(e) ==> e == AppError::InputFileDoesNotExist,
{
    if file_exists {
        Ok(())
    } else {
        Err(AppError::InputFileDoesNotExist)
    }
}

/// The printed form of record renderings: each under a `---- [i] ----` line
/// and followed by a blank line.
pub open spec fn listing(blocks: Seq<Seq<char>>) -> Seq<char>
    decreases blocks.len(),
{
    if blocks.len() == 0 {
        Seq::empty()
    } else {
        listing(blocks.drop_last()) + "---- ["@ + decimal((blocks.len() - 1) as nat) + "] ----\n"@
            + blocks.last() + "\n\n"@
    }
}

/// The printed form of a list of record renderings.
pub fn render_listing(blocks: &Vec<String>) -> (r: String)
    ensures
        r@ == listing(blocks@.map_values(|b: String| b@)),
{
    let mut out = String::new();
    let mut i: usize = 0;
    assert(blocks@.take(0).map_values(|b: String| b@) =~= Seq::<Seq<char>>::empty());
    while i < blocks.len()
        invariant
            i <= blocks@.len(),
            out@ == listing(blocks@.take(i as int).map_values(|b: String| b@)),
        decreases blocks@.len() - i,
    {
        let ghost before = out@;
        out.append("---- [");
        let n = render_decimal(i);
        out.append(n.as_str());
        out.append("] ----\n");
        out.append(blocks[i].as_str());
        out.append("\n\n");
        proof {
            let bs = blocks@.take(i + 1).map_values(|b: String| b@);
            assert(bs.drop_last() =~= blocks@.take(i as int).map_values(|b: String| b@));
            assert(bs.last() == blocks@[i as int]@);
            assert(out@ =~= before + "---- ["@ + decimal(i as nat) + "] ----\n"@ + blocks@[i as int]@
                + "\n\n"@);
        }
        i = i + 1;
    }
    assert(blocks@.take(blocks@.len() as int) =~= blocks@);
    out
}

/// The CSV text of one record with these fields, line end included, as the `csv`
/// crate writes it.
pub uninterp spec fn csv_record_text(fields: Seq<Seq<char>>) -> Seq<char>;

/// Relies on `csv::Writer::write_record` (with `from_writer`, `into_inner`): the
/// fields quoted where needed, separated by commas, ended by a newline. Writing the
/// first record of a fresh writer into a `Vec` cannot fail, nor can `into_inner`, and
/// the text stays UTF-8.
#[verifier::external_body]
fn csv_record(fields: &Vec<String>) -> (r: Option<String>)
    ensures
        r is Some,
        r matches Some(t) ==> t@ == csv_record_text(fields@.map_values(|f: String| f@)),
{
    let mut w = csv::Writer::from_writer(Vec::new());
    w.write_record(fields).ok()?;
    let bytes = w.into_inner().ok()?;
    String::from_utf8(bytes).ok()
}

/// The CSV text of a header and rows, one record each.
pub open spec fn csv_document_text(rows: Seq<Seq<Seq<char>>>) -> Seq<char>
    decreases rows.len(),
{
    if rows.len() == 0 {
        Seq::empty()
    } else {
        csv_document_text(rows.drop_last()) + csv_record_text(rows.last())
    }
}

pub open spec fn rows_view(rows: Seq<Vec<String>>) -> Seq<Seq<Seq<char>>> {
    rows.map_values(|r: Vec<String>| r@.map_values(|f: String| f@))
}

/// The CSV text of `rows`, one record each, in order.
pub fn csv_document(rows: &Vec<Vec<String>>) -> (r: Option<String>)
    ensures
        r is Some,
        r matches Some(t) ==> t@ == csv_document_text(rows_view(rows@)),
{
    let mut out = String::new();
    let mut i: usize = 0;
    assert(rows_view(rows@.take(0)) =~= Seq::<Seq<Seq<char>>>::empty());
    while i < rows.len()
        invariant
            i <= rows@.len(),
            out@ == csv_document_text(rows_view(rows@.take(i as int))),
        decreases rows@.len() - i,
    {
        let line = match csv_record(&rows[i]) {
            Some(l) => l,
            None => return None,
        };
        out.append(line.as_str());
        proof {
            let rv = rows_view(rows@.take(i + 1));
            assert(rv.drop_last() =~= rows_view(rows@.take(i as int)));
            assert(rv.last() == rows@[i as int]@.map_values(|f: String| f@));
        }
        i = i + 1;
    }
    assert(rows@.take(rows@.len() as int) =~= rows@);
    Some(out)
}

} // verus!
