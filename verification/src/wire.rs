//! CSV text. Splitting bytes into rows of fields and quoting fields into
//! bytes is the csv crate's work; this module calls it and states what the
//! library relies on.

use vstd::prelude::*;
use crate::codec::{row_view, table_view, TableFault};

verus! {

/// `csv::Error`, the error of the csv reader and writer. The library carries
/// it through to the caller and reads nothing in it.
#[verifier::external_type_specification]
#[verifier::external_body]
pub struct ExCsvError(csv::Error);

/// The rows that the csv reader yields from these bytes, every row with its
/// fields as text, the header row among them; or `None` where the reader
/// reports an error.
pub uninterp spec fn csv_rows(data: Seq<u8>) -> Option<Seq<Seq<Seq<char>>>>;

/// The bytes that the csv writer writes for one row of fields, or `None`
/// where the writer reports an error.
pub uninterp spec fn csv_line(row: Seq<Seq<char>>) -> Option<Seq<u8>>;

/// Trusted: reads all records with a `csv::Reader` that is built to hand out
/// the first row like any other and to accept rows of any length, and copies
/// each record's fields into strings. The contract only names the outcome;
/// it depends on the bytes alone.
#[verifier::external_body]
fn read_rows(data: &[u8]) -> (r: Result<Vec<Vec<String>>, csv::Error>)
    ensures
        match r {
            Ok(table) => csv_rows(data@) == Some(table_view(table@)),
            Err(_) => csv_rows(data@) is None,
        },
{
    let mut reader =
        csv::ReaderBuilder::new().has_headers(false).flexible(true).from_reader(data);
    reader
        .records()
        .map(|row| row.map(|fields| fields.iter().map(String::from).collect()))
        .collect()
}

/// Trusted: writes one record with a fresh `csv::Writer` over a byte vector
/// and hands out the vector. The contract only names the outcome; it depends
/// on the fields alone.
#[verifier::external_body]
fn write_row(row: &Vec<String>) -> (r: Result<Vec<u8>, csv::Error>)
    ensures
        match r {
            Ok(line) => csv_line(row_view(row@)) == Some(line@),
            Err(_) => csv_line(row_view(row@)) is None,
        },
{
    let mut writer = csv::Writer::from_writer(Vec::new());
    writer.write_record(row)?;
    writer.into_inner().map_err(|e| csv::Error::from(e.into_error()))
}

/// Why CSV content is refused.
#[derive(Debug)]
pub enum DecodeError {
    /// The csv reader cannot split the bytes into rows of text.
    Csv(csv::Error),
    /// The rows are not a table of the schema.
    Table(TableFault),
}

/// Why a table cannot be written as CSV content.
#[derive(Debug)]
pub enum EncodeError {
    /// The csv writer refuses a row.
    Csv(csv::Error),
}

pub open spec fn lines_view(lines: Seq<Vec<u8>>) -> Seq<Seq<u8>> {
    Seq::new(lines.len(), |i: int| lines[i]@)
}

/// The lines one after the other.
pub open spec fn joined(lines: Seq<Seq<u8>>) -> Seq<u8>
    decreases lines.len(),
{
    if lines.len() == 0 {
        Seq::empty()
    } else {
        joined(lines.drop_last()) + lines.last()
    }
}

/// The lines that the csv writer writes for the rows of a table, or `None`
/// if it refuses one of them.
pub open spec fn table_lines(table: Seq<Seq<Seq<char>>>) -> Option<Seq<Seq<u8>>> {
    if forall|i: int| 0 <= i < table.len() ==> (#[trigger] csv_line(table[i])) is Some {
        Some(Seq::new(table.len(), |i: int| csv_line(table[i])->0))
    } else {
        None
    }
}

/// The CSV content of a table: the lines of its rows, one after the other.
pub open spec fn table_bytes(table: Seq<Seq<Seq<char>>>) -> Option<Seq<u8>> {
    match table_lines(table) {
        Some(lines) => Some(joined(lines)),
        None => None,
    }
}

/// Splits CSV content into its rows of cells, the header row first.
pub fn read_table(data: &[u8]) -> (r: Result<Vec<Vec<String>>, DecodeError>)
    ensures
        match r {
            Ok(table) => csv_rows(data@) == Some(table_view(table@)),
            Err(e) => csv_rows(data@) is None && e is Csv,
        },
{
    match read_rows(data) {
        Ok(table) => Ok(table),
        Err(e) => Err(DecodeError::Csv(e)),
    }
}

/// Puts lines one after the other.
pub fn join_lines(lines: &Vec<Vec<u8>>) -> (data: Vec<u8>)
    ensures
        data@ == joined(lines_view(lines@)),
{
    let ghost all = lines_view(lines@);
    let n: usize = lines.len();
    let mut data: Vec<u8> = Vec::new();
    let mut i: usize = 0;
    assert(all.take(0) =~= Seq::<Seq<u8>>::empty());
    while i < n
        invariant
            i <= n,
            n == lines@.len(),
            all == lines_view(lines@),
            data@ == joined(all.take(i as int)),
        decreases n - i,
    {
        let line: &Vec<u8> = &lines[i];
        let m: usize = line.len();
        let ghost before = data@;
        let mut k: usize = 0;
        while k < m
            invariant
                k <= m,
                m == line@.len(),
                data@ == before + line@.take(k as int),
            decreases m - k,
        {
            data.push(line[k]);
            assert(line@.take(k as int).push(line@[k as int]) =~= line@.take(k + 1));
            k += 1;
        }
        proof {
            let next = all.take(i + 1);
            assert(line@.take(m as int) =~= line@);
            assert(next.drop_last() =~= all.take(i as int));
            assert(next.last() == line@);
        }
        i += 1;
    }
    assert(all.take(n as int) =~= all);
    data
}

/// Writes a table of cells as CSV content, row after row. An error of the
/// csv writer on any row ends the writing.
pub fn write_table(table: &Vec<Vec<String>>) -> (r: Result<Vec<u8>, EncodeError>)
    ensures
        match r {
            Ok(data) => table_bytes(table_view(table@)) == Some(data@),
            Err(_) => table_bytes(table_view(table@)) is None,
        },
{
    let ghost cells = table_view(table@);
    let n: usize = table.len();
    let mut lines: Vec<Vec<u8>> = Vec::new();
    let mut i: usize = 0;
    while i < n
        invariant
            i <= n,
            n == table@.len(),
            cells == table_view(table@),
            lines@.len() == i,
            forall|k: int| 0 <= k < i ==> csv_line(cells[k]) == Some(#[trigger] lines@[k]@),
        decreases n - i,
    {
        assert(cells[i as int] == row_view(table@[i as int]@));
        match write_row(&table[i]) {
            Ok(line) => {
                lines.push(line);
            },
            Err(e) => {
                assert(csv_line(cells[i as int]) is None);
                return Err(EncodeError::Csv(e));
            },
        }
        i += 1;
    }
    assert(table_lines(cells) == Some(lines_view(lines@))) by {
        assert forall|k: int| 0 <= k < cells.len() implies (#[trigger] csv_line(
            cells[k],
        )) is Some by {
            assert(csv_line(cells[k]) == Some(lines@[k]@));
        }
        assert(Seq::new(cells.len(), |k: int| csv_line(cells[k])->0) =~= lines_view(lines@)) by {
            assert forall|k: int| 0 <= k < cells.len() implies csv_line(cells[k])->0
                == lines_view(lines@)[k] by {
                assert(csv_line(cells[k]) == Some(lines@[k]@));
            }
        }
    }
    Ok(join_lines(&lines))
}

} // verus!
