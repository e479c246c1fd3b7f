//! Records and their tables. A record type has a schema; reading and writing
//! a table of records goes through the shared codec with that schema.

use vstd::prelude::*;
use crate::codec::{
    decode_table, distinct_headers, encode_table, law_read_rows_fit, law_table_round_trip,
    row_fits, row_is_fit, row_of_kinds, rows_view, schema_view, table_cells, table_values,
    table_view, values_view,
};
use crate::codec::{Field, FieldView, TableFault};
use crate::value::{fits, of_kind, Value, ValueView};
use crate::wire::{csv_rows, read_table, table_bytes, write_table, DecodeError, EncodeError};

verus! {

/// A record type with a tabular schema.
pub trait Record: Sized {
    /// The schema: the fields in their declared order.
    spec fn fields() -> Seq<FieldView>;

    /// The values of the record's fields, in the order of the schema.
    spec fn values(&self) -> Seq<ValueView>;

    /// The schema as a table of fields.
    fn schema() -> (s: Vec<Field>)
        ensures
            schema_view(s@) == Self::fields(),
    ;

    /// The values of the record's fields.
    fn to_values(&self) -> (v: Vec<Value>)
        ensures
            values_view(v@) == self.values(),
    ;

    /// The record with these values, one for each field of the schema and
    /// each of the kind of its field.
    fn from_values(values: &Vec<Value>) -> (r: Self)
        requires
            row_of_kinds(values@, Self::fields()),
        ensures
            r.values() == values_view(values@),
    ;

    /// The schema names each column once.
    proof fn lemma_schema()
        ensures
            distinct_headers(Self::fields()),
            Self::fields().len() <= usize::MAX,
    ;
}

/// The rows of values of a sequence of records.
pub open spec fn records_view<T: Record>(records: Seq<T>) -> Seq<Seq<ValueView>> {
    Seq::new(records.len(), |i: int| records[i].values())
}

/// Whether a record can be written and read back: each of its values is one
/// that its field can hold.
pub open spec fn valid<T: Record>(record: T) -> bool {
    row_fits(record.values(), T::fields())
}

/// Whether a record is valid: its required texts are filled in, its optional
/// texts are absent rather than empty.
pub fn is_valid<T: Record>(record: &T) -> (r: bool)
    ensures
        r == valid(*record),
{
    let schema: Vec<Field> = T::schema();
    let values: Vec<Value> = record.to_values();
    row_is_fit(&schema, &values)
}

/// Reading tables of records from CSV content.
pub trait ReadDataPackageCsv: Record {
    /// Reads the records of a table of cells.
    fn from_rows(table: &Vec<Vec<String>>) -> (r: Result<Vec<Self>, TableFault>)
        ensures
            match r {
                Ok(records) => table_values(Self::fields(), table_view(table@)) == Ok::<
                    Seq<Seq<ValueView>>,
                    TableFault,
                >(records_view(records@)),
                Err(e) => table_values(Self::fields(), table_view(table@)) == Err::<
                    Seq<Seq<ValueView>>,
                    TableFault,
                >(e),
            },
    {
        let schema: Vec<Field> = Self::schema();
        let rows: Vec<Vec<Value>> = match decode_table(&schema, table) {
            Ok(rows) => rows,
            Err(e) => {
                return Err(e);
            },
        };
        let n: usize = rows.len();
        let mut records: Vec<Self> = Vec::new();
        let mut i: usize = 0;
        while i < n
            invariant
                i <= n,
                n == rows@.len(),
                table_values(Self::fields(), table_view(table@)) == Ok::<
                    Seq<Seq<ValueView>>,
                    TableFault,
                >(rows_view(rows@)),
                records@.len() == i,
                forall|k: int|
                    0 <= k < i ==> (#[trigger] records@[k]).values() == values_view(rows@[k]@),
            decreases n - i,
        {
            assert(row_of_kinds(rows@[i as int]@, Self::fields())) by {
                law_read_rows_fit(Self::fields(), table_view(table@));
                let row = rows_view(rows@)[i as int];
                assert(row_fits(row, Self::fields()));
                assert forall|k: int| 0 <= k < row.len() implies of_kind(
                    (#[trigger] rows@[i as int]@[k])@,
                    Self::fields()[k].kind,
                    Self::fields()[k].required,
                ) by {
                    assert(fits(row[k], Self::fields()[k].kind, Self::fields()[k].required));
                }
            }
            records.push(Self::from_values(&rows[i]));
            i += 1;
        }
        assert(records_view(records@) =~= rows_view(rows@));
        Ok(records)
    }

    /// Reads the records of CSV content: a header row, then one row for each
    /// record. Content that the csv reader cannot split into rows of text is
    /// refused as `Csv`, rows that are not a table of the schema as `Table`.
    fn from_bytes(data: &[u8]) -> (r: Result<Vec<Self>, DecodeError>)
        ensures
            match r {
                Ok(records) => csv_rows(data@) matches Some(table) && table_values(
                    Self::fields(),
                    table,
                ) == Ok::<Seq<Seq<ValueView>>, TableFault>(records_view(records@)),
                Err(DecodeError::Csv(_)) => csv_rows(data@) is None,
                Err(DecodeError::Table(e)) => csv_rows(data@) matches Some(table) && table_values(
                    Self::fields(),
                    table,
                ) == Err::<Seq<Seq<ValueView>>, TableFault>(e),
            },
    {
        let table: Vec<Vec<String>> = match read_table(data) {
            Ok(table) => table,
            Err(e) => {
                return Err(e);
            },
        };
        match Self::from_rows(&table) {
            Ok(records) => Ok(records),
            Err(e) => Err(DecodeError::Table(e)),
        }
    }
}

/// Writing tables of records as CSV content.
pub trait WriteDataPackageCsv {
    /// The table of cells written for the records: the header row of their
    /// schema, then one row for each record.
    spec fn rows(&self) -> Seq<Seq<Seq<char>>>;

    /// Writes the records as a table of cells.
    fn to_rows(&self) -> (table: Vec<Vec<String>>)
        ensures
            table_view(table@) == self.rows(),
    ;

    /// Writes the records as CSV content. An error of the csv writer ends
    /// the writing.
    fn to_bytes(&self) -> (r: Result<Vec<u8>, EncodeError>)
        ensures
            match r {
                Ok(data) => table_bytes(self.rows()) == Some(data@),
                Err(_) => table_bytes(self.rows()) is None,
            },
    ;
}

impl<T: Record> WriteDataPackageCsv for Vec<T> {
    open spec fn rows(&self) -> Seq<Seq<Seq<char>>> {
        table_cells(T::fields(), records_view(self@))
    }

    fn to_rows(&self) -> (table: Vec<Vec<String>>) {
        let n: usize = self.len();
        let mut rows: Vec<Vec<Value>> = Vec::new();
        let mut i: usize = 0;
        while i < n
            invariant
                i <= n,
                n == self@.len(),
                rows@.len() == i,
                forall|k: int|
                    0 <= k < i ==> values_view(#[trigger] rows@[k]@) == self@[k].values(),
            decreases n - i,
        {
            rows.push(self[i].to_values());
            i += 1;
        }
        assert(rows_view(rows@) =~= records_view(self@));
        let schema: Vec<Field> = T::schema();
        encode_table(&schema, &rows)
    }

    fn to_bytes(&self) -> (r: Result<Vec<u8>, EncodeError>) {
        let table: Vec<Vec<String>> = self.to_rows();
        write_table(&table)
    }
}

/// The records read from a table are valid.
pub proof fn law_read_records_valid<T: Record>(table: Seq<Seq<Seq<char>>>, records: Seq<T>)
    requires
        table_values(T::fields(), table) == Ok::<Seq<Seq<ValueView>>, TableFault>(
            records_view(records),
        ),
    ensures
        forall|k: int| 0 <= k < records.len() ==> valid(#[trigger] records[k]),
{
    law_read_rows_fit(T::fields(), table);
    assert forall|k: int| 0 <= k < records.len() implies valid(#[trigger] records[k]) by {
        assert(records_view(records)[k] == records[k].values());
    }
}

/// Reading the table written for valid records gives records with the same
/// values, field for field.
pub proof fn law_records_round_trip<T: Record>(records: Seq<T>)
    requires
        forall|k: int| 0 <= k < records.len() ==> valid(#[trigger] records[k]),
    ensures
        table_values(T::fields(), table_cells(T::fields(), records_view(records))) == Ok::<
            Seq<Seq<ValueView>>,
            TableFault,
        >(records_view(records)),
{
    let rows = records_view(records);
    assert forall|k: int| 0 <= k < rows.len() implies row_fits(#[trigger] rows[k], T::fields()) by {
        assert(valid(records[k]));
    }
    T::lemma_schema();
    law_table_round_trip(T::fields(), rows);
}

/// What was read from a table reads the same once more after it is written:
/// writing the records read from a table, and reading what was written, gives
/// records with the same values.
pub proof fn law_read_write_read<T: Record>(table: Seq<Seq<Seq<char>>>, records: Seq<T>)
    requires
        table_values(T::fields(), table) == Ok::<Seq<Seq<ValueView>>, TableFault>(
            records_view(records),
        ),
    ensures
        table_values(T::fields(), table_cells(T::fields(), records_view(records))) == Ok::<
            Seq<Seq<ValueView>>,
            TableFault,
        >(records_view(records)),
{
    law_read_records_valid(table, records);
    law_records_round_trip(records);
}

/// Reading the CSV content written for valid records gives records with the
/// same values, wherever the csv reader splits that content into the rows
/// that the csv writer was given.
pub proof fn law_content_round_trip<T: Record>(records: Seq<T>, data: Seq<u8>)
    requires
        forall|k: int| 0 <= k < records.len() ==> valid(#[trigger] records[k]),
        table_bytes(table_cells(T::fields(), records_view(records))) == Some(data),
        csv_rows(data) == Some(table_cells(T::fields(), records_view(records))),
    ensures
        csv_rows(data) matches Some(table) && table_values(T::fields(), table) == Ok::<
            Seq<Seq<ValueView>>,
            TableFault,
        >(records_view(records)),
{
    law_records_round_trip(records);
}

} // verus!
