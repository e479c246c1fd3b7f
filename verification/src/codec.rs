//! The codec shared by all tables: given a schema, it maps a table of cells
//! (a header row, then one row per record) to rows of values and back. The
//! order of the columns is read from the header row.

use vstd::prelude::*;
use crate::text::same_text;
use crate::value::{
    cell_text, cell_value, decode_cell, encode_cell, fits, law_cell_round_trip, of_kind,
    value_fits,
};
use crate::value::{CellFault, Kind, Value, ValueView};

verus! {

/// One field of a schema.
#[derive(Clone, Copy, Debug)]
pub struct Field {
    /// The name of the field in a record.
    pub name: &'static str,
    /// The name of the field's column in a header row.
    pub header: &'static str,
    pub kind: Kind,
    pub required: bool,
}

/// What a `Field` holds.
pub ghost struct FieldView {
    pub name: Seq<char>,
    pub header: Seq<char>,
    pub kind: Kind,
    pub required: bool,
}

impl View for Field {
    type V = FieldView;

    open spec fn view(&self) -> FieldView {
        FieldView {
            name: self.name@,
            header: self.header@,
            kind: self.kind,
            required: self.required,
        }
    }
}

impl FieldView {
    pub open spec fn required(name: Seq<char>, header: Seq<char>, kind: Kind) -> FieldView {
        FieldView { name, header, kind, required: true }
    }

    pub open spec fn optional(name: Seq<char>, header: Seq<char>, kind: Kind) -> FieldView {
        FieldView { name, header, kind, required: false }
    }
}

impl Field {
    /// A field that every record fills in.
    pub fn required(name: &'static str, header: &'static str, kind: Kind) -> (f: Field)
        ensures
            f@ == FieldView::required(name@, header@, kind),
    {
        Field { name, header, kind, required: true }
    }

    /// A field that a record may leave out.
    pub fn optional(name: &'static str, header: &'static str, kind: Kind) -> (f: Field)
        ensures
            f@ == FieldView::optional(name@, header@, kind),
    {
        Field { name, header, kind, required: false }
    }
}

/// Where a field's column stands in a header row.
#[derive(Clone, Copy, Debug, PartialEq, Eq, Structural)]
pub enum Column {
    /// No column has the field's name.
    Missing,
    /// Exactly one column has it, at this index.
    At(usize),
    /// More than one column has it.
    Repeated,
}

/// Why a table is refused.
#[derive(Clone, Copy, Debug, PartialEq, Eq, Structural)]
pub enum TableFault {
    /// A row has not as many cells as the header row. Rows are counted from
    /// the header row, which is row 0.
    ColumnCount { row: usize, expected: usize, found: usize },
    /// The header row has no column for a required field of the schema.
    MissingColumn { field: usize },
    /// The header row has more than one column for a field of the schema.
    RepeatedColumn { field: usize },
    /// A cell is refused: the row, the index of the field in the schema, and
    /// the reason.
    Cell { row: usize, field: usize, fault: CellFault },
}

pub open spec fn schema_view(schema: Seq<Field>) -> Seq<FieldView> {
    Seq::new(schema.len(), |i: int| schema[i]@)
}

pub open spec fn row_view(row: Seq<String>) -> Seq<Seq<char>> {
    Seq::new(row.len(), |i: int| row[i]@)
}

pub open spec fn table_view(table: Seq<Vec<String>>) -> Seq<Seq<Seq<char>>> {
    Seq::new(table.len(), |i: int| row_view(table[i]@))
}

pub open spec fn values_view(values: Seq<Value>) -> Seq<ValueView> {
    Seq::new(values.len(), |i: int| values[i]@)
}

pub open spec fn rows_view(rows: Seq<Vec<Value>>) -> Seq<Seq<ValueView>> {
    Seq::new(rows.len(), |i: int| values_view(rows[i]@))
}

/// The first index at or after `from` whose cell is `name`, or the length of
/// the row if there is none.
pub open spec fn first_column(header: Seq<Seq<char>>, name: Seq<char>, from: int) -> int
    decreases header.len() - from,
{
    if from >= header.len() {
        header.len() as int
    } else if from >= 0 && header[from] == name {
        from
    } else {
        first_column(header, name, from + 1)
    }
}

/// Where the column called `name` stands in a header row.
pub open spec fn column_of(header: Seq<Seq<char>>, name: Seq<char>) -> Column {
    let first = first_column(header, name, 0);
    if first >= header.len() {
        Column::Missing
    } else if first_column(header, name, first + 1) < header.len() {
        Column::Repeated
    } else {
        Column::At(first as usize)
    }
}

/// The value of one field of a row, or why the row is refused for it. A field
/// without a column is absent, which only an optional field may be.
pub open spec fn field_value(
    field: FieldView,
    header: Seq<Seq<char>>,
    row: Seq<Seq<char>>,
    r: int,
    i: int,
) -> Result<ValueView, TableFault> {
    match column_of(header, field.header) {
        Column::Missing => if field.required {
            Err(TableFault::MissingColumn { field: i as usize })
        } else {
            Ok(ValueView::Absent)
        },
        Column::Repeated => Err(TableFault::RepeatedColumn { field: i as usize }),
        Column::At(j) => match cell_value(field.kind, field.required, row[j as int]) {
            Ok(v) => Ok(v),
            Err(fault) => Err(TableFault::Cell { row: r as usize, field: i as usize, fault }),
        },
    }
}

/// The fault of the first field at or after `from`, in the order of the
/// schema, for which the row is refused.
pub open spec fn first_fault(
    schema: Seq<FieldView>,
    header: Seq<Seq<char>>,
    row: Seq<Seq<char>>,
    r: int,
    from: int,
) -> Option<TableFault>
    decreases schema.len() - from,
{
    if from < 0 || from >= schema.len() {
        None
    } else {
        match field_value(schema[from], header, row, r, from) {
            Err(e) => Some(e),
            Ok(_) => first_fault(schema, header, row, r, from + 1),
        }
    }
}

/// The values of row `r`, one for each field of the schema, or the first
/// fault in it.
pub open spec fn row_values(
    schema: Seq<FieldView>,
    header: Seq<Seq<char>>,
    row: Seq<Seq<char>>,
    r: int,
) -> Result<Seq<ValueView>, TableFault> {
    if row.len() != header.len() {
        Err(
            TableFault::ColumnCount {
                row: r as usize,
                expected: header.len() as usize,
                found: row.len() as usize,
            },
        )
    } else {
        match first_fault(schema, header, row, r, 0) {
            Some(e) => Err(e),
            None => Ok(
                Seq::new(
                    schema.len(),
                    |i: int| field_value(schema[i], header, row, r, i)->Ok_0,
                ),
            ),
        }
    }
}

/// The fault of the first row at or after `from` that is refused.
pub open spec fn first_bad_row(
    schema: Seq<FieldView>,
    table: Seq<Seq<Seq<char>>>,
    from: int,
) -> Option<TableFault>
    decreases table.len() - from,
{
    if from < 1 || from >= table.len() {
        None
    } else {
        match row_values(schema, table[0], table[from], from) {
            Err(e) => Some(e),
            Ok(_) => first_bad_row(schema, table, from + 1),
        }
    }
}

/// The rows of values that a table stands for, or the fault of its first
/// refused row. Row 0 is the header row; a table without it has no rows.
pub open spec fn table_values(schema: Seq<FieldView>, table: Seq<Seq<Seq<char>>>) -> Result<
    Seq<Seq<ValueView>>,
    TableFault,
> {
    if table.len() == 0 {
        Ok(Seq::empty())
    } else {
        match first_bad_row(schema, table, 1) {
            Some(e) => Err(e),
            None => Ok(
                Seq::new(
                    (table.len() - 1) as nat,
                    |k: int| row_values(schema, table[0], table[k + 1], k + 1)->Ok_0,
                ),
            ),
        }
    }
}

proof fn lemma_first_column(header: Seq<Seq<char>>, name: Seq<char>, from: int)
    requires
        0 <= from,
    ensures
        from <= header.len() ==> from <= first_column(header, name, from) <= header.len(),
        first_column(header, name, from) < header.len() ==> header[first_column(
            header,
            name,
            from,
        )] == name,
    decreases header.len() - from,
{
    if from < header.len() && header[from] != name {
        lemma_first_column(header, name, from + 1);
    }
}

fn next_column(header: &Vec<String>, name: &str, from: usize) -> (i: usize)
    requires
        from <= header@.len(),
    ensures
        i == first_column(row_view(header@), name@, from as int),
        from <= i <= header@.len(),
{
    let n: usize = header.len();
    let mut i: usize = from;
    while i < n
        invariant
            from <= i <= n,
            n == header@.len(),
            first_column(row_view(header@), name@, from as int) == first_column(
                row_view(header@),
                name@,
                i as int,
            ),
        decreases n - i,
    {
        if same_text(header[i].as_str(), name) {
            return i;
        }
        i += 1;
    }
    i
}

/// Finds the column called `name` in a header row.
pub fn find_column(header: &Vec<String>, name: &str) -> (c: Column)
    ensures
        c == column_of(row_view(header@), name@),
{
    let n: usize = header.len();
    let first: usize = next_column(header, name, 0);
    if first >= n {
        Column::Missing
    } else if next_column(header, name, first + 1) < n {
        Column::Repeated
    } else {
        Column::At(first)
    }
}

fn decode_fields(
    schema: &Vec<Field>,
    header: Ghost<Seq<Seq<char>>>,
    columns: &Vec<Column>,
    row: &Vec<String>,
    r: usize,
) -> (res: Result<Vec<Value>, TableFault>)
    requires
        columns@.len() == schema@.len(),
        forall|i: int|
            0 <= i < schema@.len() ==> #[trigger] columns@[i] == column_of(
                header@,
                schema@[i]@.header,
            ),
        row@.len() == header@.len(),
    ensures
        match res {
            Ok(values) => row_values(schema_view(schema@), header@, row_view(row@), r as int)
                == Ok::<Seq<ValueView>, TableFault>(values_view(values@)),
            Err(e) => row_values(schema_view(schema@), header@, row_view(row@), r as int) == Err::<
                Seq<ValueView>,
                TableFault,
            >(e),
        },
{
    let ghost fields = schema_view(schema@);
    let ghost cells = row_view(row@);
    let n: usize = schema.len();
    let mut values: Vec<Value> = Vec::new();
    let mut i: usize = 0;
    while i < n
        invariant
            i <= n,
            n == schema@.len(),
            fields == schema_view(schema@),
            cells == row_view(row@),
            columns@.len() == schema@.len(),
            forall|k: int|
                0 <= k < schema@.len() ==> #[trigger] columns@[k] == column_of(
                    header@,
                    schema@[k]@.header,
                ),
            row@.len() == header@.len(),
            values@.len() == i,
            first_fault(fields, header@, cells, r as int, 0) == first_fault(
                fields,
                header@,
                cells,
                r as int,
                i as int,
            ),
            forall|k: int|
                0 <= k < i ==> field_value(fields[k], header@, cells, r as int, k) == Ok::<
                    ValueView,
                    TableFault,
                >(#[trigger] values@[k]@),
        decreases n - i,
    {
        let field: &Field = &schema[i];
        assert(fields[i as int] == field@);
        assert(columns@[i as int] == column_of(header@, field@.header));
        proof {
            lemma_first_column(header@, field@.header, 0);
        }
        let value: Value = match columns[i] {
            Column::Missing => {
                if field.required {
                    return Err(TableFault::MissingColumn { field: i });
                }
                Value::Absent
            },
            Column::Repeated => {
                return Err(TableFault::RepeatedColumn { field: i });
            },
            Column::At(j) => {
                assert(cells[j as int] == row@[j as int]@);
                match decode_cell(field.kind, field.required, row[j].as_str()) {
                    Ok(v) => v,
                    Err(fault) => {
                        return Err(TableFault::Cell { row: r, field: i, fault });
                    },
                }
            },
        };
        assert(field_value(fields[i as int], header@, cells, r as int, i as int) == Ok::<
            ValueView,
            TableFault,
        >(value@));
        values.push(value);
        i += 1;
    }
    assert(values_view(values@) =~= Seq::new(
        fields.len(),
        |k: int| field_value(fields[k], header@, cells, r as int, k)->Ok_0,
    ));
    Ok(values)
}

/// Reads a table of cells as rows of values. The first row is the header
/// row and says where each field's column stands; columns that no field of
/// the schema names are passed over. Every later row must have as many cells
/// as the header row. The first row that is refused ends the reading: no rows
/// are handed out for a table with a fault. A table without rows under the
/// header row has no fault.
pub fn decode_table(schema: &Vec<Field>, table: &Vec<Vec<String>>) -> (res: Result<
    Vec<Vec<Value>>,
    TableFault,
>)
    ensures
        match res {
            Ok(rows) => table_values(schema_view(schema@), table_view(table@)) == Ok::<
                Seq<Seq<ValueView>>,
                TableFault,
            >(rows_view(rows@)),
            Err(e) => table_values(schema_view(schema@), table_view(table@)) == Err::<
                Seq<Seq<ValueView>>,
                TableFault,
            >(e),
        },
{
    let ghost fields = schema_view(schema@);
    let ghost cells = table_view(table@);
    let mut rows: Vec<Vec<Value>> = Vec::new();
    if table.len() == 0 {
        assert(rows_view(rows@) =~= Seq::<Seq<ValueView>>::empty());
        return Ok(rows);
    }
    let header: &Vec<String> = &table[0];
    let ghost names = row_view(header@);
    assert(cells[0] == names);
    let width: usize = header.len();
    let n: usize = schema.len();
    let mut columns: Vec<Column> = Vec::new();
    let mut i: usize = 0;
    while i < n
        invariant
            i <= n,
            n == schema@.len(),
            names == row_view(header@),
            columns@.len() == i,
            forall|k: int|
                0 <= k < i ==> #[trigger] columns@[k] == column_of(names, schema@[k]@.header),
        decreases n - i,
    {
        let c: Column = find_column(header, schema[i].header);
        columns.push(c);
        i += 1;
    }
    let m: usize = table.len();
    let mut r: usize = 1;
    while r < m
        invariant
            1 <= r <= m,
            m == table@.len(),
            fields == schema_view(schema@),
            cells == table_view(table@),
            names == cells[0],
            names.len() == width,
            columns@.len() == schema@.len(),
            forall|k: int|
                0 <= k < schema@.len() ==> #[trigger] columns@[k] == column_of(
                    names,
                    schema@[k]@.header,
                ),
            rows@.len() == r - 1,
            first_bad_row(fields, cells, 1) == first_bad_row(fields, cells, r as int),
            forall|k: int|
                0 <= k < r - 1 ==> row_values(fields, names, cells[k + 1], k + 1) == Ok::<
                    Seq<ValueView>,
                    TableFault,
                >(values_view(#[trigger] rows@[k]@)),
        decreases m - r,
    {
        let row: &Vec<String> = &table[r];
        assert(cells[r as int] == row_view(row@));
        if row.len() != width {
            return Err(TableFault::ColumnCount { row: r, expected: width, found: row.len() });
        }
        match decode_fields(schema, Ghost(names), &columns, row, r) {
            Ok(values) => {
                rows.push(values);
            },
            Err(e) => {
                return Err(e);
            },
        }
        r += 1;
    }
    assert(rows_view(rows@) =~= Seq::new(
        (cells.len() - 1) as nat,
        |k: int| row_values(fields, cells[0], cells[k + 1], k + 1)->Ok_0,
    ));
    Ok(rows)
}

/// The header row of a schema: the column names in the order of the fields.
pub open spec fn header_cells(schema: Seq<FieldView>) -> Seq<Seq<char>> {
    Seq::new(schema.len(), |i: int| schema[i].header)
}

/// The cells of one row of values.
pub open spec fn row_cells(values: Seq<ValueView>) -> Seq<Seq<char>> {
    Seq::new(values.len(), |i: int| cell_text(values[i]))
}

/// The table written for rows of values: the header row, then one row of
/// cells for each row of values.
pub open spec fn table_cells(schema: Seq<FieldView>, rows: Seq<Seq<ValueView>>) -> Seq<
    Seq<Seq<char>>,
> {
    Seq::new(
        rows.len() + 1,
        |r: int|
            if r == 0 {
                header_cells(schema)
            } else {
                row_cells(rows[r - 1])
            },
    )
}

/// Writes the header row of a schema.
pub fn header_row(schema: &Vec<Field>) -> (row: Vec<String>)
    ensures
        row_view(row@) == header_cells(schema_view(schema@)),
{
    let n: usize = schema.len();
    let mut row: Vec<String> = Vec::new();
    let mut i: usize = 0;
    while i < n
        invariant
            i <= n,
            n == schema@.len(),
            row@.len() == i,
            forall|k: int| 0 <= k < i ==> #[trigger] row@[k]@ == schema@[k]@.header,
        decreases n - i,
    {
        row.push(String::from_str(schema[i].header));
        i += 1;
    }
    assert(row_view(row@) =~= header_cells(schema_view(schema@)));
    row
}

/// Writes one row of values as cells.
pub fn encode_row(values: &Vec<Value>) -> (row: Vec<String>)
    ensures
        row_view(row@) == row_cells(values_view(values@)),
{
    let n: usize = values.len();
    let mut row: Vec<String> = Vec::new();
    let mut i: usize = 0;
    while i < n
        invariant
            i <= n,
            n == values@.len(),
            row@.len() == i,
            forall|k: int| 0 <= k < i ==> #[trigger] row@[k]@ == cell_text(values@[k]@),
        decreases n - i,
    {
        row.push(encode_cell(&values[i]));
        i += 1;
    }
    assert(row_view(row@) =~= row_cells(values_view(values@)));
    row
}

/// Writes rows of values as a table of cells under the schema's header row.
pub fn encode_table(schema: &Vec<Field>, rows: &Vec<Vec<Value>>) -> (table: Vec<Vec<String>>)
    ensures
        table_view(table@) == table_cells(schema_view(schema@), rows_view(rows@)),
{
    let n: usize = rows.len();
    let mut table: Vec<Vec<String>> = Vec::new();
    table.push(header_row(schema));
    let mut i: usize = 0;
    while i < n
        invariant
            i <= n,
            n == rows@.len(),
            table@.len() == i + 1,
            row_view(table@[0]@) == header_cells(schema_view(schema@)),
            forall|k: int|
                0 <= k < i ==> row_view(#[trigger] table@[k + 1]@) == row_cells(
                    values_view(rows@[k]@),
                ),
        decreases n - i,
    {
        table.push(encode_row(&rows[i]));
        i += 1;
    }
    assert(table_view(table@) =~= table_cells(schema_view(schema@), rows_view(rows@))) by {
        assert forall|r: int| 0 <= r < table@.len() implies table_view(table@)[r] == table_cells(
            schema_view(schema@),
            rows_view(rows@),
        )[r] by {
            if r > 0 {
                assert(row_view(table@[(r - 1) + 1]@) == row_cells(values_view(rows@[r - 1]@)));
            }
        }
    }
    table
}

/// No two fields of the schema have the same column name.
pub open spec fn distinct_headers(schema: Seq<FieldView>) -> bool {
    forall|i: int, j: int|
        0 <= i < j < schema.len() ==> (#[trigger] schema[i]).header != (#[trigger] schema[j]).header
}

/// The row has one value for each field of the schema, and each value is one
/// that its field can hold.
pub open spec fn row_fits(values: Seq<ValueView>, schema: Seq<FieldView>) -> bool {
    &&& values.len() == schema.len()
    &&& forall|i: int|
        0 <= i < schema.len() ==> fits(#[trigger] values[i], schema[i].kind, schema[i].required)
}

/// The row has one value for each field of the schema, each of the kind of
/// its field.
pub open spec fn row_of_kinds(values: Seq<Value>, schema: Seq<FieldView>) -> bool {
    &&& values.len() == schema.len()
    &&& forall|i: int|
        0 <= i < schema.len() ==> of_kind(
            (#[trigger] values[i])@,
            schema[i].kind,
            schema[i].required,
        )
}

/// Whether a row has one value for each field of the schema, each one that
/// its field can hold.
pub fn row_is_fit(schema: &Vec<Field>, values: &Vec<Value>) -> (r: bool)
    ensures
        r == row_fits(values_view(values@), schema_view(schema@)),
{
    let n: usize = schema.len();
    if values.len() != n {
        return false;
    }
    let mut i: usize = 0;
    while i < n
        invariant
            i <= n,
            n == schema@.len(),
            n == values@.len(),
            forall|k: int|
                0 <= k < i ==> fits(
                    #[trigger] values_view(values@)[k],
                    schema_view(schema@)[k].kind,
                    schema_view(schema@)[k].required,
                ),
        decreases n - i,
    {
        if !value_fits(&values[i], schema[i].kind, schema[i].required) {
            assert(!fits(
                values_view(values@)[i as int],
                schema_view(schema@)[i as int].kind,
                schema_view(schema@)[i as int].required,
            ));
            return false;
        }
        i += 1;
    }
    true
}

proof fn lemma_no_column_after(schema: Seq<FieldView>, i: int, from: int)
    requires
        distinct_headers(schema),
        0 <= i < from,
        i < schema.len(),
    ensures
        first_column(header_cells(schema), schema[i].header, from) == schema.len(),
    decreases schema.len() - from,
{
    if from < schema.len() {
        assert(schema[i].header != schema[from].header);
        lemma_no_column_after(schema, i, from + 1);
    }
}

proof fn lemma_column_before(schema: Seq<FieldView>, i: int, from: int)
    requires
        distinct_headers(schema),
        0 <= from <= i < schema.len(),
    ensures
        first_column(header_cells(schema), schema[i].header, from) == i,
    decreases i - from,
{
    if from < i {
        assert(schema[from].header != schema[i].header);
        lemma_column_before(schema, i, from + 1);
    }
}

proof fn lemma_own_column(schema: Seq<FieldView>, i: int)
    requires
        distinct_headers(schema),
        0 <= i < schema.len() <= usize::MAX,
    ensures
        column_of(header_cells(schema), schema[i].header) == Column::At(i as usize),
{
    lemma_column_before(schema, i, 0);
    lemma_no_column_after(schema, i, i + 1);
}

proof fn lemma_no_fault(schema: Seq<FieldView>, values: Seq<ValueView>, r: int, from: int)
    requires
        distinct_headers(schema),
        schema.len() <= usize::MAX,
        row_fits(values, schema),
        0 <= from,
    ensures
        first_fault(schema, header_cells(schema), row_cells(values), r, from) is None,
        forall|i: int|
            0 <= i < schema.len() ==> #[trigger] field_value(
                schema[i],
                header_cells(schema),
                row_cells(values),
                r,
                i,
            ) == Ok::<ValueView, TableFault>(values[i]),
    decreases schema.len() - from,
{
    assert forall|i: int| 0 <= i < schema.len() implies #[trigger] field_value(
        schema[i],
        header_cells(schema),
        row_cells(values),
        r,
        i,
    ) == Ok::<ValueView, TableFault>(values[i]) by {
        lemma_own_column(schema, i);
        assert(fits(values[i], schema[i].kind, schema[i].required));
        law_cell_round_trip(values[i], schema[i].kind, schema[i].required);
    }
    if from < schema.len() {
        lemma_no_fault(schema, values, r, from + 1);
    }
}

proof fn lemma_row_round_trip(schema: Seq<FieldView>, values: Seq<ValueView>, r: int)
    requires
        distinct_headers(schema),
        schema.len() <= usize::MAX,
        row_fits(values, schema),
    ensures
        row_values(schema, header_cells(schema), row_cells(values), r) == Ok::<
            Seq<ValueView>,
            TableFault,
        >(values),
{
    lemma_no_fault(schema, values, r, 0);
    assert(Seq::new(
        schema.len(),
        |i: int| field_value(schema[i], header_cells(schema), row_cells(values), r, i)->Ok_0,
    ) =~= values);
}

proof fn lemma_no_bad_row(schema: Seq<FieldView>, rows: Seq<Seq<ValueView>>, from: int)
    requires
        distinct_headers(schema),
        schema.len() <= usize::MAX,
        forall|k: int| 0 <= k < rows.len() ==> row_fits(#[trigger] rows[k], schema),
        1 <= from,
    ensures
        first_bad_row(schema, table_cells(schema, rows), from) is None,
    decreases rows.len() + 1 - from,
{
    if from < rows.len() + 1 {
        assert(row_fits(rows[from - 1], schema));
        lemma_row_round_trip(schema, rows[from - 1], from);
        lemma_no_bad_row(schema, rows, from + 1);
    }
}

/// Reading the table written for rows of values gives the rows back, where
/// the schema's column names are distinct and every value is one that its
/// field can hold.
pub proof fn law_table_round_trip(schema: Seq<FieldView>, rows: Seq<Seq<ValueView>>)
    requires
        distinct_headers(schema),
        schema.len() <= usize::MAX,
        forall|k: int| 0 <= k < rows.len() ==> row_fits(#[trigger] rows[k], schema),
    ensures
        table_values(schema, table_cells(schema, rows)) == Ok::<Seq<Seq<ValueView>>, TableFault>(
            rows,
        ),
{
    let table = table_cells(schema, rows);
    lemma_no_bad_row(schema, rows, 1);
    assert forall|k: int| 0 <= k < rows.len() implies row_values(
        schema,
        table[0],
        table[k + 1],
        k + 1,
    )->Ok_0 == rows[k] by {
        assert(row_fits(rows[k], schema));
        lemma_row_round_trip(schema, rows[k], k + 1);
    }
    assert(Seq::new(
        (table.len() - 1) as nat,
        |k: int| row_values(schema, table[0], table[k + 1], k + 1)->Ok_0,
    ) =~= rows);
}

proof fn lemma_fault_found(
    schema: Seq<FieldView>,
    header: Seq<Seq<char>>,
    row: Seq<Seq<char>>,
    r: int,
    i: int,
    from: int,
)
    requires
        0 <= from <= i < schema.len(),
        field_value(schema[i], header, row, r, i) is Err,
    ensures
        first_fault(schema, header, row, r, from) is Some,
    decreases i - from,
{
    if from < i {
        lemma_fault_found(schema, header, row, r, i, from + 1);
    }
}

/// A row is refused if a required field has no column of its own or has an
/// empty cell in it, whatever the other cells hold.
pub proof fn law_required_field(
    schema: Seq<FieldView>,
    header: Seq<Seq<char>>,
    row: Seq<Seq<char>>,
    r: int,
    i: int,
)
    requires
        0 <= i < schema.len(),
        schema[i].required,
        column_of(header, schema[i].header) matches Column::At(j) ==> row[j as int].len() == 0,
    ensures
        row_values(schema, header, row, r) is Err,
{
    lemma_fault_found(schema, header, row, r, i, 0);
}

/// A row with a cell that its field refuses is refused, whatever its other
/// cells hold.
pub proof fn law_refused_cell(
    schema: Seq<FieldView>,
    header: Seq<Seq<char>>,
    row: Seq<Seq<char>>,
    r: int,
    i: int,
    j: usize,
)
    requires
        0 <= i < schema.len(),
        column_of(header, schema[i].header) == Column::At(j),
        cell_value(schema[i].kind, schema[i].required, row[j as int]) is Err,
    ensures
        row_values(schema, header, row, r) is Err,
{
    lemma_fault_found(schema, header, row, r, i, 0);
}

proof fn lemma_bad_row_found(
    schema: Seq<FieldView>,
    table: Seq<Seq<Seq<char>>>,
    r: int,
    from: int,
)
    requires
        1 <= from <= r < table.len(),
        row_values(schema, table[0], table[r], r) is Err,
    ensures
        first_bad_row(schema, table, from) is Some,
    decreases r - from,
{
    if from < r {
        lemma_bad_row_found(schema, table, r, from + 1);
    }
}

/// A table with a refused row is refused as a whole: no rows are read from
/// it.
pub proof fn law_refused_row(schema: Seq<FieldView>, table: Seq<Seq<Seq<char>>>, r: int)
    requires
        1 <= r < table.len(),
        row_values(schema, table[0], table[r], r) is Err,
    ensures
        table_values(schema, table) is Err,
{
    lemma_bad_row_found(schema, table, r, 1);
}

proof fn lemma_read_fields_fit(
    schema: Seq<FieldView>,
    header: Seq<Seq<char>>,
    row: Seq<Seq<char>>,
    r: int,
    from: int,
)
    requires
        0 <= from,
        first_fault(schema, header, row, r, from) is None,
    ensures
        forall|i: int|
            from <= i < schema.len() ==> {
                &&& #[trigger] field_value(schema[i], header, row, r, i) is Ok
                &&& fits(
                    field_value(schema[i], header, row, r, i)->Ok_0,
                    schema[i].kind,
                    schema[i].required,
                )
            },
    decreases schema.len() - from,
{
    if from < schema.len() {
        let field = schema[from];
        match column_of(header, field.header) {
            Column::At(j) => {
                crate::value::law_read_value_fits(field.kind, field.required, row[j as int]);
            },
            _ => {},
        }
        lemma_read_fields_fit(schema, header, row, r, from + 1);
    }
}

/// The rows read from a table hold, for each field of the schema, a value
/// that the field can hold.
pub proof fn law_read_rows_fit(schema: Seq<FieldView>, table: Seq<Seq<Seq<char>>>)
    requires
        table_values(schema, table) is Ok,
    ensures
        table_values(schema, table)->Ok_0.len() == if table.len() == 0 {
            0
        } else {
            table.len() - 1
        },
        forall|k: int|
            0 <= k < table_values(schema, table)->Ok_0.len() ==> row_fits(
                #[trigger] table_values(schema, table)->Ok_0[k],
                schema,
            ),
{
    let rows = table_values(schema, table)->Ok_0;
    assert forall|k: int| 0 <= k < rows.len() implies row_fits(#[trigger] rows[k], schema) by {
        lemma_good_row(schema, table, k + 1, 1);
        lemma_read_fields_fit(schema, table[0], table[k + 1], k + 1, 0);
    }
}

proof fn lemma_good_row(schema: Seq<FieldView>, table: Seq<Seq<Seq<char>>>, r: int, from: int)
    requires
        1 <= from <= r < table.len(),
        first_bad_row(schema, table, from) is None,
    ensures
        row_values(schema, table[0], table[r], r) is Ok,
    decreases r - from,
{
    if from < r {
        lemma_good_row(schema, table, r, from + 1);
    }
}

} // verus!
