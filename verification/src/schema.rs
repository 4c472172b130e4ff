//! Schemas: the ordered column declarations of a table, read from a table of
//! four columns, and the validation of the tables that a schema describes.

use vstd::prelude::*;
use vstd::std_specs::iter::IteratorSpec;
use vstd::string::*;

use crate::column::is_column_id;
use crate::column::lemma_parsed_type_wf;
use crate::column::parse_constraints;
use crate::column::parse_type;
use crate::column::ColumnConstraints;
use crate::column::ColumnModel;
use crate::column::ColumnType;
use crate::column::CsvxColumnType;
use crate::err::ErrorAtLocation;
use crate::err::Located;
use crate::err::Location;
use crate::err::LocationModel;
use crate::err::SchemaLoadError;
use crate::err::SchemaLoadErrorModel;
use crate::err::ValidationError;
use crate::err::ValidationErrorModel;
use crate::table::csv_records;
use crate::table::read_records;
use crate::table::records_model;
use crate::table::Record;
use crate::table::RecordModel;
use crate::text::char_is_digit;
use crate::text::char_is_lower;
use crate::text::chars_of;
use crate::text::is_digit;
use crate::text::is_lower;
use crate::text::result_model;
use crate::text::str_eq;
use crate::value::cell_value;
use crate::value::first_position;
use crate::value::is_first_position;
use crate::value::Value;
use crate::value::ValueModel;

verus! {

broadcast use vstd::string::group_string_axioms;

/// What the decoder's message is replaced by where a record of a schema has
/// not the four fields of a column declaration.
pub const MSG_NOT_FOUR_FIELDS: &'static str = "a column declaration has four fields";

/// The ordered column declarations that the tables of one kind conform to.
#[derive(Clone, Debug, PartialEq, Eq)]
pub struct CsvxSchema {
    columns: Vec<CsvxColumnType>,
}

impl DeepView for CsvxSchema {
    type V = Seq<ColumnModel>;

    closed spec fn deep_view(&self) -> Seq<ColumnModel> {
        self.columns.deep_view()
    }
}

/// The header of a schema: the four fields `id`, `type`, `constraints` and
/// `description`, in this order.
pub open spec fn is_schema_header(fields: Seq<Seq<char>>) -> bool {
    &&& fields.len() == 4
    &&& fields[0] == "id"@
    &&& fields[1] == "type"@
    &&& fields[2] == "constraints"@
    &&& fields[3] == "description"@
}

/// A schema error at a place.
pub type SchemaLoadFailure = Located<SchemaLoadErrorModel, LocationModel>;

/// The column that the record `fields` on line `line` of the schema declares,
/// or the first thing that is wrong with it: the name is checked first, then
/// the type, then the constraints. The description is taken as it is.
pub open spec fn column_of_row(fields: Seq<Seq<char>>, line: usize, filename: Seq<char>) -> Result<
    ColumnModel,
    SchemaLoadFailure,
> {
    if fields.len() != 4 {
        Err(
            Located {
                location: LocationModel::FileLine(filename, 1),
                error: SchemaLoadErrorModel::Csv(MSG_NOT_FOUR_FIELDS@),
            },
        )
    } else if !is_column_id(fields[0]) {
        Err(
            Located {
                location: LocationModel::FileLineField(filename, line, 1),
                error: SchemaLoadErrorModel::BadIdentifier(fields[0]),
            },
        )
    } else {
        match parse_type(fields[1]) {
            Err(e) => Err(
                Located {
                    location: LocationModel::FileLineField(filename, line, 1),
                    error: SchemaLoadErrorModel::BadType(e),
                },
            ),
            Ok(ty) => match parse_constraints(fields[2]) {
                Err(e) => Err(
                    Located {
                        location: LocationModel::FileLine(filename, line),
                        error: SchemaLoadErrorModel::BadConstraints(e),
                    },
                ),
                Ok(constraints) => Ok(
                    ColumnModel {
                        id: fields[0],
                        ty: ty,
                        constraints: constraints,
                        description: fields[3],
                    },
                ),
            },
        }
    }
}

/// The columns that the records after the header and before position `upto`
/// declare, in the order of the records, or the error of the first record
/// among them that declares none. The record at position `i` stands on line
/// `i + 1`.
pub open spec fn columns_of_rows(records: Seq<RecordModel>, upto: int, filename: Seq<char>) -> Result<
    Seq<ColumnModel>,
    SchemaLoadFailure,
>
    decreases upto,
{
    if upto <= 1 {
        Ok(Seq::<ColumnModel>::empty())
    } else {
        match columns_of_rows(records, upto - 1, filename) {
            Err(e) => Err(e),
            Ok(columns) => match records[upto - 1] {
                Err(message) => Err(
                    Located {
                        location: LocationModel::FileLine(filename, 1),
                        error: SchemaLoadErrorModel::Csv(message),
                    },
                ),
                Ok(fields) => match column_of_row(fields, upto as usize, filename) {
                    Err(e) => Err(e),
                    Ok(column) => Ok(columns.push(column)),
                },
            },
        }
    }
}

/// The schema that the records of a schema table declare, or the one error
/// that stops the load: a table without records has no header; the first
/// record must be the header of a schema; every further record declares one
/// column, and the first that does not stops the load.
pub open spec fn schema_of_records(records: Seq<RecordModel>, filename: Seq<char>) -> Result<
    Seq<ColumnModel>,
    SchemaLoadFailure,
> {
    if records.len() == 0 {
        Err(
            Located {
                location: LocationModel::FileLine(filename, 1),
                error: SchemaLoadErrorModel::MissingHeader,
            },
        )
    } else {
        match records[0] {
            Err(message) => Err(
                Located {
                    location: LocationModel::File(filename),
                    error: SchemaLoadErrorModel::Csv(message),
                },
            ),
            Ok(header) => if is_schema_header(header) {
                columns_of_rows(records, records.len() as int, filename)
            } else {
                Err(
                    Located {
                        location: LocationModel::FileLine(filename, 1),
                        error: SchemaLoadErrorModel::BadHeader,
                    },
                )
            },
        }
    }
}

/// A record that declares a column declares a well-formed one.
pub proof fn lemma_declared_column_wf(fields: Seq<Seq<char>>, line: usize, filename: Seq<char>)
    ensures
        column_of_row(fields, line, filename) matches Ok(column) ==> column.wf(),
{
    if fields.len() == 4 {
        lemma_parsed_type_wf(fields[1]);
    }
}

/// Once a record has stopped the load, the records after it change nothing.
pub proof fn lemma_first_error_stays(
    records: Seq<RecordModel>,
    at: int,
    upto: int,
    filename: Seq<char>,
)
    requires
        at <= upto,
        columns_of_rows(records, at, filename) is Err,
    ensures
        columns_of_rows(records, upto, filename) == columns_of_rows(records, at, filename),
    decreases upto - at,
{
    if at < upto {
        lemma_first_error_stays(records, at, upto - 1, filename);
    }
}

/// The columns come in the order of the records: as long as no record stops
/// the load, there is one column for each record after the header.
pub proof fn lemma_columns_follow_rows(records: Seq<RecordModel>, upto: int, filename: Seq<char>)
    requires
        1 <= upto <= records.len(),
    ensures
        columns_of_rows(records, upto, filename) matches Ok(columns) ==> {
            &&& columns.len() == upto - 1
            &&& forall|i: int|
                1 <= i < upto ==> ((#[trigger] records[i]) matches Ok(fields) && column_of_row(
                    fields,
                    (i + 1) as usize,
                    filename,
                ) == Ok::<ColumnModel, SchemaLoadFailure>(columns[i - 1]))
        },
    decreases upto,
{
    if upto > 1 {
        lemma_columns_follow_rows(records, upto - 1, filename);
    }
}

/// A validation error at a place.
pub type ValidationFailure = Located<ValidationErrorModel, LocationModel>;

/// A validation error at a field of a row.
pub type CellFailure = Located<ValidationErrorModel, usize>;

/// The header of a table: its first record. A table without records has a
/// header without fields.
pub open spec fn header_of(records: Seq<RecordModel>) -> RecordModel {
    if records.len() == 0 {
        Ok(Seq::<Seq<char>>::empty())
    } else {
        records[0]
    }
}

/// One error for each of the first `upto` fields of the header that is not
/// the name of the column at its position, in the order of the fields. Each
/// carries the field and stands at line 1 and at the field's number.
pub open spec fn header_mismatches(
    columns: Seq<ColumnModel>,
    header: Seq<Seq<char>>,
    upto: int,
    filename: Seq<char>,
) -> Seq<ValidationFailure>
    decreases upto,
{
    if upto <= 0 {
        Seq::<ValidationFailure>::empty()
    } else {
        let before = header_mismatches(columns, header, upto - 1, filename);
        if columns[upto - 1].id != header[upto - 1] {
            before.push(
                Located {
                    location: LocationModel::FileLineField(filename, 1, upto as usize),
                    error: ValidationErrorModel::HeaderMismatch(header[upto - 1]),
                },
            )
        } else {
            before
        }
    }
}

/// One error for each of the first `upto` cells of the row `fields` that its
/// column refuses, in the order of the cells. Each stands at the row's line
/// and at the cell's number.
pub open spec fn cell_errors(
    columns: Seq<ColumnModel>,
    fields: Seq<Seq<char>>,
    upto: int,
    line: usize,
    filename: Seq<char>,
) -> Seq<ValidationFailure>
    decreases upto,
{
    if upto <= 0 {
        Seq::<ValidationFailure>::empty()
    } else {
        let before = cell_errors(columns, fields, upto - 1, line, filename);
        match cell_value(
            columns[upto - 1].ty,
            columns[upto - 1].constraints.nullable,
            fields[upto - 1],
        ) {
            Err(e) => before.push(
                Located {
                    location: LocationModel::FileLineField(filename, line, upto as usize),
                    error: ValidationErrorModel::ValueError(e),
                },
            ),
            Ok(_) => before,
        }
    }
}

/// The number of cells of a row that have a column: a row is read against
/// the columns position by position, as far as both reach.
pub open spec fn paired(columns: int, fields: int) -> int {
    if columns <= fields {
        columns
    } else {
        fields
    }
}

/// The cell errors of all rows after the header and before position `upto`,
/// in the order of the rows and, within a row, of its cells. If the decoder
/// found a defect in the place of one of these rows, the message of the first
/// such defect is the result instead. The record at position `i` stands on
/// line `i + 1`.
pub open spec fn rows_errors(
    columns: Seq<ColumnModel>,
    records: Seq<RecordModel>,
    upto: int,
    filename: Seq<char>,
) -> Result<Seq<ValidationFailure>, Seq<char>>
    decreases upto,
{
    if upto <= 1 {
        Ok(Seq::<ValidationFailure>::empty())
    } else {
        match rows_errors(columns, records, upto - 1, filename) {
            Err(message) => Err(message),
            Ok(errors) => match records[upto - 1] {
                Err(message) => Err(message),
                Ok(fields) => Ok(
                    errors + cell_errors(
                        columns,
                        fields,
                        paired(columns.len() as int, fields.len() as int),
                        upto as usize,
                        filename,
                    ),
                ),
            },
        }
    }
}

/// The list that holds the one error `error` at line 1 of `filename`.
pub open spec fn at_line_one(error: ValidationErrorModel, filename: Seq<char>) -> Seq<
    ValidationFailure,
> {
    seq![Located { location: LocationModel::FileLine(filename, 1), error: error }]
}

/// What validating the records of a table against the columns of a schema
/// gives: nothing to report, or the list of what is wrong.
///
/// A header with another number of fields than there are columns is reported
/// alone, and so are the fields of the header that do not name their column:
/// in both cases no row is looked at. Otherwise every cell of every row is
/// checked and every refused cell reported, in the order of the table. A
/// defect of the decoder is reported alone, whatever was found before it.
pub open spec fn validation_of(
    columns: Seq<ColumnModel>,
    records: Seq<RecordModel>,
    filename: Seq<char>,
) -> Result<(), Seq<ValidationFailure>> {
    match header_of(records) {
        Err(message) => Err(at_line_one(ValidationErrorModel::Csv(message), filename)),
        Ok(header) => {
            if header.len() != columns.len() {
                Err(at_line_one(ValidationErrorModel::MissingHeaders, filename))
            } else {
                let mismatches = header_mismatches(
                    columns,
                    header,
                    columns.len() as int,
                    filename,
                );
                if mismatches.len() > 0 {
                    Err(mismatches)
                } else {
                    match rows_errors(columns, records, records.len() as int, filename) {
                        Err(message) => Err(
                            at_line_one(ValidationErrorModel::Csv(message), filename),
                        ),
                        Ok(errors) => if errors.len() == 0 {
                            Ok(())
                        } else {
                            Err(errors)
                        },
                    }
                }
            }
        },
    }
}

/// Once the decoder's defect has been met, the rows after it change nothing.
pub proof fn lemma_first_defect_stays(
    columns: Seq<ColumnModel>,
    records: Seq<RecordModel>,
    at: int,
    upto: int,
    filename: Seq<char>,
)
    requires
        at <= upto,
        rows_errors(columns, records, at, filename) is Err,
    ensures
        rows_errors(columns, records, upto, filename) == rows_errors(
            columns,
            records,
            at,
            filename,
        ),
    decreases upto - at,
{
    if at < upto {
        lemma_first_defect_stays(columns, records, at, upto - 1, filename);
    }
}

/// A header with another number of fields than the schema has columns is
/// all that is reported, whatever the rows hold: the result is the one error
/// that headers are missing, at line 1.
pub proof fn lemma_header_count_decides(
    columns: Seq<ColumnModel>,
    records: Seq<RecordModel>,
    filename: Seq<char>,
)
    requires
        header_of(records) matches Ok(header) && header.len() != columns.len(),
    ensures
        validation_of(columns, records, filename) == Err::<(), Seq<ValidationFailure>>(
            at_line_one(ValidationErrorModel::MissingHeaders, filename),
        ),
{
}

/// Validating one text against one schema twice gives the same result: two
/// results of [`CsvxSchema::validate_file`] for the same schema, text and
/// file name hold the same errors in the same order.
pub proof fn lemma_validation_repeats(
    schema: &CsvxSchema,
    text: &str,
    filename: &str,
    first: Result<(), Vec<ErrorAtLocation<ValidationError, Location>>>,
    second: Result<(), Vec<ErrorAtLocation<ValidationError, Location>>>,
)
    requires
        result_model(first) == validation_of(schema.deep_view(), csv_records(text@), filename@),
        result_model(second) == validation_of(schema.deep_view(), csv_records(text@), filename@),
    ensures
        result_model(first) == result_model(second),
        first is Ok <==> second is Ok,
        first matches Err(a) ==> second matches Err(b) && a.deep_view() == b.deep_view(),
{
}

/// Every refused cell among the first `upto` cells of a row is reported, at
/// its place.
pub proof fn lemma_refused_cell_reported(
    columns: Seq<ColumnModel>,
    fields: Seq<Seq<char>>,
    upto: int,
    line: usize,
    filename: Seq<char>,
    idx: int,
)
    requires
        0 <= idx < upto,
        cell_value(columns[idx].ty, columns[idx].constraints.nullable, fields[idx]) is Err,
    ensures
        cell_errors(columns, fields, upto, line, filename).contains(
            Located {
                location: LocationModel::FileLineField(filename, line, (idx + 1) as usize),
                error: ValidationErrorModel::ValueError(
                    cell_value(
                        columns[idx].ty,
                        columns[idx].constraints.nullable,
                        fields[idx],
                    )->Err_0,
                ),
            },
        ),
    decreases upto,
{
    let wanted = Located {
        location: LocationModel::FileLineField(filename, line, (idx + 1) as usize),
        error: ValidationErrorModel::ValueError(
            cell_value(columns[idx].ty, columns[idx].constraints.nullable, fields[idx])->Err_0,
        ),
    };
    let now = cell_errors(columns, fields, upto, line, filename);
    let before = cell_errors(columns, fields, upto - 1, line, filename);
    if idx == upto - 1 {
        assert(now == before.push(wanted));
        assert(now[now.len() - 1] == wanted);
    } else {
        lemma_refused_cell_reported(columns, fields, upto - 1, line, filename, idx);
        let k = choose|k: int| 0 <= k < before.len() && before[k] == wanted;
        assert(now[k] == wanted);
    }
}

/// Validation does not stop at the first refused cell: where the header fits
/// and the decoder found no defect, every refused cell of every row is in the
/// list, at the line of its row and at its number in the row.
pub proof fn lemma_all_refused_cells_reported(
    columns: Seq<ColumnModel>,
    records: Seq<RecordModel>,
    upto: int,
    filename: Seq<char>,
    row: int,
    idx: int,
)
    requires
        1 <= row < upto <= records.len(),
        rows_errors(columns, records, upto, filename) is Ok,
        records[row] is Ok,
        0 <= idx < paired(columns.len() as int, records[row]->Ok_0.len() as int),
        cell_value(
            columns[idx].ty,
            columns[idx].constraints.nullable,
            records[row]->Ok_0[idx],
        ) is Err,
    ensures
        rows_errors(columns, records, upto, filename)->Ok_0.contains(
            Located {
                location: LocationModel::FileLineField(
                    filename,
                    (row + 1) as usize,
                    (idx + 1) as usize,
                ),
                error: ValidationErrorModel::ValueError(
                    cell_value(
                        columns[idx].ty,
                        columns[idx].constraints.nullable,
                        records[row]->Ok_0[idx],
                    )->Err_0,
                ),
            },
        ),
    decreases upto,
{
    let fields = records[row]->Ok_0;
    let wanted = Located {
        location: LocationModel::FileLineField(filename, (row + 1) as usize, (idx + 1) as usize),
        error: ValidationErrorModel::ValueError(
            cell_value(columns[idx].ty, columns[idx].constraints.nullable, fields[idx])->Err_0,
        ),
    };
    let before = rows_errors(columns, records, upto - 1, filename)->Ok_0;
    let last = records[upto - 1]->Ok_0;
    let found = cell_errors(
        columns,
        last,
        paired(columns.len() as int, last.len() as int),
        upto as usize,
        filename,
    );
    let now = rows_errors(columns, records, upto, filename)->Ok_0;
    assert(now == before + found);
    if row == upto - 1 {
        lemma_refused_cell_reported(
            columns,
            fields,
            paired(columns.len() as int, fields.len() as int),
            upto as usize,
            filename,
            idx,
        );
        let k = choose|k: int| 0 <= k < found.len() && found[k] == wanted;
        assert(now[before.len() + k] == wanted);
    } else {
        lemma_all_refused_cells_reported(columns, records, upto - 1, filename, row, idx);
        let k = choose|k: int| 0 <= k < before.len() && before[k] == wanted;
        assert(now[k] == wanted);
    }
}

/// The values of the first `upto` cells of the row `fields`, in order, or the
/// error of the first cell among them that its column refuses, at the cell's
/// number.
pub open spec fn row_values(columns: Seq<ColumnModel>, fields: Seq<Seq<char>>, upto: int) -> Result<
    Seq<Option<ValueModel>>,
    CellFailure,
>
    decreases upto,
{
    if upto <= 0 {
        Ok(Seq::<Option<ValueModel>>::empty())
    } else {
        match row_values(columns, fields, upto - 1) {
            Err(e) => Err(e),
            Ok(values) => match cell_value(
                columns[upto - 1].ty,
                columns[upto - 1].constraints.nullable,
                fields[upto - 1],
            ) {
                Err(e) => Err(
                    Located {
                        location: upto as usize,
                        error: ValidationErrorModel::ValueError(e),
                    },
                ),
                Ok(value) => Ok(values.push(value)),
            },
        }
    }
}

/// Once a cell has been refused, the cells after it change nothing.
pub proof fn lemma_first_refusal_stays(
    columns: Seq<ColumnModel>,
    fields: Seq<Seq<char>>,
    at: int,
    upto: int,
)
    requires
        at <= upto,
        row_values(columns, fields, at) is Err,
    ensures
        row_values(columns, fields, upto) == row_values(columns, fields, at),
    decreases upto - at,
{
    if at < upto {
        lemma_first_refusal_stays(columns, fields, at, upto - 1);
    }
}

/// The names of the columns, in order.
pub open spec fn column_ids(columns: Seq<ColumnModel>) -> Seq<Seq<char>> {
    Seq::new(columns.len(), |i: int| columns[i].id)
}

/// The value of the cell at position `idx` of the row `fields`, read by the
/// column at that position. Where the schema has no such column or the row no
/// such cell, the schema does not fit.
pub open spec fn field_value(columns: Seq<ColumnModel>, fields: Seq<Seq<char>>, idx: int) -> Result<
    Option<ValueModel>,
    ValidationErrorModel,
> {
    if 0 <= idx < columns.len() && idx < fields.len() {
        match cell_value(columns[idx].ty, columns[idx].constraints.nullable, fields[idx]) {
            Ok(value) => Ok(value),
            Err(e) => Err(ValidationErrorModel::ValueError(e)),
        }
    } else {
        Err(ValidationErrorModel::SchemaMismatch)
    }
}

/// The value of the cell of the row `fields` that stands under the first
/// column named `name`.
pub open spec fn named_field_value(
    columns: Seq<ColumnModel>,
    fields: Seq<Seq<char>>,
    name: Seq<char>,
) -> Result<Option<ValueModel>, ValidationErrorModel> {
    match first_position(column_ids(columns), name) {
        Some(idx) => field_value(columns, fields, idx),
        None => Err(ValidationErrorModel::SchemaMismatch),
    }
}

/// Whether `id` is the name of a column.
fn column_id_ok(id: &str) -> (ok: bool)
    ensures
        ok == is_column_id(id@),
{
    let v = chars_of(id);
    if v.len() == 0 || !char_is_lower(v[0]) {
        return false;
    }
    let mut i: usize = 1;
    while i < v.len()
        invariant
            1 <= i <= v.len(),
            v@ == id@,
            is_lower(v@[0]),
            forall|j: int|
                0 <= j < i ==> is_lower(#[trigger] v@[j]) || is_digit(v@[j]) || v@[j] == '_',
        decreases v.len() - i,
    {
        let c = v[i];
        if !char_is_lower(c) && !char_is_digit(c) && c != '_' {
            return false;
        }
        i += 1;
    }
    true
}

/// Whether `fields` is the header of a schema.
fn schema_header_ok(fields: &Vec<String>) -> (ok: bool)
    ensures
        ok == is_schema_header(fields.deep_view()),
{
    fields.len() == 4 && str_eq(fields[0].as_str(), "id") && str_eq(fields[1].as_str(), "type")
        && str_eq(fields[2].as_str(), "constraints") && str_eq(
        fields[3].as_str(),
        "description",
    )
}

/// Reads the declaration of one column from the record `fields` on line
/// `line` of the schema `filename`.
fn column_from_row(fields: &Vec<String>, line: usize, filename: &str) -> (column: Result<
    CsvxColumnType,
    ErrorAtLocation<SchemaLoadError, Location>,
>)
    ensures
        result_model(column) == column_of_row(fields.deep_view(), line, filename@),
{
    if fields.len() != 4 {
        return Err(
            ErrorAtLocation::with_location(
                SchemaLoadError::Csv(MSG_NOT_FOUR_FIELDS.to_owned()),
                Location::FileLine(filename.to_owned(), 1),
            ),
        );
    }
    if !column_id_ok(fields[0].as_str()) {
        return Err(
            ErrorAtLocation::with_location(
                SchemaLoadError::BadIdentifier(fields[0].clone()),
                Location::FileLineField(filename.to_owned(), line, 1),
            ),
        );
    }
    let ty = match ColumnType::try_from(fields[1].as_str()) {
        Ok(ty) => ty,
        Err(e) => {
            return Err(
                ErrorAtLocation::with_location(
                    SchemaLoadError::BadType(e),
                    Location::FileLineField(filename.to_owned(), line, 1),
                ),
            );
        },
    };
    let constraints = match ColumnConstraints::try_from(fields[2].as_str()) {
        Ok(constraints) => constraints,
        Err(e) => {
            return Err(
                ErrorAtLocation::with_location(
                    SchemaLoadError::BadConstraints(e),
                    Location::FileLine(filename.to_owned(), line),
                ),
            );
        },
    };
    Ok(
        CsvxColumnType {
            id: fields[0].clone(),
            ty: ty,
            constraints: constraints,
            description: fields[3].clone(),
        },
    )
}

impl CsvxSchema {
    /// The columns, in contracts.
    pub closed spec fn spec_columns(&self) -> &Vec<CsvxColumnType> {
        &self.columns
    }

    /// The columns, in the order of their declaration.
    #[verifier::when_used_as_spec(spec_columns)]
    pub fn columns(&self) -> (columns: &Vec<CsvxColumnType>)
        ensures
            columns == self.spec_columns(),
            columns.deep_view() == self.deep_view(),
    {
        &self.columns
    }

    /// The columns, one after the other in the order of their declaration.
    pub fn iter_columns(&self) -> (columns: std::slice::Iter<'_, CsvxColumnType>)
        ensures
            columns.remaining() == self.spec_columns()@.as_ref(),
    {
        broadcast use vstd::std_specs::slice::axiom_spec_slice_iter;

        self.columns.iter()
    }

    /// The schema with the columns `columns`, in this order.
    pub fn from_columns(columns: Vec<CsvxColumnType>) -> (schema: CsvxSchema)
        ensures
            schema.deep_view() == columns.deep_view(),
    {
        CsvxSchema { columns: columns }
    }

    /// Builds the schema that the records of a schema table declare. The load
    /// stops at the first thing that is wrong, and reports that alone.
    pub fn from_records(records: &Vec<Record>, filename: &str) -> (loaded: Result<
        CsvxSchema,
        ErrorAtLocation<SchemaLoadError, Location>,
    >)
        ensures
            result_model(loaded) == schema_of_records(records_model(records@), filename@),
            loaded matches Ok(schema) ==> {
                &&& schema.deep_view().len() == records.len() - 1
                &&& forall|i: int|
                    1 <= i < records.len() ==> ((#[trigger] records_model(
                        records@,
                    )[i]) matches Ok(fields) && column_of_row(
                        fields,
                        (i + 1) as usize,
                        filename@,
                    ) == Ok::<ColumnModel, SchemaLoadFailure>(schema.deep_view()[i - 1]))
                &&& forall|i: int|
                    0 <= i < schema.deep_view().len() ==> (#[trigger] schema.deep_view()[i]).wf()
            },
    {
        let n: usize = records.len();
        let ghost model = records_model(records@);
        if n == 0 {
            return Err(
                ErrorAtLocation::with_location(
                    SchemaLoadError::MissingHeader,
                    Location::FileLine(filename.to_owned(), 1),
                ),
            );
        }
        match &records[0] {
            Err(message) => {
                return Err(
                    ErrorAtLocation::with_location(
                        SchemaLoadError::Csv(message.clone()),
                        Location::File(filename.to_owned()),
                    ),
                );
            },
            Ok(header) => {
                if !schema_header_ok(header) {
                    return Err(
                        ErrorAtLocation::with_location(
                            SchemaLoadError::BadHeader,
                            Location::FileLine(filename.to_owned(), 1),
                        ),
                    );
                }
            },
        }
        let mut columns: Vec<CsvxColumnType> = Vec::new();
        let mut i: usize = 1;
        proof {
            assert(columns.deep_view() =~= Seq::<ColumnModel>::empty());
        }
        while i < n
            invariant
                1 <= i <= n,
                n == records.len(),
                model == records_model(records@),
                model[0] matches Ok(header) && is_schema_header(header),
                columns_of_rows(model, i as int, filename@) == Ok::<
                    Seq<ColumnModel>,
                    SchemaLoadFailure,
                >(columns.deep_view()),
            decreases n - i,
        {
            let ghost before = columns.deep_view();
            match &records[i] {
                Err(message) => {
                    proof {
                        lemma_first_error_stays(model, i + 1, n as int, filename@);
                    }
                    return Err(
                        ErrorAtLocation::with_location(
                            SchemaLoadError::Csv(message.clone()),
                            Location::FileLine(filename.to_owned(), 1),
                        ),
                    );
                },
                Ok(fields) => {
                    match column_from_row(fields, i + 1, filename) {
                        Err(e) => {
                            proof {
                                lemma_first_error_stays(model, i + 1, n as int, filename@);
                            }
                            return Err(e);
                        },
                        Ok(column) => {
                            columns.push(column);
                            proof {
                                assert(columns.deep_view() =~= before.push(column.deep_view()));
                            }
                        },
                    }
                },
            }
            i += 1;
        }
        proof {
            lemma_columns_follow_rows(model, n as int, filename@);
            assert forall|i: int| 0 <= i < columns.deep_view().len() implies (
            #[trigger] columns.deep_view()[i]).wf() by {
                assert(model[i + 1] is Ok);
                lemma_declared_column_wf(model[i + 1]->Ok_0, (i + 2) as usize, filename@);
            }
        }
        Ok(CsvxSchema { columns: columns })
    }

    /// Reads a schema from the text of a schema table: a header of the four
    /// fields `id`, `type`, `constraints` and `description`, and one record
    /// for each column. `filename` is used to say where an error was found.
    pub fn from_string(src: &str, filename: &str) -> (loaded: Result<
        CsvxSchema,
        ErrorAtLocation<SchemaLoadError, Location>,
    >)
        ensures
            result_model(loaded) == schema_of_records(csv_records(src@), filename@),
            loaded matches Ok(schema) ==> {
                &&& schema.deep_view().len() == csv_records(src@).len() - 1
                &&& forall|i: int|
                    0 <= i < schema.deep_view().len() ==> (#[trigger] schema.deep_view()[i]).wf()
            },
    {
        let records = read_records(src);
        CsvxSchema::from_records(&records, filename)
    }
    /// The position of the first column named `col`.
    pub fn col_idx(&self, col: &str) -> (position: Option<usize>)
        ensures
            position matches Some(i) ==> first_position(column_ids(self.deep_view()), col@)
                == Some(i as int),
            position is None ==> first_position(column_ids(self.deep_view()), col@) is None,
    {
        let ghost ids = column_ids(self.deep_view());
        let mut i: usize = 0;
        while i < self.columns.len()
            invariant
                i <= self.columns.len(),
                ids == column_ids(self.deep_view()),
                forall|j: int| 0 <= j < i ==> #[trigger] ids[j] != col@,
            decreases self.columns.len() - i,
        {
            if str_eq(self.columns[i].id.as_str(), col) {
                proof {
                    assert(ids[i as int] == self.columns@[i as int].id@);
                    assert(is_first_position(ids, col@, i as int));
                    let chosen = choose|at: int| is_first_position(ids, col@, at);
                    assert(is_first_position(ids, col@, chosen));
                    if chosen < i {
                        assert(ids[chosen] != col@);
                    }
                }
                return Some(i);
            }
            proof {
                assert(ids[i as int] == self.columns@[i as int].id@);
            }
            i += 1;
        }
        None
    }

    /// Validates the records of a table, the header among them as the first,
    /// against this schema. `filename` is used to say where an error was found.
    #[verifier::loop_isolation(false)]
    pub fn validate_records(&self, records: &Vec<Record>, filename: &str) -> (checked: Result<
        (),
        Vec<ErrorAtLocation<ValidationError, Location>>,
    >)
        ensures
            result_model(checked) == validation_of(
                self.deep_view(),
                records_model(records@),
                filename@,
            ),
            checked matches Err(errors) ==> errors.len() > 0,
            header_of(records_model(records@)) matches Ok(header) && header.len()
                != self.deep_view().len() ==> result_model(checked) == Err::<
                (),
                Seq<ValidationFailure>,
            >(at_line_one(ValidationErrorModel::MissingHeaders, filename@)),
    {
        let n: usize = records.len();
        let width: usize = self.columns.len();
        let ghost model = records_model(records@);
        let ghost columns = self.deep_view();
        let no_fields: Vec<String> = Vec::new();
        let header: &Vec<String> = if n == 0 {
            &no_fields
        } else {
            match &records[0] {
                Err(message) => {
                    return Err(alone(ValidationError::Csv(message.clone()), filename));
                },
                Ok(header) => header,
            }
        };
        assert(header_of(model) == Ok::<Seq<Seq<char>>, Seq<char>>(header.deep_view())) by {
            if n == 0 {
                assert(header.deep_view() =~= Seq::<Seq<char>>::empty());
            }
        }
        if header.len() != width {
            return Err(alone(ValidationError::MissingHeaders, filename));
        }
        let mut errs: Vec<ErrorAtLocation<ValidationError, Location>> = Vec::new();
        let mut idx: usize = 0;
        proof {
            assert(errs.deep_view() =~= Seq::<ValidationFailure>::empty());
        }
        while idx < width
            invariant
                idx <= width,
                width == self.columns.len(),
                width == header.len(),
                columns == self.deep_view(),
                errs.deep_view() == header_mismatches(
                    columns,
                    header.deep_view(),
                    idx as int,
                    filename@,
                ),
            decreases width - idx,
        {
            let ghost before = errs.deep_view();
            if !str_eq(self.columns[idx].id.as_str(), header[idx].as_str()) {
                errs.push(
                    ErrorAtLocation::with_location(
                        ValidationError::HeaderMismatch(header[idx].clone()),
                        Location::FileLineField(filename.to_owned(), 1, idx + 1),
                    ),
                );
                proof {
                    assert(errs.deep_view() =~= before.push(errs@[errs.len() - 1].deep_view()));
                }
            }
            idx += 1;
        }
        if errs.len() != 0 {
            return Err(errs);
        }
        proof {
            assert(errs.deep_view() =~= Seq::<ValidationFailure>::empty());
        }
        let ghost mismatches = header_mismatches(
            columns,
            header.deep_view(),
            width as int,
            filename@,
        );
        assert(mismatches.len() == 0);
        let mut i: usize = 1;
        while i < n
            invariant
                1 <= i,
                i <= n || i == 1,
                n == records.len(),
                width == self.columns.len(),
                model == records_model(records@),
                columns == self.deep_view(),
                rows_errors(columns, model, i as int, filename@) == Ok::<
                    Seq<ValidationFailure>,
                    Seq<char>,
                >(errs.deep_view()),
            decreases n - i,
        {
            match &records[i] {
                Err(message) => {
                    proof {
                        lemma_first_defect_stays(columns, model, i + 1, n as int, filename@);
                    }
                    return Err(alone(ValidationError::Csv(message.clone()), filename));
                },
                Ok(fields) => {
                    let cells: usize = if width <= fields.len() {
                        width
                    } else {
                        fields.len()
                    };
                    let ghost earlier = errs.deep_view();
                    let mut idx: usize = 0;
                    proof {
                        assert(errs.deep_view() =~= earlier + Seq::<ValidationFailure>::empty());
                    }
                    while idx < cells
                        invariant
                            idx <= cells,
                            cells <= width,
                            cells <= fields.len(),
                            width == self.columns.len(),
                            columns == self.deep_view(),
                            i < n,
                            errs.deep_view() == earlier + cell_errors(
                                columns,
                                fields.deep_view(),
                                idx as int,
                                (i + 1) as usize,
                                filename@,
                            ),
                        decreases cells - idx,
                    {
                        let ghost before = errs.deep_view();
                        let ghost found = cell_errors(
                            columns,
                            fields.deep_view(),
                            idx as int,
                            (i + 1) as usize,
                            filename@,
                        );
                        if let Err(e) = self.columns[idx].validate_value(fields[idx].as_str()) {
                            errs.push(
                                ErrorAtLocation::with_location(
                                    ValidationError::ValueError(e),
                                    Location::FileLineField(filename.to_owned(), i + 1, idx + 1),
                                ),
                            );
                            proof {
                                let last = errs@[errs.len() - 1].deep_view();
                                assert(errs.deep_view() =~= before.push(last));
                                assert(before.push(last) =~= earlier + found.push(last));
                            }
                        }
                        idx += 1;
                    }
                },
            }
            i += 1;
        }
        proof {
            if n == 0 {
                let none = Ok::<Seq<ValidationFailure>, Seq<char>>(
                    Seq::<ValidationFailure>::empty(),
                );
                assert(rows_errors(columns, model, 0, filename@) == none);
                assert(rows_errors(columns, model, 1, filename@) == none);
            }
            assert(errs.deep_view().len() == errs.len());
        }
        if errs.len() != 0 {
            Err(errs)
        } else {
            Ok(())
        }
    }

    /// Validates the table written in `text` against this schema: the header
    /// must name the columns of the schema, in order, and every cell of every
    /// row must be accepted by its column. All cells are checked, and every
    /// refused cell is reported. `filename` is used to say where an error was
    /// found.
    pub fn validate_file(&self, text: &str, filename: &str) -> (checked: Result<
        (),
        Vec<ErrorAtLocation<ValidationError, Location>>,
    >)
        ensures
            result_model(checked) == validation_of(
                self.deep_view(),
                csv_records(text@),
                filename@,
            ),
            checked matches Err(errors) ==> errors.len() > 0,
            header_of(csv_records(text@)) matches Ok(header) && header.len()
                != self.deep_view().len() ==> result_model(checked) == Err::<
                (),
                Seq<ValidationFailure>,
            >(at_line_one(ValidationErrorModel::MissingHeaders, filename@)),
    {
        let records = read_records(text);
        self.validate_records(&records, filename)
    }

    /// Decodes the cells of one row against the columns of this schema,
    /// position by position, as far as both reach. The first cell that its
    /// column refuses stops the row; its number, counted from 1, says where.
    #[verifier::loop_isolation(false)]
    pub fn parse_row(&self, fields: &[String]) -> (decoded: Result<
        Vec<Option<Value>>,
        ErrorAtLocation<ValidationError, usize>,
    >)
        ensures
            result_model(decoded) == row_values(
                self.deep_view(),
                fields.deep_view(),
                paired(self.deep_view().len() as int, fields.deep_view().len() as int),
            ),
    {
        let width: usize = self.columns.len();
        let cells: usize = if width <= fields.len() {
            width
        } else {
            fields.len()
        };
        let ghost columns = self.deep_view();
        let mut rv: Vec<Option<Value>> = Vec::new();
        let mut idx: usize = 0;
        proof {
            assert(rv.deep_view() =~= Seq::<Option<ValueModel>>::empty());
        }
        while idx < cells
            invariant
                idx <= cells,
                cells <= width,
                cells <= fields.len(),
                width == self.columns.len(),
                columns == self.deep_view(),
                row_values(columns, fields.deep_view(), idx as int) == Ok::<
                    Seq<Option<ValueModel>>,
                    CellFailure,
                >(rv.deep_view()),
            decreases cells - idx,
        {
            let ghost before = rv.deep_view();
            match self.columns[idx].validate_value(fields[idx].as_str()) {
                Err(e) => {
                    proof {
                        lemma_first_refusal_stays(
                            columns,
                            fields.deep_view(),
                            idx + 1,
                            cells as int,
                        );
                    }
                    return Err(
                        ErrorAtLocation::with_location(ValidationError::ValueError(e), idx + 1),
                    );
                },
                Ok(v) => {
                    rv.push(v);
                    proof {
                        assert(rv.deep_view() =~= before.push(rv@[rv.len() - 1].deep_view()));
                    }
                },
            }
            idx += 1;
        }
        Ok(rv)
    }

    /// Decodes the cell at position `idx`, counted from 0, of one row.
    pub fn read_field(&self, fields: &[String], idx: usize) -> (decoded: Result<
        Option<Value>,
        ValidationError,
    >)
        ensures
            result_model(decoded) == field_value(
                self.deep_view(),
                fields.deep_view(),
                idx as int,
            ),
    {
        if idx >= self.columns.len() || idx >= fields.len() {
            return Err(ValidationError::SchemaMismatch);
        }
        match self.columns[idx].validate_value(fields[idx].as_str()) {
            Ok(field) => Ok(field),
            Err(e) => Err(ValidationError::ValueError(e)),
        }
    }

    /// Decodes the cell of one row that stands under the first column named
    /// `name`.
    pub fn read_field_by_name(&self, fields: &[String], name: &str) -> (decoded: Result<
        Option<Value>,
        ValidationError,
    >)
        ensures
            result_model(decoded) == named_field_value(
                self.deep_view(),
                fields.deep_view(),
                name@,
            ),
    {
        match self.col_idx(name) {
            Some(idx) => self.read_field(fields, idx),
            None => Err(ValidationError::SchemaMismatch),
        }
    }
}

/// The list that holds the one error `error`, at line 1 of `filename`.
fn alone(error: ValidationError, filename: &str) -> (errors: Vec<
    ErrorAtLocation<ValidationError, Location>,
>)
    ensures
        errors.deep_view() == at_line_one(error.deep_view(), filename@),
        errors.len() == 1,
{
    let mut errors: Vec<ErrorAtLocation<ValidationError, Location>> = Vec::new();
    errors.push(
        ErrorAtLocation::with_location(error, Location::FileLine(filename.to_owned(), 1)),
    );
    assert(errors.deep_view() =~= at_line_one(error.deep_view(), filename@));
    errors
}

} // verus!
