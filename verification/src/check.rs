//! The decisions of a check run: whether a file may serve as the schema,
//! whether a data file belongs to that schema, and how the run ends.
//!
//! Opening files and reporting are the caller's business; what is decided
//! between them is decided here, from file names and results.

use vstd::prelude::*;
use vstd::string::*;

use crate::err::CheckError;
use crate::err::CheckErrorModel;
use crate::err::ErrorAtLocation;
use crate::err::Located;
use crate::err::Location;
use crate::err::LocationModel;
use crate::filename::metadata_of;
use crate::filename::parse_filename;
use crate::filename::CsvxMetadata;
use crate::filename::MetadataModel;
use crate::text::has_prefix;
use crate::text::result_model;
use crate::text::str_eq;

verus! {

/// A check error at a place.
pub type CheckFailure = Located<CheckErrorModel, LocationModel>;

/// The run ends well: the schema was loaded and every data file conforms.
pub const EXIT_OK: i32 = 0;

/// The run could not be made: the schema or the name of a file is unusable.
pub const EXIT_FATAL: i32 = 1;

/// The run was made, and at least one data file does not conform.
pub const EXIT_INVALID: i32 = 2;

/// What the file named `name` at `path` says of itself if it is to serve as
/// the schema: its name must be a file name, and must say that the file is a
/// schema.
pub open spec fn schema_file(name: Seq<char>, path: Seq<char>) -> Result<
    MetadataModel,
    CheckFailure,
> {
    match metadata_of(name) {
        None => Err(
            Located {
                location: LocationModel::File(path),
                error: CheckErrorModel::InvalidCsvxFilename(name),
            },
        ),
        Some(m) => if has_prefix(m.schema, "csvx-schema-"@) {
            Ok(m)
        } else {
            Err(Located { location: LocationModel::File(path), error: CheckErrorModel::NotASchema })
        },
    }
}

/// What the data file named `name` at `path` says of itself if it is to be
/// checked against the schema of the table `schema_table`: its name must be a
/// file name, and must name that table as its schema.
pub open spec fn data_file(schema_table: Seq<char>, name: Seq<char>, path: Seq<char>) -> Result<
    MetadataModel,
    CheckFailure,
> {
    match metadata_of(name) {
        None => Err(
            Located {
                location: LocationModel::File(name),
                error: CheckErrorModel::InvalidCsvxFilename(name),
            },
        ),
        Some(m) => if m.schema == schema_table {
            Ok(m)
        } else {
            Err(
                Located {
                    location: LocationModel::File(path),
                    error: CheckErrorModel::SchemaMismatch { schema: schema_table, data: m.schema },
                },
            )
        },
    }
}

/// Reads the name `name` of the file at `path` that is to serve as the
/// schema.
pub fn schema_metadata(name: &str, path: &str) -> (metadata: Result<
    CsvxMetadata,
    ErrorAtLocation<CheckError, Location>,
>)
    ensures
        result_model(metadata) == schema_file(name@, path@),
{
    match parse_filename(name) {
        None => Err(
            ErrorAtLocation::with_location(
                CheckError::InvalidCsvxFilename(name.to_owned()),
                Location::File(path.to_owned()),
            ),
        ),
        Some(meta) => {
            if meta.is_schema() {
                Ok(meta)
            } else {
                Err(
                    ErrorAtLocation::with_location(
                        CheckError::NotASchema,
                        Location::File(path.to_owned()),
                    ),
                )
            }
        },
    }
}

/// Reads the name `name` of the data file at `path` that is to be checked
/// against the schema whose file is named by `schema`.
pub fn input_metadata(schema: &CsvxMetadata, name: &str, path: &str) -> (metadata: Result<
    CsvxMetadata,
    ErrorAtLocation<CheckError, Location>,
>)
    ensures
        result_model(metadata) == data_file(schema.table_name@, name@, path@),
{
    match parse_filename(name) {
        None => Err(
            ErrorAtLocation::with_location(
                CheckError::InvalidCsvxFilename(name.to_owned()),
                Location::File(name.to_owned()),
            ),
        ),
        Some(meta) => {
            if str_eq(meta.schema.as_str(), schema.table_name.as_str()) {
                Ok(meta)
            } else {
                let data = meta.schema.clone();
                Err(
                    ErrorAtLocation::with_location(
                        CheckError::SchemaMismatch {
                            schema: schema.table_name.clone(),
                            data: data,
                        },
                        Location::File(path.to_owned()),
                    ),
                )
            }
        },
    }
}

/// The exit status of a run: `outcome` says whether all data files conform,
/// or that the run could not be made.
pub fn exit_status<E>(outcome: &Result<bool, E>) -> (status: i32)
    ensures
        status == (match *outcome {
            Ok(true) => EXIT_OK,
            Ok(false) => EXIT_INVALID,
            Err(_) => EXIT_FATAL,
        }),
{
    match outcome {
        Ok(true) => EXIT_OK,
        Ok(false) => EXIT_INVALID,
        Err(_) => EXIT_FATAL,
    }
}

} // verus!
