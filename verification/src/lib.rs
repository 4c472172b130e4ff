//! Validation of comma-separated tables against a declared column schema.
//!
//! A schema is itself a table of four columns, `id`, `type`, `constraints`
//! and `description`, with one row for each column of the tables it
//! describes. A table conforms to a schema if its header names the columns of
//! the schema, in order, and every cell is accepted by the type and the
//! constraints of its column. Files are named by table, day and schema.

pub mod calendar;
pub mod check;
pub mod column;
pub mod err;
pub mod filename;
pub mod pretty;
pub mod report;
pub mod schema;
pub mod table;
pub mod text;
pub mod value;

pub use crate::column::ColumnConstraints;
pub use crate::column::ColumnType;
pub use crate::column::CsvxColumnType;
pub use crate::filename::parse_filename;
pub use crate::filename::CsvxMetadata;
pub use crate::schema::CsvxSchema;
pub use crate::value::Value;
