//! Errors, and where in the input they were found.

use vstd::prelude::*;
use vstd::std_specs::convert::FromSpec;
use vstd::std_specs::convert::FromSpecImpl;
use vstd::std_specs::convert::IntoSpec;
use vstd::string::*;

use crate::text::ToText;

verus! {

/// Types that can explain themselves at length.
pub trait Helpful {
    /// The help message, in contracts.
    spec fn help_text(&self) -> Seq<char>;

    /// A long help message about the error.
    fn help(&self) -> (text: String)
        ensures
            text@ == self.help_text(),
    ;
}

/// Errors that can print themselves with their help.
pub trait HelpPrinter {
    /// Prints the error, the place where it was found and the help text.
    fn print_help(&self);
}

/// A place in the input data. Lines and fields count from 1; the header of a
/// table is its line 1.
#[derive(Clone, Debug, PartialEq, Eq)]
pub enum Location {
    /// File, line and field of that line.
    FileLineField(String, usize, usize),
    /// File and line.
    FileLine(String, usize),
    /// File.
    File(String),
    /// No place is known.
    Unspecified,
}

/// What a [`Location`] holds, as mathematical values.
pub enum LocationModel {
    FileLineField(Seq<char>, usize, usize),
    FileLine(Seq<char>, usize),
    File(Seq<char>),
    Unspecified,
}

impl DeepView for Location {
    type V = LocationModel;

    open spec fn deep_view(&self) -> LocationModel {
        match *self {
            Location::FileLineField(file, line, field) => LocationModel::FileLineField(
                file@,
                line,
                field,
            ),
            Location::FileLine(file, line) => LocationModel::FileLine(file@, line),
            Location::File(file) => LocationModel::File(file@),
            Location::Unspecified => LocationModel::Unspecified,
        }
    }
}

impl Default for Location {
    fn default() -> (location: Location)
        ensures
            location == Location::Unspecified,
    {
        Location::Unspecified
    }
}

/// An error together with the place where it was found.
#[derive(Debug, PartialEq, Eq)]
pub struct ErrorAtLocation<E, L> {
    location: L,
    error: E,
}

/// What an [`ErrorAtLocation`] holds, as mathematical values.
pub struct Located<E, L> {
    pub location: L,
    pub error: E,
}

impl<E: DeepView, L: DeepView> DeepView for ErrorAtLocation<E, L> {
    type V = Located<E::V, L::V>;

    open spec fn deep_view(&self) -> Located<E::V, L::V> {
        Located {
            location: self.spec_location().deep_view(),
            error: self.spec_error().deep_view(),
        }
    }
}

impl<E, L> ErrorAtLocation<E, L> {
    /// The error, in contracts.
    pub closed spec fn spec_error(&self) -> &E {
        &self.error
    }

    /// The place, in contracts.
    pub closed spec fn spec_location(&self) -> &L {
        &self.location
    }

    /// The error found.
    #[verifier::when_used_as_spec(spec_error)]
    pub fn error(&self) -> (error: &E)
        ensures
            error == self.spec_error(),
    {
        &self.error
    }

    /// The place where it was found.
    #[verifier::when_used_as_spec(spec_location)]
    pub fn location(&self) -> (location: &L)
        ensures
            location == self.spec_location(),
    {
        &self.location
    }
}

impl<E, L: Default> ErrorAtLocation<E, L> {
    /// Puts `error`, converted to `E`, at `location`.
    pub fn new<F: Into<E>>(location: L, error: F) -> (located: ErrorAtLocation<E, L>)
        ensures
            located.spec_location() == location,
            call_ensures(F::into, (error,), *located.spec_error()),
            F::obeys_into_spec() ==> located.spec_error() == error.into_spec(),
    {
        ErrorAtLocation { location: location, error: error.into() }
    }

    /// Puts `other`, converted to `E`, at the place that `L` has by default.
    pub fn from_error<F: Into<E>>(other: F) -> (located: ErrorAtLocation<E, L>)
        ensures
            call_ensures(L::default, (), *located.spec_location()),
            call_ensures(F::into, (other,), *located.spec_error()),
            F::obeys_into_spec() ==> located.spec_error() == other.into_spec(),
    {
        ErrorAtLocation { location: L::default(), error: other.into() }
    }

    /// Keeps the place and converts the error to `F`.
    pub fn convert<F: From<E>>(self) -> (located: ErrorAtLocation<F, L>)
        ensures
            located.spec_location() == self.spec_location(),
            call_ensures(F::from, (*self.spec_error(),), *located.spec_error()),
            F::obeys_from_spec() ==> located.spec_error() == F::from_spec(*self.spec_error()),
    {
        ErrorAtLocation { location: self.location, error: F::from(self.error) }
    }
}

impl<E, L: Default> From<E> for ErrorAtLocation<E, L> {
    /// Puts `e`, as it is, at the place that `L` has by default.
    fn from(e: E) -> (located: ErrorAtLocation<E, L>)
        ensures
            call_ensures(L::default, (), *located.spec_location()),
            *located.spec_error() == e,
    {
        ErrorAtLocation { location: L::default(), error: e }
    }
}

impl<E, L: Default> FromSpecImpl<E> for ErrorAtLocation<E, L> {
    /// The place is whatever `L::default` gives, which no spec function
    /// names: the conversion is stated by the `ensures` of `from` instead.
    open spec fn obeys_from_spec() -> bool {
        false
    }

    open spec fn from_spec(e: E) -> ErrorAtLocation<E, L> {
        arbitrary()
    }
}

impl<E, L> ErrorAtLocation<E, L> {
    /// Puts `error` at `location`, as it is.
    pub fn with_location(error: E, location: L) -> (located: ErrorAtLocation<E, L>)
        ensures
            located.spec_location() == location,
            located.spec_error() == error,
    {
        ErrorAtLocation { location: location, error: error }
    }
}

/// Errors, and what converts to them, can be put at a place.
pub trait ErrorLoc<E, L>: Sized {
    /// Puts `self`, converted to `E`, at `location`.
    fn at(self, location: L) -> ErrorAtLocation<E, L>;
}

impl<E, F: Into<E>, L: Default> ErrorLoc<E, L> for F {
    fn at(self, location: L) -> (located: ErrorAtLocation<E, L>)
        ensures
            located.spec_location() == location,
            call_ensures(F::into, (self,), *located.spec_error()),
            F::obeys_into_spec() ==> located.spec_error() == self.into_spec(),
    {
        ErrorAtLocation::new(location, self)
    }
}

/// Results whose error can be put at a place.
pub trait ResultLoc<V, E, L>: Sized {
    /// Puts the error of `self`, if it holds one, at `location`.
    fn error_at(self, location: L) -> Result<V, ErrorAtLocation<E, L>>;

    /// Puts the error of `self`, if it holds one, at the place that `floc` computes.
    fn err_at<G: FnOnce() -> L>(self, floc: G) -> Result<V, ErrorAtLocation<E, L>>
        requires
            floc.requires(()),
    ;
}

impl<V, E, F: Into<E>, L: Default> ResultLoc<V, E, L> for Result<V, F> {
    fn error_at(self, location: L) -> (located: Result<V, ErrorAtLocation<E, L>>)
        ensures
            match self {
                Ok(v) => located == Ok::<V, ErrorAtLocation<E, L>>(v),
                Err(f) => located matches Err(e) && e.spec_location() == location
                    && call_ensures(F::into, (f,), *e.spec_error()) && (F::obeys_into_spec()
                    ==> e.spec_error() == f.into_spec()),
            },
    {
        match self {
            Ok(v) => Ok(v),
            Err(f) => Err(ErrorAtLocation::new(location, f)),
        }
    }

    fn err_at<G: FnOnce() -> L>(self, floc: G) -> (located: Result<V, ErrorAtLocation<E, L>>)
        ensures
            match self {
                Ok(v) => located == Ok::<V, ErrorAtLocation<E, L>>(v),
                Err(f) => located matches Err(e) && floc.ensures((), *e.spec_location())
                    && call_ensures(F::into, (f,), *e.spec_error()) && (F::obeys_into_spec()
                    ==> e.spec_error() == f.into_spec()),
            },
    {
        match self {
            Ok(v) => Ok(v),
            Err(f) => Err(ErrorAtLocation::new(floc(), f)),
        }
    }
}

impl ToText for Location {
    open spec fn text(&self) -> Seq<char> {
        match *self {
            Location::FileLineField(file, line, field) => file@ + ":"@ + line.text() + "[field "@
                + field.text() + "]"@,
            Location::FileLine(file, line) => file@ + ":"@ + line.text() + "]"@,
            Location::File(file) => file@,
            Location::Unspecified => Seq::<char>::empty(),
        }
    }

    fn to_text(&self) -> (s: String) {
        match self {
            Location::FileLineField(file, line, field) => {
                let mut s = file.clone();
                s.append(":");
                s.append(line.to_text().as_str());
                s.append("[field ");
                s.append(field.to_text().as_str());
                s.append("]");
                s
            },
            Location::FileLine(file, line) => {
                let mut s = file.clone();
                s.append(":");
                s.append(line.to_text().as_str());
                s.append("]");
                s
            },
            Location::File(file) => file.clone(),
            Location::Unspecified => String::new(),
        }
    }
}

impl<E: ToText, L: ToText> ToText for ErrorAtLocation<E, L> {
    open spec fn text(&self) -> Seq<char> {
        self.spec_location().text() + ": "@ + self.spec_error().text()
    }

    fn to_text(&self) -> (s: String) {
        let mut s = self.location.to_text();
        s.append(": ");
        s.append(self.error.to_text().as_str());
        s
    }
}

pub const HELP_MALFORMED_CONSTRAINTS: &'static str =
    "The constraints could be not recognized. Constraints must be \
     all uppercase letters, comma-separated, with no spaces in \
     between.";

pub const HELP_UNKNOWN_CONSTRAINT: &'static str =
    "The constraint is not known to be a valid constraint. Valid \
     constraints are `NULLABLE` and `UNIQUE`.";

/// Why a constraint expression was refused. Both carry the whole expression.
#[derive(Clone, Debug, PartialEq, Eq)]
pub enum ColumnConstraintsError {
    /// The expression is not a list of uppercase words.
    MalformedConstraints(String),
    /// One of its words is no constraint.
    UnknownConstraint(String),
}

/// What a [`ColumnConstraintsError`] holds, as mathematical values.
pub enum ColumnConstraintsErrorModel {
    MalformedConstraints(Seq<char>),
    UnknownConstraint(Seq<char>),
}

impl DeepView for ColumnConstraintsError {
    type V = ColumnConstraintsErrorModel;

    open spec fn deep_view(&self) -> ColumnConstraintsErrorModel {
        match *self {
            ColumnConstraintsError::MalformedConstraints(s) => {
                ColumnConstraintsErrorModel::MalformedConstraints(s@)
            },
            ColumnConstraintsError::UnknownConstraint(s) => {
                ColumnConstraintsErrorModel::UnknownConstraint(s@)
            },
        }
    }
}

impl ColumnConstraintsError {
    /// The short description, in contracts.
    pub open spec fn description_text(&self) -> Seq<char> {
        match *self {
            ColumnConstraintsError::MalformedConstraints(_) => "malformed constraints"@,
            ColumnConstraintsError::UnknownConstraint(_) => "unknown constraint"@,
        }
    }

    /// A short description of the kind of error.
    pub fn description(&self) -> (d: &'static str)
        ensures
            d@ == self.description_text(),
    {
        match self {
            ColumnConstraintsError::MalformedConstraints(_) => "malformed constraints",
            ColumnConstraintsError::UnknownConstraint(_) => "unknown constraint",
        }
    }
}

impl ToText for ColumnConstraintsError {
    open spec fn text(&self) -> Seq<char> {
        match *self {
            ColumnConstraintsError::MalformedConstraints(s) => "malformed constraints: `"@ + s@
                + "`"@,
            ColumnConstraintsError::UnknownConstraint(s) => "unknown constraint: `"@ + s@ + "`"@,
        }
    }

    fn to_text(&self) -> (s: String) {
        match self {
            ColumnConstraintsError::MalformedConstraints(raw) => {
                let mut s = "malformed constraints: `".to_owned();
                s.append(raw.as_str());
                s.append("`");
                s
            },
            ColumnConstraintsError::UnknownConstraint(raw) => {
                let mut s = "unknown constraint: `".to_owned();
                s.append(raw.as_str());
                s.append("`");
                s
            },
        }
    }
}

impl Helpful for ColumnConstraintsError {
    open spec fn help_text(&self) -> Seq<char> {
        match *self {
            ColumnConstraintsError::MalformedConstraints(_) => HELP_MALFORMED_CONSTRAINTS@,
            ColumnConstraintsError::UnknownConstraint(_) => HELP_UNKNOWN_CONSTRAINT@,
        }
    }

    fn help(&self) -> (text: String) {
        match self {
            ColumnConstraintsError::MalformedConstraints(_) => HELP_MALFORMED_CONSTRAINTS.to_owned(),
            ColumnConstraintsError::UnknownConstraint(_) => HELP_UNKNOWN_CONSTRAINT.to_owned(),
        }
    }
}

pub const HELP_INVALID_BOOL: &'static str =
    "The value provided is not a valid BOOL. The only \
     acceptable for a boolean field are `TRUE` and \
     `FALSE`.";

pub const HELP_INVALID_INT: &'static str =
    "The value is not a valid integer. Integers must \
     contain only digits and no leading zeros.";

pub const HELP_INVALID_ENUM: &'static str =
    "The value is not a valid value for the ENUM. Valid\n                \
     values for this ENUM are: ";

pub const HELP_INVALID_DECIMAL: &'static str =
    "The value is not a valid DECIMAL. Decimal values must \
     only contain digits and a single decimal separator, in \
     the form of a dot `.`!";

pub const HELP_INVALID_DATE: &'static str =
    "The value is not a valid DATE. Date values must be formatted \
     as YYYYmmDD, where YYYY is the four-digit year, mm the two \
     digit month and DD the two-digit day. Example: The 31st of \
     Dec 2015 would be encoded as `20151231`.\n\n\
     Otherwise dates must be valid calendar dates.";

pub const HELP_INVALID_DATETIME: &'static str =
    "The value is not a valid DATETIME. Datetime values must be\n                \
     formatted as YYYYmmDDHHMMSS, where YYYY is the four-digit year,\n                \
     mm the two-digit month, DD the two-digit day, HH the \
     two-digit hour, MM the two-digit minute and SS the two-digit \
     second.\n\n\
     Ex: The 31st of Dec 2015, 23:01:58 would be encoded as \
     `20151231230158`.\n\n\n                \
     Otherwise datetimes must correspond to valid calendar dates \
     and clock times.";

pub const HELP_INVALID_TIME: &'static str =
    "The value is not a valid TIME. Time values must be\n                \
     formatted as HHMMSS, where HH is the two-digit hour, MM the \
     two-digit minute and SS the two-digit second.\n\n\
     Ex: 23:01:58 would be encoded as `230158`.\n\n\n                \
     Times must be valid clock times.";

pub const HELP_NON_NULLABLE: &'static str =
    "The field was not marked as `NULLABLE`, but did not contain \
     a value.";

/// Why a cell was refused. All but the first carry the cell's text, and the
/// enum error carries the variants that were allowed.
#[derive(Clone, Debug, PartialEq, Eq)]
pub enum ValueError {
    /// A field that was not NULLABLE had no value.
    NonNullable,
    /// Invalid boolean value.
    InvalidBool(String),
    /// Invalid integer.
    InvalidInt(String),
    /// Invalid enum value.
    InvalidEnum(String, Vec<String>),
    /// Invalid decimal value.
    InvalidDecimal(String),
    /// Invalid date value.
    InvalidDate(String),
    /// Invalid datetime value.
    InvalidDateTime(String),
    /// Invalid time value.
    InvalidTime(String),
}

/// What a [`ValueError`] holds, as mathematical values.
pub enum ValueErrorModel {
    NonNullable,
    InvalidBool(Seq<char>),
    InvalidInt(Seq<char>),
    InvalidEnum(Seq<char>, Seq<Seq<char>>),
    InvalidDecimal(Seq<char>),
    InvalidDate(Seq<char>),
    InvalidDateTime(Seq<char>),
    InvalidTime(Seq<char>),
}

impl DeepView for ValueError {
    type V = ValueErrorModel;

    open spec fn deep_view(&self) -> ValueErrorModel {
        match *self {
            ValueError::NonNullable => ValueErrorModel::NonNullable,
            ValueError::InvalidBool(s) => ValueErrorModel::InvalidBool(s@),
            ValueError::InvalidInt(s) => ValueErrorModel::InvalidInt(s@),
            ValueError::InvalidEnum(s, variants) => ValueErrorModel::InvalidEnum(
                s@,
                variants.deep_view(),
            ),
            ValueError::InvalidDecimal(s) => ValueErrorModel::InvalidDecimal(s@),
            ValueError::InvalidDate(s) => ValueErrorModel::InvalidDate(s@),
            ValueError::InvalidDateTime(s) => ValueErrorModel::InvalidDateTime(s@),
            ValueError::InvalidTime(s) => ValueErrorModel::InvalidTime(s@),
        }
    }
}

/// The words of `words`, each between two backticks, with a comma and a blank
/// between each two neighbours.
pub open spec fn quoted_list(words: Seq<Seq<char>>) -> Seq<char>
    decreases words.len(),
{
    if words.len() == 0 {
        Seq::<char>::empty()
    } else if words.len() == 1 {
        "`"@ + words[0] + "`"@
    } else {
        quoted_list(words.drop_last()) + ", "@ + "`"@ + words.last() + "`"@
    }
}

/// Writes the words of `words`, each between two backticks, with a comma and
/// a blank between each two neighbours.
pub fn quote_list(words: &Vec<String>) -> (s: String)
    ensures
        s@ == quoted_list(words.deep_view()),
{
    let mut s = String::new();
    let mut i: usize = 0;
    proof {
        assert(words.deep_view().take(0) =~= Seq::<Seq<char>>::empty());
    }
    while i < words.len()
        invariant
            i <= words.len(),
            s@ == quoted_list(words.deep_view().take(i as int)),
        decreases words.len() - i,
    {
        proof {
            let now = words.deep_view().take(i + 1);
            assert(now.drop_last() =~= words.deep_view().take(i as int));
            assert(now.last() == words@[i as int]@);
        }
        if i > 0 {
            s.append(", ");
        }
        s.append("`");
        s.append(words[i].as_str());
        s.append("`");
        proof {
            if i == 0 {
                assert(s@ =~= "`"@ + words@[0]@ + "`"@);
            }
        }
        i += 1;
    }
    proof {
        assert(words.deep_view().take(i as int) =~= words.deep_view());
    }
    s
}

impl ValueError {
    /// The short description, in contracts.
    pub open spec fn description_text(&self) -> Seq<char> {
        match *self {
            ValueError::NonNullable => "field is not nullable"@,
            ValueError::InvalidBool(_) => "invalid boolean"@,
            ValueError::InvalidInt(_) => "invalid integer"@,
            ValueError::InvalidEnum(_, _) => "invalid enum"@,
            ValueError::InvalidDecimal(_) => "invalid decimal"@,
            ValueError::InvalidDate(_) => "invalid date"@,
            ValueError::InvalidDateTime(_) => "invalid datetime"@,
            ValueError::InvalidTime(_) => "invalid time"@,
        }
    }

    /// A short description of the kind of error.
    pub fn description(&self) -> (d: &'static str)
        ensures
            d@ == self.description_text(),
    {
        match self {
            ValueError::NonNullable => "field is not nullable",
            ValueError::InvalidBool(_) => "invalid boolean",
            ValueError::InvalidInt(_) => "invalid integer",
            ValueError::InvalidEnum(_, _) => "invalid enum",
            ValueError::InvalidDecimal(_) => "invalid decimal",
            ValueError::InvalidDate(_) => "invalid date",
            ValueError::InvalidDateTime(_) => "invalid datetime",
            ValueError::InvalidTime(_) => "invalid time",
        }
    }
}

/// `raw` between a lead and a tail: the shape of the messages about a text
/// that could not be read.
fn framed(lead: &str, raw: &String, tail: &str) -> (s: String)
    ensures
        s@ == lead@ + raw@ + tail@,
{
    let mut s = lead.to_owned();
    s.append(raw.as_str());
    s.append(tail);
    s
}

impl ToText for ValueError {
    open spec fn text(&self) -> Seq<char> {
        match *self {
            ValueError::NonNullable => self.description_text(),
            ValueError::InvalidBool(s) => "could not parse `"@ + s@ + "` as BOOL"@,
            ValueError::InvalidInt(s) => "could not parse `"@ + s@ + "` as INTEGER"@,
            ValueError::InvalidEnum(s, _) => "could not parse `"@ + s@ + "` as valid ENUM value"@,
            ValueError::InvalidDecimal(s) => "could not parse ` "@ + s@ + "` as DECIMAL"@,
            ValueError::InvalidDate(s) => "could not parse `"@ + s@ + "` as DATE"@,
            ValueError::InvalidDateTime(s) => "could not parse ` "@ + s@ + "` as DATETIME"@,
            ValueError::InvalidTime(s) => "could not parse `"@ + s@ + "` as TIME"@,
        }
    }

    fn to_text(&self) -> (s: String) {
        match self {
            ValueError::NonNullable => self.description().to_owned(),
            ValueError::InvalidBool(raw) => framed("could not parse `", raw, "` as BOOL"),
            ValueError::InvalidInt(raw) => framed("could not parse `", raw, "` as INTEGER"),
            ValueError::InvalidEnum(raw, _) => framed(
                "could not parse `",
                raw,
                "` as valid ENUM value",
            ),
            ValueError::InvalidDecimal(raw) => framed("could not parse ` ", raw, "` as DECIMAL"),
            ValueError::InvalidDate(raw) => framed("could not parse `", raw, "` as DATE"),
            ValueError::InvalidDateTime(raw) => framed("could not parse ` ", raw, "` as DATETIME"),
            ValueError::InvalidTime(raw) => framed("could not parse `", raw, "` as TIME"),
        }
    }
}

impl Helpful for ValueError {
    open spec fn help_text(&self) -> Seq<char> {
        match *self {
            ValueError::InvalidBool(_) => HELP_INVALID_BOOL@,
            ValueError::InvalidInt(_) => HELP_INVALID_INT@,
            ValueError::InvalidEnum(_, variants) => HELP_INVALID_ENUM@ + quoted_list(
                variants.deep_view(),
            ) + "."@,
            ValueError::InvalidDecimal(_) => HELP_INVALID_DECIMAL@,
            ValueError::InvalidDate(_) => HELP_INVALID_DATE@,
            ValueError::InvalidDateTime(_) => HELP_INVALID_DATETIME@,
            ValueError::InvalidTime(_) => HELP_INVALID_TIME@,
            ValueError::NonNullable => HELP_NON_NULLABLE@,
        }
    }

    fn help(&self) -> (text: String) {
        match self {
            ValueError::InvalidBool(_) => HELP_INVALID_BOOL.to_owned(),
            ValueError::InvalidInt(_) => HELP_INVALID_INT.to_owned(),
            ValueError::InvalidEnum(_, variants) => {
                let list = quote_list(variants);
                framed(HELP_INVALID_ENUM, &list, ".")
            },
            ValueError::InvalidDecimal(_) => HELP_INVALID_DECIMAL.to_owned(),
            ValueError::InvalidDate(_) => HELP_INVALID_DATE.to_owned(),
            ValueError::InvalidDateTime(_) => HELP_INVALID_DATETIME.to_owned(),
            ValueError::InvalidTime(_) => HELP_INVALID_TIME.to_owned(),
            ValueError::NonNullable => HELP_NON_NULLABLE.to_owned(),
        }
    }
}

pub const HELP_UNKNOWN_TYPE: &'static str =
    "The column type specified is not known. Valid types are \
     `STRING`, `BOOL`, `INTEGER`, `ENUM(...)`, `DECIMAL`, \
     `DATE`, `DATETIME` and `TIME`";

pub const HELP_BAD_ENUM: &'static str =
    "The `ENUM` specified is not valid. Enums must be of the form \
     `ENUM(V1,V2,V3,` ... `)`. Note that variants must be of \
     uppercase letters and numbers only, separated by commas, \
     with no spaces allowed in between";

/// Why a type expression was refused. Both carry the whole expression.
#[derive(Clone, Debug, PartialEq, Eq)]
pub enum ColumnTypeError {
    /// Unknown column type.
    UnknownType(String),
    /// The type is meant to be an `ENUM`, but is not a valid one.
    BadEnum(String),
}

/// What a [`ColumnTypeError`] holds, as mathematical values.
pub enum ColumnTypeErrorModel {
    UnknownType(Seq<char>),
    BadEnum(Seq<char>),
}

impl DeepView for ColumnTypeError {
    type V = ColumnTypeErrorModel;

    open spec fn deep_view(&self) -> ColumnTypeErrorModel {
        match *self {
            ColumnTypeError::UnknownType(s) => ColumnTypeErrorModel::UnknownType(s@),
            ColumnTypeError::BadEnum(s) => ColumnTypeErrorModel::BadEnum(s@),
        }
    }
}

impl ColumnTypeError {
    /// The short description, in contracts.
    pub open spec fn description_text(&self) -> Seq<char> {
        match *self {
            ColumnTypeError::UnknownType(_) => "unknown column type"@,
            ColumnTypeError::BadEnum(_) => "bad enum"@,
        }
    }

    /// A short description of the kind of error.
    pub fn description(&self) -> (d: &'static str)
        ensures
            d@ == self.description_text(),
    {
        match self {
            ColumnTypeError::UnknownType(_) => "unknown column type",
            ColumnTypeError::BadEnum(_) => "bad enum",
        }
    }
}

impl ToText for ColumnTypeError {
    open spec fn text(&self) -> Seq<char> {
        match *self {
            ColumnTypeError::UnknownType(s) => "unknown column type `"@ + s@ + "`"@,
            ColumnTypeError::BadEnum(s) => "bad enum `"@ + s@ + "`"@,
        }
    }

    fn to_text(&self) -> (s: String) {
        match self {
            ColumnTypeError::UnknownType(raw) => framed("unknown column type `", raw, "`"),
            ColumnTypeError::BadEnum(raw) => framed("bad enum `", raw, "`"),
        }
    }
}

impl Helpful for ColumnTypeError {
    open spec fn help_text(&self) -> Seq<char> {
        match *self {
            ColumnTypeError::UnknownType(_) => HELP_UNKNOWN_TYPE@,
            ColumnTypeError::BadEnum(_) => HELP_BAD_ENUM@,
        }
    }

    fn help(&self) -> (text: String) {
        match self {
            ColumnTypeError::UnknownType(_) => HELP_UNKNOWN_TYPE.to_owned(),
            ColumnTypeError::BadEnum(_) => HELP_BAD_ENUM.to_owned(),
        }
    }
}

pub const HELP_IO: &'static str = "There was an error accessing the CSV file.";

pub const HELP_CSV: &'static str =
    "The CSV file could not be loaded. Please ensure that the \
     file exists and is a valid CSV file according to the \
     CSVX specification as well as RFC4180.\n\n\
     The most common errors in CSV files are wrong field \
     separators (only commas are valid separators) or invalid \
     decimal separators (decimal point must be dots `.`, not \
     commas or other locale specific characters.";

pub const HELP_MISSING_HEADER: &'static str = "The CSV file has no header; it's empty.";

pub const HELP_BAD_HEADER: &'static str =
    "The CSV file has an invalid header. A valid header for \
     a schema file contains exactly four fields and looks like \
     this: \n\n\
     id,type,constraints,description";

pub const HELP_BAD_IDENTIFIER: &'static str =
    "A valid identifier must start with a lowercase letter and \
     contain only lowercase letters, numbers or underscores.";

/// Why a schema could not be loaded.
#[derive(Clone, Debug, PartialEq, Eq)]
pub enum SchemaLoadError {
    /// The file could not be read; the message says why.
    Io(String),
    /// The text is no table; the message is the decoder's.
    Csv(String),
    /// No header present, because the file is empty.
    MissingHeader,
    /// The header is not the header of a schema.
    BadHeader,
    /// The name of a column is no identifier.
    BadIdentifier(String),
    /// Bad column type.
    BadType(ColumnTypeError),
    /// Bad constraints.
    BadConstraints(ColumnConstraintsError),
}

/// What a [`SchemaLoadError`] holds, as mathematical values.
pub enum SchemaLoadErrorModel {
    Io(Seq<char>),
    Csv(Seq<char>),
    MissingHeader,
    BadHeader,
    BadIdentifier(Seq<char>),
    BadType(ColumnTypeErrorModel),
    BadConstraints(ColumnConstraintsErrorModel),
}

impl DeepView for SchemaLoadError {
    type V = SchemaLoadErrorModel;

    open spec fn deep_view(&self) -> SchemaLoadErrorModel {
        match *self {
            SchemaLoadError::Io(m) => SchemaLoadErrorModel::Io(m@),
            SchemaLoadError::Csv(m) => SchemaLoadErrorModel::Csv(m@),
            SchemaLoadError::MissingHeader => SchemaLoadErrorModel::MissingHeader,
            SchemaLoadError::BadHeader => SchemaLoadErrorModel::BadHeader,
            SchemaLoadError::BadIdentifier(id) => SchemaLoadErrorModel::BadIdentifier(id@),
            SchemaLoadError::BadType(e) => SchemaLoadErrorModel::BadType(e.deep_view()),
            SchemaLoadError::BadConstraints(e) => SchemaLoadErrorModel::BadConstraints(
                e.deep_view(),
            ),
        }
    }
}

impl SchemaLoadError {
    /// The short description, in contracts.
    pub open spec fn description_text(&self) -> Seq<char> {
        match *self {
            SchemaLoadError::Io(_) => "IO error"@,
            SchemaLoadError::Csv(_) => "invalid CSV"@,
            SchemaLoadError::MissingHeader => "missing header"@,
            SchemaLoadError::BadHeader => "header is invalid"@,
            SchemaLoadError::BadIdentifier(_) => "bad identifier"@,
            SchemaLoadError::BadType(_) => "bad type"@,
            SchemaLoadError::BadConstraints(_) => "invalid constraints"@,
        }
    }

    /// A short description of the kind of error.
    pub fn description(&self) -> (d: &'static str)
        ensures
            d@ == self.description_text(),
    {
        match self {
            SchemaLoadError::Io(_) => "IO error",
            SchemaLoadError::Csv(_) => "invalid CSV",
            SchemaLoadError::MissingHeader => "missing header",
            SchemaLoadError::BadHeader => "header is invalid",
            SchemaLoadError::BadIdentifier(_) => "bad identifier",
            SchemaLoadError::BadType(_) => "bad type",
            SchemaLoadError::BadConstraints(_) => "invalid constraints",
        }
    }
}

impl ToText for SchemaLoadError {
    /// An error that wraps another one reads as the one it wraps.
    open spec fn text(&self) -> Seq<char> {
        match *self {
            SchemaLoadError::BadIdentifier(id) => "bad identifier `"@ + id@ + "`"@,
            SchemaLoadError::Io(m) => m@,
            SchemaLoadError::Csv(m) => m@,
            SchemaLoadError::BadType(e) => e.text(),
            SchemaLoadError::BadConstraints(e) => e.text(),
            _ => self.description_text(),
        }
    }

    fn to_text(&self) -> (s: String) {
        match self {
            SchemaLoadError::BadIdentifier(id) => framed("bad identifier `", id, "`"),
            SchemaLoadError::Io(m) => m.clone(),
            SchemaLoadError::Csv(m) => m.clone(),
            SchemaLoadError::BadType(e) => e.to_text(),
            SchemaLoadError::BadConstraints(e) => e.to_text(),
            _ => self.description().to_owned(),
        }
    }
}

impl Helpful for SchemaLoadError {
    open spec fn help_text(&self) -> Seq<char> {
        match *self {
            SchemaLoadError::Io(_) => HELP_IO@,
            SchemaLoadError::Csv(_) => HELP_CSV@,
            SchemaLoadError::MissingHeader => HELP_MISSING_HEADER@,
            SchemaLoadError::BadHeader => HELP_BAD_HEADER@,
            SchemaLoadError::BadIdentifier(_) => HELP_BAD_IDENTIFIER@,
            SchemaLoadError::BadType(e) => e.help_text(),
            SchemaLoadError::BadConstraints(e) => e.help_text(),
        }
    }

    fn help(&self) -> (text: String) {
        match self {
            SchemaLoadError::Io(_) => HELP_IO.to_owned(),
            SchemaLoadError::Csv(_) => HELP_CSV.to_owned(),
            SchemaLoadError::MissingHeader => HELP_MISSING_HEADER.to_owned(),
            SchemaLoadError::BadHeader => HELP_BAD_HEADER.to_owned(),
            SchemaLoadError::BadIdentifier(_) => HELP_BAD_IDENTIFIER.to_owned(),
            SchemaLoadError::BadType(e) => e.help(),
            SchemaLoadError::BadConstraints(e) => e.help(),
        }
    }
}

pub const HELP_VALIDATION_CSV: &'static str =
    "An error occured parsing the CSV fragment. Please ensure \
     the CSV file is valid CSVX and RFC4180.";

pub const HELP_MISSING_HEADERS: &'static str = "No headers were found, the file is empty.";

pub const HELP_HEADER_MISMATCH: &'static str = "A header did not match the one specified.";

pub const HELP_SCHEMA_MISMATCH: &'static str =
    "The schema used loaded does not match the API call. This is \
     most likely a programming error.";

/// Why a table does not conform to a schema.
#[derive(Clone, Debug, PartialEq, Eq)]
pub enum ValidationError {
    /// The text is no table; the message is the decoder's.
    Csv(String),
    /// The header has not as many fields as the schema has columns.
    MissingHeaders,
    /// A field of the header is not the name of its column; it carries the
    /// field.
    HeaderMismatch(String),
    /// A cell was refused.
    ValueError(ValueError),
    /// What was asked for does not exist in the schema or in the row.
    SchemaMismatch,
}

/// What a [`ValidationError`] holds, as mathematical values.
pub enum ValidationErrorModel {
    Csv(Seq<char>),
    MissingHeaders,
    HeaderMismatch(Seq<char>),
    ValueError(ValueErrorModel),
    SchemaMismatch,
}

impl DeepView for ValidationError {
    type V = ValidationErrorModel;

    open spec fn deep_view(&self) -> ValidationErrorModel {
        match *self {
            ValidationError::Csv(m) => ValidationErrorModel::Csv(m@),
            ValidationError::MissingHeaders => ValidationErrorModel::MissingHeaders,
            ValidationError::HeaderMismatch(h) => ValidationErrorModel::HeaderMismatch(h@),
            ValidationError::ValueError(e) => ValidationErrorModel::ValueError(e.deep_view()),
            ValidationError::SchemaMismatch => ValidationErrorModel::SchemaMismatch,
        }
    }
}

impl ValidationError {
    /// The short description, in contracts.
    pub open spec fn description_text(&self) -> Seq<char> {
        match *self {
            ValidationError::Csv(_) => "invalid CSV"@,
            ValidationError::MissingHeaders => "missing headers"@,
            ValidationError::HeaderMismatch(_) => "header mismatch"@,
            ValidationError::ValueError(_) => "value error"@,
            ValidationError::SchemaMismatch => "schema mismatch"@,
        }
    }

    /// A short description of the kind of error.
    pub fn description(&self) -> (d: &'static str)
        ensures
            d@ == self.description_text(),
    {
        match self {
            ValidationError::Csv(_) => "invalid CSV",
            ValidationError::MissingHeaders => "missing headers",
            ValidationError::HeaderMismatch(_) => "header mismatch",
            ValidationError::ValueError(_) => "value error",
            ValidationError::SchemaMismatch => "schema mismatch",
        }
    }
}

impl ToText for ValidationError {
    /// An error that wraps another one reads as the one it wraps.
    open spec fn text(&self) -> Seq<char> {
        match *self {
            ValidationError::Csv(m) => m@,
            ValidationError::ValueError(e) => e.text(),
            _ => self.description_text(),
        }
    }

    fn to_text(&self) -> (s: String) {
        match self {
            ValidationError::Csv(m) => m.clone(),
            ValidationError::ValueError(e) => e.to_text(),
            _ => self.description().to_owned(),
        }
    }
}

impl Helpful for ValidationError {
    open spec fn help_text(&self) -> Seq<char> {
        match *self {
            ValidationError::Csv(_) => HELP_VALIDATION_CSV@,
            ValidationError::MissingHeaders => HELP_MISSING_HEADERS@,
            ValidationError::HeaderMismatch(_) => HELP_HEADER_MISMATCH@,
            ValidationError::ValueError(e) => e.help_text(),
            ValidationError::SchemaMismatch => HELP_SCHEMA_MISMATCH@,
        }
    }

    fn help(&self) -> (text: String) {
        match self {
            ValidationError::Csv(_) => HELP_VALIDATION_CSV.to_owned(),
            ValidationError::MissingHeaders => HELP_MISSING_HEADERS.to_owned(),
            ValidationError::HeaderMismatch(_) => HELP_HEADER_MISMATCH.to_owned(),
            ValidationError::ValueError(e) => e.help(),
            ValidationError::SchemaMismatch => HELP_SCHEMA_MISMATCH.to_owned(),
        }
    }
}

impl From<ValueError> for ValidationError {
    fn from(e: ValueError) -> (error: ValidationError) {
        ValidationError::ValueError(e)
    }
}

impl FromSpecImpl<ValueError> for ValidationError {
    open spec fn obeys_from_spec() -> bool {
        true
    }

    open spec fn from_spec(e: ValueError) -> ValidationError {
        ValidationError::ValueError(e)
    }
}

pub const DESCRIPTION_INVALID_FILENAME: &'static str =
    "filename is not a valid CSVX\n            filename";

pub const HELP_NOT_A_SCHEMA: &'static str =
    "The file you provided is not a schema. The third field of \
     the filename must be of the form `csvx-schema-` followed by \
     the version number. As an example, when defining a schema \
     named `animals-2`, with a date of Dec 31st, 2015 and CSVX \
     version 5, the resulting filename should be: \
     `animals-2_20151231_csvx-schema-5.csv`. \n\
     Note that filenames are case sensitive!";

pub const HELP_SCHEMA_NOT_A_FILE: &'static str = "The schema you supplied is not a valid file";

pub const HELP_INVALID_FILENAME: &'static str =
    "The filename provided is not in a valid CSVX form. CSVX \
     filenames have three components: The table name, date and \
     schema name. All components must be lowercase letters, \
     numbers or hyphens and start with a letter.\n\n\
     The table name component identifies the file or rather the \
     table it was exported from.\n\
     The date component is for the date the file was exported on.\n\
     The schema name component indicates which schema should be \
     used to validate its contents.\n\n\
     Example: With a table name of `nyc-zoo`, a date of Dec 31st, \
     2015 and using a schema named `animals-2`, the resulting \
     filename should be `nyc-zoo_20151231_animals-2.csv`.";

pub const HELP_PATH_UTF8: &'static str =
    "The filename you supplied contained UTF-8 errors. CSVX \
     filenames should only contain ASCII characters, please rename \
     the file and try again.";

pub const HELP_WRONG_SCHEMA: &'static str =
    "Every file validated against a schema must have the schema's \
     name in its table field. Example: When validating using a \
     schema named `animals-2_20170101_csvx-schema-5.csv`, the \
     schema name is `animals-2`. Every data file validated against \
     this schema must end with `_animals-2.csv`; e.g. \
     `zoo-nyc_20170401_animals-2.csv`.";

/// Why files could not be checked against a schema at all.
#[derive(Clone, Debug, PartialEq, Eq)]
pub enum CheckError {
    /// The name of the file does not say that it is a schema.
    NotASchema,
    /// The schema cannot be opened, because it is no file.
    SchemaNotAFile,
    /// The name of a file has not the shape of a file name; it carries the
    /// name.
    InvalidCsvxFilename(String),
    /// The schema could not be loaded.
    SchemaLoadError(SchemaLoadError),
    /// The path of the schema is not valid UTF-8.
    SchemaPathUtf8Error,
    /// The name of a data file names another schema than the one given.
    SchemaMismatch { schema: String, data: String },
}

/// What a [`CheckError`] holds, as mathematical values.
pub enum CheckErrorModel {
    NotASchema,
    SchemaNotAFile,
    InvalidCsvxFilename(Seq<char>),
    SchemaLoadError(SchemaLoadErrorModel),
    SchemaPathUtf8Error,
    SchemaMismatch { schema: Seq<char>, data: Seq<char> },
}

impl DeepView for CheckError {
    type V = CheckErrorModel;

    open spec fn deep_view(&self) -> CheckErrorModel {
        match *self {
            CheckError::NotASchema => CheckErrorModel::NotASchema,
            CheckError::SchemaNotAFile => CheckErrorModel::SchemaNotAFile,
            CheckError::InvalidCsvxFilename(name) => CheckErrorModel::InvalidCsvxFilename(name@),
            CheckError::SchemaLoadError(e) => CheckErrorModel::SchemaLoadError(e.deep_view()),
            CheckError::SchemaPathUtf8Error => CheckErrorModel::SchemaPathUtf8Error,
            CheckError::SchemaMismatch { schema, data } => CheckErrorModel::SchemaMismatch {
                schema: schema@,
                data: data@,
            },
        }
    }
}

impl From<SchemaLoadError> for CheckError {
    fn from(e: SchemaLoadError) -> (error: CheckError) {
        CheckError::SchemaLoadError(e)
    }
}

impl FromSpecImpl<SchemaLoadError> for CheckError {
    open spec fn obeys_from_spec() -> bool {
        true
    }

    open spec fn from_spec(e: SchemaLoadError) -> CheckError {
        CheckError::SchemaLoadError(e)
    }
}

impl CheckError {
    /// The short description, in contracts.
    pub open spec fn description_text(&self) -> Seq<char> {
        match *self {
            CheckError::NotASchema => "not a schema"@,
            CheckError::SchemaNotAFile => "schema is not a file"@,
            CheckError::InvalidCsvxFilename(_) => DESCRIPTION_INVALID_FILENAME@,
            CheckError::SchemaLoadError(_) => "could not load schema"@,
            CheckError::SchemaPathUtf8Error => "filename UTF8 decoding error"@,
            CheckError::SchemaMismatch { .. } => "schema mismatch"@,
        }
    }

    /// A short description of the kind of error.
    pub fn description(&self) -> (d: &'static str)
        ensures
            d@ == self.description_text(),
    {
        match self {
            CheckError::NotASchema => "not a schema",
            CheckError::SchemaNotAFile => "schema is not a file",
            CheckError::InvalidCsvxFilename(_) => DESCRIPTION_INVALID_FILENAME,
            CheckError::SchemaLoadError(_) => "could not load schema",
            CheckError::SchemaPathUtf8Error => "filename UTF8 decoding error",
            CheckError::SchemaMismatch { .. } => "schema mismatch",
        }
    }
}

impl ToText for CheckError {
    /// An error that wraps another one reads as the one it wraps.
    open spec fn text(&self) -> Seq<char> {
        match *self {
            CheckError::InvalidCsvxFilename(name) => "`"@ + name@ + "` is not a valid CSVX filename"@,
            CheckError::SchemaMismatch { schema, data } => "Expected schema `"@ + schema@
                + "`, got `"@ + data@ + "` instead"@,
            CheckError::SchemaLoadError(e) => e.text(),
            _ => self.description_text(),
        }
    }

    fn to_text(&self) -> (s: String) {
        match self {
            CheckError::InvalidCsvxFilename(name) => framed(
                "`",
                name,
                "` is not a valid CSVX filename",
            ),
            CheckError::SchemaMismatch { schema, data } => {
                let mut s = framed("Expected schema `", schema, "`, got `");
                s.append(data.as_str());
                s.append("` instead");
                s
            },
            CheckError::SchemaLoadError(e) => e.to_text(),
            _ => self.description().to_owned(),
        }
    }
}

impl Helpful for CheckError {
    open spec fn help_text(&self) -> Seq<char> {
        match *self {
            CheckError::NotASchema => HELP_NOT_A_SCHEMA@,
            CheckError::SchemaNotAFile => HELP_SCHEMA_NOT_A_FILE@,
            CheckError::InvalidCsvxFilename(_) => HELP_INVALID_FILENAME@,
            CheckError::SchemaPathUtf8Error => HELP_PATH_UTF8@,
            CheckError::SchemaLoadError(e) => e.help_text(),
            CheckError::SchemaMismatch { .. } => HELP_WRONG_SCHEMA@,
        }
    }

    fn help(&self) -> (text: String) {
        match self {
            CheckError::NotASchema => HELP_NOT_A_SCHEMA.to_owned(),
            CheckError::SchemaNotAFile => HELP_SCHEMA_NOT_A_FILE.to_owned(),
            CheckError::InvalidCsvxFilename(_) => HELP_INVALID_FILENAME.to_owned(),
            CheckError::SchemaPathUtf8Error => HELP_PATH_UTF8.to_owned(),
            CheckError::SchemaLoadError(e) => e.help(),
            CheckError::SchemaMismatch { .. } => HELP_WRONG_SCHEMA.to_owned(),
        }
    }
}

} // verus!
