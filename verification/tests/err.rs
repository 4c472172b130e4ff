use csvx::err::quote_list;
use csvx::err::CheckError;
use csvx::err::ColumnConstraintsError;
use csvx::err::ColumnTypeError;
use csvx::err::ErrorAtLocation;
use csvx::err::ErrorLoc;
use csvx::err::Helpful;
use csvx::err::Location;
use csvx::err::ResultLoc;
use csvx::err::SchemaLoadError;
use csvx::err::ValidationError;
use csvx::err::ValueError;
use csvx::text::ToText;

fn strings(words: &[&str]) -> Vec<String> {
    words.iter().map(|w| w.to_string()).collect()
}

#[test]
fn location_is_written_with_line_and_field() {
    assert_eq!(Location::FileLineField("a.csv".to_owned(), 3, 2).to_text(), "a.csv:3[field 2]");
    assert_eq!(Location::FileLine("a.csv".to_owned(), 12).to_text(), "a.csv:12]");
    assert_eq!(Location::File("dir/a.csv".to_owned()).to_text(), "dir/a.csv");
    assert_eq!(Location::Unspecified.to_text(), "");
    assert_eq!(Location::default(), Location::Unspecified);
}

#[test]
fn located_error_keeps_error_and_place() {
    let located = ErrorAtLocation::with_location(ValueError::NonNullable, Location::File("f".to_owned()));
    assert_eq!(*located.error(), ValueError::NonNullable);
    assert_eq!(*located.location(), Location::File("f".to_owned()));
    assert_eq!(located.to_text(), "f: field is not nullable");

    let numbered = ErrorAtLocation::with_location(ValidationError::SchemaMismatch, 7usize);
    assert_eq!(*numbered.location(), 7);
    assert_eq!(numbered.to_text(), "7: schema mismatch");
}

#[test]
fn located_error_converts_what_it_is_given() {
    let located: ErrorAtLocation<ValidationError, Location> =
        ErrorAtLocation::new(Location::File("f".to_owned()), ValueError::NonNullable);
    assert_eq!(*located.error(), ValidationError::ValueError(ValueError::NonNullable));
    assert_eq!(*located.location(), Location::File("f".to_owned()));

    let same: ErrorAtLocation<ValueError, Location> =
        ErrorAtLocation::new(Location::Unspecified, ValueError::NonNullable);
    assert_eq!(*same.error(), ValueError::NonNullable);

    let nowhere: ErrorAtLocation<ValidationError, Location> =
        ErrorAtLocation::from_error(ValueError::InvalidBool("x".to_owned()));
    assert_eq!(*nowhere.location(), Location::Unspecified);
    assert_eq!(*nowhere.error(), ValidationError::ValueError(ValueError::InvalidBool("x".to_owned())));

    let load = ErrorAtLocation::with_location(SchemaLoadError::BadHeader, Location::FileLine("s".to_owned(), 1));
    let check: ErrorAtLocation<CheckError, Location> = load.convert();
    assert_eq!(*check.error(), CheckError::SchemaLoadError(SchemaLoadError::BadHeader));
    assert_eq!(*check.location(), Location::FileLine("s".to_owned(), 1));
}

#[test]
fn errors_and_results_can_be_put_at_a_place() {
    let located: ErrorAtLocation<ValidationError, Location> =
        ValueError::NonNullable.at(Location::FileLine("f".to_owned(), 2));
    assert_eq!(*located.error(), ValidationError::ValueError(ValueError::NonNullable));
    assert_eq!(*located.location(), Location::FileLine("f".to_owned(), 2));

    let good: Result<u8, ValueError> = Ok(3);
    let there: Result<u8, ErrorAtLocation<ValidationError, Location>> =
        good.error_at(Location::File("f".to_owned()));
    assert_eq!(there, Ok(3));

    let bad: Result<u8, ValueError> = Err(ValueError::NonNullable);
    let there: Result<u8, ErrorAtLocation<ValidationError, Location>> =
        bad.error_at(Location::File("f".to_owned()));
    assert_eq!(
        there,
        Err(ErrorAtLocation::with_location(
            ValidationError::ValueError(ValueError::NonNullable),
            Location::File("f".to_owned())
        ))
    );

    let bad: Result<u8, ValueError> = Err(ValueError::NonNullable);
    let there: Result<u8, ErrorAtLocation<ValidationError, Location>> =
        bad.err_at(|| Location::FileLine("g".to_owned(), 9));
    assert_eq!(
        there,
        Err(ErrorAtLocation::with_location(
            ValidationError::ValueError(ValueError::NonNullable),
            Location::FileLine("g".to_owned(), 9)
        ))
    );
}

#[test]
fn value_errors_name_the_text_and_the_type() {
    let raw = "x y".to_owned();
    assert_eq!(ValueError::NonNullable.to_text(), "field is not nullable");
    assert_eq!(ValueError::InvalidBool(raw.clone()).to_text(), "could not parse `x y` as BOOL");
    assert_eq!(ValueError::InvalidInt(raw.clone()).to_text(), "could not parse `x y` as INTEGER");
    assert_eq!(
        ValueError::InvalidEnum(raw.clone(), strings(&["A"])).to_text(),
        "could not parse `x y` as valid ENUM value"
    );
    assert_eq!(ValueError::InvalidDecimal(raw.clone()).to_text(), "could not parse ` x y` as DECIMAL");
    assert_eq!(ValueError::InvalidDate(raw.clone()).to_text(), "could not parse `x y` as DATE");
    assert_eq!(ValueError::InvalidDateTime(raw.clone()).to_text(), "could not parse ` x y` as DATETIME");
    assert_eq!(ValueError::InvalidTime(raw.clone()).to_text(), "could not parse `x y` as TIME");
}

#[test]
fn value_errors_are_described() {
    let raw = String::new();
    assert_eq!(ValueError::NonNullable.description(), "field is not nullable");
    assert_eq!(ValueError::InvalidBool(raw.clone()).description(), "invalid boolean");
    assert_eq!(ValueError::InvalidInt(raw.clone()).description(), "invalid integer");
    assert_eq!(ValueError::InvalidEnum(raw.clone(), vec![]).description(), "invalid enum");
    assert_eq!(ValueError::InvalidDecimal(raw.clone()).description(), "invalid decimal");
    assert_eq!(ValueError::InvalidDate(raw.clone()).description(), "invalid date");
    assert_eq!(ValueError::InvalidDateTime(raw.clone()).description(), "invalid datetime");
    assert_eq!(ValueError::InvalidTime(raw.clone()).description(), "invalid time");
}

#[test]
fn enum_help_lists_the_variants() {
    assert_eq!(
        ValueError::InvalidEnum("x".to_owned(), strings(&["RED", "GREEN", "BLUE"])).help(),
        "The value is not a valid value for the ENUM. Valid\n                values for this ENUM are: `RED`, `GREEN`, `BLUE`."
    );
    assert_eq!(
        ValueError::InvalidEnum("x".to_owned(), strings(&[])).help(),
        "The value is not a valid value for the ENUM. Valid\n                values for this ENUM are: ."
    );
    assert_eq!(quote_list(&strings(&[])), "");
    assert_eq!(quote_list(&strings(&["A"])), "`A`");
    assert_eq!(quote_list(&strings(&["A", "", "B"])), "`A`, ``, `B`");
}

#[test]
fn value_help_says_what_is_expected() {
    let raw = String::new();
    assert_eq!(
        ValueError::InvalidBool(raw.clone()).help(),
        "The value provided is not a valid BOOL. The only acceptable for a boolean field are `TRUE` and `FALSE`."
    );
    assert_eq!(
        ValueError::InvalidInt(raw.clone()).help(),
        "The value is not a valid integer. Integers must contain only digits and no leading zeros."
    );
    assert_eq!(
        ValueError::InvalidDecimal(raw.clone()).help(),
        "The value is not a valid DECIMAL. Decimal values must only contain digits and a single decimal separator, in the form of a dot `.`!"
    );
    assert_eq!(
        ValueError::InvalidDate(raw.clone()).help(),
        "The value is not a valid DATE. Date values must be formatted as YYYYmmDD, where YYYY is the four-digit year, mm the two digit month and DD the two-digit day. Example: The 31st of Dec 2015 would be encoded as `20151231`.\n\nOtherwise dates must be valid calendar dates."
    );
    assert_eq!(
        ValueError::InvalidDateTime(raw.clone()).help(),
        "The value is not a valid DATETIME. Datetime values must be\n                formatted as YYYYmmDDHHMMSS, where YYYY is the four-digit year,\n                mm the two-digit month, DD the two-digit day, HH the two-digit hour, MM the two-digit minute and SS the two-digit second.\n\nEx: The 31st of Dec 2015, 23:01:58 would be encoded as `20151231230158`.\n\n\n                Otherwise datetimes must correspond to valid calendar dates and clock times."
    );
    assert_eq!(
        ValueError::InvalidTime(raw.clone()).help(),
        "The value is not a valid TIME. Time values must be\n                formatted as HHMMSS, where HH is the two-digit hour, MM the two-digit minute and SS the two-digit second.\n\nEx: 23:01:58 would be encoded as `230158`.\n\n\n                Times must be valid clock times."
    );
    assert_eq!(
        ValueError::NonNullable.help(),
        "The field was not marked as `NULLABLE`, but did not contain a value."
    );
}

#[test]
fn type_and_constraint_errors_carry_the_expression() {
    let e = ColumnTypeError::UnknownType("FOO".to_owned());
    assert_eq!(e.to_text(), "unknown column type `FOO`");
    assert_eq!(e.description(), "unknown column type");
    assert_eq!(
        e.help(),
        "The column type specified is not known. Valid types are `STRING`, `BOOL`, `INTEGER`, `ENUM(...)`, `DECIMAL`, `DATE`, `DATETIME` and `TIME`"
    );
    let e = ColumnTypeError::BadEnum("ENUM(a)".to_owned());
    assert_eq!(e.to_text(), "bad enum `ENUM(a)`");
    assert_eq!(e.description(), "bad enum");
    assert_eq!(
        e.help(),
        "The `ENUM` specified is not valid. Enums must be of the form `ENUM(V1,V2,V3,` ... `)`. Note that variants must be of uppercase letters and numbers only, separated by commas, with no spaces allowed in between"
    );
    let e = ColumnConstraintsError::MalformedConstraints("a b".to_owned());
    assert_eq!(e.to_text(), "malformed constraints: `a b`");
    assert_eq!(e.description(), "malformed constraints");
    assert_eq!(
        e.help(),
        "The constraints could be not recognized. Constraints must be all uppercase letters, comma-separated, with no spaces in between."
    );
    let e = ColumnConstraintsError::UnknownConstraint("FOO".to_owned());
    assert_eq!(e.to_text(), "unknown constraint: `FOO`");
    assert_eq!(e.description(), "unknown constraint");
    assert_eq!(
        e.help(),
        "The constraint is not known to be a valid constraint. Valid constraints are `NULLABLE` and `UNIQUE`."
    );
}

#[test]
fn schema_load_errors_read_as_what_they_wrap() {
    assert_eq!(SchemaLoadError::Io("no such file".to_owned()).to_text(), "no such file");
    assert_eq!(SchemaLoadError::Csv("bad record".to_owned()).to_text(), "bad record");
    assert_eq!(SchemaLoadError::MissingHeader.to_text(), "missing header");
    assert_eq!(SchemaLoadError::BadHeader.to_text(), "header is invalid");
    assert_eq!(SchemaLoadError::BadIdentifier("X".to_owned()).to_text(), "bad identifier `X`");
    assert_eq!(
        SchemaLoadError::BadType(ColumnTypeError::UnknownType("FOO".to_owned())).to_text(),
        "unknown column type `FOO`"
    );
    assert_eq!(
        SchemaLoadError::BadConstraints(ColumnConstraintsError::UnknownConstraint("FOO".to_owned())).to_text(),
        "unknown constraint: `FOO`"
    );
}

#[test]
fn schema_load_errors_are_described_and_explained() {
    let ty = ColumnTypeError::BadEnum("ENUM(".to_owned());
    let cons = ColumnConstraintsError::MalformedConstraints("x".to_owned());
    assert_eq!(SchemaLoadError::Io(String::new()).description(), "IO error");
    assert_eq!(SchemaLoadError::Csv(String::new()).description(), "invalid CSV");
    assert_eq!(SchemaLoadError::MissingHeader.description(), "missing header");
    assert_eq!(SchemaLoadError::BadHeader.description(), "header is invalid");
    assert_eq!(SchemaLoadError::BadIdentifier(String::new()).description(), "bad identifier");
    assert_eq!(SchemaLoadError::BadType(ty.clone()).description(), "bad type");
    assert_eq!(SchemaLoadError::BadConstraints(cons.clone()).description(), "invalid constraints");

    assert_eq!(SchemaLoadError::Io(String::new()).help(), "There was an error accessing the CSV file.");
    assert_eq!(
        SchemaLoadError::Csv(String::new()).help(),
        "The CSV file could not be loaded. Please ensure that the file exists and is a valid CSV file according to the CSVX specification as well as RFC4180.\n\nThe most common errors in CSV files are wrong field separators (only commas are valid separators) or invalid decimal separators (decimal point must be dots `.`, not commas or other locale specific characters."
    );
    assert_eq!(SchemaLoadError::MissingHeader.help(), "The CSV file has no header; it's empty.");
    assert_eq!(
        SchemaLoadError::BadHeader.help(),
        "The CSV file has an invalid header. A valid header for a schema file contains exactly four fields and looks like this: \n\nid,type,constraints,description"
    );
    assert_eq!(
        SchemaLoadError::BadIdentifier(String::new()).help(),
        "A valid identifier must start with a lowercase letter and contain only lowercase letters, numbers or underscores."
    );
    assert_eq!(SchemaLoadError::BadType(ty.clone()).help(), ty.help());
    assert_eq!(SchemaLoadError::BadConstraints(cons.clone()).help(), cons.help());
}

#[test]
fn validation_errors_read_as_what_they_wrap() {
    let value = ValueError::InvalidInt("x".to_owned());
    assert_eq!(ValidationError::Csv("bad record".to_owned()).to_text(), "bad record");
    assert_eq!(ValidationError::MissingHeaders.to_text(), "missing headers");
    assert_eq!(ValidationError::HeaderMismatch("x".to_owned()).to_text(), "header mismatch");
    assert_eq!(ValidationError::ValueError(value.clone()).to_text(), "could not parse `x` as INTEGER");
    assert_eq!(ValidationError::SchemaMismatch.to_text(), "schema mismatch");

    assert_eq!(ValidationError::Csv(String::new()).description(), "invalid CSV");
    assert_eq!(ValidationError::MissingHeaders.description(), "missing headers");
    assert_eq!(ValidationError::HeaderMismatch(String::new()).description(), "header mismatch");
    assert_eq!(ValidationError::ValueError(value.clone()).description(), "value error");
    assert_eq!(ValidationError::SchemaMismatch.description(), "schema mismatch");

    assert_eq!(
        ValidationError::Csv(String::new()).help(),
        "An error occured parsing the CSV fragment. Please ensure the CSV file is valid CSVX and RFC4180."
    );
    assert_eq!(ValidationError::MissingHeaders.help(), "No headers were found, the file is empty.");
    assert_eq!(
        ValidationError::HeaderMismatch(String::new()).help(),
        "A header did not match the one specified."
    );
    assert_eq!(ValidationError::ValueError(value.clone()).help(), value.help());
    assert_eq!(
        ValidationError::SchemaMismatch.help(),
        "The schema used loaded does not match the API call. This is most likely a programming error."
    );
    assert_eq!(ValidationError::from(value.clone()), ValidationError::ValueError(value));
}

#[test]
fn check_errors_are_written_described_and_explained() {
    let load = SchemaLoadError::BadIdentifier("X".to_owned());
    let mismatch = CheckError::SchemaMismatch { schema: "animals-2".to_owned(), data: "plants".to_owned() };
    assert_eq!(CheckError::NotASchema.to_text(), "not a schema");
    assert_eq!(CheckError::SchemaNotAFile.to_text(), "schema is not a file");
    assert_eq!(
        CheckError::InvalidCsvxFilename("x.txt".to_owned()).to_text(),
        "`x.txt` is not a valid CSVX filename"
    );
    assert_eq!(CheckError::SchemaLoadError(load.clone()).to_text(), "bad identifier `X`");
    assert_eq!(CheckError::SchemaPathUtf8Error.to_text(), "filename UTF8 decoding error");
    assert_eq!(mismatch.to_text(), "Expected schema `animals-2`, got `plants` instead");

    assert_eq!(CheckError::NotASchema.description(), "not a schema");
    assert_eq!(CheckError::SchemaNotAFile.description(), "schema is not a file");
    assert_eq!(
        CheckError::InvalidCsvxFilename(String::new()).description(),
        "filename is not a valid CSVX\n            filename"
    );
    assert_eq!(CheckError::SchemaLoadError(load.clone()).description(), "could not load schema");
    assert_eq!(CheckError::SchemaPathUtf8Error.description(), "filename UTF8 decoding error");
    assert_eq!(mismatch.description(), "schema mismatch");

    assert_eq!(
        CheckError::NotASchema.help(),
        "The file you provided is not a schema. The third field of the filename must be of the form `csvx-schema-` followed by the version number. As an example, when defining a schema named `animals-2`, with a date of Dec 31st, 2015 and CSVX version 5, the resulting filename should be: `animals-2_20151231_csvx-schema-5.csv`. \nNote that filenames are case sensitive!"
    );
    assert_eq!(CheckError::SchemaNotAFile.help(), "The schema you supplied is not a valid file");
    assert_eq!(
        CheckError::InvalidCsvxFilename(String::new()).help(),
        "The filename provided is not in a valid CSVX form. CSVX filenames have three components: The table name, date and schema name. All components must be lowercase letters, numbers or hyphens and start with a letter.\n\nThe table name component identifies the file or rather the table it was exported from.\nThe date component is for the date the file was exported on.\nThe schema name component indicates which schema should be used to validate its contents.\n\nExample: With a table name of `nyc-zoo`, a date of Dec 31st, 2015 and using a schema named `animals-2`, the resulting filename should be `nyc-zoo_20151231_animals-2.csv`."
    );
    assert_eq!(
        CheckError::SchemaPathUtf8Error.help(),
        "The filename you supplied contained UTF-8 errors. CSVX filenames should only contain ASCII characters, please rename the file and try again."
    );
    assert_eq!(CheckError::SchemaLoadError(load.clone()).help(), load.help());
    assert_eq!(
        mismatch.help(),
        "Every file validated against a schema must have the schema's name in its table field. Example: When validating using a schema named `animals-2_20170101_csvx-schema-5.csv`, the schema name is `animals-2`. Every data file validated against this schema must end with `_animals-2.csv`; e.g. `zoo-nyc_20170401_animals-2.csv`."
    );
    assert_eq!(CheckError::from(load.clone()), CheckError::SchemaLoadError(load));
}

#[test]
fn error_becomes_a_located_error_at_the_default_place() {
    let located: ErrorAtLocation<ValueError, Location> = ErrorAtLocation::from(ValueError::NonNullable);
    assert_eq!(*located.error(), ValueError::NonNullable);
    assert_eq!(*located.location(), Location::Unspecified);

    let located: ErrorAtLocation<SchemaLoadError, Location> = SchemaLoadError::BadHeader.into();
    assert_eq!(located, ErrorAtLocation::with_location(SchemaLoadError::BadHeader, Location::Unspecified));

    let numbered: ErrorAtLocation<ValidationError, usize> = ErrorAtLocation::from(ValidationError::SchemaMismatch);
    assert_eq!(*numbered.location(), 0);
    assert_eq!(*numbered.error(), ValidationError::SchemaMismatch);
}
