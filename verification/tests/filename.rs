use csvx::calendar::Date;
use csvx::filename::parse_filename;
use csvx::filename::CsvxMetadata;

#[test]
fn lib_filename_parsing_rejects_invalid() {
    assert_eq!(parse_filename("asdf"), None);
    assert_eq!(parse_filename(""), None);
    assert_eq!(parse_filename("test.csv"), None);
    assert_eq!(parse_filename("test.csv"), None);
}

#[test]
fn lib_filename_parsing_parses_valid() {
    assert_eq!(
        parse_filename("zoo-nyc_20170401_animals-2.csv").unwrap(),
        CsvxMetadata {
            table_name: "zoo-nyc".to_owned(),
            date: Date::from_ymd(2017, 04, 01).unwrap(),
            schema: "animals-2".to_owned(),
        }
    );
}

#[test]
fn main_filename_parsing_rejects_invalid() {
    assert_eq!(parse_filename("asdf"), None);
    assert_eq!(parse_filename(""), None);
    assert_eq!(parse_filename("test.csv"), None);
    assert_eq!(parse_filename("test.csv"), None);
}

#[test]
fn main_filename_parsing_parses_valid() {
    // a version after the schema name is no part of a file name
    assert_eq!(parse_filename("zoo-nyc_20170401_animals-2_3.csv"), None);
}

#[test]
fn filename_fields_are_the_captured_groups() {
    let meta = parse_filename("a_00000101_b.csv").unwrap();
    assert_eq!(meta.table_name, "a");
    assert_eq!(meta.schema, "b");
    assert_eq!(meta.date.year(), 0);
    assert_eq!(meta.date.month(), 1);
    assert_eq!(meta.date.day(), 1);

    let meta = parse_filename("t9-x_99991231_csvx-schema-5.csv").unwrap();
    assert_eq!(meta.table_name, "t9-x");
    assert_eq!(meta.schema, "csvx-schema-5");
    assert_eq!((meta.date.year(), meta.date.month(), meta.date.day()), (9999, 12, 31));
}

#[test]
fn filename_with_impossible_date_is_rejected() {
    assert_eq!(parse_filename("zoo_20170230_x.csv"), None);
    assert_eq!(parse_filename("zoo_20170229_x.csv"), None);
    assert_eq!(parse_filename("zoo_20171301_x.csv"), None);
    assert_eq!(parse_filename("zoo_20170001_x.csv"), None);
    assert_eq!(parse_filename("zoo_20170100_x.csv"), None);
    assert_eq!(parse_filename("zoo_20170431_x.csv"), None);
    assert_eq!(parse_filename("zoo_19000229_x.csv"), None);
}

#[test]
fn filename_with_leap_day_is_accepted() {
    assert!(parse_filename("zoo_20160229_x.csv").is_some());
    assert!(parse_filename("zoo_20000229_x.csv").is_some());
    assert!(parse_filename("zoo_20170228_x.csv").is_some());
    assert!(parse_filename("zoo_20170430_x.csv").is_some());
    assert!(parse_filename("zoo_20171231_x.csv").is_some());
}

#[test]
fn filename_grammar_is_exact() {
    // names start with a lowercase letter and hold lowercase letters, digits and hyphens
    assert_eq!(parse_filename("Zoo_20170401_x.csv"), None);
    assert_eq!(parse_filename("1zoo_20170401_x.csv"), None);
    assert_eq!(parse_filename("-zoo_20170401_x.csv"), None);
    assert_eq!(parse_filename("zoo_20170401_X.csv"), None);
    assert_eq!(parse_filename("zoo_20170401_x_y.csv"), None);
    assert_eq!(parse_filename("z_o_20170401_x.csv"), None);
    assert_eq!(parse_filename("_20170401_x.csv"), None);
    assert_eq!(parse_filename("zoo_20170401_.csv"), None);
    // eight digits exactly
    assert_eq!(parse_filename("zoo_2017040_x.csv"), None);
    assert_eq!(parse_filename("zoo_201704011_x.csv"), None);
    assert_eq!(parse_filename("zoo_2017o401_x.csv"), None);
    assert_eq!(parse_filename("zoo_\u{0662}0170401_x.csv"), None);
    // the ending is a dot and csv, and nothing follows it
    assert_eq!(parse_filename("zoo_20170401_x-csv"), None);
    assert_eq!(parse_filename("zoo_20170401_xcsv"), None);
    assert_eq!(parse_filename("zoo_20170401_x.CSV"), None);
    assert_eq!(parse_filename("zoo_20170401_x.csv "), None);
    assert_eq!(parse_filename("zoo_20170401_x.csv\n"), None);
    assert_eq!(parse_filename(" zoo_20170401_x.csv"), None);
    assert_eq!(parse_filename("zoo_20170401_x.csvx"), None);
    // the old form with a version at the end is no file name
    assert_eq!(parse_filename("zoo-nyc_20170401_animals-2_3.csv"), None);
}

#[test]
fn is_schema_looks_at_the_schema_name() {
    assert!(parse_filename("animals-2_20151231_csvx-schema-5.csv").unwrap().is_schema());
    assert!(parse_filename("animals-2_20151231_csvx-schema-.csv").unwrap().is_schema());
    assert!(!parse_filename("animals-2_20151231_csvx-schema.csv").unwrap().is_schema());
    assert!(!parse_filename("csvx-schema-5_20151231_animals-2.csv").unwrap().is_schema());
    assert!(!parse_filename("zoo-nyc_20170401_animals-2.csv").unwrap().is_schema());
}
