use csvx::calendar::Date;
use csvx::calendar::DateTime;
use csvx::calendar::Time;
use csvx::column::ColumnConstraints;
use csvx::column::ColumnType;
use csvx::column::CsvxColumnType;
use csvx::err::ValueError;
use csvx::text::chars_of;
use csvx::value::decimal_ok;
use csvx::value::digits_from;
use csvx::value::find_first;
use csvx::value::read_int;
use csvx::value::Value;

fn column(ty: ColumnType, nullable: bool) -> CsvxColumnType {
    CsvxColumnType {
        id: "c".to_owned(),
        ty: ty,
        constraints: ColumnConstraints { nullable: nullable, unique: false },
        description: String::new(),
    }
}

fn strings(words: &[&str]) -> Vec<String> {
    words.iter().map(|w| w.to_string()).collect()
}

#[test]
fn empty_cell_is_null_or_refused() {
    let types = vec![
        ColumnType::String,
        ColumnType::Bool,
        ColumnType::Integer,
        ColumnType::Enum(strings(&["A", ""])),
        ColumnType::Decimal,
        ColumnType::Date,
        ColumnType::DateTime,
        ColumnType::Time,
    ];
    for ty in types {
        assert_eq!(column(ty.clone(), true).validate_value(""), Ok(None));
        assert_eq!(column(ty, false).validate_value(""), Err(ValueError::NonNullable));
    }
}

#[test]
fn string_cell_is_kept_unchanged() {
    for nullable in [false, true] {
        let col = column(ColumnType::String, nullable);
        assert_eq!(col.validate_value("abc"), Ok(Some(Value::String("abc".to_owned()))));
        assert_eq!(col.validate_value(" "), Ok(Some(Value::String(" ".to_owned()))));
        assert_eq!(col.validate_value("ä\n→"), Ok(Some(Value::String("ä\n→".to_owned()))));
    }
}

#[test]
fn bool_cell_is_true_or_false() {
    let col = column(ColumnType::Bool, false);
    assert_eq!(col.validate_value("TRUE"), Ok(Some(Value::Bool(true))));
    assert_eq!(col.validate_value("FALSE"), Ok(Some(Value::Bool(false))));
    for raw in ["true", "True", "false", "1", "0", "T", "TRUE ", " TRUE", "TRUEFALSE"] {
        assert_eq!(col.validate_value(raw), Err(ValueError::InvalidBool(raw.to_owned())));
    }
}

#[test]
fn integer_cell_is_a_signed_64_bit_integer() {
    let col = column(ColumnType::Integer, false);
    assert_eq!(col.validate_value("5"), Ok(Some(Value::Integer(5))));
    assert_eq!(col.validate_value("0"), Ok(Some(Value::Integer(0))));
    assert_eq!(col.validate_value("-0"), Ok(Some(Value::Integer(0))));
    assert_eq!(col.validate_value("-17"), Ok(Some(Value::Integer(-17))));
    assert_eq!(col.validate_value("1234567890"), Ok(Some(Value::Integer(1234567890))));
    assert_eq!(
        col.validate_value("9223372036854775807"),
        Ok(Some(Value::Integer(i64::MAX)))
    );
    assert_eq!(
        col.validate_value("-9223372036854775808"),
        Ok(Some(Value::Integer(i64::MIN)))
    );
    assert_eq!(
        col.validate_value("-9223372036854775807"),
        Ok(Some(Value::Integer(i64::MIN + 1)))
    );
}

#[test]
fn integer_cell_accepts_leading_zeros() {
    let col = column(ColumnType::Integer, false);
    assert_eq!(col.validate_value("007"), Ok(Some(Value::Integer(7))));
    assert_eq!(col.validate_value("-007"), Ok(Some(Value::Integer(-7))));
    assert_eq!(
        col.validate_value("0000000000000000000000000000000000000001"),
        Ok(Some(Value::Integer(1)))
    );
    assert_eq!(
        col.validate_value("-00009223372036854775808"),
        Ok(Some(Value::Integer(i64::MIN)))
    );
}

#[test]
fn integer_cell_refuses_what_is_no_integer() {
    let col = column(ColumnType::Integer, false);
    for raw in [
        "12.5",
        "x",
        "-",
        "--1",
        "+5",
        "1-",
        " 1",
        "1 ",
        "1e3",
        "0x10",
        "1_000",
        "٣",
        "9223372036854775808",
        "-9223372036854775809",
        "99999999999999999999999999999",
        "-99999999999999999999999999999",
        "18446744073709551616",
    ] {
        assert_eq!(col.validate_value(raw), Err(ValueError::InvalidInt(raw.to_owned())));
    }
}

#[test]
fn integer_reader_agrees_with_std_on_unsigned_and_negative_literals() {
    for raw in [
        "0", "1", "-1", "42", "-42", "007", "9223372036854775807", "9223372036854775808",
        "-9223372036854775808", "-9223372036854775809", "", "-", "a", "1a", "a1", "1.0", "--1",
        "92233720368547758070", "-92233720368547758080", "00000000000000000000000000",
    ] {
        assert_eq!(read_int(&chars_of(raw)), raw.parse::<i64>().ok());
    }
}

#[test]
fn enum_cell_is_the_position_of_its_variant() {
    let col = column(ColumnType::Enum(strings(&["RED", "GREEN", "BLUE"])), false);
    assert_eq!(col.validate_value("RED"), Ok(Some(Value::Enum(0))));
    assert_eq!(col.validate_value("GREEN"), Ok(Some(Value::Enum(1))));
    assert_eq!(col.validate_value("BLUE"), Ok(Some(Value::Enum(2))));
    for raw in ["red", "RE", "REDD", " RED", "RED,GREEN", "0"] {
        assert_eq!(
            col.validate_value(raw),
            Err(ValueError::InvalidEnum(raw.to_owned(), strings(&["RED", "GREEN", "BLUE"])))
        );
    }
}

#[test]
fn enum_cell_takes_the_first_of_equal_variants() {
    let col = column(ColumnType::Enum(strings(&["B", "A", "B", "A"])), false);
    assert_eq!(col.validate_value("B"), Ok(Some(Value::Enum(0))));
    assert_eq!(col.validate_value("A"), Ok(Some(Value::Enum(1))));
    assert_eq!(find_first(&strings(&["B", "A", "B", "A"]), "A"), Some(1));
    assert_eq!(find_first(&strings(&["B", "A", "B", "A"]), "C"), None);
    assert_eq!(find_first(&strings(&[]), "A"), None);
}

#[test]
fn enum_order_decides_the_stored_value() {
    let ab = column(ColumnType::Enum(strings(&["A", "B"])), false);
    let ba = column(ColumnType::Enum(strings(&["B", "A"])), false);
    assert_eq!(ab.validate_value("A"), Ok(Some(Value::Enum(0))));
    assert_eq!(ba.validate_value("A"), Ok(Some(Value::Enum(1))));
}

#[test]
fn decimal_cell_keeps_its_text() {
    let col = column(ColumnType::Decimal, false);
    for raw in ["0", "12", "12.5", "0.1", "000.000", "3.14159265358979323846264338327950288", "1.0"] {
        assert_eq!(col.validate_value(raw), Ok(Some(Value::Decimal(raw.to_owned()))));
    }
}

#[test]
fn decimal_cell_refuses_what_is_no_decimal() {
    let col = column(ColumnType::Decimal, false);
    for raw in [
        ".", "1.", ".5", "-1", "+1", "1.2.3", "1,5", "1e5", "1.5e3", " 1", "1 ", "a", "1..2", "1.a",
        "٣", "1.٣", "--", "1.-2",
    ] {
        assert_eq!(col.validate_value(raw), Err(ValueError::InvalidDecimal(raw.to_owned())));
    }
}

#[test]
fn decimal_reader_is_exact() {
    assert!(decimal_ok(&chars_of("1")));
    assert!(decimal_ok(&chars_of("10.01")));
    assert!(!decimal_ok(&chars_of("")));
    assert!(!decimal_ok(&chars_of(".")));
    assert!(!decimal_ok(&chars_of("1.")));
    assert!(!decimal_ok(&chars_of(".1")));
    assert!(digits_from(&chars_of("ab12"), 2));
    assert!(digits_from(&chars_of("ab12"), 4));
    assert!(!digits_from(&chars_of("ab12"), 1));
}

#[test]
fn date_cell_is_a_day_that_exists() {
    let col = column(ColumnType::Date, false);
    assert_eq!(
        col.validate_value("20151231"),
        Ok(Some(Value::Date(Date::from_ymd(2015, 12, 31).unwrap())))
    );
    assert_eq!(
        col.validate_value("20160229"),
        Ok(Some(Value::Date(Date::from_ymd(2016, 2, 29).unwrap())))
    );
    assert_eq!(
        col.validate_value("00000101"),
        Ok(Some(Value::Date(Date::from_ymd(0, 1, 1).unwrap())))
    );
    for raw in [
        "20170229", "20170230", "20171301", "20170001", "20170100", "2017011", "201701011",
        "2017-01-01", "2017o101", " 20170101", "20170101 ", "٢0170101",
    ] {
        assert_eq!(col.validate_value(raw), Err(ValueError::InvalidDate(raw.to_owned())));
    }
}

#[test]
fn datetime_cell_is_a_day_and_a_time() {
    let col = column(ColumnType::DateTime, false);
    assert_eq!(
        col.validate_value("20151231230158"),
        Ok(Some(Value::DateTime(DateTime {
            date: Date::from_ymd(2015, 12, 31).unwrap(),
            time: Time::from_hms(23, 1, 58).unwrap(),
        })))
    );
    assert_eq!(
        col.validate_value("20160229000000"),
        Ok(Some(Value::DateTime(DateTime {
            date: Date::from_ymd(2016, 2, 29).unwrap(),
            time: Time::from_hms(0, 0, 0).unwrap(),
        })))
    );
}

#[test]
fn datetime_cell_reports_every_failure_as_invalid_datetime() {
    let col = column(ColumnType::DateTime, false);
    for raw in [
        "20170230120000", // no such day
        "20171301120000", // no such month
        "20170101240000", // no such hour
        "20170101126000", // no such minute
        "20170101120060", // no such second
        "20170230250000", // neither day nor hour
        "2017010112000",
        "201701011200000",
        "20170101T120000",
        "20170101",
        "120000",
        "x",
    ] {
        assert_eq!(col.validate_value(raw), Err(ValueError::InvalidDateTime(raw.to_owned())));
    }
}

#[test]
fn time_cell_is_a_time_of_day() {
    let col = column(ColumnType::Time, false);
    assert_eq!(
        col.validate_value("230158"),
        Ok(Some(Value::Time(Time::from_hms(23, 1, 58).unwrap())))
    );
    assert_eq!(
        col.validate_value("000000"),
        Ok(Some(Value::Time(Time::from_hms(0, 0, 0).unwrap())))
    );
    assert_eq!(
        col.validate_value("235959"),
        Ok(Some(Value::Time(Time::from_hms(23, 59, 59).unwrap())))
    );
    for raw in ["240000", "236000", "235960", "23:01:58", "23015", "2301580", "23o158", "x"] {
        assert_eq!(col.validate_value(raw), Err(ValueError::InvalidTime(raw.to_owned())));
    }
}

#[test]
fn nullable_changes_only_the_empty_cell() {
    let col = column(ColumnType::Integer, true);
    assert_eq!(col.validate_value("5"), Ok(Some(Value::Integer(5))));
    assert_eq!(col.validate_value("x"), Err(ValueError::InvalidInt("x".to_owned())));
    assert_eq!(col.validate_value(" "), Err(ValueError::InvalidInt(" ".to_owned())));
}

#[test]
fn value_getters_give_the_content_of_their_kind() {
    let date = Date::from_ymd(2017, 4, 1).unwrap();
    let time = Time::from_hms(1, 2, 3).unwrap();
    let datetime = DateTime { date: date, time: time };

    assert_eq!(Value::String("s".to_owned()).to_string(), Some("s".to_owned()));
    assert_eq!(Value::Decimal("1.5".to_owned()).to_string(), Some("1.5".to_owned()));
    assert_eq!(Value::Integer(1).to_string(), None);
    assert_eq!(Value::Bool(true).to_string(), None);

    assert_eq!(Value::Bool(true).to_bool(), Some(true));
    assert_eq!(Value::Bool(false).to_bool(), Some(false));
    assert_eq!(Value::Integer(1).to_bool(), None);

    assert_eq!(Value::Integer(-3).to_i64(), Some(-3));
    assert_eq!(Value::Enum(3).to_i64(), None);

    assert_eq!(Value::Enum(3).to_usize(), Some(3));
    assert_eq!(Value::Integer(3).to_usize(), None);

    assert_eq!(Value::Date(date).to_date(), Some(date));
    assert_eq!(Value::DateTime(datetime).to_date(), None);

    assert_eq!(Value::DateTime(datetime).to_datetime(), Some(datetime));
    assert_eq!(Value::Date(date).to_datetime(), None);

    assert_eq!(Value::Time(time).to_time(), Some(time));
    assert_eq!(Value::DateTime(datetime).to_time(), None);
}
