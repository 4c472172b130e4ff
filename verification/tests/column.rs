use csvx::column::ColumnConstraints;
use csvx::column::ColumnType;
use csvx::err::ColumnConstraintsError;
use csvx::err::ColumnTypeError;
use csvx::text::ToText;

fn strings(words: &[&str]) -> Vec<String> {
    words.iter().map(|w| w.to_string()).collect()
}

#[test]
fn type_words_are_read() {
    assert_eq!(ColumnType::try_from("STRING"), Ok(ColumnType::String));
    assert_eq!(ColumnType::try_from("BOOL"), Ok(ColumnType::Bool));
    assert_eq!(ColumnType::try_from("INTEGER"), Ok(ColumnType::Integer));
    assert_eq!(ColumnType::try_from("DECIMAL"), Ok(ColumnType::Decimal));
    assert_eq!(ColumnType::try_from("DATE"), Ok(ColumnType::Date));
    assert_eq!(ColumnType::try_from("DATETIME"), Ok(ColumnType::DateTime));
    assert_eq!(ColumnType::try_from("TIME"), Ok(ColumnType::Time));
}

#[test]
fn type_words_are_case_sensitive() {
    assert_eq!(
        ColumnType::try_from("string"),
        Err(ColumnTypeError::UnknownType("string".to_owned()))
    );
    assert_eq!(
        ColumnType::try_from("Bool"),
        Err(ColumnTypeError::UnknownType("Bool".to_owned()))
    );
    assert_eq!(
        ColumnType::try_from(" STRING"),
        Err(ColumnTypeError::UnknownType(" STRING".to_owned()))
    );
    assert_eq!(
        ColumnType::try_from("STRING "),
        Err(ColumnTypeError::UnknownType("STRING ".to_owned()))
    );
    assert_eq!(ColumnType::try_from(""), Err(ColumnTypeError::UnknownType("".to_owned())));
}

#[test]
fn enum_expression_lists_its_variants() {
    assert_eq!(
        ColumnType::try_from("ENUM(A,B,C)"),
        Ok(ColumnType::Enum(strings(&["A", "B", "C"])))
    );
    assert_eq!(ColumnType::try_from("ENUM(A)"), Ok(ColumnType::Enum(strings(&["A"]))));
    assert_eq!(
        ColumnType::try_from("ENUM(RED1,GREEN22,B)"),
        Ok(ColumnType::Enum(strings(&["RED1", "GREEN22", "B"])))
    );
}

#[test]
fn enum_with_lowercase_is_a_bad_enum() {
    assert_eq!(
        ColumnType::try_from("ENUM(a,b)"),
        Err(ColumnTypeError::BadEnum("ENUM(a,b)".to_owned()))
    );
}

#[test]
fn unknown_word_is_an_unknown_type() {
    assert_eq!(ColumnType::try_from("FOO"), Err(ColumnTypeError::UnknownType("FOO".to_owned())));
}

#[test]
fn enum_variants_keep_order_and_repetitions() {
    assert_eq!(
        ColumnType::try_from("ENUM(B,A,B)"),
        Ok(ColumnType::Enum(strings(&["B", "A", "B"])))
    );
    assert!(ColumnType::try_from("ENUM(A,B)") != ColumnType::try_from("ENUM(B,A)"));
}

#[test]
fn trailing_comma_adds_no_variant() {
    assert_eq!(ColumnType::try_from("ENUM(A,)"), Ok(ColumnType::Enum(strings(&["A"]))));
    assert_eq!(ColumnType::try_from("ENUM(A,B,)"), Ok(ColumnType::Enum(strings(&["A", "B"]))));
    assert_eq!(ColumnType::try_from("ENUM(A,)"), ColumnType::try_from("ENUM(A)"));
    assert_eq!(ColumnType::try_from("ENUMx(A1,A1,)"), Ok(ColumnType::Enum(strings(&["A1", "A1"]))));
}

#[test]
fn empty_parentheses_list_the_one_empty_variant() {
    assert_eq!(ColumnType::try_from("ENUM()"), Ok(ColumnType::Enum(strings(&[""]))));
    assert_eq!(ColumnType::try_from("ENUM ()"), Ok(ColumnType::Enum(strings(&[""]))));
    assert_eq!(
        ColumnType::try_from("ENUM(,)"),
        Err(ColumnTypeError::BadEnum("ENUM(,)".to_owned()))
    );
}

#[test]
fn every_variant_of_a_read_enum_is_a_name() {
    for raw in ["ENUM(A)", "ENUM(A,)", "ENUM(A,B2,C)", "ENUM(Z9,Z9,)", "ENUMxy(Q)", "ENUM(A)(B,)"] {
        match ColumnType::try_from(raw) {
            Ok(ColumnType::Enum(variants)) => {
                assert!(variants.len() >= 1);
                for variant in variants {
                    let mut chars = variant.chars();
                    assert!(chars.next().unwrap().is_ascii_uppercase(), "{:?}", raw);
                    assert!(chars.all(|c| c.is_ascii_uppercase() || c.is_ascii_digit()), "{:?}", raw);
                }
            }
            other => panic!("{:?} gave {:?}", raw, other),
        }
    }
}

#[test]
fn enum_word_may_be_followed_by_anything_but_a_line_feed() {
    assert_eq!(ColumnType::try_from("ENUMxyz(A)"), Ok(ColumnType::Enum(strings(&["A"]))));
    assert_eq!(ColumnType::try_from("ENUM (A)"), Ok(ColumnType::Enum(strings(&["A"]))));
    assert_eq!(ColumnType::try_from("ENUM(A)(B)"), Ok(ColumnType::Enum(strings(&["B"]))));
    assert_eq!(ColumnType::try_from("ENUM((A)"), Ok(ColumnType::Enum(strings(&["A"]))));
    assert_eq!(ColumnType::try_from("ENUM)(A)"), Ok(ColumnType::Enum(strings(&["A"]))));
    assert_eq!(ColumnType::try_from("ENUM\r(A)"), Ok(ColumnType::Enum(strings(&["A"]))));
    assert_eq!(
        ColumnType::try_from("ENUM\n(A)"),
        Err(ColumnTypeError::BadEnum("ENUM\n(A)".to_owned()))
    );
}

#[test]
fn malformed_enums_are_bad_enums() {
    for raw in [
        "ENUM",
        "ENUM(",
        "ENUM)",
        "ENUM(A",
        "ENUMA)",
        "ENUM(,)",
        "ENUM(,A)",
        "ENUM(A,,B)",
        "ENUM(1A)",
        "ENUM(A B)",
        "ENUM(A, B)",
        "ENUM(A_B)",
        "ENUM(A-B)",
        "ENUM(A) ",
        "ENUM(A)\n",
        "ENUM(Ä)",
        "ENUM(A,b)",
        "ENUM(A))",
    ] {
        assert_eq!(ColumnType::try_from(raw), Err(ColumnTypeError::BadEnum(raw.to_owned())));
    }
}

#[test]
fn enum_prefix_decides_between_the_two_errors() {
    assert_eq!(
        ColumnType::try_from("enum(A)"),
        Err(ColumnTypeError::UnknownType("enum(A)".to_owned()))
    );
    assert_eq!(
        ColumnType::try_from(" ENUM(A)"),
        Err(ColumnTypeError::UnknownType(" ENUM(A)".to_owned()))
    );
    assert_eq!(
        ColumnType::try_from("ENU(A)"),
        Err(ColumnTypeError::UnknownType("ENU(A)".to_owned()))
    );
    assert_eq!(
        ColumnType::try_from("ENUMERATION"),
        Err(ColumnTypeError::BadEnum("ENUMERATION".to_owned()))
    );
}

#[test]
fn types_are_written_as_they_are_declared() {
    assert_eq!(ColumnType::String.to_text(), "STRING");
    assert_eq!(ColumnType::Bool.to_text(), "BOOL");
    assert_eq!(ColumnType::Integer.to_text(), "INTEGER");
    assert_eq!(ColumnType::Decimal.to_text(), "DECIMAL");
    assert_eq!(ColumnType::Date.to_text(), "DATE");
    assert_eq!(ColumnType::DateTime.to_text(), "DATETIME");
    assert_eq!(ColumnType::Time.to_text(), "TIME");
    assert_eq!(ColumnType::Enum(strings(&["A", "B"])).to_text(), "ENUM(A,B)");
    assert_eq!(ColumnType::Enum(strings(&["A"])).to_text(), "ENUM(A)");
    assert_eq!(ColumnType::Enum(strings(&[])).to_text(), "ENUM()");
}

#[test]
fn type_round_trip() {
    let types = vec![
        ColumnType::String,
        ColumnType::Bool,
        ColumnType::Integer,
        ColumnType::Decimal,
        ColumnType::Date,
        ColumnType::DateTime,
        ColumnType::Time,
        ColumnType::Enum(strings(&["A", "B"])),
        ColumnType::Enum(strings(&["A"])),
        ColumnType::Enum(strings(&["A1", "B", "A1"])),
        ColumnType::Enum(strings(&[""])),
    ];
    for ty in types {
        assert_eq!(ColumnType::try_from(ty.to_text().as_str()), Ok(ty));
    }
}

#[test]
fn type_round_trip_needs_a_variant_list() {
    // an enum without variants is written like the enum of one empty variant
    let empty = ColumnType::Enum(strings(&[]));
    assert_eq!(ColumnType::try_from(empty.to_text().as_str()), Ok(ColumnType::Enum(strings(&[""]))));
    // an empty variant after a name is written like a trailing comma
    let trailing = ColumnType::Enum(strings(&["A", ""]));
    assert_eq!(ColumnType::try_from(trailing.to_text().as_str()), Ok(ColumnType::Enum(strings(&["A"]))));
    // a variant that is no variant name is not read back
    let lower = ColumnType::Enum(strings(&["a"]));
    assert!(ColumnType::try_from(lower.to_text().as_str()).is_err());
}

#[test]
fn constraints_are_read() {
    assert_eq!(
        ColumnConstraints::try_from("NULLABLE,UNIQUE"),
        Ok(ColumnConstraints { nullable: true, unique: true })
    );
    assert_eq!(
        ColumnConstraints::try_from(""),
        Ok(ColumnConstraints { nullable: false, unique: false })
    );
    assert_eq!(
        ColumnConstraints::try_from("NULLABLE,FOO"),
        Err(ColumnConstraintsError::UnknownConstraint("NULLABLE,FOO".to_owned()))
    );
}

#[test]
fn constraints_are_independent() {
    assert_eq!(
        ColumnConstraints::try_from("NULLABLE"),
        Ok(ColumnConstraints { nullable: true, unique: false })
    );
    assert_eq!(
        ColumnConstraints::try_from("UNIQUE"),
        Ok(ColumnConstraints { nullable: false, unique: true })
    );
}

#[test]
fn constraints_come_in_any_order_and_number() {
    assert_eq!(
        ColumnConstraints::try_from("UNIQUE,NULLABLE"),
        Ok(ColumnConstraints { nullable: true, unique: true })
    );
    assert_eq!(
        ColumnConstraints::try_from("NULLABLE,NULLABLE"),
        Ok(ColumnConstraints { nullable: true, unique: false })
    );
    assert_eq!(
        ColumnConstraints::try_from("UNIQUE,NULLABLE,UNIQUE"),
        Ok(ColumnConstraints { nullable: true, unique: true })
    );
}

#[test]
fn constraints_tolerate_one_trailing_comma() {
    assert_eq!(
        ColumnConstraints::try_from("NULLABLE,"),
        Ok(ColumnConstraints { nullable: true, unique: false })
    );
    assert_eq!(
        ColumnConstraints::try_from("NULLABLE,UNIQUE,"),
        Ok(ColumnConstraints { nullable: true, unique: true })
    );
    assert_eq!(
        ColumnConstraints::try_from("NULLABLE,,"),
        Err(ColumnConstraintsError::MalformedConstraints("NULLABLE,,".to_owned()))
    );
}

#[test]
fn malformed_constraints_are_told_from_unknown_ones() {
    for raw in [",", ",NULLABLE", "NULLABLE,,UNIQUE", "nullable", "NULLABLE UNIQUE", "NULLABLE, UNIQUE", ":NULLABLE", "NULL4BLE", " "] {
        assert_eq!(
            ColumnConstraints::try_from(raw),
            Err(ColumnConstraintsError::MalformedConstraints(raw.to_owned()))
        );
    }
    for raw in ["FOO", "NULLABLEUNIQUE", "FOO,NULLABLE", "NULLABLE,UNIQUE,X", "NULLABL"] {
        assert_eq!(
            ColumnConstraints::try_from(raw),
            Err(ColumnConstraintsError::UnknownConstraint(raw.to_owned()))
        );
    }
}

#[test]
fn unknown_constraint_carries_the_whole_expression() {
    match ColumnConstraints::try_from("NULLABLE,FOO,UNIQUE") {
        Err(ColumnConstraintsError::UnknownConstraint(carried)) => {
            assert_eq!(carried, "NULLABLE,FOO,UNIQUE")
        }
        other => panic!("{:?}", other),
    }
}

#[test]
fn constraints_default_to_none() {
    assert_eq!(ColumnConstraints::default(), ColumnConstraints { nullable: false, unique: false });
}

#[test]
fn constraints_are_written_as_they_are_declared() {
    for (nullable, unique, text) in [
        (false, false, ""),
        (true, false, "NULLABLE"),
        (false, true, "UNIQUE"),
        (true, true, "NULLABLE,UNIQUE"),
    ] {
        let constraints = ColumnConstraints { nullable, unique };
        assert_eq!(constraints.to_text(), text);
        assert_eq!(ColumnConstraints::try_from(text), Ok(constraints));
    }
}
