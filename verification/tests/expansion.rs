use opcua_node_id::expansion::{
    expand_env_in_scalar, expand_env_in_value, interpret_expanded, parse_i64, parse_u64,
    scalar_value, ExpandedValue, Value,
};

fn read(s: &str) -> ExpandedValue {
    interpret_expanded(Some(s.to_string()))
}

fn is_text(value: ExpandedValue, expected: &str) -> bool {
    matches!(value, ExpandedValue::Text(s) if s == expected)
}

#[test]
fn a_doubled_dollar_stands_for_itself() {
    assert!(is_text(
        expand_env_in_scalar("$$TEST_ENV_VAR_ESCAPED"),
        "$TEST_ENV_VAR_ESCAPED"
    ));
}

#[test]
fn an_unset_variable_gives_its_default() {
    assert!(is_text(
        expand_env_in_scalar("${UNSET_ENV_VAR:-default_value}"),
        "default_value"
    ));
}

#[test]
fn a_default_is_not_expanded_again() {
    assert!(is_text(
        expand_env_in_scalar("${VARIABLE:-${FOO}}"),
        "${FOO}"
    ));
}

#[test]
fn unset_variable_reads_as_no_value() {
    assert!(matches!(
        expand_env_in_scalar("$OPCUA_NODE_ID_UNSET_ENV_VAR"),
        ExpandedValue::Null
    ));
    assert!(matches!(interpret_expanded(None), ExpandedValue::Null));
}

#[test]
fn text_without_variables_is_read_as_it_is() {
    assert!(is_text(expand_env_in_scalar("plain text"), "plain text"));
    assert!(is_text(expand_env_in_scalar(""), ""));
    assert!(is_text(expand_env_in_scalar("{HOME}"), "{HOME}"));
    assert!(matches!(expand_env_in_scalar("17"), ExpandedValue::Integer(17)));
    assert!(matches!(expand_env_in_scalar("null"), ExpandedValue::Null));
    assert!(matches!(expand_env_in_scalar("false"), ExpandedValue::Bool(false)));
}

#[test]
fn null_and_tilde_read_as_no_value() {
    assert!(is_text(read(""), ""));
    assert!(matches!(read("null"), ExpandedValue::Null));
    assert!(matches!(read("~"), ExpandedValue::Null));
    assert!(is_text(read("Null"), "Null"));
    assert!(is_text(read("~~"), "~~"));
    assert!(is_text(read("nul"), "nul"));
}

#[test]
fn true_and_false_read_as_truth_values() {
    assert!(matches!(read("true"), ExpandedValue::Bool(true)));
    assert!(matches!(read("false"), ExpandedValue::Bool(false)));
}

#[test]
fn only_lower_case_is_a_truth_value() {
    for s in ["True", "TRUE", "False", "FALSE", "yes", "truee", "fals"] {
        assert!(is_text(read(s), s), "{}", s);
    }
}

#[test]
fn whole_numbers_read_as_numbers() {
    assert!(matches!(read("0"), ExpandedValue::Integer(0)));
    assert!(matches!(read(&format!("{}", i64::MIN)), ExpandedValue::Integer(i64::MIN)));
    assert!(matches!(read(&format!("{}", i64::MAX)), ExpandedValue::Integer(i64::MAX)));
    assert!(matches!(read(&format!("{}", u64::MAX)), ExpandedValue::Unsigned(u64::MAX)));
    assert!(matches!(read("9223372036854775808"), ExpandedValue::Unsigned(9223372036854775808)));
    assert!(matches!(read("+5"), ExpandedValue::Integer(5)));
    assert!(matches!(read("-0"), ExpandedValue::Integer(0)));
    assert!(matches!(read("007"), ExpandedValue::Integer(7)));
    assert!(matches!(
        read("+18446744073709551615"),
        ExpandedValue::Unsigned(u64::MAX)
    ));
}

#[test]
fn what_is_no_whole_number_stays_text() {
    for s in [
        "18446744073709551616", "-9223372036854775809", "1.5", "1e3", "-", "+", "--1", "+-1",
        "1 ", " 1", "0x10", "1_000", "interpolated_value", "\u{661}",
    ] {
        assert!(is_text(read(s), s), "{}", s);
    }
}

#[test]
fn whole_numbers_read_as_the_standard_library_reads_them() {
    for s in [
        "0", "-1", "+1", "1", "-", "+", "", "00", "-00", "9223372036854775807",
        "9223372036854775808", "-9223372036854775808", "-9223372036854775809",
        "18446744073709551615", "18446744073709551616", "+18446744073709551615", "-18", "1-",
        "12a", "a12", "٣",
    ] {
        let chars: Vec<char> = s.chars().collect();
        assert_eq!(parse_i64(&chars), s.parse::<i64>().ok(), "{:?}", s);
        assert_eq!(parse_u64(&chars), s.parse::<u64>().ok(), "{:?}", s);
    }
}

#[test]
fn scalars_as_values_of_a_document() {
    assert_eq!(scalar_value(ExpandedValue::Null), Value::Null);
    assert_eq!(scalar_value(ExpandedValue::Bool(true)), Value::Bool(true));
    assert_eq!(scalar_value(ExpandedValue::Integer(-3)), Value::Integer(-3));
    assert_eq!(scalar_value(ExpandedValue::Unsigned(u64::MAX)), Value::Unsigned(u64::MAX));
    assert_eq!(
        scalar_value(ExpandedValue::Text("1.5".to_string())),
        Value::Expanded("1.5".to_string())
    );
}

fn text(s: &str) -> Value {
    Value::String(s.to_string())
}

#[test]
fn expansion_reads_the_texts_of_a_document() {
    assert_eq!(expand_env_in_value(&text("true")), Value::Bool(true));
    assert_eq!(expand_env_in_value(&text("~")), Value::Null);
    assert_eq!(expand_env_in_value(&text("-12")), Value::Integer(-12));
    assert_eq!(
        expand_env_in_value(&text("18446744073709551615")),
        Value::Unsigned(u64::MAX)
    );
    assert_eq!(
        expand_env_in_value(&text("$$HOME is where")),
        Value::Expanded("$HOME is where".to_string())
    );
    assert_eq!(
        expand_env_in_value(&text("${OPCUA_NODE_ID_UNSET_ENV_VAR:-4840}")),
        Value::Integer(4840)
    );
    assert_eq!(expand_env_in_value(&text("$OPCUA_NODE_ID_UNSET_ENV_VAR")), Value::Null);
}

#[test]
fn expansion_goes_through_sequences_and_mappings() {
    let document = Value::Mapping(vec![
        (text("true"), text("false")),
        (
            text("list"),
            Value::Sequence(vec![
                text("1"),
                Value::Integer(2),
                text("three"),
                Value::Sequence(vec![text("null"), Value::Null]),
                Value::Mapping(vec![(Value::Integer(1), text("${OPCUA_NODE_ID_UNSET:-x}"))]),
            ]),
        ),
        (Value::Null, Value::Real("1.5".to_string())),
        (text("tagged"), Value::Tagged("!t".to_string(), Box::new(text("true")))),
    ]);
    let expected = Value::Mapping(vec![
        (text("true"), Value::Bool(false)),
        (
            text("list"),
            Value::Sequence(vec![
                Value::Integer(1),
                Value::Integer(2),
                Value::Expanded("three".to_string()),
                Value::Sequence(vec![Value::Null, Value::Null]),
                Value::Mapping(vec![(Value::Integer(1), Value::Expanded("x".to_string()))]),
            ]),
        ),
        (Value::Null, Value::Real("1.5".to_string())),
        (text("tagged"), Value::Tagged("!t".to_string(), Box::new(text("true")))),
    ]);
    assert_eq!(expand_env_in_value(&document), expected);
    assert_eq!(document.clone(), document);
}

#[test]
fn expansion_leaves_other_values_alone() {
    for value in [
        Value::Null,
        Value::Bool(true),
        Value::Integer(i64::MIN),
        Value::Unsigned(u64::MAX),
        Value::Real("2.5".to_string()),
        Value::Expanded("true".to_string()),
        Value::Sequence(Vec::new()),
        Value::Mapping(Vec::new()),
        Value::Tagged("!x".to_string(), Box::new(text("1"))),
    ] {
        assert_eq!(expand_env_in_value(&value), value);
    }
}
