use tursokit::dialect::builtin::{resolve_builtin_function, resolve_normalized, Features, Resolution};
use tursokit::dialect::sqlite::SqliteDialect;
use tursokit::error::LimboError;
use tursokit::function::{AggFunc, Func};
use tursokit::scan::{
    classify_float, find_from, hex_digits, is_integer_within, parse_i64, parse_integer, rfind,
    split_on, split_words, trimmed, FloatText, IntegerError,
};
use tursokit::text::{
    chars_of, ends_with, join2, join3, print_i64, print_u64, starts_with, string_of,
};

fn chars(s: &str) -> Vec<char> {
    s.chars().collect()
}

#[test]
fn texts_are_joined_and_compared() {
    assert_eq!(join2("a", "é"), "aé");
    assert_eq!(join3("a", "", "c"), "ac");
    assert_eq!(string_of(&chars_of("日本x")), "日本x");
    assert!(starts_with("sqlite_schema", "sqlite_"));
    assert!(!starts_with("sql", "sqlite_"));
    assert!(ends_with("file.db", ".db"));
    assert!(!ends_with("db", ".db"));
}

#[test]
fn numbers_print_as_they_read() {
    for n in [0, 7, 10, -1, i64::MIN, i64::MAX] {
        let printed = print_i64(n);
        assert_eq!(printed, n.to_string());
        assert_eq!(parse_i64(&chars(&printed)), Ok(n));
    }
    assert_eq!(print_u64(u64::MAX), u64::MAX.to_string());
}

#[test]
fn integers_are_refused_for_a_reason() {
    for s in ["", "-", "+", "1a", "+7", "9223372036854775808", "-9223372036854775809", "00012"] {
        let expected = s.parse::<i64>();
        let got = parse_i64(&chars(s));
        match (expected, got) {
            (Ok(n), Ok(m)) => assert_eq!(n, m),
            (Err(e), Err(reason)) => assert_eq!(e.to_string(), reason.message()),
            _ => panic!("{s:?} is read otherwise"),
        }
    }
    assert_eq!(parse_i64(&vec![]), Err(IntegerError::Empty));
    assert_eq!(parse_integer(&chars("-5"), true), Some(-5));
    assert_eq!(parse_integer(&chars("-5"), false), None);
    assert!(is_integer_within(&chars("+255"), false, 0, 255));
    assert!(!is_integer_within(&chars("256"), false, 0, 255));
}

#[test]
fn decimal_numbers_are_told_by_their_form() {
    let texts = [
        "1", "1.", ".5", ".", "", "+", "1e5", "1e", "1e+5", "1E-05", "e5", "1.5.2", "inf",
        "-Infinity", "NaN", "infin", "0x10", " 1", "1_000", "+.5e1", "-nan",
    ];
    for s in texts {
        let well_formed = classify_float(&chars(s)) != FloatText::Malformed;
        assert_eq!(well_formed, s.parse::<f64>().is_ok(), "{s:?}");
    }
    assert_eq!(classify_float(&chars("nAn")), FloatText::NotANumber);
    assert_eq!(classify_float(&chars("+INF")), FloatText::Infinity);
    assert_eq!(classify_float(&chars("1e400")), FloatText::Decimal);
}

#[test]
fn texts_are_taken_apart() {
    let s = "\u{a0}\t a-b--c \u{3000}";
    assert_eq!(string_of(&trimmed(&chars(s))), s.trim());
    let parts: Vec<String> = split_on(&chars("a-b--c"), '-')
        .iter()
        .map(|p| string_of(p))
        .collect();
    assert_eq!(parts, ["a", "b", "", "c"]);
    let words: Vec<String> = split_words(&chars("  DROP \n schema\u{2003}x "))
        .iter()
        .map(|p| string_of(p))
        .collect();
    assert_eq!(words, ["DROP", "schema", "x"]);
    assert!(split_words(&chars(" \t")).is_empty());
    assert_eq!(find_from(&chars("a(b("), '(', 2), 3);
    assert_eq!(find_from(&chars("ab"), '(', 0), 2);
    assert_eq!(rfind(&chars("a(b("), '('), Some(3));
    assert_eq!(rfind(&chars("ab"), '('), None);
    assert!(hex_digits(&chars("09afAF")));
    assert!(!hex_digits(&chars("0g")));
}

#[test]
fn functions_are_found_by_name_and_arity() {
    match resolve_builtin_function("COUNT", 0) {
        Ok(Some(Func::Agg(AggFunc::Count0))) => {}
        other => panic!("unexpected {other:?}"),
    }
    match resolve_builtin_function("count", 1) {
        Ok(Some(Func::Agg(AggFunc::Count))) => {}
        other => panic!("unexpected {other:?}"),
    }
    assert!(matches!(resolve_builtin_function("no_such_function", 1), Ok(None)));
    match resolve_builtin_function("Avg", 2) {
        Err(LimboError::ParseError(m)) => {
            assert_eq!(m, "wrong number of arguments to function Avg()")
        }
        other => panic!("unexpected {other:?}"),
    }
    match SqliteDialect.resolve_function("Max", 1) {
        Ok(Some(Func::Agg(AggFunc::Max))) => {}
        other => panic!("unexpected {other:?}"),
    }
    assert!(matches!(
        SqliteDialect.resolve_function("max", 2),
        Ok(Some(Func::Scalar(_)))
    ));
}

#[test]
fn features_bring_their_functions() {
    let none = Features {
        json: false,
        fts: false,
        fs: false,
        test_helper: false,
    };
    let all = Features {
        json: true,
        fts: true,
        fs: true,
        test_helper: true,
    };
    assert_eq!(resolve_normalized("json_extract", 2, none), Resolution::Unknown);
    assert!(matches!(
        resolve_normalized("json_extract", 2, all),
        Resolution::Found(_)
    ));
    assert!(matches!(resolve_normalized("fts_score", 2, all), Resolution::Found(_)));
    for (name, n) in [("abs", 1), ("upper", 1), ("sum", 1), ("row_number", 0), ("sin", 1)] {
        let found = resolve_normalized(name, n, none);
        assert!(matches!(found, Resolution::Found(_)));
        assert_eq!(found, resolve_normalized(name, n, all));
    }
}
