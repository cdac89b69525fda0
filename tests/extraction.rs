use canister_prober::{
    apply, extract_height, fetch_bitcoin_block_height, fetch_bitcoin_canister_height,
    height_from_pattern, parse_height, ExtractionRule, MetricPattern, ServiceError,
};

const DEFAULT_PATTERN: &str = r"\nmain_chain_height (\d+) \d+\n";

fn default_pattern() -> MetricPattern {
    MetricPattern::single_group(DEFAULT_PATTERN).unwrap()
}

#[test]
fn raw_integer_reads_exact_value() {
    assert_eq!(parse_height("700000").unwrap(), 700000);
    assert_eq!(parse_height("0").unwrap(), 0);
    assert_eq!(parse_height("007").unwrap(), 7);
    assert_eq!(parse_height("4294967295").unwrap(), u32::MAX);
}

#[test]
fn raw_integer_rejects_surrounding_characters() {
    for body in ["", " 1", "1 ", "1\n", "+1", "-1", "12a", "a12", "1.0", "１"] {
        assert!(
            matches!(parse_height(body), Err(ServiceError::ParseIntError)),
            "{:?}",
            body
        );
    }
}

#[test]
fn raw_integer_rejects_overflow() {
    assert!(matches!(parse_height("4294967296"), Err(ServiceError::ParseIntError)));
    assert!(matches!(parse_height("99999999999999999999"), Err(ServiceError::ParseIntError)));
}

#[test]
fn extract_height_by_rule() {
    assert_eq!(extract_height(&ExtractionRule::RawInteger, "123").unwrap(), 123);
    let rule = ExtractionRule::PatternCapture(default_pattern());
    let body = "# HELP x\nmain_chain_height 812 1668084050769\nother 3\n";
    assert_eq!(extract_height(&rule, body).unwrap(), 812);
    assert!(matches!(extract_height(&rule, "123"), Err(ServiceError::NoMetricError)));
}

#[test]
fn pattern_capture_reads_group() {
    let p = default_pattern();
    let body = "a 1\nmain_chain_height 699950 1668084050769\nb 2\n";
    assert_eq!(apply(&p, body).unwrap(), "699950");
    assert_eq!(height_from_pattern(&p, body).unwrap(), 699950);
}

#[test]
fn pattern_capture_without_match_fails() {
    let p = default_pattern();
    assert!(matches!(apply(&p, "nothing here"), Err(ServiceError::NoMetricError)));
    assert!(matches!(
        height_from_pattern(&p, "main_chain_height 5 6\n"),
        Err(ServiceError::NoMetricError)
    ));
}

#[test]
fn pattern_capture_with_non_numeric_group_fails_to_parse() {
    let p = MetricPattern::single_group(r"height=(\w+)").unwrap();
    assert!(matches!(height_from_pattern(&p, "height=abc"), Err(ServiceError::ParseIntError)));
    assert_eq!(height_from_pattern(&p, "height=42").unwrap(), 42);
}

#[test]
fn pattern_with_optional_group_not_taking_part_finds_no_metric() {
    let p = MetricPattern::single_group(r"x(\d+)?y").unwrap();
    assert!(matches!(apply(&p, "xy"), Err(ServiceError::NoMetricError)));
    assert_eq!(apply(&p, "x12y").unwrap(), "12");
}

#[test]
fn zero_groups_is_incorrect_regex_whatever_the_text() {
    let p = MetricPattern::new(r"main_chain_height \d+").unwrap();
    for text in ["main_chain_height 5", "", "no match"] {
        match apply(&p, text) {
            Err(ServiceError::IncorrectRegex { message }) => {
                assert_eq!(message, "expected 1 group exactly, provided 1")
            }
            other => panic!("unexpected {:?}", other),
        }
    }
}

#[test]
fn two_groups_is_incorrect_regex_whatever_the_text() {
    let p = MetricPattern::new(r"(\d+) (\d+)").unwrap();
    for text in ["1 2", "", "none"] {
        match height_from_pattern(&p, text) {
            Err(ServiceError::IncorrectRegex { message }) => {
                assert_eq!(message, "expected 1 group exactly, provided 3")
            }
            other => panic!("unexpected {:?}", other),
        }
    }
}

#[test]
fn many_groups_message_counts_in_decimal() {
    let p = MetricPattern::new(r"(a)(b)(c)(d)(e)(f)(g)(h)(i)(j)(k)").unwrap();
    match apply(&p, "abcdefghijk") {
        Err(ServiceError::IncorrectRegex { message }) => {
            assert_eq!(message, "expected 1 group exactly, provided 12")
        }
        other => panic!("unexpected {:?}", other),
    }
}

#[test]
fn single_group_validates_at_construction() {
    assert!(matches!(
        MetricPattern::single_group(r"\d+"),
        Err(ServiceError::IncorrectRegex { .. })
    ));
    assert!(matches!(
        MetricPattern::single_group(r"(\d+)(\d+)"),
        Err(ServiceError::IncorrectRegex { .. })
    ));
    assert!(MetricPattern::single_group(DEFAULT_PATTERN).is_ok());
}

#[test]
fn pattern_that_does_not_compile_is_regex_error() {
    assert!(matches!(MetricPattern::new("(unclosed"), Err(ServiceError::RegexError(_))));
    assert!(matches!(
        MetricPattern::single_group("(unclosed"),
        Err(ServiceError::RegexError(_))
    ));
}

#[test]
fn failed_request_error_is_passed_on() {
    let err = || Err(ServiceError::ApiError { message: "connection refused".to_string() });
    match fetch_bitcoin_block_height(err()) {
        Err(ServiceError::ApiError { message }) => assert_eq!(message, "connection refused"),
        other => panic!("unexpected {:?}", other),
    }
    let p = default_pattern();
    assert!(matches!(
        fetch_bitcoin_canister_height(&p, err()),
        Err(ServiceError::ApiError { .. })
    ));
}

#[test]
fn fetch_steps_read_bodies() {
    assert_eq!(fetch_bitcoin_block_height(Ok("700000".to_string())).unwrap(), 700000);
    let p = default_pattern();
    let body = "\nmain_chain_height 699950 1668084050769\n".to_string();
    assert_eq!(fetch_bitcoin_canister_height(&p, Ok(body)).unwrap(), 699950);
    assert!(matches!(
        fetch_bitcoin_block_height(Ok("700000\n".to_string())),
        Err(ServiceError::ParseIntError)
    ));
}
