use std::time::Duration;

use sand::duration::{
    component_fits, parse_duration_component, parse_duration_from_components, DurationExt,
    ParseDurationComponentError, TimeUnit,
};

#[test]
fn sand_test_parse_duration() {
    let cases = vec![
        (vec!["1".to_string()], Some(Duration::from_secs(1))),
        (vec!["12".to_string()], Some(Duration::from_secs(12))),
        (vec!["500ms".to_string()], Some(Duration::from_millis(500))),
        (vec!["5s".to_string()], Some(Duration::from_secs(5))),
        (vec!["5sec".to_string()], Some(Duration::from_secs(5))),
        (vec!["5secs".to_string()], Some(Duration::from_secs(5))),
        (vec!["5m".to_string()], Some(Duration::from_secs(5 * 60))),
        (vec!["5min".to_string()], Some(Duration::from_secs(5 * 60))),
        (vec!["5mins".to_string()], Some(Duration::from_secs(5 * 60))),
        (vec!["1m".to_string(), "30".to_string()], Some(Duration::from_secs(90))),
        (vec!["1m".to_string(), "30s".to_string()], Some(Duration::from_secs(90))),
        (vec!["1min".to_string(), "30s".to_string()], Some(Duration::from_secs(90))),
        (vec!["1m".to_string(), "30sec".to_string()], Some(Duration::from_secs(90))),
        (vec!["2h".to_string(), "15m".to_string()], Some(Duration::from_secs(2 * 3600 + 15 * 60))),
        (vec!["2hrs".to_string(), "15mins".to_string()], Some(Duration::from_secs(2 * 3600 + 15 * 60))),
    ];

    for (input, expected) in cases {
        let actual = parse_duration_from_components(&input);
        assert_eq!(actual, expected, "Failed for input: {:?}", input);
    }
}

#[test]
fn duration_test_parse_duration() {
    let cases = vec![
        ("1".to_string(), Ok(Duration::from_secs(1))),
        ("5s".to_string(), Ok(Duration::from_secs(5))),
        ("12".to_string(), Ok(Duration::from_secs(12))),
        ("30".to_string(), Ok(Duration::from_secs(30))),
        ("500ms".to_string(), Ok(Duration::from_millis(500))),
        ("30s".to_string(), Ok(Duration::from_secs(30))),
        ("5sec".to_string(), Ok(Duration::from_secs(5))),
        ("30sec".to_string(), Ok(Duration::from_secs(30))),
        ("5secs".to_string(), Ok(Duration::from_secs(5))),
        ("1m".to_string(), Ok(Duration::from_secs(60))),
        ("5m".to_string(), Ok(Duration::from_secs(5 * 60))),
        ("5min".to_string(), Ok(Duration::from_secs(5 * 60))),
        ("5mins".to_string(), Ok(Duration::from_secs(5 * 60))),
        ("15m".to_string(), Ok(Duration::from_secs(15 * 60))),
        ("15mins".to_string(), Ok(Duration::from_secs(15 * 60))),
        ("2h".to_string(), Ok(Duration::from_secs(2 * 3600))),
    ];

    for (input, expected) in cases {
        let actual = parse_duration_component(&input);
        assert_eq!(actual, expected, "Failed for input: {:?}", input);
    }
}

#[test]
fn component_units_ignore_case() {
    assert_eq!(parse_duration_component("3HOURS"), Ok(Duration::from_secs(3 * 3600)));
    assert_eq!(parse_duration_component("7Milliseconds"), Ok(Duration::from_millis(7)));
    assert_eq!(parse_duration_component("4Min"), Ok(Duration::from_secs(240)));
}

#[test]
fn component_without_count_is_bad_count() {
    assert!(matches!(parse_duration_component("ms"), Err(ParseDurationComponentError::BadCount(_))));
    assert!(matches!(parse_duration_component(""), Err(ParseDurationComponentError::BadCount(_))));
    assert!(matches!(
        parse_duration_component("99999999999999999999s"),
        Err(ParseDurationComponentError::BadCount(_))
    ));
}

#[test]
fn component_with_unknown_unit_is_bad_unit() {
    assert_eq!(parse_duration_component("5days"), Err(ParseDurationComponentError::BadUnit));
    assert_eq!(parse_duration_component("5 s"), Err(ParseDurationComponentError::BadUnit));
}

#[test]
fn component_error_texts() {
    assert_eq!(ParseDurationComponentError::BadUnit.to_string(), "invalid unit");
    let e = parse_duration_component("x").unwrap_err();
    assert!(e.to_string().starts_with("failed to parse count: "));
    assert!(e.source().is_some());
    assert!(ParseDurationComponentError::BadUnit.source().is_none());
}

#[test]
fn huge_hours_do_not_fit() {
    let max_hours = (u64::MAX / 3600).to_string() + "h";
    assert!(component_fits(&max_hours));
    let too_many = (u64::MAX / 3600 + 1).to_string() + "h";
    assert!(!component_fits(&too_many));
    assert_eq!(parse_duration_from_components(&[too_many]), None);
    assert!(component_fits("18446744073709551615s"));
}

#[test]
fn components_with_a_bad_one_give_none() {
    assert_eq!(parse_duration_from_components(&["1m".to_string(), "x".to_string()]), None);
    assert_eq!(parse_duration_from_components(&["1y".to_string()]), None);
    assert_eq!(parse_duration_from_components(&[]), Some(Duration::from_secs(0)));
}

#[test]
fn sum_beyond_duration_max_gives_none() {
    let big = u64::MAX.to_string() + "s";
    assert_eq!(parse_duration_from_components(&[big.clone()]), Some(Duration::from_secs(u64::MAX)));
    assert_eq!(parse_duration_from_components(&[big, "1s".to_string()]), None);
}

#[test]
fn unit_names() {
    assert_eq!(TimeUnit::parse("hrs"), Some(TimeUnit::Hours));
    assert_eq!(TimeUnit::parse("minutes"), Some(TimeUnit::Minutes));
    assert_eq!(TimeUnit::parse(""), Some(TimeUnit::Seconds));
    assert_eq!(TimeUnit::parse("milli"), Some(TimeUnit::Milliseconds));
    assert_eq!(TimeUnit::parse("hour"), None);
    assert_eq!(TimeUnit::Minutes.to_duration(3), Duration::from_secs(180));
}

#[test]
fn colon_separated_format() {
    assert_eq!(Duration::from_millis(3_723_004).format_colon_separated(), "01:02:03:004");
    assert_eq!(Duration::from_secs(0).format_colon_separated(), "00:00:00:000");
    assert_eq!(Duration::from_secs(100 * 3600 + 59).format_colon_separated(), "100:00:59:000");
}
