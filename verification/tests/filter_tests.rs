use logscraper::filters::{DateFilter, DateFilterType, Filter, RegexFilter, SearchFilter};

fn ms(s: &str) -> i64 {
    chrono::DateTime::parse_from_str(s, "%Y-%m-%dT%H:%M:%S%z")
        .expect("test date must parse")
        .timestamp_millis()
}

#[test]
fn filter_test_regex_filter_false() {
    let f = Filter::Regex(RegexFilter { pattern: r"\d{10}".to_string() });
    let line = "2022-01-08T11:27:44+09:00 test line in log".to_string();
    assert_eq!(f.is_include(&line), false)
}

#[test]
fn filter_test_regex_filter_true() {
    let f = Filter::Regex(RegexFilter { pattern: r"\d{10}".to_string() });
    let line = "2022-01-08T11:27:44+09:00 test line (1234567890) in log".to_string();
    assert_eq!(f.is_include(&line), true)
}

#[test]
fn filter_test_search_filter_false() {
    let f = Filter::Search(SearchFilter { substr: "wrong".to_string() });
    let line = "2022-01-08T11:27:44+09:00 test line in log".to_string();
    assert_eq!(f.is_include(&line), false)
}

#[test]
fn filter_test_search_filter_true() {
    let f = Filter::Search(SearchFilter { substr: "test".to_string() });
    let line = "2022-01-08T11:27:44+09:00 test line in log".to_string();
    assert_eq!(f.is_include(&line), true)
}

#[test]
fn filter_test_date_filter_false_before() {
    let f = Filter::Date(DateFilter {
        date_format: "%Y-%m-%dT%H:%M:%S%z".to_string(),
        date_start: Some(ms("2025-10-08T18:27:11+09:00")),
        date_finish: None,
        filter_type: DateFilterType::Between,
    });
    let line = "2022-01-08T11:27:44+09:00 test line in log".to_string();
    assert_eq!(f.is_include(&line), false)
}

#[test]
fn filter_test_date_filter_false_after() {
    let f = Filter::Date(DateFilter {
        date_format: "%Y-%m-%dT%H:%M:%S%z".to_string(),
        date_start: None,
        date_finish: Some(ms("2021-10-08T18:27:11+09:00")),
        filter_type: DateFilterType::Between,
    });
    let line = "2022-01-08T11:27:44+09:00 test line in log".to_string();
    assert_eq!(f.is_include(&line), false)
}

#[test]
fn filter_test_date_filter_false_on_one_param() {
    let f = Filter::Date(DateFilter {
        date_format: "%Y-%m-%dT%H:%M:%S%z".to_string(),
        date_start: Some(ms("2021-10-08T18:27:11+09:00")),
        date_finish: Some(ms("2021-10-18T18:27:11+09:00")),
        filter_type: DateFilterType::Between,
    });
    let line = "2022-01-08T11:27:44+09:00 test line in log".to_string();
    assert_eq!(f.is_include(&line), false)
}

#[test]
fn filter_test_date_filter_true_empty() {
    let f = Filter::Date(DateFilter {
        date_format: "%Y-%m-%dT%H:%M:%S%z".to_string(),
        date_start: None,
        date_finish: None,
        filter_type: DateFilterType::Between,
    });
    let line = "2022-01-08T11:27:44+09:00 test line in log".to_string();
    assert_eq!(f.is_include(&line), true)
}

#[test]
fn filter_test_date_filter_true_before_and_after() {
    let f = Filter::Date(DateFilter {
        date_format: "%Y-%m-%dT%H:%M:%S%z".to_string(),
        date_start: Some(ms("2021-10-08T18:27:11+09:00")),
        date_finish: Some(ms("2023-10-28T18:27:11+09:00")),
        filter_type: DateFilterType::Between,
    });
    let line = "2022-01-08T11:27:44+09:00 test line in log".to_string();
    assert_eq!(f.is_include(&line), true)
}

#[test]
fn mod_test_regex_filter_false() {
    let pattern = r"\d{10}".to_string();
    let f = Filter::Regex(RegexFilter { pattern });
    let line = "2022-01-08T11:27:44+09:00 test line in log".to_string();
    assert_eq!(f.is_include(&line), false)
}

#[test]
fn mod_test_regex_filter_true() {
    let pattern = r"\d{10}".to_string();
    let f = Filter::Regex(RegexFilter { pattern });
    let line = "2022-01-08T11:27:44+09:00 test line (1234567890) in log".to_string();
    assert_eq!(f.is_include(&line), true)
}

#[test]
fn mod_test_search_filter_false() {
    let f = Filter::Search(SearchFilter { substr: "wrong".to_string() });
    let line = "2022-01-08T11:27:44+09:00 test line in log".to_string();
    assert_eq!(f.is_include(&line), false)
}

#[test]
fn mod_test_search_filter_true() {
    let f = Filter::Search(SearchFilter { substr: "test".to_string() });
    let line = "2022-01-08T11:27:44+09:00 test line in log".to_string();
    assert_eq!(f.is_include(&line), true)
}

#[test]
fn mod_test_date_filter_false_before() {
    let f = Filter::Date(DateFilter {
        date_format: "%Y-%m-%dT%H:%M:%S%z".to_string(),
        date_start: Some(ms("2025-10-08T18:27:11+09:00")),
        date_finish: None,
        filter_type: DateFilterType::Between,
    });
    let line = "2022-01-08T11:27:44+09:00 test line in log".to_string();
    assert_eq!(f.is_include(&line), false)
}

#[test]
fn mod_test_date_filter_false_after() {
    let f = Filter::Date(DateFilter {
        date_format: "%Y-%m-%dT%H:%M:%S%z".to_string(),
        date_start: None,
        date_finish: Some(ms("2021-10-08T18:27:11+09:00")),
        filter_type: DateFilterType::Between,
    });
    let line = "2022-01-08T11:27:44+09:00 test line in log".to_string();
    assert_eq!(f.is_include(&line), false)
}

#[test]
fn mod_test_date_filter_false_on_one_param() {
    let f = Filter::Date(DateFilter {
        date_format: "%Y-%m-%dT%H:%M:%S%z".to_string(),
        date_start: Some(ms("2021-10-08T18:27:11+09:00")),
        date_finish: Some(ms("2021-10-18T18:27:11+09:00")),
        filter_type: DateFilterType::Between,
    });
    let line = "2022-01-08T11:27:44+09:00 test line in log".to_string();
    assert_eq!(f.is_include(&line), false)
}

#[test]
fn mod_test_date_filter_true_empty() {
    let f = Filter::Date(DateFilter {
        date_format: "%Y-%m-%dT%H:%M:%S%z".to_string(),
        date_start: None,
        date_finish: None,
        filter_type: DateFilterType::Between,
    });
    let line = "2022-01-08T11:27:44+09:00 test line in log".to_string();
    assert_eq!(f.is_include(&line), true)
}

#[test]
fn mod_test_date_filter_true_before_and_after() {
    let f = Filter::Date(DateFilter {
        date_format: "%Y-%m-%dT%H:%M:%S%z".to_string(),
        date_start: Some(ms("2021-10-08T18:27:11+09:00")),
        date_finish: Some(ms("2023-10-28T18:27:11+09:00")),
        filter_type: DateFilterType::Between,
    });
    let line = "2022-01-08T11:27:44+09:00 test line in log".to_string();
    assert_eq!(f.is_include(&line), true)
}

#[test]
fn chain_includes_iff_every_filter_does() {
    let line = "2022-01-08T11:27:44+09:00 test line (1234567890) in log".to_string();
    let search = Filter::Search(SearchFilter { substr: "test".to_string() });
    let re = Filter::Regex(RegexFilter { pattern: r"\d{10}".to_string() });
    let wrong = Filter::Search(SearchFilter { substr: "wrong".to_string() });

    let all_pass = vec![search.clone(), re.clone()];
    assert!(logscraper::filters::chain_is_include(&all_pass, &line));
    assert!(search.is_include(&line) && re.is_include(&line));

    let one_fails = vec![search, re, wrong.clone()];
    assert!(!logscraper::filters::chain_is_include(&one_fails, &line));
    assert!(!wrong.is_include(&line));

    let empty: Vec<Filter> = vec![];
    assert!(logscraper::filters::chain_is_include(&empty, &line));
}

#[test]
fn between_bounds_are_inclusive() {
    let t = "2022-01-08T11:27:44+09:00";
    let f = Filter::Date(DateFilter {
        date_format: "%Y-%m-%dT%H:%M:%S%z".to_string(),
        date_start: Some(ms(t)),
        date_finish: Some(ms(t)),
        filter_type: DateFilterType::Between,
    });
    let line = format!("{} test line in log", t);
    assert_eq!(f.is_include(&line), true)
}

#[test]
fn between_start_after_finish_excludes_everything() {
    let f = Filter::Date(DateFilter {
        date_format: "%Y-%m-%dT%H:%M:%S%z".to_string(),
        date_start: Some(ms("2023-10-28T18:27:11+09:00")),
        date_finish: Some(ms("2021-10-08T18:27:11+09:00")),
        filter_type: DateFilterType::Between,
    });
    let line = "2022-01-08T11:27:44+09:00 test line in log".to_string();
    assert_eq!(f.is_include(&line), false)
}

#[test]
fn unbounded_date_filter_rejects_only_parse_failures() {
    let f = Filter::Date(DateFilter {
        date_format: "%Y-%m-%dT%H:%M:%S%z".to_string(),
        date_start: None,
        date_finish: None,
        filter_type: DateFilterType::Between,
    });
    let unparsable = "not-a-date test line in log".to_string();
    assert_eq!(f.is_include(&unparsable), false);
    let parsable = "2022-01-08T11:27:44+09:00 anything".to_string();
    assert_eq!(f.is_include(&parsable), true);
}

#[test]
fn before_checks_only_finish_and_after_only_start() {
    let start = Some(ms("2023-10-28T18:27:11+09:00"));
    let finish = Some(ms("2021-10-08T18:27:11+09:00"));
    let line = "2022-01-08T11:27:44+09:00 test line in log".to_string();

    let before = Filter::Date(DateFilter {
        date_format: "%Y-%m-%dT%H:%M:%S%z".to_string(),
        date_start: start,
        date_finish: None,
        filter_type: DateFilterType::Before,
    });
    assert_eq!(before.is_include(&line), true);

    let after = Filter::Date(DateFilter {
        date_format: "%Y-%m-%dT%H:%M:%S%z".to_string(),
        date_start: None,
        date_finish: finish,
        filter_type: DateFilterType::After,
    });
    assert_eq!(after.is_include(&line), true);
}

#[test]
fn invalid_regex_is_rejected_at_construction() {
    let err = Filter::new_regex("(".to_string());
    assert!(err.is_err());
    match err.unwrap_err() {
        logscraper::filters::ConfigurationError::InvalidPattern(p) => assert_eq!(p, "("),
    }
    let ok = Filter::new_regex(r"\d{10}".to_string());
    assert!(ok.is_ok());
}

#[test]
fn configuration_error_message_names_the_pattern() {
    let e = logscraper::filters::ConfigurationError::InvalidPattern("(".to_string());
    assert_eq!(e.message(), "invalid filter pattern: (");
}

#[test]
fn invalid_regex_filter_matches_nothing() {
    let f = Filter::Regex(RegexFilter { pattern: "(".to_string() });
    let line = "((((".to_string();
    assert_eq!(f.is_include(&line), false)
}

#[test]
fn leading_token_is_first_whitespace_delimited_word() {
    assert_eq!(logscraper::filters::leading_token("  2022-01-08 rest"), "2022-01-08");
    assert_eq!(logscraper::filters::leading_token("one"), "one");
    assert_eq!(logscraper::filters::leading_token("   "), "");
    assert_eq!(logscraper::filters::leading_token(""), "");
    assert_eq!(logscraper::filters::leading_token("\ta\tb"), "a");
}

#[test]
fn constructors_build_the_described_filters() {
    let s = Filter::new_search("test".to_string());
    let line = "a test line".to_string();
    assert!(s.is_include(&line));

    let r = Filter::new_regex(r"\d{10}".to_string()).expect("a valid pattern must be accepted");
    assert!(r.is_include(&"num 1234567890 here".to_string()));
    assert!(!r.is_include(&"no long digit run".to_string()));

    let d = Filter::new_date("%Y-%m-%dT%H:%M:%S%z".to_string(), None, None, DateFilterType::Between);
    assert!(d.is_include(&"2022-01-08T11:27:44+09:00 x".to_string()));
}
