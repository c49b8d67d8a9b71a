use cosmic_weekly_commits::panel::selected_index;
use cosmic_weekly_commits::weekly::{
    cache_context, dates_from, fetch_step, format_rfc3339, gitea_counts_from_text,
    github_counts_from_text, gitlab_counts_from_text, theme, CacheAction, CacheEntry, CacheEvent,
    ColorMode, Day, FetchError, Moment, ServiceType, Settings, ThemeName, WeekdayStart,
};

fn week() -> [Day; 7] {
    // 2018-12-26 to 2019-01-01
    dates_from(Day { julian: 2_458_485 }, &Settings::default())
}

fn serde_message(text: &str) -> String {
    serde_json::from_str::<serde_json::Value>(text).unwrap_err().to_string()
}

#[test]
fn github_text_answers() {
    let days = week();
    let text = r#"{"data":{"user":{"contributionsCollection":{"contributionCalendar":{"weeks":[
        {"contributionDays":[{"date":"2018-12-31","contributionCount":3},
                             {"date":"2018-12-26","contributionCount":1}]},
        {"contributionDays":null},
        {"contributionDays":[{"date":"2018-12-31","contributionCount":5},
                             {"date":"2019-01-01"},
                             {"contributionCount":9},
                             {"date":"2019-01-01","contributionCount":4294967298}]}
    ]}}}}}"#;
    assert_eq!(github_counts_from_text(&days, text).unwrap(), [1, 0, 0, 0, 0, 5, 2]);
}

#[test]
fn github_text_errors() {
    let days = week();
    match github_counts_from_text(&days, r#"{"errors": [ {"message": "x"} ], "data": null}"#) {
        Err(FetchError::Http(m)) => assert_eq!(m, r#"[{"message":"x"}]"#),
        other => panic!("unexpected {:?}", other),
    }
    match github_counts_from_text(&days, r#"{"data":{"user":null}}"#) {
        Err(FetchError::Parse(m)) => assert_eq!(m, "unexpected GitHub response"),
        other => panic!("unexpected {:?}", other),
    }
    match github_counts_from_text(&days, "not json") {
        Err(FetchError::Parse(m)) => assert_eq!(m, serde_message("not json")),
        other => panic!("unexpected {:?}", other),
    }
}

#[test]
fn gitea_text_answers() {
    let days = week();
    let text = r#"[{"timestamp":1546300800,"contributions":2},
                   {"timestamp":1546340000,"contributions":3},
                   {"timestamp":1546214400},
                   {"contributions":7},
                   {"timestamp":1545782400,"contributions":1}]"#;
    assert_eq!(gitea_counts_from_text(&days, text).unwrap(), [1, 0, 0, 0, 0, 0, 5]);
    match gitea_counts_from_text(&days, r#"{"message":"not found"}"#) {
        Err(FetchError::Parse(m)) => assert_eq!(m, "unexpected Gitea response"),
        other => panic!("unexpected {:?}", other),
    }
    match gitea_counts_from_text(&days, r#"[{"timestamp":9223372036854775807,"contributions":1}]"#) {
        Err(FetchError::Parse(m)) => assert_eq!(m, "timestamp was not in range"),
        other => panic!("unexpected {:?}", other),
    }
    match gitea_counts_from_text(&days, "[1,") {
        Err(FetchError::Parse(m)) => assert_eq!(m, serde_message("[1,")),
        other => panic!("unexpected {:?}", other),
    }
}

#[test]
fn gitlab_text_answers() {
    let days = week();
    let text = r#"[
        {"action_name":"pushed to","created_at":"2019-01-01T10:00:00+00:00","push_data":{"commit_count":3}},
        {"action_name":"pushed to","created_at":"2019-01-01T11:00:00Z"},
        {"action_name":"pushed new","created_at":"2019-01-01T11:00:00Z","push_data":{"commit_count":8}},
        {"action_name":"pushed to","created_at":"2018-12-31T23:30:00-05:00","push_data":{"commit_count":2}},
        {"action_name":"pushed to","created_at":"2019-01-01T09:00:00Z","push_data":null},
        {"action_name":"pushed to","created_at":"yesterday","push_data":{"commit_count":8}}
    ]"#;
    assert_eq!(gitlab_counts_from_text(&days, text).unwrap(), [0, 0, 0, 0, 0, 2, 5]);
    match gitlab_counts_from_text(&days, "{}") {
        Err(FetchError::Parse(m)) => assert_eq!(m, "unexpected GitLab response"),
        other => panic!("unexpected {:?}", other),
    }
    match gitlab_counts_from_text(&days, "") {
        Err(FetchError::Parse(m)) => assert_eq!(m, serde_message("")),
        other => panic!("unexpected {:?}", other),
    }
}

fn signed_in() -> Settings {
    let mut s = Settings::default();
    s.github_username = "alice".to_string();
    s.github_token = "tok".to_string();
    s
}

fn new_year() -> Moment {
    Moment { unix_seconds: 1_546_300_800, nanosecond: 0, day: Day { julian: 2_458_485 + 6 } }
}

#[test]
fn fetch_steps_without_credentials() {
    let days = week();
    let key = "k".to_string();
    match fetch_step(&Settings::default(), days, &key, CacheEvent::Start) {
        CacheAction::Done(week) => {
            assert_eq!(week.dates, days);
            assert_eq!(week.counts, [0; 7]);
            assert_eq!(week.cached_at, None);
        }
        other => panic!("unexpected {:?}", other),
    }
    assert!(matches!(fetch_step(&signed_in(), days, &key, CacheEvent::Start), CacheAction::FetchLive));
}

#[test]
fn fetch_steps_save_and_fall_back() {
    let days = week();
    let settings = signed_in();
    let key = "k".to_string();
    let counts = [1, 2, 3, 4, 5, 6, 7];
    let saved = match fetch_step(&settings, days, &key, CacheEvent::Fetched(Ok(counts), new_year())) {
        CacheAction::SaveThenDone(entry, week) => {
            assert_eq!(entry.key, "k");
            assert!(entry.context == cache_context(&settings));
            assert_eq!(entry.counts, counts);
            assert_eq!(entry.updated_at, "2019-01-01T00:00:00Z");
            assert_eq!(entry.updated_at, format_rfc3339(1_546_300_800, 0));
            assert_eq!(week.counts, counts);
            assert_eq!(week.cached_at, None);
            entry
        }
        other => panic!("unexpected {:?}", other),
    };
    let failed = CacheEvent::Fetched(Err(FetchError::Timeout), new_year());
    assert!(matches!(fetch_step(&settings, days, &key, failed), CacheAction::ReadCache));
    let other = CacheEntry { key: "other".to_string(), ..saved.clone() };
    match fetch_step(&settings, days, &key, CacheEvent::CacheRead(Some(saved))) {
        CacheAction::Done(week) => {
            assert_eq!(week.counts, counts);
            assert_eq!(week.cached_at, Some("2019-01-01T00:00:00Z".to_string()));
        }
        unexpected => panic!("unexpected {:?}", unexpected),
    }
    for read in [Some(other), None] {
        match fetch_step(&settings, days, &key, CacheEvent::CacheRead(read)) {
            CacheAction::Done(week) => {
                assert_eq!(week.counts, [0; 7]);
                assert_eq!(week.cached_at, None);
            }
            unexpected => panic!("unexpected {:?}", unexpected),
        }
    }
}

#[test]
fn theme_shades_are_distinct_hex_colors() {
    for name in ThemeName::ALL {
        let t = theme(name);
        let shades = [t.grade0, t.grade1, t.grade2, t.grade3, t.grade4];
        for (i, s) in shades.iter().enumerate() {
            assert_eq!(s.len(), 7);
            assert!(s.starts_with('#'));
            assert!(s[1..].chars().all(|c| c.is_ascii_hexdigit()));
            for other in &shades[i + 1..] {
                assert_ne!(s, other);
            }
        }
    }
}

#[test]
fn theme_labels_differ() {
    for (i, a) in ThemeName::ALL.iter().enumerate() {
        for b in &ThemeName::ALL[i + 1..] {
            assert_ne!(a.label(), b.label());
        }
    }
}

#[test]
fn selected_entries_of_the_lists() {
    assert_eq!(selected_index(&WeekdayStart::ALL, WeekdayStart::Monday), Some(1));
    assert_eq!(selected_index(&ThemeName::ALL, ThemeName::SolarizedLight), Some(13));
    assert_eq!(selected_index(&ServiceType::ALL, ServiceType::GitLab), Some(2));
    assert_eq!(selected_index(&ColorMode::ALL, ColorMode::Opacity), Some(0));
    assert_eq!(selected_index(&ColorMode::ALL[..1], ColorMode::Grade), None);
}

#[test]
fn github_bodies_escape_the_query() {
    let mut settings = Settings::default();
    settings.github_username = "a\"b\u{1}é\t\\/\u{1f}\u{7f}".to_string();
    settings.github_token = "tok".to_string();
    let query = cosmic_weekly_commits::weekly::github_query(&settings.github_username, "x", "y");
    let (_, body) = cosmic_weekly_commits::weekly::github_request(&settings, "x", "y").unwrap();
    let mut object = serde_json::Map::new();
    object.insert("query".to_string(), serde_json::Value::String(query));
    assert_eq!(body, serde_json::Value::Object(object).to_string());
    assert!(body.contains("a\\\"b\\u0001é\\t\\\\/\\u001f\u{7f}"));
}
