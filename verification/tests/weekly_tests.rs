use cosmic_weekly_commits::weekly::{
    box_hex_color, cache_context, curl_failure_message, day_of_local_reading, cached_age_label,
    cached_label, calendar_date, calendar_key,
    channel, date_key, date_keys, date_label, dates_for, dates_from, day_label, decimal_text,
    elapsed_seconds, fallback_contributions, format_rfc3339, fresh_contributions, gitea_counts,
    gitea_request, github_counts, github_query, github_request, gitlab_counts, gitlab_request,
    grade, has_credentials, hex_channels, latest_counts, month_day_label, now_utc,
    parse_rfc3339, query_body, summed_counts, theme, today, trim, trim_end_matches_char,
    trim_start_matches_char, url_encode, utc_day_of_unix_time, weekday_from_sunday,
    window_bounds, zero_contributions, CacheEntry, ColorMode, Day, FetchError, GiteaEntry,
    GithubDay, GithubReply, GithubWeek, GitlabEvent, Moment, ServiceType, Settings, ThemeName,
    WeekdayStart,
};

#[test]
fn grade_thresholds_match_extension() {
    assert_eq!(grade(0), "grade0");
    assert_eq!(grade(1), "grade1");
    assert_eq!(grade(2), "grade1");
    assert_eq!(grade(3), "grade2");
    assert_eq!(grade(5), "grade2");
    assert_eq!(grade(6), "grade3");
    assert_eq!(grade(10), "grade3");
    assert_eq!(grade(11), "grade4");
}

#[test]
fn last_seven_days_are_ordered_oldest_to_today() {
    let settings = Settings::default();
    let dates = dates_for(&settings);
    let date = |d: &Day| time::Date::from_julian_day(d.julian).unwrap();
    for window in dates.windows(2) {
        assert_eq!(date(&window[0]) + time::Duration::days(1), date(&window[1]));
    }
}

#[test]
fn labels_of_kinds() {
    assert_eq!(ServiceType::Gitea.label(), "Gitea");
    assert_eq!(ColorMode::Grade.label(), "Grade");
    assert_eq!(WeekdayStart::Wednesday.label(), "Wednesday");
    assert_eq!(WeekdayStart::Saturday.number_from_sunday(), 6);
    assert_eq!(WeekdayStart::Sunday.number_from_sunday(), 0);
    assert_eq!(ThemeName::Standard.label(), "GitHub");
    assert_eq!(ThemeName::LeftPad.label(), "@left_pad");
    assert_eq!(ThemeName::ALL.len(), 14);
    assert_eq!(WeekdayStart::ALL[1], WeekdayStart::Monday);
}

#[test]
fn theme_shades_and_box_colors() {
    let t = theme(ThemeName::Dracula);
    assert_eq!(t.grade0, "#282a36");
    assert_eq!(t.grade4, "#ff79c6");
    assert_eq!(box_hex_color(0, ThemeName::Standard, ColorMode::Grade), "#ffffff");
    assert_eq!(box_hex_color(0, ThemeName::Standard, ColorMode::Opacity), "#ffffff");
    assert_eq!(box_hex_color(1, ThemeName::Standard, ColorMode::Opacity), "#30a14e");
    assert_eq!(box_hex_color(40, ThemeName::Standard, ColorMode::Opacity), "#30a14e");
    assert_eq!(box_hex_color(2, ThemeName::Standard, ColorMode::Grade), "#9be9a8");
    assert_eq!(box_hex_color(4, ThemeName::Standard, ColorMode::Grade), "#40c463");
    assert_eq!(box_hex_color(7, ThemeName::Standard, ColorMode::Grade), "#30a14e");
    assert_eq!(box_hex_color(11, ThemeName::Standard, ColorMode::Grade), "#216e39");
    assert_eq!(box_hex_color(11, ThemeName::SolarizedLight, ColorMode::Grade), "#6c71c4");
}

#[test]
fn weekdays_follow_the_julian_day() {
    // 2000-01-01 was a Saturday, 2019-01-01 a Tuesday, Julian day 0 a Monday.
    assert_eq!(weekday_from_sunday(Day { julian: 2_451_545 }), 6);
    assert_eq!(weekday_from_sunday(Day { julian: 2_458_485 }), 2);
    assert_eq!(weekday_from_sunday(Day { julian: 0 }), 1);
    assert_eq!(weekday_from_sunday(Day { julian: -1 }), 0);
}

#[test]
fn last_seven_days_end_today() {
    let settings = Settings::default();
    let days = dates_from(Day { julian: 2_458_485 }, &settings);
    assert_eq!(days[0].julian, 2_458_479);
    assert_eq!(days[6].julian, 2_458_485);
}

#[test]
fn week_view_starts_on_the_week_start() {
    let mut settings = Settings::default();
    settings.show_current_week_only = true;
    // Tuesday 2019-01-01, week starting Monday: Monday 2018-12-31 to Sunday 2019-01-06.
    let days = dates_from(Day { julian: 2_458_485 }, &settings);
    assert_eq!(days[0].julian, 2_458_484);
    assert_eq!(weekday_from_sunday(days[0]), 1);
    // Week starting Wednesday: Wednesday 2018-12-26.
    settings.week_start_day = WeekdayStart::Wednesday;
    let days = dates_from(Day { julian: 2_458_485 }, &settings);
    assert_eq!(days[0].julian, 2_458_479);
    assert_eq!(weekday_from_sunday(days[0]), 3);
    // Week starting Tuesday, today Tuesday: the week starts today.
    settings.week_start_day = WeekdayStart::Tuesday;
    let days = dates_from(Day { julian: 2_458_485 }, &settings);
    assert_eq!(days[0].julian, 2_458_485);
    for i in 0..6 {
        assert_eq!(days[i].julian + 1, days[i + 1].julian);
    }
}

#[test]
fn today_is_a_known_day() {
    let t = today();
    let utc = now_utc();
    assert!((t.julian - utc.day.julian).abs() <= 1);
    let week = dates_for(&Settings::default());
    assert!(week[6].julian == t.julian || (week[6].julian - t.julian).abs() <= 1);
}

#[test]
fn date_keys_are_year_month_day() {
    assert_eq!(date_key(Day { julian: 2_451_545 }), "2000-01-01");
    assert_eq!(date_key(Day { julian: 2_458_849 }), "2019-12-31");
    assert_eq!(date_key(Day { julian: 0 }), "-4713-11-24");
    assert_eq!(date_key(Day { julian: 9_000_000 }), "");
    assert_eq!(calendar_key(5, 3, 7), "0005-03-07");
    assert_eq!(calendar_key(-45, 1, 2), "-0045-01-02");
    assert_eq!(calendar_key(12345, 10, 20), "12345-10-20");
    assert_eq!(calendar_date(Day { julian: 2_458_485 }), Some((2019, 1, 1)));
    assert_eq!(calendar_date(Day { julian: -2_000_000 }), None);
    let keys = date_keys(&[
        Day { julian: 2_458_485 },
        Day { julian: 2_458_486 },
        Day { julian: 2_458_487 },
        Day { julian: 2_458_488 },
        Day { julian: 2_458_489 },
        Day { julian: 2_458_490 },
        Day { julian: 2_458_491 },
    ]);
    assert_eq!(keys[0], "2019-01-01");
    assert_eq!(keys[6], "2019-01-07");
}

#[test]
fn day_labels() {
    assert_eq!(month_day_label(12, 5), "December 5");
    assert_eq!(month_day_label(1, 31), "January 31");
    let d = Day { julian: 2_458_485 };
    assert_eq!(day_label(d, d), "Today");
    assert_eq!(day_label(d, Day { julian: 2_458_486 }), "January 1");
    assert_eq!(date_label(today()), "Today");
}

#[test]
fn trimming() {
    assert_eq!(trim("  ab c \u{3000}\t"), "ab c");
    assert_eq!(trim(" \n "), "");
    assert_eq!(trim_end_matches_char("https://x.org///", '/'), "https://x.org");
    assert_eq!(trim_start_matches_char("##abc#", '#'), "abc#");
    assert_eq!(decimal_text(0), "0");
    assert_eq!(decimal_text(1_234_567), "1234567");
}

#[test]
fn url_encoding() {
    assert_eq!(url_encode("alice"), "alice");
    assert_eq!(url_encode("a b/ü~._-Z9"), "a%20b%2F%C3%BC~._-Z9");
    assert_eq!(url_encode("%"), "%25");
    assert_eq!(url_encode(""), "");
}

#[test]
fn credentials_need_username_and_token() {
    let mut s = Settings::default();
    assert!(!has_credentials(&s));
    s.github_username = "bob".to_string();
    assert!(!has_credentials(&s));
    s.github_token = "  ".to_string();
    assert!(!has_credentials(&s));
    s.github_token = " t ".to_string();
    assert!(has_credentials(&s));
}

#[test]
fn default_settings() {
    let s = Settings::default();
    assert_eq!(s.service_type, ServiceType::GitHub);
    assert_eq!(s.refresh_interval, 21_600);
    assert_eq!(s.week_start_day, WeekdayStart::Monday);
    assert_eq!(s.theme_name, ThemeName::Standard);
    assert_eq!(s.color_mode, ColorMode::Opacity);
    assert!(!s.show_current_week_only && !s.highlight_current_day);
    assert!(s.github_username.is_empty() && s.github_token.is_empty());
    let c = cache_context(&s);
    assert_eq!(c.service_type, ServiceType::GitHub);
    assert!(c == cache_context(&s));
    let mut other = s.clone();
    other.github_username = "x".to_string();
    assert!(c != cache_context(&other));
}

#[test]
fn cached_ages() {
    assert_eq!(cached_age_label(-5), "Cached just now");
    assert_eq!(cached_age_label(59), "Cached just now");
    assert_eq!(cached_age_label(60), "Cached 1 minute ago");
    assert_eq!(cached_age_label(150), "Cached 2 minutes ago");
    assert_eq!(cached_age_label(3600), "Cached 1 hour ago");
    assert_eq!(cached_age_label(86_399), "Cached 23 hours ago");
    assert_eq!(cached_age_label(86_400), "Cached 1 day ago");
    assert_eq!(cached_age_label(604_800), "Cached 1 week ago");
    assert_eq!(cached_age_label(2_592_000), "Cached 1 month ago");
    assert_eq!(cached_age_label(31_536_000), "Cached 1 year ago");
    assert_eq!(cached_age_label(63_072_000), "Cached 2 years ago");
}

#[test]
fn cached_labels_read_the_time() {
    assert_eq!(cached_label("not a time"), "Cached");
    let now = now_utc();
    let text = format_rfc3339(now.unix_seconds, now.nanosecond);
    assert_eq!(cached_label(&text), "Cached just now");
    let earlier = format_rfc3339(now.unix_seconds - 7_200, now.nanosecond);
    assert_eq!(cached_label(&earlier), "Cached 2 hours ago");
}

#[test]
fn elapsed_seconds_round_toward_zero() {
    let day = Day { julian: 2_440_588 };
    let m = |s: i64, n: u32| Moment { unix_seconds: s, nanosecond: n, day };
    assert_eq!(elapsed_seconds(m(10, 0), m(9, 500_000_000)), 0);
    assert_eq!(elapsed_seconds(m(10, 0), m(8, 500_000_000)), 1);
    assert_eq!(elapsed_seconds(m(8, 500_000_000), m(10, 0)), -1);
    assert_eq!(elapsed_seconds(m(10, 0), m(10, 0)), 0);
}

#[test]
fn rfc3339_times() {
    let m = parse_rfc3339("2019-01-01T00:00:00Z").unwrap();
    assert_eq!(m.unix_seconds, 1_546_300_800);
    assert_eq!(m.nanosecond, 0);
    assert_eq!(m.day.julian, 2_458_485);
    let m = parse_rfc3339("2018-12-31T23:30:00-05:00").unwrap();
    assert_eq!(m.day.julian, 2_458_484);
    assert_eq!(m.unix_seconds, 1_546_317_000);
    assert!(parse_rfc3339("2019-01-01").is_none());
    assert_eq!(format_rfc3339(1_546_300_800, 0), "2019-01-01T00:00:00Z");
    assert_eq!(format_rfc3339(1_546_300_800, 500_000_000), "2019-01-01T00:00:00.5Z");
    assert_eq!(utc_day_of_unix_time(0), Ok(Day { julian: 2_440_588 }));
    assert_eq!(utc_day_of_unix_time(-1), Ok(Day { julian: 2_440_587 }));
    assert_eq!(
        utc_day_of_unix_time(253_402_300_800),
        Err("timestamp was not in range".to_string())
    );
}

#[test]
fn colour_channels() {
    assert_eq!(hex_channels("#216e39"), (0x21, 0x6e, 0x39));
    assert_eq!(hex_channels("##FFC501"), (0xff, 0xc5, 0x01));
    assert_eq!(hex_channels("#fff"), (255, 255, 255));
    assert_eq!(hex_channels("zz0a00"), (255, 10, 0));
    assert_eq!(hex_channels("+f+f-1"), (15, 15, 255));
    assert_eq!(channel(b'+', b'+'), 255);
    assert_eq!(channel(b'0', b'0'), 0);
}

fn week() -> [Day; 7] {
    // 2018-12-26 to 2019-01-01
    dates_from(Day { julian: 2_458_485 }, &Settings::default())
}

#[test]
fn github_answers() {
    let days = week();
    let errors = GithubReply { errors: Some("[{\"message\":\"bad\"}]".to_string()), weeks: None };
    match github_counts(&days, &errors) {
        Err(FetchError::Http(m)) => assert_eq!(m, "[{\"message\":\"bad\"}]"),
        other => panic!("unexpected {:?}", other),
    }
    let empty = GithubReply { errors: None, weeks: None };
    match github_counts(&days, &empty) {
        Err(FetchError::Parse(m)) => assert_eq!(m, "unexpected GitHub response"),
        other => panic!("unexpected {:?}", other),
    }
    let day = |d: &str, c: Option<u64>| GithubDay { date: Some(d.to_string()), count: c };
    let reply = GithubReply {
        errors: None,
        weeks: Some(vec![
            GithubWeek { days: Some(vec![day("2018-12-31", Some(3)), day("2018-12-26", Some(1))]) },
            GithubWeek { days: None },
            GithubWeek {
                days: Some(vec![
                    day("2018-12-31", Some(5)),
                    day("2019-01-01", None),
                    GithubDay { date: None, count: Some(9) },
                    day("2019-01-01", Some(4_294_967_298)),
                ]),
            },
        ]),
    };
    let counts = github_counts(&days, &reply).unwrap();
    assert_eq!(counts, [1, 0, 0, 0, 0, 5, 2]);
}

#[test]
fn gitea_answers() {
    let days = week();
    match gitea_counts(&days, &None) {
        Err(FetchError::Parse(m)) => assert_eq!(m, "unexpected Gitea response"),
        other => panic!("unexpected {:?}", other),
    }
    let entry = |t: Option<i64>, c: Option<u64>| GiteaEntry { timestamp: t, contributions: c };
    let entries = vec![
        entry(Some(1_546_300_800), Some(2)),
        entry(Some(1_546_340_000), Some(3)),
        entry(Some(1_546_214_400), None),
        entry(None, Some(7)),
        entry(Some(1_545_782_400), Some(1)),
    ];
    assert_eq!(gitea_counts(&days, &Some(entries.clone())).unwrap(), [1, 0, 0, 0, 0, 0, 5]);
    let mut bad = entries;
    bad.push(entry(Some(i64::MAX), Some(1)));
    match gitea_counts(&days, &Some(bad)) {
        Err(FetchError::Parse(m)) => assert_eq!(m, "timestamp was not in range"),
        other => panic!("unexpected {:?}", other),
    }
}

#[test]
fn gitlab_answers() {
    let days = week();
    match gitlab_counts(&days, &None) {
        Err(FetchError::Parse(m)) => assert_eq!(m, "unexpected GitLab response"),
        other => panic!("unexpected {:?}", other),
    }
    let event = |a: &str, c: &str, n: Option<u64>| GitlabEvent {
        action_name: Some(a.to_string()),
        created_at: Some(c.to_string()),
        commit_count: n,
    };
    let events = vec![
        event("pushed to", "2019-01-01T10:00:00+00:00", Some(3)),
        event("pushed to", "2019-01-01T11:00:00Z", None),
        event("pushed new", "2019-01-01T11:00:00Z", Some(8)),
        event("pushed to", "yesterday", Some(8)),
        event("pushed to", "2018-12-31T23:30:00-05:00", Some(2)),
        event("pushed to", "2018-01-01T00:00:00Z", Some(6)),
        GitlabEvent { action_name: None, created_at: None, commit_count: Some(1) },
    ];
    assert_eq!(gitlab_counts(&days, &Some(events)).unwrap(), [0, 0, 0, 0, 0, 2, 4]);
}

#[test]
fn counting_by_key() {
    let keys: [String; 7] = ["a", "b", "c", "d", "e", "f", "g"].map(|s| s.to_string());
    let entries = vec![
        ("a".to_string(), 1),
        ("b".to_string(), u32::MAX),
        ("a".to_string(), 2),
        ("b".to_string(), 2),
        ("z".to_string(), 9),
    ];
    assert_eq!(latest_counts(&keys, &entries), [2, 2, 0, 0, 0, 0, 0]);
    assert_eq!(summed_counts(&keys, &entries), [3, 1, 0, 0, 0, 0, 0]);
}

fn settings_with(user: &str, token: &str, url: &str) -> Settings {
    let mut s = Settings::default();
    s.github_username = user.to_string();
    s.github_token = token.to_string();
    s.custom_instance_url = url.to_string();
    s
}

fn strings(v: &[&str]) -> Vec<String> {
    v.iter().map(|s| s.to_string()).collect()
}

#[test]
fn gitea_requests() {
    let s = settings_with(" al ice ", "", " https://git.example.com/// ");
    assert_eq!(
        gitea_request(&s).unwrap(),
        strings(&[
            "-fsS",
            "https://git.example.com/api/v1/users/al%20ice/heatmap",
            "-H",
            "Content-Type: application/json",
            "-H",
            "User-Agent: COSMIC Weekly Commits",
        ])
    );
    let s = settings_with("bob", " t0k ", "https://g.org");
    let args = gitea_request(&s).unwrap();
    assert_eq!(args[6..], strings(&["-H", "Authorization: token t0k"])[..]);
    assert!(matches!(gitea_request(&settings_with("bob", "t", " / ")), Err(FetchError::MissingCredentials)));
    assert!(matches!(gitea_request(&settings_with(" ", "t", "https://g.org")), Err(FetchError::MissingCredentials)));
}

#[test]
fn gitlab_requests() {
    let s = settings_with("bob", "", "");
    assert_eq!(
        gitlab_request(&s).unwrap(),
        strings(&[
            "-fsS",
            "https://gitlab.com/api/v4/users/bob/events?action=pushed&per_page=100",
            "-H",
            "Content-Type: application/json",
            "-H",
            "User-Agent: COSMIC Weekly Commits",
        ])
    );
    let s = settings_with("bob", "pat", "https://lab.example.com/");
    let args = gitlab_request(&s).unwrap();
    assert_eq!(args[1], "https://lab.example.com/api/v4/users/bob/events?action=pushed&per_page=100");
    assert_eq!(args[7], "PRIVATE-TOKEN: pat");
    assert!(matches!(gitlab_request(&settings_with("", "pat", "")), Err(FetchError::MissingCredentials)));
}

#[test]
fn github_requests() {
    let from = "2018-12-22T00:00:00Z";
    let to = "2019-01-04T00:00:00Z";
    let expected_query = format!(
        r#"query {{
            user(login: "{username}") {{
                contributionsCollection(from: "{from}", to: "{to}") {{
                    contributionCalendar {{
                        weeks {{
                            contributionDays {{
                                date
                                contributionCount
                            }}
                        }}
                    }}
                }}
            }}
        }}"#,
        username = "bob"
    );
    assert_eq!(github_query("bob", from, to), expected_query);
    let s = settings_with(" bob ", " tok ", "");
    let (args, body) = github_request(&s, from, to).unwrap();
    assert_eq!(
        args,
        strings(&[
            "-fsS",
            "-X",
            "POST",
            "https://api.github.com/graphql",
            "-H",
            "Authorization: bearer tok",
            "-H",
            "Content-Type: application/json",
            "-H",
            "User-Agent: COSMIC Weekly Commits",
            "--data-binary",
            "@-",
        ])
    );
    let mut object = serde_json::Map::new();
    object.insert("query".to_string(), serde_json::Value::String(expected_query));
    let expected_body = serde_json::Value::Object(object).to_string();
    assert_eq!(body, expected_body);
    assert!(matches!(github_request(&settings_with("bob", "", ""), from, to), Err(FetchError::MissingCredentials)));
    assert_eq!(query_body("\"x\""), "{\"query\":\"x\"}");
}

#[test]
fn github_window() {
    let m = Moment { unix_seconds: 1_546_300_800, nanosecond: 0, day: Day { julian: 2_458_485 } };
    let (from, to) = window_bounds(m, m);
    assert_eq!(from, "2018-12-22T00:00:00Z");
    assert_eq!(to, "2019-01-04T00:00:00Z");
}

#[test]
fn cache_fallback() {
    let days = week();
    let context = cache_context(&Settings::default());
    let entry = CacheEntry {
        key: "k1".to_string(),
        context,
        counts: [1, 2, 3, 4, 5, 6, 7],
        updated_at: "2019-01-01T00:00:00Z".to_string(),
    };
    let hit = fallback_contributions(days, Some(entry.clone()), &"k1".to_string());
    assert_eq!(hit.counts, [1, 2, 3, 4, 5, 6, 7]);
    assert_eq!(hit.cached_at.as_deref(), Some("2019-01-01T00:00:00Z"));
    let miss = fallback_contributions(days, Some(entry), &"k2".to_string());
    assert_eq!(miss.counts, [0; 7]);
    assert!(miss.cached_at.is_none());
    let none = fallback_contributions(days, None, &"k1".to_string());
    assert_eq!(none.counts, [0; 7]);
    assert_eq!(zero_contributions(days).counts, [0; 7]);
    let fresh = fresh_contributions(days, [9; 7]);
    assert_eq!(fresh.counts, [9; 7]);
    assert_eq!(fresh.dates, days);
    assert!(fresh.cached_at.is_none());
}

#[test]
fn fetch_error_messages() {
    assert_eq!(FetchError::MissingCredentials.message(), "missing credentials");
    assert_eq!(FetchError::Http("boom".to_string()).message(), "http error: boom");
    assert_eq!(FetchError::Parse("x".to_string()).message(), "parse error: x");
    assert_eq!(FetchError::Timeout.message(), "request timed out");
    let io = std::io::Error::new(std::io::ErrorKind::Other, "disk");
    assert_eq!(FetchError::from(io).message(), "io error: disk");
}

fn percent_decode(s: &str) -> Vec<u8> {
    let b = s.as_bytes();
    let mut out = Vec::new();
    let mut i = 0;
    while i < b.len() {
        if b[i] == b'%' && i + 2 < b.len() {
            let hex = std::str::from_utf8(&b[i + 1..i + 3]).unwrap();
            out.push(u8::from_str_radix(hex, 16).unwrap());
            i += 3;
        } else {
            out.push(b[i]);
            i += 1;
        }
    }
    out
}

#[test]
fn url_encoding_round_trips() {
    for input in ["", "plain", "sp ace", "ümlaut/ß", "100%", "a+b=c&d", "日本語", "\u{0}\u{7f}"] {
        let encoded = url_encode(input);
        assert!(encoded
            .chars()
            .all(|c| c.is_ascii_alphanumeric() || "-_.~%".contains(c)));
        assert_eq!(percent_decode(&encoded), input.as_bytes());
    }
}

#[test]
fn curl_failure_messages() {
    assert_eq!(curl_failure_message("curl: (22) 404\n", "  \n"), "curl: (22) 404");
    assert_eq!(curl_failure_message(" err ", "{\"message\":\"x\"}\n"), "err \n{\"message\":\"x\"}");
    assert_eq!(curl_failure_message("", ""), "");
}

#[test]
fn calendar_bounds() {
    assert_eq!(calendar_date(Day { julian: -1_930_999 }), Some((-9999, 1, 1)));
    assert_eq!(calendar_date(Day { julian: -1_931_000 }), None);
    assert_eq!(calendar_date(Day { julian: 5_373_484 }), Some((9999, 12, 31)));
    assert_eq!(calendar_date(Day { julian: 5_373_485 }), None);
    assert_eq!(date_key(Day { julian: -1_930_999 }), "-9999-01-01");
    assert_eq!(utc_day_of_unix_time(-377_705_116_800), Ok(Day { julian: -1_930_999 }));
    assert!(utc_day_of_unix_time(-377_705_116_801).is_err());
    assert_eq!(utc_day_of_unix_time(253_402_300_799), Ok(Day { julian: 5_373_484 }));
}

#[test]
fn date_keys_match_the_time_crate() {
    let format = time::format_description::parse("[year]-[month]-[day]").unwrap();
    for julian in [
        -1_930_999, -1_000_000, 0, 1_000_000, 1_720_000, 1_721_058, 1_721_059, 1_721_425,
        1_721_426, 2_440_588, 2_451_545, 2_458_485, 2_460_000, 5_373_484,
    ] {
        let expected = time::Date::from_julian_day(julian).unwrap().format(&format).unwrap();
        assert_eq!(date_key(Day { julian }), expected, "julian day {julian}");
    }
}

#[test]
fn channels_match_from_str_radix() {
    for a in 0u8..128 {
        for b in 0u8..128 {
            let pair = [a, b];
            let text = std::str::from_utf8(&pair).unwrap();
            let expected = u8::from_str_radix(text, 16).unwrap_or(255);
            assert_eq!(channel(a, b), expected, "bytes {a} {b}");
        }
    }
}

#[test]
fn weekdays_match_the_time_crate() {
    for julian in [-1_930_999, -8, -7, -6, -1, 0, 1, 6, 7, 2_458_485, 5_373_484] {
        let expected = time::Date::from_julian_day(julian).unwrap().weekday().number_days_from_sunday();
        assert_eq!(weekday_from_sunday(Day { julian }), expected, "julian day {julian}");
    }
}

#[test]
fn today_prefers_the_local_reading() {
    let m = Moment { unix_seconds: 1_546_300_800, nanosecond: 0, day: Day { julian: 2_458_484 } };
    assert_eq!(day_of_local_reading(Some(m)), Day { julian: 2_458_484 });
    let utc = now_utc().day;
    assert!((day_of_local_reading(None).julian - utc.julian).abs() <= 1);
}
