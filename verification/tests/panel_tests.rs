use cosmic_weekly_commits::panel::{
    offers_token_page, selected_index, selected_interval, shows_instance_url, token_row_subtitle,
    token_row_title, token_title, update_settings, SettingsEffect, SettingsMessage,
    REFRESH_INTERVALS,
};
use cosmic_weekly_commits::popup::{
    applet_update, highlights, popup_status, popup_title, refresh_period, AppletAction, AppletEvent,
    AppletState,
};
use cosmic_weekly_commits::weekly::{
    fresh_contributions, zero_contributions, ColorMode, Day, ServiceType, Settings, ThemeName,
    WeekdayStart,
};

#[test]
fn selected_entries() {
    assert_eq!(selected_index(&ThemeName::ALL, ThemeName::Blue), Some(7));
    assert_eq!(selected_index(&ServiceType::ALL, ServiceType::GitHub), Some(0));
    assert_eq!(selected_index(&[1, 2, 2], 2), Some(1));
    assert_eq!(selected_index(&[1, 2, 3], 4), None);
    assert_eq!(selected_interval(3_600), Some(2));
    assert_eq!(selected_interval(86_400), Some(7));
    assert_eq!(selected_interval(1_234), Some(5));
    assert_eq!(REFRESH_INTERVALS[5], (21_600, "6 hours"));
}

#[test]
fn settings_messages() {
    let mut s = Settings::default();
    assert_eq!(update_settings(&mut s, SettingsMessage::ServiceSelected(2)), SettingsEffect::Save);
    assert_eq!(s.service_type, ServiceType::GitLab);
    update_settings(&mut s, SettingsMessage::ServiceSelected(3));
    assert_eq!(s.service_type, ServiceType::GitLab);
    update_settings(&mut s, SettingsMessage::ThemeSelected(13));
    assert_eq!(s.theme_name, ThemeName::SolarizedLight);
    update_settings(&mut s, SettingsMessage::ColorModeSelected(1));
    assert_eq!(s.color_mode, ColorMode::Grade);
    update_settings(&mut s, SettingsMessage::WeekStartSelected(0));
    assert_eq!(s.week_start_day, WeekdayStart::Sunday);
    update_settings(&mut s, SettingsMessage::IntervalSelected(0));
    assert_eq!(s.refresh_interval, 900);
    update_settings(&mut s, SettingsMessage::IntervalSelected(8));
    assert_eq!(s.refresh_interval, 900);
    update_settings(&mut s, SettingsMessage::UsernameChanged("bob".to_string()));
    update_settings(&mut s, SettingsMessage::TokenChanged("tok".to_string()));
    update_settings(&mut s, SettingsMessage::InstanceChanged("https://g".to_string()));
    update_settings(&mut s, SettingsMessage::CurrentWeekChanged(true));
    update_settings(&mut s, SettingsMessage::HighlightTodayChanged(true));
    assert_eq!(s.github_username, "bob");
    assert_eq!(s.github_token, "tok");
    assert_eq!(s.custom_instance_url, "https://g");
    assert!(s.show_current_week_only && s.highlight_current_day);
    assert_eq!(update_settings(&mut s, SettingsMessage::OpenTokenUrl), SettingsEffect::OpenTokenPage);
}

#[test]
fn token_texts() {
    assert_eq!(token_title(ServiceType::GitHub), "About Personal Access Tokens");
    assert_eq!(token_row_title(ServiceType::Gitea), "About Gitea / Forgejo Tokens");
    assert_eq!(
        token_row_subtitle(ServiceType::GitLab),
        "Generate a Personal Access Token in your GitLab profile and enable read_api scope."
    );
    assert!(offers_token_page(ServiceType::GitHub));
    assert!(!offers_token_page(ServiceType::GitLab));
    assert!(shows_instance_url(ServiceType::Gitea));
    assert!(!shows_instance_url(ServiceType::GitHub));
}

#[test]
fn popup_texts() {
    assert_eq!(popup_title(ServiceType::Gitea), "Commits - Gitea");
    let mut s = Settings::default();
    assert_eq!(popup_status(&s, true, &None).as_deref(), Some("No commit data available"));
    s.github_username = "bob".to_string();
    s.github_token = "tok".to_string();
    assert_eq!(popup_status(&s, true, &None).as_deref(), Some("Refreshing..."));
    assert_eq!(popup_status(&s, false, &None), None);
    assert_eq!(popup_status(&s, false, &Some("bad".to_string())).as_deref(), Some("Cached"));
    let d = Day { julian: 5 };
    assert!(!highlights(&s, d, d));
    s.highlight_current_day = true;
    assert!(highlights(&s, d, d));
    assert!(!highlights(&s, d, Day { julian: 6 }));
    assert_eq!(refresh_period(&s), 21_600);
    s.refresh_interval = 5;
    assert_eq!(refresh_period(&s), 60);
}

fn days() -> [Day; 7] {
    [1, 2, 3, 4, 5, 6, 7].map(|j| Day { julian: j })
}

#[test]
fn applet_messages() {
    let mut state = AppletState {
        settings: Settings::default(),
        data: zero_contributions(days()),
        refreshing: false,
        popup: None,
    };
    // Without a main window no popup opens.
    assert!(matches!(
        applet_update(&mut state, AppletEvent::TogglePopup { new_popup: 4, main_window: None }),
        AppletAction::Nothing
    ));
    assert_eq!(state.popup, None);
    assert!(matches!(
        applet_update(&mut state, AppletEvent::TogglePopup { new_popup: 4, main_window: Some(1) }),
        AppletAction::OpenPopup(4, 1)
    ));
    assert_eq!(state.popup, Some(4));
    assert!(matches!(applet_update(&mut state, AppletEvent::PopupClosed(3)), AppletAction::Nothing));
    assert_eq!(state.popup, Some(4));
    assert!(matches!(applet_update(&mut state, AppletEvent::TogglePopup { new_popup: 5, main_window: Some(1) }), AppletAction::ClosePopup(4)));
    assert_eq!(state.popup, None);

    let mut read = Settings::default();
    read.github_username = "bob".to_string();
    match applet_update(&mut state, AppletEvent::SettingsPoll(read.clone())) {
        AppletAction::Fetch(s) => assert_eq!(s.github_username, "bob"),
        other => panic!("unexpected {:?}", other),
    }
    assert!(state.refreshing);
    assert!(matches!(applet_update(&mut state, AppletEvent::SettingsPoll(read.clone())), AppletAction::Nothing));

    // An answer for other settings is dropped.
    let stale = fresh_contributions(days(), [1; 7]);
    applet_update(&mut state, AppletEvent::Loaded(Settings::default(), stale));
    assert_eq!(state.data.counts, [0; 7]);
    assert!(state.refreshing);
    // The answer for the current settings is shown.
    let fresh = fresh_contributions(days(), [2; 7]);
    applet_update(&mut state, AppletEvent::Loaded(read.clone(), fresh));
    assert_eq!(state.data.counts, [2; 7]);
    assert!(!state.refreshing);

    match applet_update(&mut state, AppletEvent::Refresh(read)) {
        AppletAction::Fetch(s) => assert_eq!(s.github_username, "bob"),
        other => panic!("unexpected {:?}", other),
    }
    assert!(state.refreshing);
    assert!(matches!(applet_update(&mut state, AppletEvent::OpenSettings), AppletAction::LaunchSettings));
}
