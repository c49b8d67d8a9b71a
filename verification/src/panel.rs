//! The decisions of the settings window: which entry of a list is selected,
//! what each message changes, and the texts about access tokens.

use vstd::prelude::*;
use crate::weekly::kinds::{ColorMode, ServiceType, ThemeName, WeekdayStart};
use crate::weekly::settings::Settings;
use vstd::std_specs::cmp::PartialEqSpec;

verus! {

/// The refresh intervals offered, in seconds, with their labels.
pub const REFRESH_INTERVALS: [(u64, &'static str); 8] = [
    (900, "15 minutes"),
    (1_800, "30 minutes"),
    (3_600, "1 hour"),
    (7_200, "2 hours"),
    (14_400, "4 hours"),
    (21_600, "6 hours"),
    (43_200, "12 hours"),
    (86_400, "24 hours"),
];

/// The seconds of each offered refresh interval.
pub open spec fn interval_seconds() -> Seq<u64> {
    seq![900u64, 1_800, 3_600, 7_200, 14_400, 21_600, 43_200, 86_400]
}

/// The index of the first element equal to the value, if any.
pub fn selected_index<T: PartialEq>(slice: &[T], value: T) -> (r: Option<usize>)
    ensures
        T::obeys_eq_spec() ==> match r {
            Some(i) => i < slice@.len() && slice@[i as int].eq_spec(&value) && forall|j: int|
                0 <= j < i ==> !(#[trigger] slice@[j]).eq_spec(&value),
            None => forall|j: int| 0 <= j < slice@.len() ==> !(#[trigger] slice@[j]).eq_spec(&value),
        },
{
    let mut i: usize = 0;
    while i < slice.len()
        invariant
            0 <= i <= slice@.len(),
            T::obeys_eq_spec() ==> forall|j: int|
                0 <= j < i ==> !(#[trigger] slice@[j]).eq_spec(&value),
        decreases slice@.len() - i,
    {
        if slice[i] == value {
            return Some(i);
        }
        i = i + 1;
    }
    None
}

/// The interval entry selected for the given seconds: its position when it
/// is offered, the sixth entry (6 hours) otherwise.
pub fn selected_interval(value: u64) -> (r: Option<usize>)
    ensures
        r matches Some(i) && i < 8,
        (exists|k: int| 0 <= k < 8 && interval_seconds()[k] == value) ==> (r matches Some(i)
            && interval_seconds()[i as int] == value && forall|j: int|
            0 <= j < i ==> #[trigger] interval_seconds()[j] != value),
        !(exists|k: int| 0 <= k < 8 && interval_seconds()[k] == value) ==> r == Some(5usize),
{
    let mut i: usize = 0;
    while i < 8
        invariant
            0 <= i <= 8,
            forall|j: int| 0 <= j < i ==> #[trigger] interval_seconds()[j] != value,
        decreases 8 - i,
    {
        let (seconds, _label) = REFRESH_INTERVALS[i];
        assert(seconds == interval_seconds()[i as int]);
        if seconds == value {
            return Some(i);
        }
        i = i + 1;
    }
    Some(5)
}

/// A message from the settings window.
#[derive(Debug, Clone)]
pub enum SettingsMessage {
    ServiceSelected(usize),
    ThemeSelected(usize),
    ColorModeSelected(usize),
    WeekStartSelected(usize),
    IntervalSelected(usize),
    UsernameChanged(String),
    TokenChanged(String),
    InstanceChanged(String),
    CurrentWeekChanged(bool),
    HighlightTodayChanged(bool),
    OpenTokenUrl,
}

/// What the settings window does after a message.
#[derive(Debug, Clone, Copy, PartialEq, Eq, Structural)]
pub enum SettingsEffect {
    /// Save the settings.
    Save,
    /// Open the page where a GitHub token is made; nothing changed.
    OpenTokenPage,
}

/// The settings after a message: a selection within a list's range picks that
/// entry (one outside it changes nothing), a text or a switch replaces its field.
pub open spec fn settings_after(s: Settings, m: SettingsMessage) -> Settings {
    match m {
        SettingsMessage::ServiceSelected(i) => if i < 3 {
            Settings { service_type: ServiceType::ALL@[i as int], ..s }
        } else {
            s
        },
        SettingsMessage::ThemeSelected(i) => if i < 14 {
            Settings { theme_name: ThemeName::ALL@[i as int], ..s }
        } else {
            s
        },
        SettingsMessage::ColorModeSelected(i) => if i < 2 {
            Settings { color_mode: ColorMode::ALL@[i as int], ..s }
        } else {
            s
        },
        SettingsMessage::WeekStartSelected(i) => if i < 7 {
            Settings { week_start_day: WeekdayStart::ALL@[i as int], ..s }
        } else {
            s
        },
        SettingsMessage::IntervalSelected(i) => if i < 8 {
            Settings { refresh_interval: interval_seconds()[i as int], ..s }
        } else {
            s
        },
        SettingsMessage::UsernameChanged(v) => Settings { github_username: v, ..s },
        SettingsMessage::TokenChanged(v) => Settings { github_token: v, ..s },
        SettingsMessage::InstanceChanged(v) => Settings { custom_instance_url: v, ..s },
        SettingsMessage::CurrentWeekChanged(b) => Settings { show_current_week_only: b, ..s },
        SettingsMessage::HighlightTodayChanged(b) => Settings { highlight_current_day: b, ..s },
        SettingsMessage::OpenTokenUrl => s,
    }
}

/// Applies a message of the settings window to the settings, and says
/// whether to save them or to open the token page.
pub fn update_settings(settings: &mut Settings, message: SettingsMessage) -> (r: SettingsEffect)
    ensures
        *final(settings) == settings_after(*old(settings), message),
        r == (if message is OpenTokenUrl {
            SettingsEffect::OpenTokenPage
        } else {
            SettingsEffect::Save
        }),
{
    match message {
        SettingsMessage::ServiceSelected(index) => {
            if index < 3 {
                settings.service_type = ServiceType::ALL[index];
            }
        },
        SettingsMessage::ThemeSelected(index) => {
            if index < 14 {
                settings.theme_name = ThemeName::ALL[index];
            }
        },
        SettingsMessage::ColorModeSelected(index) => {
            if index < 2 {
                settings.color_mode = ColorMode::ALL[index];
            }
        },
        SettingsMessage::WeekStartSelected(index) => {
            if index < 7 {
                settings.week_start_day = WeekdayStart::ALL[index];
            }
        },
        SettingsMessage::IntervalSelected(index) => {
            if index < 8 {
                let (seconds, _label) = REFRESH_INTERVALS[index];
                settings.refresh_interval = seconds;
            }
        },
        SettingsMessage::UsernameChanged(value) => settings.github_username = value,
        SettingsMessage::TokenChanged(value) => settings.github_token = value,
        SettingsMessage::InstanceChanged(value) => settings.custom_instance_url = value,
        SettingsMessage::CurrentWeekChanged(value) => settings.show_current_week_only = value,
        SettingsMessage::HighlightTodayChanged(value) => settings.highlight_current_day = value,
        SettingsMessage::OpenTokenUrl => {
            return SettingsEffect::OpenTokenPage;
        },
    }
    SettingsEffect::Save
}

/// Picking an entry of a list in the settings window makes it the first
/// entry of that list equal to the new setting, so the window shows that
/// entry selected when it is drawn again.
pub proof fn law_selection_round_trips(s: Settings, i: usize)
    ensures
        i < 3 ==> ServiceType::ALL@[i as int] == settings_after(
            s,
            SettingsMessage::ServiceSelected(i),
        ).service_type && forall|j: int|
            0 <= j < i ==> #[trigger] ServiceType::ALL@[j] != settings_after(
                s,
                SettingsMessage::ServiceSelected(i),
            ).service_type,
        i < 14 ==> ThemeName::ALL@[i as int] == settings_after(
            s,
            SettingsMessage::ThemeSelected(i),
        ).theme_name && forall|j: int|
            0 <= j < i ==> #[trigger] ThemeName::ALL@[j] != settings_after(
                s,
                SettingsMessage::ThemeSelected(i),
            ).theme_name,
        i < 2 ==> ColorMode::ALL@[i as int] == settings_after(
            s,
            SettingsMessage::ColorModeSelected(i),
        ).color_mode && forall|j: int|
            0 <= j < i ==> #[trigger] ColorMode::ALL@[j] != settings_after(
                s,
                SettingsMessage::ColorModeSelected(i),
            ).color_mode,
        i < 7 ==> WeekdayStart::ALL@[i as int] == settings_after(
            s,
            SettingsMessage::WeekStartSelected(i),
        ).week_start_day && forall|j: int|
            0 <= j < i ==> #[trigger] WeekdayStart::ALL@[j] != settings_after(
                s,
                SettingsMessage::WeekStartSelected(i),
            ).week_start_day,
        i < 8 ==> interval_seconds()[i as int] == settings_after(
            s,
            SettingsMessage::IntervalSelected(i),
        ).refresh_interval && forall|j: int|
            0 <= j < i ==> #[trigger] interval_seconds()[j] != settings_after(
                s,
                SettingsMessage::IntervalSelected(i),
            ).refresh_interval,
{
}

/// The heading of the token section for a service.
pub open spec fn token_title_text(s: ServiceType) -> Seq<char> {
    match s {
        ServiceType::GitHub => "About Personal Access Tokens"@,
        ServiceType::Gitea => "About Gitea / Forgejo Tokens"@,
        ServiceType::GitLab => "About GitLab Tokens"@,
    }
}

pub fn token_title(service_type: ServiceType) -> (r: &'static str)
    ensures
        r@ == token_title_text(service_type),
{
    match service_type {
        ServiceType::GitHub => "About Personal Access Tokens",
        ServiceType::Gitea => "About Gitea / Forgejo Tokens",
        ServiceType::GitLab => "About GitLab Tokens",
    }
}

pub fn token_row_title(service_type: ServiceType) -> (r: &'static str)
    ensures
        r@ == token_title_text(service_type),
{
    match service_type {
        ServiceType::GitHub => "About Personal Access Tokens",
        ServiceType::Gitea => "About Gitea / Forgejo Tokens",
        ServiceType::GitLab => "About GitLab Tokens",
    }
}

/// How to make a token for a service.
pub open spec fn token_hint_text(s: ServiceType) -> Seq<char> {
    match s {
        ServiceType::GitHub => "Generate a fine grained personal access token with \"All Repositories\" access."@,
        ServiceType::Gitea => "Generate an access token in your instance under Settings > Applications."@,
        ServiceType::GitLab => "Generate a Personal Access Token in your GitLab profile and enable read_api scope."@,
    }
}

pub fn token_row_subtitle(service_type: ServiceType) -> (r: &'static str)
    ensures
        r@ == token_hint_text(service_type),
{
    match service_type {
        ServiceType::GitHub => {
            "Generate a fine grained personal access token with \"All Repositories\" access."
        },
        ServiceType::Gitea => {
            "Generate an access token in your instance under Settings > Applications."
        },
        ServiceType::GitLab => {
            "Generate a Personal Access Token in your GitLab profile and enable read_api scope."
        },
    }
}

/// Whether the token section offers a button to GitHub's token page.
pub fn offers_token_page(service_type: ServiceType) -> (r: bool)
    ensures
        r == (service_type == ServiceType::GitHub),
{
    service_type == ServiceType::GitHub
}

/// Whether the settings window shows the instance URL field.
pub fn shows_instance_url(service_type: ServiceType) -> (r: bool)
    ensures
        r == (service_type != ServiceType::GitHub),
{
    match service_type {
        ServiceType::Gitea | ServiceType::GitLab => true,
        ServiceType::GitHub => false,
    }
}

} // verus!
