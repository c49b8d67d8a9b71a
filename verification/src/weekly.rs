//! Everything the applet and its settings window share.

pub mod cached;
pub mod calendar;
pub mod color;
pub mod counts;
pub mod fetch;
pub mod json;
pub mod kinds;
pub mod replies;
pub mod request;
pub mod settings;
pub mod text;
pub mod theme;
pub mod url;

pub use cached::{cached_age_label, cached_label, elapsed_seconds};
pub use calendar::{
    calendar_date, calendar_key, date_key, date_label, dates_for, dates_from, day_label,
    day_of_local_reading,
    format_rfc3339, month_day_label, now_local, now_utc, parse_rfc3339, today,
    utc_day_of_unix_time, weekday_from_sunday, Day, Moment,
};
pub use color::{channel, hex_channels};
pub use counts::{
    date_keys, gitea_counts, github_counts, github_entries, gitlab_counts, latest_count_for,
    latest_counts, summed_count_for, summed_counts, GiteaEntry, GithubDay, GithubReply,
    GithubWeek, GitlabEvent,
};
pub use fetch::{
    curl_failure_message, fallback_contributions, fetch_step, fresh_contributions,
    zero_contributions, CacheAction, CacheEvent,
    Contributions, FetchError,
};
pub use kinds::{ColorMode, ServiceType, ThemeName, WeekdayStart};
pub use replies::{
    gitea_counts_from_text, gitea_reply_of, github_counts_from_text, github_reply_of,
    gitlab_counts_from_text, gitlab_reply_of,
};
pub use request::{
    gitea_request, github_query, github_request, github_time_window, gitlab_request,
    query_body, window_bounds,
};
pub use settings::{
    cache_context, has_credentials, CacheContext, CacheEntry, Settings, APP_ID, CACHE_FILE, CONFIG_DIR,
};
pub use text::{blank, decimal_text, trim, trim_end_matches_char, trim_start_matches_char};
pub use theme::{box_hex_color, grade, theme, Theme};
pub use url::url_encode;
