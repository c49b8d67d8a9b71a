use vstd::prelude::*;
use crate::weekly::kinds::{ColorMode, ServiceType, ThemeName, WeekdayStart};
use crate::weekly::text::{blank, is_blank};

verus! {

/// The applet's application id.
pub const APP_ID: &'static str = "dev.funinkina.weekly-commits.cosmic";

/// The directory, under the user's config and cache directories, of the applet's files.
pub const CONFIG_DIR: &'static str = "cosmic-weekly-commits";

/// The name of the cache file.
pub const CACHE_FILE: &'static str = "commits-cache-v1.json";

/// What the user configured in the settings window.
#[derive(Debug, Clone)]
pub struct Settings {
    pub service_type: ServiceType,
    pub custom_instance_url: String,
    pub github_username: String,
    pub github_token: String,
    pub refresh_interval: u64,
    pub show_current_week_only: bool,
    pub week_start_day: WeekdayStart,
    pub highlight_current_day: bool,
    pub theme_name: ThemeName,
    pub color_mode: ColorMode,
}

/// Two settings are equal when all their fields are.
pub open spec fn same_settings(a: Settings, b: Settings) -> bool {
    &&& a.service_type == b.service_type
    &&& a.custom_instance_url@ == b.custom_instance_url@
    &&& a.github_username@ == b.github_username@
    &&& a.github_token@ == b.github_token@
    &&& a.refresh_interval == b.refresh_interval
    &&& a.show_current_week_only == b.show_current_week_only
    &&& a.week_start_day == b.week_start_day
    &&& a.highlight_current_day == b.highlight_current_day
    &&& a.theme_name == b.theme_name
    &&& a.color_mode == b.color_mode
}

impl PartialEq for Settings {
    fn eq(&self, other: &Self) -> (r: bool) {
        self.service_type == other.service_type && self.custom_instance_url
            == other.custom_instance_url && self.github_username == other.github_username
            && self.github_token == other.github_token && self.refresh_interval
            == other.refresh_interval && self.show_current_week_only
            == other.show_current_week_only && self.week_start_day == other.week_start_day
            && self.highlight_current_day == other.highlight_current_day && self.theme_name
            == other.theme_name && self.color_mode == other.color_mode
    }
}

impl vstd::std_specs::cmp::PartialEqSpecImpl for Settings {
    open spec fn obeys_eq_spec() -> bool {
        true
    }

    open spec fn eq_spec(&self, other: &Self) -> bool {
        same_settings(*self, *other)
    }
}

impl Eq for Settings {
}

/// A copy of the settings.
pub fn copy_settings(s: &Settings) -> (r: Settings)
    ensures
        r == *s,
{
    Settings {
        service_type: s.service_type,
        custom_instance_url: s.custom_instance_url.clone(),
        github_username: s.github_username.clone(),
        github_token: s.github_token.clone(),
        refresh_interval: s.refresh_interval,
        show_current_week_only: s.show_current_week_only,
        week_start_day: s.week_start_day,
        highlight_current_day: s.highlight_current_day,
        theme_name: s.theme_name,
        color_mode: s.color_mode,
    }
}

/// The settings a fresh install starts with.
pub open spec fn default_settings(s: Settings) -> bool {
    &&& s.service_type == ServiceType::GitHub
    &&& s.custom_instance_url@ == Seq::<char>::empty()
    &&& s.github_username@ == Seq::<char>::empty()
    &&& s.github_token@ == Seq::<char>::empty()
    &&& s.refresh_interval == 21_600
    &&& !s.show_current_week_only
    &&& s.week_start_day == WeekdayStart::Monday
    &&& !s.highlight_current_day
    &&& s.theme_name == ThemeName::Standard
    &&& s.color_mode == ColorMode::Opacity
}

impl Default for Settings {
    fn default() -> (r: Self)
        ensures
            default_settings(r),
    {
        Settings {
            service_type: ServiceType::GitHub,
            custom_instance_url: String::new(),
            github_username: String::new(),
            github_token: String::new(),
            refresh_interval: 21_600,
            show_current_week_only: false,
            week_start_day: WeekdayStart::Monday,
            highlight_current_day: false,
            theme_name: ThemeName::Standard,
            color_mode: ColorMode::Opacity,
        }
    }
}

/// What a cached week of counts was fetched for; a cached week is only reused
/// for the same context.
#[derive(Debug, Clone)]
pub struct CacheContext {
    pub service_type: ServiceType,
    pub username: String,
    pub instance_url: String,
    pub show_current_week_only: bool,
    pub week_start_day: WeekdayStart,
}

/// Two contexts are equal when all their fields are.
pub open spec fn same_context(a: CacheContext, b: CacheContext) -> bool {
    &&& a.service_type == b.service_type
    &&& a.username@ == b.username@
    &&& a.instance_url@ == b.instance_url@
    &&& a.show_current_week_only == b.show_current_week_only
    &&& a.week_start_day == b.week_start_day
}

impl PartialEq for CacheContext {
    fn eq(&self, other: &Self) -> (r: bool) {
        self.service_type == other.service_type && self.username == other.username
            && self.instance_url == other.instance_url && self.show_current_week_only
            == other.show_current_week_only && self.week_start_day == other.week_start_day
    }
}

impl vstd::std_specs::cmp::PartialEqSpecImpl for CacheContext {
    open spec fn obeys_eq_spec() -> bool {
        true
    }

    open spec fn eq_spec(&self, other: &Self) -> bool {
        same_context(*self, *other)
    }
}

impl Eq for CacheContext {
}

/// A week of counts saved after a successful fetch, used when a later fetch fails.
#[derive(Debug, Clone)]
pub struct CacheEntry {
    pub key: String,
    pub context: CacheContext,
    pub counts: [u32; 7],
    pub updated_at: String,
}

/// The cache context of the given settings.
pub open spec fn context_of(s: Settings) -> CacheContext {
    CacheContext {
        service_type: s.service_type,
        username: s.github_username,
        instance_url: s.custom_instance_url,
        show_current_week_only: s.show_current_week_only,
        week_start_day: s.week_start_day,
    }
}

pub fn cache_context(settings: &Settings) -> (r: CacheContext)
    ensures
        r == context_of(*settings),
{
    CacheContext {
        service_type: settings.service_type,
        username: settings.github_username.clone(),
        instance_url: settings.custom_instance_url.clone(),
        show_current_week_only: settings.show_current_week_only,
        week_start_day: settings.week_start_day,
    }
}

/// Whether a username and a token are both given (neither is blank).
pub open spec fn credentials_given(s: Settings) -> bool {
    !is_blank(s.github_username@) && !is_blank(s.github_token@)
}

pub fn has_credentials(settings: &Settings) -> (r: bool)
    ensures
        r == credentials_given(*settings),
{
    !blank(settings.github_username.as_str()) && !blank(settings.github_token.as_str())
}

} // verus!
