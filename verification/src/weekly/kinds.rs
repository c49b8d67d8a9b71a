use vstd::prelude::*;
use vstd::std_specs::cmp::PartialEqSpecImpl;

verus! {

/// The git hosting service that commits are counted on.
#[derive(Debug, Clone, Copy)]
pub enum ServiceType {
    GitHub,
    Gitea,
    GitLab,
}

/// The name shown for a service.
pub open spec fn service_label(s: ServiceType) -> Seq<char> {
    match s {
        ServiceType::GitHub => "GitHub"@,
        ServiceType::Gitea => "Gitea"@,
        ServiceType::GitLab => "GitLab"@,
    }
}

impl ServiceType {
    /// Every service, in the order the settings window lists them.
    pub const ALL: [ServiceType; 3] = [ServiceType::GitHub, ServiceType::Gitea, ServiceType::GitLab];

    pub fn label(self) -> (r: &'static str)
        ensures
            r@ == service_label(self),
    {
        match self {
            ServiceType::GitHub => "GitHub",
            ServiceType::Gitea => "Gitea",
            ServiceType::GitLab => "GitLab",
        }
    }
}

/// How a box is coloured: by opacity of one shade, or by a grade of shades.
#[derive(Debug, Clone, Copy)]
pub enum ColorMode {
    Opacity,
    Grade,
}

/// The name shown for a colour mode.
pub open spec fn color_mode_label(m: ColorMode) -> Seq<char> {
    match m {
        ColorMode::Opacity => "Opacity"@,
        ColorMode::Grade => "Grade"@,
    }
}

impl ColorMode {
    /// Every colour mode, in the order the settings window lists them.
    pub const ALL: [ColorMode; 2] = [ColorMode::Opacity, ColorMode::Grade];

    pub fn label(self) -> (r: &'static str)
        ensures
            r@ == color_mode_label(self),
    {
        match self {
            ColorMode::Opacity => "Opacity",
            ColorMode::Grade => "Grade",
        }
    }
}

/// The day a week starts on.
#[derive(Debug, Clone, Copy)]
pub enum WeekdayStart {
    Sunday,
    Monday,
    Tuesday,
    Wednesday,
    Thursday,
    Friday,
    Saturday,
}

/// The name shown for a week start.
pub open spec fn weekday_label(d: WeekdayStart) -> Seq<char> {
    match d {
        WeekdayStart::Sunday => "Sunday"@,
        WeekdayStart::Monday => "Monday"@,
        WeekdayStart::Tuesday => "Tuesday"@,
        WeekdayStart::Wednesday => "Wednesday"@,
        WeekdayStart::Thursday => "Thursday"@,
        WeekdayStart::Friday => "Friday"@,
        WeekdayStart::Saturday => "Saturday"@,
    }
}

/// The number of days from the Sunday before (or on) the given day: 0 for Sunday up to 6.
pub open spec fn days_from_sunday(d: WeekdayStart) -> int {
    match d {
        WeekdayStart::Sunday => 0,
        WeekdayStart::Monday => 1,
        WeekdayStart::Tuesday => 2,
        WeekdayStart::Wednesday => 3,
        WeekdayStart::Thursday => 4,
        WeekdayStart::Friday => 5,
        WeekdayStart::Saturday => 6,
    }
}

impl WeekdayStart {
    /// Every week start, in the order the settings window lists them.
    pub const ALL: [WeekdayStart; 7] = [
        WeekdayStart::Sunday,
        WeekdayStart::Monday,
        WeekdayStart::Tuesday,
        WeekdayStart::Wednesday,
        WeekdayStart::Thursday,
        WeekdayStart::Friday,
        WeekdayStart::Saturday,
    ];

    pub fn label(self) -> (r: &'static str)
        ensures
            r@ == weekday_label(self),
    {
        match self {
            WeekdayStart::Sunday => "Sunday",
            WeekdayStart::Monday => "Monday",
            WeekdayStart::Tuesday => "Tuesday",
            WeekdayStart::Wednesday => "Wednesday",
            WeekdayStart::Thursday => "Thursday",
            WeekdayStart::Friday => "Friday",
            WeekdayStart::Saturday => "Saturday",
        }
    }

    pub fn number_from_sunday(self) -> (r: u8)
        ensures
            r == days_from_sunday(self),
    {
        match self {
            WeekdayStart::Sunday => 0,
            WeekdayStart::Monday => 1,
            WeekdayStart::Tuesday => 2,
            WeekdayStart::Wednesday => 3,
            WeekdayStart::Thursday => 4,
            WeekdayStart::Friday => 5,
            WeekdayStart::Saturday => 6,
        }
    }
}

/// A colour theme for the commit boxes.
#[derive(Debug, Clone, Copy)]
pub enum ThemeName {
    Standard,
    Classic,
    GitHubDark,
    Halloween,
    Teal,
    LeftPad,
    Dracula,
    Blue,
    Panda,
    Sunny,
    Pink,
    YlGnBu,
    SolarizedDark,
    SolarizedLight,
}

/// The name shown for a theme.
pub open spec fn theme_label(t: ThemeName) -> Seq<char> {
    match t {
        ThemeName::Standard => "GitHub"@,
        ThemeName::Classic => "GitHub Classic"@,
        ThemeName::GitHubDark => "GitHub Dark"@,
        ThemeName::Halloween => "Halloween"@,
        ThemeName::Teal => "Teal"@,
        ThemeName::LeftPad => "@left_pad"@,
        ThemeName::Dracula => "Dracula"@,
        ThemeName::Blue => "Blue"@,
        ThemeName::Panda => "Panda"@,
        ThemeName::Sunny => "Sunny"@,
        ThemeName::Pink => "Pink"@,
        ThemeName::YlGnBu => "YlGnBu"@,
        ThemeName::SolarizedDark => "Solarized Dark"@,
        ThemeName::SolarizedLight => "Solarized Light"@,
    }
}

impl ThemeName {
    /// Every theme, in the order the settings window lists them.
    pub const ALL: [ThemeName; 14] = [
        ThemeName::Standard,
        ThemeName::Classic,
        ThemeName::GitHubDark,
        ThemeName::Halloween,
        ThemeName::Teal,
        ThemeName::LeftPad,
        ThemeName::Dracula,
        ThemeName::Blue,
        ThemeName::Panda,
        ThemeName::Sunny,
        ThemeName::Pink,
        ThemeName::YlGnBu,
        ThemeName::SolarizedDark,
        ThemeName::SolarizedLight,
    ];

    pub fn label(self) -> (r: &'static str)
        ensures
            r@ == theme_label(self),
    {
        match self {
            ThemeName::Standard => "GitHub",
            ThemeName::Classic => "GitHub Classic",
            ThemeName::GitHubDark => "GitHub Dark",
            ThemeName::Halloween => "Halloween",
            ThemeName::Teal => "Teal",
            ThemeName::LeftPad => "@left_pad",
            ThemeName::Dracula => "Dracula",
            ThemeName::Blue => "Blue",
            ThemeName::Panda => "Panda",
            ThemeName::Sunny => "Sunny",
            ThemeName::Pink => "Pink",
            ThemeName::YlGnBu => "YlGnBu",
            ThemeName::SolarizedDark => "Solarized Dark",
            ThemeName::SolarizedLight => "Solarized Light",
        }
    }
}

impl PartialEq for ServiceType {
    fn eq(&self, other: &Self) -> (r: bool) {
        match (*self, *other) {
            (ServiceType::GitHub, ServiceType::GitHub) => true,
            (ServiceType::Gitea, ServiceType::Gitea) => true,
            (ServiceType::GitLab, ServiceType::GitLab) => true,
            _ => false,
        }
    }
}

impl PartialEqSpecImpl for ServiceType {
    open spec fn obeys_eq_spec() -> bool {
        true
    }

    open spec fn eq_spec(&self, other: &Self) -> bool {
        *self == *other
    }
}

impl Eq for ServiceType {
}

impl PartialEq for ColorMode {
    fn eq(&self, other: &Self) -> (r: bool) {
        match (*self, *other) {
            (ColorMode::Opacity, ColorMode::Opacity) => true,
            (ColorMode::Grade, ColorMode::Grade) => true,
            _ => false,
        }
    }
}

impl PartialEqSpecImpl for ColorMode {
    open spec fn obeys_eq_spec() -> bool {
        true
    }

    open spec fn eq_spec(&self, other: &Self) -> bool {
        *self == *other
    }
}

impl Eq for ColorMode {
}

impl PartialEq for WeekdayStart {
    fn eq(&self, other: &Self) -> (r: bool) {
        match (*self, *other) {
            (WeekdayStart::Sunday, WeekdayStart::Sunday) => true,
            (WeekdayStart::Monday, WeekdayStart::Monday) => true,
            (WeekdayStart::Tuesday, WeekdayStart::Tuesday) => true,
            (WeekdayStart::Wednesday, WeekdayStart::Wednesday) => true,
            (WeekdayStart::Thursday, WeekdayStart::Thursday) => true,
            (WeekdayStart::Friday, WeekdayStart::Friday) => true,
            (WeekdayStart::Saturday, WeekdayStart::Saturday) => true,
            _ => false,
        }
    }
}

impl PartialEqSpecImpl for WeekdayStart {
    open spec fn obeys_eq_spec() -> bool {
        true
    }

    open spec fn eq_spec(&self, other: &Self) -> bool {
        *self == *other
    }
}

impl Eq for WeekdayStart {
}

impl PartialEq for ThemeName {
    fn eq(&self, other: &Self) -> (r: bool) {
        match (*self, *other) {
            (ThemeName::Standard, ThemeName::Standard) => true,
            (ThemeName::Classic, ThemeName::Classic) => true,
            (ThemeName::GitHubDark, ThemeName::GitHubDark) => true,
            (ThemeName::Halloween, ThemeName::Halloween) => true,
            (ThemeName::Teal, ThemeName::Teal) => true,
            (ThemeName::LeftPad, ThemeName::LeftPad) => true,
            (ThemeName::Dracula, ThemeName::Dracula) => true,
            (ThemeName::Blue, ThemeName::Blue) => true,
            (ThemeName::Panda, ThemeName::Panda) => true,
            (ThemeName::Sunny, ThemeName::Sunny) => true,
            (ThemeName::Pink, ThemeName::Pink) => true,
            (ThemeName::YlGnBu, ThemeName::YlGnBu) => true,
            (ThemeName::SolarizedDark, ThemeName::SolarizedDark) => true,
            (ThemeName::SolarizedLight, ThemeName::SolarizedLight) => true,
            _ => false,
        }
    }
}

impl PartialEqSpecImpl for ThemeName {
    open spec fn obeys_eq_spec() -> bool {
        true
    }

    open spec fn eq_spec(&self, other: &Self) -> bool {
        *self == *other
    }
}

impl Eq for ThemeName {
}

} // verus!
