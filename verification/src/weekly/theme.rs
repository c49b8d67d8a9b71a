use vstd::prelude::*;
use crate::weekly::kinds::{theme_label, ColorMode, ThemeName};

verus! {

/// The five shades of a theme, from grade 0 (no commits) to grade 4 (most commits).
#[derive(Debug, Clone, Copy)]
pub struct Theme {
    pub grade0: &'static str,
    pub grade1: &'static str,
    pub grade2: &'static str,
    pub grade3: &'static str,
    pub grade4: &'static str,
}

/// The shades of each theme, indexed by grade 0 to 4.
pub open spec fn theme_shades(name: ThemeName) -> Seq<Seq<char>> {
    match name {
        ThemeName::Standard => seq!["#ebedf0"@, "#9be9a8"@, "#40c463"@, "#30a14e"@, "#216e39"@],
        ThemeName::Classic => seq!["#ebedf0"@, "#c6e48b"@, "#7bc96f"@, "#239a3b"@, "#196127"@],
        ThemeName::GitHubDark => seq!["#161b22"@, "#003820"@, "#00602d"@, "#10983d"@, "#27d545"@],
        ThemeName::Halloween => seq!["#ebedf0"@, "#FFEE4A"@, "#FFC501"@, "#FE9600"@, "#03001C"@],
        ThemeName::Teal => seq!["#ebedf0"@, "#7FFFD4"@, "#76EEC6"@, "#66CDAA"@, "#458B74"@],
        ThemeName::LeftPad => seq!["#2F2F2F"@, "#646464"@, "#A5A5A5"@, "#DDDDDD"@, "#F6F6F6"@],
        ThemeName::Dracula => seq!["#282a36"@, "#44475a"@, "#6272a4"@, "#bd93f9"@, "#ff79c6"@],
        ThemeName::Blue => seq!["#222222"@, "#263342"@, "#344E6C"@, "#416895"@, "#4F83BF"@],
        ThemeName::Panda => seq!["#242526"@, "#34353B"@, "#6FC1FF"@, "#19f9d8"@, "#FF4B82"@],
        ThemeName::Sunny => seq!["#fff9ae"@, "#f8ed62"@, "#e9d700"@, "#dab600"@, "#a98600"@],
        ThemeName::Pink => seq!["#ebedf0"@, "#e48bdc"@, "#ca5bcc"@, "#a74aa8"@, "#61185f"@],
        ThemeName::YlGnBu => seq!["#ebedf0"@, "#a1dab4"@, "#41b6c4"@, "#2c7fb8"@, "#253494"@],
        ThemeName::SolarizedDark => seq!["#073642"@, "#268bd2"@, "#2aa198"@, "#b58900"@, "#d33682"@],
        ThemeName::SolarizedLight => seq!["#eee8d5"@, "#b58900"@, "#cb4b16"@, "#dc322f"@, "#6c71c4"@],
    }
}

/// The theme's shades as the fields of a `Theme`.
pub open spec fn theme_matches(t: Theme, name: ThemeName) -> bool {
    &&& t.grade0@ == theme_shades(name)[0]
    &&& t.grade1@ == theme_shades(name)[1]
    &&& t.grade2@ == theme_shades(name)[2]
    &&& t.grade3@ == theme_shades(name)[3]
    &&& t.grade4@ == theme_shades(name)[4]
}

pub fn theme(name: ThemeName) -> (t: Theme)
    ensures
        theme_matches(t, name),
{
    match name {
        ThemeName::Standard => Theme {
            grade4: "#216e39",
            grade3: "#30a14e",
            grade2: "#40c463",
            grade1: "#9be9a8",
            grade0: "#ebedf0",
        },
        ThemeName::Classic => Theme {
            grade4: "#196127",
            grade3: "#239a3b",
            grade2: "#7bc96f",
            grade1: "#c6e48b",
            grade0: "#ebedf0",
        },
        ThemeName::GitHubDark => Theme {
            grade4: "#27d545",
            grade3: "#10983d",
            grade2: "#00602d",
            grade1: "#003820",
            grade0: "#161b22",
        },
        ThemeName::Halloween => Theme {
            grade4: "#03001C",
            grade3: "#FE9600",
            grade2: "#FFC501",
            grade1: "#FFEE4A",
            grade0: "#ebedf0",
        },
        ThemeName::Teal => Theme {
            grade4: "#458B74",
            grade3: "#66CDAA",
            grade2: "#76EEC6",
            grade1: "#7FFFD4",
            grade0: "#ebedf0",
        },
        ThemeName::LeftPad => Theme {
            grade4: "#F6F6F6",
            grade3: "#DDDDDD",
            grade2: "#A5A5A5",
            grade1: "#646464",
            grade0: "#2F2F2F",
        },
        ThemeName::Dracula => Theme {
            grade4: "#ff79c6",
            grade3: "#bd93f9",
            grade2: "#6272a4",
            grade1: "#44475a",
            grade0: "#282a36",
        },
        ThemeName::Blue => Theme {
            grade4: "#4F83BF",
            grade3: "#416895",
            grade2: "#344E6C",
            grade1: "#263342",
            grade0: "#222222",
        },
        ThemeName::Panda => Theme {
            grade4: "#FF4B82",
            grade3: "#19f9d8",
            grade2: "#6FC1FF",
            grade1: "#34353B",
            grade0: "#242526",
        },
        ThemeName::Sunny => Theme {
            grade4: "#a98600",
            grade3: "#dab600",
            grade2: "#e9d700",
            grade1: "#f8ed62",
            grade0: "#fff9ae",
        },
        ThemeName::Pink => Theme {
            grade4: "#61185f",
            grade3: "#a74aa8",
            grade2: "#ca5bcc",
            grade1: "#e48bdc",
            grade0: "#ebedf0",
        },
        ThemeName::YlGnBu => Theme {
            grade4: "#253494",
            grade3: "#2c7fb8",
            grade2: "#41b6c4",
            grade1: "#a1dab4",
            grade0: "#ebedf0",
        },
        ThemeName::SolarizedDark => Theme {
            grade4: "#d33682",
            grade3: "#b58900",
            grade2: "#2aa198",
            grade1: "#268bd2",
            grade0: "#073642",
        },
        ThemeName::SolarizedLight => Theme {
            grade4: "#6c71c4",
            grade3: "#dc322f",
            grade2: "#cb4b16",
            grade1: "#b58900",
            grade0: "#eee8d5",
        },
    }
}

/// The grade of a day's commit count: 0 for none, 1 for 1-2, 2 for 3-5, 3 for 6-10, 4 above.
pub open spec fn grade_level(count: u32) -> int {
    if count == 0 {
        0
    } else if count <= 2 {
        1
    } else if count <= 5 {
        2
    } else if count <= 10 {
        3
    } else {
        4
    }
}

/// The name of a grade, as used for the shade it picks.
pub open spec fn grade_name(level: int) -> Seq<char> {
    if level == 0 {
        "grade0"@
    } else if level == 1 {
        "grade1"@
    } else if level == 2 {
        "grade2"@
    } else if level == 3 {
        "grade3"@
    } else {
        "grade4"@
    }
}

fn grade_of(count: u32) -> (r: u8)
    ensures
        r == grade_level(count),
{
    if count == 0 {
        0
    } else if count <= 2 {
        1
    } else if count <= 5 {
        2
    } else if count <= 10 {
        3
    } else {
        4
    }
}

pub fn grade(count: u32) -> (r: &'static str)
    ensures
        r@ == grade_name(grade_level(count)),
{
    match grade_of(count) {
        0 => "grade0",
        1 => "grade1",
        2 => "grade2",
        3 => "grade3",
        _ => "grade4",
    }
}

/// The colour of a day's box: white for no commits, the theme's grade-3 shade in
/// opacity mode, and the shade of the count's grade in grade mode.
pub open spec fn box_color(count: u32, theme_name: ThemeName, color_mode: ColorMode) -> Seq<char> {
    if count == 0 {
        "#ffffff"@
    } else {
        match color_mode {
            ColorMode::Opacity => theme_shades(theme_name)[3],
            ColorMode::Grade => theme_shades(theme_name)[grade_level(count)],
        }
    }
}

pub fn box_hex_color(count: u32, theme_name: ThemeName, color_mode: ColorMode) -> (r: &'static str)
    ensures
        r@ == box_color(count, theme_name, color_mode),
{
    if count == 0 {
        return "#ffffff";
    }
    let theme = theme(theme_name);
    match color_mode {
        ColorMode::Opacity => theme.grade3,
        ColorMode::Grade => match grade_of(count) {
            1 => theme.grade1,
            2 => theme.grade2,
            3 => theme.grade3,
            4 => theme.grade4,
            _ => theme.grade0,
        },
    }
}

/// A day without commits is white, whatever the theme and the colour mode.
pub proof fn law_no_commits_is_white(theme_name: ThemeName, color_mode: ColorMode)
    ensures
        box_color(0, theme_name, color_mode) == "#ffffff"@,
{
}

/// More commits never give a lower grade, and the grades run from 0 to 4.
pub proof fn law_grade_is_monotone(fewer: u32, more: u32)
    requires
        fewer <= more,
    ensures
        0 <= grade_level(fewer) <= grade_level(more) <= 4,
{
}

/// In opacity mode every day with commits gets the same shade of the theme;
/// in grade mode a day with commits never gets the grade-0 shade's index.
pub proof fn law_color_modes(count: u32, theme_name: ThemeName)
    requires
        count > 0,
    ensures
        box_color(count, theme_name, ColorMode::Opacity) == theme_shades(theme_name)[3],
        1 <= grade_level(count) <= 4,
        box_color(count, theme_name, ColorMode::Grade) == theme_shades(theme_name)[grade_level(
            count,
        )],
{
}

/// Whether a character is an ASCII hexadecimal digit.
pub open spec fn is_hex_char(c: char) -> bool {
    ('0' <= c && c <= '9') || ('A' <= c && c <= 'F') || ('a' <= c && c <= 'f')
}

/// Whether a text is a colour in hexadecimal: `#` and six hexadecimal digits.
pub open spec fn is_hex_color(s: Seq<char>) -> bool {
    &&& s.len() == 7
    &&& s[0] == '#'
    &&& is_hex_char(s[1])
    &&& is_hex_char(s[2])
    &&& is_hex_char(s[3])
    &&& is_hex_char(s[4])
    &&& is_hex_char(s[5])
    &&& is_hex_char(s[6])
}

/// Every shade of every theme is `#` followed by six hexadecimal digits, so
/// that it reads as a colour, and the five shades of a theme all differ.
pub proof fn law_theme_shades_are_distinct_hex_colors(name: ThemeName, t: Theme)
    requires
        theme_matches(t, name),
    ensures
        is_hex_color(t.grade0@),
        is_hex_color(t.grade1@),
        is_hex_color(t.grade2@),
        is_hex_color(t.grade3@),
        is_hex_color(t.grade4@),
        t.grade0@ != t.grade1@,
        t.grade0@ != t.grade2@,
        t.grade0@ != t.grade3@,
        t.grade0@ != t.grade4@,
        t.grade1@ != t.grade2@,
        t.grade1@ != t.grade3@,
        t.grade1@ != t.grade4@,
        t.grade2@ != t.grade3@,
        t.grade2@ != t.grade4@,
        t.grade3@ != t.grade4@,
{
    match name {
        ThemeName::Standard => {
            reveal_strlit("#ebedf0");
            reveal_strlit("#9be9a8");
            reveal_strlit("#40c463");
            reveal_strlit("#30a14e");
            reveal_strlit("#216e39");
            assert(t.grade0@[1] != t.grade1@[1]);
            assert(t.grade0@[1] != t.grade2@[1]);
            assert(t.grade0@[1] != t.grade3@[1]);
            assert(t.grade0@[1] != t.grade4@[1]);
            assert(t.grade1@[1] != t.grade2@[1]);
            assert(t.grade1@[1] != t.grade3@[1]);
            assert(t.grade1@[1] != t.grade4@[1]);
            assert(t.grade2@[1] != t.grade3@[1]);
            assert(t.grade2@[1] != t.grade4@[1]);
            assert(t.grade3@[1] != t.grade4@[1]);
        },
        ThemeName::Classic => {
            reveal_strlit("#ebedf0");
            reveal_strlit("#c6e48b");
            reveal_strlit("#7bc96f");
            reveal_strlit("#239a3b");
            reveal_strlit("#196127");
            assert(t.grade0@[1] != t.grade1@[1]);
            assert(t.grade0@[1] != t.grade2@[1]);
            assert(t.grade0@[1] != t.grade3@[1]);
            assert(t.grade0@[1] != t.grade4@[1]);
            assert(t.grade1@[1] != t.grade2@[1]);
            assert(t.grade1@[1] != t.grade3@[1]);
            assert(t.grade1@[1] != t.grade4@[1]);
            assert(t.grade2@[1] != t.grade3@[1]);
            assert(t.grade2@[1] != t.grade4@[1]);
            assert(t.grade3@[1] != t.grade4@[1]);
        },
        ThemeName::GitHubDark => {
            reveal_strlit("#161b22");
            reveal_strlit("#003820");
            reveal_strlit("#00602d");
            reveal_strlit("#10983d");
            reveal_strlit("#27d545");
            assert(t.grade0@[1] != t.grade1@[1]);
            assert(t.grade0@[1] != t.grade2@[1]);
            assert(t.grade0@[2] != t.grade3@[2]);
            assert(t.grade0@[1] != t.grade4@[1]);
            assert(t.grade1@[3] != t.grade2@[3]);
            assert(t.grade1@[1] != t.grade3@[1]);
            assert(t.grade1@[1] != t.grade4@[1]);
            assert(t.grade2@[1] != t.grade3@[1]);
            assert(t.grade2@[1] != t.grade4@[1]);
            assert(t.grade3@[1] != t.grade4@[1]);
        },
        ThemeName::Halloween => {
            reveal_strlit("#ebedf0");
            reveal_strlit("#FFEE4A");
            reveal_strlit("#FFC501");
            reveal_strlit("#FE9600");
            reveal_strlit("#03001C");
            assert(t.grade0@[1] != t.grade1@[1]);
            assert(t.grade0@[1] != t.grade2@[1]);
            assert(t.grade0@[1] != t.grade3@[1]);
            assert(t.grade0@[1] != t.grade4@[1]);
            assert(t.grade1@[3] != t.grade2@[3]);
            assert(t.grade1@[2] != t.grade3@[2]);
            assert(t.grade1@[1] != t.grade4@[1]);
            assert(t.grade2@[2] != t.grade3@[2]);
            assert(t.grade2@[1] != t.grade4@[1]);
            assert(t.grade3@[1] != t.grade4@[1]);
        },
        ThemeName::Teal => {
            reveal_strlit("#ebedf0");
            reveal_strlit("#7FFFD4");
            reveal_strlit("#76EEC6");
            reveal_strlit("#66CDAA");
            reveal_strlit("#458B74");
            assert(t.grade0@[1] != t.grade1@[1]);
            assert(t.grade0@[1] != t.grade2@[1]);
            assert(t.grade0@[1] != t.grade3@[1]);
            assert(t.grade0@[1] != t.grade4@[1]);
            assert(t.grade1@[2] != t.grade2@[2]);
            assert(t.grade1@[1] != t.grade3@[1]);
            assert(t.grade1@[1] != t.grade4@[1]);
            assert(t.grade2@[1] != t.grade3@[1]);
            assert(t.grade2@[1] != t.grade4@[1]);
            assert(t.grade3@[1] != t.grade4@[1]);
        },
        ThemeName::LeftPad => {
            reveal_strlit("#2F2F2F");
            reveal_strlit("#646464");
            reveal_strlit("#A5A5A5");
            reveal_strlit("#DDDDDD");
            reveal_strlit("#F6F6F6");
            assert(t.grade0@[1] != t.grade1@[1]);
            assert(t.grade0@[1] != t.grade2@[1]);
            assert(t.grade0@[1] != t.grade3@[1]);
            assert(t.grade0@[1] != t.grade4@[1]);
            assert(t.grade1@[1] != t.grade2@[1]);
            assert(t.grade1@[1] != t.grade3@[1]);
            assert(t.grade1@[1] != t.grade4@[1]);
            assert(t.grade2@[1] != t.grade3@[1]);
            assert(t.grade2@[1] != t.grade4@[1]);
            assert(t.grade3@[1] != t.grade4@[1]);
        },
        ThemeName::Dracula => {
            reveal_strlit("#282a36");
            reveal_strlit("#44475a");
            reveal_strlit("#6272a4");
            reveal_strlit("#bd93f9");
            reveal_strlit("#ff79c6");
            assert(t.grade0@[1] != t.grade1@[1]);
            assert(t.grade0@[1] != t.grade2@[1]);
            assert(t.grade0@[1] != t.grade3@[1]);
            assert(t.grade0@[1] != t.grade4@[1]);
            assert(t.grade1@[1] != t.grade2@[1]);
            assert(t.grade1@[1] != t.grade3@[1]);
            assert(t.grade1@[1] != t.grade4@[1]);
            assert(t.grade2@[1] != t.grade3@[1]);
            assert(t.grade2@[1] != t.grade4@[1]);
            assert(t.grade3@[1] != t.grade4@[1]);
        },
        ThemeName::Blue => {
            reveal_strlit("#222222");
            reveal_strlit("#263342");
            reveal_strlit("#344E6C");
            reveal_strlit("#416895");
            reveal_strlit("#4F83BF");
            assert(t.grade0@[2] != t.grade1@[2]);
            assert(t.grade0@[1] != t.grade2@[1]);
            assert(t.grade0@[1] != t.grade3@[1]);
            assert(t.grade0@[1] != t.grade4@[1]);
            assert(t.grade1@[1] != t.grade2@[1]);
            assert(t.grade1@[1] != t.grade3@[1]);
            assert(t.grade1@[1] != t.grade4@[1]);
            assert(t.grade2@[1] != t.grade3@[1]);
            assert(t.grade2@[1] != t.grade4@[1]);
            assert(t.grade3@[2] != t.grade4@[2]);
        },
        ThemeName::Panda => {
            reveal_strlit("#242526");
            reveal_strlit("#34353B");
            reveal_strlit("#6FC1FF");
            reveal_strlit("#19f9d8");
            reveal_strlit("#FF4B82");
            assert(t.grade0@[1] != t.grade1@[1]);
            assert(t.grade0@[1] != t.grade2@[1]);
            assert(t.grade0@[1] != t.grade3@[1]);
            assert(t.grade0@[1] != t.grade4@[1]);
            assert(t.grade1@[1] != t.grade2@[1]);
            assert(t.grade1@[1] != t.grade3@[1]);
            assert(t.grade1@[1] != t.grade4@[1]);
            assert(t.grade2@[1] != t.grade3@[1]);
            assert(t.grade2@[1] != t.grade4@[1]);
            assert(t.grade3@[1] != t.grade4@[1]);
        },
        ThemeName::Sunny => {
            reveal_strlit("#fff9ae");
            reveal_strlit("#f8ed62");
            reveal_strlit("#e9d700");
            reveal_strlit("#dab600");
            reveal_strlit("#a98600");
            assert(t.grade0@[2] != t.grade1@[2]);
            assert(t.grade0@[1] != t.grade2@[1]);
            assert(t.grade0@[1] != t.grade3@[1]);
            assert(t.grade0@[1] != t.grade4@[1]);
            assert(t.grade1@[1] != t.grade2@[1]);
            assert(t.grade1@[1] != t.grade3@[1]);
            assert(t.grade1@[1] != t.grade4@[1]);
            assert(t.grade2@[1] != t.grade3@[1]);
            assert(t.grade2@[1] != t.grade4@[1]);
            assert(t.grade3@[1] != t.grade4@[1]);
        },
        ThemeName::Pink => {
            reveal_strlit("#ebedf0");
            reveal_strlit("#e48bdc");
            reveal_strlit("#ca5bcc");
            reveal_strlit("#a74aa8");
            reveal_strlit("#61185f");
            assert(t.grade0@[2] != t.grade1@[2]);
            assert(t.grade0@[1] != t.grade2@[1]);
            assert(t.grade0@[1] != t.grade3@[1]);
            assert(t.grade0@[1] != t.grade4@[1]);
            assert(t.grade1@[1] != t.grade2@[1]);
            assert(t.grade1@[1] != t.grade3@[1]);
            assert(t.grade1@[1] != t.grade4@[1]);
            assert(t.grade2@[1] != t.grade3@[1]);
            assert(t.grade2@[1] != t.grade4@[1]);
            assert(t.grade3@[1] != t.grade4@[1]);
        },
        ThemeName::YlGnBu => {
            reveal_strlit("#ebedf0");
            reveal_strlit("#a1dab4");
            reveal_strlit("#41b6c4");
            reveal_strlit("#2c7fb8");
            reveal_strlit("#253494");
            assert(t.grade0@[1] != t.grade1@[1]);
            assert(t.grade0@[1] != t.grade2@[1]);
            assert(t.grade0@[1] != t.grade3@[1]);
            assert(t.grade0@[1] != t.grade4@[1]);
            assert(t.grade1@[1] != t.grade2@[1]);
            assert(t.grade1@[1] != t.grade3@[1]);
            assert(t.grade1@[1] != t.grade4@[1]);
            assert(t.grade2@[1] != t.grade3@[1]);
            assert(t.grade2@[1] != t.grade4@[1]);
            assert(t.grade3@[2] != t.grade4@[2]);
        },
        ThemeName::SolarizedDark => {
            reveal_strlit("#073642");
            reveal_strlit("#268bd2");
            reveal_strlit("#2aa198");
            reveal_strlit("#b58900");
            reveal_strlit("#d33682");
            assert(t.grade0@[1] != t.grade1@[1]);
            assert(t.grade0@[1] != t.grade2@[1]);
            assert(t.grade0@[1] != t.grade3@[1]);
            assert(t.grade0@[1] != t.grade4@[1]);
            assert(t.grade1@[2] != t.grade2@[2]);
            assert(t.grade1@[1] != t.grade3@[1]);
            assert(t.grade1@[1] != t.grade4@[1]);
            assert(t.grade2@[1] != t.grade3@[1]);
            assert(t.grade2@[1] != t.grade4@[1]);
            assert(t.grade3@[1] != t.grade4@[1]);
        },
        ThemeName::SolarizedLight => {
            reveal_strlit("#eee8d5");
            reveal_strlit("#b58900");
            reveal_strlit("#cb4b16");
            reveal_strlit("#dc322f");
            reveal_strlit("#6c71c4");
            assert(t.grade0@[1] != t.grade1@[1]);
            assert(t.grade0@[1] != t.grade2@[1]);
            assert(t.grade0@[1] != t.grade3@[1]);
            assert(t.grade0@[1] != t.grade4@[1]);
            assert(t.grade1@[1] != t.grade2@[1]);
            assert(t.grade1@[1] != t.grade3@[1]);
            assert(t.grade1@[1] != t.grade4@[1]);
            assert(t.grade2@[1] != t.grade3@[1]);
            assert(t.grade2@[1] != t.grade4@[1]);
            assert(t.grade3@[1] != t.grade4@[1]);
        },
    }
}

/// The themes' names differ, so a name shown in the settings window tells
/// its theme.
pub proof fn law_theme_labels_differ(a: ThemeName, b: ThemeName)
    requires
        a != b,
    ensures
        theme_label(a) != theme_label(b),
{
    reveal_strlit("GitHub");
    reveal_strlit("GitHub Classic");
    reveal_strlit("GitHub Dark");
    reveal_strlit("Halloween");
    reveal_strlit("Teal");
    reveal_strlit("@left_pad");
    reveal_strlit("Dracula");
    reveal_strlit("Blue");
    reveal_strlit("Panda");
    reveal_strlit("Sunny");
    reveal_strlit("Pink");
    reveal_strlit("YlGnBu");
    reveal_strlit("Solarized Dark");
    reveal_strlit("Solarized Light");
    assert(theme_label(a).len() != theme_label(b).len() || theme_label(a)[0] != theme_label(b)[0]);
}

} // verus!
