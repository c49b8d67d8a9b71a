use vstd::prelude::*;
use crate::weekly::calendar::{format_rfc3339, now_utc, rfc3339_text, Moment};
use crate::weekly::fetch::FetchError;
use crate::weekly::settings::Settings;
use crate::weekly::text::{trim, trim_end_char, trim_end_matches_char, trim_ws};
use crate::weekly::url::{percent_encoded, url_encode};

verus! {

/// The GraphQL query up to the user's login.
pub const QUERY_A: &'static str = "query {\n            user(login: \"";
/// The GraphQL query between the login and the start of the window.
pub const QUERY_B: &'static str = "\") {\n                contributionsCollection(from: \"";
/// The GraphQL query between the start and the end of the window.
pub const QUERY_C: &'static str = "\", to: \"";
/// The rest of the GraphQL query.
pub const QUERY_D: &'static str = "\") {\n                    contributionCalendar {\n                        weeks {\n                            contributionDays {\n                                date\n                                contributionCount\n                            }\n                        }\n                    }\n                }\n            }\n        }";

/// A lowercase hexadecimal digit.
pub open spec fn lower_hex_digit(v: int) -> char {
    if v < 10 {
        (48 + v) as char
    } else {
        (87 + v) as char
    }
}

/// One character inside a JSON string as `serde_json` writes it: `"` and `\`
/// behind a backslash, the control characters with their short escapes or as
/// `\u00` and two lowercase hexadecimal digits, every other character as it is.
pub open spec fn json_escaped_char(c: char) -> Seq<char> {
    if c == '"' {
        seq!['\\', '"']
    } else if c == '\\' {
        seq!['\\', '\\']
    } else if c == '\u{8}' {
        seq!['\\', 'b']
    } else if c == '\t' {
        seq!['\\', 't']
    } else if c == '\n' {
        seq!['\\', 'n']
    } else if c == '\u{c}' {
        seq!['\\', 'f']
    } else if c == '\r' {
        seq!['\\', 'r']
    } else if (c as int) < 32 {
        seq!['\\', 'u', '0', '0', lower_hex_digit((c as int) / 16), lower_hex_digit((c as int) % 16)]
    } else {
        seq![c]
    }
}

/// The characters of a text, each escaped for a JSON string.
pub open spec fn json_escaped(s: Seq<char>) -> Seq<char>
    decreases s.len(),
{
    if s.len() == 0 {
        Seq::empty()
    } else {
        json_escaped(s.drop_last()) + json_escaped_char(s.last())
    }
}

/// The text of a JSON string holding the given text, as `serde_json` writes
/// it: the escaped characters between double quotes.
pub open spec fn json_string_text(s: Seq<char>) -> Seq<char> {
    seq!['"'] + json_escaped(s) + seq!['"']
}

/// A text as a JSON string.
///
/// Trusted: `serde_json::to_string` on a `str`, which cannot fail for one.
/// Claimed: the result is `json_string_text` of the text, as `serde_json`'s
/// escape table (`ser.rs`, `ESCAPE` and `write_char_escape`) gives it.
#[verifier::external_body]
pub(crate) fn json_string(s: &str) -> (r: String)
    ensures
        r@ == json_string_text(s@),
{
    serde_json::to_string(s).unwrap_or_default()
}

/// The views of a list of strings.
pub open spec fn texts(v: Seq<String>) -> Seq<Seq<char>> {
    v.map_values(|a: String| a@)
}

/// The UTF-8 bytes of a text.
pub open spec fn utf8(s: Seq<char>) -> Seq<u8> {
    vstd::utf8::encode_utf8(s)
}

/// The headers every request sends.
pub open spec fn common_headers() -> Seq<Seq<char>> {
    seq!["-H"@, "Content-Type: application/json"@, "-H"@, "User-Agent: COSMIC Weekly Commits"@]
}

/// An extra header line when a token is given.
pub open spec fn token_header(prefix: Seq<char>, token: Seq<char>) -> Seq<Seq<char>> {
    if token.len() > 0 {
        seq!["-H"@, prefix + token]
    } else {
        Seq::empty()
    }
}

/// The Gitea instance URL of the settings: trimmed, without trailing slashes.
pub open spec fn gitea_base(s: Settings) -> Seq<char> {
    trim_end_char(trim_ws(s.custom_instance_url@), '/')
}

/// The curl arguments that fetch a Gitea user's heatmap.
pub open spec fn gitea_args(s: Settings) -> Seq<Seq<char>> {
    let user = trim_ws(s.github_username@);
    seq![
        "-fsS"@,
        gitea_base(s) + "/api/v1/users/"@ + percent_encoded(utf8(user)) + "/heatmap"@,
    ] + common_headers() + token_header("Authorization: token "@, trim_ws(s.github_token@))
}

fn push_str(v: &mut Vec<String>, s: &str)
    ensures
        texts(final(v)@) == texts(old(v)@).push(s@),
{
    let ghost before = v@;
    v.push(String::from_str(s));
    assert(texts(v@) =~= texts(before).push(s@));
}

fn push_common_headers(v: &mut Vec<String>)
    ensures
        texts(final(v)@) == texts(old(v)@) + common_headers(),
{
    let ghost before = texts(v@);
    push_str(v, "-H");
    push_str(v, "Content-Type: application/json");
    push_str(v, "-H");
    push_str(v, "User-Agent: COSMIC Weekly Commits");
    assert(texts(v@) =~= before + common_headers());
}

fn push_token_header(v: &mut Vec<String>, prefix: &str, token: &str)
    ensures
        texts(final(v)@) == texts(old(v)@) + token_header(prefix@, token@),
{
    let ghost before = texts(v@);
    if !token.is_empty() {
        push_str(v, "-H");
        let line = String::from_str(prefix).concat(token);
        push_str(v, line.as_str());
        assert(texts(v@) =~= before + token_header(prefix@, token@));
    } else {
        assert(texts(v@) =~= before + token_header(prefix@, token@));
    }
}

/// The curl arguments for Gitea: missing credentials without a username or
/// an instance URL.
pub fn gitea_request(settings: &Settings) -> (r: Result<Vec<String>, FetchError>)
    ensures
        (trim_ws(settings.github_username@).len() == 0 || gitea_base(*settings).len() == 0)
            ==> r matches Err(FetchError::MissingCredentials),
        !(trim_ws(settings.github_username@).len() == 0 || gitea_base(*settings).len() == 0)
            ==> (r matches Ok(v) && texts(v@) == gitea_args(*settings)),
{
    let username = trim(settings.github_username.as_str());
    let token = trim(settings.github_token.as_str());
    let base = trim_end_matches_char(trim(settings.custom_instance_url.as_str()), '/');
    if username.is_empty() || base.is_empty() {
        return Err(FetchError::MissingCredentials);
    }
    let encoded = url_encode(username);
    let url = String::from_str(base).concat("/api/v1/users/").concat(encoded.as_str()).concat(
        "/heatmap",
    );
    let mut args: Vec<String> = Vec::new();
    push_str(&mut args, "-fsS");
    push_str(&mut args, url.as_str());
    push_common_headers(&mut args);
    push_token_header(&mut args, "Authorization: token ", token);
    assert(texts(args@) =~= gitea_args(*settings));
    Ok(args)
}

/// The GitLab instance URL of the settings: gitlab.com when none is given,
/// otherwise trimmed and without trailing slashes.
pub open spec fn gitlab_base(s: Settings) -> Seq<char> {
    if trim_ws(s.custom_instance_url@).len() == 0 {
        "https://gitlab.com"@
    } else {
        trim_end_char(trim_ws(s.custom_instance_url@), '/')
    }
}

/// The curl arguments that fetch a GitLab user's push events.
pub open spec fn gitlab_args(s: Settings) -> Seq<Seq<char>> {
    let user = trim_ws(s.github_username@);
    seq![
        "-fsS"@,
        gitlab_base(s) + "/api/v4/users/"@ + percent_encoded(utf8(user))
            + "/events?action=pushed&per_page=100"@,
    ] + common_headers() + token_header("PRIVATE-TOKEN: "@, trim_ws(s.github_token@))
}

/// The curl arguments for GitLab: missing credentials without a username.
pub fn gitlab_request(settings: &Settings) -> (r: Result<Vec<String>, FetchError>)
    ensures
        trim_ws(settings.github_username@).len() == 0 ==> r matches Err(
            FetchError::MissingCredentials,
        ),
        trim_ws(settings.github_username@).len() != 0 ==> (r matches Ok(v) && texts(v@)
            == gitlab_args(*settings)),
{
    let username = trim(settings.github_username.as_str());
    let token = trim(settings.github_token.as_str());
    if username.is_empty() {
        return Err(FetchError::MissingCredentials);
    }
    let instance = trim(settings.custom_instance_url.as_str());
    let base = if instance.is_empty() {
        String::from_str("https://gitlab.com")
    } else {
        String::from_str(trim_end_matches_char(instance, '/'))
    };
    let encoded = url_encode(username);
    let url = base.concat("/api/v4/users/").concat(encoded.as_str()).concat(
        "/events?action=pushed&per_page=100",
    );
    let mut args: Vec<String> = Vec::new();
    push_str(&mut args, "-fsS");
    push_str(&mut args, url.as_str());
    push_common_headers(&mut args);
    push_token_header(&mut args, "PRIVATE-TOKEN: ", token);
    assert(texts(args@) =~= gitlab_args(*settings));
    Ok(args)
}

/// The GraphQL query for a user's contribution calendar between two times.
pub open spec fn github_query_text(user: Seq<char>, from: Seq<char>, to: Seq<char>) -> Seq<char> {
    QUERY_A@ + user + QUERY_B@ + from + QUERY_C@ + to + QUERY_D@
}

pub fn github_query(user: &str, from: &str, to: &str) -> (r: String)
    ensures
        r@ == github_query_text(user@, from@, to@),
{
    String::from_str(QUERY_A).concat(user).concat(QUERY_B).concat(from).concat(QUERY_C).concat(
        to,
    ).concat(QUERY_D)
}

/// The request body for a query given as a JSON string: `{"query":` the string `}`.
pub open spec fn query_body_text(quoted: Seq<char>) -> Seq<char> {
    "{\"query\":"@ + quoted + "}"@
}

pub fn query_body(quoted: &str) -> (r: String)
    ensures
        r@ == query_body_text(quoted@),
{
    String::from_str("{\"query\":").concat(quoted).concat("}")
}

/// The curl arguments that post a GraphQL query to GitHub with a token.
pub open spec fn github_args(token: Seq<char>) -> Seq<Seq<char>> {
    seq![
        "-fsS"@,
        "-X"@,
        "POST"@,
        "https://api.github.com/graphql"@,
        "-H"@,
        "Authorization: bearer "@ + token,
    ] + common_headers() + seq!["--data-binary"@, "@-"@]
}

/// The curl arguments and body for GitHub: missing credentials without a
/// username or a token.
pub fn github_request(settings: &Settings, from: &str, to: &str) -> (r: Result<
    (Vec<String>, String),
    FetchError,
>)
    ensures
        (trim_ws(settings.github_username@).len() == 0 || trim_ws(settings.github_token@).len()
            == 0) ==> r matches Err(FetchError::MissingCredentials),
        !(trim_ws(settings.github_username@).len() == 0 || trim_ws(settings.github_token@).len()
            == 0) ==> (r matches Ok(req) && texts(req.0@) == github_args(
            trim_ws(settings.github_token@),
        ) && req.1@ == query_body_text(
            json_string_text(github_query_text(trim_ws(settings.github_username@), from@, to@)),
        )),
{
    let username = trim(settings.github_username.as_str());
    let token = trim(settings.github_token.as_str());
    if username.is_empty() || token.is_empty() {
        return Err(FetchError::MissingCredentials);
    }
    let query = github_query(username, from, to);
    let quoted = json_string(query.as_str());
    let body = query_body(quoted.as_str());
    let mut args: Vec<String> = Vec::new();
    push_str(&mut args, "-fsS");
    push_str(&mut args, "-X");
    push_str(&mut args, "POST");
    push_str(&mut args, "https://api.github.com/graphql");
    push_str(&mut args, "-H");
    let auth = String::from_str("Authorization: bearer ").concat(token);
    push_str(&mut args, auth.as_str());
    push_common_headers(&mut args);
    push_str(&mut args, "--data-binary");
    push_str(&mut args, "@-");
    assert(texts(args@) =~= github_args(token@));
    Ok((args, body))
}

/// The time window asked of GitHub, for the two readings of the clock: from
/// ten days before the first to three days after the second, as RFC 3339.
pub open spec fn window_texts(from_now: Moment, to_now: Moment) -> (Seq<char>, Seq<char>) {
    (
        rfc3339_text(from_now.unix_seconds - 864_000, from_now.nanosecond as int),
        rfc3339_text(to_now.unix_seconds + 259_200, to_now.nanosecond as int),
    )
}

pub fn window_bounds(from_now: Moment, to_now: Moment) -> (r: (String, String))
    requires
        from_now.unix_seconds >= i64::MIN + 864_000,
        to_now.unix_seconds <= i64::MAX - 259_200,
    ensures
        (r.0@, r.1@) == window_texts(from_now, to_now),
{
    let from = format_rfc3339(from_now.unix_seconds - 864_000, from_now.nanosecond);
    let to = format_rfc3339(to_now.unix_seconds + 259_200, to_now.nanosecond);
    (from, to)
}

/// The time window asked of GitHub: from ten days before to three days after
/// one reading of the clock.
pub fn github_time_window() -> (r: (String, String))
    ensures
        exists|now: Moment| (r.0@, r.1@) == #[trigger] window_texts(now, now),
{
    let now = now_utc();
    let r = window_bounds(now, now);
    assert((r.0@, r.1@) == window_texts(now, now));
    r
}

/// The window taken at one instant runs from ten days before it to three days
/// after it: its two ends are the texts of two instants thirteen days apart
/// with that instant between them, in the same fraction of a second.
pub proof fn law_window_is_around_one_instant(now: Moment)
    ensures
        exists|from: int, to: int|
            from < now.unix_seconds < to && to - from == 1_123_200 && to - now.unix_seconds
                == 259_200 && #[trigger] window_texts(now, now) == (
                rfc3339_text(from, now.nanosecond as int),
                rfc3339_text(to, now.nanosecond as int),
            ),
{
    assert(window_texts(now, now) == (
        rfc3339_text(now.unix_seconds - 864_000, now.nanosecond as int),
        rfc3339_text(now.unix_seconds + 259_200, now.nanosecond as int),
    ));
}

} // verus!
