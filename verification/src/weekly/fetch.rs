use vstd::prelude::*;
use crate::weekly::calendar::{format_rfc3339, rfc3339_text, Day, Moment};
use crate::weekly::settings::{
    cache_context, context_of, credentials_given, has_credentials, CacheEntry, Settings,
};
use crate::weekly::text::{blank, is_blank, push_char, trim, trim_ws};

verus! {

/// Declares `std::io::Error` to Verus, so that a fetch error can carry one.
#[verifier::external_type_specification]
#[verifier::external_body]
pub struct ExIoError(std::io::Error);

/// Why fetching the week's counts failed.
#[derive(Debug)]
pub enum FetchError {
    MissingCredentials,
    Http(String),
    Parse(String),
    Io(std::io::Error),
    Timeout,
}

/// The fixed start of each error's message.
pub open spec fn message_prefix(e: &FetchError) -> Seq<char> {
    match e {
        FetchError::MissingCredentials => "missing credentials"@,
        FetchError::Http(_) => "http error: "@,
        FetchError::Parse(_) => "parse error: "@,
        FetchError::Io(_) => "io error: "@,
        FetchError::Timeout => "request timed out"@,
    }
}

impl FetchError {
    /// The error as a message for the log.
    pub fn message(&self) -> (r: String)
        ensures
            r@.len() >= message_prefix(self).len(),
            r@.subrange(0, message_prefix(self).len() as int) == message_prefix(self),
            self matches FetchError::MissingCredentials ==> r@ == "missing credentials"@,
            self matches FetchError::Http(e) ==> r@ == "http error: "@ + e@,
            self matches FetchError::Parse(e) ==> r@ == "parse error: "@ + e@,
            self matches FetchError::Timeout ==> r@ == "request timed out"@,
    {
        match self {
            FetchError::MissingCredentials => String::from_str("missing credentials"),
            FetchError::Http(e) => {
                let r = String::from_str("http error: ").concat(e.as_str());
                assert(r@.subrange(0, message_prefix(self).len() as int) =~= message_prefix(self));
                r
            },
            FetchError::Parse(e) => {
                let r = String::from_str("parse error: ").concat(e.as_str());
                assert(r@.subrange(0, message_prefix(self).len() as int) =~= message_prefix(self));
                r
            },
            FetchError::Io(e) => {
                let text = e.to_string();
                let r = String::from_str("io error: ").concat(text.as_str());
                assert(r@.subrange(0, message_prefix(self).len() as int) =~= message_prefix(self));
                r
            },
            FetchError::Timeout => String::from_str("request timed out"),
        }
    }
}

impl From<std::io::Error> for FetchError {
    fn from(value: std::io::Error) -> (r: Self) {
        FetchError::Io(value)
    }
}

impl vstd::std_specs::convert::FromSpecImpl<std::io::Error> for FetchError {
    open spec fn obeys_from_spec() -> bool {
        true
    }

    open spec fn from_spec(v: std::io::Error) -> Self {
        FetchError::Io(v)
    }
}

/// The week shown: seven days, their commit counts, and when the counts were
/// cached if they come from the cache.
#[derive(Debug, Clone)]
pub struct Contributions {
    pub dates: [Day; 7],
    pub counts: [u32; 7],
    pub cached_at: Option<String>,
}

/// The week with no commits: shown without credentials, and when neither the
/// live fetch nor the cache gives counts.
pub fn zero_contributions(dates: [Day; 7]) -> (r: Contributions)
    ensures
        r == zero_week(dates),
        r.dates == dates,
        forall|i: int| 0 <= i < 7 ==> #[trigger] r.counts@[i] == 0,
        r.cached_at is None,
{
    Contributions { dates, counts: [0, 0, 0, 0, 0, 0, 0], cached_at: None }
}

/// The week with freshly fetched counts.
pub fn fresh_contributions(dates: [Day; 7], counts: [u32; 7]) -> (r: Contributions)
    ensures
        r.dates == dates,
        r.counts == counts,
        r.cached_at is None,
{
    Contributions { dates, counts, cached_at: None }
}

/// Whether a cached entry may stand in for a failed fetch under the given key.
pub open spec fn cache_hit(cached: Option<CacheEntry>, key: Seq<char>) -> bool {
    cached matches Some(entry) && entry.key@ == key
}

/// The week shown after the live fetch failed: the cached counts, with their
/// time, when the cache holds an entry under the same key; no commits otherwise.
pub fn fallback_contributions(dates: [Day; 7], cached: Option<CacheEntry>, key: &String) -> (r:
    Contributions)
    ensures
        r.dates == dates,
        cache_hit(cached, key@) ==> r.counts == cached->Some_0.counts && r.cached_at == Some(
            cached->Some_0.updated_at,
        ),
        !cache_hit(cached, key@) ==> r == zero_week(dates),
{
    match cached {
        Some(entry) => {
            if entry.key == *key {
                Contributions { dates, counts: entry.counts, cached_at: Some(entry.updated_at) }
            } else {
                zero_contributions(dates)
            }
        },
        None => zero_contributions(dates),
    }
}

/// The week with no commits.
pub open spec fn zero_week(dates: [Day; 7]) -> Contributions {
    Contributions { dates, counts: [0u32, 0u32, 0u32, 0u32, 0u32, 0u32, 0u32], cached_at: None }
}

/// What happened last while fetching the week.
#[derive(Debug)]
pub enum CacheEvent {
    /// The fetch begins.
    Start,
    /// The live fetch finished, at the given time.
    Fetched(Result<[u32; 7], FetchError>, Moment),
    /// The cache file was read (none when it is missing or unreadable).
    CacheRead(Option<CacheEntry>),
}

/// What to do next while fetching the week.
#[derive(Debug)]
pub enum CacheAction {
    /// Show this week; the fetch is over.
    Done(Contributions),
    /// Fetch the counts from the host.
    FetchLive,
    /// Save this entry to the cache, then show this week.
    SaveThenDone(CacheEntry, Contributions),
    /// Read the cache file.
    ReadCache,
}

/// The steps of a fetch with the cache: without credentials the week has
/// no commits and nothing is fetched; a live fetch's counts are saved with
/// the settings' context, the key and the time, and shown; after a failed
/// fetch the cache is read and its counts are shown when its key matches.
pub open spec fn fetch_step_result(
    settings: Settings,
    dates: [Day; 7],
    key: Seq<char>,
    event: CacheEvent,
    r: CacheAction,
) -> bool {
    match event {
        CacheEvent::Start => if credentials_given(settings) {
            r is FetchLive
        } else {
            r == CacheAction::Done(zero_week(dates))
        },
        CacheEvent::Fetched(Ok(counts), now) => r matches CacheAction::SaveThenDone(entry, week) && {
            &&& entry.key@ == key
            &&& entry.context == context_of(settings)
            &&& entry.counts == counts
            &&& entry.updated_at@ == rfc3339_text(now.unix_seconds as int, now.nanosecond as int)
            &&& week.dates == dates
            &&& week.counts == counts
            &&& week.cached_at is None
        },
        CacheEvent::Fetched(Err(_), _) => r is ReadCache,
        CacheEvent::CacheRead(cached) => r matches CacheAction::Done(week) && {
            &&& week.dates == dates
            &&& cache_hit(cached, key) ==> week.counts == cached->Some_0.counts && week.cached_at
                == Some(cached->Some_0.updated_at)
            &&& !cache_hit(cached, key) ==> week == zero_week(dates)
        },
    }
}

/// One step of fetching the week with the cache as a fallback.
pub fn fetch_step(settings: &Settings, dates: [Day; 7], key: &String, event: CacheEvent) -> (r:
    CacheAction)
    ensures
        fetch_step_result(*settings, dates, key@, event, r),
{
    match event {
        CacheEvent::Start => {
            if has_credentials(settings) {
                CacheAction::FetchLive
            } else {
                CacheAction::Done(zero_contributions(dates))
            }
        },
        CacheEvent::Fetched(Ok(counts), now) => {
            let entry = CacheEntry {
                key: key.clone(),
                context: cache_context(settings),
                counts,
                updated_at: format_rfc3339(now.unix_seconds, now.nanosecond),
            };
            CacheAction::SaveThenDone(entry, fresh_contributions(dates, counts))
        },
        CacheEvent::Fetched(Err(_), _) => CacheAction::ReadCache,
        CacheEvent::CacheRead(cached) => CacheAction::Done(
            fallback_contributions(dates, cached, key),
        ),
    }
}

/// What a successful fetch saves is what a later failed fetch under the same
/// key shows: the same counts, marked with the time they were saved.
pub proof fn law_saved_week_is_served(
    settings: Settings,
    dates: [Day; 7],
    key: Seq<char>,
    counts: [u32; 7],
    now: Moment,
    saved: CacheEntry,
    shown: Contributions,
    later_dates: [Day; 7],
    later: Contributions,
)
    requires
        fetch_step_result(
            settings,
            dates,
            key,
            CacheEvent::Fetched(Ok(counts), now),
            CacheAction::SaveThenDone(saved, shown),
        ),
        fetch_step_result(
            settings,
            later_dates,
            key,
            CacheEvent::CacheRead(Some(saved)),
            CacheAction::Done(later),
        ),
    ensures
        later.counts == counts,
        later.counts == shown.counts,
        later.cached_at == Some(saved.updated_at),
        later.dates == later_dates,
{
}

/// The message of a failed curl run: its error output, followed by a line
/// break and its standard output when that is not blank, trimmed.
pub open spec fn failure_text(stderr: Seq<char>, stdout: Seq<char>) -> Seq<char> {
    trim_ws(
        if is_blank(stdout) {
            stderr
        } else {
            stderr + seq!['\n'] + stdout
        },
    )
}

pub fn curl_failure_message(stderr: &str, stdout: &str) -> (r: String)
    ensures
        r@ == failure_text(stderr@, stdout@),
{
    let mut msg = String::from_str(stderr);
    if !blank(stdout) {
        push_char(&mut msg, '\n');
        msg.append(stdout);
        assert(msg@ =~= stderr@ + seq!['\n'] + stdout@);
    }
    String::from_str(trim(msg.as_str()))
}

} // verus!
