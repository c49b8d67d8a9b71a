use vstd::prelude::*;
use crate::weekly::calendar::{
    date_key, day_key, parse_rfc3339, rfc3339_moment, utc_day_of, utc_day_of_unix_time, Day,
    FIRST_UNIX_SECOND, LAST_UNIX_SECOND,
};
use crate::weekly::fetch::FetchError;

verus! {

/// One day of GitHub's contribution calendar, as far as it could be read.
#[derive(Debug, Clone)]
pub struct GithubDay {
    pub date: Option<String>,
    pub count: Option<u64>,
}

/// One week of GitHub's contribution calendar; `days` is none when the week
/// has no list of days.
#[derive(Debug, Clone)]
pub struct GithubWeek {
    pub days: Option<Vec<GithubDay>>,
}

/// GitHub's answer: the `errors` member as JSON text when there is one, and
/// the list of weeks when the answer has one.
#[derive(Debug, Clone)]
pub struct GithubReply {
    pub errors: Option<String>,
    pub weeks: Option<Vec<GithubWeek>>,
}

/// One entry of a Gitea heatmap, as far as it could be read.
#[derive(Debug, Clone)]
pub struct GiteaEntry {
    pub timestamp: Option<i64>,
    pub contributions: Option<u64>,
}

/// One GitLab event, as far as it could be read.
#[derive(Debug, Clone)]
pub struct GitlabEvent {
    pub action_name: Option<String>,
    pub created_at: Option<String>,
    pub commit_count: Option<u64>,
}

/// Counts filed under date keys, by their text.
pub open spec fn filed(entries: Seq<(String, u32)>) -> Seq<(Seq<char>, u32)> {
    entries.map_values(|e: (String, u32)| (e.0@, e.1))
}

/// The count last filed under a key, or 0.
pub open spec fn latest_count(entries: Seq<(Seq<char>, u32)>, key: Seq<char>) -> u32
    decreases entries.len(),
{
    if entries.len() == 0 {
        0
    } else if entries.last().0 == key {
        entries.last().1
    } else {
        latest_count(entries.drop_last(), key)
    }
}

/// The sum, wrapping at 2^32, of all counts filed under a key.
pub open spec fn summed_count(entries: Seq<(Seq<char>, u32)>, key: Seq<char>) -> u32
    decreases entries.len(),
{
    if entries.len() == 0 {
        0
    } else {
        let rest = summed_count(entries.drop_last(), key);
        if entries.last().0 == key {
            if rest + entries.last().1 > u32::MAX {
                (rest + entries.last().1 - 4294967296) as u32
            } else {
                (rest + entries.last().1) as u32
            }
        } else {
            rest
        }
    }
}

/// A key under which nothing is filed counts 0, both as the last count and as the sum.
pub proof fn law_unfiled_key_counts_zero(entries: Seq<(Seq<char>, u32)>, key: Seq<char>)
    requires
        forall|i: int| 0 <= i < entries.len() ==> (#[trigger] entries[i]).0 != key,
    ensures
        latest_count(entries, key) == 0,
        summed_count(entries, key) == 0,
    decreases entries.len(),
{
    if entries.len() > 0 {
        assert(entries.last() == entries[entries.len() - 1]);
        let rest = entries.drop_last();
        assert forall|i: int| 0 <= i < rest.len() implies (#[trigger] rest[i]).0 != key by {
            assert(rest[i] == entries[i]);
        }
        law_unfiled_key_counts_zero(rest, key);
    }
}

/// Filing under other keys changes neither the last count nor the sum of a key.
pub proof fn law_other_keys_do_not_count(
    entries: Seq<(Seq<char>, u32)>,
    other: (Seq<char>, u32),
    key: Seq<char>,
)
    requires
        other.0 != key,
    ensures
        latest_count(entries.push(other), key) == latest_count(entries, key),
        summed_count(entries.push(other), key) == summed_count(entries, key),
{
    assert(entries.push(other).drop_last() =~= entries);
}

proof fn lemma_filed_push(v: Seq<(String, u32)>, e: (String, u32))
    ensures
        filed(v.push(e)) == filed(v).push((e.0@, e.1)),
        filed(v).len() == v.len(),
{
    assert(filed(v.push(e)) =~= filed(v).push((e.0@, e.1)));
}

/// The count last filed under a key, or 0.
pub fn latest_count_for(key: &String, entries: &Vec<(String, u32)>) -> (r: u32)
    ensures
        r == latest_count(filed(entries@), key@),
{
    let mut acc: u32 = 0;
    let mut i: usize = 0;
    while i < entries.len()
        invariant
            0 <= i <= entries@.len(),
            acc == latest_count(filed(entries@.take(i as int)), key@),
        decreases entries@.len() - i,
    {
        proof {
            lemma_filed_push(entries@.take(i as int), entries@[i as int]);
            assert(entries@.take(i + 1) =~= entries@.take(i as int).push(entries@[i as int]));
            let f = filed(entries@.take(i + 1));
            assert(f.drop_last() =~= filed(entries@.take(i as int)));
            assert(f.last() == (entries@[i as int].0@, entries@[i as int].1));
        }
        if entries[i].0 == *key {
            acc = entries[i].1;
        }
        i = i + 1;
    }
    assert(entries@.take(entries@.len() as int) =~= entries@);
    acc
}

/// The sum, wrapping at 2^32, of all counts filed under a key.
pub fn summed_count_for(key: &String, entries: &Vec<(String, u32)>) -> (r: u32)
    ensures
        r == summed_count(filed(entries@), key@),
{
    let mut acc: u32 = 0;
    let mut i: usize = 0;
    while i < entries.len()
        invariant
            0 <= i <= entries@.len(),
            acc == summed_count(filed(entries@.take(i as int)), key@),
        decreases entries@.len() - i,
    {
        proof {
            lemma_filed_push(entries@.take(i as int), entries@[i as int]);
            assert(entries@.take(i + 1) =~= entries@.take(i as int).push(entries@[i as int]));
            let f = filed(entries@.take(i + 1));
            assert(f.drop_last() =~= filed(entries@.take(i as int)));
            assert(f.last() == (entries@[i as int].0@, entries@[i as int].1));
        }
        if entries[i].0 == *key {
            acc = acc.wrapping_add(entries[i].1);
        }
        i = i + 1;
    }
    assert(entries@.take(entries@.len() as int) =~= entries@);
    acc
}

/// For each of seven keys, the count last filed under it (0 when none is).
pub fn latest_counts(keys: &[String; 7], entries: &Vec<(String, u32)>) -> (r: [u32; 7])
    ensures
        forall|i: int| 0 <= i < 7 ==> #[trigger] r@[i] == latest_count(filed(entries@), keys@[i]@),
{
    [
        latest_count_for(&keys[0], entries),
        latest_count_for(&keys[1], entries),
        latest_count_for(&keys[2], entries),
        latest_count_for(&keys[3], entries),
        latest_count_for(&keys[4], entries),
        latest_count_for(&keys[5], entries),
        latest_count_for(&keys[6], entries),
    ]
}

/// For each of seven keys, the wrapping sum of the counts filed under it.
pub fn summed_counts(keys: &[String; 7], entries: &Vec<(String, u32)>) -> (r: [u32; 7])
    ensures
        forall|i: int| 0 <= i < 7 ==> #[trigger] r@[i] == summed_count(filed(entries@), keys@[i]@),
{
    [
        summed_count_for(&keys[0], entries),
        summed_count_for(&keys[1], entries),
        summed_count_for(&keys[2], entries),
        summed_count_for(&keys[3], entries),
        summed_count_for(&keys[4], entries),
        summed_count_for(&keys[5], entries),
        summed_count_for(&keys[6], entries),
    ]
}

/// The keys of seven days.
pub fn date_keys(dates: &[Day; 7]) -> (r: [String; 7])
    ensures
        forall|i: int| 0 <= i < 7 ==> #[trigger] r@[i]@ == day_key(dates@[i].julian as int),
{
    [
        date_key(dates[0]),
        date_key(dates[1]),
        date_key(dates[2]),
        date_key(dates[3]),
        date_key(dates[4]),
        date_key(dates[5]),
        date_key(dates[6]),
    ]
}

/// The counts of a list of GitHub days: each day with both a date and a
/// count files the count (cut to 32 bits) under the date.
pub open spec fn github_day_entries(days: Seq<GithubDay>) -> Seq<(Seq<char>, u32)>
    decreases days.len(),
{
    if days.len() == 0 {
        Seq::empty()
    } else {
        github_day_entries(days.drop_last()) + github_day_entry(days.last())
    }
}

/// What one GitHub day files: its count under its date, when it has both.
pub open spec fn github_day_entry(d: GithubDay) -> Seq<(Seq<char>, u32)> {
    match d.date {
        Some(s) => match d.count {
            Some(c) => seq![(s@, c as u32)],
            None => Seq::empty(),
        },
        None => Seq::empty(),
    }
}

/// The counts of GitHub's weeks, in order; a week without days files nothing.
pub open spec fn github_week_entries(weeks: Seq<GithubWeek>) -> Seq<(Seq<char>, u32)>
    decreases weeks.len(),
{
    if weeks.len() == 0 {
        Seq::empty()
    } else {
        github_week_entries(weeks.drop_last()) + match weeks.last().days {
            Some(v) => github_day_entries(v@),
            None => Seq::empty(),
        }
    }
}

/// The counts GitHub's weeks file, in order.
pub fn github_entries(weeks: &Vec<GithubWeek>) -> (r: Vec<(String, u32)>)
    ensures
        filed(r@) == github_week_entries(weeks@),
{
    let mut out: Vec<(String, u32)> = Vec::new();
    let mut i: usize = 0;
    while i < weeks.len()
        invariant
            0 <= i <= weeks@.len(),
            filed(out@) == github_week_entries(weeks@.take(i as int)),
        decreases weeks@.len() - i,
    {
        let ghost before = filed(out@);
        assert(weeks@.take(i + 1).drop_last() =~= weeks@.take(i as int));
        match &weeks[i].days {
            Some(days) => {
                let mut j: usize = 0;
                while j < days.len()
                    invariant
                        0 <= j <= days@.len(),
                        filed(out@) == before + github_day_entries(days@.take(j as int)),
                    decreases days@.len() - j,
                {
                    assert(days@.take(j + 1).drop_last() =~= days@.take(j as int));
                    let ghost mid = filed(out@);
                    match (&days[j].date, days[j].count) {
                        (Some(date), Some(count)) => {
                            let entry = (date.clone(), count as u32);
                            proof {
                                lemma_filed_push(out@, entry);
                            }
                            out.push(entry);
                            assert(filed(out@) =~= mid + github_day_entry(days@[j as int]));
                        },
                        _ => {
                            assert(github_day_entry(days@[j as int]) =~= Seq::empty());
                            assert(filed(out@) =~= mid + github_day_entry(days@[j as int]));
                        },
                    }
                    j = j + 1;
                    assert(filed(out@) =~= before + github_day_entries(days@.take(j as int)));
                }
                assert(days@.take(days@.len() as int) =~= days@);
            },
            None => {
                assert(filed(out@) =~= before + Seq::empty());
            },
        }
        i = i + 1;
    }
    assert(weeks@.take(weeks@.len() as int) =~= weeks@);
    out
}

/// What GitHub's answer gives for a week: the answer's errors as an HTTP
/// error; a parse error when it has no weeks; otherwise, for each day, the
/// count last filed under its key.
pub open spec fn github_outcome(
    dates: [Day; 7],
    reply: GithubReply,
    r: Result<[u32; 7], FetchError>,
) -> bool {
    match reply.errors {
        Some(e) => r matches Err(FetchError::Http(m)) && m@ == e@,
        None => match reply.weeks {
            None => r matches Err(FetchError::Parse(m)) && m@ == "unexpected GitHub response"@,
            Some(w) => r matches Ok(c) && forall|i: int|
                0 <= i < 7 ==> #[trigger] c@[i] == latest_count(
                    github_week_entries(w@),
                    day_key(dates@[i].julian as int),
                ),
        },
    }
}

/// The week's counts from GitHub's answer.
pub fn github_counts(dates: &[Day; 7], reply: &GithubReply) -> (r: Result<[u32; 7], FetchError>)
    ensures
        github_outcome(*dates, *reply, r),
{
    if let Some(errors) = &reply.errors {
        return Err(FetchError::Http(errors.clone()));
    }
    match &reply.weeks {
        None => Err(FetchError::Parse(String::from_str("unexpected GitHub response"))),
        Some(weeks) => {
            let entries = github_entries(weeks);
            let keys = date_keys(dates);
            Ok(latest_counts(&keys, &entries))
        },
    }
}

/// What one Gitea entry files: its contributions (0 when missing, cut to 32
/// bits) under the key of its timestamp's UTC day, when it has a timestamp.
pub open spec fn gitea_entry(e: GiteaEntry) -> Seq<(Seq<char>, u32)> {
    match e.timestamp {
        Some(ts) => seq![
            (
                day_key(utc_day_of(ts as int)),
                match e.contributions {
                    Some(c) => c as u32,
                    None => 0u32,
                },
            ),
        ],
        None => Seq::empty(),
    }
}

/// What Gitea's entries file, in order.
pub open spec fn gitea_entries(entries: Seq<GiteaEntry>) -> Seq<(Seq<char>, u32)>
    decreases entries.len(),
{
    if entries.len() == 0 {
        Seq::empty()
    } else {
        gitea_entries(entries.drop_last()) + gitea_entry(entries.last())
    }
}

/// Whether every timestamp in Gitea's entries is one the calendar knows.
pub open spec fn gitea_timestamps_in_range(entries: Seq<GiteaEntry>) -> bool {
    forall|i: int|
        0 <= i < entries.len() ==> (#[trigger] entries[i].timestamp matches Some(ts)
            ==> FIRST_UNIX_SECOND <= ts <= LAST_UNIX_SECOND)
}

/// What Gitea's heatmap gives for a week: a parse error when the answer is
/// not a list or a timestamp is out of range; otherwise, for each day, the
/// wrapping sum of the contributions filed under its key.
pub open spec fn gitea_outcome(
    dates: [Day; 7],
    reply: Option<Vec<GiteaEntry>>,
    r: Result<[u32; 7], FetchError>,
) -> bool {
    match reply {
        None => r matches Err(FetchError::Parse(m)) && m@ == "unexpected Gitea response"@,
        Some(v) => if gitea_timestamps_in_range(v@) {
            r matches Ok(c) && forall|i: int|
                0 <= i < 7 ==> #[trigger] c@[i] == summed_count(
                    gitea_entries(v@),
                    day_key(dates@[i].julian as int),
                )
        } else {
            r matches Err(FetchError::Parse(m)) && m@ == "timestamp was not in range"@
        },
    }
}

/// The week's counts from Gitea's heatmap.
pub fn gitea_counts(dates: &[Day; 7], reply: &Option<Vec<GiteaEntry>>) -> (r: Result<
    [u32; 7],
    FetchError,
>)
    ensures
        gitea_outcome(*dates, *reply, r),
{
    let entries = match reply {
        None => {
            return Err(FetchError::Parse(String::from_str("unexpected Gitea response")));
        },
        Some(v) => v,
    };
    let mut out: Vec<(String, u32)> = Vec::new();
    let mut i: usize = 0;
    while i < entries.len()
        invariant
            0 <= i <= entries@.len(),
            filed(out@) == gitea_entries(entries@.take(i as int)),
            gitea_timestamps_in_range(entries@.take(i as int)),
            reply matches Some(v) && v@ == entries@,
        decreases entries@.len() - i,
    {
        assert(entries@.take(i + 1).drop_last() =~= entries@.take(i as int));
        let ghost before = filed(out@);
        if let Some(ts) = entries[i].timestamp {
            let count: u32 = match entries[i].contributions {
                Some(c) => c as u32,
                None => 0,
            };
            match utc_day_of_unix_time(ts) {
                Ok(day) => {
                    let entry = (date_key(day), count);
                    proof {
                        lemma_filed_push(out@, entry);
                    }
                    out.push(entry);
                    assert(filed(out@) =~= before + gitea_entry(entries@[i as int]));
                },
                Err(msg) => {
                    assert(!gitea_timestamps_in_range(entries@)) by {
                        assert(entries@[i as int].timestamp == Some(ts));
                    }
                    assert(reply matches Some(v) && v@ == entries@);
                    assert(msg@ == "timestamp was not in range"@);
                    return Err(FetchError::Parse(msg));
                },
            }
        } else {
            assert(filed(out@) =~= before + gitea_entry(entries@[i as int]));
        }
        i = i + 1;
        assert(gitea_timestamps_in_range(entries@.take(i as int))) by {
            assert forall|k: int| 0 <= k < i implies (#[trigger] entries@.take(
                i as int,
            )[k].timestamp matches Some(ts) ==> FIRST_UNIX_SECOND <= ts <= LAST_UNIX_SECOND) by {
                if k < i - 1 {
                    assert(entries@.take(i as int)[k] == entries@.take(i - 1)[k]);
                }
            }
        }
    }
    assert(entries@.take(entries@.len() as int) =~= entries@);
    let keys = date_keys(dates);
    Ok(summed_counts(&keys, &out))
}

/// What one GitLab event files: for a "pushed to" event whose creation time
/// reads as RFC 3339, its commit count (1 when missing, cut to 32 bits) under
/// the key of that time's own day.
pub open spec fn gitlab_entry(e: GitlabEvent) -> Seq<(Seq<char>, u32)> {
    match e.action_name {
        Some(a) => if a@ == "pushed to"@ {
            match e.created_at {
                Some(c) => match rfc3339_moment(c@) {
                    Some(m) => seq![
                        (
                            day_key(m.2),
                            match e.commit_count {
                                Some(n) => n as u32,
                                None => 1u32,
                            },
                        ),
                    ],
                    None => Seq::empty(),
                },
                None => Seq::empty(),
            }
        } else {
            Seq::empty()
        },
        None => Seq::empty(),
    }
}

/// What GitLab's events file, in order.
pub open spec fn gitlab_entries(events: Seq<GitlabEvent>) -> Seq<(Seq<char>, u32)>
    decreases events.len(),
{
    if events.len() == 0 {
        Seq::empty()
    } else {
        gitlab_entries(events.drop_last()) + gitlab_entry(events.last())
    }
}

/// What GitLab's events give for a week: a parse error when the answer is
/// not a list; otherwise, for each day, the wrapping sum of the commits of
/// the push events filed under its key.
pub open spec fn gitlab_outcome(
    dates: [Day; 7],
    reply: Option<Vec<GitlabEvent>>,
    r: Result<[u32; 7], FetchError>,
) -> bool {
    match reply {
        None => r matches Err(FetchError::Parse(m)) && m@ == "unexpected GitLab response"@,
        Some(v) => r matches Ok(c) && forall|i: int|
            0 <= i < 7 ==> #[trigger] c@[i] == summed_count(
                gitlab_entries(v@),
                day_key(dates@[i].julian as int),
            ),
    }
}

/// The week's counts from GitLab's events.
pub fn gitlab_counts(dates: &[Day; 7], reply: &Option<Vec<GitlabEvent>>) -> (r: Result<
    [u32; 7],
    FetchError,
>)
    ensures
        gitlab_outcome(*dates, *reply, r),
{
    let events = match reply {
        None => {
            return Err(FetchError::Parse(String::from_str("unexpected GitLab response")));
        },
        Some(v) => v,
    };
    let pushed = String::from_str("pushed to");
    let mut out: Vec<(String, u32)> = Vec::new();
    let mut i: usize = 0;
    while i < events.len()
        invariant
            0 <= i <= events@.len(),
            filed(out@) == gitlab_entries(events@.take(i as int)),
            pushed@ == "pushed to"@,
        decreases events@.len() - i,
    {
        assert(events@.take(i + 1).drop_last() =~= events@.take(i as int));
        let ghost before = filed(out@);
        let ghost e = events@[i as int];
        let mut filed_one = false;
        if let Some(action) = &events[i].action_name {
            if *action == pushed {
                if let Some(created) = &events[i].created_at {
                    if let Some(m) = parse_rfc3339(created.as_str()) {
                        let count: u32 = match events[i].commit_count {
                            Some(n) => n as u32,
                            None => 1,
                        };
                        let entry = (date_key(m.day), count);
                        proof {
                            lemma_filed_push(out@, entry);
                        }
                        out.push(entry);
                        filed_one = true;
                        assert(filed(out@) =~= before + gitlab_entry(e));
                    }
                }
            }
        }
        if !filed_one {
            assert(gitlab_entry(e) =~= Seq::empty());
            assert(filed(out@) =~= before + gitlab_entry(e));
        }
        i = i + 1;
    }
    assert(events@.take(events@.len() as int) =~= events@);
    let keys = date_keys(dates);
    Ok(summed_counts(&keys, &out))
}

} // verus!
