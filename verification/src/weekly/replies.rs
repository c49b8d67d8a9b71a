//! Reading the hosts' JSON answers: each answer is parsed, walked into the
//! library's answer types, and counted.

use vstd::prelude::*;
use crate::weekly::calendar::Day;
use crate::weekly::counts::{
    gitea_counts, gitea_outcome, github_counts, github_outcome, gitlab_counts, gitlab_outcome,
    GiteaEntry, GithubDay, GithubReply, GithubWeek, GitlabEvent,
};
use crate::weekly::fetch::FetchError;
use crate::weekly::json::{
    array_length, array_len, i64_at, item, json_get, json_item, json_root, json_text, json_tree,
    json_display, member, opt_text, parse_json, parsed_json, root_node, text_at, text_member,
    u64_at, u64_member, i64_member, JsonKind, JsonNode, JsonTree,
};

verus! {

/// The part of a document under a member's name, when the member is there
/// (a step of a JSON pointer).
pub open spec fn step_in(t: Option<JsonTree>, name: Seq<char>) -> Option<JsonTree> {
    match t {
        Some(x) => if root_node(member(x, name)) is Some {
            Some(member(x, name))
        } else {
            None
        },
        None => None,
    }
}

/// The part of a document a reference points at, if any.
pub open spec fn opt_tree(v: Option<&serde_json::Value>) -> Option<JsonTree> {
    match v {
        Some(x) => Some(json_tree(*x)),
        None => None,
    }
}

/// A place of a document as an unsigned integer, if one stands there.
pub open spec fn number_u64(t: Option<JsonTree>) -> Option<u64> {
    match t {
        Some(x) => match root_node(x) {
            Some(JsonNode::Number(_, u, _)) => u,
            _ => None,
        },
        None => None,
    }
}

/// The list of weeks in GitHub's answer, at
/// `/data/user/contributionsCollection/contributionCalendar/weeks`.
pub open spec fn github_weeks_at(t: JsonTree) -> Option<JsonTree> {
    step_in(
        step_in(
            step_in(step_in(step_in(Some(t), "data"@), "user"@), "contributionsCollection"@),
            "contributionCalendar"@,
        ),
        "weeks"@,
    )
}

/// A GitHub day as read from its JSON: the `date` string and the
/// `contributionCount` number, each where it is one.
pub open spec fn github_day_read(d: GithubDay, t: JsonTree) -> bool {
    &&& opt_text(d.date) == text_member(t, "date"@)
    &&& d.count == u64_member(t, "contributionCount"@)
}

/// A GitHub week as read from its JSON: its `contributionDays` when that is
/// an array, day by day.
pub open spec fn github_week_read(w: GithubWeek, t: JsonTree) -> bool {
    let days = member(t, "contributionDays"@);
    match array_len(days) {
        Some(n) => w.days matches Some(v) && v@.len() == n && forall|j: int|
            0 <= j < n ==> github_day_read(#[trigger] v@[j], item(days, j as usize)),
        None => w.days is None,
    }
}

/// GitHub's answer as read from its JSON: the `errors` member as compact
/// JSON text when there is one, and the weeks when the path to them leads to
/// an array.
pub open spec fn github_reply_read(r: GithubReply, t: JsonTree) -> bool {
    &&& match root_node(member(t, "errors"@)) {
        Some(_) => r.errors matches Some(e) && e@ == json_display(member(t, "errors"@)),
        None => r.errors is None,
    }
    &&& match github_weeks_at(t) {
        Some(w) => match array_len(w) {
            Some(n) => r.weeks matches Some(v) && v@.len() == n && forall|i: int|
                0 <= i < n ==> github_week_read(#[trigger] v@[i], item(w, i as usize)),
            None => r.weeks is None,
        },
        None => r.weeks is None,
    }
}

/// A Gitea heatmap entry as read from its JSON.
pub open spec fn gitea_entry_read(e: GiteaEntry, t: JsonTree) -> bool {
    &&& e.timestamp == i64_member(t, "timestamp"@)
    &&& e.contributions == u64_member(t, "contributions"@)
}

/// Gitea's answer as read from its JSON: its entries when it is an array.
pub open spec fn gitea_reply_read(r: Option<Vec<GiteaEntry>>, t: JsonTree) -> bool {
    match array_len(t) {
        Some(n) => r matches Some(v) && v@.len() == n && forall|i: int|
            0 <= i < n ==> gitea_entry_read(#[trigger] v@[i], item(t, i as usize)),
        None => r is None,
    }
}

/// A GitLab event as read from its JSON; the commit count is at
/// `/push_data/commit_count`.
pub open spec fn gitlab_event_read(e: GitlabEvent, t: JsonTree) -> bool {
    &&& opt_text(e.action_name) == text_member(t, "action_name"@)
    &&& opt_text(e.created_at) == text_member(t, "created_at"@)
    &&& e.commit_count == number_u64(step_in(step_in(Some(t), "push_data"@), "commit_count"@))
}

/// GitLab's answer as read from its JSON: its events when it is an array.
pub open spec fn gitlab_reply_read(r: Option<Vec<GitlabEvent>>, t: JsonTree) -> bool {
    match array_len(t) {
        Some(n) => r matches Some(v) && v@.len() == n && forall|i: int|
            0 <= i < n ==> gitlab_event_read(#[trigger] v@[i], item(t, i as usize)),
        None => r is None,
    }
}

/// Follows GitHub's path to the list of weeks.
fn github_weeks_value<'a>(v: &'a serde_json::Value) -> (r: Option<&'a serde_json::Value>)
    ensures
        opt_tree(r) == github_weeks_at(json_tree(*v)),
{
    let data = match json_get(v, "data") {
        Some(x) => x,
        None => return None,
    };
    let user = match json_get(data, "user") {
        Some(x) => x,
        None => return None,
    };
    let collection = match json_get(user, "contributionsCollection") {
        Some(x) => x,
        None => return None,
    };
    let calendar = match json_get(collection, "contributionCalendar") {
        Some(x) => x,
        None => return None,
    };
    json_get(calendar, "weeks")
}

/// Reads one GitHub day.
pub fn github_day_of(v: &serde_json::Value) -> (r: GithubDay)
    ensures
        github_day_read(r, json_tree(*v)),
{
    GithubDay { date: text_at(v, "date"), count: u64_at(v, "contributionCount") }
}

/// Reads one GitHub week.
pub fn github_week_of(v: &serde_json::Value) -> (r: GithubWeek)
    ensures
        github_week_read(r, json_tree(*v)),
{
    let days = match json_get(v, "contributionDays") {
        Some(d) => d,
        None => return GithubWeek { days: None },
    };
    match array_length(days) {
        None => GithubWeek { days: None },
        Some(n) => {
            let mut out: Vec<GithubDay> = Vec::new();
            let mut j: usize = 0;
            while j < n
                invariant
                    j <= n,
                    out@.len() == j,
                    array_len(json_tree(*days)) == Some(n),
                    forall|k: int|
                        0 <= k < j ==> github_day_read(
                            #[trigger] out@[k],
                            item(json_tree(*days), k as usize),
                        ),
                decreases n - j,
            {
                let day = github_day_of(json_item(days, j));
                out.push(day);
                j = j + 1;
            }
            GithubWeek { days: Some(out) }
        },
    }
}

/// Reads GitHub's answer: its errors and its weeks.
pub fn github_reply_of(v: &serde_json::Value) -> (r: GithubReply)
    ensures
        github_reply_read(r, json_tree(*v)),
{
    let errors = match json_get(v, "errors") {
        Some(e) => Some(json_text(e)),
        None => None,
    };
    let weeks = match github_weeks_value(v) {
        None => None,
        Some(w) => match array_length(w) {
            None => None,
            Some(n) => {
                let mut out: Vec<GithubWeek> = Vec::new();
                let mut i: usize = 0;
                while i < n
                    invariant
                        i <= n,
                        out@.len() == i,
                        array_len(json_tree(*w)) == Some(n),
                        forall|k: int|
                            0 <= k < i ==> github_week_read(
                                #[trigger] out@[k],
                                item(json_tree(*w), k as usize),
                            ),
                    decreases n - i,
                {
                    let week = github_week_of(json_item(w, i));
                    out.push(week);
                    i = i + 1;
                }
                Some(out)
            },
        },
    };
    GithubReply { errors, weeks }
}

/// Reads Gitea's heatmap: its entries when it is an array.
pub fn gitea_reply_of(v: &serde_json::Value) -> (r: Option<Vec<GiteaEntry>>)
    ensures
        gitea_reply_read(r, json_tree(*v)),
{
    match array_length(v) {
        None => None,
        Some(n) => {
            let mut out: Vec<GiteaEntry> = Vec::new();
            let mut i: usize = 0;
            while i < n
                invariant
                    i <= n,
                    out@.len() == i,
                    array_len(json_tree(*v)) == Some(n),
                    forall|k: int|
                        0 <= k < i ==> gitea_entry_read(
                            #[trigger] out@[k],
                            item(json_tree(*v), k as usize),
                        ),
                decreases n - i,
            {
                let e = json_item(v, i);
                let entry = GiteaEntry {
                    timestamp: i64_at(e, "timestamp"),
                    contributions: u64_at(e, "contributions"),
                };
                out.push(entry);
                i = i + 1;
            }
            Some(out)
        },
    }
}

/// The unsigned integer at `/push_data/commit_count` of an event.
fn commit_count_of(v: &serde_json::Value) -> (r: Option<u64>)
    ensures
        r == number_u64(step_in(step_in(Some(json_tree(*v)), "push_data"@), "commit_count"@)),
{
    let push = match json_get(v, "push_data") {
        Some(x) => x,
        None => return None,
    };
    match json_get(push, "commit_count") {
        Some(c) => match json_root(c) {
            JsonKind::Number(_, u, _) => u,
            _ => None,
        },
        None => None,
    }
}

/// Reads GitLab's events: the list when it is an array.
pub fn gitlab_reply_of(v: &serde_json::Value) -> (r: Option<Vec<GitlabEvent>>)
    ensures
        gitlab_reply_read(r, json_tree(*v)),
{
    match array_length(v) {
        None => None,
        Some(n) => {
            let mut out: Vec<GitlabEvent> = Vec::new();
            let mut i: usize = 0;
            while i < n
                invariant
                    i <= n,
                    out@.len() == i,
                    array_len(json_tree(*v)) == Some(n),
                    forall|k: int|
                        0 <= k < i ==> gitlab_event_read(
                            #[trigger] out@[k],
                            item(json_tree(*v), k as usize),
                        ),
                decreases n - i,
            {
                let e = json_item(v, i);
                let event = GitlabEvent {
                    action_name: text_at(e, "action_name"),
                    created_at: text_at(e, "created_at"),
                    commit_count: commit_count_of(e),
                };
                out.push(event);
                i = i + 1;
            }
            Some(out)
        },
    }
}

/// The week's counts from the text of GitHub's answer: a parse error with
/// `serde_json`'s message when the text is not JSON; otherwise what the
/// answer read from that JSON gives.
pub fn github_counts_from_text(dates: &[Day; 7], response: &str) -> (r: Result<
    [u32; 7],
    FetchError,
>)
    ensures
        match parsed_json(response@) {
            Err(e) => r matches Err(FetchError::Parse(m)) && m@ == e,
            Ok(t) => exists|reply: GithubReply|
                #[trigger] github_reply_read(reply, t) && github_outcome(*dates, reply, r),
        },
{
    match parse_json(response) {
        Err(e) => Err(FetchError::Parse(e)),
        Ok(v) => {
            let reply = github_reply_of(&v);
            let r = github_counts(dates, &reply);
            proof {
                let t = json_tree(v);
                assert(parsed_json(response@)->Ok_0 == t);
                assert(github_reply_read(reply, t) && github_outcome(*dates, reply, r));
            }
            r
        },
    }
}

/// The week's counts from the text of Gitea's answer: a parse error with
/// `serde_json`'s message when the text is not JSON; otherwise what the
/// heatmap read from that JSON gives.
pub fn gitea_counts_from_text(dates: &[Day; 7], response: &str) -> (r: Result<
    [u32; 7],
    FetchError,
>)
    ensures
        match parsed_json(response@) {
            Err(e) => r matches Err(FetchError::Parse(m)) && m@ == e,
            Ok(t) => exists|reply: Option<Vec<GiteaEntry>>|
                #[trigger] gitea_reply_read(reply, t) && gitea_outcome(*dates, reply, r),
        },
{
    match parse_json(response) {
        Err(e) => Err(FetchError::Parse(e)),
        Ok(v) => {
            let reply = gitea_reply_of(&v);
            let r = gitea_counts(dates, &reply);
            proof {
                let t = json_tree(v);
                assert(parsed_json(response@)->Ok_0 == t);
                assert(gitea_reply_read(reply, t) && gitea_outcome(*dates, reply, r));
            }
            r
        },
    }
}

/// The week's counts from the text of GitLab's answer: a parse error with
/// `serde_json`'s message when the text is not JSON; otherwise what the
/// events read from that JSON give.
pub fn gitlab_counts_from_text(dates: &[Day; 7], response: &str) -> (r: Result<
    [u32; 7],
    FetchError,
>)
    ensures
        match parsed_json(response@) {
            Err(e) => r matches Err(FetchError::Parse(m)) && m@ == e,
            Ok(t) => exists|reply: Option<Vec<GitlabEvent>>|
                #[trigger] gitlab_reply_read(reply, t) && gitlab_outcome(*dates, reply, r),
        },
{
    match parse_json(response) {
        Err(e) => Err(FetchError::Parse(e)),
        Ok(v) => {
            let reply = gitlab_reply_of(&v);
            let r = gitlab_counts(dates, &reply);
            proof {
                let t = json_tree(v);
                assert(parsed_json(response@)->Ok_0 == t);
                assert(gitlab_reply_read(reply, t) && gitlab_outcome(*dates, reply, r));
            }
            r
        },
    }
}

} // verus!
