# cosmic-weekly-commits

A panel applet that shows how many commits a user made on each of the last
seven days (or of the current week) on GitHub, Gitea/Forgejo or GitLab, as a
row of coloured boxes, with a popup listing the days.

- `src/` is the library, verified with Verus:
  - `weekly/kinds.rs`, `theme.rs`: the services, colour modes, week starts and
    themes, their labels and shades, and the colour of a day's box;
  - `weekly/calendar.rs`: the days shown, their keys and labels, and the
    calls into the `time` crate;
  - `weekly/url.rs`, `request.rs`: the percent-encoding of user names and the
    curl arguments of each host's request;
  - `weekly/json.rs`, `replies.rs`: the calls into `serde_json`, and the
    reading of each host's JSON answer;
  - `weekly/counts.rs`: the counting of each host's answer into the week;
  - `weekly/fetch.rs`, `settings.rs`, `cached.rs`: errors, the steps of a
    fetch with the cache as a fallback, the settings, and the "Cached ... ago"
    line;
  - `panel.rs`, `popup.rs`: the decisions of the settings window and of the
    applet.
- `app/` runs it without the COSMIC panel: files, curl, timers, the stored
  JSON of the settings and the cache, and printing.
- `tests/` holds the tests.

Settings are read from `$XDG_CONFIG_HOME/cosmic-weekly-commits/config.json`;
the fallback cache is `$XDG_CACHE_HOME/cosmic-weekly-commits/commits-cache-v1.json`.
