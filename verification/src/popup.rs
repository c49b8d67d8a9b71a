//! The decisions of the panel applet: its popup's title and status line,
//! which box is highlighted, and how often the counts are refreshed.

use vstd::prelude::*;
use crate::weekly::cached::{age_text, cached_label, whole_seconds_between};
use crate::weekly::calendar::{rfc3339_moment, Day};
use crate::weekly::kinds::{service_label, ServiceType};
use crate::weekly::fetch::Contributions;
use crate::weekly::settings::{
    copy_settings, credentials_given, has_credentials, same_settings, Settings,
};

verus! {

/// The popup's heading: "Commits - " and the service's name.
pub fn popup_title(service_type: ServiceType) -> (r: String)
    ensures
        r@ == "Commits - "@ + service_label(service_type),
{
    String::from_str("Commits - ").concat(service_type.label())
}

/// The popup's status line: a notice without credentials, a notice while
/// refreshing, otherwise the age of cached counts when they are cached, and
/// none for fresh counts.
pub fn popup_status(settings: &Settings, refreshing: bool, cached_at: &Option<String>) -> (r:
    Option<String>)
    ensures
        !credentials_given(*settings) ==> (r matches Some(t) && t@ == "No commit data available"@),
        credentials_given(*settings) && refreshing ==> (r matches Some(t) && t@
            == "Refreshing..."@),
        credentials_given(*settings) && !refreshing ==> (r is Some <==> cached_at is Some),
        (credentials_given(*settings) && !refreshing && (cached_at matches Some(c) && rfc3339_moment(
            c@,
        ) is None)) ==> (r matches Some(t) && t@ == "Cached"@),
        (credentials_given(*settings) && !refreshing && (cached_at matches Some(c)
            && rfc3339_moment(c@) is Some)) ==> (r matches Some(t) && exists|
            now_seconds: int,
            now_nanos: int,
        |
            t@ == #[trigger] age_text(
                whole_seconds_between(
                    now_seconds,
                    now_nanos,
                    rfc3339_moment(cached_at->Some_0@)->Some_0.0,
                    rfc3339_moment(cached_at->Some_0@)->Some_0.1,
                ),
            )),
{
    if !has_credentials(settings) {
        Some(String::from_str("No commit data available"))
    } else if refreshing {
        Some(String::from_str("Refreshing..."))
    } else {
        match cached_at {
            Some(c) => Some(cached_label(c.as_str())),
            None => None,
        }
    }
}

/// Whether a day's box gets the highlighted border: the day is today and
/// highlighting is on.
pub fn highlights(settings: &Settings, day: Day, today: Day) -> (r: bool)
    ensures
        r == (settings.highlight_current_day && day == today),
{
    settings.highlight_current_day && day == today
}

/// How many seconds pass between refreshes: the configured interval, at least a minute.
pub fn refresh_period(settings: &Settings) -> (r: u64)
    ensures
        r == (if settings.refresh_interval < 60 {
            60
        } else {
            settings.refresh_interval
        }),
{
    if settings.refresh_interval < 60 {
        60
    } else {
        settings.refresh_interval
    }
}

/// What the applet holds between messages.
#[derive(Debug, Clone)]
pub struct AppletState {
    /// The settings the applet shows the week for.
    pub settings: Settings,
    /// The week shown.
    pub data: Contributions,
    /// Whether a fetch for the current settings is under way.
    pub refreshing: bool,
    /// The popup's surface, while it is open.
    pub popup: Option<u64>,
}

/// A message to the applet; the settings carried are those just read from disk.
#[derive(Debug, Clone)]
pub enum AppletEvent {
    /// The panel button was pressed; `new_popup` is the id a new popup would
    /// get, `main_window` the id of the panel's main window, if it has one.
    TogglePopup { new_popup: u64, main_window: Option<u64> },
    /// A popup surface was closed.
    PopupClosed(u64),
    /// "Refresh Now", or the refresh timer, with the settings read.
    Refresh(Settings),
    /// The settings poll, with the settings read.
    SettingsPoll(Settings),
    /// A fetch finished, for the settings it was started with.
    Loaded(Settings, Contributions),
    /// "Settings" was pressed.
    OpenSettings,
}

/// What the applet does after a message.
#[derive(Debug, Clone)]
pub enum AppletAction {
    /// Nothing.
    Nothing,
    /// Open a popup with this id, over the main window with that id.
    OpenPopup(u64, u64),
    /// Close the popup with this id.
    ClosePopup(u64),
    /// Fetch the week for these settings.
    Fetch(Settings),
    /// Start the settings window.
    LaunchSettings,
}

/// The applet after a message, and what it does: a button press closes an
/// open popup, or opens one over the main window when there is one; a refresh adopts the settings read and fetches;
/// a poll does the same only when the settings changed; a finished fetch is
/// shown only when it was for the current settings.
pub open spec fn applet_step(s: AppletState, e: AppletEvent, next: AppletState, action: AppletAction) -> bool {
    match e {
        AppletEvent::TogglePopup { new_popup, main_window } => match s.popup {
            Some(id) => next == AppletState { popup: None, ..s } && action == AppletAction::ClosePopup(id),
            None => match main_window {
                Some(main) => next == AppletState { popup: Some(new_popup), ..s } && action
                    == AppletAction::OpenPopup(new_popup, main),
                None => next == s && action == AppletAction::Nothing,
            },
        },
        AppletEvent::PopupClosed(id) => action == AppletAction::Nothing && if s.popup == Some(id) {
            next == AppletState { popup: None, ..s }
        } else {
            next == s
        },
        AppletEvent::Refresh(read) => next == AppletState { settings: read, refreshing: true, ..s }
            && action == AppletAction::Fetch(read),
        AppletEvent::SettingsPoll(read) => if same_settings(read, s.settings) {
            next == s && action == AppletAction::Nothing
        } else {
            next == AppletState { settings: read, refreshing: true, ..s } && action
                == AppletAction::Fetch(read)
        },
        AppletEvent::Loaded(requested, data) => action == AppletAction::Nothing && if same_settings(
            requested,
            s.settings,
        ) {
            next == AppletState { data: data, refreshing: false, ..s }
        } else {
            next == s
        },
        AppletEvent::OpenSettings => next == s && action == AppletAction::LaunchSettings,
    }
}

/// Applies a message to the applet and says what to do.
pub fn applet_update(state: &mut AppletState, event: AppletEvent) -> (action: AppletAction)
    ensures
        applet_step(*old(state), event, *final(state), action),
{
    match event {
        AppletEvent::TogglePopup { new_popup, main_window } => {
            match state.popup {
                Some(id) => {
                    state.popup = None;
                    AppletAction::ClosePopup(id)
                },
                None => match main_window {
                    Some(main) => {
                        state.popup = Some(new_popup);
                        AppletAction::OpenPopup(new_popup, main)
                    },
                    None => AppletAction::Nothing,
                },
            }
        },
        AppletEvent::PopupClosed(id) => {
            if state.popup == Some(id) {
                state.popup = None;
            }
            AppletAction::Nothing
        },
        AppletEvent::Refresh(read) => {
            let requested = copy_settings(&read);
            state.settings = read;
            state.refreshing = true;
            AppletAction::Fetch(requested)
        },
        AppletEvent::SettingsPoll(read) => {
            if read != state.settings {
                let requested = copy_settings(&read);
                state.settings = read;
                state.refreshing = true;
                AppletAction::Fetch(requested)
            } else {
                AppletAction::Nothing
            }
        },
        AppletEvent::Loaded(requested, data) => {
            if requested == state.settings {
                state.data = data;
                state.refreshing = false;
            }
            AppletAction::Nothing
        },
        AppletEvent::OpenSettings => AppletAction::LaunchSettings,
    }
}

/// A finished fetch replaces the week shown only when it was for the
/// settings shown, and only such a fetch ends the refresh.
pub proof fn law_only_current_answers_are_shown(
    s: AppletState,
    requested: Settings,
    data: Contributions,
    next: AppletState,
    action: AppletAction,
)
    requires
        applet_step(s, AppletEvent::Loaded(requested, data), next, action),
    ensures
        next.settings == s.settings,
        same_settings(requested, s.settings) ==> next.data == data && !next.refreshing,
        !same_settings(requested, s.settings) ==> next.data == s.data && next.refreshing
            == s.refreshing,
{
}

/// Every fetch the applet starts is for the settings it then shows, and
/// leaves it refreshing.
pub proof fn law_fetches_are_for_the_shown_settings(
    s: AppletState,
    e: AppletEvent,
    next: AppletState,
    wanted: Settings,
)
    requires
        applet_step(s, e, next, AppletAction::Fetch(wanted)),
    ensures
        next.settings == wanted,
        next.refreshing,
        next.data == s.data,
{
}

/// Closing the open popup forgets it: afterwards no popup is open, so the
/// next press of the panel button, with a main window, opens a new popup.
pub proof fn law_closed_popup_is_forgotten(
    s: AppletState,
    id: u64,
    closed: AppletState,
    on_close: AppletAction,
    new_popup: u64,
    main: u64,
    pressed: AppletState,
    on_press: AppletAction,
)
    requires
        s.popup == Some(id),
        applet_step(s, AppletEvent::PopupClosed(id), closed, on_close),
        applet_step(
            closed,
            AppletEvent::TogglePopup { new_popup, main_window: Some(main) },
            pressed,
            on_press,
        ),
    ensures
        closed.popup is None,
        on_press == AppletAction::OpenPopup(new_popup, main),
        pressed.popup == Some(new_popup),
{
}

/// The panel button alternates: with a main window, a press opens a popup
/// when none is open and closes the open one otherwise, so two presses leave
/// no popup open, whatever was open before the first.
pub proof fn law_button_toggles_the_popup(
    s: AppletState,
    first_id: u64,
    second_id: u64,
    main: u64,
    once: AppletState,
    a1: AppletAction,
    twice: AppletState,
    a2: AppletAction,
)
    requires
        s.popup is None,
        applet_step(s, AppletEvent::TogglePopup { new_popup: first_id, main_window: Some(main) }, once, a1),
        applet_step(
            once,
            AppletEvent::TogglePopup { new_popup: second_id, main_window: Some(main) },
            twice,
            a2,
        ),
    ensures
        once.popup == Some(first_id),
        a2 == AppletAction::ClosePopup(first_id),
        twice.popup is None,
        twice.settings == s.settings,
        twice.data == s.data,
{
}
} // verus!
