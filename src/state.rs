//! The dashboard's state between key presses: the connection state kept by
//! the synchronizer, the navigation state, and the messages shown in the
//! footer.
//!
//! Every change goes through a method here. The caller performs the work
//! these methods ask for (fetching a snapshot, reading the clock, reading a
//! key) and hands the result back.

use vstd::prelude::*;
use crate::navigation::{Direction, Navigation, Tab, rows, step, tab_at, tab_index};
use crate::protocol::{ConnectError, error_text};
use crate::snapcast::{SnapcastClient, SnapcastStatus};

verus! {

/// Time from a failed attempt to the next automatic one, in milliseconds.
pub const RETRY_INTERVAL_MS: u64 = 5000;

/// How long footer messages stay after the last attempt, in milliseconds.
pub const MESSAGE_LIFETIME_MS: u64 = 3000;

/// What the header says about the connection.
#[derive(Debug, Clone, Copy, PartialEq, Eq, Structural)]
pub enum ConnectionStatus {
    /// A snapshot is held and the last attempt succeeded.
    Connected,
    /// No snapshot yet and no error.
    Connecting,
    /// The last attempt failed; an older snapshot may still be shown.
    Disconnected,
}

/// A key as the dashboard reads it.
#[derive(Debug, Clone, Copy, PartialEq, Eq, Structural)]
pub enum Key {
    Char(char),
    Left,
    Right,
    Up,
    Down,
    Other,
}

/// Work that a key press asks of the caller.
#[derive(Debug, Clone, Copy, PartialEq, Eq, Structural)]
pub enum InputAction {
    Nothing,
    /// Fetch a snapshot now and report it with [`App::finish_refresh`].
    Refresh,
}

/// The whole dashboard state. Times are milliseconds on a clock that does
/// not go back.
#[derive(Debug)]
pub struct App {
    pub should_quit: bool,
    pub snapcast_client: SnapcastClient,
    pub navigation: Navigation,
    pub connection_error: Option<String>,
    pub last_connection_attempt: u64,
    pub error_message: Option<String>,
    pub info_message: Option<String>,
}

/// Milliseconds from `since` to `now`; a reading before `since` counts as
/// none elapsed.
pub open spec fn elapsed(since: u64, now: u64) -> int {
    if now >= since {
        now - since
    } else {
        0
    }
}

/// The stored error after an attempt that failed with `e`.
pub open spec fn connection_error_text(e: ConnectError) -> Seq<char> {
    "Connection error: "@ + error_text(e)
}

/// The footer message after an automatic retry that failed with `e`.
pub open spec fn retry_failed_text(e: ConnectError) -> Seq<char> {
    "Connection attempt failed: "@ + error_text(e)
}

/// The footer message after a requested refresh that failed with `e`.
pub open spec fn refresh_failed_text(e: ConnectError) -> Seq<char> {
    "Error refreshing Snapcast status: "@ + error_text(e)
}

/// `after` is `before` after one attempt at `now` that ended in `outcome`,
/// leaving the footer messages aside: the attempt time is `now`; a snapshot
/// replaces the old one whole and clears the stored error; an error is
/// stored and the old snapshot, if any, is kept. Nothing else changes.
pub open spec fn refreshed(
    before: App,
    after: App,
    now: u64,
    outcome: Result<SnapcastStatus, ConnectError>,
) -> bool {
    &&& after.last_connection_attempt == now
    &&& after.should_quit == before.should_quit
    &&& after.navigation == before.navigation
    &&& after.snapcast_client.url == before.snapcast_client.url
    &&& match outcome {
        Ok(s) => {
            &&& after.snapcast_client.status == Some(s)
            &&& after.connection_error is None
        },
        Err(e) => {
            &&& after.snapcast_client.status == before.snapcast_client.status
            &&& after.connection_error matches Some(m) && m@ == connection_error_text(e)
        },
    }
}

/// What the header shows: an error means disconnected, whether or not an
/// older snapshot is still held; otherwise a snapshot means connected.
pub open spec fn status_of(app: App) -> ConnectionStatus {
    if app.connection_error is Some {
        ConnectionStatus::Disconnected
    } else if app.snapcast_client.status is Some {
        ConnectionStatus::Connected
    } else {
        ConnectionStatus::Connecting
    }
}

/// The navigation state after `key`, with `status` as the snapshot held.
pub open spec fn navigated(nav: Navigation, key: Key, status: Option<SnapcastStatus>) -> Navigation {
    match key {
        Key::Left => Navigation {
            current_tab: tab_at(tab_index(nav.current_tab) - 1),
            selected_item: None,
        },
        Key::Right => Navigation {
            current_tab: tab_at(tab_index(nav.current_tab) + 1),
            selected_item: None,
        },
        Key::Up => Navigation {
            current_tab: nav.current_tab,
            selected_item: step(nav.selected_item, rows(nav.current_tab, status), Direction::Up),
        },
        Key::Down => Navigation {
            current_tab: nav.current_tab,
            selected_item: step(nav.selected_item, rows(nav.current_tab, status), Direction::Down),
        },
        Key::Char(c) => if c == 'g' {
            Navigation { current_tab: Tab::Groups, selected_item: None }
        } else if c == 'c' {
            Navigation { current_tab: Tab::Clients, selected_item: None }
        } else if c == 's' {
            Navigation { current_tab: Tab::Streams, selected_item: None }
        } else {
            nav
        },
        Key::Other => nav,
    }
}

/// A key that ends the dashboard.
pub open spec fn is_quit_key(key: Key) -> bool {
    key == Key::Char('q') || key == Key::Char('Q')
}

/// A failed refresh keeps the snapshot and the navigation state as they
/// were, and stores an error message that is not empty.
pub proof fn lemma_failed_refresh_keeps_state(
    before: App,
    after: App,
    now: u64,
    e: ConnectError,
)
    requires
        refreshed(before, after, now, Err(e)),
    ensures
        after.snapcast_client.status == before.snapcast_client.status,
        after.navigation.selected_item == before.navigation.selected_item,
        after.navigation.current_tab == before.navigation.current_tab,
        after.connection_error matches Some(m) && m@.len() > 0,
{
    lemma_connection_error_text_not_empty(e);
}

/// A successful refresh installs the fetched snapshot whole and clears the
/// stored error, whatever the state before, a failed attempt included.
pub proof fn lemma_successful_refresh_replaces_snapshot(
    before: App,
    after: App,
    now: u64,
    s: SnapcastStatus,
)
    requires
        refreshed(before, after, now, Ok(s)),
    ensures
        after.snapcast_client.status == Some(s),
        after.connection_error is None,
        status_of(after) == ConnectionStatus::Connected,
{
}

/// The stored error is never empty.
pub proof fn lemma_connection_error_text_not_empty(e: ConnectError)
    ensures
        connection_error_text(e).len() > 0,
{
    reveal_strlit("Connection error: ");
}

/// `prefix` followed by the text of `e`.
fn prefixed_error(prefix: &str, e: &ConnectError) -> (r: String)
    ensures
        r@ == prefix@ + error_text(*e),
{
    let mut text = String::from_str(prefix);
    let detail = e.describe();
    text.append(detail.as_str());
    text
}

impl App {
    /// The state at start-up, at time `now`: the groups view with nothing
    /// selected, no snapshot, no error, no message.
    pub fn new(url: String, now: u64) -> (r: App)
        ensures
            r.should_quit == false,
            r.snapcast_client.url@ == url@,
            r.snapcast_client.status is None,
            r.navigation.current_tab == Tab::Groups,
            r.navigation.selected_item is None,
            r.connection_error is None,
            r.last_connection_attempt == now,
            r.error_message is None,
            r.info_message is None,
    {
        App {
            should_quit: false,
            snapcast_client: SnapcastClient::new(url),
            navigation: Navigation::new(),
            connection_error: None,
            last_connection_attempt: now,
            error_message: None,
            info_message: None,
        }
    }

    /// Records an attempt made at `now` that ended in `outcome`. A snapshot
    /// is installed and the stored error cleared; an error is stored, shown
    /// in the footer and returned, and the old snapshot stays.
    pub fn attempt_connection(
        &mut self,
        now: u64,
        outcome: Result<SnapcastStatus, ConnectError>,
    ) -> (r: Result<(), ConnectError>)
        ensures
            refreshed(*old(self), *final(self), now, outcome),
            final(self).info_message == old(self).info_message,
            match outcome {
                Ok(_) => {
                    &&& final(self).error_message == old(self).error_message
                    &&& r is Ok
                },
                Err(e) => {
                    &&& final(self).error_message matches Some(m) && m@ == connection_error_text(e)
                    &&& connection_error_text(e).len() > 0
                    &&& r == Err::<(), ConnectError>(e)
                },
            },
    {
        self.last_connection_attempt = now;
        match outcome {
            Ok(s) => {
                self.snapcast_client.status = Some(s);
                self.connection_error = None;
                Ok(())
            },
            Err(e) => {
                proof {
                    lemma_connection_error_text_not_empty(e);
                }
                let text = prefixed_error("Connection error: ", &e);
                self.connection_error = Some(text.clone());
                self.error_message = Some(text);
                Err(e)
            },
        }
    }

    /// Records an automatic retry made at `now`, and says in the footer how
    /// it went.
    pub fn finish_retry(&mut self, now: u64, outcome: Result<SnapcastStatus, ConnectError>)
        ensures
            refreshed(*old(self), *final(self), now, outcome),
            match outcome {
                Ok(_) => {
                    &&& final(self).error_message is None
                    &&& final(self).info_message matches Some(m) && m@
                        == "Connection attempt successful"@
                },
                Err(e) => {
                    &&& final(self).error_message matches Some(m) && m@ == retry_failed_text(e)
                    &&& final(self).info_message is None
                },
            },
    {
        match self.attempt_connection(now, outcome) {
            Ok(()) => {
                self.info_message = Some(String::from_str("Connection attempt successful"));
                self.error_message = None;
            },
            Err(e) => {
                self.error_message = Some(prefixed_error("Connection attempt failed: ", &e));
                self.info_message = None;
            },
        }
    }

    /// Records a refresh that the operator asked for, made at `now`, and
    /// says in the footer how it went.
    pub fn finish_refresh(&mut self, now: u64, outcome: Result<SnapcastStatus, ConnectError>)
        ensures
            refreshed(*old(self), *final(self), now, outcome),
            match outcome {
                Ok(_) => {
                    &&& final(self).error_message is None
                    &&& final(self).info_message matches Some(m) && m@
                        == "Successfully refreshed Snapcast status"@
                },
                Err(e) => {
                    &&& final(self).error_message matches Some(m) && m@ == refresh_failed_text(e)
                    &&& final(self).info_message == old(self).info_message
                },
            },
    {
        match self.attempt_connection(now, outcome) {
            Ok(()) => {
                self.info_message = Some(
                    String::from_str("Successfully refreshed Snapcast status"),
                );
                self.error_message = None;
            },
            Err(e) => {
                self.error_message = Some(prefixed_error("Error refreshing Snapcast status: ", &e));
            },
        }
    }

    /// Whether an automatic retry is due at `now`: an error is stored and
    /// the retry interval has passed since the last attempt.
    pub fn retry_due(&self, now: u64) -> (r: bool)
        ensures
            r == (self.connection_error is Some && elapsed(self.last_connection_attempt, now)
                >= RETRY_INTERVAL_MS),
    {
        self.connection_error.is_some() && now.saturating_sub(self.last_connection_attempt)
            >= RETRY_INTERVAL_MS
    }

    /// Clears the footer messages once they have been up for their lifetime,
    /// counted from the last attempt.
    pub fn expire_messages(&mut self, now: u64)
        ensures
            elapsed(old(self).last_connection_attempt, now) >= MESSAGE_LIFETIME_MS ==> {
                &&& final(self).error_message is None
                &&& final(self).info_message is None
            },
            elapsed(old(self).last_connection_attempt, now) < MESSAGE_LIFETIME_MS ==> {
                &&& final(self).error_message == old(self).error_message
                &&& final(self).info_message == old(self).info_message
            },
            final(self).should_quit == old(self).should_quit,
            final(self).snapcast_client == old(self).snapcast_client,
            final(self).navigation == old(self).navigation,
            final(self).connection_error == old(self).connection_error,
            final(self).last_connection_attempt == old(self).last_connection_attempt,
    {
        if self.error_message.is_some() || self.info_message.is_some() {
            if now.saturating_sub(self.last_connection_attempt) >= MESSAGE_LIFETIME_MS {
                self.error_message = None;
                self.info_message = None;
            }
        }
    }

    /// What the header says about the connection.
    pub fn connection_status(&self) -> (r: ConnectionStatus)
        ensures
            r == status_of(*self),
    {
        if self.connection_error.is_some() {
            ConnectionStatus::Disconnected
        } else if self.snapcast_client.status.is_some() {
            ConnectionStatus::Connected
        } else {
            ConnectionStatus::Connecting
        }
    }
}

/// Applies one key press: `q` or `Q` asks to quit; left and right step
/// through the views, wrapping; `g`, `c` and `s` pick the groups, clients
/// and streams view; up and down move the selection over the rows of the
/// snapshot held now; `r` asks the caller for a refresh. The connection
/// state and the messages are left alone.
pub fn handle_input(app: &mut App, key: Key) -> (r: InputAction)
    ensures
        final(app).should_quit == (old(app).should_quit || is_quit_key(key)),
        final(app).navigation == navigated(
            old(app).navigation,
            key,
            old(app).snapcast_client.status,
        ),
        r == (if key == Key::Char('r') {
            InputAction::Refresh
        } else {
            InputAction::Nothing
        }),
        final(app).snapcast_client == old(app).snapcast_client,
        final(app).connection_error == old(app).connection_error,
        final(app).last_connection_attempt == old(app).last_connection_attempt,
        final(app).error_message == old(app).error_message,
        final(app).info_message == old(app).info_message,
{
    match key {
        Key::Char(c) => {
            if c == 'q' || c == 'Q' {
                app.should_quit = true;
            } else if c == 'g' {
                app.navigation.switch_view_to(Tab::Groups);
            } else if c == 'c' {
                app.navigation.switch_view_to(Tab::Clients);
            } else if c == 's' {
                app.navigation.switch_view_to(Tab::Streams);
            } else if c == 'r' {
                return InputAction::Refresh;
            }
        },
        Key::Left => app.navigation.switch_view(-1),
        Key::Right => app.navigation.switch_view(1),
        Key::Up => app.navigation.move_selection(Direction::Up, &app.snapcast_client.status),
        Key::Down => app.navigation.move_selection(Direction::Down, &app.snapcast_client.status),
        Key::Other => {},
    }
    InputAction::Nothing
}

} // verus!
