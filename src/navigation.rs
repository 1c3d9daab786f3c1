//! Which view is shown and which of its rows is highlighted.
//!
//! Three views sit in a ring: groups, clients, streams. Switching views
//! drops the selection. Moving the selection reads the row count of the
//! active view from the snapshot at the time of the move, never from an
//! earlier one, and never leaves the selection outside `0..rows`.

use vstd::prelude::*;
use vstd::math::min;
use crate::snapcast::{SnapcastStatus, capped, flat_clients, lemma_flat_clients_len, total_clients};

verus! {

/// One of the three views.
#[derive(Debug, Clone, Copy, PartialEq, Eq, Structural)]
pub enum Tab {
    Groups,
    Clients,
    Streams,
}

/// The direction of a selection move.
#[derive(Debug, Clone, Copy, PartialEq, Eq, Structural)]
pub enum Direction {
    Up,
    Down,
}

/// Position of a view in the ring, from 0.
pub open spec fn tab_index(tab: Tab) -> int {
    match tab {
        Tab::Groups => 0,
        Tab::Clients => 1,
        Tab::Streams => 2,
    }
}

/// The view at position `i` of the ring, counted modulo 3.
pub open spec fn tab_at(i: int) -> Tab {
    if i % 3 == 0 {
        Tab::Groups
    } else if i % 3 == 1 {
        Tab::Clients
    } else {
        Tab::Streams
    }
}

/// Rows of `tab` in `status`; no snapshot has no rows.
pub open spec fn rows(tab: Tab, status: Option<SnapcastStatus>) -> nat {
    match status {
        None => 0,
        Some(s) => match tab {
            Tab::Groups => s.server.groups@.len(),
            Tab::Clients => capped(total_clients(s.server.groups@)),
            Tab::Streams => s.server.streams@.len(),
        },
    }
}

/// The selection after one move in `dir` over `n` rows: nothing to select
/// when there are no rows; the top row on the first move; otherwise one row
/// up or down, held inside `0..n`.
pub open spec fn step(selected: Option<usize>, n: nat, dir: Direction) -> Option<usize> {
    if n == 0 {
        None
    } else {
        match selected {
            None => Some(0),
            Some(i) => match dir {
                Direction::Up => Some((if i == 0 { 0 } else { min(i - 1, n - 1) }) as usize),
                Direction::Down => Some(min(i + 1, n - 1) as usize),
            },
        }
    }
}

/// The selection after `k` moves in `dir` over `n` rows.
pub open spec fn steps(selected: Option<usize>, n: nat, dir: Direction, k: nat) -> Option<usize>
    decreases k,
{
    if k == 0 {
        selected
    } else {
        step(steps(selected, n, dir, (k - 1) as nat), n, dir)
    }
}

/// After `k >= 1` moves up over `n > 0` rows some row is selected, and it is
/// no lower than row `n - k` (row 0 once `k >= n`).
proof fn lemma_up_bound(selected: Option<usize>, n: nat, k: nat)
    requires
        0 < n <= usize::MAX,
        k >= 1,
    ensures
        steps(selected, n, Direction::Up, k) is Some,
        steps(selected, n, Direction::Up, k)->0 <= if k >= n { 0 } else { n - k },
    decreases k,
{
    if k > 1 {
        lemma_up_bound(selected, n, (k - 1) as nat);
    }
}

/// After `k >= 1` moves down over `n > 0` rows some row is selected, inside
/// `0..n` and at least row `k - 1` (row `n - 1` once `k >= n`).
proof fn lemma_down_bound(selected: Option<usize>, n: nat, k: nat)
    requires
        0 < n <= usize::MAX,
        k >= 1,
    ensures
        steps(selected, n, Direction::Down, k) is Some,
        steps(selected, n, Direction::Down, k)->0 < n,
        steps(selected, n, Direction::Down, k)->0 >= if k >= n { n - 1 } else { k - 1 },
    decreases k,
{
    if k > 1 {
        lemma_down_bound(selected, n, (k - 1) as nat);
    }
}

/// Over `n > 0` rows, moving up from any selection reaches the top row
/// within `n` moves and stays there on every further move.
pub proof fn lemma_repeated_up_reaches_top(selected: Option<usize>, n: nat, k: nat)
    requires
        0 < n <= usize::MAX,
        k >= n,
    ensures
        steps(selected, n, Direction::Up, k) == Some(0usize),
        step(Some(0usize), n, Direction::Up) == Some(0usize),
{
    lemma_up_bound(selected, n, k);
}

/// Over `n > 0` rows, moving down from any selection reaches the bottom row
/// `n - 1` within `n` moves and stays there on every further move.
pub proof fn lemma_repeated_down_reaches_bottom(selected: Option<usize>, n: nat, k: nat)
    requires
        0 < n <= usize::MAX,
        k >= n,
    ensures
        steps(selected, n, Direction::Down, k) == Some((n - 1) as usize),
        step(Some((n - 1) as usize), n, Direction::Down) == Some((n - 1) as usize),
{
    lemma_down_bound(selected, n, k);
}

/// Over no rows, every move leaves nothing selected.
pub proof fn lemma_no_rows_no_selection(selected: Option<usize>, dir: Direction, k: nat)
    requires
        k >= 1,
    ensures
        steps(selected, 0, dir, k) is None,
{
}

/// The client view has one row per entry of the flattened client list, that
/// is, the sum of the client counts of all groups, wherever that sum fits in
/// a `usize`.
pub proof fn lemma_client_rows_are_flattened_count(s: SnapcastStatus)
    requires
        total_clients(s.server.groups@) <= usize::MAX,
    ensures
        rows(Tab::Clients, Some(s)) == total_clients(s.server.groups@),
        rows(Tab::Clients, Some(s)) == flat_clients(s.server.groups@).len(),
{
    lemma_flat_clients_len(s.server.groups@);
}

impl Tab {
    /// Position of this view in the ring.
    pub fn index(&self) -> (r: usize)
        ensures
            r == tab_index(*self),
    {
        match self {
            Tab::Groups => 0,
            Tab::Clients => 1,
            Tab::Streams => 2,
        }
    }

    /// The view at position `i` of the ring, counted modulo 3.
    pub fn from_index(i: usize) -> (r: Tab)
        ensures
            r == tab_at(i as int),
    {
        let k = i % 3;
        if k == 0 {
            Tab::Groups
        } else if k == 1 {
            Tab::Clients
        } else {
            Tab::Streams
        }
    }
}

/// Number of rows that `tab` shows for `status`.
pub fn row_count(tab: Tab, status: &Option<SnapcastStatus>) -> (r: usize)
    ensures
        r == rows(tab, *status),
{
    match status {
        None => 0,
        Some(s) => match tab {
            Tab::Groups => s.server.group_count(),
            Tab::Clients => s.server.client_count(),
            Tab::Streams => s.server.stream_count(),
        },
    }
}

/// The active view and the highlighted row within it, if any.
#[derive(Debug, Clone, Copy, PartialEq, Eq)]
pub struct Navigation {
    pub current_tab: Tab,
    pub selected_item: Option<usize>,
}

impl Navigation {
    /// The groups view with nothing selected.
    pub fn new() -> (r: Navigation)
        ensures
            r.current_tab == Tab::Groups,
            r.selected_item is None,
    {
        Navigation { current_tab: Tab::Groups, selected_item: None }
    }

    /// Moves `delta` views along the ring, wrapping at both ends, and drops
    /// the selection.
    pub fn switch_view(&mut self, delta: i8)
        ensures
            final(self).current_tab == tab_at(tab_index(old(self).current_tab) + delta),
            tab_index(final(self).current_tab) == (tab_index(old(self).current_tab) + delta) % 3,
            final(self).selected_item is None,
    {
        let shifted: i16 = self.current_tab.index() as i16 + delta as i16;
        let wrapped: i16 = shifted % 3;
        let k: usize = if wrapped < 0 {
            (wrapped + 3) as usize
        } else {
            wrapped as usize
        };
        proof {
            let s = tab_index(old(self).current_tab) + delta;
            assert(s % 3 == k as int) by {
                assert(s == shifted as int);
                assert(wrapped as int == s - 3 * (s / 3) || wrapped as int == s - 3 * (s / 3) - 3);
            }
        }
        self.current_tab = Tab::from_index(k);
        self.selected_item = None;
    }

    /// Shows `tab` and drops the selection.
    pub fn switch_view_to(&mut self, tab: Tab)
        ensures
            final(self).current_tab == tab,
            final(self).selected_item is None,
    {
        self.current_tab = tab;
        self.selected_item = None;
    }

    /// Moves the selection one row in `dir` within the active view, whose
    /// row count is read from `status` now.
    pub fn move_selection(&mut self, dir: Direction, status: &Option<SnapcastStatus>)
        ensures
            final(self).current_tab == old(self).current_tab,
            final(self).selected_item == step(
                old(self).selected_item,
                rows(old(self).current_tab, *status),
                dir,
            ),
            rows(old(self).current_tab, *status) == 0 ==> final(self).selected_item is None,
            final(self).selected_item matches Some(i) ==> i < rows(old(self).current_tab, *status),
    {
        let n = row_count(self.current_tab, status);
        if n == 0 {
            self.selected_item = None;
        } else {
            let last = n - 1;
            self.selected_item = match self.selected_item {
                None => Some(0),
                Some(i) => match dir {
                    Direction::Up => if i == 0 {
                        Some(0)
                    } else if i - 1 < last {
                        Some(i - 1)
                    } else {
                        Some(last)
                    },
                    Direction::Down => if i < last && i + 1 < last {
                        Some(i + 1)
                    } else {
                        Some(last)
                    },
                },
            };
        }
    }
}

} // verus!
