//! The click-driven player switch: scrolling cycles through the sorted
//! player list, wrapping at both ends, and persists the newly selected
//! identifier instead of rendering a report.

use crate::model::PlayerInfo;
use crate::model::opt_text;
use crate::model::stored_view;
use crate::policy::find_from;
use crate::policy::lemma_find_from;
use crate::policy::matches_stored;
use crate::policy::position_of_name;
use crate::text::string_eq;
use vstd::prelude::*;
use vstd::string::StringExecFns;

verus! {

/// The position the stored identifier names in the list, defaulting to
/// the first position when the record is absent or names no live player.
pub open spec fn current_index(players: Seq<PlayerInfo>, stored: Seq<char>) -> int {
    match find_from(players, matches_stored(stored), 0) {
        Some(k) => k,
        None => 0,
    }
}

/// The position a click selects: scroll-up moves one back (wrapping from
/// the first position to the last), scroll-down moves one forward
/// (wrapping from the last to the first), and any other click code
/// selects nothing.
pub open spec fn cycle_target(
    players: Seq<PlayerInfo>,
    stored: Seq<char>,
    button: Seq<char>,
) -> Option<int>
    recommends
        players.len() > 0,
{
    let cur = current_index(players, stored);
    if button == "4"@ {
        Some(
            if cur == 0 {
                players.len() - 1
            } else {
                cur - 1
            },
        )
    } else if button == "5"@ {
        Some((cur + 1) % (players.len() as int))
    } else {
        None
    }
}

/// Applies one player-switch click: returns the position of the player
/// whose identifier the caller must persist, or nothing when the click
/// code is absent or not a scroll, in which case the caller falls through
/// to the normal report. Must only be invoked with at least one live
/// player.
pub fn action_player(players: &Vec<PlayerInfo>, stored: &Option<String>, button: &Option<String>) -> (r: Option<usize>)
    requires
        players@.len() > 0,
    ensures
        match r {
            Some(j) => cycle_target(players@, stored_view(*stored), opt_text(*button)) == Some(
                j as int,
            ) && j < players@.len(),
            None => cycle_target(players@, stored_view(*stored), opt_text(*button)) is None,
        },
{
    let stored_name: String = match stored {
        Some(s) => s.clone(),
        None => String::new(),
    };
    let cur: usize = match position_of_name(players, &stored_name) {
        Some(k) => k,
        None => 0,
    };
    let n = players.len();
    proof {
        lemma_find_from(players@, matches_stored(stored_name@), 0);
        assert(cur as int == current_index(players@, stored_view(*stored)));
        assert(cur < n);
    }
    let code: String = match button {
        Some(s) => s.clone(),
        None => String::new(),
    };
    if string_eq(&code, &String::from_str("4")) {
        if cur == 0 {
            Some(n - 1)
        } else {
            Some(cur - 1)
        }
    } else if string_eq(&code, &String::from_str("5")) {
        Some((cur + 1) % n)
    } else {
        None
    }
}

} // verus!
