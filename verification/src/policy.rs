//! The selection policy: given the sorted list of live players and the
//! persisted selection, deterministically choose exactly one player to be
//! "current".
//!
//! The priority order encodes the product intent: keep an explicitly
//! picked player, else prefer whatever is audibly playing, else prefer a
//! foreground app over the background reference player, else show the
//! first player so that something is always shown.

use crate::model::PlaybackStatus;
use crate::model::PlayerInfo;
use crate::model::reference_player;
use crate::model::reference_player_str;
use crate::model::stored_view;
use crate::text::string_eq;
use vstd::prelude::*;
use vstd::string::StringExecFns;

verus! {

/// The first index at or after `i` whose player satisfies `pred`.
pub open spec fn find_from(
    players: Seq<PlayerInfo>,
    pred: spec_fn(PlayerInfo) -> bool,
    i: int,
) -> Option<int>
    decreases players.len() - i,
{
    if i < 0 || i >= players.len() {
        None
    } else if pred(players[i]) {
        Some(i)
    } else {
        find_from(players, pred, i + 1)
    }
}

pub open spec fn matches_stored(stored: Seq<char>) -> spec_fn(PlayerInfo) -> bool {
    |p: PlayerInfo| p.bus_name@ == stored
}

pub open spec fn is_playing() -> spec_fn(PlayerInfo) -> bool {
    |p: PlayerInfo| p.status is Playing
}

pub open spec fn is_non_reference() -> spec_fn(PlayerInfo) -> bool {
    |p: PlayerInfo| p.bus_name@ != reference_player()
}

/// The index the selection policy picks, consulting each step only when
/// every earlier step found nothing: exact match with the stored
/// identifier, first playing player, first non-reference player, first
/// player unconditionally. Absent only when the list is empty.
pub open spec fn pick_index(players: Seq<PlayerInfo>, stored: Seq<char>) -> Option<int> {
    if players.len() == 0 {
        None
    } else {
        match find_from(players, matches_stored(stored), 0) {
            Some(k) => Some(k),
            None => match find_from(players, is_playing(), 0) {
                Some(k) => Some(k),
                None => match find_from(players, is_non_reference(), 0) {
                    Some(k) => Some(k),
                    None => Some(0),
                },
            },
        }
    }
}

/// The player the selection policy picks.
pub open spec fn chosen(players: Seq<PlayerInfo>, stored: Seq<char>) -> Option<PlayerInfo> {
    match pick_index(players, stored) {
        Some(k) => Some(players[k]),
        None => None,
    }
}

/// What `find_from` found: an index in range whose player satisfies the
/// predicate with no earlier satisfying index, or a guarantee that no
/// index at or after `i` satisfies it.
pub proof fn lemma_find_from(players: Seq<PlayerInfo>, pred: spec_fn(PlayerInfo) -> bool, i: int)
    requires
        0 <= i <= players.len(),
    ensures
        match find_from(players, pred, i) {
            Some(k) => i <= k < players.len() && pred(players[k]) && (forall|j: int|
                i <= j < k ==> !pred(players[j])),
            None => forall|j: int| i <= j < players.len() ==> !pred(players[j]),
        },
    decreases players.len() - i,
{
    if i < players.len() && !pred(players[i]) {
        lemma_find_from(players, pred, i + 1);
    }
}

/// On a non-empty list the policy picks an index in range.
pub proof fn lemma_pick_index_in_range(players: Seq<PlayerInfo>, stored: Seq<char>)
    requires
        players.len() > 0,
    ensures
        pick_index(players, stored) matches Some(k) && 0 <= k < players.len(),
{
    lemma_find_from(players, matches_stored(stored), 0);
    lemma_find_from(players, is_playing(), 0);
    lemma_find_from(players, is_non_reference(), 0);
}

/// Law: the selection is a function of the player list and the stored
/// identifier alone, so two invocations over the same snapshot and the
/// same record choose the same player.
pub proof fn lemma_pick_deterministic(
    players: Seq<PlayerInfo>,
    stored: Seq<char>,
    r1: Option<PlayerInfo>,
    r2: Option<PlayerInfo>,
)
    requires
        r1 == chosen(players, stored),
        r2 == chosen(players, stored),
    ensures
        r1 == r2,
{
}

/// Law: a stored identifier that names a live player wins, whatever any
/// other player's playback status is.
pub proof fn lemma_pick_priority(players: Seq<PlayerInfo>, stored: Seq<char>)
    requires
        exists|i: int| 0 <= i < players.len() && players[i].bus_name@ == stored,
    ensures
        chosen(players, stored) matches Some(p) && p.bus_name@ == stored,
{
    let w = choose|i: int| 0 <= i < players.len() && players[i].bus_name@ == stored;
    assert(matches_stored(stored)(players[w]));
    lemma_find_from(players, matches_stored(stored), 0);
}

/// Law: when the stored identifier names no live player, the first
/// playing player is chosen.
pub proof fn lemma_pick_playing(players: Seq<PlayerInfo>, stored: Seq<char>)
    requires
        forall|i: int| 0 <= i < players.len() ==> players[i].bus_name@ != stored,
        exists|i: int| 0 <= i < players.len() && players[i].status is Playing,
    ensures
        chosen(players, stored) matches Some(p) && p.status is Playing,
        chosen(players, stored) == Some(players[find_from(players, is_playing(), 0)->0]),
{
    let w = choose|i: int| 0 <= i < players.len() && players[i].status is Playing;
    assert(is_playing()(players[w]));
    lemma_find_from(players, matches_stored(stored), 0);
    lemma_find_from(players, is_playing(), 0);
}

/// Law: with no stored match and nothing playing, a non-reference player
/// is chosen whenever one exists, so the background reference player is
/// passed over.
pub proof fn lemma_pick_non_reference(players: Seq<PlayerInfo>, stored: Seq<char>)
    requires
        forall|i: int| 0 <= i < players.len() ==> players[i].bus_name@ != stored,
        forall|i: int| 0 <= i < players.len() ==> !(players[i].status is Playing),
        exists|i: int| 0 <= i < players.len() && players[i].bus_name@ != reference_player(),
    ensures
        chosen(players, stored) matches Some(p) && p.bus_name@ != reference_player(),
{
    let w = choose|i: int| 0 <= i < players.len() && players[i].bus_name@ != reference_player();
    assert(is_non_reference()(players[w]));
    lemma_find_from(players, matches_stored(stored), 0);
    lemma_find_from(players, is_playing(), 0);
    lemma_find_from(players, is_non_reference(), 0);
}

/// Law: the policy returns a player whenever the list is non-empty, and
/// only an empty list yields no selection — in particular a lone,
/// non-playing reference player is still chosen.
pub proof fn lemma_pick_total(players: Seq<PlayerInfo>, stored: Seq<char>)
    ensures
        chosen(players, stored) is Some <==> players.len() > 0,
{
    if players.len() > 0 {
        lemma_pick_index_in_range(players, stored);
    }
}

/// Law: self-healing. When the identifiers are pairwise distinct, picking
/// once and persisting the chosen identifier makes the next invocation
/// over the same snapshot choose the very same player, now through the
/// exact-match step.
pub proof fn lemma_pick_self_healing(players: Seq<PlayerInfo>, stored: Seq<char>)
    requires
        players.len() > 0,
        forall|i: int, j: int|
            0 <= i < j < players.len() ==> players[i].bus_name@ != players[j].bus_name@,
    ensures
        chosen(players, stored) matches Some(p) && chosen(players, p.bus_name@) == Some(p),
{
    lemma_pick_index_in_range(players, stored);
    let k = pick_index(players, stored)->0;
    let p = players[k];
    assert(matches_stored(p.bus_name@)(players[k]));
    lemma_find_from(players, matches_stored(p.bus_name@), 0);
    let k2 = find_from(players, matches_stored(p.bus_name@), 0)->0;
    assert(players[k2].bus_name@ == p.bus_name@);
    if k2 < k {
        assert(players[k2].bus_name@ != players[k].bus_name@);
    }
    assert(k2 == k);
}

/// The position of the first player whose identifier equals `name`.
pub fn position_of_name(players: &Vec<PlayerInfo>, name: &String) -> (r: Option<usize>)
    ensures
        match r {
            Some(j) => find_from(players@, matches_stored(name@), 0) == Some(j as int),
            None => find_from(players@, matches_stored(name@), 0) is None,
        },
{
    let mut i: usize = 0;
    while i < players.len()
        invariant
            i <= players@.len(),
            find_from(players@, matches_stored(name@), 0) == find_from(
                players@,
                matches_stored(name@),
                i as int,
            ),
        decreases players@.len() - i,
    {
        if string_eq(&players[i].bus_name, name) {
            return Some(i);
        }
        i = i + 1;
    }
    None
}

fn position_playing(players: &Vec<PlayerInfo>) -> (r: Option<usize>)
    ensures
        match r {
            Some(j) => find_from(players@, is_playing(), 0) == Some(j as int),
            None => find_from(players@, is_playing(), 0) is None,
        },
{
    let mut i: usize = 0;
    while i < players.len()
        invariant
            i <= players@.len(),
            find_from(players@, is_playing(), 0) == find_from(players@, is_playing(), i as int),
        decreases players@.len() - i,
    {
        if matches!(players[i].status, PlaybackStatus::Playing) {
            return Some(i);
        }
        i = i + 1;
    }
    None
}

fn position_non_reference(players: &Vec<PlayerInfo>) -> (r: Option<usize>)
    ensures
        match r {
            Some(j) => find_from(players@, is_non_reference(), 0) == Some(j as int),
            None => find_from(players@, is_non_reference(), 0) is None,
        },
{
    let reference = String::from_str(reference_player_str());
    let mut i: usize = 0;
    while i < players.len()
        invariant
            i <= players@.len(),
            reference@ == reference_player(),
            find_from(players@, is_non_reference(), 0) == find_from(
                players@,
                is_non_reference(),
                i as int,
            ),
        decreases players@.len() - i,
    {
        if !string_eq(&players[i].bus_name, &reference) {
            return Some(i);
        }
        i = i + 1;
    }
    None
}

/// Picks the current player from the live list, removing it from the list
/// so that the remainder is exactly "the other players". Returns the
/// picked player together with whether the pick differs from the stored
/// identifier, in which case the caller must persist the new identifier
/// before the next invocation reads it. Returns nothing only when the
/// list is empty, which is the one case with no player to show.
pub fn pick_player(players: &mut Vec<PlayerInfo>, stored: &Option<String>) -> (r: Option<
    (PlayerInfo, bool),
>)
    ensures
        r is Some <==> old(players)@.len() > 0,
        old(players)@.len() == 0 ==> final (players)@ == old(players)@,
        r matches Some((p, changed)) ==> {
            &&& chosen(old(players)@, stored_view(*stored)) == Some(p)
            &&& changed == (p.bus_name@ != stored_view(*stored))
            &&& pick_index(old(players)@, stored_view(*stored)) matches Some(k)
                && final (players)@ == old(players)@.update(k, old(players)@.last()).drop_last()
        },
{
    let stored_name: String = match stored {
        Some(s) => s.clone(),
        None => String::new(),
    };
    let k: usize = match position_of_name(players, &stored_name) {
        Some(k) => k,
        None => match position_playing(players) {
            Some(k) => k,
            None => match position_non_reference(players) {
                Some(k) => k,
                None => {
                    if players.len() == 0 {
                        return None;
                    }
                    0
                },
            },
        },
    };
    proof {
        lemma_find_from(players@, matches_stored(stored_view(*stored)), 0);
        lemma_find_from(players@, is_playing(), 0);
        lemma_find_from(players@, is_non_reference(), 0);
        assert(pick_index(players@, stored_view(*stored)) == Some(k as int));
    }
    let player = players.swap_remove(k);
    let changed = !string_eq(&player.bus_name, &stored_name);
    Some((player, changed))
}

} // verus!
