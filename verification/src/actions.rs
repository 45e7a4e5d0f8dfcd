//! The click handlers for the playback and modes reports, and the report
//! mode selection: each maps a click code — a small integer as text — to
//! at most one action on the current player.

use crate::model::LoopStatus;
use crate::model::Mode;
use crate::model::ModeAction;
use crate::model::TransportCommand;
use crate::model::opt_text;
use crate::text::string_eq;
use vstd::prelude::*;
use vstd::string::StringExecFns;

verus! {

/// The report the environment asks for, or nothing for any unrecognized
/// value, on which the invocation prints nothing and exits cleanly.
pub open spec fn mode_of(s: Seq<char>) -> Option<Mode> {
    if s == "player"@ {
        Some(Mode::Player)
    } else if s == "status"@ {
        Some(Mode::Status)
    } else if s == "modes"@ {
        Some(Mode::Modes)
    } else {
        None
    }
}

pub fn parse_mode(s: &String) -> (r: Option<Mode>)
    ensures
        r == mode_of(s@),
{
    if string_eq(s, &String::from_str("player")) {
        Some(Mode::Player)
    } else if string_eq(s, &String::from_str("status")) {
        Some(Mode::Status)
    } else if string_eq(s, &String::from_str("modes")) {
        Some(Mode::Modes)
    } else {
        None
    }
}

/// The transport control each click code maps to in the playback report:
/// middle stops, right toggles play/pause, scroll-up goes to the previous
/// track, scroll-down to the next; anything else does nothing.
pub open spec fn transport_of(button: Seq<char>) -> Option<TransportCommand> {
    if button == "2"@ {
        Some(TransportCommand::Stop)
    } else if button == "3"@ {
        Some(TransportCommand::PlayPause)
    } else if button == "4"@ {
        Some(TransportCommand::Previous)
    } else if button == "5"@ {
        Some(TransportCommand::Next)
    } else {
        None
    }
}

/// Maps one click in the playback report to the transport control to
/// apply, or to nothing when the code is absent or unmapped.
pub fn action_status(button: &Option<String>) -> (r: Option<TransportCommand>)
    ensures
        r == transport_of(opt_text(*button)),
{
    let code: String = match button {
        Some(s) => s.clone(),
        None => String::new(),
    };
    if string_eq(&code, &String::from_str("2")) {
        Some(TransportCommand::Stop)
    } else if string_eq(&code, &String::from_str("3")) {
        Some(TransportCommand::PlayPause)
    } else if string_eq(&code, &String::from_str("4")) {
        Some(TransportCommand::Previous)
    } else if string_eq(&code, &String::from_str("5")) {
        Some(TransportCommand::Next)
    } else {
        None
    }
}

/// One of the two independent loop toggles: the playlist loop on or off.
pub open spec fn toggle_playlist_loop(l: LoopStatus) -> LoopStatus {
    if l is Playlist {
        LoopStatus::NoLoop
    } else {
        LoopStatus::Playlist
    }
}

/// The other loop toggle: between looping one track and the playlist.
pub open spec fn toggle_track_loop(l: LoopStatus) -> LoopStatus {
    if l is Track {
        LoopStatus::Playlist
    } else {
        LoopStatus::Track
    }
}

/// The mutation each click code maps to in the modes report: left
/// toggles the playlist loop, middle inverts the shuffle flag, right
/// toggles between track and playlist loop; anything else does nothing.
pub open spec fn mode_action_of(button: Seq<char>, l: LoopStatus, shuffle: bool) -> Option<
    ModeAction,
> {
    if button == "1"@ {
        Some(ModeAction::SetLoop(toggle_playlist_loop(l)))
    } else if button == "2"@ {
        Some(ModeAction::SetShuffle(!shuffle))
    } else if button == "3"@ {
        Some(ModeAction::SetLoop(toggle_track_loop(l)))
    } else {
        None
    }
}

/// Maps one click in the modes report, given the player's current loop
/// and shuffle state, to the capability-checked mutation to apply, or to
/// nothing when the code is absent or unmapped.
pub fn action_modes(button: &Option<String>, loop_status: LoopStatus, shuffle: bool) -> (r: Option<
    ModeAction,
>)
    ensures
        r == mode_action_of(opt_text(*button), loop_status, shuffle),
{
    let code: String = match button {
        Some(s) => s.clone(),
        None => String::new(),
    };
    if string_eq(&code, &String::from_str("1")) {
        let target = if matches!(loop_status, LoopStatus::Playlist) {
            LoopStatus::NoLoop
        } else {
            LoopStatus::Playlist
        };
        Some(ModeAction::SetLoop(target))
    } else if string_eq(&code, &String::from_str("2")) {
        Some(ModeAction::SetShuffle(!shuffle))
    } else if string_eq(&code, &String::from_str("3")) {
        let target = if matches!(loop_status, LoopStatus::Track) {
            LoopStatus::Playlist
        } else {
            LoopStatus::Track
        };
        Some(ModeAction::SetLoop(target))
    } else {
        None
    }
}

} // verus!
