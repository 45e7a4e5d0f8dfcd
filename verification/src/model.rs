//! The plain data that one invocation works over: a snapshot of each live
//! player, the persisted selection, and the small enums the click handlers
//! speak of.

use vstd::prelude::*;
use vstd::string::StrSliceExecFns;
use vstd::string::StringExecFns;

verus! {

/// Playback state of one player.
#[derive(Clone, Copy, PartialEq, Eq, Structural, Debug)]
pub enum PlaybackStatus {
    Playing,
    Paused,
    Stopped,
}

/// Loop mode of one player. `NoLoop` stands for looping switched off.
#[derive(Clone, Copy, PartialEq, Eq, Structural, Debug)]
pub enum LoopStatus {
    NoLoop,
    Track,
    Playlist,
}

/// What one invocation needs to know of a live player in order to select
/// among players: its stable bus identifier and its playback state.
pub struct PlayerInfo {
    pub bus_name: String,
    pub status: PlaybackStatus,
}

impl PlayerInfo {
    pub fn new(bus_name: String, status: PlaybackStatus) -> (r: PlayerInfo)
        ensures
            r.bus_name@ == bus_name@,
            r.status == status,
    {
        PlayerInfo { bus_name, status }
    }
}

/// The well-known bus-identifier prefix shared by every player.
pub open spec fn bus_prefix() -> Seq<char> {
    "org.mpris.MediaPlayer2."@
}

/// The identifier of the designated low-priority background player, which
/// the selection policy passes over whenever another player exists.
pub open spec fn reference_player() -> Seq<char> {
    "org.mpris.MediaPlayer2.mpd"@
}

pub fn bus_prefix_str() -> (r: &'static str)
    ensures
        r@ == bus_prefix(),
{
    "org.mpris.MediaPlayer2."
}

pub fn reference_player_str() -> (r: &'static str)
    ensures
        r@ == reference_player(),
{
    "org.mpris.MediaPlayer2.mpd"
}

/// Strips the well-known prefix from a full bus identifier, leaving the
/// suffix the selection store holds.
pub fn bus_name_suffix(name: &str) -> (r: String)
    requires
        name@.len() >= bus_prefix().len(),
        name@.subrange(0, bus_prefix().len() as int) == bus_prefix(),
    ensures
        r@ == name@.skip(bus_prefix().len() as int),
{
    let p = bus_prefix_str();
    let plen = p.unicode_len();
    let nlen = name.unicode_len();
    let suffix = name.substring_char(plen, nlen);
    proof {
        assert(suffix@ =~= name@.skip(bus_prefix().len() as int));
    }
    suffix.to_owned()
}

/// Restores the full bus identifier from the suffix the selection store
/// holds.
pub fn full_bus_name(suffix: &str) -> (r: String)
    ensures
        r@ == bus_prefix() + suffix@,
{
    let mut s = String::from_str(bus_prefix_str());
    s.append(suffix);
    s
}

/// An optional string as the contracts see it: absent reads as the empty
/// text. An absent selection record never matches a real identifier, and
/// an absent click code matches no button.
pub open spec fn opt_text(o: Option<String>) -> Seq<char> {
    match o {
        Option::Some(s) => s@,
        Option::None => Seq::<char>::empty(),
    }
}

/// The persisted selection as the contracts see it.
pub open spec fn stored_view(stored: Option<String>) -> Seq<char> {
    opt_text(stored)
}

/// A status-bar color, as a hex text.
pub struct Color(pub &'static str);

/// One rendered report: the three lines a successful invocation prints —
/// long text, short text, and a color keyed by playback status.
pub struct Report {
    pub long: String,
    pub short: String,
    pub color: Color,
}

/// What the report rendering needs to know of a track: the artist list,
/// the title, and the track length in whole seconds, each of which a
/// player may leave unset.
pub struct MetadataInfo {
    pub artists: Option<Vec<String>>,
    pub title: Option<String>,
    pub length_secs: Option<u64>,
}

/// Which report an invocation is asked to produce.
#[derive(Clone, Copy, PartialEq, Eq, Structural, Debug)]
pub enum Mode {
    Player,
    Status,
    Modes,
}

/// A transport control applied to the current player.
#[derive(Clone, Copy, PartialEq, Eq, Structural, Debug)]
pub enum TransportCommand {
    Stop,
    PlayPause,
    Previous,
    Next,
}

/// A capability-checked mutation of the current player's loop or shuffle
/// mode.
#[derive(Clone, Copy, PartialEq, Eq, Structural, Debug)]
pub enum ModeAction {
    SetLoop(LoopStatus),
    SetShuffle(bool),
}

} // verus!
