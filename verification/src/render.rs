//! Report rendering: pure formatting of the three output lines — long
//! text, short text, and a color keyed by playback status.

use crate::model::Color;
use crate::model::LoopStatus;
use crate::model::MetadataInfo;
use crate::model::PlaybackStatus;
use crate::model::PlayerInfo;
use crate::model::Report;
use crate::model::bus_name_suffix;
use crate::model::bus_prefix;
use crate::text::join_slash;
use crate::text::join_with_slash;
use crate::text::pad2;
use crate::text::padded2;
use vstd::prelude::*;
use vstd::string::StringExecFns;

verus! {

/// The color for each playback status: green while playing, orange while
/// paused, red when stopped.
pub open spec fn color_of(t: PlaybackStatus) -> Seq<char> {
    match t {
        PlaybackStatus::Playing => "#00ff00"@,
        PlaybackStatus::Paused => "#ffa500"@,
        PlaybackStatus::Stopped => "#ff0000"@,
    }
}

pub fn status_color(state: &PlaybackStatus) -> (r: Color)
    ensures
        r.0@ == color_of(*state),
{
    match *state {
        PlaybackStatus::Playing => Color("#00ff00"),
        PlaybackStatus::Paused => Color("#ffa500"),
        PlaybackStatus::Stopped => Color("#ff0000"),
    }
}

/// A second count as `MM:SS`, both parts zero-padded to two digits and
/// the minute part growing beyond two digits when it must.
pub open spec fn clock_text(secs: nat) -> Seq<char> {
    padded2(secs / 60) + ":"@ + padded2(secs % 60)
}

/// An optional second count as clock text, or an ellipsis when the
/// player reported none.
pub open spec fn opt_clock_text(d: Option<u64>) -> Seq<char> {
    match d {
        Some(s) => clock_text(s as nat),
        None => "..."@,
    }
}

/// The position/length line: both clocks separated by a slash.
pub open spec fn duration_text(position: Option<u64>, length: Option<u64>) -> Seq<char> {
    opt_clock_text(position) + " / "@ + opt_clock_text(length)
}

fn clock(secs: u64) -> (r: String)
    ensures
        r@ == clock_text(secs as nat),
{
    let mut s = pad2(secs / 60);
    s.append(":");
    let rest = pad2(secs % 60);
    s.append(rest.as_str());
    proof {
        assert(s@ =~= clock_text(secs as nat));
    }
    s
}

/// Renders the position and length of the current track, in whole
/// seconds, as `MM:SS / MM:SS`, with an ellipsis for either part the
/// player did not report.
pub fn duration(position: Option<u64>, length: Option<u64>) -> (r: String)
    ensures
        r@ == duration_text(position, length),
{
    let mut s = match position {
        Some(p) => clock(p),
        None => String::from_str("..."),
    };
    s.append(" / ");
    let rest = match length {
        Some(l) => clock(l),
        None => String::from_str("..."),
    };
    s.append(rest.as_str());
    proof {
        assert(s@ =~= duration_text(position, length));
    }
    s
}

/// The artist part of a track line: the artists joined with slashes, or
/// a placeholder when the list is absent or joins to nothing.
pub open spec fn artists_text(m: MetadataInfo) -> Seq<char> {
    match m.artists {
        Some(v) => if join_slash(v.deep_view()).len() == 0 {
            "unknown artist"@
        } else {
            join_slash(v.deep_view())
        },
        None => "unknown artist"@,
    }
}

/// The title part of a track line: the title, or a placeholder.
pub open spec fn title_text(m: MetadataInfo) -> Seq<char> {
    match m.title {
        Some(t) => t@,
        None => "untitled"@,
    }
}

/// The track line: artists and title separated by a dash.
pub open spec fn metadata_text(m: MetadataInfo) -> Seq<char> {
    artists_text(m) + " - "@ + title_text(m)
}

/// Renders the track line of a playing report.
pub fn metadata_string(m: &MetadataInfo) -> (r: String)
    ensures
        r@ == metadata_text(*m),
{
    let mut s: String = match &m.artists {
        Some(v) => {
            let joined = join_with_slash(v);
            if joined.as_str().is_empty() {
                String::from_str("unknown artist")
            } else {
                joined
            }
        },
        None => String::from_str("unknown artist"),
    };
    s.append(" - ");
    match &m.title {
        Some(t) => s.append(t.as_str()),
        None => s.append("untitled"),
    }
    proof {
        assert(s@ =~= metadata_text(*m));
    }
    s
}

/// The player-switch line: the identifier suffix in angle brackets.
pub open spec fn display_text(name: Seq<char>) -> Seq<char> {
    "<"@ + name.skip(bus_prefix().len() as int) + ">"@
}

/// Renders the player-switch report, or nothing when no other player
/// exists, since switching is meaningless with a single candidate.
pub fn display_player(player: &PlayerInfo, other_players: &Vec<PlayerInfo>) -> (r: Option<Report>)
    requires
        player.bus_name@.len() >= bus_prefix().len(),
        player.bus_name@.subrange(0, bus_prefix().len() as int) == bus_prefix(),
    ensures
        r is Some <==> other_players@.len() > 0,
        r matches Some(rep) ==> rep.long@ == display_text(player.bus_name@) && rep.short@
            == display_text(player.bus_name@) && rep.color.0@ == color_of(player.status),
{
    if other_players.len() == 0 {
        return None;
    }
    let suffix = bus_name_suffix(player.bus_name.as_str());
    let mut long = String::from_str("<");
    long.append(suffix.as_str());
    long.append(">");
    proof {
        assert(long@ =~= display_text(player.bus_name@));
    }
    let short = long.clone();
    Some(Report { long, short, color: status_color(&player.status) })
}

/// The long line of a playing report: the track line and the clocks
/// inside the status bar's markup.
pub open spec fn status_long_text(m: MetadataInfo, position: Option<u64>) -> Seq<char> {
    "🎹 <span font=\"Sarasa Gothic J 13\">"@ + metadata_text(m) + " ["@ + duration_text(
        position,
        m.length_secs,
    ) + "]</span>"@
}

/// Renders the playback report. While playing, the track metadata must
/// be supplied; while paused or stopped the report is a fixed marker.
pub fn status(t: PlaybackStatus, metadata: &Option<MetadataInfo>, position: Option<u64>) -> (r:
    Report)
    requires
        t is Playing ==> metadata is Some,
    ensures
        r.color.0@ == color_of(t),
        t is Paused ==> r.long@ == "⏸️ paused"@ && r.short@ == "⏸️"@,
        t is Stopped ==> r.long@ == "🛑 stopped"@ && r.short@ == "🛑"@,
        t is Playing ==> r.long@ == status_long_text((*metadata)->0, position) && r.short@
            == "🎹"@,
{
    match t {
        PlaybackStatus::Paused => Report {
            long: String::from_str("⏸️ paused"),
            short: String::from_str("⏸️"),
            color: status_color(&t),
        },
        PlaybackStatus::Stopped => Report {
            long: String::from_str("🛑 stopped"),
            short: String::from_str("🛑"),
            color: status_color(&t),
        },
        PlaybackStatus::Playing => {
            let m = metadata.as_ref().unwrap();
            let mut long = String::from_str("🎹 <span font=\"Sarasa Gothic J 13\">");
            let track = metadata_string(m);
            long.append(track.as_str());
            long.append(" [");
            let clocks = duration(position, m.length_secs);
            long.append(clocks.as_str());
            long.append("]</span>");
            proof {
                assert(long@ =~= status_long_text((*metadata)->0, position));
            }
            Report { long, short: String::from_str("🎹"), color: status_color(&t) }
        },
    }
}

/// The mode flags: a marker per active mode — shuffle, loop-one-track,
/// loop-the-playlist — in that order.
pub open spec fn modes_flags_text(l: LoopStatus, shuffle: bool) -> Seq<char> {
    (if shuffle {
        "🔀"@
    } else {
        Seq::<char>::empty()
    }) + (if l is Track {
        "🔂"@
    } else {
        Seq::<char>::empty()
    }) + (if l is Playlist {
        "🔁"@
    } else {
        Seq::<char>::empty()
    })
}

/// The long line of a modes report: the flags in brackets, or a filler
/// space when no mode is active.
pub open spec fn modes_long_text(l: LoopStatus, shuffle: bool) -> Seq<char> {
    "["@ + (if modes_flags_text(l, shuffle).len() == 0 {
        "　"@
    } else {
        modes_flags_text(l, shuffle)
    }) + "]"@
}

/// Renders the loop/shuffle report, or nothing unless the player is
/// playing. While playing, the loop and shuffle states must be supplied.
pub fn modes(t: PlaybackStatus, loop_status: Option<LoopStatus>, shuffle: Option<bool>) -> (r:
    Option<Report>)
    requires
        t is Playing ==> loop_status is Some && shuffle is Some,
    ensures
        r is Some <==> t is Playing,
        r matches Some(rep) ==> rep.long@ == modes_long_text(loop_status->0, shuffle->0)
            && rep.short@ == Seq::<char>::empty() && rep.color.0@ == color_of(t),
{
    if !matches!(t, PlaybackStatus::Playing) {
        return None;
    }
    let l = loop_status.unwrap();
    let sh = shuffle.unwrap();
    let mut flags = String::new();
    if sh {
        flags.append("🔀");
    }
    if matches!(l, LoopStatus::Track) {
        flags.append("🔂");
    }
    if matches!(l, LoopStatus::Playlist) {
        flags.append("🔁");
    }
    proof {
        assert(flags@ =~= modes_flags_text(l, sh));
    }
    let mut long = String::from_str("[");
    if flags.as_str().is_empty() {
        long.append("　");
    } else {
        long.append(flags.as_str());
    }
    long.append("]");
    proof {
        assert(long@ =~= modes_long_text(l, sh));
    }
    Some(Report { long, short: String::new(), color: status_color(&t) })
}

} // verus!
