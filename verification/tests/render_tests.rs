use mpris_block::model::LoopStatus;
use mpris_block::model::MetadataInfo;
use mpris_block::model::PlaybackStatus;
use mpris_block::model::PlayerInfo;
use mpris_block::render::display_player;
use mpris_block::render::duration;
use mpris_block::render::metadata_string;
use mpris_block::render::modes;
use mpris_block::render::status;
use mpris_block::render::status_color;

fn player(name: &str, status: PlaybackStatus) -> PlayerInfo {
    PlayerInfo::new(format!("org.mpris.MediaPlayer2.{}", name), status)
}

#[test]
fn colors_follow_playback_status() {
    assert_eq!(status_color(&PlaybackStatus::Playing).0, "#00ff00");
    assert_eq!(status_color(&PlaybackStatus::Paused).0, "#ffa500");
    assert_eq!(status_color(&PlaybackStatus::Stopped).0, "#ff0000");
}

#[test]
fn duration_renders_both_clocks() {
    assert_eq!(duration(Some(125), Some(200)), "02:05 / 03:20");
}

#[test]
fn duration_renders_missing_parts_as_ellipsis() {
    assert_eq!(duration(None, Some(59)), "... / 00:59");
    assert_eq!(duration(Some(0), None), "00:00 / ...");
    assert_eq!(duration(None, None), "... / ...");
}

#[test]
fn duration_minutes_can_exceed_two_digits() {
    assert_eq!(duration(Some(60 * 100), None), "100:00 / ...");
}

#[test]
fn metadata_joins_artists_with_slashes() {
    let m = MetadataInfo {
        artists: Some(vec![String::from("A"), String::from("B")]),
        title: Some(String::from("T")),
        length_secs: None,
    };
    assert_eq!(metadata_string(&m), "A/B - T");
}

#[test]
fn metadata_falls_back_for_missing_parts() {
    let absent = MetadataInfo { artists: None, title: None, length_secs: None };
    assert_eq!(metadata_string(&absent), "unknown artist - untitled");
    let empty = MetadataInfo {
        artists: Some(Vec::new()),
        title: Some(String::from("T")),
        length_secs: None,
    };
    assert_eq!(metadata_string(&empty), "unknown artist - T");
}

#[test]
fn single_player_switch_report_renders_nothing() {
    let p = player("vlc", PlaybackStatus::Playing);
    let others: Vec<PlayerInfo> = Vec::new();
    assert!(display_player(&p, &others).is_none());
}

#[test]
fn switch_report_shows_identifier_suffix() {
    let p = player("vlc", PlaybackStatus::Paused);
    let others = vec![player("mpd", PlaybackStatus::Stopped)];
    let report = display_player(&p, &others).unwrap();
    assert_eq!(report.long, "<vlc>");
    assert_eq!(report.short, "<vlc>");
    assert_eq!(report.color.0, "#ffa500");
}

#[test]
fn paused_and_stopped_reports_are_fixed_markers() {
    let paused = status(PlaybackStatus::Paused, &None, None);
    assert_eq!(paused.long, "\u{23f8}\u{fe0f} paused");
    assert_eq!(paused.color.0, "#ffa500");
    let stopped = status(PlaybackStatus::Stopped, &None, None);
    assert_eq!(stopped.long, "\u{1f6d1} stopped");
    assert_eq!(stopped.color.0, "#ff0000");
}

#[test]
fn playing_report_holds_track_and_clocks() {
    let m = MetadataInfo {
        artists: Some(vec![String::from("A")]),
        title: Some(String::from("T")),
        length_secs: Some(200),
    };
    let report = status(PlaybackStatus::Playing, &Some(m), Some(125));
    assert_eq!(
        report.long,
        "\u{1f3b9} <span font=\"Sarasa Gothic J 13\">A - T [02:05 / 03:20]</span>"
    );
    assert_eq!(report.short, "\u{1f3b9}");
    assert_eq!(report.color.0, "#00ff00");
}

#[test]
fn modes_report_renders_nothing_unless_playing() {
    assert!(modes(PlaybackStatus::Paused, None, None).is_none());
    assert!(modes(PlaybackStatus::Stopped, None, None).is_none());
}

#[test]
fn modes_report_shows_active_flags() {
    let report = modes(
        PlaybackStatus::Playing,
        Some(LoopStatus::Playlist),
        Some(true),
    )
    .unwrap();
    assert_eq!(report.long, "[\u{1f500}\u{1f501}]");
    assert_eq!(report.short, "");
    assert_eq!(report.color.0, "#00ff00");
}

#[test]
fn modes_report_shows_filler_when_no_mode_is_active() {
    let report = modes(PlaybackStatus::Playing, Some(LoopStatus::NoLoop), Some(false)).unwrap();
    assert_eq!(report.long, "[\u{3000}]");
}

#[test]
fn modes_report_shows_track_loop_flag() {
    let report = modes(PlaybackStatus::Playing, Some(LoopStatus::Track), Some(false)).unwrap();
    assert_eq!(report.long, "[\u{1f502}]");
}
