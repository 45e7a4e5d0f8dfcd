use mpris_block::model::PlaybackStatus;
use mpris_block::model::PlayerInfo;

fn player(name: &str, status: PlaybackStatus) -> PlayerInfo {
    PlayerInfo::new(String::from(name), status)
}

fn full(suffix: &str) -> String {
    format!("org.mpris.MediaPlayer2.{}", suffix)
}

#[test]
fn pick_is_deterministic() {
    let stored = Some(full("vlc"));
    let mut players1 = vec![
        player(&full("mpd"), PlaybackStatus::Stopped),
        player(&full("spotify"), PlaybackStatus::Playing),
        player(&full("vlc"), PlaybackStatus::Paused),
    ];
    let mut players2 = vec![
        player(&full("mpd"), PlaybackStatus::Stopped),
        player(&full("spotify"), PlaybackStatus::Playing),
        player(&full("vlc"), PlaybackStatus::Paused),
    ];
    let (p1, c1) = mpris_block::policy::pick_player(&mut players1, &stored).unwrap();
    let (p2, c2) = mpris_block::policy::pick_player(&mut players2, &stored).unwrap();
    assert_eq!(p1.bus_name, p2.bus_name);
    assert_eq!(c1, c2);
}

#[test]
fn stored_match_wins_over_playing() {
    let stored = Some(full("x"));
    let mut players = vec![
        player(&full("x"), PlaybackStatus::Paused),
        player(&full("y"), PlaybackStatus::Playing),
    ];
    let (p, changed) = mpris_block::policy::pick_player(&mut players, &stored).unwrap();
    assert_eq!(p.bus_name, full("x"));
    assert!(!changed);
    assert_eq!(players.len(), 1);
    assert_eq!(players[0].bus_name, full("y"));
}

#[test]
fn falls_back_to_playing_player() {
    let stored = Some(String::new());
    let mut players = vec![
        player(&full("a"), PlaybackStatus::Stopped),
        player(&full("b"), PlaybackStatus::Playing),
    ];
    let (p, changed) = mpris_block::policy::pick_player(&mut players, &stored).unwrap();
    assert_eq!(p.bus_name, full("b"));
    assert!(changed);
}

#[test]
fn falls_back_to_playing_player_when_record_absent() {
    let mut players = vec![
        player(&full("a"), PlaybackStatus::Stopped),
        player(&full("b"), PlaybackStatus::Playing),
    ];
    let (p, changed) = mpris_block::policy::pick_player(&mut players, &None).unwrap();
    assert_eq!(p.bus_name, full("b"));
    assert!(changed);
}

#[test]
fn passes_over_reference_player() {
    let mut players = vec![
        player(&full("mpd"), PlaybackStatus::Stopped),
        player(&full("vlc"), PlaybackStatus::Stopped),
    ];
    let (p, _) = mpris_block::policy::pick_player(&mut players, &None).unwrap();
    assert_eq!(p.bus_name, full("vlc"));
}

#[test]
fn lone_reference_player_is_still_chosen() {
    let mut players = vec![player(&full("mpd"), PlaybackStatus::Stopped)];
    let (p, changed) = mpris_block::policy::pick_player(&mut players, &None).unwrap();
    assert_eq!(p.bus_name, full("mpd"));
    assert!(changed);
    assert!(players.is_empty());
}

#[test]
fn empty_list_picks_nothing() {
    let mut players: Vec<PlayerInfo> = Vec::new();
    assert!(mpris_block::policy::pick_player(&mut players, &None).is_none());
}

#[test]
fn self_healing_pick_repeats_through_exact_match() {
    let mut players = vec![
        player(&full("mpd"), PlaybackStatus::Stopped),
        player(&full("vlc"), PlaybackStatus::Stopped),
    ];
    let (p, changed) = mpris_block::policy::pick_player(&mut players, &None).unwrap();
    assert!(changed);
    let repaired = Some(p.bus_name.clone());
    let mut players_again = vec![
        player(&full("mpd"), PlaybackStatus::Stopped),
        player(&full("vlc"), PlaybackStatus::Stopped),
    ];
    let (p2, changed2) = mpris_block::policy::pick_player(&mut players_again, &repaired).unwrap();
    assert_eq!(p2.bus_name, p.bus_name);
    assert!(!changed2);
}

#[test]
fn unmatched_stored_record_is_repaired() {
    let stored = Some(full("gone"));
    let mut players = vec![player(&full("vlc"), PlaybackStatus::Paused)];
    let (p, changed) = mpris_block::policy::pick_player(&mut players, &stored).unwrap();
    assert_eq!(p.bus_name, full("vlc"));
    assert!(changed);
}
