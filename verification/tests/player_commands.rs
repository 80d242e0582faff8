use aurex::models::FullTrack;
use aurex::models::Track;
use aurex::player::AudioPlayer;
use aurex::player::PlayerState;

fn track(id: i64, title: &str) -> FullTrack {
    FullTrack {
        track: Track {
            id: Some(id),
            album_id: 1,
            artist_id: 1,
            file_path: format!("/music/{}.mp3", title),
            title: title.to_string(),
            track_number: 1,
            disc_number: 1,
            bpm: 0,
            duration: 180_000,
            initial_key: None,
            isrc: None,
            lyrics: None,
            composer: None,
        },
        artist_name: "Artist".to_string(),
        album_title: "Album".to_string(),
        album_art: None,
        playlist_position: None,
    }
}

#[test]
fn play_list_plays_index_and_replaces_queue() {
    let mut player = AudioPlayer::default();
    // a pre-existing queue must be replaced, not appended to
    player.add_to_queue(track(99, "stale"));

    let (a, b, c) = (track(1, "a"), track(2, "b"), track(3, "c"));
    let first = player.play_list(vec![a.clone(), b.clone(), c.clone()], 1);

    assert_eq!(first, b);
    assert_eq!(player.currently_playing, Some(b));
    assert_eq!(player.state, PlayerState::Playing);
    assert_eq!(player.queue, vec![c]);
}

#[test]
fn play_list_from_front() {
    let mut player = AudioPlayer::default();
    let (a, b, c) = (track(1, "a"), track(2, "b"), track(3, "c"));
    let first = player.play_list(vec![a.clone(), b.clone(), c.clone()], 0);

    assert_eq!(first, a);
    assert_eq!(player.currently_playing, Some(a));
    assert_eq!(player.state, PlayerState::Playing);
    assert_eq!(player.queue, vec![b, c]);
}

#[test]
fn next_on_empty_queue_is_noop() {
    let mut player = AudioPlayer::default();
    let a = track(1, "a");
    player.load(a.clone());

    let popped = player.next();

    assert_eq!(popped, None);
    assert_eq!(player.currently_playing, Some(a));
    assert_eq!(player.state, PlayerState::Paused);
    assert!(player.queue.is_empty());
}

#[test]
fn next_pops_front_and_plays_it() {
    let mut player = AudioPlayer::default();
    let (a, b, c) = (track(1, "a"), track(2, "b"), track(3, "c"));
    player.load(a);
    player.add_to_queue(b.clone());
    player.add_to_queue(c.clone());

    let popped = player.next();

    assert_eq!(popped, Some(b.clone()));
    assert_eq!(player.currently_playing, Some(b));
    assert_eq!(player.state, PlayerState::Playing);
    assert_eq!(player.queue, vec![c]);
}

#[test]
fn add_to_queue_is_fifo() {
    let mut player = AudioPlayer::default();
    let (a, b) = (track(1, "a"), track(2, "b"));
    player.add_to_queue(a.clone());
    player.add_to_queue(b.clone());

    assert_eq!(player.queue, vec![a, b]);
}

#[test]
fn play_next_is_lifo_at_front() {
    let mut player = AudioPlayer::default();
    let (a, b) = (track(1, "a"), track(2, "b"));
    player.play_next(a.clone());
    player.play_next(b.clone());

    assert_eq!(player.queue, vec![b, a]);
}

#[test]
fn play_next_goes_before_existing_queue() {
    let mut player = AudioPlayer::default();
    let (a, b) = (track(1, "a"), track(2, "b"));
    player.add_to_queue(a.clone());
    player.play_next(b.clone());

    assert_eq!(player.queue, vec![b, a]);
}

#[test]
fn change_queue_index_front_to_back() {
    let mut player = AudioPlayer::default();
    let (a, b, c) = (track(1, "a"), track(2, "b"), track(3, "c"));
    player.add_to_queue(a.clone());
    player.add_to_queue(b.clone());
    player.add_to_queue(c.clone());

    player.change_queue_index(0, 2);

    assert_eq!(player.queue, vec![b, a, c]);
}

#[test]
fn change_queue_index_back_to_front() {
    let mut player = AudioPlayer::default();
    let (a, b, c) = (track(1, "a"), track(2, "b"), track(3, "c"));
    player.add_to_queue(a.clone());
    player.add_to_queue(b.clone());
    player.add_to_queue(c.clone());

    player.change_queue_index(2, 0);

    assert_eq!(player.queue, vec![c, a, b]);
}

#[test]
fn change_queue_index_out_of_range_is_noop() {
    let mut player = AudioPlayer::default();
    let (a, b) = (track(1, "a"), track(2, "b"));
    player.add_to_queue(a.clone());
    player.add_to_queue(b.clone());

    player.change_queue_index(5, 0);

    assert_eq!(player.queue, vec![a, b]);
}

#[test]
fn change_queue_index_target_clamped_into_range() {
    let mut player = AudioPlayer::default();
    let (a, b, c) = (track(1, "a"), track(2, "b"), track(3, "c"));
    player.add_to_queue(a.clone());
    player.add_to_queue(b.clone());
    player.add_to_queue(c.clone());

    player.change_queue_index(0, 9);

    assert_eq!(player.queue, vec![b, c, a]);
}

#[test]
fn play_twice_reaches_engine_once() {
    let mut player = AudioPlayer::default();
    player.load(track(1, "a"));

    let first = player.play();
    let second = player.play();

    assert!(first);
    assert!(!second);
    assert_eq!(player.state, PlayerState::Playing);
}

#[test]
fn play_on_empty_player_is_noop() {
    let mut player = AudioPlayer::default();

    let started = player.play();

    assert!(!started);
    assert_eq!(player.state, PlayerState::Empty);
    assert_eq!(player.currently_playing, None);
}

#[test]
fn pause_only_engages_once() {
    let mut player = AudioPlayer::default();
    player.load(track(1, "a"));
    player.play();

    let first = player.pause();
    let second = player.pause();

    assert!(first);
    assert!(!second);
    assert_eq!(player.state, PlayerState::Paused);
}

#[test]
fn media_end_pops_loads_and_plays_front() {
    let mut player = AudioPlayer::default();
    let (t1, t2, t3) = (track(1, "t1"), track(2, "t2"), track(3, "t3"));
    player.load(t1);
    player.play();
    player.add_to_queue(t2.clone());
    player.add_to_queue(t3.clone());

    let popped = player.media_end();

    assert_eq!(popped, Some(t2.clone()));
    assert_eq!(player.currently_playing, Some(t2));
    assert_eq!(player.state, PlayerState::Playing);
    assert_eq!(player.queue, vec![t3]);
}

#[test]
fn media_end_with_empty_queue_clears() {
    let mut player = AudioPlayer::default();
    player.load(track(1, "a"));
    player.play();

    let popped = player.media_end();

    assert_eq!(popped, None);
    assert_eq!(player.currently_playing, None);
    assert_eq!(player.state, PlayerState::Empty);
    assert!(player.queue.is_empty());
}

#[test]
fn clear_is_idempotent() {
    let mut player = AudioPlayer::default();
    player.load(track(1, "a"));
    player.play();
    player.add_to_queue(track(2, "b"));

    player.clear();
    let first = player.get_player();
    player.clear();
    let second = player.get_player();

    assert_eq!(first.currently_playing, second.currently_playing);
    assert_eq!(first.state, second.state);
    assert_eq!(first.queue, second.queue);
    assert_eq!(second.currently_playing, None);
    assert_eq!(second.state, PlayerState::Empty);
    assert!(second.queue.is_empty());
}

#[test]
fn load_keeps_queue_and_pauses() {
    let mut player = AudioPlayer::default();
    let (a, b) = (track(1, "a"), track(2, "b"));
    player.add_to_queue(b.clone());

    player.load(a.clone());

    assert_eq!(player.currently_playing, Some(a));
    assert_eq!(player.state, PlayerState::Paused);
    assert_eq!(player.queue, vec![b]);
}

#[test]
fn add_list_to_queue_appends_in_order() {
    let mut player = AudioPlayer::default();
    let (a, b, c, d) = (track(1, "a"), track(2, "b"), track(3, "c"), track(4, "d"));
    player.add_to_queue(a.clone());

    player.add_list_to_queue(Some(vec![b.clone(), c.clone()]), Some(vec![d.clone()]));

    assert_eq!(player.queue, vec![a, b, c, d]);
}

#[test]
fn add_list_to_queue_with_nothing_is_noop() {
    let mut player = AudioPlayer::default();
    let a = track(1, "a");
    player.add_to_queue(a.clone());

    player.add_list_to_queue(None, None);

    assert_eq!(player.queue, vec![a]);
}

#[test]
fn play_list_next_reverses_at_front() {
    let mut player = AudioPlayer::default();
    let (a, b, c, d) = (track(1, "a"), track(2, "b"), track(3, "c"), track(4, "d"));
    player.add_to_queue(a.clone());

    player.play_list_next(Some(vec![b.clone(), c.clone()]), Some(vec![d.clone()]));

    assert_eq!(player.queue, vec![d, c, b, a]);
}

#[test]
fn play_tracks_with_empty_resolution_is_noop() {
    let mut player = AudioPlayer::default();
    let a = track(1, "a");
    player.load(a.clone());

    let first = player.play_tracks(Vec::new(), 0);

    assert_eq!(first, None);
    assert_eq!(player.currently_playing, Some(a));
    assert_eq!(player.state, PlayerState::Paused);
}

#[test]
fn play_tracks_delegates_to_play_list() {
    let mut player = AudioPlayer::default();
    let (a, b) = (track(1, "a"), track(2, "b"));

    let first = player.play_tracks(vec![a.clone(), b.clone()], 0);

    assert_eq!(first, Some(a.clone()));
    assert_eq!(player.currently_playing, Some(a));
    assert_eq!(player.state, PlayerState::Playing);
    assert_eq!(player.queue, vec![b]);
}

#[test]
fn get_player_returns_full_copy() {
    let mut player = AudioPlayer::default();
    let (a, b) = (track(1, "a"), track(2, "b"));
    player.load(a.clone());
    player.play();
    player.add_to_queue(b.clone());

    let snapshot = player.get_player();

    assert_eq!(snapshot.currently_playing, Some(a));
    assert_eq!(snapshot.state, PlayerState::Playing);
    assert_eq!(snapshot.queue, vec![b]);
}

#[test]
fn default_player_is_empty() {
    let player = AudioPlayer::default();

    assert_eq!(player.currently_playing, None);
    assert_eq!(player.state, PlayerState::Empty);
    assert!(player.queue.is_empty());
}

#[test]
fn full_track_clone_is_equal() {
    let a = track(7, "seven");
    let copy = a.clone();

    assert_eq!(copy, a);
}
