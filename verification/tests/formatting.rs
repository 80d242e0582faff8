use aurex::models::Track;

fn track_with_duration(duration_ms: i64) -> Track {
    Track {
        id: Some(1),
        album_id: 1,
        artist_id: 1,
        file_path: "/music/x.mp3".to_string(),
        title: "x".to_string(),
        track_number: 1,
        disc_number: 1,
        bpm: 0,
        duration: duration_ms,
        initial_key: None,
        isrc: None,
        lyrics: None,
        composer: None,
    }
}

#[test]
fn zero_duration_formats_as_zero() {
    assert_eq!(track_with_duration(0).formatted_duration(), "0:00");
}

#[test]
fn negative_duration_formats_as_zero() {
    assert_eq!(track_with_duration(-5_000).formatted_duration(), "0:00");
}

#[test]
fn sub_second_duration_rounds_down_to_zero() {
    assert_eq!(track_with_duration(999).formatted_duration(), "0:00");
}

#[test]
fn seconds_only() {
    assert_eq!(track_with_duration(7_000).formatted_duration(), "0:07");
}

#[test]
fn minute_and_second() {
    assert_eq!(track_with_duration(61_000).formatted_duration(), "1:01");
}

#[test]
fn many_minutes_unpadded() {
    assert_eq!(track_with_duration(600_000).formatted_duration(), "10:00");
}

#[test]
fn just_under_an_hour() {
    assert_eq!(track_with_duration(3_599_000).formatted_duration(), "59:59");
}

#[test]
fn exactly_one_hour() {
    assert_eq!(track_with_duration(3_600_000).formatted_duration(), "1:00:00");
}

#[test]
fn hour_minute_second() {
    assert_eq!(track_with_duration(3_661_000).formatted_duration(), "1:01:01");
}

#[test]
fn minutes_padded_once_hours_shown() {
    assert_eq!(track_with_duration(36_125_000).formatted_duration(), "10:02:05");
}

#[test]
fn hundreds_of_hours() {
    assert_eq!(track_with_duration(360_000_000).formatted_duration(), "100:00:00");
}
