use tsmusicbot::status::{compose_info_message, status_snapshot, InfoJson, PlaybackState};
use tsmusicbot::text::u32_string;

fn info() -> InfoJson {
    InfoJson {
        id: "id1".to_string(),
        title: "A Song".to_string(),
        channel: "A Channel".to_string(),
        duration: 212,
        view_count: 1234,
        webpage_url: "http://x".to_string(),
    }
}

#[test]
fn snapshot_carries_time_pause_and_link() {
    let st = PlaybackState {
        time_passed_ms: 4200,
        paused: true,
        link: Some("http://x".to_string()),
    };
    let s = status_snapshot(&st, Some(212));
    assert_eq!(s.time_passed_ms, 4200);
    assert!(s.paused);
    assert_eq!(s.link, "http://x");
    assert_eq!(s.duration, 212);
}

#[test]
fn snapshot_duration_defaults_to_zero_without_metadata() {
    let st = PlaybackState {
        time_passed_ms: 0,
        paused: false,
        link: Some("http://x".to_string()),
    };
    assert_eq!(status_snapshot(&st, None).duration, 0);
}

#[test]
fn snapshot_without_link_ignores_metadata() {
    let st = PlaybackState { time_passed_ms: 0, paused: false, link: None };
    let s = status_snapshot(&st, Some(212));
    assert_eq!(s.duration, 0);
    assert_eq!(s.link, "");
    let st = PlaybackState { time_passed_ms: 0, paused: false, link: Some(String::new()) };
    assert_eq!(status_snapshot(&st, Some(212)).duration, 0);
}

#[test]
fn info_message_lists_title_and_channel() {
    let msg = compose_info_message(true, &Some("http://x".to_string()), Some(&info()));
    assert_eq!(
        msg,
        "\nCurrently Playing:\nTitle: A Song\nChannel: A Channel\nLink: http://x"
    );
}

#[test]
fn info_message_falls_back_to_link_without_metadata() {
    let msg = compose_info_message(true, &Some("http://x".to_string()), None);
    assert_eq!(msg, "\nCurrently Playing:\nhttp://x");
}

#[test]
fn info_message_while_idle_says_nothing_plays() {
    let msg = compose_info_message(false, &None, None);
    assert_eq!(msg, "\nCurrently Playing:\nNothing");
    // Metadata is not consulted while idle.
    let msg = compose_info_message(false, &Some("http://x".to_string()), Some(&info()));
    assert_eq!(msg, "\nCurrently Playing:\nNothing");
}

#[test]
fn decimal_formatting_matches_expected_digits() {
    assert_eq!(u32_string(0), "0");
    assert_eq!(u32_string(7), "7");
    assert_eq!(u32_string(20), "20");
    assert_eq!(u32_string(100), "100");
    assert_eq!(u32_string(4294967295), "4294967295");
}
