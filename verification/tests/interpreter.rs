use tsmusicbot::command::{parse_command, sanitize, Action, UserId};

fn uid(raw: u16) -> UserId {
    UserId { raw }
}

#[test]
fn non_command_messages_yield_no_action() {
    let u = uid(1);
    assert!(matches!(parse_command("hello there", u), Action::NoAction));
    assert!(matches!(parse_command("", u), Action::NoAction));
    assert!(matches!(parse_command("   ", u), Action::NoAction));
    assert!(matches!(parse_command("play http://x", u), Action::NoAction));
    assert!(matches!(parse_command("[URL]http://x[/URL]", u), Action::NoAction));
    assert!(matches!(parse_command("(((", u), Action::NoAction));
}

#[test]
fn play_command_carries_link_and_sender() {
    match parse_command("!play http://x", uid(7)) {
        Action::PlayAudio(link, user) => {
            assert_eq!(link, "http://x");
            assert_eq!(user, uid(7));
        }
        other => panic!("unexpected action: {:?}", other),
    }
    match parse_command("!yt http://y", uid(9)) {
        Action::PlayAudio(link, user) => {
            assert_eq!(link, "http://y");
            assert_eq!(user, uid(9));
        }
        other => panic!("unexpected action: {:?}", other),
    }
}

#[test]
fn play_without_argument_is_ignored() {
    assert!(matches!(parse_command("!play", uid(1)), Action::NoAction));
    assert!(matches!(parse_command("!yt", uid(1)), Action::NoAction));
}

#[test]
fn link_markup_is_stripped_before_parsing() {
    match parse_command("!play [URL]http://x[/URL]", uid(2)) {
        Action::PlayAudio(link, _) => assert_eq!(link, "http://x"),
        other => panic!("unexpected action: {:?}", other),
    }
}

#[test]
fn surrounding_whitespace_is_trimmed() {
    match parse_command("  !play http://x \t ", uid(2)) {
        Action::PlayAudio(link, _) => assert_eq!(link, "http://x"),
        other => panic!("unexpected action: {:?}", other),
    }
}

#[test]
fn stop_pause_resume_skip_aliases() {
    let u = uid(3);
    assert!(matches!(parse_command("!stop", u), Action::Stop));
    assert!(matches!(parse_command("!pause", u), Action::Pause));
    assert!(matches!(parse_command("!p", u), Action::Pause));
    assert!(matches!(parse_command("!resume", u), Action::Resume));
    assert!(matches!(parse_command("!r", u), Action::Resume));
    assert!(matches!(parse_command("!continue", u), Action::Resume));
    assert!(matches!(parse_command("!c", u), Action::Resume));
    assert!(matches!(parse_command("!skip", u), Action::Skip));
    assert!(matches!(parse_command("!s", u), Action::Skip));
}

#[test]
fn next_with_argument_queues_and_without_skips() {
    match parse_command("!next http://y", uid(4)) {
        Action::QueueNextAudio(link, user) => {
            assert_eq!(link, "http://y");
            assert_eq!(user, uid(4));
        }
        other => panic!("unexpected action: {:?}", other),
    }
    match parse_command("!n http://z", uid(4)) {
        Action::QueueNextAudio(link, _) => assert_eq!(link, "http://z"),
        other => panic!("unexpected action: {:?}", other),
    }
    assert!(matches!(parse_command("!next", uid(4)), Action::Skip));
    assert!(matches!(parse_command("!n", uid(4)), Action::Skip));
}

#[test]
fn info_help_quit_aliases() {
    let u = uid(5);
    assert!(matches!(parse_command("!info", u), Action::Info(user) if user == u));
    assert!(matches!(parse_command("!i", u), Action::Info(_)));
    assert!(matches!(parse_command("!help", u), Action::Help(user) if user == u));
    assert!(matches!(parse_command("!h", u), Action::Help(_)));
    assert!(matches!(parse_command("!quit", u), Action::Quit));
    assert!(matches!(parse_command("!q", u), Action::Quit));
}

#[test]
fn unknown_commands_are_ignored() {
    assert!(matches!(parse_command("!zzz", uid(6)), Action::NoAction));
    assert!(matches!(parse_command("!zzz arg", uid(6)), Action::NoAction));
    assert!(matches!(parse_command("!playx http://x", uid(6)), Action::NoAction));
}

#[test]
fn volume_in_range_maps_to_percent() {
    match parse_command("!volume 50", uid(8)) {
        Action::ChangeVolume { modifier, user_id } => {
            assert_eq!(modifier, Some(50));
            assert_eq!(user_id, uid(8));
        }
        other => panic!("unexpected action: {:?}", other),
    }
    match parse_command("!v 100", uid(8)) {
        Action::ChangeVolume { modifier, .. } => assert_eq!(modifier, Some(100)),
        other => panic!("unexpected action: {:?}", other),
    }
    match parse_command("!v 0", uid(8)) {
        Action::ChangeVolume { modifier, .. } => assert_eq!(modifier, Some(0)),
        other => panic!("unexpected action: {:?}", other),
    }
}

#[test]
fn volume_above_hundred_clamps() {
    match parse_command("!volume 250", uid(8)) {
        Action::ChangeVolume { modifier, .. } => assert_eq!(modifier, Some(100)),
        other => panic!("unexpected action: {:?}", other),
    }
}

#[test]
fn plus_sign_is_sanitized_away_before_parsing() {
    // '+' is outside the allow-list, so "!v +7" reads as "!v 7" ...
    match parse_command("!v +7", uid(8)) {
        Action::ChangeVolume { modifier, .. } => assert_eq!(modifier, Some(7)),
        other => panic!("unexpected action: {:?}", other),
    }
    // ... and a bare "+" argument vanishes, leaving a report request.
    match parse_command("!v +", uid(8)) {
        Action::ChangeVolume { modifier, .. } => assert_eq!(modifier, None),
        other => panic!("unexpected action: {:?}", other),
    }
}

#[test]
fn volume_non_numeric_or_overflowing_is_ignored() {
    assert!(matches!(parse_command("!volume abc", uid(8)), Action::NoAction));
    assert!(matches!(parse_command("!v -3", uid(8)), Action::NoAction));
    assert!(matches!(parse_command("!v 12a", uid(8)), Action::NoAction));
    assert!(matches!(parse_command("!v 4294967296", uid(8)), Action::NoAction));
}

#[test]
fn volume_without_argument_asks_for_report() {
    match parse_command("!volume", uid(8)) {
        Action::ChangeVolume { modifier, user_id } => {
            assert_eq!(modifier, None);
            assert_eq!(user_id, uid(8));
        }
        other => panic!("unexpected action: {:?}", other),
    }
}

#[test]
fn sanitize_keeps_allowed_characters_only() {
    assert_eq!(sanitize("abc XYZ 019"), "abc XYZ 019");
    assert_eq!(sanitize("(a)[b]{c}"), "abc");
    assert_eq!(sanitize("http://x?a=b&c_d-e,f.g:h!i"), "http://x?a=b&c_d-e,f.g:h!i");
    assert_eq!(sanitize("tab\there"), "tab\there");
    assert_eq!(sanitize("ümläut"), "ümläut");
    assert_eq!(sanitize("@#$%^*()+"), "");
}

#[test]
fn command_casing_is_significant() {
    assert!(matches!(parse_command("!STOP", uid(1)), Action::NoAction));
    assert!(matches!(parse_command("!Play http://x", uid(1)), Action::NoAction));
}
