use smtc_windows::bridge::{
    on_button_pressed, on_position_change_requested, on_repeat_mode_requested,
    on_shuffle_requested, EventCategory, Registrations,
};
use smtc_windows::button::{button_from_native, TransportButton};
use smtc_windows::metadata::{thumbnail_request, MusicMetadata, Thumbnail};
use smtc_windows::status::{
    parse_repeat_mode, repeat_mode_from_native, to_native_repeat_mode, to_native_status,
    PlaybackStatus, RepeatMode,
};
use smtc_windows::text::{is_remote, same_text};

#[test]
fn repeat_mode_known_strings() {
    assert_eq!(parse_repeat_mode("none"), RepeatMode::Off);
    assert_eq!(parse_repeat_mode("track"), RepeatMode::Track);
    assert_eq!(parse_repeat_mode("list"), RepeatMode::List);
}

#[test]
fn repeat_mode_unknown_strings_mean_off() {
    assert_eq!(parse_repeat_mode("shuffle"), RepeatMode::Off);
    assert_eq!(parse_repeat_mode(""), RepeatMode::Off);
    assert_eq!(parse_repeat_mode("TRACK"), RepeatMode::Off);
    assert_eq!(parse_repeat_mode("lists"), RepeatMode::Off);
}

#[test]
fn repeat_mode_tokens_and_native_values() {
    assert_eq!(RepeatMode::Off.token(), "none");
    assert_eq!(RepeatMode::Track.token(), "track");
    assert_eq!(RepeatMode::List.token(), "list");
    assert_eq!(to_native_repeat_mode(RepeatMode::Off), 0);
    assert_eq!(to_native_repeat_mode(RepeatMode::Track), 1);
    assert_eq!(to_native_repeat_mode(RepeatMode::List), 2);
    assert_eq!(repeat_mode_from_native(1), RepeatMode::Track);
    assert_eq!(repeat_mode_from_native(2), RepeatMode::List);
    assert_eq!(repeat_mode_from_native(0), RepeatMode::Off);
    assert_eq!(repeat_mode_from_native(42), RepeatMode::Off);
}

#[test]
fn status_native_values() {
    assert_eq!(to_native_status(PlaybackStatus::Closed), 0);
    assert_eq!(to_native_status(PlaybackStatus::Changing), 1);
    assert_eq!(to_native_status(PlaybackStatus::Stopped), 2);
    assert_eq!(to_native_status(PlaybackStatus::Playing), 3);
    assert_eq!(to_native_status(PlaybackStatus::Paused), 4);
}

#[test]
fn each_button_maps_to_its_token() {
    let expected = [
        "play",
        "pause",
        "stop",
        "record",
        "fast_forward",
        "rewind",
        "next",
        "previous",
        "channel_up",
        "channel_down",
    ];
    for (code, token) in expected.iter().enumerate() {
        let mut sink: Vec<String> = Vec::new();
        on_button_pressed(&mut sink, code as i32);
        assert_eq!(sink, vec![token.to_string()]);
    }
    assert_eq!(button_from_native(4), Some(TransportButton::FastForward));
    assert_eq!(TransportButton::ChannelUp.token(), "channel_up");
}

#[test]
fn unmapped_button_emits_nothing() {
    let mut sink: Vec<String> = vec!["play".to_string()];
    on_button_pressed(&mut sink, 10);
    on_button_pressed(&mut sink, -1);
    assert_eq!(sink, vec!["play".to_string()]);
    assert_eq!(button_from_native(10), None);
}

#[test]
fn matched_callbacks_emit_exactly_once_each() {
    let mut sink: Vec<String> = Vec::new();
    let mut matched = 0;
    for i in 0..1000 {
        let code = (i % 13) as i32;
        if code < 10 {
            matched += 1;
        }
        on_button_pressed(&mut sink, code);
    }
    assert_eq!(sink.len(), matched);
}

#[test]
fn seek_request_in_milliseconds() {
    let mut sink: Vec<i64> = Vec::new();
    on_position_change_requested(&mut sink, 12_340_000);
    on_position_change_requested(&mut sink, 12_349_999);
    on_position_change_requested(&mut sink, -15_000);
    on_position_change_requested(&mut sink, i64::MIN);
    assert_eq!(sink, vec![1234, 1234, -1, -922_337_203_685_477]);
}

#[test]
fn shuffle_request_forwarded() {
    let mut sink: Vec<bool> = Vec::new();
    on_shuffle_requested(&mut sink, true);
    on_shuffle_requested(&mut sink, false);
    assert_eq!(sink, vec![true, false]);
}

#[test]
fn repeat_request_tokens() {
    let mut sink: Vec<String> = Vec::new();
    on_repeat_mode_requested(&mut sink, 0);
    on_repeat_mode_requested(&mut sink, 1);
    on_repeat_mode_requested(&mut sink, 2);
    on_repeat_mode_requested(&mut sink, 7);
    assert_eq!(sink, vec!["none", "track", "list", "none"]);
}

#[test]
fn thumbnail_strategy_by_prefix() {
    match thumbnail_request("https://example.com/a.png") {
        Thumbnail::Remote(u) => assert_eq!(u, "https://example.com/a.png"),
        Thumbnail::LocalFile(_) => panic!("expected a URL"),
    }
    match thumbnail_request("httpish") {
        Thumbnail::Remote(u) => assert_eq!(u, "httpish"),
        Thumbnail::LocalFile(_) => panic!("expected a URL"),
    }
    match thumbnail_request("C:\\music\\cover.jpg") {
        Thumbnail::LocalFile(p) => assert_eq!(p, "C:\\music\\cover.jpg"),
        Thumbnail::Remote(_) => panic!("expected a file"),
    }
    match thumbnail_request("htt") {
        Thumbnail::LocalFile(p) => assert_eq!(p, "htt"),
        Thumbnail::Remote(_) => panic!("expected a file"),
    }
    match thumbnail_request("HTTP://x") {
        Thumbnail::LocalFile(_) => {}
        Thumbnail::Remote(_) => panic!("expected a file"),
    }
}

#[test]
fn metadata_thumbnail_request() {
    let m = MusicMetadata {
        title: None,
        artist: None,
        album: None,
        album_artist: None,
        thumbnail: Some("/tmp/cover.png".to_string()),
    };
    assert!(matches!(m.thumbnail_request(), Some(Thumbnail::LocalFile(p)) if p == "/tmp/cover.png"));
    let none = MusicMetadata {
        title: None,
        artist: None,
        album: None,
        album_artist: None,
        thumbnail: None,
    };
    assert!(none.thumbnail_request().is_none());
}

#[test]
fn text_helpers() {
    assert!(same_text("abc", "abc"));
    assert!(!same_text("abc", "abd"));
    assert!(!same_text("abc", "ab"));
    assert!(is_remote("http"));
    assert!(!is_remote("htp://"));
    assert!(!is_remote(""));
}

#[test]
fn last_registration_wins() {
    let mut regs = Registrations::new();
    assert_eq!(regs.register(EventCategory::ButtonPressed, 7), None);
    assert_eq!(regs.register(EventCategory::ShuffleRequested, 8), None);
    assert_eq!(regs.register(EventCategory::ButtonPressed, 9), Some(7));
    assert_eq!(regs.button_pressed, Some(9));
    assert_eq!(regs.shuffle_requested, Some(8));
    assert_eq!(regs.position_change_requested, None);
}
