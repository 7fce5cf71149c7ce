use smtc_windows::config::{Capability, SMTCConfig};
use smtc_windows::metadata::{MusicMetadata, Thumbnail};
use smtc_windows::session::{
    clear_metadata_plan, disable_plan, enable_plan, new_plan, update_config_plan,
    update_metadata_plan, update_playback_status_plan, update_repeat_mode_plan,
    update_shuffle_plan, update_timeline_plan, NativeSession, NativeWrite,
};
use smtc_windows::status::{PlaybackStatus, RepeatMode};
use smtc_windows::timeline::{
    from_native_timeline, to_native_timeline, NativeTimeline, PlaybackTimeline, TimelineError,
};

fn timeline(position: i64, min: i64, max: i64) -> PlaybackTimeline {
    PlaybackTimeline {
        start_time_ms: 0,
        end_time_ms: 200_000,
        position_ms: position,
        min_seek_time_ms: min,
        max_seek_time_ms: max,
    }
}

#[test]
fn open_defaults_to_enabled() {
    let mut s = NativeSession::new();
    s.apply_all(&new_plan(None));
    assert!(s.enabled);
    assert!(!s.command_manager_enabled);
    let mut t = NativeSession::new();
    t.apply_all(&new_plan(Some(false)));
    assert!(!t.enabled);
    assert!(!t.command_manager_enabled);
}

#[test]
fn config_reads_back_exactly() {
    let c = SMTCConfig {
        play_enabled: true,
        pause_enabled: false,
        next_enabled: true,
        prev_enabled: false,
        fast_forward_enabled: false,
        rewind_enabled: true,
        stop_enabled: true,
    };
    let mut s = NativeSession::new();
    let all = SMTCConfig {
        play_enabled: true,
        pause_enabled: true,
        next_enabled: true,
        prev_enabled: true,
        fast_forward_enabled: true,
        rewind_enabled: true,
        stop_enabled: true,
    };
    s.apply_all(&update_config_plan(&all));
    s.apply_all(&update_config_plan(&c));
    assert_eq!(s.capabilities, c);
    assert_eq!(update_config_plan(&c).len(), 7);
}

#[test]
fn set_flag_changes_one_flag() {
    let mut c = SMTCConfig {
        play_enabled: true,
        pause_enabled: true,
        next_enabled: true,
        prev_enabled: true,
        fast_forward_enabled: true,
        rewind_enabled: true,
        stop_enabled: true,
    };
    c.set_flag(Capability::Rewind, false);
    assert!(!c.rewind_enabled);
    assert!(c.play_enabled && c.stop_enabled && c.fast_forward_enabled);
}

#[test]
fn absent_fields_read_back_cleared() {
    let mut s = NativeSession::new();
    let full = MusicMetadata {
        title: Some("Song".to_string()),
        artist: Some("Artist".to_string()),
        album: Some("Album".to_string()),
        album_artist: Some("Band".to_string()),
        thumbnail: None,
    };
    s.apply_all(&update_metadata_plan(&full, &Some("app".to_string()), None));
    assert_eq!(s.shown.title.as_deref(), Some("Song"));
    assert_eq!(s.shown.album_artist.as_deref(), Some("Band"));
    assert_eq!(s.shown.app_media_id.as_deref(), Some("app"));
    let partial = MusicMetadata {
        title: Some("Other".to_string()),
        artist: None,
        album: None,
        album_artist: None,
        thumbnail: None,
    };
    s.apply_all(&update_metadata_plan(&partial, &None, None));
    assert_eq!(s.shown.title.as_deref(), Some("Other"));
    assert!(s.shown.artist.is_none());
    assert!(s.shown.album_title.is_none());
    assert!(s.shown.album_artist.is_none());
    assert!(s.shown.app_media_id.is_none());
    assert!(s.shown.is_music);
}

#[test]
fn thumbnail_failure_still_commits_fields() {
    let m = MusicMetadata {
        title: Some("T".to_string()),
        artist: Some("A".to_string()),
        album: None,
        album_artist: None,
        thumbnail: Some("/missing/file.png".to_string()),
    };
    let mut s = NativeSession::new();
    // the lookup of the file failed, so no artwork is handed in
    let plan = update_metadata_plan(&m, &None, None);
    assert!(matches!(plan.last(), Some(NativeWrite::CommitDisplay)));
    s.apply_all(&plan);
    assert_eq!(s.shown.title.as_deref(), Some("T"));
    assert_eq!(s.shown.artist.as_deref(), Some("A"));
    assert!(s.shown.thumbnail.is_none());
}

#[test]
fn resolved_thumbnail_is_shown() {
    let m = MusicMetadata {
        title: None,
        artist: None,
        album: None,
        album_artist: None,
        thumbnail: Some("http://h/a.png".to_string()),
    };
    let mut s = NativeSession::new();
    s.apply_all(&update_metadata_plan(&m, &None, m.thumbnail_request()));
    assert!(matches!(&s.shown.thumbnail, Some(Thumbnail::Remote(u)) if u == "http://h/a.png"));
}

#[test]
fn clear_metadata_empties_display() {
    let m = MusicMetadata {
        title: Some("T".to_string()),
        artist: None,
        album: None,
        album_artist: None,
        thumbnail: None,
    };
    let mut s = NativeSession::new();
    s.apply_all(&update_metadata_plan(&m, &None, None));
    s.apply_all(&clear_metadata_plan());
    assert!(s.shown.title.is_none());
    assert!(!s.shown.is_music);
}

#[test]
fn timeline_converts_to_ticks() {
    let t = timeline(1500, 0, 200_000);
    let n = to_native_timeline(&t).unwrap();
    assert_eq!(
        n,
        NativeTimeline {
            start_time: 0,
            end_time: 2_000_000_000,
            position: 15_000_000,
            min_seek_time: 0,
            max_seek_time: 2_000_000_000,
        }
    );
    assert_eq!(from_native_timeline(&n), t);
}

#[test]
fn timeline_edges_of_seek_range() {
    assert!(to_native_timeline(&timeline(0, 0, 0)).is_ok());
    assert!(to_native_timeline(&timeline(10, 10, 20)).is_ok());
    assert!(to_native_timeline(&timeline(20, 10, 20)).is_ok());
}

#[test]
fn timeline_outside_seek_range_fails() {
    assert_eq!(to_native_timeline(&timeline(5, 10, 20)), Err(TimelineError::SeekOrder));
    assert_eq!(to_native_timeline(&timeline(21, 10, 20)), Err(TimelineError::SeekOrder));
    assert!(matches!(update_timeline_plan(&timeline(21, 10, 20)), Err(TimelineError::SeekOrder)));
}

#[test]
fn timeline_too_large_fails() {
    let big = 922_337_203_685_478;
    assert_eq!(to_native_timeline(&timeline(big, 0, big)), Err(TimelineError::OutOfRange));
    let edge = 922_337_203_685_477;
    let n = to_native_timeline(&timeline(edge, -edge, edge)).unwrap();
    assert_eq!(n.position, 9_223_372_036_854_770_000);
    assert_eq!(from_native_timeline(&n), timeline(edge, -edge, edge));
}

#[test]
fn timeline_written_to_session() {
    let mut s = NativeSession::new();
    let plan = update_timeline_plan(&timeline(1, 0, 2)).unwrap();
    s.apply_all(&plan);
    assert_eq!(s.timeline.position, 10_000);
    assert_eq!(s.timeline.end_time, 2_000_000_000);
}

#[test]
fn status_shuffle_repeat_written() {
    let mut s = NativeSession::new();
    s.apply_all(&update_playback_status_plan(PlaybackStatus::Playing));
    s.apply_all(&update_shuffle_plan(true));
    s.apply_all(&update_repeat_mode_plan("list"));
    assert_eq!(s.status, PlaybackStatus::Playing);
    assert!(s.shuffle);
    assert_eq!(s.repeat, RepeatMode::List);
    s.apply_all(&update_repeat_mode_plan("bogus"));
    assert_eq!(s.repeat, RepeatMode::Off);
}

#[test]
fn enable_twice_stays_enabled() {
    let mut s = NativeSession::new();
    s.apply_all(&enable_plan());
    s.apply_all(&enable_plan());
    assert!(s.enabled);
    s.apply_all(&disable_plan());
    s.apply_all(&disable_plan());
    assert!(!s.enabled);
}
