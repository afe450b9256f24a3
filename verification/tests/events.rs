use spotify_worker::events::{start_timestamp, translate, BackendEvent, OutwardEvent};

const NOW: i64 = 1_700_000_000_000;

const IGNORED: [BackendEvent; 12] = [
    BackendEvent::Loading,
    BackendEvent::Preloading,
    BackendEvent::Unavailable,
    BackendEvent::VolumeChanged,
    BackendEvent::TrackChanged,
    BackendEvent::SessionConnected,
    BackendEvent::SessionDisconnected,
    BackendEvent::SessionClientChanged,
    BackendEvent::ShuffleChanged,
    BackendEvent::RepeatChanged,
    BackendEvent::AutoPlayChanged,
    BackendEvent::FilterExplicitContentChanged,
];

#[test]
fn start_timestamp_is_receipt_time_minus_position() {
    assert_eq!(start_timestamp(NOW, 5000), 1_699_999_995_000);
    assert_eq!(start_timestamp(NOW, 0), 1_700_000_000_000);
    assert_eq!(start_timestamp(0, 1), -1);
    assert_eq!(start_timestamp(-1000, 500), -1500);
}

#[test]
fn start_timestamp_never_wraps() {
    assert_eq!(start_timestamp(i64::MIN, u32::MAX), -9_223_372_041_149_743_103);
    assert_eq!(start_timestamp(i64::MAX, 0), 9_223_372_036_854_775_807);
    assert_eq!(start_timestamp(i64::MAX, u32::MAX), 9_223_372_032_559_808_512);
}

#[test]
fn playing_publishes_start_and_activates() {
    let expected = (Some(OutwardEvent::Playing { start_ms: 1_699_999_995_000 }), true);
    assert_eq!(translate(false, BackendEvent::Playing { position_ms: 5000 }, NOW), expected);
    assert_eq!(translate(true, BackendEvent::Playing { position_ms: 5000 }, NOW), expected);
}

#[test]
fn seek_while_active_restarts_the_clock() {
    assert_eq!(
        translate(true, BackendEvent::Seeked { position_ms: 42_000 }, NOW),
        (Some(OutwardEvent::Playing { start_ms: 1_699_999_958_000 }), true)
    );
    assert_eq!(
        translate(true, BackendEvent::PositionCorrected { position_ms: 42_000 }, NOW),
        (Some(OutwardEvent::Playing { start_ms: 1_699_999_958_000 }), true)
    );
}

#[test]
fn seek_while_inactive_moves_the_paused_position() {
    assert_eq!(
        translate(false, BackendEvent::Seeked { position_ms: 42_000 }, NOW),
        (Some(OutwardEvent::Paused { position_ms: 42_000 }), false)
    );
    assert_eq!(
        translate(false, BackendEvent::PositionCorrected { position_ms: 42_000 }, NOW),
        (Some(OutwardEvent::Paused { position_ms: 42_000 }), false)
    );
}

#[test]
fn paused_deactivates_whatever_came_before() {
    let expected = (Some(OutwardEvent::Paused { position_ms: 777 }), false);
    assert_eq!(translate(true, BackendEvent::Paused { position_ms: 777 }, NOW), expected);
    assert_eq!(translate(false, BackendEvent::Paused { position_ms: 777 }, NOW), expected);
}

#[test]
fn stopped_deactivates_whatever_came_before() {
    assert_eq!(translate(true, BackendEvent::Stopped, NOW), (Some(OutwardEvent::Stopped), false));
    assert_eq!(translate(false, BackendEvent::Stopped, NOW), (Some(OutwardEvent::Stopped), false));
}

#[test]
fn end_of_track_and_preload_window_keep_the_flag() {
    for active in [false, true] {
        assert_eq!(
            translate(active, BackendEvent::EndOfTrack, NOW),
            (Some(OutwardEvent::FinishedTrack), active)
        );
        assert_eq!(
            translate(active, BackendEvent::PreloadWindowReached, NOW),
            (Some(OutwardEvent::PreloadRequested), active)
        );
    }
}

#[test]
fn other_events_are_ignored() {
    for event in IGNORED {
        assert_eq!(translate(false, event, NOW), (None, false));
        assert_eq!(translate(true, event, NOW), (None, true));
    }
}
