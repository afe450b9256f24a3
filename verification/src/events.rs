//! Backend notifications, the events published outward, and the translation
//! from the one to the other.

use vstd::prelude::*;

verus! {

/// A lifecycle notification from the playback backend. Positions are in
/// milliseconds from the start of the track.
#[derive(Clone, Copy, Debug, PartialEq, Eq, Structural)]
pub enum BackendEvent {
    Playing { position_ms: u32 },
    Seeked { position_ms: u32 },
    PositionCorrected { position_ms: u32 },
    Paused { position_ms: u32 },
    Stopped,
    EndOfTrack,
    PreloadWindowReached,
    Loading,
    Preloading,
    Unavailable,
    VolumeChanged,
    TrackChanged,
    SessionConnected,
    SessionDisconnected,
    SessionClientChanged,
    ShuffleChanged,
    RepeatChanged,
    AutoPlayChanged,
    FilterExplicitContentChanged,
}

/// A notification that the worker publishes to the rest of the application.
#[derive(Clone, Copy, Debug, PartialEq, Eq, Structural)]
pub enum OutwardEvent {
    /// Audio is flowing. `start_ms` is the wall-clock time, in milliseconds
    /// since the Unix epoch, at which the track would have started had it
    /// played without interruption up to its current position.
    Playing { start_ms: i128 },
    Paused { position_ms: u32 },
    Stopped,
    FinishedTrack,
    /// It is time to fetch the item that follows the current one.
    PreloadRequested,
}

/// The moment a track at `position_ms` started, seen from `now_ms`.
pub open spec fn playback_start(now_ms: i64, position_ms: u32) -> int {
    now_ms - position_ms
}

/// Computes the start time in a width that no receipt time and position can
/// overflow.
pub fn start_timestamp(now_ms: i64, position_ms: u32) -> (start_ms: i128)
    ensures
        start_ms == playback_start(now_ms, position_ms),
{
    now_ms as i128 - position_ms as i128
}

/// The event published when `event` arrives at `now_ms` while the activity
/// flag is `active`.
pub open spec fn outward_event(active: bool, event: BackendEvent, now_ms: i64) -> Option<
    OutwardEvent,
> {
    match event {
        BackendEvent::Playing { position_ms } => Some(
            OutwardEvent::Playing { start_ms: playback_start(now_ms, position_ms) as i128 },
        ),
        BackendEvent::Seeked { position_ms } | BackendEvent::PositionCorrected { position_ms } => {
            if active {
                Some(OutwardEvent::Playing { start_ms: playback_start(now_ms, position_ms) as i128 })
            } else {
                Some(OutwardEvent::Paused { position_ms })
            }
        },
        BackendEvent::Paused { position_ms } => Some(OutwardEvent::Paused { position_ms }),
        BackendEvent::Stopped => Some(OutwardEvent::Stopped),
        BackendEvent::EndOfTrack => Some(OutwardEvent::FinishedTrack),
        BackendEvent::PreloadWindowReached => Some(OutwardEvent::PreloadRequested),
        _ => None,
    }
}

/// The activity flag after `event`: set by `Playing`, cleared by `Paused` and
/// `Stopped`, untouched by everything else.
pub open spec fn active_after(active: bool, event: BackendEvent) -> bool {
    match event {
        BackendEvent::Playing { .. } => true,
        BackendEvent::Paused { .. } => false,
        BackendEvent::Stopped => false,
        _ => active,
    }
}

/// Translates one backend notification, received at `now_ms` (milliseconds
/// since the Unix epoch), into the event to publish and the new activity flag.
pub fn translate(active: bool, event: BackendEvent, now_ms: i64) -> (r: (
    Option<OutwardEvent>,
    bool,
))
    ensures
        r.0 == outward_event(active, event, now_ms),
        r.1 == active_after(active, event),
{
    match event {
        BackendEvent::Playing { position_ms } => {
            let start_ms = start_timestamp(now_ms, position_ms);
            (Some(OutwardEvent::Playing { start_ms }), true)
        },
        BackendEvent::Seeked { position_ms } | BackendEvent::PositionCorrected { position_ms } => {
            if active {
                let start_ms = start_timestamp(now_ms, position_ms);
                (Some(OutwardEvent::Playing { start_ms }), active)
            } else {
                (Some(OutwardEvent::Paused { position_ms }), active)
            }
        },
        BackendEvent::Paused { position_ms } => (Some(OutwardEvent::Paused { position_ms }), false),
        BackendEvent::Stopped => (Some(OutwardEvent::Stopped), false),
        BackendEvent::EndOfTrack => (Some(OutwardEvent::FinishedTrack), active),
        BackendEvent::PreloadWindowReached => (Some(OutwardEvent::PreloadRequested), active),
        BackendEvent::Loading
        | BackendEvent::Preloading
        | BackendEvent::Unavailable
        | BackendEvent::VolumeChanged
        | BackendEvent::TrackChanged
        | BackendEvent::SessionConnected
        | BackendEvent::SessionDisconnected
        | BackendEvent::SessionClientChanged
        | BackendEvent::ShuffleChanged
        | BackendEvent::RepeatChanged
        | BackendEvent::AutoPlayChanged
        | BackendEvent::FilterExplicitContentChanged => (None, active),
    }
}

} // verus!
