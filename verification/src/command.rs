//! The commands a controller sends to the worker, and the effects the worker
//! asks its surroundings to perform.

use crate::events::OutwardEvent;
use crate::ident::{item_of_uri, ItemId};
use vstd::prelude::*;

verus! {

/// A playback command. `R` is the channel on which the answer to a token
/// request travels back; the worker only stores it and hands it out again.
#[derive(Debug)]
pub enum WorkerCommand<R> {
    /// Load the item with this URI; start playing at once if the flag is set;
    /// begin at the given offset in milliseconds.
    Load(String, bool, u32),
    Play,
    Pause,
    Stop,
    Seek(u32),
    SetVolume(u16),
    RequestToken(R),
    Preload(String),
    Shutdown,
}

/// Something the worker wants done: a call on the backend, a publication on
/// the outward bus, or a step in serving a token request.
#[derive(Debug, PartialEq, Eq)]
pub enum Effect<R> {
    /// Publish a state-change event.
    Emit(OutwardEvent),
    /// Publish a refresh signal, so that observers recompute elapsed time.
    Refresh,
    Load(ItemId, bool, u32),
    Play,
    Pause,
    Stop,
    Seek(u32),
    SetVolume(u16),
    Preload(ItemId),
    /// Tear the backend session down.
    ShutdownSession,
    /// Start fetching a fresh access token with [`TOKEN_SCOPES`], abandoning
    /// any fetch still in flight.
    FetchToken,
    /// Send the outcome of the fetch that just finished through this channel.
    Reply(R),
}

/// The permissions every requested access token is scoped to.
pub const TOKEN_SCOPES: &'static str =
    "user-read-private,playlist-read-private,playlist-read-collaborative,playlist-modify-public,playlist-modify-private,user-follow-modify,user-follow-read,user-library-read,user-library-modify,user-top-read,user-read-recently-played";

/// What a `Load` does once its URI has been parsed: a backend load for a
/// playable item; otherwise the track is reported as finished.
pub open spec fn load_effect<R>(parsed: Option<ItemId>, autostart: bool, offset_ms: u32) -> Effect<
    R,
> {
    match parsed {
        Some(id) => if id.playable() {
            Effect::Load(id, autostart, offset_ms)
        } else {
            Effect::Emit(OutwardEvent::FinishedTrack)
        },
        None => Effect::Emit(OutwardEvent::FinishedTrack),
    }
}

/// What a `Preload` does once its URI has been parsed: a backend preload for
/// any identifier, nothing where there is none.
pub open spec fn preload_effects<R>(parsed: Option<ItemId>) -> Seq<Effect<R>> {
    match parsed {
        Some(id) => seq![Effect::Preload(id)],
        None => seq![],
    }
}

/// The effects of a command, in the order in which they are to be performed.
pub open spec fn command_effects<R>(cmd: WorkerCommand<R>) -> Seq<Effect<R>> {
    match cmd {
        WorkerCommand::Load(uri, autostart, offset_ms) => seq![
            load_effect(item_of_uri(uri@), autostart, offset_ms),
        ],
        WorkerCommand::Play => seq![Effect::Play],
        WorkerCommand::Pause => seq![Effect::Pause],
        WorkerCommand::Stop => seq![Effect::Stop],
        WorkerCommand::Seek(position_ms) => seq![Effect::Seek(position_ms)],
        WorkerCommand::SetVolume(level) => seq![Effect::SetVolume(level)],
        WorkerCommand::RequestToken(_) => seq![Effect::FetchToken],
        WorkerCommand::Preload(uri) => preload_effects(item_of_uri(uri@)),
        WorkerCommand::Shutdown => seq![Effect::Stop, Effect::ShutdownSession],
    }
}

/// Decides what a `Load` does, given what its URI parsed to.
pub fn plan_load<R>(parsed: Option<ItemId>, autostart: bool, offset_ms: u32) -> (effect: Effect<R>)
    ensures
        effect == load_effect::<R>(parsed, autostart, offset_ms),
{
    match parsed {
        Some(id) => {
            if id.is_playable() {
                Effect::Load(id, autostart, offset_ms)
            } else {
                Effect::Emit(OutwardEvent::FinishedTrack)
            }
        },
        None => Effect::Emit(OutwardEvent::FinishedTrack),
    }
}

/// Decides what a `Preload` does, given what its URI parsed to.
pub fn plan_preload<R>(parsed: Option<ItemId>) -> (effects: Vec<Effect<R>>)
    ensures
        effects@ == preload_effects::<R>(parsed),
{
    match parsed {
        Some(id) => vec![Effect::Preload(id)],
        None => Vec::new(),
    }
}

} // verus!
