//! What holds of the worker on every input, stated over its model and proved.

use crate::command::{Effect, WorkerCommand};
use crate::events::{BackendEvent, OutwardEvent};
use crate::ident::item_of_uri;
use crate::worker::{
    run_effects, state_after_run, state_after_turn, state_after_wake, terminates, turn_is_last,
    turns_taken, wake_effects, Turn, Wake, WorkerState,
};
use vstd::prelude::*;

verus! {

/// A `Load` whose URI names no item, or names one that cannot be played, is
/// answered by exactly one `FinishedTrack` event: nothing is loaded, and the
/// state stays as it was.
pub proof fn unplayable_load_finishes_track<R>(
    s: WorkerState<R>,
    uri: String,
    autostart: bool,
    offset_ms: u32,
)
    requires
        item_of_uri(uri@) matches Some(id) ==> !id.playable(),
    ensures
        wake_effects(s, Wake::Command(WorkerCommand::Load(uri, autostart, offset_ms))) == seq![
            Effect::<R>::Emit(OutwardEvent::FinishedTrack),
        ],
        state_after_wake(s, Wake::Command(WorkerCommand::Load(uri, autostart, offset_ms))) == s,
{
}

/// A `Load` whose URI names a playable item loads exactly that item with the
/// flag and the offset of the command, and publishes nothing.
pub proof fn playable_load_reaches_backend<R>(
    s: WorkerState<R>,
    uri: String,
    autostart: bool,
    offset_ms: u32,
)
    requires
        item_of_uri(uri@) matches Some(id) && id.playable(),
    ensures
        wake_effects(s, Wake::Command(WorkerCommand::Load(uri, autostart, offset_ms))) == seq![
            Effect::<R>::Load(item_of_uri(uri@)->0, autostart, offset_ms),
        ],
        state_after_wake(s, Wake::Command(WorkerCommand::Load(uri, autostart, offset_ms))) == s,
{
}

/// On `Playing`, the published start time is the time of receipt minus the
/// position, without rounding or wrapping, and the worker becomes active.
pub proof fn playing_publishes_start_and_activates<R>(
    s: WorkerState<R>,
    position_ms: u32,
    now_ms: i64,
)
    ensures
        ({
            let wake = Wake::<R>::Backend(BackendEvent::Playing { position_ms }, now_ms);
            &&& wake_effects(s, wake).len() == 1
            &&& wake_effects(s, wake)[0] matches Effect::Emit(OutwardEvent::Playing { start_ms })
            &&& start_ms == now_ms - position_ms
            &&& state_after_wake(s, wake).active
            &&& state_after_wake(s, wake).reply_to == s.reply_to
        }),
{
}

/// A seek or a position correction is reported as `Playing` from the new
/// offset while the worker is active and as `Paused` at the new position
/// while it is not. It leaves the state alone, so the same event received
/// again at the same time is reported in the same way.
pub proof fn seek_follows_activity<R>(
    s: WorkerState<R>,
    event: BackendEvent,
    position_ms: u32,
    now_ms: i64,
)
    requires
        event == (BackendEvent::Seeked { position_ms })
            || event == (BackendEvent::PositionCorrected { position_ms }),
    ensures
        ({
            let wake = Wake::<R>::Backend(event, now_ms);
            &&& s.active ==> wake_effects(s, wake) == seq![
                Effect::<R>::Emit(
                    OutwardEvent::Playing { start_ms: (now_ms - position_ms) as i128 },
                ),
            ]
            &&& !s.active ==> wake_effects(s, wake) == seq![
                Effect::<R>::Emit(OutwardEvent::Paused { position_ms }),
            ]
            &&& state_after_wake(s, wake) == s
            &&& wake_effects(state_after_wake(s, wake), wake) == wake_effects(s, wake)
        }),
{
}

/// `Paused` is passed on with its position and clears the activity flag,
/// whatever it was.
pub proof fn paused_deactivates<R>(s: WorkerState<R>, position_ms: u32, now_ms: i64)
    ensures
        ({
            let wake = Wake::<R>::Backend(BackendEvent::Paused { position_ms }, now_ms);
            &&& wake_effects(s, wake) == seq![
                Effect::<R>::Emit(OutwardEvent::Paused { position_ms }),
            ]
            &&& !state_after_wake(s, wake).active
        }),
{
}

/// A tick publishes exactly one refresh signal while the worker is active
/// and nothing while it is not; it never changes the state.
pub proof fn tick_refreshes_only_while_active<R>(s: WorkerState<R>)
    ensures
        s.active ==> wake_effects(s, Wake::Tick) == seq![Effect::<R>::Refresh],
        !s.active ==> wake_effects(s, Wake::Tick) == Seq::<Effect<R>>::empty(),
        state_after_wake(s, Wake::Tick) == s,
{
}

/// The activity flag follows the backend alone: no command, tick, closed
/// channel or finished fetch changes it.
pub proof fn only_backend_events_change_activity<R>(s: WorkerState<R>, wake: Wake<R>)
    requires
        !(wake is Backend),
    ensures
        state_after_wake(s, wake).active == s.active,
{
}

/// Of two token requests made before any fetch finishes, the second takes the
/// slot: when the fetch finishes, exactly one reply is sent, on the second
/// request's channel and not on the first's, and the slot is empty again.
pub proof fn latest_token_request_wins<R>(s: WorkerState<R>, first: R, second: R)
    ensures
        ({
            let script = seq![
                Turn { session_invalid: false, wake: Wake::Command(WorkerCommand::RequestToken(first)) },
                Turn {
                    session_invalid: false,
                    wake: Wake::Command(WorkerCommand::RequestToken(second)),
                },
                Turn { session_invalid: false, wake: Wake::TokenTaskDone },
            ];
            &&& run_effects(s, script) == seq![
                Effect::FetchToken,
                Effect::FetchToken,
                Effect::Reply(second),
            ]
            &&& first != second ==> !run_effects(s, script).contains(Effect::Reply(first))
            &&& state_after_run(s, script).reply_to is None
            &&& state_after_run(s, script).active == s.active
        }),
{
    reveal_with_fuel(run_effects, 4);
    reveal_with_fuel(state_after_run, 4);
}

/// A fetch that finishes while no request holds the slot sends no reply.
pub proof fn no_reply_without_request<R>(s: WorkerState<R>)
    requires
        s.reply_to is None,
    ensures
        wake_effects(s, Wake::TokenTaskDone) == Seq::<Effect<R>>::empty(),
        state_after_wake(s, Wake::TokenTaskDone) == s,
{
}

/// Where the health check finds the session invalid, the loop publishes
/// `Stopped` once and ends: the wake of that iteration and every later turn
/// stay unprocessed, and the state is as it was.
pub proof fn invalid_session_ends_loop<R>(s: WorkerState<R>, script: Seq<Turn<R>>)
    requires
        script.len() > 0,
        script[0].session_invalid,
    ensures
        run_effects(s, script) == seq![Effect::<R>::Emit(OutwardEvent::Stopped)],
        turns_taken(script) == 1,
        terminates(script),
        state_after_run(s, script) == s,
{
}

/// Where the backend-event channel is found closed, the loop ends without
/// publishing anything, whatever is still queued behind.
pub proof fn backend_closure_ends_loop_silently<R>(s: WorkerState<R>, script: Seq<Turn<R>>)
    requires
        script.len() > 0,
        !script[0].session_invalid,
        script[0].wake is BackendClosed,
    ensures
        run_effects(s, script) == Seq::<Effect<R>>::empty(),
        turns_taken(script) == 1,
        terminates(script),
        state_after_run(s, script) == s,
{
}

/// A closed command channel is no reason to stop: the iteration does nothing
/// and the loop goes on with the turns that follow.
pub proof fn command_closure_is_not_fatal<R>(s: WorkerState<R>, script: Seq<Turn<R>>)
    requires
        script.len() > 0,
        !script[0].session_invalid,
        script[0].wake is CommandsClosed,
    ensures
        run_effects(s, script) == run_effects(s, script.drop_first()),
        turns_taken(script) == 1 + turns_taken(script.drop_first()),
        state_after_run(s, script) == state_after_run(s, script.drop_first()),
{
}

/// The loop begins no more iterations than the script has turns, and begins
/// all of them unless it ends of itself.
pub proof fn turns_taken_is_bounded<R>(script: Seq<Turn<R>>)
    ensures
        turns_taken(script) <= script.len(),
        !terminates(script) ==> turns_taken(script) == script.len(),
        terminates(script) ==> turns_taken(script) >= 1,
    decreases script.len(),
{
    if script.len() > 0 && !turn_is_last(script[0]) {
        turns_taken_is_bounded(script.drop_first());
    }
}

/// While the loop has not ended, it does not matter where a script is cut:
/// replaying the first part and then the rest from the state reached gives
/// what replaying the whole gives.
pub proof fn run_continues<R>(s: WorkerState<R>, first: Seq<Turn<R>>, rest: Seq<Turn<R>>)
    requires
        !terminates(first),
    ensures
        run_effects(s, first + rest) == run_effects(s, first) + run_effects(
            state_after_run(s, first),
            rest,
        ),
        state_after_run(s, first + rest) == state_after_run(state_after_run(s, first), rest),
        turns_taken(first + rest) == first.len() + turns_taken(rest),
        terminates(first + rest) == terminates(rest),
    decreases first.len(),
{
    if first.len() > 0 {
        let tail = first.drop_first();
        assert((first + rest).drop_first() == tail + rest);
        run_continues(state_after_turn(s, first[0]), tail, rest);
    }
}

/// Once the loop has ended, nothing that is still queued is processed:
/// turns behind the end change neither the effects nor the state.
pub proof fn nothing_follows_the_end<R>(s: WorkerState<R>, first: Seq<Turn<R>>, rest: Seq<Turn<R>>)
    requires
        terminates(first),
    ensures
        run_effects(s, first + rest) == run_effects(s, first),
        state_after_run(s, first + rest) == state_after_run(s, first),
        turns_taken(first + rest) == turns_taken(first),
        terminates(first + rest),
    decreases first.len(),
{
    let i = choose|i: int| 0 <= i < first.len() && turn_is_last(#[trigger] first[i]);
    if !turn_is_last(first[0]) {
        let tail = first.drop_first();
        assert(tail[i - 1] == first[i]);
        assert((first + rest).drop_first() == tail + rest);
        nothing_follows_the_end(state_after_turn(s, first[0]), tail, rest);
    }
}

} // verus!
