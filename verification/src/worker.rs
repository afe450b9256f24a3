//! The worker itself: its state, what one iteration of its loop does with
//! whichever input arrived first, and a replay of the loop over a script of
//! such arrivals.

use crate::command::{command_effects, plan_load, plan_preload, Effect, WorkerCommand};
use crate::events::{active_after, outward_event, translate, BackendEvent, OutwardEvent};
use crate::ident::parse_uri;
use vstd::prelude::*;

verus! {

/// Period of the refresh timer, in milliseconds.
pub const REFRESH_PERIOD_MS: u64 = 400;

/// What the loop's wait yielded: the one input, of four sources, that became
/// ready first.
#[derive(Debug)]
pub enum Wake<R> {
    Command(WorkerCommand<R>),
    /// The command channel has no sender left.
    CommandsClosed,
    /// A backend notification, and the wall-clock time of its receipt in
    /// milliseconds since the Unix epoch.
    Backend(BackendEvent, i64),
    /// The backend-event channel has no sender left.
    BackendClosed,
    /// The refresh timer fired.
    Tick,
    /// The token fetch that was in flight has finished.
    TokenTaskDone,
}

/// One iteration of the loop as seen from outside: what the health check at
/// its top found, and what the wait would yield after it.
#[derive(Debug)]
pub struct Turn<R> {
    pub session_invalid: bool,
    pub wake: Wake<R>,
}

/// What one iteration asks for: effects, in order, and whether the loop ends.
#[derive(Debug)]
pub struct Outcome<R> {
    pub effects: Vec<Effect<R>>,
    pub terminate: bool,
}

/// What a replay of the loop produced.
#[derive(Debug)]
pub struct Run<R> {
    /// All effects, in order.
    pub effects: Vec<Effect<R>>,
    /// Number of iterations begun.
    pub turns: usize,
    /// Whether the loop ended of itself, rather than ran out of script.
    pub terminated: bool,
}

/// The worker's state as a mathematical value.
pub struct WorkerState<R> {
    /// Whether the backend last reported that audio is flowing.
    pub active: bool,
    /// The channel of the token request being served, if there is one.
    pub reply_to: Option<R>,
}

/// The state a worker starts in: not active, no token request pending.
pub open spec fn initial_state<R>() -> WorkerState<R> {
    WorkerState { active: false, reply_to: None }
}

/// The effects of handling `wake` in state `s`.
pub open spec fn wake_effects<R>(s: WorkerState<R>, wake: Wake<R>) -> Seq<Effect<R>> {
    match wake {
        Wake::Command(cmd) => command_effects(cmd),
        Wake::CommandsClosed => seq![],
        Wake::Backend(event, now_ms) => match outward_event(s.active, event, now_ms) {
            Some(e) => seq![Effect::Emit(e)],
            None => seq![],
        },
        Wake::BackendClosed => seq![],
        Wake::Tick => if s.active {
            seq![Effect::Refresh]
        } else {
            seq![]
        },
        Wake::TokenTaskDone => match s.reply_to {
            Some(r) => seq![Effect::Reply(r)],
            None => seq![],
        },
    }
}

/// The state after handling `wake` in state `s`. Only the backend changes
/// the activity flag; a token request takes the slot over, whatever it held,
/// and the end of a fetch empties it.
pub open spec fn state_after_wake<R>(s: WorkerState<R>, wake: Wake<R>) -> WorkerState<R> {
    match wake {
        Wake::Command(WorkerCommand::RequestToken(r)) => WorkerState { reply_to: Some(r), ..s },
        Wake::Backend(event, _) => WorkerState { active: active_after(s.active, event), ..s },
        Wake::TokenTaskDone => WorkerState { reply_to: None, ..s },
        _ => s,
    }
}

/// Whether `wake` ends the loop: only the loss of the backend-event channel
/// does.
pub open spec fn wake_is_fatal<R>(wake: Wake<R>) -> bool {
    wake is BackendClosed
}

/// The effects of one iteration: an invalid session is reported as `Stopped`
/// and nothing else happens; otherwise the wake is handled.
pub open spec fn turn_effects<R>(s: WorkerState<R>, turn: Turn<R>) -> Seq<Effect<R>> {
    if turn.session_invalid {
        seq![Effect::Emit(OutwardEvent::Stopped)]
    } else {
        wake_effects(s, turn.wake)
    }
}

/// The state after one iteration.
pub open spec fn state_after_turn<R>(s: WorkerState<R>, turn: Turn<R>) -> WorkerState<R> {
    if turn.session_invalid {
        s
    } else {
        state_after_wake(s, turn.wake)
    }
}

/// Whether the loop ends with this iteration.
pub open spec fn turn_is_last<R>(turn: Turn<R>) -> bool {
    turn.session_invalid || wake_is_fatal(turn.wake)
}

/// How many iterations the loop begins on `script`: up to and including the
/// first that ends it.
pub open spec fn turns_taken<R>(script: Seq<Turn<R>>) -> nat
    decreases script.len(),
{
    if script.len() == 0 {
        0
    } else if turn_is_last(script[0]) {
        1
    } else {
        1 + turns_taken(script.drop_first())
    }
}

/// Whether the loop ends of itself somewhere on `script`.
pub open spec fn terminates<R>(script: Seq<Turn<R>>) -> bool {
    exists|i: int| 0 <= i < script.len() && turn_is_last(#[trigger] script[i])
}

/// The state in which a loop started in `s` leaves the worker after `script`.
pub open spec fn state_after_run<R>(s: WorkerState<R>, script: Seq<Turn<R>>) -> WorkerState<R>
    decreases script.len(),
{
    if script.len() == 0 {
        s
    } else if turn_is_last(script[0]) {
        state_after_turn(s, script[0])
    } else {
        state_after_run(state_after_turn(s, script[0]), script.drop_first())
    }
}

/// All effects of a loop started in `s` and fed `script`, in order.
pub open spec fn run_effects<R>(s: WorkerState<R>, script: Seq<Turn<R>>) -> Seq<Effect<R>>
    decreases script.len(),
{
    if script.len() == 0 {
        seq![]
    } else if turn_is_last(script[0]) {
        turn_effects(s, script[0])
    } else {
        turn_effects(s, script[0]) + run_effects(
            state_after_turn(s, script[0]),
            script.drop_first(),
        )
    }
}

/// The state of the actor: the activity flag and the slot for one pending
/// token request.
pub struct Worker<R> {
    active: bool,
    reply_to: Option<R>,
}

impl<R> View for Worker<R> {
    type V = WorkerState<R>;

    closed spec fn view(&self) -> WorkerState<R> {
        WorkerState { active: self.active, reply_to: self.reply_to }
    }
}

impl<R> Worker<R> {
    /// A worker that is not active and serves no token request.
    pub fn new() -> (worker: Self)
        ensures
            worker@ == initial_state::<R>(),
    {
        Worker { active: false, reply_to: None }
    }

    /// Whether the backend last reported that audio is flowing.
    pub fn is_active(&self) -> (b: bool)
        ensures
            b == self@.active,
    {
        self.active
    }

    /// Whether a token request is waiting for its fetch to finish.
    pub fn has_pending_request(&self) -> (b: bool)
        ensures
            b == self@.reply_to is Some,
    {
        self.reply_to.is_some()
    }

    /// The health check at the top of an iteration: `Some` with the final
    /// outcome where the session is invalid, `None` where the loop goes on to
    /// wait.
    pub fn check_session(&self, session_invalid: bool) -> (end: Option<Outcome<R>>)
        ensures
            end is Some <==> session_invalid,
            end matches Some(o) ==> o.terminate && o.effects@ == seq![
                Effect::<R>::Emit(OutwardEvent::Stopped),
            ],
    {
        if session_invalid {
            Some(Outcome { effects: vec![Effect::Emit(OutwardEvent::Stopped)], terminate: true })
        } else {
            None
        }
    }

    /// Applies one command.
    pub fn handle_command(&mut self, cmd: WorkerCommand<R>) -> (effects: Vec<Effect<R>>)
        ensures
            effects@ == wake_effects(old(self)@, Wake::Command(cmd)),
            final(self)@ == state_after_wake(old(self)@, Wake::Command(cmd)),
    {
        match cmd {
            WorkerCommand::Load(uri, autostart, offset_ms) => {
                let parsed = parse_uri(uri.as_str());
                vec![plan_load(parsed, autostart, offset_ms)]
            },
            WorkerCommand::Play => vec![Effect::Play],
            WorkerCommand::Pause => vec![Effect::Pause],
            WorkerCommand::Stop => vec![Effect::Stop],
            WorkerCommand::Seek(position_ms) => vec![Effect::Seek(position_ms)],
            WorkerCommand::SetVolume(level) => vec![Effect::SetVolume(level)],
            WorkerCommand::RequestToken(reply) => {
                self.reply_to = Some(reply);
                vec![Effect::FetchToken]
            },
            WorkerCommand::Preload(uri) => {
                let parsed = parse_uri(uri.as_str());
                plan_preload(parsed)
            },
            WorkerCommand::Shutdown => vec![Effect::Stop, Effect::ShutdownSession],
        }
    }

    /// Translates one backend notification received at `now_ms`.
    pub fn handle_backend_event(&mut self, event: BackendEvent, now_ms: i64) -> (effects: Vec<
        Effect<R>,
    >)
        ensures
            effects@ == wake_effects(old(self)@, Wake::Backend(event, now_ms)),
            final(self)@ == state_after_wake(old(self)@, Wake::<R>::Backend(event, now_ms)),
    {
        let (emitted, active) = translate(self.active, event, now_ms);
        self.active = active;
        match emitted {
            Some(e) => vec![Effect::Emit(e)],
            None => Vec::new(),
        }
    }

    /// Answers a tick of the refresh timer.
    pub fn handle_tick(&self) -> (effects: Vec<Effect<R>>)
        ensures
            effects@ == wake_effects(self@, Wake::Tick),
    {
        if self.active {
            vec![Effect::Refresh]
        } else {
            Vec::new()
        }
    }

    /// Takes note that the token fetch in flight has finished.
    pub fn handle_token_done(&mut self) -> (effects: Vec<Effect<R>>)
        ensures
            effects@ == wake_effects(old(self)@, Wake::TokenTaskDone),
            final(self)@ == state_after_wake(old(self)@, Wake::TokenTaskDone),
    {
        match self.reply_to.take() {
            Some(reply) => vec![Effect::Reply(reply)],
            None => Vec::new(),
        }
    }

    /// Handles whatever the wait yielded.
    pub fn handle(&mut self, wake: Wake<R>) -> (outcome: Outcome<R>)
        ensures
            outcome.effects@ == wake_effects(old(self)@, wake),
            outcome.terminate == wake_is_fatal(wake),
            final(self)@ == state_after_wake(old(self)@, wake),
    {
        match wake {
            Wake::Command(cmd) => Outcome { effects: self.handle_command(cmd), terminate: false },
            Wake::CommandsClosed => Outcome { effects: Vec::new(), terminate: false },
            Wake::Backend(event, now_ms) => Outcome {
                effects: self.handle_backend_event(event, now_ms),
                terminate: false,
            },
            Wake::BackendClosed => Outcome { effects: Vec::new(), terminate: true },
            Wake::Tick => Outcome { effects: self.handle_tick(), terminate: false },
            Wake::TokenTaskDone => Outcome { effects: self.handle_token_done(), terminate: false },
        }
    }

    /// One full iteration: the health check, then the wake.
    pub fn step(&mut self, turn: Turn<R>) -> (outcome: Outcome<R>)
        ensures
            outcome.effects@ == turn_effects(old(self)@, turn),
            outcome.terminate == turn_is_last(turn),
            final(self)@ == state_after_turn(old(self)@, turn),
    {
        match self.check_session(turn.session_invalid) {
            Some(end) => end,
            None => self.handle(turn.wake),
        }
    }

    /// What is owed when the worker goes away, on whatever path: playback is
    /// stopped.
    pub fn on_drop(&self) -> (effect: Effect<R>)
        ensures
            effect == Effect::<R>::Stop,
    {
        Effect::Stop
    }

    /// Replays the loop over `script`, one iteration per turn, until an
    /// iteration ends the loop or the script runs out. Turns after the last
    /// iteration are left unprocessed.
    pub fn run_loop(&mut self, script: Vec<Turn<R>>) -> (run: Run<R>)
        ensures
            run.effects@ == run_effects(old(self)@, script@),
            run.turns == turns_taken(script@),
            run.terminated == terminates(script@),
            final(self)@ == state_after_run(old(self)@, script@),
    {
        let ghost start = self@;
        let ghost turns_seq = script@;
        let len = script.len();
        let mut effects: Vec<Effect<R>> = Vec::new();
        let mut turns: usize = 0;
        let mut terminated = false;
        assert(turns_seq.skip(0) == turns_seq);
        for turn in it: script.into_iter()
            invariant_except_break
                !terminated,
                it.seq() == turns_seq,
                turns_seq.len() == len,
                turns == it.index(),
                forall|j: int| 0 <= j < it.index() ==> !turn_is_last(#[trigger] turns_seq[j]),
                run_effects(start, turns_seq) == effects@ + run_effects(
                    self@,
                    turns_seq.skip(it.index() as int),
                ),
                state_after_run(start, turns_seq) == state_after_run(
                    self@,
                    turns_seq.skip(it.index() as int),
                ),
                turns_taken(turns_seq) == turns + turns_taken(turns_seq.skip(it.index() as int)),
            ensures
                effects@ == run_effects(start, turns_seq),
                self@ == state_after_run(start, turns_seq),
                turns == turns_taken(turns_seq),
                terminated == terminates(turns_seq),
        {
            let ghost rest = turns_seq.skip(it.index() as int);
            assert(rest.drop_first() == turns_seq.skip(it.index() + 1));
            let mut outcome = self.step(turn);
            effects.append(&mut outcome.effects);
            turns += 1;
            if outcome.terminate {
                terminated = true;
                break;
            }
        }
        Run { effects, turns, terminated }
    }
}

} // verus!
