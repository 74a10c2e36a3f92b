//! The launch sequence: a fixed, timed series of process launches, as a state
//! machine.
//!
//! The machine decides; a runner outside this crate acts. The runner hands each
//! outcome to [`step`] as a [`RunEvent`], publishes the messages that come back in
//! order, and performs the returned [`RunAction`].

use vstd::prelude::*;
use vstd::string::*;
use crate::text::{push_decimal, spec_decimal};

verus! {

/// Seconds counted down between the launcher's start and the game's.
pub const LAUNCHER_TO_GAME_SECS: u8 = 10;

/// Seconds counted down between the game's start and the launcher's second start.
pub const GAME_TO_RELAUNCH_SECS: u8 = 60;

/// The two programs of the sequence.
#[derive(Clone, Copy, Debug, PartialEq, Eq, Structural)]
pub enum Target {
    /// The launcher, started first and once more at the end.
    Launcher,
    /// The game executable.
    Game,
}

/// Where a run stands.
#[derive(Clone, Copy, Debug, PartialEq, Eq, Structural)]
pub enum RunState {
    /// No run was started.
    Idle,
    /// The launcher's first start is under way.
    LaunchingA,
    /// Counting down to the game's start; the number is the one announced last.
    CountdownAB(u8),
    /// The game's start is under way.
    LaunchingB,
    /// Counting down to the launcher's second start; the number is the one announced last.
    CountdownBA(u8),
    /// The launcher's second start is under way.
    RelaunchingA,
    /// The run reached its end, whether or not the launcher's second start worked.
    Finished,
    /// The run ended early, at a first start that failed.
    Failed,
}

/// What the runner reports.
#[derive(Clone, Debug, PartialEq, Eq)]
pub enum RunEvent {
    /// A run is asked for.
    Start,
    /// The process asked for was started.
    Spawned,
    /// The process asked for could not be started; the text is the cause.
    SpawnFailed(String),
    /// One second has passed.
    Tick,
}

/// What the runner does next.
#[derive(Clone, Copy, Debug, PartialEq, Eq, Structural)]
pub enum RunAction {
    /// Start the given program, without waiting for it, and report the outcome.
    Spawn(Target),
    /// Wait one second, then report a tick.
    Sleep,
    /// Nothing is left to do.
    Done,
}

/// The outcome of one step.
#[derive(Clone, Debug, PartialEq, Eq)]
pub struct Step {
    /// The state after the event.
    pub state: RunState,
    /// The messages to publish, in order.
    pub messages: Vec<String>,
    /// What to do next.
    pub action: RunAction,
}

/// A [`RunEvent`] with its text as a sequence of characters.
pub enum RunEventView {
    Start,
    Spawned,
    SpawnFailed(Seq<char>),
    Tick,
}

/// A [`Step`] with its messages as sequences of characters.
pub struct StepView {
    pub state: RunState,
    pub messages: Seq<Seq<char>>,
    pub action: RunAction,
}

impl View for RunEvent {
    type V = RunEventView;

    open spec fn view(&self) -> RunEventView {
        match self {
            RunEvent::Start => RunEventView::Start,
            RunEvent::Spawned => RunEventView::Spawned,
            RunEvent::SpawnFailed(cause) => RunEventView::SpawnFailed(cause@),
            RunEvent::Tick => RunEventView::Tick,
        }
    }
}

impl View for Step {
    type V = StepView;

    open spec fn view(&self) -> StepView {
        StepView {
            state: self.state,
            messages: self.messages.deep_view(),
            action: self.action,
        }
    }
}

impl RunState {
    /// Whether a countdown state holds a number of its countdown.
    pub open spec fn well_formed(self) -> bool {
        match self {
            RunState::CountdownAB(n) => 1 <= n <= LAUNCHER_TO_GAME_SECS,
            RunState::CountdownBA(n) => 1 <= n <= GAME_TO_RELAUNCH_SECS,
            _ => true,
        }
    }

    /// Whether the run is over.
    pub open spec fn spec_is_terminal(self) -> bool {
        self == RunState::Finished || self == RunState::Failed
    }

    /// Whether a run was started and is not over.
    pub open spec fn spec_is_active(self) -> bool {
        self != RunState::Idle && !self.spec_is_terminal()
    }

    /// Whether the run is over.
    pub fn is_terminal(&self) -> (r: bool)
        ensures
            r == self.spec_is_terminal(),
    {
        match self {
            RunState::Finished => true,
            RunState::Failed => true,
            _ => false,
        }
    }

    /// Whether a run was started and is not over.
    pub fn is_active(&self) -> (r: bool)
        ensures
            r == self.spec_is_active(),
    {
        match self {
            RunState::Idle => false,
            RunState::Finished => false,
            RunState::Failed => false,
            _ => true,
        }
    }
}

/// The sentinel that closes every run.
pub open spec fn finished_text() -> Seq<char> {
    "FINISHED"@
}

/// The name a program goes by in messages.
pub open spec fn role_text(target: Target) -> Seq<char> {
    match target {
        Target::Launcher => "Battle.net"@,
        Target::Game => "WoW"@,
    }
}

/// The message for a first start that succeeded.
pub open spec fn launched_text(target: Target) -> Seq<char> {
    "Launched "@ + role_text(target)
}

/// The message for a first start that failed.
pub open spec fn failed_text(target: Target, cause: Seq<char>) -> Seq<char> {
    "Failed to launch "@ + role_text(target) + ": "@ + cause
}

/// The message for the launcher's second start.
pub open spec fn relaunched_text() -> Seq<char> {
    "Launched Battle.net (second)"@
}

/// The message for the launcher's second start when it failed.
pub open spec fn relaunch_failed_text(cause: Seq<char>) -> Seq<char> {
    "Failed to launch Battle.net (second): "@ + cause
}

/// The countdown message before the game's start, with `n` seconds left.
pub open spec fn waiting_game_text(n: nat) -> Seq<char> {
    "Waiting to launch WoW: "@ + spec_decimal(n) + "s"@
}

/// The countdown message before the launcher's second start, with `n` seconds left.
pub open spec fn waiting_relaunch_text(n: nat) -> Seq<char> {
    "Waiting before re-launching Battle.net: "@ + spec_decimal(n) + "s"@
}

/// What the runner is to do while the machine rests in `state`.
pub open spec fn spec_pending_action(state: RunState) -> RunAction {
    match state {
        RunState::Idle => RunAction::Done,
        RunState::LaunchingA => RunAction::Spawn(Target::Launcher),
        RunState::CountdownAB(_) => RunAction::Sleep,
        RunState::LaunchingB => RunAction::Spawn(Target::Game),
        RunState::CountdownBA(_) => RunAction::Sleep,
        RunState::RelaunchingA => RunAction::Spawn(Target::Launcher),
        RunState::Finished => RunAction::Done,
        RunState::Failed => RunAction::Done,
    }
}

/// The step for an event that the state does not wait for: nothing changes and
/// nothing is said.
pub open spec fn spec_stay(state: RunState) -> StepView {
    StepView { state, messages: Seq::empty(), action: spec_pending_action(state) }
}

/// The transition function of the launch sequence.
pub open spec fn spec_step(state: RunState, event: RunEventView) -> StepView {
    match (state, event) {
        (RunState::Idle, RunEventView::Start) => StepView {
            state: RunState::LaunchingA,
            messages: Seq::empty(),
            action: RunAction::Spawn(Target::Launcher),
        },
        (RunState::LaunchingA, RunEventView::Spawned) => StepView {
            state: RunState::CountdownAB(LAUNCHER_TO_GAME_SECS),
            messages: seq![
                launched_text(Target::Launcher),
                waiting_game_text(LAUNCHER_TO_GAME_SECS as nat),
            ],
            action: RunAction::Sleep,
        },
        (RunState::LaunchingA, RunEventView::SpawnFailed(cause)) => StepView {
            state: RunState::Failed,
            messages: seq![failed_text(Target::Launcher, cause), finished_text()],
            action: RunAction::Done,
        },
        (RunState::CountdownAB(n), RunEventView::Tick) => if n > 1 {
            StepView {
                state: RunState::CountdownAB((n - 1) as u8),
                messages: seq![waiting_game_text((n - 1) as nat)],
                action: RunAction::Sleep,
            }
        } else {
            StepView {
                state: RunState::LaunchingB,
                messages: Seq::empty(),
                action: RunAction::Spawn(Target::Game),
            }
        },
        (RunState::LaunchingB, RunEventView::Spawned) => StepView {
            state: RunState::CountdownBA(GAME_TO_RELAUNCH_SECS),
            messages: seq![
                launched_text(Target::Game),
                waiting_relaunch_text(GAME_TO_RELAUNCH_SECS as nat),
            ],
            action: RunAction::Sleep,
        },
        (RunState::LaunchingB, RunEventView::SpawnFailed(cause)) => StepView {
            state: RunState::Failed,
            messages: seq![failed_text(Target::Game, cause), finished_text()],
            action: RunAction::Done,
        },
        (RunState::CountdownBA(n), RunEventView::Tick) => if n > 1 {
            StepView {
                state: RunState::CountdownBA((n - 1) as u8),
                messages: seq![waiting_relaunch_text((n - 1) as nat)],
                action: RunAction::Sleep,
            }
        } else {
            StepView {
                state: RunState::RelaunchingA,
                messages: Seq::empty(),
                action: RunAction::Spawn(Target::Launcher),
            }
        },
        (RunState::RelaunchingA, RunEventView::Spawned) => StepView {
            state: RunState::Finished,
            messages: seq![relaunched_text(), finished_text()],
            action: RunAction::Done,
        },
        (RunState::RelaunchingA, RunEventView::SpawnFailed(cause)) => StepView {
            state: RunState::Finished,
            messages: seq![relaunch_failed_text(cause), finished_text()],
            action: RunAction::Done,
        },
        _ => spec_stay(state),
    }
}

/// The sentinel that closes every run.
pub fn finished_message() -> (s: String)
    ensures
        s@ == finished_text(),
{
    "FINISHED".to_owned()
}

/// Whether `message` is the sentinel that closes a run.
pub fn is_finished_message(message: &str) -> (r: bool)
    ensures
        r == (message@ == finished_text()),
{
    let sentinel = finished_message();
    let given = message.to_owned();
    given == sentinel
}

/// The name a program goes by in messages.
pub fn role(target: Target) -> (r: &'static str)
    ensures
        r@ == role_text(target),
{
    match target {
        Target::Launcher => "Battle.net",
        Target::Game => "WoW",
    }
}

/// The message for a first start that succeeded.
pub fn launched_message(target: Target) -> (s: String)
    ensures
        s@ == launched_text(target),
{
    let mut s = "Launched ".to_owned();
    s.append(role(target));
    s
}

/// The message for a first start that failed for the given cause.
pub fn failed_message(target: Target, cause: &str) -> (s: String)
    ensures
        s@ == failed_text(target, cause@),
{
    let mut s = "Failed to launch ".to_owned();
    s.append(role(target));
    s.append(": ");
    s.append(cause);
    s
}

/// The message for the launcher's second start.
pub fn relaunched_message() -> (s: String)
    ensures
        s@ == relaunched_text(),
{
    "Launched Battle.net (second)".to_owned()
}

/// The message for the launcher's second start when it failed for the given cause.
pub fn relaunch_failed_message(cause: &str) -> (s: String)
    ensures
        s@ == relaunch_failed_text(cause@),
{
    let mut s = "Failed to launch Battle.net (second): ".to_owned();
    s.append(cause);
    s
}

/// The countdown message before the game's start, with `n` seconds left.
pub fn waiting_game_message(n: u8) -> (s: String)
    ensures
        s@ == waiting_game_text(n as nat),
{
    let mut s = "Waiting to launch WoW: ".to_owned();
    push_decimal(&mut s, n);
    s.append("s");
    s
}

/// The countdown message before the launcher's second start, with `n` seconds left.
pub fn waiting_relaunch_message(n: u8) -> (s: String)
    ensures
        s@ == waiting_relaunch_text(n as nat),
{
    let mut s = "Waiting before re-launching Battle.net: ".to_owned();
    push_decimal(&mut s, n);
    s.append("s");
    s
}

/// What the runner is to do while the machine rests in `state`.
pub fn pending_action(state: RunState) -> (action: RunAction)
    ensures
        action == spec_pending_action(state),
{
    match state {
        RunState::Idle => RunAction::Done,
        RunState::LaunchingA => RunAction::Spawn(Target::Launcher),
        RunState::CountdownAB(_) => RunAction::Sleep,
        RunState::LaunchingB => RunAction::Spawn(Target::Game),
        RunState::CountdownBA(_) => RunAction::Sleep,
        RunState::RelaunchingA => RunAction::Spawn(Target::Launcher),
        RunState::Finished => RunAction::Done,
        RunState::Failed => RunAction::Done,
    }
}

fn no_messages(state: RunState, action: RunAction) -> (r: Step)
    ensures
        r@ == (StepView { state, messages: Seq::empty(), action }),
{
    let r = Step { state, messages: Vec::new(), action };
    assert(r.messages.deep_view() =~= Seq::<Seq<char>>::empty());
    r
}

fn one_message(state: RunState, message: String, action: RunAction) -> (r: Step)
    ensures
        r@ == (StepView { state, messages: seq![message@], action }),
{
    let mut messages: Vec<String> = Vec::new();
    messages.push(message);
    let r = Step { state, messages, action };
    assert(r.messages.deep_view() =~= seq![message@]);
    r
}

fn two_messages(state: RunState, first: String, second: String, action: RunAction) -> (r: Step)
    ensures
        r@ == (StepView { state, messages: seq![first@, second@], action }),
{
    let mut messages: Vec<String> = Vec::new();
    messages.push(first);
    messages.push(second);
    let r = Step { state, messages, action };
    assert(r.messages.deep_view() =~= seq![first@, second@]);
    r
}

/// Takes the machine from `state` through `event`: the next state, the messages to
/// publish and what the runner does next. An event that the state does not wait
/// for changes nothing and says nothing.
pub fn step(state: RunState, event: RunEvent) -> (r: Step)
    ensures
        r@ == spec_step(state, event@),
        state.well_formed() ==> r.state.well_formed(),
{
    match state {
        RunState::Idle => match event {
            RunEvent::Start => no_messages(
                RunState::LaunchingA,
                RunAction::Spawn(Target::Launcher),
            ),
            _ => no_messages(state, pending_action(state)),
        },
        RunState::LaunchingA => match event {
            RunEvent::Spawned => two_messages(
                RunState::CountdownAB(LAUNCHER_TO_GAME_SECS),
                launched_message(Target::Launcher),
                waiting_game_message(LAUNCHER_TO_GAME_SECS),
                RunAction::Sleep,
            ),
            RunEvent::SpawnFailed(cause) => two_messages(
                RunState::Failed,
                failed_message(Target::Launcher, cause.as_str()),
                finished_message(),
                RunAction::Done,
            ),
            _ => no_messages(state, pending_action(state)),
        },
        RunState::CountdownAB(n) => match event {
            RunEvent::Tick => if n > 1 {
                one_message(
                    RunState::CountdownAB(n - 1),
                    waiting_game_message(n - 1),
                    RunAction::Sleep,
                )
            } else {
                no_messages(RunState::LaunchingB, RunAction::Spawn(Target::Game))
            },
            _ => no_messages(state, pending_action(state)),
        },
        RunState::LaunchingB => match event {
            RunEvent::Spawned => two_messages(
                RunState::CountdownBA(GAME_TO_RELAUNCH_SECS),
                launched_message(Target::Game),
                waiting_relaunch_message(GAME_TO_RELAUNCH_SECS),
                RunAction::Sleep,
            ),
            RunEvent::SpawnFailed(cause) => two_messages(
                RunState::Failed,
                failed_message(Target::Game, cause.as_str()),
                finished_message(),
                RunAction::Done,
            ),
            _ => no_messages(state, pending_action(state)),
        },
        RunState::CountdownBA(n) => match event {
            RunEvent::Tick => if n > 1 {
                one_message(
                    RunState::CountdownBA(n - 1),
                    waiting_relaunch_message(n - 1),
                    RunAction::Sleep,
                )
            } else {
                no_messages(RunState::RelaunchingA, RunAction::Spawn(Target::Launcher))
            },
            _ => no_messages(state, pending_action(state)),
        },
        RunState::RelaunchingA => match event {
            RunEvent::Spawned => two_messages(
                RunState::Finished,
                relaunched_message(),
                finished_message(),
                RunAction::Done,
            ),
            RunEvent::SpawnFailed(cause) => two_messages(
                RunState::Finished,
                relaunch_failed_message(cause.as_str()),
                finished_message(),
                RunAction::Done,
            ),
            _ => no_messages(state, pending_action(state)),
        },
        RunState::Finished => no_messages(state, pending_action(state)),
        RunState::Failed => no_messages(state, pending_action(state)),
    }
}

/// Where a series of events leaves the machine, and all that was said on the way.
pub struct RunTrace {
    pub state: RunState,
    pub messages: Seq<Seq<char>>,
}

/// The machine taken from `state` through `events`, one after the other.
pub open spec fn spec_run(state: RunState, events: Seq<RunEventView>) -> RunTrace
    decreases events.len(),
{
    if events.len() == 0 {
        RunTrace { state, messages: Seq::empty() }
    } else {
        let first = spec_step(state, events[0]);
        let rest = spec_run(first.state, events.skip(1));
        RunTrace { state: rest.state, messages: first.messages + rest.messages }
    }
}

/// `n` ticks in a row.
pub open spec fn ticks(n: nat) -> Seq<RunEventView> {
    Seq::new(n, |i: int| RunEventView::Tick)
}

/// The countdown before the game's start as it is announced: `from` messages, the
/// first with `from` seconds left, the last with one.
pub open spec fn game_countdown_texts(from: nat) -> Seq<Seq<char>> {
    Seq::new(from, |i: int| waiting_game_text((from - i) as nat))
}

/// The countdown before the launcher's second start as it is announced: `from`
/// messages, the first with `from` seconds left, the last with one.
pub open spec fn relaunch_countdown_texts(from: nat) -> Seq<Seq<char>> {
    Seq::new(from, |i: int| waiting_relaunch_text((from - i) as nat))
}

/// The events of a run in which every start succeeds.
pub open spec fn successful_run_events() -> Seq<RunEventView> {
    seq![RunEventView::Start, RunEventView::Spawned] + ticks(LAUNCHER_TO_GAME_SECS as nat)
        + seq![RunEventView::Spawned] + ticks(GAME_TO_RELAUNCH_SECS as nat)
        + seq![RunEventView::Spawned]
}

/// The sentinel marks the end and nothing else: a step says it exactly when it
/// ends the run, and then as the last thing it says.
pub proof fn lemma_sentinel_marks_the_end(state: RunState, event: RunEventView)
    ensures
        spec_step(state, event).messages.contains(finished_text()) <==> (!state.spec_is_terminal()
            && spec_step(state, event).state.spec_is_terminal()),
        forall|i: int|
            0 <= i < spec_step(state, event).messages.len() - 1 ==> spec_step(
                state,
                event,
            ).messages[i] != finished_text(),
        spec_step(state, event).messages.contains(finished_text()) ==> spec_step(
            state,
            event,
        ).messages.last() == finished_text(),
{
    reveal_strlit("FINISHED");
    reveal_strlit("Launched ");
    reveal_strlit("Failed to launch ");
    reveal_strlit("Launched Battle.net (second)");
    reveal_strlit("Failed to launch Battle.net (second): ");
    reveal_strlit("Waiting to launch WoW: ");
    reveal_strlit("Waiting before re-launching Battle.net: ");
    let said = spec_step(state, event).messages;
    let sentinel = finished_text();
    assert forall|t: Target| launched_text(t) != sentinel by {
        assert(launched_text(t)[0] == 'L');
    }
    assert forall|t: Target, cause: Seq<char>| failed_text(t, cause) != sentinel by {
        assert(failed_text(t, cause)[1] == 'a');
    }
    assert forall|cause: Seq<char>| relaunch_failed_text(cause) != sentinel by {
        assert(relaunch_failed_text(cause)[1] == 'a');
    }
    assert(relaunched_text()[0] == 'L');
    assert forall|n: nat|
        waiting_game_text(n) != sentinel && waiting_relaunch_text(n) != sentinel by {
        assert(waiting_game_text(n)[0] == 'W');
        assert(waiting_relaunch_text(n)[0] == 'W');
    }
    if said.contains(sentinel) {
        let i = choose|i: int| 0 <= i < said.len() && said[i] == sentinel;
        assert(said[i] == sentinel);
    }
    if !state.spec_is_terminal() && spec_step(state, event).state.spec_is_terminal() {
        assert(said[1] == sentinel);
    }
}

/// Running through `a` and then `b` is running through `a + b`.
pub proof fn lemma_run_concat(state: RunState, a: Seq<RunEventView>, b: Seq<RunEventView>)
    ensures
        spec_run(state, a + b).state == spec_run(spec_run(state, a).state, b).state,
        spec_run(state, a + b).messages == spec_run(state, a).messages + spec_run(
            spec_run(state, a).state,
            b,
        ).messages,
    decreases a.len(),
{
    if a.len() == 0 {
        assert(a + b =~= b);
        assert(Seq::<Seq<char>>::empty() + spec_run(state, b).messages =~= spec_run(
            state,
            b,
        ).messages);
    } else {
        let first = spec_step(state, a[0]);
        assert((a + b)[0] == a[0]);
        assert((a + b).skip(1) =~= a.skip(1) + b);
        lemma_run_concat(first.state, a.skip(1), b);
        let mid = spec_run(first.state, a.skip(1));
        let end = spec_run(mid.state, b);
        assert(first.messages + (mid.messages + end.messages) =~= (first.messages + mid.messages)
            + end.messages);
    }
}

/// A run that is over stays where it is and says nothing more, whatever is reported.
pub proof fn lemma_terminal_is_silent(state: RunState, events: Seq<RunEventView>)
    requires
        state.spec_is_terminal(),
    ensures
        spec_run(state, events) == (RunTrace { state, messages: Seq::empty() }),
    decreases events.len(),
{
    if events.len() > 0 {
        lemma_terminal_is_silent(state, events.skip(1));
        assert(Seq::<Seq<char>>::empty() + Seq::<Seq<char>>::empty() =~= Seq::<
            Seq<char>,
        >::empty());
    }
}

/// With `n` announced, `n` ticks bring the game's start and announce `n - 1` down to 1.
pub proof fn lemma_game_countdown(n: u8)
    requires
        1 <= n,
    ensures
        spec_run(RunState::CountdownAB(n), ticks(n as nat)) == (RunTrace {
            state: RunState::LaunchingB,
            messages: game_countdown_texts((n - 1) as nat),
        }),
    decreases n,
{
    let events = ticks(n as nat);
    let first = spec_step(RunState::CountdownAB(n), events[0]);
    assert(events.skip(1) =~= ticks((n - 1) as nat));
    if n > 1 {
        lemma_game_countdown((n - 1) as u8);
        assert(first.messages + game_countdown_texts((n - 2) as nat) =~= game_countdown_texts(
            (n - 1) as nat,
        ));
    } else {
        assert(spec_run(RunState::LaunchingB, ticks(0)).messages =~= Seq::<Seq<char>>::empty());
        assert(first.messages + Seq::<Seq<char>>::empty() =~= game_countdown_texts(0));
    }
}

/// With `n` announced, `n` ticks bring the launcher's second start and announce
/// `n - 1` down to 1.
pub proof fn lemma_relaunch_countdown(n: u8)
    requires
        1 <= n,
    ensures
        spec_run(RunState::CountdownBA(n), ticks(n as nat)) == (RunTrace {
            state: RunState::RelaunchingA,
            messages: relaunch_countdown_texts((n - 1) as nat),
        }),
    decreases n,
{
    let events = ticks(n as nat);
    let first = spec_step(RunState::CountdownBA(n), events[0]);
    assert(events.skip(1) =~= ticks((n - 1) as nat));
    if n > 1 {
        lemma_relaunch_countdown((n - 1) as u8);
        assert(first.messages + relaunch_countdown_texts((n - 2) as nat)
            =~= relaunch_countdown_texts((n - 1) as nat));
    } else {
        assert(spec_run(RunState::RelaunchingA, ticks(0)).messages =~= Seq::<Seq<char>>::empty());
        assert(first.messages + Seq::<Seq<char>>::empty() =~= relaunch_countdown_texts(0));
    }
}

/// One event is one step.
pub proof fn lemma_run_one(state: RunState, event: RunEventView)
    ensures
        spec_run(state, seq![event]) == (RunTrace {
            state: spec_step(state, event).state,
            messages: spec_step(state, event).messages,
        }),
{
    reveal_with_fuel(spec_run, 2);
    assert(seq![event].skip(1) =~= Seq::<RunEventView>::empty());
    assert(spec_step(state, event).messages + Seq::<Seq<char>>::empty() =~= spec_step(
        state,
        event,
    ).messages);
}

/// From the request to the moment the game is due: the launcher's start is said,
/// then the countdown from 10 to 1.
pub proof fn lemma_up_to_game_start()
    ensures
        spec_run(
            RunState::Idle,
            seq![RunEventView::Start, RunEventView::Spawned] + ticks(10),
        ) == (RunTrace {
            state: RunState::LaunchingB,
            messages: seq![launched_text(Target::Launcher)] + game_countdown_texts(10),
        }),
{
    let start = seq![RunEventView::Start];
    let spawned = seq![RunEventView::Spawned];
    lemma_run_one(RunState::Idle, RunEventView::Start);
    lemma_run_one(RunState::LaunchingA, RunEventView::Spawned);
    lemma_run_concat(RunState::Idle, start, spawned);
    assert(start + spawned =~= seq![RunEventView::Start, RunEventView::Spawned]);
    lemma_game_countdown(10);
    lemma_run_concat(RunState::Idle, start + spawned, ticks(10));
    let said = spec_run(RunState::Idle, start + spawned + ticks(10)).messages;
    assert(said =~= seq![launched_text(Target::Launcher)] + game_countdown_texts(10));
}

/// From the game's start to the moment the launcher is due again: the game's
/// start is said, then the countdown from 60 to 1.
pub proof fn lemma_up_to_relaunch()
    ensures
        spec_run(RunState::LaunchingB, seq![RunEventView::Spawned] + ticks(60)) == (RunTrace {
            state: RunState::RelaunchingA,
            messages: seq![launched_text(Target::Game)] + relaunch_countdown_texts(60),
        }),
{
    let spawned = seq![RunEventView::Spawned];
    lemma_run_one(RunState::LaunchingB, RunEventView::Spawned);
    lemma_relaunch_countdown(60);
    lemma_run_concat(RunState::LaunchingB, spawned, ticks(60));
    let said = spec_run(RunState::LaunchingB, spawned + ticks(60)).messages;
    assert(said =~= seq![launched_text(Target::Game)] + relaunch_countdown_texts(60));
}

/// A run whose first start fails says two things, the failure and the sentinel, and
/// never counts down: whatever is reported afterwards, the run stays failed and
/// silent.
pub proof fn lemma_first_start_failure(cause: Seq<char>, later: Seq<RunEventView>)
    ensures
        spec_run(
            RunState::Idle,
            seq![RunEventView::Start, RunEventView::SpawnFailed(cause)] + later,
        ) == (RunTrace {
            state: RunState::Failed,
            messages: seq![failed_text(Target::Launcher, cause), finished_text()],
        }),
{
    let start = seq![RunEventView::Start];
    let failed = seq![RunEventView::SpawnFailed(cause)];
    lemma_run_one(RunState::Idle, RunEventView::Start);
    lemma_run_one(RunState::LaunchingA, RunEventView::SpawnFailed(cause));
    lemma_run_concat(RunState::Idle, start, failed);
    assert(start + failed =~= seq![RunEventView::Start, RunEventView::SpawnFailed(cause)]);
    lemma_terminal_is_silent(RunState::Failed, later);
    lemma_run_concat(RunState::Idle, start + failed, later);
    let said = spec_run(RunState::Idle, start + failed + later).messages;
    assert(said =~= seq![failed_text(Target::Launcher, cause), finished_text()]);
}

/// A run whose game start fails says thirteen things: the launcher's start, the
/// countdown from 10 to 1, the failure and the sentinel. Whatever is reported
/// afterwards, the run stays failed and silent.
pub proof fn lemma_game_start_failure(cause: Seq<char>, later: Seq<RunEventView>)
    ensures
        spec_run(
            RunState::Idle,
            seq![RunEventView::Start, RunEventView::Spawned] + ticks(10) + seq![
                RunEventView::SpawnFailed(cause),
            ] + later,
        ) == (RunTrace {
            state: RunState::Failed,
            messages: seq![launched_text(Target::Launcher)] + game_countdown_texts(10) + seq![
                failed_text(Target::Game, cause),
                finished_text(),
            ],
        }),
{
    let opening = seq![RunEventView::Start, RunEventView::Spawned] + ticks(10);
    let failed = seq![RunEventView::SpawnFailed(cause)];
    lemma_up_to_game_start();
    lemma_run_one(RunState::LaunchingB, RunEventView::SpawnFailed(cause));
    lemma_run_concat(RunState::Idle, opening, failed);
    lemma_terminal_is_silent(RunState::Failed, later);
    lemma_run_concat(RunState::Idle, opening + failed, later);
    let said = spec_run(RunState::Idle, opening + failed + later).messages;
    assert(said =~= seq![launched_text(Target::Launcher)] + game_countdown_texts(10) + seq![
        failed_text(Target::Game, cause),
        finished_text(),
    ]);
}

/// A run whose last start fails still runs to its end: it says 74 things, the
/// failure in the place of the launcher's second start, and the sentinel last.
pub proof fn lemma_second_start_failure(cause: Seq<char>)
    ensures
        spec_run(
            RunState::Idle,
            seq![RunEventView::Start, RunEventView::Spawned] + ticks(10) + seq![
                RunEventView::Spawned,
            ] + ticks(60) + seq![RunEventView::SpawnFailed(cause)],
        ) == (RunTrace {
            state: RunState::Finished,
            messages: seq![launched_text(Target::Launcher)] + game_countdown_texts(10) + seq![
                launched_text(Target::Game),
            ] + relaunch_countdown_texts(60) + seq![relaunch_failed_text(cause), finished_text()],
        }),
        spec_run(
            RunState::Idle,
            seq![RunEventView::Start, RunEventView::Spawned] + ticks(10) + seq![
                RunEventView::Spawned,
            ] + ticks(60) + seq![RunEventView::SpawnFailed(cause)],
        ).messages.len() == 74,
{
    let opening = seq![RunEventView::Start, RunEventView::Spawned] + ticks(10);
    let middle = seq![RunEventView::Spawned] + ticks(60);
    let failed = seq![RunEventView::SpawnFailed(cause)];
    lemma_up_to_game_start();
    lemma_up_to_relaunch();
    lemma_run_one(RunState::RelaunchingA, RunEventView::SpawnFailed(cause));
    lemma_run_concat(RunState::Idle, opening, middle);
    lemma_run_concat(RunState::Idle, opening + middle, failed);
    assert(opening + middle + failed =~= opening + seq![RunEventView::Spawned] + ticks(60)
        + failed);
    let said = spec_run(RunState::Idle, opening + middle + failed).messages;
    assert(said =~= seq![launched_text(Target::Launcher)] + game_countdown_texts(10) + seq![
        launched_text(Target::Game),
    ] + relaunch_countdown_texts(60) + seq![relaunch_failed_text(cause), finished_text()]);
}

/// A run in which every start succeeds says 74 things in this order: the
/// launcher's start, the countdown from 10 to 1, the game's start, the countdown
/// from 60 to 1, the launcher's second start, the sentinel.
pub proof fn lemma_successful_run()
    ensures
        spec_run(RunState::Idle, successful_run_events()).state == RunState::Finished,
        spec_run(RunState::Idle, successful_run_events()).messages == seq![
            launched_text(Target::Launcher),
        ] + game_countdown_texts(10) + seq![launched_text(Target::Game)]
            + relaunch_countdown_texts(60) + seq![relaunched_text(), finished_text()],
        spec_run(RunState::Idle, successful_run_events()).messages.len() == 74,
{
    let opening = seq![RunEventView::Start, RunEventView::Spawned] + ticks(10);
    let middle = seq![RunEventView::Spawned] + ticks(60);
    let spawned = seq![RunEventView::Spawned];
    lemma_up_to_game_start();
    lemma_up_to_relaunch();
    lemma_run_one(RunState::RelaunchingA, RunEventView::Spawned);
    lemma_run_concat(RunState::Idle, opening, middle);
    lemma_run_concat(RunState::Idle, opening + middle, spawned);
    assert(opening + middle + spawned =~= successful_run_events());
    let said = spec_run(RunState::Idle, successful_run_events()).messages;
    assert(said =~= seq![launched_text(Target::Launcher)] + game_countdown_texts(10) + seq![
        launched_text(Target::Game),
    ] + relaunch_countdown_texts(60) + seq![relaunched_text(), finished_text()]);
}

} // verus!
