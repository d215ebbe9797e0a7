//! The supervisor worker as a state machine. The thread that owns the child
//! process performs each requested action (spawn, wait, poll, kill) and
//! reports the outcome back as the next input; every decision, and every
//! lifecycle event, comes from here.
use vstd::prelude::*;
use crate::appstate::{AppState, AppStateSender};
use crate::termsig::Reason;

verus! {

/// Where the worker stands.
#[derive(PartialEq, Eq, Structural, Clone, Copy, Debug)]
pub enum Phase {
    /// Start has been reported; the child is about to be spawned.
    Spawning,
    /// The child runs; the worker waits one tick for a termination request.
    Running,
    /// A tick passed without a request; the child's liveness is being checked.
    Checking,
    /// Stopping has been reported; the child is to be terminated.
    Terminating,
    /// Stopped has been reported; nothing more happens.
    Done,
}

/// What one non-blocking status query of the child found.
#[derive(PartialEq, Eq, Structural, Clone, Copy, Debug)]
pub enum Liveness {
    StillRunning,
    Exited,
    QueryFailed,
}

/// How an attempt to terminate the child ended.
#[derive(PartialEq, Eq, Structural, Clone, Copy, Debug)]
pub enum KillOutcome {
    Killed,
    AlreadyExited,
    Failed,
}

/// The outcome of the last requested action.
#[derive(PartialEq, Eq, Structural, Clone, Copy, Debug)]
pub enum Input {
    Spawned,
    SpawnFailed,
    Waited(Reason),
    Polled(Liveness),
    KillDone(KillOutcome),
}

/// What the owner of the child is to do next.
#[derive(PartialEq, Eq, Structural, Clone, Copy, Debug)]
pub enum Action {
    /// Spawn the child with the configured executable and arguments.
    Spawn,
    /// Wait one tick on the termination channel.
    Wait,
    /// Ask, without blocking, whether the child has exited.
    PollExit,
    /// Terminate the child.
    Kill,
    /// The run is over.
    Finish,
}

/// The action that a phase asks for while its expected input is missing.
pub open spec fn pending(phase: Phase) -> Action {
    match phase {
        Phase::Spawning => Action::Spawn,
        Phase::Running => Action::Wait,
        Phase::Checking => Action::PollExit,
        Phase::Terminating => Action::Kill,
        Phase::Done => Action::Finish,
    }
}

/// One transition: the next phase, the events emitted on the way, and the
/// next action. An input that does not answer the phase's action changes
/// nothing and asks for the same action again.
pub open spec fn next(phase: Phase, input: Input) -> (Phase, Seq<AppState>, Action) {
    match (phase, input) {
        (Phase::Spawning, Input::Spawned) => (Phase::Running, seq![AppState::Started], Action::Wait),
        (Phase::Spawning, Input::SpawnFailed) => (
            Phase::Done,
            seq![AppState::Stopping(0), AppState::Stopped],
            Action::Finish,
        ),
        (Phase::Running, Input::Waited(Reason::Timeout)) => (Phase::Checking, seq![], Action::PollExit),
        (Phase::Running, Input::Waited(_)) => (
            Phase::Terminating,
            seq![AppState::Stopping(0)],
            Action::Kill,
        ),
        (Phase::Checking, Input::Polled(Liveness::StillRunning)) => (Phase::Running, seq![], Action::Wait),
        (Phase::Checking, Input::Polled(Liveness::Exited)) => (
            Phase::Done,
            seq![AppState::Stopping(0), AppState::Stopped],
            Action::Finish,
        ),
        (Phase::Checking, Input::Polled(Liveness::QueryFailed)) => (
            Phase::Terminating,
            seq![AppState::Stopping(0)],
            Action::Kill,
        ),
        (Phase::Terminating, Input::KillDone(_)) => (Phase::Done, seq![AppState::Stopped], Action::Finish),
        _ => (phase, seq![], pending(phase)),
    }
}

/// The events a run emits before its first input.
pub open spec fn opening() -> Seq<AppState> {
    seq![AppState::Starting(1), AppState::Starting(2)]
}

/// A whole run fed with `inputs`: the phase it ends in, every event it
/// emitted, and every action it requested, in order.
pub open spec fn run(inputs: Seq<Input>) -> (Phase, Seq<AppState>, Seq<Action>)
    decreases inputs.len(),
{
    if inputs.len() == 0 {
        (Phase::Spawning, opening(), seq![Action::Spawn])
    } else {
        let before = run(inputs.drop_last());
        let step = next(before.0, inputs.last());
        (step.0, before.1 + step.1, before.2.push(step.2))
    }
}

/// One more input extends a run by exactly one transition.
pub proof fn lemma_run_push(inputs: Seq<Input>, input: Input)
    ensures
        run(inputs.push(input)) == ({
            let before = run(inputs);
            let step = next(before.0, input);
            (step.0, before.1 + step.1, before.2.push(step.2))
        }),
{
    assert(inputs.push(input).drop_last() =~= inputs);
}

/// The worker: its phase and the producing end of the status channel.
pub struct Supervisor {
    phase: Phase,
    tx: AppStateSender,
    /// Events on the channel before this run began.
    base: Ghost<Seq<AppState>>,
    /// Every input fed so far.
    inputs: Ghost<Seq<Input>>,
}

impl Supervisor {
    pub closed spec fn phase(&self) -> Phase {
        self.phase
    }

    /// The inputs this run has been fed.
    pub closed spec fn inputs(&self) -> Seq<Input> {
        self.inputs@
    }

    /// The events this run has sent on the status channel.
    pub closed spec fn emitted(&self) -> Seq<AppState> {
        self.tx.sent().subrange(self.base@.len() as int, self.tx.sent().len() as int)
    }

    /// Every event on the status channel, this run's and any before it.
    pub closed spec fn channel_sent(&self) -> Seq<AppState> {
        self.tx.sent()
    }

    pub closed spec fn wf(&self) -> bool {
        &&& self.phase == run(self.inputs@).0
        &&& self.tx.sent() == self.base@ + run(self.inputs@).1
    }

    /// Starts a run: reports the two start checkpoints and asks for the
    /// spawn.
    pub fn start(tx: AppStateSender) -> (r: (Supervisor, Action))
        ensures
            r.0.wf(),
            r.0.inputs() == Seq::<Input>::empty(),
            r.0.phase() == Phase::Spawning,
            r.0.emitted() == opening(),
            r.0.channel_sent() == tx.sent() + opening(),
            r.1 == Action::Spawn,
    {
        let ghost base = tx.sent();
        let mut tx = tx;
        tx.starting(Some(1));
        tx.starting(Some(2));
        let sup = Supervisor { phase: Phase::Spawning, tx, base: Ghost(base), inputs: Ghost(Seq::empty()) };
        assert(sup.tx.sent() =~= base + opening());
        assert(sup.tx.sent().subrange(base.len() as int, sup.tx.sent().len() as int) =~= opening());
        (sup, Action::Spawn)
    }

    /// Feeds the outcome of the last action: emits the transition's events
    /// on the status channel and returns the next action.
    pub fn step(&mut self, input: Input) -> (action: Action)
        requires
            old(self).wf(),
        ensures
            final(self).wf(),
            final(self).inputs() == old(self).inputs().push(input),
            final(self).phase() == next(old(self).phase(), input).0,
            final(self).emitted() == old(self).emitted() + next(old(self).phase(), input).1,
            final(self).channel_sent() == old(self).channel_sent() + next(old(self).phase(), input).1,
            action == next(old(self).phase(), input).2,
    {
        proof {
            lemma_run_push(self.inputs@, input);
        }
        let ghost sent0 = self.tx.sent();
        let (phase, action) = match (self.phase, input) {
            (Phase::Spawning, Input::Spawned) => {
                self.tx.started();
                (Phase::Running, Action::Wait)
            },
            (Phase::Spawning, Input::SpawnFailed) => {
                self.tx.stopping(Some(0));
                self.tx.stopped();
                (Phase::Done, Action::Finish)
            },
            (Phase::Running, Input::Waited(Reason::Timeout)) => (Phase::Checking, Action::PollExit),
            (Phase::Running, Input::Waited(_)) => {
                self.tx.stopping(Some(0));
                (Phase::Terminating, Action::Kill)
            },
            (Phase::Checking, Input::Polled(Liveness::StillRunning)) => (Phase::Running, Action::Wait),
            (Phase::Checking, Input::Polled(Liveness::Exited)) => {
                self.tx.stopping(Some(0));
                self.tx.stopped();
                (Phase::Done, Action::Finish)
            },
            (Phase::Checking, Input::Polled(Liveness::QueryFailed)) => {
                self.tx.stopping(Some(0));
                (Phase::Terminating, Action::Kill)
            },
            (Phase::Terminating, Input::KillDone(_)) => {
                self.tx.stopped();
                (Phase::Done, Action::Finish)
            },
            (p, _) => (p, pending_action(p)),
        };
        self.phase = phase;
        self.inputs = Ghost(self.inputs@.push(input));
        proof {
            let out = next(old(self).phase, input).1;
            assert(self.tx.sent() =~= sent0 + out);
            assert(self.tx.sent() =~= self.base@ + run(self.inputs@).1);
            assert(old(self).emitted() =~= run(old(self).inputs@).1);
            assert(self.emitted() =~= run(self.inputs@).1);
        }
        action
    }

    /// A well-formed worker stands where the run model puts it after the
    /// inputs it has been fed, and has emitted exactly that run's events.
    pub proof fn lemma_follows_run(&self)
        requires
            self.wf(),
        ensures
            self.phase() == run(self.inputs()).0,
            self.emitted() == run(self.inputs()).1,
            phase_log(self.phase(), self.emitted()),
    {
        assert(self.emitted() =~= run(self.inputs@).1);
        lemma_phase_log(self.inputs@);
    }

    /// Whether the run is over.
    pub fn is_done(&self) -> (r: bool)
        ensures
            r == (self.phase() == Phase::Done),
    {
        self.phase == Phase::Done
    }

    /// Ends the run and hands back the producing end of the status channel.
    pub fn into_sender(self) -> (tx: AppStateSender)
        ensures
            tx.sent() == self.channel_sent(),
    {
        self.tx
    }
}

/// The action that a phase asks for while its expected input is missing.
pub fn pending_action(phase: Phase) -> (a: Action)
    ensures
        a == pending(phase),
{
    match phase {
        Phase::Spawning => Action::Spawn,
        Phase::Running => Action::Wait,
        Phase::Checking => Action::PollExit,
        Phase::Terminating => Action::Kill,
        Phase::Done => Action::Finish,
    }
}

/// `Starting+ Started? Stopping+ Stopped`, split at `a` (first index past
/// the start checkpoints) and `b` (first stop checkpoint).
pub open spec fn log_split(s: Seq<AppState>, a: int, b: int) -> bool {
    &&& 1 <= a <= b <= a + 1
    &&& b < s.len() - 1
    &&& forall|i: int| 0 <= i < a ==> #[trigger] s[i] is Starting
    &&& forall|i: int| a <= i < b ==> #[trigger] s[i] is Started
    &&& forall|i: int| b <= i < s.len() - 1 ==> #[trigger] s[i] is Stopping
    &&& s.last() is Stopped
}

/// The events of a finished run: `Starting+ Started? Stopping+ Stopped`.
pub open spec fn complete_log(s: Seq<AppState>) -> bool {
    exists|a: int, b: int| log_split(s, a, b)
}

/// The events of a run still under way: a prefix of a finished run's.
pub open spec fn log_prefix(s: Seq<AppState>) -> bool {
    exists|t: Seq<AppState>| complete_log(t) && s.len() <= t.len() && s == t.subrange(0, s.len() as int)
}

/// `Stopped` occurs once, as the last event.
pub open spec fn stopped_once_last(s: Seq<AppState>) -> bool {
    &&& s.len() > 0
    &&& s.last() is Stopped
    &&& forall|i: int| 0 <= i < s.len() - 1 ==> !(#[trigger] s[i] is Stopped)
}

/// The events a run has emitted by the time it stands in `phase`.
pub open spec fn phase_log(phase: Phase, log: Seq<AppState>) -> bool {
    let up = opening().push(AppState::Started);
    match phase {
        Phase::Spawning => log == opening(),
        Phase::Running => log == up,
        Phase::Checking => log == up,
        Phase::Terminating => log == up.push(AppState::Stopping(0)),
        Phase::Done => log == opening().push(AppState::Stopping(0)).push(AppState::Stopped) || log
            == up.push(AppState::Stopping(0)).push(AppState::Stopped),
    }
}

/// Whether no termination can have been requested yet in this phase.
pub open spec fn before_termination(phase: Phase) -> bool {
    phase == Phase::Spawning || phase == Phase::Running || phase == Phase::Checking
}

/// Each phase fixes exactly the events emitted so far; before termination
/// no `Kill` has ever been asked for.
pub proof fn lemma_phase_log(inputs: Seq<Input>)
    ensures
        phase_log(run(inputs).0, run(inputs).1),
        before_termination(run(inputs).0) ==> !run(inputs).2.contains(Action::Kill),
    decreases inputs.len(),
{
    if inputs.len() > 0 {
        let prev = inputs.drop_last();
        lemma_phase_log(prev);
        lemma_run_push(prev, inputs.last());
        assert(prev.push(inputs.last()) =~= inputs);
        let before = run(prev);
        let step = next(before.0, inputs.last());
        assert(before.1 + seq![] =~= before.1);
        assert(before.1 + seq![AppState::Started] =~= before.1.push(AppState::Started));
        assert(before.1 + seq![AppState::Stopping(0)] =~= before.1.push(AppState::Stopping(0)));
        assert(before.1 + seq![AppState::Stopped] =~= before.1.push(AppState::Stopped));
        assert(before.1 + seq![AppState::Stopping(0), AppState::Stopped] =~= before.1.push(
            AppState::Stopping(0),
        ).push(AppState::Stopped));
        if before_termination(step.0) {
            assert(step.2 != Action::Kill);
            assert forall|i: int| 0 <= i < before.2.push(step.2).len() implies before.2.push(
                step.2,
            )[i] != Action::Kill by {
                if i < before.2.len() {
                    assert(before.2.push(step.2)[i] == before.2[i]);
                }
            }
        }
    } else {
        assert forall|i: int| 0 <= i < seq![Action::Spawn].len() implies seq![Action::Spawn][i]
            != Action::Kill by {}
    }
}

proof fn lemma_finished_logs()
    ensures
        complete_log(opening().push(AppState::Stopping(0)).push(AppState::Stopped)),
        complete_log(opening().push(AppState::Started).push(AppState::Stopping(0)).push(AppState::Stopped)),
        stopped_once_last(opening().push(AppState::Stopping(0)).push(AppState::Stopped)),
        stopped_once_last(opening().push(AppState::Started).push(AppState::Stopping(0)).push(AppState::Stopped)),
{
    let s1 = opening().push(AppState::Stopping(0)).push(AppState::Stopped);
    let s2 = opening().push(AppState::Started).push(AppState::Stopping(0)).push(AppState::Stopped);
    assert(log_split(s1, 2, 2));
    assert(log_split(s2, 2, 3));
}

/// Whatever the inputs, the events a run has emitted are a prefix of
/// `Starting+ Started? Stopping+ Stopped`; once the run is over they are the
/// whole of it, with exactly one `Stopped`, and that one last.
pub proof fn lemma_event_grammar(inputs: Seq<Input>)
    ensures
        log_prefix(run(inputs).1),
        run(inputs).0 == Phase::Done ==> complete_log(run(inputs).1) && stopped_once_last(
            run(inputs).1,
        ),
        run(inputs).0 != Phase::Done ==> forall|i: int|
            0 <= i < run(inputs).1.len() ==> !(#[trigger] run(inputs).1[i] is Stopped),
{
    lemma_phase_log(inputs);
    lemma_finished_logs();
    let log = run(inputs).1;
    let s1 = opening().push(AppState::Stopping(0)).push(AppState::Stopped);
    let s2 = opening().push(AppState::Started).push(AppState::Stopping(0)).push(AppState::Stopped);
    match run(inputs).0 {
        Phase::Spawning => {
            assert(log =~= s1.subrange(0, log.len() as int));
        },
        Phase::Done => {
            assert(log =~= log.subrange(0, log.len() as int));
        },
        _ => {
            assert(log =~= s2.subrange(0, log.len() as int));
        },
    }
}

proof fn lemma_done_absorbs(prefix: Seq<Input>, rest: Seq<Input>)
    requires
        run(prefix).0 == Phase::Done,
    ensures
        run(prefix + rest).0 == Phase::Done,
        run(prefix + rest).1 == run(prefix).1,
        !run(prefix).2.contains(Action::Kill) ==> !run(prefix + rest).2.contains(Action::Kill),
    decreases rest.len(),
{
    if rest.len() == 0 {
        assert(prefix + rest =~= prefix);
    } else {
        let r0 = rest.drop_last();
        lemma_done_absorbs(prefix, r0);
        lemma_run_push(prefix + r0, rest.last());
        assert((prefix + r0).push(rest.last()) =~= prefix + rest);
        let acts = run(prefix + r0).2;
        assert(run(prefix + r0).1 + seq![] =~= run(prefix + r0).1);
        if !run(prefix).2.contains(Action::Kill) {
            assert forall|i: int| 0 <= i < acts.push(Action::Finish).len() implies acts.push(
                Action::Finish,
            )[i] != Action::Kill by {
                if i < acts.len() {
                    assert(acts.push(Action::Finish)[i] == acts[i]);
                }
            }
        }
    }
}

proof fn lemma_run_congruent(a: Seq<Input>, c: Seq<Input>, rest: Seq<Input>)
    requires
        run(a).0 == run(c).0,
        run(a).1 == run(c).1,
    ensures
        run(a + rest).0 == run(c + rest).0,
        run(a + rest).1 == run(c + rest).1,
    decreases rest.len(),
{
    if rest.len() == 0 {
        assert(a + rest =~= a);
        assert(c + rest =~= c);
    } else {
        let r0 = rest.drop_last();
        lemma_run_congruent(a, c, r0);
        lemma_run_push(a + r0, rest.last());
        lemma_run_push(c + r0, rest.last());
        assert((a + r0).push(rest.last()) =~= a + rest);
        assert((c + r0).push(rest.last()) =~= c + rest);
    }
}

/// When the spawn fails, the run ends at once, whatever inputs follow:
/// `Started` is never emitted, and `Stopping(0)` then `Stopped` still are.
pub proof fn lemma_spawn_failure(rest: Seq<Input>)
    ensures
        run(seq![Input::SpawnFailed] + rest).0 == Phase::Done,
        run(seq![Input::SpawnFailed] + rest).1 == opening() + seq![AppState::Stopping(0), AppState::Stopped],
        forall|i: int|
            0 <= i < run(seq![Input::SpawnFailed] + rest).1.len() ==> !(#[trigger] run(
                seq![Input::SpawnFailed] + rest,
            ).1[i] is Started),
{
    let first = seq![Input::SpawnFailed];
    lemma_run_push(Seq::empty(), Input::SpawnFailed);
    assert(Seq::<Input>::empty().push(Input::SpawnFailed) =~= first);
    lemma_done_absorbs(first, rest);
    let log = opening() + seq![AppState::Stopping(0), AppState::Stopped];
    assert(log.len() == 4);
    assert(forall|i: int| 0 <= i < 4 ==> !(#[trigger] log[i] is Started));
}

/// A termination request (or a vanished requester) seen while the child
/// runs makes the very next emitted event `Stopping(0)`, and the next action
/// the termination of the child.
pub proof fn lemma_stop_request_while_running(prefix: Seq<Input>, reason: Reason)
    requires
        run(prefix).0 == Phase::Running,
        reason != Reason::Timeout,
    ensures
        run(prefix.push(Input::Waited(reason))).0 == Phase::Terminating,
        run(prefix.push(Input::Waited(reason))).1 == run(prefix).1.push(AppState::Stopping(0)),
        run(prefix.push(Input::Waited(reason))).2 == run(prefix).2.push(Action::Kill),
{
    lemma_run_push(prefix, Input::Waited(reason));
    assert(run(prefix).1 + seq![AppState::Stopping(0)] =~= run(prefix).1.push(AppState::Stopping(0)));
}

/// A child found exited at a liveness check ends the run with
/// `Stopping(0)` then `Stopped`, and no termination is ever requested,
/// whatever inputs follow.
pub proof fn lemma_self_exit(prefix: Seq<Input>, rest: Seq<Input>)
    requires
        run(prefix).0 == Phase::Running,
    ensures
        run(prefix + seq![Input::Waited(Reason::Timeout), Input::Polled(Liveness::Exited)] + rest).0
            == Phase::Done,
        run(prefix + seq![Input::Waited(Reason::Timeout), Input::Polled(Liveness::Exited)] + rest).1
            == run(prefix).1 + seq![AppState::Stopping(0), AppState::Stopped],
        !run(
            prefix + seq![Input::Waited(Reason::Timeout), Input::Polled(Liveness::Exited)] + rest,
        ).2.contains(Action::Kill),
{
    let t = Input::Waited(Reason::Timeout);
    let e = Input::Polled(Liveness::Exited);
    let both = prefix + seq![t, e];
    lemma_phase_log(prefix);
    lemma_run_push(prefix, t);
    lemma_run_push(prefix.push(t), e);
    assert(prefix.push(t).push(e) =~= both);
    let acts = run(both).2;
    assert(acts == run(prefix).2.push(Action::PollExit).push(Action::Finish));
    assert forall|i: int| 0 <= i < acts.len() implies acts[i] != Action::Kill by {
        if i < run(prefix).2.len() {
            assert(acts[i] == run(prefix).2[i]);
        }
    }
    assert(run(prefix).1 + seq![] + seq![AppState::Stopping(0), AppState::Stopped] =~= run(prefix).1
        + seq![AppState::Stopping(0), AppState::Stopped]);
    lemma_done_absorbs(both, rest);
}

/// However the termination attempt ends (killed, already exited, failed),
/// the run ends normally with `Stopped`.
pub proof fn lemma_kill_outcome_benign(prefix: Seq<Input>, outcome: KillOutcome)
    requires
        run(prefix).0 == Phase::Terminating,
    ensures
        run(prefix.push(Input::KillDone(outcome))).0 == Phase::Done,
        run(prefix.push(Input::KillDone(outcome))).1 == run(prefix).1.push(AppState::Stopped),
        complete_log(run(prefix.push(Input::KillDone(outcome))).1),
{
    lemma_run_push(prefix, Input::KillDone(outcome));
    assert(run(prefix).1 + seq![AppState::Stopped] =~= run(prefix).1.push(AppState::Stopped));
    lemma_event_grammar(prefix.push(Input::KillDone(outcome)));
}

/// A requester that goes away without asking still leads the run to
/// `Stopped`: `Stopping(0)`, the termination attempt, then `Stopped`.
pub proof fn lemma_requester_gone(prefix: Seq<Input>, outcome: KillOutcome)
    requires
        run(prefix).0 == Phase::Running,
    ensures
        run(prefix + seq![Input::Waited(Reason::Error), Input::KillDone(outcome)]).0 == Phase::Done,
        run(prefix + seq![Input::Waited(Reason::Error), Input::KillDone(outcome)]).1 == run(prefix).1
            + seq![AppState::Stopping(0), AppState::Stopped],
{
    let w = Input::Waited(Reason::Error);
    let k = Input::KillDone(outcome);
    lemma_stop_request_while_running(prefix, Reason::Error);
    lemma_kill_outcome_benign(prefix.push(w), outcome);
    assert(prefix.push(w).push(k) =~= prefix + seq![w, k]);
    assert(run(prefix).1.push(AppState::Stopping(0)).push(AppState::Stopped) =~= run(prefix).1
        + seq![AppState::Stopping(0), AppState::Stopped]);
}

/// A second termination request changes nothing: whatever inputs follow,
/// the run emits the same events as after a single request.
pub proof fn lemma_second_request_ignored(prefix: Seq<Input>, rest: Seq<Input>)
    requires
        run(prefix).0 == Phase::Running,
    ensures
        run(prefix + seq![Input::Waited(Reason::Die), Input::Waited(Reason::Die)] + rest).0 == run(
            prefix + seq![Input::Waited(Reason::Die)] + rest,
        ).0,
        run(prefix + seq![Input::Waited(Reason::Die), Input::Waited(Reason::Die)] + rest).1 == run(
            prefix + seq![Input::Waited(Reason::Die)] + rest,
        ).1,
{
    let d = Input::Waited(Reason::Die);
    let once = prefix + seq![d];
    let twice = prefix + seq![d, d];
    lemma_run_push(prefix, d);
    lemma_run_push(prefix.push(d), d);
    assert(prefix.push(d) =~= once);
    assert(prefix.push(d).push(d) =~= twice);
    assert(run(once).1 + seq![] =~= run(once).1);
    lemma_run_congruent(twice, once, rest);
}

} // verus!
