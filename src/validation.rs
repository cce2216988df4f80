use vstd::prelude::*;

verus! {

/// Number of unsuccessful polls after which validation gives up.
pub const MAX_ATTEMPTS: u8 = 6;

/// How a validation run ended.
#[derive(Clone, Copy, Debug, PartialEq, Eq, Structural)]
pub enum Outcome {
    /// The order's authorizations are confirmed: it can be finalized.
    Confirmed,
    /// The attempts ran out without confirmation.
    Timeout,
    /// The challenge server could not bind its port.
    BindFailed,
    /// The ACME capability or the proof store reported a failure.
    ProtocolFailed,
}

/// What the driver of a validation run must do next.
#[derive(Clone, Copy, Debug, PartialEq, Eq, Structural)]
pub enum Action {
    /// Make the scratch directory exist and be empty.
    ResetScratch,
    /// Start the challenge server on the configured port.
    StartServer,
    /// Ask the order whether its authorizations are confirmed.
    ConfirmValidations,
    /// Fetch the order's pending authorizations.
    ListAuthorizations,
    /// For the authorization at this index: write its proof, trigger its
    /// validation and refresh the order.
    ProveChallenge(u64),
    /// Stop the challenge server and wait until its port is free.
    StopServer,
    /// Remove the scratch directory tree.
    RemoveScratch,
    /// The run is over, with this outcome.
    Finish(Outcome),
}

/// What the driver reports after performing an action.
#[derive(Clone, Copy, Debug, PartialEq, Eq, Structural)]
pub enum Event {
    /// The action succeeded and has nothing to report.
    Done,
    /// The action failed.
    Failed,
    /// Answer to `ConfirmValidations`.
    Confirmation(bool),
    /// Answer to `ListAuthorizations`: how many there are.
    Authorizations(u64),
}

/// Which action a validation run is waiting on.
#[derive(Clone, Copy, Debug, PartialEq, Eq, Structural)]
pub enum Stage {
    Idle,
    Resetting,
    Starting,
    Confirming,
    Listing,
    Proving { index: u64, count: u64 },
    Stopping(Outcome),
    Cleaning(Outcome),
    Finished(Outcome),
}

/// State of one validation run: the challenge server and the scratch
/// directory are owned by the run from the moment it asks for them until
/// it has released them.
#[derive(Clone, Copy, Debug, PartialEq, Eq, Structural)]
pub struct ValidationLoop {
    pub stage: Stage,
    /// Unsuccessful polls so far.
    pub attempt: u8,
    /// The server was started and not yet stopped.
    pub server_up: bool,
    /// The scratch directory was set up and not yet removed.
    pub scratch_dirty: bool,
}

impl ValidationLoop {
    pub open spec fn wf(self) -> bool {
        &&& self.attempt <= MAX_ATTEMPTS
        &&& match self.stage {
            Stage::Idle => !self.server_up && !self.scratch_dirty && self.attempt == 0,
            Stage::Resetting => !self.server_up && self.scratch_dirty,
            Stage::Starting => !self.server_up && self.scratch_dirty,
            Stage::Confirming => self.server_up && self.scratch_dirty,
            Stage::Listing => self.server_up && self.scratch_dirty && self.attempt < MAX_ATTEMPTS,
            Stage::Proving { index, count } => self.server_up && self.scratch_dirty
                && self.attempt < MAX_ATTEMPTS && index < count,
            Stage::Stopping(_) => self.server_up && self.scratch_dirty,
            Stage::Cleaning(_) => !self.server_up && self.scratch_dirty,
            Stage::Finished(_) => !self.server_up && !self.scratch_dirty,
        }
    }

    /// The run ended, or is releasing its resources before it ends.
    pub open spec fn is_closing(self) -> bool {
        self.stage is Stopping || self.stage is Cleaning || self.stage is Finished
    }

    /// Leave for cleanup with outcome `o`, stopping the server first.
    pub open spec fn stop_with(self, o: Outcome) -> (Self, Action) {
        (ValidationLoop { stage: Stage::Stopping(o), ..self }, Action::StopServer)
    }

    /// Poll again after one more unsuccessful attempt.
    pub open spec fn next_attempt(self) -> (Self, Action) {
        (
            ValidationLoop { stage: Stage::Confirming, attempt: (self.attempt + 1) as u8, ..self },
            Action::ConfirmValidations,
        )
    }

    /// The state and action that follow event `ev` in state `self`. An
    /// event other than the awaited one counts as a failure.
    pub open spec fn transition(self, ev: Event) -> (Self, Action) {
        match self.stage {
            Stage::Idle => (
                ValidationLoop { stage: Stage::Resetting, scratch_dirty: true, ..self },
                Action::ResetScratch,
            ),
            Stage::Resetting => if ev == Event::Done {
                (ValidationLoop { stage: Stage::Starting, ..self }, Action::StartServer)
            } else {
                (
                    ValidationLoop { stage: Stage::Cleaning(Outcome::ProtocolFailed), ..self },
                    Action::RemoveScratch,
                )
            },
            Stage::Starting => if ev == Event::Done {
                (
                    ValidationLoop { stage: Stage::Confirming, server_up: true, ..self },
                    Action::ConfirmValidations,
                )
            } else {
                (
                    ValidationLoop { stage: Stage::Cleaning(Outcome::BindFailed), ..self },
                    Action::RemoveScratch,
                )
            },
            Stage::Confirming => match ev {
                Event::Confirmation(true) => self.stop_with(Outcome::Confirmed),
                Event::Confirmation(false) => if self.attempt >= MAX_ATTEMPTS {
                    self.stop_with(Outcome::Timeout)
                } else {
                    (ValidationLoop { stage: Stage::Listing, ..self }, Action::ListAuthorizations)
                },
                _ => self.stop_with(Outcome::ProtocolFailed),
            },
            Stage::Listing => match ev {
                Event::Authorizations(n) => if n == 0 {
                    self.next_attempt()
                } else {
                    (
                        ValidationLoop { stage: Stage::Proving { index: 0, count: n }, ..self },
                        Action::ProveChallenge(0),
                    )
                },
                _ => self.stop_with(Outcome::ProtocolFailed),
            },
            Stage::Proving { index, count } => if ev == Event::Done {
                if index + 1 < count {
                    (
                        ValidationLoop {
                            stage: Stage::Proving { index: (index + 1) as u64, count },
                            ..self
                        },
                        Action::ProveChallenge((index + 1) as u64),
                    )
                } else {
                    self.next_attempt()
                }
            } else {
                self.stop_with(Outcome::ProtocolFailed)
            },
            Stage::Stopping(o) => (
                ValidationLoop { stage: Stage::Cleaning(o), server_up: false, ..self },
                Action::RemoveScratch,
            ),
            Stage::Cleaning(o) => (
                ValidationLoop { stage: Stage::Finished(o), scratch_dirty: false, ..self },
                Action::Finish(o),
            ),
            Stage::Finished(o) => (self, Action::Finish(o)),
        }
    }

    /// A run that has not started: no attempt made, nothing held.
    pub fn new() -> (r: Self)
        ensures
            r.wf(),
            r.stage == Stage::Idle,
            r.attempt == 0,
            !r.server_up,
            !r.scratch_dirty,
    {
        ValidationLoop { stage: Stage::Idle, attempt: 0, server_up: false, scratch_dirty: false }
    }

    fn stop(&mut self, o: Outcome) -> (a: Action)
        ensures
            (*final(self), a) == old(self).stop_with(o),
    {
        self.stage = Stage::Stopping(o);
        Action::StopServer
    }

    fn poll_again(&mut self) -> (a: Action)
        requires
            old(self).attempt < MAX_ATTEMPTS,
        ensures
            (*final(self), a) == old(self).next_attempt(),
    {
        self.stage = Stage::Confirming;
        self.attempt = self.attempt + 1;
        Action::ConfirmValidations
    }

    /// Feeds the result of the last action (any event for the first call)
    /// and returns the next action. Once `Finish` is returned the server is
    /// stopped and the scratch directory removed, whatever the outcome.
    pub fn step(&mut self, ev: Event) -> (a: Action)
        requires
            old(self).wf(),
        ensures
            (*final(self), a) == old(self).transition(ev),
            final(self).wf(),
            a is Finish ==> !final(self).server_up && !final(self).scratch_dirty,
    {
        match self.stage {
            Stage::Idle => {
                self.stage = Stage::Resetting;
                self.scratch_dirty = true;
                Action::ResetScratch
            },
            Stage::Resetting => {
                if ev == Event::Done {
                    self.stage = Stage::Starting;
                    Action::StartServer
                } else {
                    self.stage = Stage::Cleaning(Outcome::ProtocolFailed);
                    Action::RemoveScratch
                }
            },
            Stage::Starting => {
                if ev == Event::Done {
                    self.stage = Stage::Confirming;
                    self.server_up = true;
                    Action::ConfirmValidations
                } else {
                    self.stage = Stage::Cleaning(Outcome::BindFailed);
                    Action::RemoveScratch
                }
            },
            Stage::Confirming => match ev {
                Event::Confirmation(true) => self.stop(Outcome::Confirmed),
                Event::Confirmation(false) => {
                    if self.attempt >= MAX_ATTEMPTS {
                        self.stop(Outcome::Timeout)
                    } else {
                        self.stage = Stage::Listing;
                        Action::ListAuthorizations
                    }
                },
                _ => self.stop(Outcome::ProtocolFailed),
            },
            Stage::Listing => match ev {
                Event::Authorizations(n) => {
                    if n == 0 {
                        self.poll_again()
                    } else {
                        self.stage = Stage::Proving { index: 0, count: n };
                        Action::ProveChallenge(0)
                    }
                },
                _ => self.stop(Outcome::ProtocolFailed),
            },
            Stage::Proving { index, count } => {
                if ev == Event::Done {
                    if index + 1 < count {
                        self.stage = Stage::Proving { index: index + 1, count };
                        Action::ProveChallenge(index + 1)
                    } else {
                        self.poll_again()
                    }
                } else {
                    self.stop(Outcome::ProtocolFailed)
                }
            },
            Stage::Stopping(o) => {
                self.stage = Stage::Cleaning(o);
                self.server_up = false;
                Action::RemoveScratch
            },
            Stage::Cleaning(o) => {
                self.stage = Stage::Finished(o);
                self.scratch_dirty = false;
                Action::Finish(o)
            },
            Stage::Finished(o) => Action::Finish(o),
        }
    }
}

/// How many steps, at most, remain before a run finishes: it falls with
/// every step until `Finish` is returned.
pub open spec fn steps_left(s: ValidationLoop) -> int {
    // More steps than any one attempt can take.
    let span: int = 0x1_0000_0000_0000_0010;
    let rest = (MAX_ATTEMPTS - s.attempt) * 0x1_0000_0000_0000_0010;
    match s.stage {
        Stage::Finished(_) => 0,
        Stage::Cleaning(_) => 1,
        Stage::Stopping(_) => 2,
        Stage::Proving { index, count } => 3 + rest + 2 + (count - index),
        Stage::Listing => 3 + rest + 1 + span,
        Stage::Confirming => 3 + rest + 2 + span,
        Stage::Starting => 3 + rest + span + 4,
        Stage::Resetting => 3 + rest + span + 5,
        Stage::Idle => 3 + rest + span + 6,
    }
}

/// Every step keeps a run well formed.
pub proof fn lemma_step_keeps_wf(s: ValidationLoop, ev: Event)
    requires
        s.wf(),
    ensures
        s.transition(ev).0.wf(),
{
}

/// Whatever branch ends a run (confirmation, timeout, bind failure or a
/// protocol failure), when it returns `Finish` the server is stopped and
/// the scratch directory removed.
pub proof fn lemma_finish_releases_all(s: ValidationLoop, ev: Event)
    requires
        s.wf(),
    ensures
        s.transition(ev).1 is Finish ==> !s.transition(ev).0.server_up
            && !s.transition(ev).0.scratch_dirty,
        s.stage is Finished ==> !s.server_up && !s.scratch_dirty,
{
}

/// A run always ends: until it has finished, each step brings it closer.
pub proof fn lemma_run_ends(s: ValidationLoop, ev: Event)
    requires
        s.wf(),
        !(s.stage is Finished),
    ensures
        0 <= steps_left(s.transition(ev).0) < steps_left(s),
{
}

/// The attempt counter never passes the maximum and grows by at most one
/// per step. Reaching the maximum without confirmation yields exactly
/// `Timeout`, and only a confirmation yields `Confirmed`.
pub proof fn lemma_attempts_bounded(s: ValidationLoop, ev: Event)
    requires
        s.wf(),
    ensures
        s.transition(ev).0.attempt <= MAX_ATTEMPTS,
        s.transition(ev).0.attempt <= s.attempt + 1,
        !s.is_closing() ==> (s.transition(ev).0.stage == Stage::Stopping(Outcome::Timeout) <==> (
        s.stage == Stage::Confirming && s.attempt == MAX_ATTEMPTS && ev == Event::Confirmation(
            false,
        ))),
        !s.is_closing() ==> (s.transition(ev).0.stage == Stage::Stopping(Outcome::Confirmed) <==> (
        s.stage == Stage::Confirming && ev == Event::Confirmation(true))),
{
}

/// The server is asked to start only while it is down, and to stop only
/// while it is up; after the stop it is down again.
pub proof fn lemma_server_start_stop(s: ValidationLoop, ev: Event)
    requires
        s.wf(),
    ensures
        s.transition(ev).1 == Action::StartServer ==> !s.server_up,
        s.transition(ev).1 == Action::StopServer ==> s.transition(ev).0.server_up,
        s.stage is Stopping ==> !s.transition(ev).0.server_up,
{
}

/// The state after feeding the events `evs` in order.
pub open spec fn run_events(s: ValidationLoop, evs: Seq<Event>) -> ValidationLoop
    decreases evs.len(),
{
    if evs.len() == 0 {
        s
    } else {
        run_events(s.transition(evs[0]).0, evs.drop_first())
    }
}

/// Whatever the driver reports, a run fed enough events has finished, with
/// the server stopped and the scratch directory removed.
pub proof fn lemma_every_run_finishes_released(s: ValidationLoop, evs: Seq<Event>)
    requires
        s.wf(),
        evs.len() >= steps_left(s),
    ensures
        run_events(s, evs).wf(),
        run_events(s, evs).stage is Finished,
        !run_events(s, evs).server_up,
        !run_events(s, evs).scratch_dirty,
    decreases evs.len(),
{
    if evs.len() > 0 {
        let t = s.transition(evs[0]).0;
        if !(s.stage is Finished) {
            lemma_run_ends(s, evs[0]);
        }
        lemma_every_run_finishes_released(t, evs.drop_first());
    }
}

/// The report of a driver whose order is never confirmed: each poll answers
/// "not yet", each listing finds `n` authorizations, every other action
/// succeeds.
pub open spec fn pending_answer(s: ValidationLoop, n: u64) -> Event {
    match s.stage {
        Stage::Confirming => Event::Confirmation(false),
        Stage::Listing => Event::Authorizations(n),
        _ => Event::Done,
    }
}

/// The state after `k` steps driven by `pending_answer`.
pub open spec fn run_pending(s: ValidationLoop, n: u64, k: nat) -> ValidationLoop
    decreases k,
{
    if k == 0 {
        s
    } else {
        run_pending(s.transition(pending_answer(s, n)).0, n, (k - 1) as nat)
    }
}

/// Along a never-confirmed run, any outcome decided so far is `Timeout`,
/// reached with the counter at the maximum.
pub open spec fn pending_so_far(s: ValidationLoop) -> bool {
    &&& s.wf()
    &&& match s.stage {
        Stage::Stopping(o) => o == Outcome::Timeout && s.attempt == MAX_ATTEMPTS,
        Stage::Cleaning(o) => o == Outcome::Timeout && s.attempt == MAX_ATTEMPTS,
        Stage::Finished(o) => o == Outcome::Timeout && s.attempt == MAX_ATTEMPTS,
        _ => true,
    }
}

proof fn lemma_pending_run_times_out(s: ValidationLoop, n: u64, k: nat)
    requires
        pending_so_far(s),
        k >= steps_left(s),
    ensures
        run_pending(s, n, k).stage == Stage::Finished(Outcome::Timeout),
        run_pending(s, n, k).attempt == MAX_ATTEMPTS,
        !run_pending(s, n, k).server_up,
        !run_pending(s, n, k).scratch_dirty,
    decreases k,
{
    if k > 0 {
        let t = s.transition(pending_answer(s, n)).0;
        if !(s.stage is Finished) {
            lemma_run_ends(s, pending_answer(s, n));
        }
        lemma_pending_run_times_out(t, n, (k - 1) as nat);
    }
}

/// A run whose order is never confirmed, whatever the number of
/// authorizations per round, ends in exactly `Timeout` once the counter has
/// reached the maximum (six full rounds of proofs), never in `Confirmed`,
/// and with the server stopped and the scratch directory removed.
pub proof fn lemma_never_confirmed_times_out(n: u64, k: nat)
    requires
        k >= steps_left(
            ValidationLoop { stage: Stage::Idle, attempt: 0, server_up: false, scratch_dirty: false },
        ),
    ensures
        ({
            let end = run_pending(
                ValidationLoop {
                    stage: Stage::Idle,
                    attempt: 0,
                    server_up: false,
                    scratch_dirty: false,
                },
                n,
                k,
            );
            &&& end.stage == Stage::Finished(Outcome::Timeout)
            &&& end.attempt == MAX_ATTEMPTS
            &&& !end.server_up
            &&& !end.scratch_dirty
        }),
{
    lemma_pending_run_times_out(
        ValidationLoop { stage: Stage::Idle, attempt: 0, server_up: false, scratch_dirty: false },
        n,
        k,
    );
}

} // verus!
