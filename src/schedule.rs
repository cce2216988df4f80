use vstd::prelude::*;

verus! {

/// Seconds in one day.
pub const SECS_PER_DAY: u64 = 86400;

/// First wait after a failed renewal cycle, in seconds.
pub const RETRY_BASE_SECS: u64 = 3600;

/// Longest wait after failed renewal cycles, in seconds.
pub const RETRY_CAP_SECS: u64 = 43200;

/// Failed cycles are counted up to this number; the wait is capped earlier.
pub const MAX_COUNTED_FAILURES: u64 = 16;

/// Days to wait before the next renewal: one day before expiry, or none at
/// all when the certificate is missing or has at most one day left.
pub open spec fn sleep_days(days_left: Option<i64>) -> int {
    match days_left {
        Some(d) => if d > 1 {
            d - 1
        } else {
            0
        },
        None => 0,
    }
}

/// Whole days to wait before the next renewal, for a certificate with
/// `days_left` days of validity (`None`: no certificate yet).
pub fn wait_days(days_left: Option<i64>) -> (r: u64)
    ensures
        r == sleep_days(days_left),
{
    match days_left {
        Some(d) => {
            if d > 1 {
                (d - 1) as u64
            } else {
                0
            }
        },
        None => 0,
    }
}

/// Wait after `n` failed cycles in a row: doubling from one hour, capped at
/// twelve.
pub open spec fn retry_delay(n: nat) -> int
    decreases n,
{
    if n <= 1 {
        RETRY_BASE_SECS as int
    } else {
        let d = 2 * retry_delay((n - 1) as nat);
        if d < RETRY_CAP_SECS {
            d
        } else {
            RETRY_CAP_SECS as int
        }
    }
}

proof fn lemma_retry_delay_bounds(n: nat)
    ensures
        RETRY_BASE_SECS <= retry_delay(n) <= RETRY_CAP_SECS,
    decreases n,
{
    if n > 1 {
        lemma_retry_delay_bounds((n - 1) as nat);
    }
}

proof fn lemma_retry_delay_stays_capped(k: nat, n: nat)
    requires
        1 <= k <= n,
        retry_delay(k) == RETRY_CAP_SECS,
    ensures
        retry_delay(n) == RETRY_CAP_SECS,
    decreases n - k,
{
    if k < n {
        lemma_retry_delay_stays_capped(k, (n - 1) as nat);
    }
}

/// Seconds to wait after `failures` failed cycles in a row.
pub fn retry_secs(failures: u64) -> (r: u64)
    ensures
        r == retry_delay(failures as nat),
        RETRY_BASE_SECS <= r <= RETRY_CAP_SECS,
{
    let mut d: u64 = RETRY_BASE_SECS;
    let mut k: u64 = 1;
    while k < failures && d < RETRY_CAP_SECS
        invariant
            1 <= k,
            k <= failures || k == 1,
            d == retry_delay(k as nat),
            RETRY_BASE_SECS <= d <= RETRY_CAP_SECS,
        decreases failures - k,
    {
        let twice = 2 * d;
        if twice < RETRY_CAP_SECS {
            d = twice;
        } else {
            d = RETRY_CAP_SECS;
        }
        k = k + 1;
    }
    proof {
        if k < failures {
            lemma_retry_delay_stays_capped(k as nat, failures as nat);
        }
    }
    d
}

/// What the scheduler's driver reports.
#[derive(Clone, Copy, Debug, PartialEq, Eq, Structural)]
pub enum SchedEvent {
    /// Days of validity left on the current certificate (`None`: none).
    Validity(Option<i64>),
    /// The sleep is over.
    Woke,
    /// A renewal cycle ran; days of validity of the certificate found
    /// afterwards (`None`: none was found, so the cycle failed).
    Renewed(Option<i64>),
    /// A renewal cycle failed.
    RenewFailed,
    /// Whether the last dependent service restarted.
    Restarted(bool),
    /// An exit was requested.
    Shutdown,
}

/// What the scheduler's driver must do next.
#[derive(Clone, Copy, Debug, PartialEq, Eq, Structural)]
pub enum SchedAction {
    /// Ask how long the current certificate stays valid.
    QueryValidity,
    /// Sleep this many whole days and then this many seconds.
    Sleep { days: u64, secs: u64 },
    /// Run one validation and issuance cycle.
    Renew,
    /// Restart the dependent service at this index of the configured list.
    Restart(u64),
    /// Stop: nothing is held any more.
    Exit,
}

/// Which report the scheduler is waiting on.
#[derive(Clone, Copy, Debug, PartialEq, Eq, Structural)]
pub enum Phase {
    Starting,
    Sleeping { days: u64, secs: u64 },
    Renewing,
    Restarting { index: u64, next_days: u64 },
    Stopped,
}

/// The scheduler as a value: phase, number of dependent services, failed
/// cycles in a row, and the services that failed to restart in the last
/// successful cycle.
pub struct SchedulerView {
    pub phase: Phase,
    pub units: u64,
    pub failures: u64,
    pub failed_units: Seq<u64>,
}

impl SchedulerView {
    pub open spec fn wf(self) -> bool {
        &&& self.failures <= MAX_COUNTED_FAILURES
        &&& match self.phase {
            Phase::Restarting { index, .. } => index < self.units,
            _ => true,
        }
        &&& forall|i: int|
            0 <= i < self.failed_units.len() ==> #[trigger] self.failed_units[i] < self.units
    }

    /// Sleep before the next cycle, then report the action.
    pub open spec fn sleep(self, days: u64, secs: u64) -> (Self, SchedAction) {
        (
            SchedulerView { phase: Phase::Sleeping { days, secs }, ..self },
            SchedAction::Sleep { days, secs },
        )
    }

    /// A failed cycle: count it and back off, restarting nothing.
    pub open spec fn back_off(self) -> (Self, SchedAction) {
        let n = if self.failures < MAX_COUNTED_FAILURES {
            (self.failures + 1) as u64
        } else {
            self.failures
        };
        SchedulerView { failures: n, ..self }.sleep(0, retry_delay(n as nat) as u64)
    }

    /// The action this phase waits on the result of.
    pub open spec fn awaited(self) -> SchedAction {
        match self.phase {
            Phase::Starting => SchedAction::QueryValidity,
            Phase::Sleeping { days, secs } => SchedAction::Sleep { days, secs },
            Phase::Renewing => SchedAction::Renew,
            Phase::Restarting { index, .. } => SchedAction::Restart(index),
            Phase::Stopped => SchedAction::Exit,
        }
    }

    /// The state and action that follow `ev`. A shutdown ends the loop from
    /// any phase; any other event that is not the awaited one repeats the
    /// awaited action.
    pub open spec fn transition(self, ev: SchedEvent) -> (Self, SchedAction) {
        if ev == SchedEvent::Shutdown || self.phase == Phase::Stopped {
            (SchedulerView { phase: Phase::Stopped, ..self }, SchedAction::Exit)
        } else {
            match (self.phase, ev) {
                (Phase::Starting, SchedEvent::Validity(d)) => self.sleep(sleep_days(d) as u64, 0),
                (Phase::Sleeping { .. }, SchedEvent::Woke) => (
                    SchedulerView { phase: Phase::Renewing, ..self },
                    SchedAction::Renew,
                ),
                (Phase::Renewing, SchedEvent::Renewed(Some(d))) => {
                    let next = sleep_days(Some(d)) as u64;
                    let s = SchedulerView { failures: 0, failed_units: Seq::empty(), ..self };
                    if self.units == 0 {
                        s.sleep(next, 0)
                    } else {
                        (
                            SchedulerView {
                                phase: Phase::Restarting { index: 0, next_days: next },
                                ..s
                            },
                            SchedAction::Restart(0),
                        )
                    }
                },
                (Phase::Renewing, SchedEvent::Renewed(None)) => self.back_off(),
                (Phase::Renewing, SchedEvent::RenewFailed) => self.back_off(),
                (Phase::Restarting { index, next_days }, SchedEvent::Restarted(ok)) => {
                    let s = if ok {
                        self
                    } else {
                        SchedulerView { failed_units: self.failed_units.push(index), ..self }
                    };
                    if index + 1 < self.units {
                        (
                            SchedulerView {
                                phase: Phase::Restarting { index: (index + 1) as u64, next_days },
                                ..s
                            },
                            SchedAction::Restart((index + 1) as u64),
                        )
                    } else {
                        s.sleep(next_days, 0)
                    }
                },
                _ => (self, self.awaited()),
            }
        }
    }
}

/// The renewal is due one day before expiry: at startup, and after a
/// successful cycle with no services to restart, the scheduler sleeps
/// exactly one day less than the days left when more than one is left,
/// and not at all otherwise (at most one day left, or no certificate).
pub proof fn lemma_sleep_one_day_early(s: SchedulerView, d: Option<i64>)
    requires
        s.wf(),
    ensures
        s.phase == Phase::Starting ==> s.transition(SchedEvent::Validity(d)).1 == (SchedAction::Sleep {
            days: sleep_days(d) as u64,
            secs: 0,
        }),
        s.phase == Phase::Renewing && s.units == 0 && d is Some ==> s.transition(
            SchedEvent::Renewed(d),
        ).1 == (SchedAction::Sleep { days: sleep_days(d) as u64, secs: 0 }),
        d is Some && d.unwrap() > 1 ==> sleep_days(d) == d.unwrap() - 1,
        d is Some && d.unwrap() <= 1 ==> sleep_days(d) == 0,
        d is None ==> sleep_days(d) == 0,
{
}

/// Services are restarted only after a successful cycle: a `Restart` comes
/// either from a renewal that found a certificate, or while the restarts of
/// such a cycle are under way. A failed cycle, or one that found no
/// certificate, backs off by `retry_delay` instead.
pub proof fn lemma_restart_only_after_success(s: SchedulerView, ev: SchedEvent)
    requires
        s.wf(),
    ensures
        s.transition(ev).1 is Restart ==> s.phase is Restarting || (s.phase == Phase::Renewing
            && ev matches SchedEvent::Renewed(Some(_))),
        s.phase == Phase::Renewing && (ev == SchedEvent::RenewFailed || ev == SchedEvent::Renewed(
            None,
        )) ==> s.transition(ev) == s.back_off(),
{
}

/// The renewal scheduler: sleeps until a renewal is due, renews, restarts
/// the dependent services in order, and sleeps again.
pub struct Scheduler {
    phase: Phase,
    units: u64,
    failures: u64,
    failed_units: Vec<u64>,
}

impl View for Scheduler {
    type V = SchedulerView;

    closed spec fn view(&self) -> SchedulerView {
        SchedulerView {
            phase: self.phase,
            units: self.units,
            failures: self.failures,
            failed_units: self.failed_units@,
        }
    }
}

impl Scheduler {
    /// A scheduler for `units` dependent services, waiting on the validity
    /// of the current certificate.
    pub fn new(units: u64) -> (r: Self)
        ensures
            r@.wf(),
            r@.phase == Phase::Starting,
            r@.units == units,
            r@.failures == 0,
            r@.failed_units.len() == 0,
    {
        Scheduler { phase: Phase::Starting, units, failures: 0, failed_units: Vec::new() }
    }

    /// The action the scheduler waits on the result of.
    pub fn awaited(&self) -> (a: SchedAction)
        ensures
            a == self@.awaited(),
    {
        match self.phase {
            Phase::Starting => SchedAction::QueryValidity,
            Phase::Sleeping { days, secs } => SchedAction::Sleep { days, secs },
            Phase::Renewing => SchedAction::Renew,
            Phase::Restarting { index, .. } => SchedAction::Restart(index),
            Phase::Stopped => SchedAction::Exit,
        }
    }

    /// Indices of the services that failed to restart after the last
    /// successful renewal, in order.
    pub fn failed_units(&self) -> (r: Vec<u64>)
        ensures
            r@ == self@.failed_units,
    {
        self.failed_units.clone()
    }

    fn sleep(&mut self, days: u64, secs: u64) -> (a: SchedAction)
        ensures
            (final(self)@, a) == old(self)@.sleep(days, secs),
    {
        self.phase = Phase::Sleeping { days, secs };
        SchedAction::Sleep { days, secs }
    }

    fn back_off(&mut self) -> (a: SchedAction)
        requires
            old(self)@.wf(),
        ensures
            (final(self)@, a) == old(self)@.back_off(),
    {
        if self.failures < MAX_COUNTED_FAILURES {
            self.failures = self.failures + 1;
        }
        let delay = retry_secs(self.failures);
        self.sleep(0, delay)
    }

    /// Feeds the driver's report and returns the next action.
    pub fn step(&mut self, ev: SchedEvent) -> (a: SchedAction)
        requires
            old(self)@.wf(),
        ensures
            (final(self)@, a) == old(self)@.transition(ev),
            final(self)@.wf(),
            a is Restart ==> old(self)@.phase is Restarting || ev matches SchedEvent::Renewed(
                Some(_),
            ),
    {
        if ev == SchedEvent::Shutdown || self.phase == Phase::Stopped {
            self.phase = Phase::Stopped;
            return SchedAction::Exit;
        }
        match (self.phase, ev) {
            (Phase::Starting, SchedEvent::Validity(d)) => self.sleep(wait_days(d), 0),
            (Phase::Sleeping { .. }, SchedEvent::Woke) => {
                self.phase = Phase::Renewing;
                SchedAction::Renew
            },
            (Phase::Renewing, SchedEvent::Renewed(Some(d))) => {
                let next = wait_days(Some(d));
                self.failures = 0;
                self.failed_units = Vec::new();
                if self.units == 0 {
                    self.sleep(next, 0)
                } else {
                    self.phase = Phase::Restarting { index: 0, next_days: next };
                    assert(self@.failed_units =~= Seq::<u64>::empty());
                    SchedAction::Restart(0)
                }
            },
            (Phase::Renewing, SchedEvent::Renewed(None)) => self.back_off(),
            (Phase::Renewing, SchedEvent::RenewFailed) => self.back_off(),
            (Phase::Restarting { index, next_days }, SchedEvent::Restarted(ok)) => {
                if !ok {
                    self.failed_units.push(index);
                }
                if index + 1 < self.units {
                    self.phase = Phase::Restarting { index: index + 1, next_days };
                    SchedAction::Restart(index + 1)
                } else {
                    self.sleep(next_days, 0)
                }
            },
            _ => self.awaited(),
        }
    }
}

} // verus!
