//! Circuit breaker: stops trading after too many failures or too fast a loss.
//!
//! States: `Closed` (normal), `Open` (trading paused), `HalfOpen` (testing
//! whether trading can resume).  Failures and losses are counted inside
//! sliding time windows; instants are milliseconds since the Unix epoch.
//! Every operation appends the events it emits to a pending list that the
//! owner drains with `drain_events`.
use crate::clock::now_millis;
use crate::decimal::{reprs, rint, rsum, sum_all, sum_fits, Dec};
use vstd::prelude::*;

verus! {

/// The state of the breaker.
#[derive(Clone, Copy, Debug, PartialEq, Eq, Structural)]
pub enum CircuitState {
    /// Operating normally.
    Closed,
    /// Trading paused.
    Open,
    /// Testing whether trading can resume.
    HalfOpen,
}

/// The text shown for each state.
pub open spec fn circuit_state_text(s: CircuitState) -> Seq<char> {
    match s {
        CircuitState::Closed => "Fechado (Operacional)"@,
        CircuitState::Open => "Aberto (Pausado)"@,
        CircuitState::HalfOpen => "Semi-aberto (Testando)"@,
    }
}

impl CircuitState {
    /// The text shown for this state.
    pub fn to_text(&self) -> (r: &'static str)
        ensures
            r@ == circuit_state_text(*self),
    {
        match self {
            CircuitState::Closed => "Fechado (Operacional)",
            CircuitState::Open => "Aberto (Pausado)",
            CircuitState::HalfOpen => "Semi-aberto (Testando)",
        }
    }
}

/// What went wrong.
#[derive(Clone, Debug)]
pub enum FailureType {
    /// API or connection error.
    ConnectionError,
    /// Order execution error.
    OrderExecutionError,
    /// A loss.
    RapidLoss { amount: Dec },
    /// Timeout.
    Timeout,
    /// Authentication error.
    AuthenticationError,
    /// Rate limit hit.
    RateLimited,
    /// Anything else.
    Other(String),
}

impl FailureType {
    /// An identical copy.
    pub fn duplicate(&self) -> (r: FailureType)
        ensures
            r == *self,
    {
        match self {
            FailureType::ConnectionError => FailureType::ConnectionError,
            FailureType::OrderExecutionError => FailureType::OrderExecutionError,
            FailureType::RapidLoss { amount } => FailureType::RapidLoss { amount: *amount },
            FailureType::Timeout => FailureType::Timeout,
            FailureType::AuthenticationError => FailureType::AuthenticationError,
            FailureType::RateLimited => FailureType::RateLimited,
            FailureType::Other(text) => FailureType::Other(text.clone()),
        }
    }
}

/// What the breaker reports.
#[derive(Clone, Debug)]
pub enum CircuitBreakerEvent {
    /// The state changed.
    StateChanged { from: CircuitState, to: CircuitState },
    /// A failure was recorded; `count` failures are now in the window.
    FailureRecorded { failure_type: FailureType, count: u32 },
    /// A success was recorded while half-open.
    SuccessRecorded { count: u32 },
    /// The breaker was reset by hand.
    ManualReset,
    /// The breaker recovered by itself.
    AutoRecovered,
}

/// Longest window or timeout, in seconds, for which chrono can subtract the
/// window from any instant its clock returns.
pub open spec fn max_window_secs() -> int {
    8000000000000
}

/// Configuration.
#[derive(Clone, Debug)]
pub struct CircuitBreakerConfig {
    /// Failures within the window that open the breaker.
    pub failure_threshold: u32,
    /// Seconds to wait before trying to recover.
    pub recovery_timeout_secs: u64,
    /// Successes needed in half-open to close again.
    pub success_threshold: u32,
    /// Window, in seconds, in which failures are counted.
    pub failure_window_secs: u64,
    /// Total loss within its window that opens the breaker.
    pub rapid_loss_threshold: Dec,
    /// Window, in seconds, in which losses are added up.
    pub rapid_loss_window_secs: u64,
}

impl CircuitBreakerConfig {
    /// Windows and timeouts are small enough for chrono's arithmetic.
    pub open spec fn valid(self) -> bool {
        &&& self.recovery_timeout_secs <= max_window_secs()
        &&& self.failure_window_secs <= max_window_secs()
        &&& self.rapid_loss_window_secs <= max_window_secs()
    }

    /// The defaults: 5 failures per minute, 5 minutes to recover, 3
    /// successes to close, a loss of 500 within a minute.
    pub fn default() -> (r: Self)
        ensures
            r.failure_threshold == 5,
            r.recovery_timeout_secs == 300,
            r.success_threshold == 3,
            r.failure_window_secs == 60,
            r.rapid_loss_threshold.repr() == rint(500),
            r.rapid_loss_window_secs == 60,
    {
        CircuitBreakerConfig {
            failure_threshold: 5,
            recovery_timeout_secs: 300,
            success_threshold: 3,
            failure_window_secs: 60,
            rapid_loss_threshold: Dec::from_u32(500),
            rapid_loss_window_secs: 60,
        }
    }
}

/// What a breaker is, abstractly.
pub struct BreakerModel {
    pub state: CircuitState,
    /// Instants of the failures in the window, oldest first.
    pub failures: Seq<i64>,
    /// Instants and amounts of the losses in the window, oldest first.
    pub losses: Seq<(i64, Dec)>,
    pub successes: u32,
    pub opened_at: Option<i64>,
    /// Events emitted and not yet drained.
    pub events: Seq<CircuitBreakerEvent>,
}

/// Drops the leading instants older than `cutoff`.
pub open spec fn drop_older_times(ts: Seq<i64>, cutoff: int) -> Seq<i64>
    decreases ts.len(),
{
    if ts.len() > 0 && ts[0] < cutoff {
        drop_older_times(ts.drop_first(), cutoff)
    } else {
        ts
    }
}

/// Drops the leading losses older than `cutoff`.
pub open spec fn drop_older_losses(ls: Seq<(i64, Dec)>, cutoff: int) -> Seq<(i64, Dec)>
    decreases ls.len(),
{
    if ls.len() > 0 && ls[0].0 < cutoff {
        drop_older_losses(ls.drop_first(), cutoff)
    } else {
        ls
    }
}

/// The amounts of a list of losses.
pub open spec fn loss_amounts(ls: Seq<(i64, Dec)>) -> Seq<Dec> {
    ls.map_values(|p: (i64, Dec)| p.1)
}

/// The failures in the window after one at `now`.
pub open spec fn failures_after(
    cfg: CircuitBreakerConfig,
    m: BreakerModel,
    now: int,
) -> Seq<i64> {
    drop_older_times(m.failures.push(now as i64), now - cfg.failure_window_secs * 1000)
}

/// The losses in the window after a failure at `now`.
pub open spec fn losses_after(
    cfg: CircuitBreakerConfig,
    m: BreakerModel,
    failure: FailureType,
    now: int,
) -> Seq<(i64, Dec)> {
    match failure {
        FailureType::RapidLoss { amount } => drop_older_losses(
            m.losses.push((now as i64, amount)),
            now - cfg.rapid_loss_window_secs * 1000,
        ),
        _ => m.losses,
    }
}

/// Whether the failures or the losses in the window call for opening.
pub open spec fn limits_exceeded(
    cfg: CircuitBreakerConfig,
    failures: Seq<i64>,
    losses: Seq<(i64, Dec)>,
) -> bool {
    ||| (failures.len() as u32) >= cfg.failure_threshold
    ||| rsum(reprs(loss_amounts(losses))).0 >= cfg.rapid_loss_threshold.v()
}

/// Whether adding up the losses in the window after a failure can be done
/// exactly (it is only done while the failure count is below its threshold).
pub open spec fn failure_sum_ok(
    cfg: CircuitBreakerConfig,
    m: BreakerModel,
    failure: FailureType,
    now: int,
) -> bool {
    (failures_after(cfg, m, now).len() as u32) >= cfg.failure_threshold || sum_fits(
        reprs(loss_amounts(losses_after(cfg, m, failure, now))),
    )
}

/// The breaker after recording `failure` at `now`.
pub open spec fn step_failure(
    cfg: CircuitBreakerConfig,
    m: BreakerModel,
    failure: FailureType,
    now: int,
) -> BreakerModel {
    let failures = failures_after(cfg, m, now);
    let losses = losses_after(cfg, m, failure, now);
    let opens = m.state != CircuitState::Open && (limits_exceeded(cfg, failures, losses)
        || m.state == CircuitState::HalfOpen);
    let recorded = CircuitBreakerEvent::FailureRecorded {
        failure_type: failure,
        count: failures.len() as u32,
    };
    BreakerModel {
        state: if opens {
            CircuitState::Open
        } else {
            m.state
        },
        failures,
        losses,
        successes: m.successes,
        opened_at: if opens {
            Some(now as i64)
        } else {
            m.opened_at
        },
        events: if opens {
            m.events.push(recorded).push(
                CircuitBreakerEvent::StateChanged { from: m.state, to: CircuitState::Open },
            )
        } else {
            m.events.push(recorded)
        },
    }
}

/// The breaker after recording a success.
pub open spec fn step_success(cfg: CircuitBreakerConfig, m: BreakerModel) -> BreakerModel {
    if m.state == CircuitState::HalfOpen {
        let count = if m.successes == u32::MAX {
            0u32
        } else {
            (m.successes + 1) as u32
        };
        let events = m.events.push(CircuitBreakerEvent::SuccessRecorded { count });
        if count >= cfg.success_threshold {
            BreakerModel {
                state: CircuitState::Closed,
                successes: 0,
                opened_at: None,
                events: events.push(
                    CircuitBreakerEvent::StateChanged {
                        from: CircuitState::HalfOpen,
                        to: CircuitState::Closed,
                    },
                ),
                ..m
            }
        } else {
            BreakerModel { successes: count, events, ..m }
        }
    } else {
        m
    }
}

/// The breaker after a manual reset.
pub open spec fn step_reset(m: BreakerModel) -> BreakerModel {
    let closed = if m.state != CircuitState::Closed {
        BreakerModel {
            state: CircuitState::Closed,
            opened_at: None,
            successes: 0,
            events: m.events.push(
                CircuitBreakerEvent::StateChanged { from: m.state, to: CircuitState::Closed },
            ),
            ..m
        }
    } else {
        m
    };
    BreakerModel {
        failures: Seq::empty(),
        losses: Seq::empty(),
        events: closed.events.push(CircuitBreakerEvent::ManualReset),
        ..closed
    }
}

/// Whether an open breaker has waited long enough at `now`.
pub open spec fn recovery_due(cfg: CircuitBreakerConfig, m: BreakerModel, now: int) -> bool {
    match m.opened_at {
        Some(t) => now - t >= cfg.recovery_timeout_secs * 1000,
        None => false,
    }
}

/// Whether operations are allowed at `now`.
pub open spec fn allowed_at(cfg: CircuitBreakerConfig, m: BreakerModel, now: int) -> bool {
    m.state != CircuitState::Open || recovery_due(cfg, m, now)
}

/// The breaker after asking, at `now`, whether operations are allowed.
pub open spec fn step_allowed(cfg: CircuitBreakerConfig, m: BreakerModel, now: int) -> BreakerModel {
    if m.state == CircuitState::Open && recovery_due(cfg, m, now) {
        BreakerModel {
            state: CircuitState::HalfOpen,
            successes: 0,
            events: m.events.push(
                CircuitBreakerEvent::StateChanged {
                    from: CircuitState::Open,
                    to: CircuitState::HalfOpen,
                },
            ),
            ..m
        }
    } else {
        m
    }
}

/// Whole seconds in `ms` milliseconds, rounded toward zero.
pub open spec fn whole_seconds(ms: int) -> int {
    if ms >= 0 {
        ms / 1000
    } else {
        -((-ms) / 1000)
    }
}

/// Seconds left, at `now`, before an open breaker tries to recover.
pub open spec fn recovery_wait(cfg: CircuitBreakerConfig, m: BreakerModel, now: int) -> Option<
    int,
> {
    if m.state != CircuitState::Open {
        None
    } else {
        match m.opened_at {
            Some(t) => {
                let remaining = cfg.recovery_timeout_secs - whole_seconds(now - t);
                Some(
                    if remaining > 0 {
                        remaining
                    } else {
                        0
                    },
                )
            },
            None => None,
        }
    }
}

/// The circuit breaker.
pub struct CircuitBreaker {
    config: CircuitBreakerConfig,
    state: CircuitState,
    failures: Vec<i64>,
    losses: Vec<(i64, Dec)>,
    successes_in_half_open: u32,
    opened_at: Option<i64>,
    events: Vec<CircuitBreakerEvent>,
}

impl View for CircuitBreaker {
    type V = BreakerModel;

    closed spec fn view(&self) -> BreakerModel {
        BreakerModel {
            state: self.state,
            failures: self.failures@,
            losses: self.losses@,
            successes: self.successes_in_half_open,
            opened_at: self.opened_at,
            events: self.events@,
        }
    }
}

/// Removes the leading instants older than `cutoff`.
fn drop_older_times_exec(ts: &mut Vec<i64>, cutoff: i128)
    ensures
        final(ts)@ == drop_older_times(old(ts)@, cutoff as int),
{
    while ts.len() > 0 && (ts[0] as i128) < cutoff
        invariant
            drop_older_times(ts@, cutoff as int) == drop_older_times(old(ts)@, cutoff as int),
        decreases ts.len(),
    {
        let ghost before = ts@;
        ts.remove(0);
        assert(ts@ =~= before.drop_first());
    }
}

/// Removes the leading losses older than `cutoff`.
fn drop_older_losses_exec(ls: &mut Vec<(i64, Dec)>, cutoff: i128)
    ensures
        final(ls)@ == drop_older_losses(old(ls)@, cutoff as int),
{
    while ls.len() > 0 && (ls[0].0 as i128) < cutoff
        invariant
            drop_older_losses(ls@, cutoff as int) == drop_older_losses(old(ls)@, cutoff as int),
        decreases ls.len(),
    {
        let ghost before = ls@;
        ls.remove(0);
        assert(ls@ =~= before.drop_first());
    }
}

impl CircuitBreaker {
    /// The configuration.
    pub closed spec fn cfg(&self) -> CircuitBreakerConfig {
        self.config
    }

    /// A closed breaker with no history.
    pub fn new(config: CircuitBreakerConfig) -> (r: Self)
        ensures
            r.cfg() == config,
            r@.state == CircuitState::Closed,
            r@.failures.len() == 0,
            r@.losses.len() == 0,
            r@.successes == 0,
            r@.opened_at.is_none(),
            r@.events.len() == 0,
    {
        CircuitBreaker {
            config,
            state: CircuitState::Closed,
            failures: Vec::new(),
            losses: Vec::new(),
            successes_in_half_open: 0,
            opened_at: None,
            events: Vec::new(),
        }
    }

    /// A closed breaker with the default configuration.
    pub fn default() -> (r: Self)
        ensures
            r.cfg().failure_threshold == 5,
            r.cfg().recovery_timeout_secs == 300,
            r.cfg().success_threshold == 3,
            r.cfg().failure_window_secs == 60,
            r.cfg().rapid_loss_threshold.repr() == rint(500),
            r.cfg().rapid_loss_window_secs == 60,
            r@.state == CircuitState::Closed,
            r@.failures.len() == 0,
            r@.losses.len() == 0,
            r@.successes == 0,
            r@.opened_at.is_none(),
            r@.events.len() == 0,
    {
        Self::new(CircuitBreakerConfig::default())
    }

    /// The configuration.
    pub fn config(&self) -> (r: &CircuitBreakerConfig)
        ensures
            *r == self.cfg(),
    {
        &self.config
    }

    /// The current state.
    pub fn get_state(&self) -> (r: CircuitState)
        ensures
            r == self@.state,
    {
        self.state
    }

    /// The number of failures in the current window.
    pub fn failure_count(&self) -> (r: usize)
        ensures
            r == self@.failures.len(),
    {
        self.failures.len()
    }

    /// Hands out the events emitted so far and forgets them.
    pub fn drain_events(&mut self) -> (r: Vec<CircuitBreakerEvent>)
        ensures
            r@ == old(self)@.events,
            final(self)@ == (BreakerModel { events: Seq::empty(), ..old(self)@ }),
            final(self).cfg() == old(self).cfg(),
    {
        let mut out = Vec::new();
        std::mem::swap(&mut out, &mut self.events);
        out
    }

    /// Adds up the losses in the window.
    fn total_loss(&self) -> (r: Dec)
        requires
            sum_fits(reprs(loss_amounts(self.losses@))),
        ensures
            r.repr() == rsum(reprs(loss_amounts(self.losses@))),
    {
        let mut amounts: Vec<Dec> = Vec::new();
        let mut i: usize = 0;
        while i < self.losses.len()
            invariant
                i <= self.losses.len(),
                amounts@ =~= loss_amounts(self.losses@.take(i as int)),
            decreases self.losses.len() - i,
        {
            amounts.push(self.losses[i].1);
            i += 1;
            assert(amounts@ =~= loss_amounts(self.losses@.take(i as int)));
        }
        assert(self.losses@.take(self.losses.len() as int) =~= self.losses@);
        sum_all(&amounts)
    }

    /// Records a failure that happened at `now`.
    pub fn record_failure_at(&mut self, failure_type: FailureType, now: i64)
        requires
            old(self).cfg().valid(),
            failure_sum_ok(old(self).cfg(), old(self)@, failure_type, now as int),
        ensures
            final(self).cfg() == old(self).cfg(),
            final(self)@ == step_failure(old(self).cfg(), old(self)@, failure_type, now as int),
    {
        let ghost m = self@;
        let ghost cfg = self.config;
        self.failures.push(now);
        let cutoff = (now as i128) - (self.config.failure_window_secs as i128) * 1000;
        drop_older_times_exec(&mut self.failures, cutoff);
        assert(self.failures@ == failures_after(cfg, m, now as int));
        match &failure_type {
            FailureType::RapidLoss { amount } => {
                self.losses.push((now, *amount));
                let loss_cutoff = (now as i128) - (self.config.rapid_loss_window_secs as i128)
                    * 1000;
                drop_older_losses_exec(&mut self.losses, loss_cutoff);
            },
            _ => {},
        }
        assert(self.losses@ == losses_after(cfg, m, failure_type, now as int));
        let count = #[verifier::truncate] (self.failures.len() as u32);
        self.events.push(
            CircuitBreakerEvent::FailureRecorded { failure_type: failure_type.duplicate(), count },
        );
        let should_open = if count >= self.config.failure_threshold {
            true
        } else {
            let total = self.total_loss();
            total.ge(&self.config.rapid_loss_threshold)
        };
        assert(should_open == limits_exceeded(cfg, self.failures@, self.losses@));
        if should_open || self.state == CircuitState::HalfOpen {
            if self.state != CircuitState::Open {
                let from = self.state;
                self.state = CircuitState::Open;
                self.opened_at = Some(now);
                self.events.push(
                    CircuitBreakerEvent::StateChanged { from, to: CircuitState::Open },
                );
            }
        }
        assert(self@ =~= step_failure(cfg, m, failure_type, now as int));
    }

    /// Records a failure that happens now.
    pub fn record_failure(&mut self, failure_type: FailureType)
        requires
            old(self).cfg().valid(),
            forall|now: int|
                0 <= now <= crate::clock::latest_instant() ==> failure_sum_ok(
                    old(self).cfg(),
                    old(self)@,
                    failure_type,
                    now,
                ),
        ensures
            final(self).cfg() == old(self).cfg(),
            exists|now: int|
                0 <= now <= crate::clock::latest_instant() && final(self)@ == step_failure(
                    old(self).cfg(),
                    old(self)@,
                    failure_type,
                    now,
                ),
    {
        let now = now_millis();
        self.record_failure_at(failure_type, now);
    }

    /// Records a loss of `amount` at `now`; only positive amounts count.
    pub fn record_loss_at(&mut self, amount: Dec, now: i64)
        requires
            old(self).cfg().valid(),
            amount.v() > 0 ==> failure_sum_ok(
                old(self).cfg(),
                old(self)@,
                FailureType::RapidLoss { amount },
                now as int,
            ),
        ensures
            final(self).cfg() == old(self).cfg(),
            final(self)@ == if amount.v() > 0 {
                step_failure(
                    old(self).cfg(),
                    old(self)@,
                    FailureType::RapidLoss { amount },
                    now as int,
                )
            } else {
                old(self)@
            },
    {
        if amount.is_positive() {
            self.record_failure_at(FailureType::RapidLoss { amount }, now);
        }
    }

    /// Records a loss of `amount` that happens now; only positive amounts count.
    pub fn record_loss(&mut self, amount: Dec)
        requires
            old(self).cfg().valid(),
            amount.v() > 0 ==> forall|now: int|
                0 <= now <= crate::clock::latest_instant() ==> failure_sum_ok(
                    old(self).cfg(),
                    old(self)@,
                    FailureType::RapidLoss { amount },
                    now,
                ),
        ensures
            final(self).cfg() == old(self).cfg(),
            amount.v() <= 0 ==> final(self)@ == old(self)@,
            amount.v() > 0 ==> exists|now: int|
                0 <= now <= crate::clock::latest_instant() && final(self)@ == step_failure(
                    old(self).cfg(),
                    old(self)@,
                    FailureType::RapidLoss { amount },
                    now,
                ),
    {
        let now = now_millis();
        self.record_loss_at(amount, now);
    }

    /// Records a success; it only counts while half-open.
    pub fn record_success(&mut self)
        ensures
            final(self).cfg() == old(self).cfg(),
            final(self)@ == step_success(old(self).cfg(), old(self)@),
    {
        let ghost m = self@;
        if self.state == CircuitState::HalfOpen {
            let count = self.successes_in_half_open.wrapping_add(1);
            self.successes_in_half_open = count;
            self.events.push(CircuitBreakerEvent::SuccessRecorded { count });
            if count >= self.config.success_threshold {
                self.close_circuit();
            }
            assert(self@ =~= step_success(self.config, m));
        }
    }

    /// Moves to `Closed`, if not there already.
    fn close_circuit(&mut self)
        ensures
            final(self).cfg() == old(self).cfg(),
            final(self)@ == if old(self)@.state != CircuitState::Closed {
                BreakerModel {
                    state: CircuitState::Closed,
                    opened_at: None,
                    successes: 0,
                    events: old(self)@.events.push(
                        CircuitBreakerEvent::StateChanged {
                            from: old(self)@.state,
                            to: CircuitState::Closed,
                        },
                    ),
                    ..old(self)@
                }
            } else {
                old(self)@
            },
    {
        if self.state != CircuitState::Closed {
            let from = self.state;
            self.state = CircuitState::Closed;
            self.opened_at = None;
            self.successes_in_half_open = 0;
            self.events.push(CircuitBreakerEvent::StateChanged { from, to: CircuitState::Closed });
        }
    }

    /// Closes the breaker by hand and forgets all failures and losses.
    pub fn reset(&mut self)
        ensures
            final(self).cfg() == old(self).cfg(),
            final(self)@ == step_reset(old(self)@),
    {
        let ghost m = self@;
        self.close_circuit();
        self.failures.clear();
        self.losses.clear();
        self.events.push(CircuitBreakerEvent::ManualReset);
        assert(self@ =~= step_reset(m));
    }

    /// Whether operations are allowed at `now`; an open breaker whose
    /// recovery time has come moves to half-open and allows them.
    pub fn is_allowed_at(&mut self, now: i64) -> (r: bool)
        ensures
            final(self).cfg() == old(self).cfg(),
            r == allowed_at(old(self).cfg(), old(self)@, now as int),
            final(self)@ == step_allowed(old(self).cfg(), old(self)@, now as int),
    {
        let ghost m = self@;
        match self.state {
            CircuitState::Closed => true,
            CircuitState::HalfOpen => true,
            CircuitState::Open => {
                match self.opened_at {
                    Some(opened) => {
                        let elapsed = (now as i128) - (opened as i128);
                        if elapsed >= (self.config.recovery_timeout_secs as i128) * 1000 {
                            self.state = CircuitState::HalfOpen;
                            self.successes_in_half_open = 0;
                            self.events.push(
                                CircuitBreakerEvent::StateChanged {
                                    from: CircuitState::Open,
                                    to: CircuitState::HalfOpen,
                                },
                            );
                            assert(self@ =~= step_allowed(self.config, m, now as int));
                            true
                        } else {
                            false
                        }
                    },
                    None => false,
                }
            },
        }
    }

    /// Whether operations are allowed now.
    pub fn is_allowed(&mut self) -> (r: bool)
        ensures
            final(self).cfg() == old(self).cfg(),
            exists|now: int|
                0 <= now <= crate::clock::latest_instant() && r == allowed_at(
                    old(self).cfg(),
                    old(self)@,
                    now,
                ) && final(self)@ == step_allowed(old(self).cfg(), old(self)@, now),
    {
        let now = now_millis();
        self.is_allowed_at(now)
    }

    /// Seconds left, at `now`, before an open breaker tries to recover
    /// (`None` unless open).
    pub fn time_until_recovery_at(&self, now: i64) -> (r: Option<i64>)
        requires
            self.cfg().valid(),
            0 <= now <= crate::clock::latest_instant(),
            self@.opened_at matches Some(t) ==> 0 <= t <= crate::clock::latest_instant(),
        ensures
            r matches Some(x) ==> recovery_wait(self.cfg(), self@, now as int) == Some(x as int),
            r is None ==> recovery_wait(self.cfg(), self@, now as int) is None,
    {
        if self.state != CircuitState::Open {
            return None;
        }
        match self.opened_at {
            Some(opened) => {
                let diff = (now as i128) - (opened as i128);
                let elapsed: i128 = if diff >= 0 {
                    diff / 1000
                } else {
                    -((-diff) / 1000)
                };
                let remaining = (self.config.recovery_timeout_secs as i128) - elapsed;
                let r: i128 = if remaining > 0 {
                    remaining
                } else {
                    0
                };
                Some(r as i64)
            },
            None => None,
        }
    }
}

impl CircuitBreaker {
    /// Seconds left before an open breaker tries to recover (`None` unless
    /// open), read against the clock.
    pub fn time_until_recovery(&self) -> (r: Option<i64>)
        requires
            self.cfg().valid(),
            self@.opened_at matches Some(t) ==> 0 <= t <= crate::clock::latest_instant(),
        ensures
            exists|now: int|
                0 <= now <= crate::clock::latest_instant() && (match r {
                    Some(x) => recovery_wait(self.cfg(), self@, now) == Some(x as int),
                    None => recovery_wait(self.cfg(), self@, now) is None,
                }),
    {
        let now = now_millis();
        self.time_until_recovery_at(now)
    }
}

// Laws of the breaker.

/// Once the failures in the window reach the threshold, the breaker is open.
pub proof fn law_failures_at_threshold_open(
    cfg: CircuitBreakerConfig,
    m: BreakerModel,
    failure: FailureType,
    now: int,
)
    requires
        (failures_after(cfg, m, now).len() as u32) >= cfg.failure_threshold,
    ensures
        step_failure(cfg, m, failure, now).state == CircuitState::Open,
{
}

/// Once the losses in the window add up to the threshold, the breaker is open.
pub proof fn law_rapid_loss_opens(cfg: CircuitBreakerConfig, m: BreakerModel, amount: Dec, now: int)
    requires
        rsum(reprs(loss_amounts(losses_after(cfg, m, FailureType::RapidLoss { amount }, now)))).0
            >= cfg.rapid_loss_threshold.v(),
    ensures
        step_failure(cfg, m, FailureType::RapidLoss { amount }, now).state == CircuitState::Open,
{
}

/// Below both limits, a failure leaves a closed breaker closed.
pub proof fn law_below_limits_stays_closed(
    cfg: CircuitBreakerConfig,
    m: BreakerModel,
    failure: FailureType,
    now: int,
)
    requires
        m.state == CircuitState::Closed,
        !limits_exceeded(cfg, failures_after(cfg, m, now), losses_after(cfg, m, failure, now)),
    ensures
        step_failure(cfg, m, failure, now).state == CircuitState::Closed,
{
}

/// A failure while half-open opens the breaker again.
pub proof fn law_half_open_failure_reopens(
    cfg: CircuitBreakerConfig,
    m: BreakerModel,
    failure: FailureType,
    now: int,
)
    requires
        m.state == CircuitState::HalfOpen,
    ensures
        step_failure(cfg, m, failure, now).state == CircuitState::Open,
        step_failure(cfg, m, failure, now).opened_at == Some(now as i64),
{
}

/// While half-open, the success that reaches the threshold closes the breaker.
pub proof fn law_half_open_successes_close(cfg: CircuitBreakerConfig, m: BreakerModel)
    requires
        m.state == CircuitState::HalfOpen,
        m.successes < u32::MAX,
        m.successes + 1 >= cfg.success_threshold,
    ensures
        step_success(cfg, m).state == CircuitState::Closed,
        step_success(cfg, m).successes == 0,
        step_success(cfg, m).opened_at is None,
{
}

/// Successes outside half-open change nothing.
pub proof fn law_success_ignored_unless_half_open(cfg: CircuitBreakerConfig, m: BreakerModel)
    requires
        m.state != CircuitState::HalfOpen,
    ensures
        step_success(cfg, m) == m,
{
}

/// A reset closes the breaker and empties both windows.
pub proof fn law_reset_clears(m: BreakerModel)
    ensures
        step_reset(m).state == CircuitState::Closed,
        step_reset(m).failures.len() == 0,
        step_reset(m).losses.len() == 0,
        step_reset(m).opened_at is None || m.state == CircuitState::Closed,
{
}

/// An open breaker refuses operations until its recovery time has passed,
/// and stays open meanwhile.
pub proof fn law_open_waits_for_recovery(cfg: CircuitBreakerConfig, m: BreakerModel, now: int)
    requires
        m.state == CircuitState::Open,
        m.opened_at matches Some(t) && now - t < cfg.recovery_timeout_secs * 1000,
    ensures
        !allowed_at(cfg, m, now),
        step_allowed(cfg, m, now) == m,
{
}

/// After the recovery time an open breaker allows operations and is half-open
/// with no successes counted.
pub proof fn law_recovery_half_opens(cfg: CircuitBreakerConfig, m: BreakerModel, now: int)
    requires
        m.state == CircuitState::Open,
        m.opened_at matches Some(t) && now - t >= cfg.recovery_timeout_secs * 1000,
    ensures
        allowed_at(cfg, m, now),
        step_allowed(cfg, m, now).state == CircuitState::HalfOpen,
        step_allowed(cfg, m, now).successes == 0,
{
}

/// A closed or half-open breaker allows operations.
pub proof fn law_not_open_allows(cfg: CircuitBreakerConfig, m: BreakerModel, now: int)
    requires
        m.state != CircuitState::Open,
    ensures
        allowed_at(cfg, m, now),
        step_allowed(cfg, m, now) == m,
{
}

} // verus!
