//! Periodic tasks: which events are emitted how often, and the start/stop
//! state of the scheduler.  The timers themselves are run by the
//! application.
use vstd::prelude::*;

verus! {

/// What the scheduler announces.
#[derive(Clone, Copy, Debug, PartialEq, Eq, Structural)]
pub enum SchedulerEvent {
    CollectFearGreed,
    UpdatePrices,
    CheckPositions,
    RunStrategies,
    Started,
    Stopped,
}

/// Intervals, in seconds.
#[derive(Clone, Copy, Debug, PartialEq, Eq, Structural)]
pub struct SchedulerConfig {
    pub fear_greed_interval_secs: u64,
    pub price_update_interval_secs: u64,
    pub position_check_interval_secs: u64,
    pub strategy_interval_secs: u64,
}

impl SchedulerConfig {
    /// Fear & Greed hourly, prices every 5 s, positions every 10 s,
    /// strategies every minute.
    pub fn default() -> (r: Self)
        ensures
            r.fear_greed_interval_secs == 3600,
            r.price_update_interval_secs == 5,
            r.position_check_interval_secs == 10,
            r.strategy_interval_secs == 60,
    {
        SchedulerConfig {
            fear_greed_interval_secs: 3600,
            price_update_interval_secs: 5,
            position_check_interval_secs: 10,
            strategy_interval_secs: 60,
        }
    }
}

/// A task to run: its name, its interval in seconds and the event it
/// emits, first at once and then every interval.
#[derive(Clone, Debug)]
pub struct PeriodicTask {
    pub name: String,
    pub interval_secs: u64,
    pub event: SchedulerEvent,
}

/// The periodic tasks of a configuration, in the order they start.
pub open spec fn task_plan(c: SchedulerConfig) -> Seq<(Seq<char>, u64, SchedulerEvent)> {
    seq![
        ("FearGreed"@, c.fear_greed_interval_secs, SchedulerEvent::CollectFearGreed),
        ("Preços"@, c.price_update_interval_secs, SchedulerEvent::UpdatePrices),
        ("Posições"@, c.position_check_interval_secs, SchedulerEvent::CheckPositions),
        ("Estratégias"@, c.strategy_interval_secs, SchedulerEvent::RunStrategies),
    ]
}

/// The scheduler's state: whether it runs, the tasks it started, and the
/// events not yet handed out.
pub struct Scheduler {
    config: SchedulerConfig,
    running: bool,
    events: Vec<SchedulerEvent>,
}

impl Scheduler {
    pub closed spec fn cfg(&self) -> SchedulerConfig {
        self.config
    }

    pub closed spec fn is_running_spec(&self) -> bool {
        self.running
    }

    pub closed spec fn pending_events(&self) -> Seq<SchedulerEvent> {
        self.events@
    }

    /// A stopped scheduler with the default intervals.
    pub fn new() -> (r: Self)
        ensures
            r.cfg() == (SchedulerConfig {
                fear_greed_interval_secs: 3600,
                price_update_interval_secs: 5,
                position_check_interval_secs: 10,
                strategy_interval_secs: 60,
            }),
            !r.is_running_spec(),
            r.pending_events().len() == 0,
    {
        Self::with_config(SchedulerConfig::default())
    }

    /// A stopped scheduler with `config`.
    pub fn with_config(config: SchedulerConfig) -> (r: Self)
        ensures
            r.cfg() == config,
            !r.is_running_spec(),
            r.pending_events().len() == 0,
    {
        Scheduler { config, running: false, events: Vec::new() }
    }

    /// Hands out the events emitted so far and forgets them.
    pub fn drain_events(&mut self) -> (r: Vec<SchedulerEvent>)
        ensures
            r@ == old(self).pending_events(),
            final(self).pending_events().len() == 0,
            final(self).cfg() == old(self).cfg(),
            final(self).is_running_spec() == old(self).is_running_spec(),
    {
        let mut out = Vec::new();
        std::mem::swap(&mut out, &mut self.events);
        out
    }

    /// Starts the scheduler: emits Started and returns the four periodic
    /// tasks to run.  A scheduler already running is left as it is and no
    /// task is returned.
    pub fn start(&mut self) -> (r: Vec<PeriodicTask>)
        ensures
            final(self).cfg() == old(self).cfg(),
            old(self).is_running_spec() ==> {
                &&& r@.len() == 0
                &&& final(self).is_running_spec()
                &&& final(self).pending_events() == old(self).pending_events()
            },
            !old(self).is_running_spec() ==> {
                &&& final(self).is_running_spec()
                &&& r@.len() == 4
                &&& forall|i: int|
                    0 <= i < 4 ==> (#[trigger] r@[i]).name@ == task_plan(old(self).cfg())[i].0
                        && r@[i].interval_secs == task_plan(old(self).cfg())[i].1 && r@[i].event
                        == task_plan(old(self).cfg())[i].2
                &&& final(self).pending_events() == old(self).pending_events().push(
                    SchedulerEvent::Started,
                )
            },
    {
        if self.running {
            return Vec::new();
        }
        self.running = true;
        self.events.push(SchedulerEvent::Started);
        let mut tasks: Vec<PeriodicTask> = Vec::new();
        tasks.push(
            PeriodicTask {
                name: "FearGreed".to_string(),
                interval_secs: self.config.fear_greed_interval_secs,
                event: SchedulerEvent::CollectFearGreed,
            },
        );
        tasks.push(
            PeriodicTask {
                name: "Preços".to_string(),
                interval_secs: self.config.price_update_interval_secs,
                event: SchedulerEvent::UpdatePrices,
            },
        );
        tasks.push(
            PeriodicTask {
                name: "Posições".to_string(),
                interval_secs: self.config.position_check_interval_secs,
                event: SchedulerEvent::CheckPositions,
            },
        );
        tasks.push(
            PeriodicTask {
                name: "Estratégias".to_string(),
                interval_secs: self.config.strategy_interval_secs,
                event: SchedulerEvent::RunStrategies,
            },
        );
        tasks
    }

    /// Stops the scheduler: emits Stopped and returns true, telling the
    /// caller to cancel the running tasks.  A scheduler not running is left
    /// as it is and false is returned.
    pub fn stop(&mut self) -> (r: bool)
        ensures
            r == old(self).is_running_spec(),
            !final(self).is_running_spec(),
            final(self).cfg() == old(self).cfg(),
            final(self).pending_events() == if r {
                old(self).pending_events().push(SchedulerEvent::Stopped)
            } else {
                old(self).pending_events()
            },
    {
        if !self.running {
            return false;
        }
        self.running = false;
        self.events.push(SchedulerEvent::Stopped);
        true
    }

    /// Whether the scheduler runs.
    pub fn is_running(&self) -> (r: bool)
        ensures
            r == self.is_running_spec(),
    {
        self.running
    }
}

} // verus!
