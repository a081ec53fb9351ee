use vstd::prelude::*;

use crate::control::TimeControl;
use crate::countdown::{countdown_fits, countdown_text, ShowCountdown};
use crate::duration::{min_nat, sub_sat, Duration, MAX_NANOS, NANOS_PER_SEC};

verus! {

/// Configuration for a Fischer clock.
///
/// A Fischer clock is a simple countdown that adds an amount of time to the
/// countdown at the end of a turn. For example, with an initial period of
/// 10:00 and an increment of :10, a turn that took 2:00 ends with 8:10 on
/// the clock.
///
/// The increment is only added *after* the turn ends: a turn starting with
/// 2:00 on the clock expires after 2:00 whatever the increment.
#[derive(Clone, Copy, Debug)]
pub struct FischerConfig {
    /// The amount of time on the clock at the start of the game.
    pub initial: Duration,
    /// The amount of time added to the clock after finishing a turn.
    pub increment: Duration,
    /// A limit to the amount of time on the clock after incrementing.
    pub limit: Option<Duration>,
}

impl FischerConfig {
    /// A Fischer configuration with the given initial minutes and increment
    /// seconds, and no limit.
    pub fn new(initial_mins: u64, increment_secs: u64) -> (r: FischerConfig)
        requires
            initial_mins * 60 <= u64::MAX,
        ensures
            r.initial@ == initial_mins * 60 * NANOS_PER_SEC,
            r.increment@ == increment_secs * NANOS_PER_SEC,
            r.limit is None,
    {
        FischerConfig {
            initial: Duration::from_mins(initial_mins),
            increment: Duration::from_secs(increment_secs),
            limit: None,
        }
    }
}

/// The abstract state of a [`FischerClock`]; times are in nanoseconds.
pub struct FischerModel {
    pub config: FischerConfig,
    pub running: bool,
    pub main: nat,
}

impl FischerModel {
    /// A fresh clock for `config`: stopped, with the initial time.
    pub open spec fn initial(config: FischerConfig) -> FischerModel {
        FischerModel { config, running: false, main: config.initial@ }
    }

    pub open spec fn expired(self) -> bool {
        self.main == 0
    }

    /// How the clock shows: the main time with minutes.
    pub open spec fn display(self) -> Seq<char> {
        countdown_text(self.main, true)
    }

    pub open spec fn display_fits(self) -> bool {
        countdown_fits(self.main)
    }

    pub open spec fn start(self) -> FischerModel {
        FischerModel { running: true, ..self }
    }

    pub open spec fn spend(self, elapsed: nat) -> FischerModel {
        if self.running {
            FischerModel { main: sub_sat(self.main, elapsed), ..self }
        } else {
            self
        }
    }

    /// The main time after the increment, capped by the limit if there is
    /// one.
    pub open spec fn incremented(self) -> nat {
        let raised = self.main + self.config.increment@;
        match self.config.limit {
            Some(limit) => min_nat(raised, limit@),
            None => raised,
        }
    }

    /// Ending a turn adds the increment unless the clock has expired.
    pub open spec fn end(self) -> FischerModel {
        if self.running {
            FischerModel {
                running: false,
                main: if self.main == 0 { 0 } else { self.incremented() },
                ..self
            }
        } else {
            self
        }
    }
}

/// A Fischer clock; see [`FischerConfig`].
#[derive(Clone, Copy, Debug)]
pub struct FischerClock {
    config: FischerConfig,
    running: bool,
    main: Duration,
}

impl View for FischerClock {
    type V = FischerModel;

    closed spec fn view(&self) -> FischerModel {
        FischerModel { config: self.config, running: self.running, main: self.main@ }
    }
}

impl FischerClock {
    /// A fresh clock for `config`, as a value of specifications.
    pub closed spec fn spec_new(config: FischerConfig) -> FischerClock {
        FischerClock { config, running: false, main: config.initial }
    }

    /// A fresh clock has the initial state.
    pub proof fn lemma_spec_new(config: FischerConfig)
        ensures
            FischerClock::spec_new(config)@ == FischerModel::initial(config),
    {
        Duration::lemma_spec_zero();
    }

    /// A new Fischer clock with the given config.
    pub fn new(config: FischerConfig) -> (r: FischerClock)
        ensures
            r@ == FischerModel::initial(config),
            r == FischerClock::spec_new(config),
    {
        FischerClock { config, running: false, main: config.initial }
    }

    /// The config this clock was created with.
    pub fn config(&self) -> (r: FischerConfig)
        ensures
            r == self@.config,
    {
        self.config
    }

    /// The time remaining on the clock.
    pub fn main_remaining(&self) -> (r: Duration)
        ensures
            r@ == self@.main,
    {
        self.main
    }

    /// Appends how the clock shows to `out`.
    pub fn write_to(&self, out: &mut String)
        requires
            self@.display_fits(),
        ensures
            final(out)@ == old(out)@ + self@.display(),
    {
        ShowCountdown::with_minutes(self.main).write_to(out);
    }

    /// How the clock shows, as a string.
    pub fn to_string(&self) -> (r: String)
        requires
            self@.display_fits(),
        ensures
            r@ == self@.display(),
    {
        let mut out = String::new();
        self.write_to(&mut out);
        assert(out@ =~= self@.display());
        out
    }
}

impl From<FischerConfig> for FischerClock {
    fn from(config: FischerConfig) -> (r: FischerClock)
        ensures
            r@ == FischerModel::initial(config),
    {
        FischerClock::new(config)
    }
}

impl vstd::std_specs::convert::FromSpecImpl<FischerConfig> for FischerClock {
    open spec fn obeys_from_spec() -> bool {
        true
    }

    open spec fn from_spec(config: FischerConfig) -> FischerClock {
        FischerClock::spec_new(config)
    }
}

impl TimeControl for FischerClock {
    type Model = FischerModel;

    open spec fn model(&self) -> FischerModel {
        self@
    }

    open spec fn model_expired(m: FischerModel) -> bool {
        m.expired()
    }

    open spec fn model_running(m: FischerModel) -> bool {
        m.running
    }

    open spec fn model_max_remaining(m: FischerModel) -> nat {
        m.main
    }

    open spec fn max_remaining_fits(m: FischerModel) -> bool {
        true
    }

    open spec fn model_reset(m: FischerModel) -> FischerModel {
        FischerModel::initial(m.config)
    }

    open spec fn model_start(m: FischerModel) -> FischerModel {
        m.start()
    }

    open spec fn model_spend(m: FischerModel, elapsed: nat) -> FischerModel {
        m.spend(elapsed)
    }

    open spec fn spend_fits(m: FischerModel, elapsed: nat) -> bool {
        true
    }

    open spec fn model_end(m: FischerModel) -> FischerModel {
        m.end()
    }

    /// Adding the increment must not overflow.
    open spec fn end_fits(m: FischerModel) -> bool {
        m.running && m.main != 0 ==> m.main + m.config.increment@ <= MAX_NANOS
    }

    fn reset(&mut self) {
        *self = Self::new(self.config);
        assert(!Self::model_running(self.model()));
    }

    fn is_expired(&self) -> (r: bool) {
        self.main.is_zero()
    }

    fn max_remaining(&self) -> (r: Duration) {
        self.main
    }

    fn turn_start(&mut self) {
        self.running = true;
        assert(Self::model_running(self.model()));
    }

    fn turn_spend(&mut self, elapsed: Duration) -> (r: bool) {
        if self.running {
            self.main = self.main.saturating_sub(elapsed);
        }
        assert(Self::model_running(self.model()) == Self::model_running(old(self).model()));
        self.main.is_zero()
    }

    fn turn_end(&mut self) {
        if self.running {
            self.running = false;
            if !self.main.is_zero() {
                self.main = self.main.plus(self.config.increment);
                if let Some(limit) = self.config.limit {
                    self.main = self.main.min(limit);
                }
            }
        }
        assert(!Self::model_running(self.model()));
    }
}

/// During a turn, spending `max_remaining` (the main time) or more makes
/// the clock expire, and spending less does not: the increment only comes
/// after the turn.
pub proof fn lemma_fischer_max_remaining(m: FischerModel, elapsed: nat)
    requires
        m.running,
    ensures
        m.spend(elapsed).expired() <==> elapsed >= m.main,
        FischerClock::model_expired(FischerClock::model_spend(m, elapsed)) <==> elapsed
            >= FischerClock::model_max_remaining(m),
        FischerClock::model_max_remaining(m) == m.main,
{
}

/// Starting a turn while one is in progress changes nothing.
pub proof fn lemma_fischer_start_idempotent(m: FischerModel)
    requires
        m.running,
    ensures
        m.start() == m,
{
}

/// With a limit, the clock never holds more than the limit after a turn in
/// which it grew.
pub proof fn lemma_fischer_limit(m: FischerModel, limit: Duration)
    requires
        m.running,
        m.config.limit == Some(limit),
        m.main != 0,
    ensures
        m.end().main <= limit@,
{
}

/// Spending `a` and then `b` is spending `a + b` at once: what counts is
/// the total time spent thinking.
pub proof fn lemma_fischer_spend_additive(m: FischerModel, a: nat, b: nat)
    ensures
        m.spend(a).spend(b) == m.spend(a + b),
{
}

/// Ending a turn on a clock that has not expired adds the increment, capped
/// by the limit if there is one; an expired clock gets nothing.
pub proof fn lemma_fischer_end(m: FischerModel)
    requires
        m.running,
    ensures
        !FischerClock::model_running(FischerClock::model_end(m)),
        m.main == 0 ==> FischerClock::model_end(m).main == 0,
        m.main != 0 && m.config.limit is None ==> FischerClock::model_end(m).main == m.main
            + m.config.increment@,
        m.main != 0 && m.config.limit is Some ==> FischerClock::model_end(m).main == (if m.main
            + m.config.increment@ <= m.config.limit->0@ {
            m.main + m.config.increment@
        } else {
            m.config.limit->0@
        }),
        FischerClock::model_end(m).config == m.config,
{
}

/// Spending during a turn takes exactly the time spent, down to zero;
/// starting a turn keeps the main time.
pub proof fn lemma_fischer_spend(m: FischerModel, elapsed: nat)
    ensures
        m.running ==> FischerClock::model_spend(m, elapsed).main == (if elapsed <= m.main {
            m.main - elapsed
        } else {
            0
        }),
        FischerClock::model_start(m).main == m.main,
        FischerClock::model_running(FischerClock::model_start(m)),
{
}

/// Resetting gives back the initial time, stopped.
pub proof fn lemma_fischer_reset(m: FischerModel)
    ensures
        FischerClock::model_reset(m).main == m.config.initial@,
        !FischerClock::model_reset(m).running,
        FischerClock::model_reset(m).config == m.config,
{
}

/// The clock shows its main time, with minutes.
pub proof fn lemma_fischer_display(m: FischerModel)
    ensures
        m.display() == countdown_text(m.main, true),
{
}

} // verus!
