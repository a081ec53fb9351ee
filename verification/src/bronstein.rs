use vstd::prelude::*;

use crate::control::TimeControl;
use crate::countdown::{countdown_fits, countdown_text, ShowCountdown};
use crate::duration::{min_nat, sub_sat, Duration, MAX_NANOS, NANOS_PER_SEC};

verus! {

/// Configuration for a clock with Bronstein delay rules.
///
/// The clock is like Fischer, but at the end of a turn adds no more time than
/// was used during the move. If the increment is 10 seconds and a player
/// only uses 5 seconds, only 5 seconds are added back; if they use 20
/// seconds, 10 seconds are added.
#[derive(Clone, Copy, Debug)]
pub struct BronsteinConfig {
    /// The amount of time on the clock at the start of the game.
    pub initial: Duration,
    /// The maximum amount of time added to the clock at the end of a turn.
    pub max_increment: Duration,
}

impl BronsteinConfig {
    /// A Bronstein configuration with the given initial minutes and maximum
    /// increment seconds.
    pub fn new(initial_mins: u64, max_increment_secs: u64) -> (r: BronsteinConfig)
        requires
            initial_mins * 60 <= u64::MAX,
        ensures
            r.initial@ == initial_mins * 60 * NANOS_PER_SEC,
            r.max_increment@ == max_increment_secs * NANOS_PER_SEC,
    {
        BronsteinConfig {
            initial: Duration::from_mins(initial_mins),
            max_increment: Duration::from_secs(max_increment_secs),
        }
    }
}

/// The abstract state of a [`BronsteinClock`]; times are in nanoseconds.
pub struct BronsteinModel {
    pub config: BronsteinConfig,
    pub running: bool,
    pub main: nat,
    /// The time spent during the current turn.
    pub spent: nat,
}

impl BronsteinModel {
    /// A fresh clock for `config`: stopped, with the initial time.
    pub open spec fn initial(config: BronsteinConfig) -> BronsteinModel {
        BronsteinModel { config, running: false, main: config.initial@, spent: 0 }
    }

    pub open spec fn expired(self) -> bool {
        self.main == 0
    }

    /// How the clock shows: the main time with minutes.
    pub open spec fn display(self) -> Seq<char> {
        countdown_text(self.main, true)
    }

    pub open spec fn display_fits(self) -> bool {
        countdown_fits(self.main)
    }

    pub open spec fn start(self) -> BronsteinModel {
        BronsteinModel { running: true, ..self }
    }

    pub open spec fn spend(self, elapsed: nat) -> BronsteinModel {
        if self.running {
            BronsteinModel {
                main: sub_sat(self.main, elapsed),
                spent: self.spent + elapsed,
                ..self
            }
        } else {
            self
        }
    }

    /// What the end of the turn gives back: the time spent, up to the
    /// maximum increment.
    pub open spec fn refund(self) -> nat {
        min_nat(self.config.max_increment@, self.spent)
    }

    /// The invariant of every clock: time is counted as spent only during a
    /// turn.
    pub open spec fn wf(self) -> bool {
        !self.running ==> self.spent == 0
    }

    pub open spec fn end(self) -> BronsteinModel {
        if self.running {
            BronsteinModel {
                running: false,
                main: if self.main == 0 { 0 } else { self.main + self.refund() },
                spent: 0,
                ..self
            }
        } else {
            self
        }
    }
}

/// A Bronstein delay clock; see [`BronsteinConfig`].
#[derive(Clone, Copy, Debug)]
pub struct BronsteinClock {
    config: BronsteinConfig,
    running: bool,
    main: Duration,
    spent: Duration,
}

impl View for BronsteinClock {
    type V = BronsteinModel;

    closed spec fn view(&self) -> BronsteinModel {
        BronsteinModel {
            config: self.config,
            running: self.running,
            main: self.main@,
            spent: self.spent@,
        }
    }
}

impl BronsteinClock {
    #[verifier::type_invariant]
    pub open spec fn well_formed(self) -> bool {
        self@.wf()
    }

    /// A fresh clock for `config`, as a value of specifications.
    pub closed spec fn spec_new(config: BronsteinConfig) -> BronsteinClock {
        BronsteinClock { config, running: false, main: config.initial, spent: Duration::spec_zero() }
    }

    /// A fresh clock has the initial state.
    pub proof fn lemma_spec_new(config: BronsteinConfig)
        ensures
            BronsteinClock::spec_new(config)@ == BronsteinModel::initial(config),
    {
        Duration::lemma_spec_zero();
    }

    /// A new Bronstein clock with the given config.
    pub fn new(config: BronsteinConfig) -> (r: BronsteinClock)
        ensures
            r@ == BronsteinModel::initial(config),
            r == BronsteinClock::spec_new(config),
    {
        BronsteinClock { config, running: false, main: config.initial, spent: Duration::zero() }
    }

    /// The config this clock was created with.
    pub fn config(&self) -> (r: BronsteinConfig)
        ensures
            r == self@.config,
    {
        self.config
    }

    /// The time remaining on the clock.
    pub fn main_remaining(&self) -> (r: Duration)
        ensures
            r@ == self@.main,
    {
        self.main
    }

    /// Appends how the clock shows to `out`.
    pub fn write_to(&self, out: &mut String)
        requires
            self@.display_fits(),
        ensures
            final(out)@ == old(out)@ + self@.display(),
    {
        ShowCountdown::with_minutes(self.main).write_to(out);
    }

    /// How the clock shows, as a string.
    pub fn to_string(&self) -> (r: String)
        requires
            self@.display_fits(),
        ensures
            r@ == self@.display(),
    {
        let mut out = String::new();
        self.write_to(&mut out);
        assert(out@ =~= self@.display());
        out
    }
}

impl From<BronsteinConfig> for BronsteinClock {
    fn from(config: BronsteinConfig) -> (r: BronsteinClock)
        ensures
            r@ == BronsteinModel::initial(config),
    {
        BronsteinClock::new(config)
    }
}

impl vstd::std_specs::convert::FromSpecImpl<BronsteinConfig> for BronsteinClock {
    open spec fn obeys_from_spec() -> bool {
        true
    }

    open spec fn from_spec(config: BronsteinConfig) -> BronsteinClock {
        BronsteinClock::spec_new(config)
    }
}

impl TimeControl for BronsteinClock {
    type Model = BronsteinModel;

    open spec fn model(&self) -> BronsteinModel {
        self@
    }

    open spec fn model_expired(m: BronsteinModel) -> bool {
        m.expired()
    }

    open spec fn model_running(m: BronsteinModel) -> bool {
        m.running
    }

    open spec fn model_max_remaining(m: BronsteinModel) -> nat {
        m.main
    }

    open spec fn max_remaining_fits(m: BronsteinModel) -> bool {
        true
    }

    open spec fn model_reset(m: BronsteinModel) -> BronsteinModel {
        BronsteinModel::initial(m.config)
    }

    open spec fn model_start(m: BronsteinModel) -> BronsteinModel {
        m.start()
    }

    open spec fn model_spend(m: BronsteinModel, elapsed: nat) -> BronsteinModel {
        m.spend(elapsed)
    }

    /// The time spent in the turn is summed with overflow checks.
    open spec fn spend_fits(m: BronsteinModel, elapsed: nat) -> bool {
        m.running ==> m.spent + elapsed <= MAX_NANOS
    }

    open spec fn model_end(m: BronsteinModel) -> BronsteinModel {
        m.end()
    }

    /// Giving back the spent time must not overflow.
    open spec fn end_fits(m: BronsteinModel) -> bool {
        m.running && m.main != 0 ==> m.main + m.refund() <= MAX_NANOS
    }

    fn reset(&mut self) {
        *self = Self::new(self.config);
        assert(!Self::model_running(self.model()));
    }

    fn is_expired(&self) -> (r: bool) {
        self.main.is_zero()
    }

    fn max_remaining(&self) -> (r: Duration) {
        self.main
    }

    fn turn_start(&mut self) {
        proof {
            use_type_invariant(&*self);
        }
        self.running = true;
        assert(Self::model_running(self.model()));
    }

    fn turn_spend(&mut self, elapsed: Duration) -> (r: bool) {
        proof {
            use_type_invariant(&*self);
        }
        if self.running {
            self.spent = self.spent.plus(elapsed);
            self.main = self.main.saturating_sub(elapsed);
        }
        assert(Self::model_running(self.model()) == Self::model_running(old(self).model()));
        self.main.is_zero()
    }

    fn turn_end(&mut self) {
        proof {
            use_type_invariant(&*self);
        }
        if self.running {
            if !self.main.is_zero() {
                self.main = self.main.plus(self.config.max_increment.min(self.spent));
            }
            self.spent = Duration::zero();
            self.running = false;
        }
        assert(!Self::model_running(self.model()));
    }
}

/// During a turn, spending `max_remaining` (the main time) or more makes
/// the clock expire, and spending less does not.
pub proof fn lemma_bronstein_max_remaining(m: BronsteinModel, elapsed: nat)
    requires
        m.running,
    ensures
        m.spend(elapsed).expired() <==> elapsed >= m.main,
        BronsteinClock::model_expired(BronsteinClock::model_spend(m, elapsed)) <==> elapsed
            >= BronsteinClock::model_max_remaining(m),
        BronsteinClock::model_max_remaining(m) == m.main,
{
}

/// Starting a turn while one is in progress changes nothing.
pub proof fn lemma_bronstein_start_idempotent(m: BronsteinModel)
    requires
        m.running,
    ensures
        m.start() == m,
{
}

/// A whole turn that spends `elapsed` and does not expire the clock gives
/// back the time spent, up to the maximum increment: the clock never ends
/// a turn with more time than it started with.
pub proof fn lemma_bronstein_turn(m: BronsteinModel, elapsed: nat)
    requires
        m.wf(),
        !m.running,
        elapsed < m.main,
    ensures
        m.start().spend(elapsed).end().main == m.main - elapsed + min_nat(
            m.config.max_increment@,
            elapsed,
        ),
        m.start().spend(elapsed).end().main <= m.main,
        m.start().spend(elapsed).end().spent == 0,
        !m.start().spend(elapsed).end().running,
{
}

/// Every operation keeps the invariant, and a fresh clock has it: every
/// clock reachable from `new` satisfies it.
pub proof fn lemma_bronstein_wf_preserved(m: BronsteinModel, elapsed: nat, config: BronsteinConfig)
    requires
        m.wf(),
    ensures
        BronsteinModel::initial(config).wf(),
        m.start().wf(),
        m.spend(elapsed).wf(),
        m.end().wf(),
{
}

/// Spending `a` and then `b` is spending `a + b` at once: what counts is
/// the total time spent thinking.
pub proof fn lemma_bronstein_spend_additive(m: BronsteinModel, a: nat, b: nat)
    ensures
        m.spend(a).spend(b) == m.spend(a + b),
{
}

/// Spending during a turn takes exactly the time spent from the main time,
/// down to zero, and counts it as spent.
pub proof fn lemma_bronstein_spend(m: BronsteinModel, elapsed: nat)
    requires
        m.running,
    ensures
        BronsteinClock::model_spend(m, elapsed).main == (if elapsed <= m.main {
            m.main - elapsed
        } else {
            0
        }),
        BronsteinClock::model_spend(m, elapsed).spent == m.spent + elapsed,
        BronsteinClock::model_running(BronsteinClock::model_spend(m, elapsed)),
        BronsteinClock::model_start(m).main == m.main,
        BronsteinClock::model_start(m).spent == m.spent,
        BronsteinClock::model_running(BronsteinClock::model_start(m)),
{
}

/// Ending a turn on a clock that has not expired gives back the time spent
/// in the turn, up to the maximum increment; an expired clock gets nothing.
pub proof fn lemma_bronstein_end(m: BronsteinModel)
    requires
        m.running,
    ensures
        !BronsteinClock::model_running(BronsteinClock::model_end(m)),
        BronsteinClock::model_end(m).spent == 0,
        m.main == 0 ==> BronsteinClock::model_end(m).main == 0,
        m.main != 0 ==> BronsteinClock::model_end(m).main == m.main + (if m.spent
            <= m.config.max_increment@ {
            m.spent
        } else {
            m.config.max_increment@
        }),
{
}

/// Resetting gives back the initial time, stopped, with nothing spent.
pub proof fn lemma_bronstein_reset(m: BronsteinModel)
    ensures
        BronsteinClock::model_reset(m).main == m.config.initial@,
        BronsteinClock::model_reset(m).spent == 0,
        !BronsteinClock::model_reset(m).running,
        BronsteinClock::model_reset(m).config == m.config,
{
}

/// The clock shows its main time, with minutes.
pub proof fn lemma_bronstein_display(m: BronsteinModel)
    ensures
        m.display() == countdown_text(m.main, true),
{
}

} // verus!
