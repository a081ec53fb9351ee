use vstd::prelude::*;

use crate::control::TimeControl;
use crate::countdown::{countdown_fits, countdown_text, push_char, ShowCountdown};
use crate::duration::{min_nat, sub_sat, Duration, MAX_NANOS, NANOS_PER_SEC};

verus! {

/// Configuration for a simple delay clock.
///
/// A fixed delay is granted at the start of each turn before the clock
/// starts counting down.
#[derive(Clone, Copy, Debug)]
pub struct SimpleDelayConfig {
    /// The amount of time on the clock at the start of the game.
    pub initial: Duration,
    /// The amount of time to wait before counting down.
    pub delay: Duration,
}

impl SimpleDelayConfig {
    /// A simple delay configuration with the given initial minutes and delay
    /// seconds.
    pub fn new(initial_mins: u64, delay_secs: u64) -> (r: SimpleDelayConfig)
        requires
            initial_mins * 60 <= u64::MAX,
        ensures
            r.initial@ == initial_mins * 60 * NANOS_PER_SEC,
            r.delay@ == delay_secs * NANOS_PER_SEC,
    {
        SimpleDelayConfig {
            initial: Duration::from_mins(initial_mins),
            delay: Duration::from_secs(delay_secs),
        }
    }
}

/// The abstract state of a [`SimpleDelayClock`]; times are in nanoseconds.
pub struct SimpleDelayModel {
    pub config: SimpleDelayConfig,
    pub running: bool,
    /// What is left of this turn's delay.
    pub delay: nat,
    /// What is left of the main time.
    pub main: nat,
}

impl SimpleDelayModel {
    /// A fresh clock for `config`: stopped, no delay, full main time.
    pub open spec fn initial(config: SimpleDelayConfig) -> SimpleDelayModel {
        SimpleDelayModel { config, running: false, delay: 0, main: config.initial@ }
    }

    pub open spec fn expired(self) -> bool {
        self.main == 0
    }

    pub open spec fn max_remaining(self) -> nat {
        self.main + self.delay
    }

    /// Starting a turn grants the configured delay, unless the clock has
    /// expired; during a turn it changes nothing.
    pub open spec fn start(self) -> SimpleDelayModel {
        if self.running {
            self
        } else {
            SimpleDelayModel {
                running: true,
                delay: if self.main == 0 { 0 } else { self.config.delay@ },
                ..self
            }
        }
    }

    /// Time is taken from the delay first, and the rest from the main time.
    pub open spec fn spend(self, elapsed: nat) -> SimpleDelayModel {
        if !self.running {
            self
        } else {
            let delay_use = min_nat(self.delay, elapsed);
            SimpleDelayModel {
                delay: (self.delay - delay_use) as nat,
                main: sub_sat(self.main, (elapsed - delay_use) as nat),
                ..self
            }
        }
    }

    /// How the clock shows: the main time with minutes, followed by the
    /// delay left in parentheses while there is some.
    pub open spec fn display(self) -> Seq<char> {
        countdown_text(self.main, true) + if self.delay != 0 {
            seq![' ', '('] + countdown_text(self.delay, false) + seq![')']
        } else {
            Seq::<char>::empty()
        }
    }

    pub open spec fn display_fits(self) -> bool {
        countdown_fits(self.main) && (self.delay != 0 ==> countdown_fits(self.delay))
    }

    /// The invariant of every clock: a delay is left only during a turn on a
    /// clock that has not expired.
    pub open spec fn wf(self) -> bool {
        self.delay > 0 ==> self.running && self.main > 0
    }

    /// Ending a turn drops what is left of the delay.
    pub open spec fn end(self) -> SimpleDelayModel {
        if self.running {
            SimpleDelayModel { running: false, delay: 0, ..self }
        } else {
            self
        }
    }
}

/// A simple delay clock; see [`SimpleDelayConfig`].
#[derive(Clone, Copy, Debug)]
pub struct SimpleDelayClock {
    config: SimpleDelayConfig,
    running: bool,
    delay: Duration,
    main: Duration,
}

impl View for SimpleDelayClock {
    type V = SimpleDelayModel;

    closed spec fn view(&self) -> SimpleDelayModel {
        SimpleDelayModel {
            config: self.config,
            running: self.running,
            delay: self.delay@,
            main: self.main@,
        }
    }
}

impl SimpleDelayClock {
    #[verifier::type_invariant]
    pub open spec fn well_formed(self) -> bool {
        self@.wf()
    }

    /// A fresh clock for `config`, as a value of specifications.
    pub closed spec fn spec_new(config: SimpleDelayConfig) -> SimpleDelayClock {
        SimpleDelayClock { config, running: false, delay: Duration::spec_zero(), main: config.initial }
    }

    /// A fresh clock has the initial state.
    pub proof fn lemma_spec_new(config: SimpleDelayConfig)
        ensures
            SimpleDelayClock::spec_new(config)@ == SimpleDelayModel::initial(config),
    {
        Duration::lemma_spec_zero();
    }

    /// A new simple delay clock with the given config.
    pub fn new(config: SimpleDelayConfig) -> (r: SimpleDelayClock)
        ensures
            r@ == SimpleDelayModel::initial(config),
            r == SimpleDelayClock::spec_new(config),
    {
        SimpleDelayClock { config, running: false, delay: Duration::zero(), main: config.initial }
    }

    /// The config this clock was created with.
    pub fn config(&self) -> (r: SimpleDelayConfig)
        ensures
            r == self@.config,
    {
        self.config
    }

    /// The time remaining on the clock, not counting the delay.
    pub fn main_remaining(&self) -> (r: Duration)
        ensures
            r@ == self@.main,
    {
        self.main
    }

    /// What is left of the delay period.
    pub fn delay_remaining(&self) -> (r: Duration)
        ensures
            r@ == self@.delay,
    {
        self.delay
    }

    /// Appends how the clock shows to `out`.
    pub fn write_to(&self, out: &mut String)
        requires
            self@.display_fits(),
        ensures
            final(out)@ == old(out)@ + self@.display(),
    {
        ShowCountdown::with_minutes(self.main).write_to(out);
        if !self.delay.is_zero() {
            push_char(out, ' ');
            push_char(out, '(');
            ShowCountdown::without_minutes(self.delay).write_to(out);
            push_char(out, ')');
        }
        assert(out@ =~= old(out)@ + self@.display());
    }

    /// How the clock shows, as a string.
    pub fn to_string(&self) -> (r: String)
        requires
            self@.display_fits(),
        ensures
            r@ == self@.display(),
    {
        let mut out = String::new();
        self.write_to(&mut out);
        assert(out@ =~= self@.display());
        out
    }
}

impl From<SimpleDelayConfig> for SimpleDelayClock {
    fn from(config: SimpleDelayConfig) -> (r: SimpleDelayClock)
        ensures
            r@ == SimpleDelayModel::initial(config),
    {
        SimpleDelayClock::new(config)
    }
}

impl vstd::std_specs::convert::FromSpecImpl<SimpleDelayConfig> for SimpleDelayClock {
    open spec fn obeys_from_spec() -> bool {
        true
    }

    open spec fn from_spec(config: SimpleDelayConfig) -> SimpleDelayClock {
        SimpleDelayClock::spec_new(config)
    }
}

impl TimeControl for SimpleDelayClock {
    type Model = SimpleDelayModel;

    open spec fn model(&self) -> SimpleDelayModel {
        self@
    }

    open spec fn model_expired(m: SimpleDelayModel) -> bool {
        m.expired()
    }

    open spec fn model_running(m: SimpleDelayModel) -> bool {
        m.running
    }

    open spec fn model_max_remaining(m: SimpleDelayModel) -> nat {
        m.max_remaining()
    }

    open spec fn max_remaining_fits(m: SimpleDelayModel) -> bool {
        m.main + m.delay <= MAX_NANOS
    }

    open spec fn model_reset(m: SimpleDelayModel) -> SimpleDelayModel {
        SimpleDelayModel::initial(m.config)
    }

    open spec fn model_start(m: SimpleDelayModel) -> SimpleDelayModel {
        m.start()
    }

    open spec fn model_spend(m: SimpleDelayModel, elapsed: nat) -> SimpleDelayModel {
        m.spend(elapsed)
    }

    open spec fn spend_fits(m: SimpleDelayModel, elapsed: nat) -> bool {
        true
    }

    open spec fn model_end(m: SimpleDelayModel) -> SimpleDelayModel {
        m.end()
    }

    open spec fn end_fits(m: SimpleDelayModel) -> bool {
        true
    }

    fn reset(&mut self) {
        *self = Self::new(self.config);
    }

    fn is_expired(&self) -> (r: bool) {
        self.main.is_zero()
    }

    fn max_remaining(&self) -> (r: Duration) {
        self.main.plus(self.delay)
    }

    fn turn_start(&mut self) {
        proof {
            use_type_invariant(&*self);
        }
        if !self.running {
            self.running = true;
            self.delay = if self.is_expired() {
                Duration::zero()
            } else {
                self.config.delay
            };
        }
        assert(Self::model_running(self.model()));
    }

    fn turn_spend(&mut self, elapsed: Duration) -> (r: bool) {
        proof {
            use_type_invariant(&*self);
        }
        if !self.running {
            assert(self.model() == old(self).model());
            return self.main.is_zero();
        }
        let delay_use = self.delay.min(elapsed);
        let main_use = elapsed.minus(delay_use);

        self.delay = self.delay.saturating_sub(delay_use);
        self.main = self.main.saturating_sub(main_use);
        assert(self.model().running);
        self.main.is_zero()
    }

    fn turn_end(&mut self) {
        proof {
            use_type_invariant(&*self);
        }
        if self.running {
            self.delay = Duration::zero();
            self.running = false;
        }
        assert(!Self::model_running(self.model()));
    }
}

/// While a turn is in progress, spending `max_remaining` or more makes the
/// clock expire, and spending less does not.
pub proof fn lemma_simple_delay_max_remaining(m: SimpleDelayModel, elapsed: nat)
    requires
        m.wf(),
        m.running,
    ensures
        m.spend(elapsed).expired() <==> elapsed >= m.max_remaining(),
        SimpleDelayClock::model_expired(SimpleDelayClock::model_spend(m, elapsed)) <==> elapsed
            >= SimpleDelayClock::model_max_remaining(m),
        SimpleDelayClock::model_max_remaining(m) == m.main + m.delay,
{
}

/// Starting a turn while one is in progress changes nothing.
pub proof fn lemma_simple_delay_start_idempotent(m: SimpleDelayModel)
    requires
        m.running,
    ensures
        m.start() == m,
{
}

/// Every operation keeps the invariant, and a fresh clock has it: every
/// clock reachable from `new` satisfies it.
pub proof fn lemma_simple_delay_wf_preserved(
    m: SimpleDelayModel,
    elapsed: nat,
    config: SimpleDelayConfig,
)
    requires
        m.wf(),
    ensures
        SimpleDelayModel::initial(config).wf(),
        m.start().wf(),
        m.spend(elapsed).wf(),
        m.end().wf(),
{
}

/// Spending `a` and then `b` is spending `a + b` at once: what counts is
/// the total time spent thinking.
pub proof fn lemma_simple_delay_spend_additive(m: SimpleDelayModel, a: nat, b: nat)
    ensures
        m.spend(a).spend(b) == m.spend(a + b),
{
}

/// Starting a turn on a stopped clock keeps the main time and grants the
/// full configured delay, or none if the clock has expired.
pub proof fn lemma_simple_delay_start(m: SimpleDelayModel)
    requires
        !m.running,
    ensures
        SimpleDelayClock::model_running(SimpleDelayClock::model_start(m)),
        SimpleDelayClock::model_start(m).main == m.main,
        m.main != 0 ==> SimpleDelayClock::model_start(m).delay == m.config.delay@,
        m.main == 0 ==> SimpleDelayClock::model_start(m).delay == 0,
        SimpleDelayClock::model_start(m).config == m.config,
{
}

/// Spending during a turn takes from the delay first, and only the rest
/// from the main time: the delay and main time together drop by exactly
/// the time spent, down to zero.
pub proof fn lemma_simple_delay_spend(m: SimpleDelayModel, elapsed: nat)
    requires
        m.running,
    ensures
        SimpleDelayClock::model_spend(m, elapsed).delay == (if elapsed <= m.delay {
            m.delay - elapsed
        } else {
            0
        }),
        SimpleDelayClock::model_spend(m, elapsed).main == (if elapsed <= m.delay {
            m.main as int
        } else if elapsed <= m.delay + m.main {
            m.main + m.delay - elapsed
        } else {
            0
        }),
        SimpleDelayClock::model_spend(m, elapsed).running,
{
}

/// Ending a turn keeps the main time and drops what is left of the delay.
pub proof fn lemma_simple_delay_end(m: SimpleDelayModel)
    requires
        m.running,
    ensures
        !SimpleDelayClock::model_running(SimpleDelayClock::model_end(m)),
        SimpleDelayClock::model_end(m).main == m.main,
        SimpleDelayClock::model_end(m).delay == 0,
{
}

/// Resetting gives back the initial time, stopped, with no delay.
pub proof fn lemma_simple_delay_reset(m: SimpleDelayModel)
    ensures
        SimpleDelayClock::model_reset(m).main == m.config.initial@,
        SimpleDelayClock::model_reset(m).delay == 0,
        !SimpleDelayClock::model_reset(m).running,
        SimpleDelayClock::model_reset(m).config == m.config,
{
}

/// The clock shows its main time with minutes and, while a delay is left,
/// the delay without minutes in parentheses after it.
pub proof fn lemma_simple_delay_display(m: SimpleDelayModel)
    ensures
        m.delay == 0 ==> m.display() == countdown_text(m.main, true),
        m.delay != 0 ==> m.display() == countdown_text(m.main, true) + seq![' ', '(']
            + countdown_text(m.delay, false) + seq![')'],
{
    assert(countdown_text(m.main, true) + Seq::<char>::empty() =~= countdown_text(m.main, true));
}

} // verus!
