use vstd::prelude::*;

use crate::control::TimeControl;
use crate::countdown::{
    countdown_fits, countdown_text, decimal, digits_value, lemma_decimal_reads_back, push_char,
    push_decimal, ShowCountdown,
};
use crate::duration::{min_nat, sub_sat, Duration, MAX_NANOS, NANOS_PER_SEC};

verus! {

/// Configuration for a byo-yomi clock.
///
/// A game with byo-yomi time controls has an initial period, which simply
/// counts down, then one or more byo-yomi periods which are only spent if
/// the period time is fully used. The clock expires when all byo-yomi
/// periods are spent. Periods with no time hold nothing: they are all used
/// up as soon as the main time runs out.
///
/// With a 10:00 initial period and three :30 byo-yomi periods, the time left
/// after spending various amounts of time per turn within one game is:
///
/// | Elapsed | At end of turn |   After turn |
/// | ------: | -------------: | -----------: |
/// |         |                | 10:00 +3x30s |
/// |    2:00 |    8:00 +3x30s |  8:00 +3x30s |
/// |    7:00 |    1:00 +3x30s |  1:00 +3x30s |
/// |    1:20 |     10s +2x30s |        3x30s |
/// |    0:20 |     10s +2x30s |        3x30s |
/// |    1:20 |     10s +0x30s |        1x30s |
/// |    0:40 |       Expired! |     Expired! |
#[derive(Clone, Copy, Debug)]
pub struct ByoYomiConfig {
    /// The amount of time on the clock at the start of the game.
    pub initial: Duration,
    /// The duration of each byo-yomi period.
    pub period_time: Duration,
    /// The number of byo-yomi periods that can be spent before the clock
    /// expires.
    pub num_periods: usize,
}

impl ByoYomiConfig {
    /// A byo-yomi configuration with the given initial minutes, period count
    /// and period seconds.
    pub fn new(initial_mins: u64, num_periods: usize, period_secs: u64) -> (r: ByoYomiConfig)
        requires
            initial_mins * 60 <= u64::MAX,
        ensures
            r.initial@ == initial_mins * 60 * NANOS_PER_SEC,
            r.period_time@ == period_secs * NANOS_PER_SEC,
            r.num_periods == num_periods,
    {
        ByoYomiConfig {
            initial: Duration::from_mins(initial_mins),
            period_time: Duration::from_secs(period_secs),
            num_periods,
        }
    }
}

/// The abstract state of a [`ByoYomiClock`]; times are in nanoseconds.
///
/// `period` is only nonzero during a turn spent in byo-yomi; when the turn
/// ends the period is given back to `unused`. Between turns, `main` and
/// `period` are both zero for a player in byo-yomi.
pub struct ByoYomiModel {
    pub config: ByoYomiConfig,
    pub running: bool,
    pub main: nat,
    /// What is left of the byo-yomi period being counted down.
    pub period: nat,
    /// Byo-yomi periods not yet started.
    pub unused: nat,
}

impl ByoYomiModel {
    /// A fresh clock for `config`: stopped, with the initial time and all
    /// periods.
    pub open spec fn initial(config: ByoYomiConfig) -> ByoYomiModel {
        ByoYomiModel {
            config,
            running: false,
            main: config.initial@,
            period: 0,
            unused: config.num_periods as nat,
        }
    }

    /// The invariant of every clock: a period counts down only during a turn
    /// in byo-yomi and never holds more than the period time, the periods
    /// never outnumber the configured ones, and during a turn in byo-yomi a
    /// period is counting down unless none is left.
    pub open spec fn wf(self) -> bool {
        &&& self.unused + (if self.period != 0 { 1int } else { 0int })
            <= self.config.num_periods
        &&& self.period != 0 ==> self.running && self.main == 0
        &&& self.period <= self.config.period_time@
        &&& (self.running && self.main == 0 && self.period == 0) ==> self.unused == 0
    }

    pub open spec fn in_byo_yomi(self) -> bool {
        self.main == 0
    }

    pub open spec fn expired(self) -> bool {
        self.main == 0 && self.period == 0 && self.unused == 0
    }

    /// The time of the periods left, the current one included.
    pub open spec fn all_periods(self) -> nat {
        self.period + self.config.period_time@ * self.unused
    }

    pub open spec fn max_remaining(self) -> nat {
        self.main + self.all_periods()
    }

    pub open spec fn max_fits(self) -> bool {
        self.max_remaining() <= MAX_NANOS
    }

    pub open spec fn periods_remaining(self) -> nat {
        self.unused + (if self.period != 0 { 1nat } else { 0nat })
    }

    /// Whether the display shows `----`: in byo-yomi, between turns, with a
    /// period left.
    pub open spec fn shows_dashes(self) -> bool {
        self.main == 0 && self.period == 0 && self.unused > 0
    }

    /// How the clock shows: the main time with minutes, or in byo-yomi the
    /// current period (`----` when none is counting down but some are left),
    /// followed by ` +` the unused periods `x` the period time.
    pub open spec fn display(self) -> Seq<char> {
        let head = if self.main != 0 {
            countdown_text(self.main, true)
        } else if self.shows_dashes() {
            seq!['-', '-', '-', '-']
        } else {
            countdown_text(self.period, false)
        };
        head + seq![' ', '+'] + decimal(self.unused) + seq!['x'] + countdown_text(
            self.config.period_time@,
            false,
        )
    }

    pub open spec fn display_fits(self) -> bool {
        &&& self.main != 0 ==> countdown_fits(self.main)
        &&& self.main == 0 && !self.shows_dashes() ==> countdown_fits(self.period)
        &&& countdown_fits(self.config.period_time@)
    }

    /// Takes a new period when in byo-yomi with none counting down. Periods
    /// of no time are used up at once, all of them.
    pub open spec fn take_period(self) -> ByoYomiModel {
        if self.main == 0 && self.period == 0 && self.unused > 0 {
            if self.config.period_time@ == 0 {
                ByoYomiModel { unused: 0, ..self }
            } else {
                ByoYomiModel {
                    period: self.config.period_time@,
                    unused: (self.unused - 1) as nat,
                    ..self
                }
            }
        } else {
            self
        }
    }

    pub open spec fn start(self) -> ByoYomiModel {
        ByoYomiModel { running: true, ..self }.take_period()
    }

    /// One round of spending on periods: take what the current period
    /// holds, and take a new period when it runs out.
    pub open spec fn drain_step(self, elapsed: nat) -> (ByoYomiModel, nat) {
        let used = min_nat(elapsed, self.period);
        let after = ByoYomiModel { period: (self.period - used) as nat, ..self };
        (after.take_period(), (elapsed - used) as nat)
    }

    /// Whether a round of spending on periods happens: time is left to
    /// spend, the main time is used up, and the clock has time left.
    pub open spec fn drain_goes_on(self, elapsed: nat) -> bool {
        elapsed > 0 && self.main == 0 && self.max_remaining() > 0
    }

    /// Spending `elapsed` on the byo-yomi periods, one period at a time.
    pub open spec fn drain(self, elapsed: nat) -> ByoYomiModel
        decreases elapsed, self.unused,
    {
        if self.drain_goes_on(elapsed) {
            let (next, rest) = self.drain_step(elapsed);
            proof {
                lemma_drain_step_decreases(self, elapsed);
            }
            next.drain(rest)
        } else {
            self
        }
    }

    /// Whether every check of the time left while draining stays within
    /// the range of a `Duration`.
    pub open spec fn drain_fits(self, elapsed: nat) -> bool
        decreases elapsed, self.unused,
    {
        elapsed == 0 || (self.max_fits() && (self.drain_goes_on(elapsed) ==> {
            let (next, rest) = self.drain_step(elapsed);
            proof {
                lemma_drain_step_decreases(self, elapsed);
            }
            next.drain_fits(rest)
        }))
    }

    /// The state once the main time has taken its share of `elapsed`, and
    /// the rest of `elapsed`.
    pub open spec fn spend_main(self, elapsed: nat) -> (ByoYomiModel, nat) {
        let used = min_nat(elapsed, self.main);
        (
            ByoYomiModel { main: (self.main - used) as nat, ..self }.take_period(),
            (elapsed - used) as nat,
        )
    }

    /// Time is taken from the main time first, then from the periods.
    pub open spec fn spend(self, elapsed: nat) -> ByoYomiModel {
        if self.running {
            let (after, rest) = self.spend_main(elapsed);
            after.drain(rest)
        } else {
            self
        }
    }

    pub open spec fn spend_fits(self, elapsed: nat) -> bool {
        self.running ==> {
            let (after, rest) = self.spend_main(elapsed);
            after.drain_fits(rest)
        }
    }

    /// Ending a turn gives an unfinished period back.
    pub open spec fn end(self) -> ByoYomiModel {
        if self.running {
            if self.main == 0 && self.period != 0 {
                ByoYomiModel { running: false, period: 0, unused: self.unused + 1, ..self }
            } else {
                ByoYomiModel { running: false, ..self }
            }
        } else {
            self
        }
    }
}

/// A round of draining lowers the time left to spend, or else the count of
/// unused periods.
pub proof fn lemma_drain_step_decreases(m: ByoYomiModel, elapsed: nat)
    requires
        m.drain_goes_on(elapsed),
    ensures
        ({
            let (next, rest) = m.drain_step(elapsed);
            rest < elapsed || (rest == elapsed && next.unused < m.unused)
        }),
{
    if m.period == 0 {
        if m.unused == 0 {
            assert(m.config.period_time@ * 0 == 0) by (nonlinear_arith);
        }
    }
}

/// A byo-yomi clock; see [`ByoYomiConfig`].
#[derive(Clone, Copy, Debug)]
pub struct ByoYomiClock {
    config: ByoYomiConfig,
    running: bool,
    main: Duration,
    period: Duration,
    unused_periods: usize,
}

impl View for ByoYomiClock {
    type V = ByoYomiModel;

    closed spec fn view(&self) -> ByoYomiModel {
        ByoYomiModel {
            config: self.config,
            running: self.running,
            main: self.main@,
            period: self.period@,
            unused: self.unused_periods as nat,
        }
    }
}

impl ByoYomiClock {
    #[verifier::type_invariant]
    pub open spec fn well_formed(self) -> bool {
        self@.wf()
    }

    /// A fresh clock for `config`, as a value of specifications.
    pub closed spec fn spec_new(config: ByoYomiConfig) -> ByoYomiClock {
        ByoYomiClock {
            config,
            running: false,
            main: config.initial,
            period: Duration::spec_zero(),
            unused_periods: config.num_periods,
        }
    }

    /// A fresh clock has the initial state.
    pub proof fn lemma_spec_new(config: ByoYomiConfig)
        ensures
            ByoYomiClock::spec_new(config)@ == ByoYomiModel::initial(config),
    {
        Duration::lemma_spec_zero();
    }

    /// A new byo-yomi clock with the given config.
    pub fn new(config: ByoYomiConfig) -> (r: ByoYomiClock)
        ensures
            r@ == ByoYomiModel::initial(config),
            r == ByoYomiClock::spec_new(config),
    {
        ByoYomiClock {
            config,
            running: false,
            main: config.initial,
            period: Duration::zero(),
            unused_periods: config.num_periods,
        }
    }

    /// The config this clock was created with.
    pub fn config(&self) -> (r: ByoYomiConfig)
        ensures
            r == self@.config,
    {
        self.config
    }

    /// The time remaining on the main countdown; zero while counting down
    /// byo-yomi periods.
    pub fn main_remaining(&self) -> (r: Duration)
        ensures
            r@ == self@.main,
    {
        self.main
    }

    /// The number of byo-yomi periods remaining on the clock, including the
    /// period counting down, if any.
    pub fn periods_remaining(&self) -> (r: usize)
        ensures
            r == self@.periods_remaining(),
    {
        proof {
            use_type_invariant(self);
        }
        if self.period.is_zero() {
            self.unused_periods
        } else {
            self.unused_periods + 1
        }
    }

    /// The number of byo-yomi periods not yet started.
    pub fn unused_periods(&self) -> (r: usize)
        ensures
            r == self@.unused,
    {
        self.unused_periods
    }

    /// What is left of the current period; zero during byo-yomi between
    /// `turn_end` and `turn_start`.
    pub fn this_period_remaining(&self) -> (r: Duration)
        ensures
            r@ == self@.period,
    {
        self.period
    }

    /// The time left in all byo-yomi periods. This plus `main_remaining` is
    /// the total that can be spent on the current turn before the clock
    /// expires.
    pub fn all_periods_remaining(&self) -> (r: Duration)
        requires
            self@.all_periods() <= MAX_NANOS,
        ensures
            r@ == self@.all_periods(),
            self@.main + r@ == self@.max_remaining(),
    {
        self.period.plus(self.config.period_time.times(self.unused_periods as u64))
    }

    /// The longest time that can still be spent this turn.
    fn total_remaining(&self) -> (r: Duration)
        requires
            self@.max_fits(),
        ensures
            r@ == self@.max_remaining(),
    {
        self.main.plus(self.period).plus(
            self.config.period_time.times(self.unused_periods as u64),
        )
    }

    /// Whether the clock has run out of main time and periods.
    fn out_of_time(&self) -> (r: bool)
        ensures
            r == self@.expired(),
    {
        self.in_byo_yomi() && self.period.is_zero() && self.unused_periods == 0
    }

    /// Appends how the clock shows to `out`.
    pub fn write_to(&self, out: &mut String)
        requires
            self@.display_fits(),
        ensures
            final(out)@ == old(out)@ + self@.display(),
    {
        if self.in_byo_yomi() {
            if self.period.is_zero() && self.unused_periods > 0 {
                push_char(out, '-');
                push_char(out, '-');
                push_char(out, '-');
                push_char(out, '-');
            } else {
                ShowCountdown::without_minutes(self.period).write_to(out);
            }
        } else {
            ShowCountdown::with_minutes(self.main).write_to(out);
        }
        push_char(out, ' ');
        push_char(out, '+');
        push_decimal(out, self.unused_periods as u64);
        push_char(out, 'x');
        ShowCountdown::without_minutes(self.config.period_time).write_to(out);
        assert(out@ =~= old(out)@ + self@.display());
    }

    /// How the clock shows, as a string.
    pub fn to_string(&self) -> (r: String)
        requires
            self@.display_fits(),
        ensures
            r@ == self@.display(),
    {
        let mut out = String::new();
        self.write_to(&mut out);
        assert(out@ =~= self@.display());
        out
    }

    /// Whether this clock is counting down byo-yomi periods.
    pub fn in_byo_yomi(&self) -> (r: bool)
        ensures
            r == self@.in_byo_yomi(),
    {
        self.main.is_zero()
    }
}

impl From<ByoYomiConfig> for ByoYomiClock {
    fn from(config: ByoYomiConfig) -> (r: ByoYomiClock)
        ensures
            r@ == ByoYomiModel::initial(config),
    {
        ByoYomiClock::new(config)
    }
}

impl vstd::std_specs::convert::FromSpecImpl<ByoYomiConfig> for ByoYomiClock {
    open spec fn obeys_from_spec() -> bool {
        true
    }

    open spec fn from_spec(config: ByoYomiConfig) -> ByoYomiClock {
        ByoYomiClock::spec_new(config)
    }
}

impl TimeControl for ByoYomiClock {
    type Model = ByoYomiModel;

    open spec fn model(&self) -> ByoYomiModel {
        self@
    }

    open spec fn model_expired(m: ByoYomiModel) -> bool {
        m.expired()
    }

    open spec fn model_running(m: ByoYomiModel) -> bool {
        m.running
    }

    open spec fn model_max_remaining(m: ByoYomiModel) -> nat {
        m.max_remaining()
    }

    open spec fn max_remaining_fits(m: ByoYomiModel) -> bool {
        m.max_fits()
    }

    open spec fn model_reset(m: ByoYomiModel) -> ByoYomiModel {
        ByoYomiModel::initial(m.config)
    }

    open spec fn model_start(m: ByoYomiModel) -> ByoYomiModel {
        m.start()
    }

    open spec fn model_spend(m: ByoYomiModel, elapsed: nat) -> ByoYomiModel {
        m.spend(elapsed)
    }

    open spec fn spend_fits(m: ByoYomiModel, elapsed: nat) -> bool {
        m.spend_fits(elapsed)
    }

    open spec fn model_end(m: ByoYomiModel) -> ByoYomiModel {
        m.end()
    }

    open spec fn end_fits(m: ByoYomiModel) -> bool {
        true
    }

    fn reset(&mut self) {
        *self = Self::new(self.config);
        assert(!Self::model_running(self.model()));
    }

    fn is_expired(&self) -> (r: bool) {
        self.out_of_time()
    }

    fn max_remaining(&self) -> (r: Duration) {
        proof {
            assert(Self::max_remaining_fits(self.model()));
        }
        let r = self.total_remaining();
        assert(r@ == Self::model_max_remaining(self.model()));
        r
    }

    fn turn_start(&mut self) {
        proof {
            use_type_invariant(&*self);
        }
        let take = self.in_byo_yomi() && self.period.is_zero() && self.unused_periods > 0;
        let no_time = self.config.period_time.is_zero();
        let period = if take && !no_time {
            self.config.period_time
        } else {
            self.period
        };
        let unused_periods = if !take {
            self.unused_periods
        } else if no_time {
            0
        } else {
            self.unused_periods - 1
        };
        *self = ByoYomiClock {
            config: self.config,
            running: true,
            main: self.main,
            period,
            unused_periods,
        };
        assert(Self::model_running(self.model()));
    }

    fn turn_spend(&mut self, elapsed: Duration) -> (r: bool) {
        proof {
            use_type_invariant(&*self);
        }
        if !self.running {
            assert(self.model() == old(self).model());
            return self.out_of_time();
        }
        let ghost start = self@;
        let ghost total = elapsed@;

        // spend main time; this is a no-op if the main time is zero
        let spend_main = elapsed.min(self.main);
        let mut elapsed = elapsed.minus(spend_main);
        let main = self.main.minus(spend_main);

        // start a byo-yomi period if necessary
        let take = main.is_zero() && self.period.is_zero() && self.unused_periods > 0;
        let no_time = self.config.period_time.is_zero();
        let period = if take && !no_time {
            self.config.period_time
        } else {
            self.period
        };
        let unused_periods = if !take {
            self.unused_periods
        } else if no_time {
            0
        } else {
            self.unused_periods - 1
        };
        *self = ByoYomiClock { config: self.config, running: true, main, period, unused_periods };
        assert((self@, elapsed@) == start.spend_main(total));
        assert(elapsed@ > 0 ==> self@.max_fits());

        // any remaining time in `elapsed` is spent on byo-yomi periods
        while !elapsed.is_zero() && !self.total_remaining().is_zero()
            invariant
                self@.drain(elapsed@) == start.spend(total),
                self@.drain_fits(elapsed@),
                self.running,
                self.config == start.config,
                elapsed@ > 0 ==> self@.main == 0,
                elapsed@ > 0 ==> self@.max_fits(),
            decreases elapsed@, self.unused_periods,
        {
            proof {
                use_type_invariant(&*self);
            }
            let ghost before = self@;
            let ghost before_elapsed = elapsed@;
            assert(before.drain_goes_on(before_elapsed));
            let spend_period = elapsed.min(self.period);
            let period = self.period.minus(spend_period);
            elapsed = elapsed.minus(spend_period);

            // if this period is spent, start the next one if available
            let take = period.is_zero() && self.unused_periods > 0;
            let no_time = self.config.period_time.is_zero();
            let period = if take && !no_time {
                self.config.period_time
            } else {
                period
            };
            let unused_periods = if !take {
                self.unused_periods
            } else if no_time {
                0
            } else {
                self.unused_periods - 1
            };
            *self = ByoYomiClock {
                config: self.config,
                running: true,
                main: self.main,
                period,
                unused_periods,
            };
            assert((self@, elapsed@) == before.drain_step(before_elapsed));
            assert(self@.drain_fits(elapsed@));
            assert(elapsed@ > 0 ==> self@.max_fits());
        }
        assert(!self@.drain_goes_on(elapsed@));
        assert(self@ == start.spend(total));
        assert(Self::model_running(self.model()) == Self::model_running(old(self).model()));
        proof {
            if start.expired() {
                assert(start.config.period_time@ * 0 == 0);
                assert(start.spend(total) == start);
            }
        }
        self.out_of_time()
    }

    fn turn_end(&mut self) {
        proof {
            use_type_invariant(&*self);
        }
        if self.running {
            if self.in_byo_yomi() && !self.period.is_zero() {
                // give back the unspent byo-yomi period
                *self = ByoYomiClock {
                    config: self.config,
                    running: false,
                    main: self.main,
                    period: Duration::zero(),
                    unused_periods: self.unused_periods + 1,
                };
            } else {
                *self = ByoYomiClock {
                    config: self.config,
                    running: false,
                    main: self.main,
                    period: self.period,
                    unused_periods: self.unused_periods,
                };
            }
        }
        assert(!Self::model_running(self.model()));
    }
}

/// Taking one more period keeps the total time of the periods.
proof fn lemma_one_more_period(period_time: nat, unused: nat)
    requires
        unused > 0,
    ensures
        period_time + period_time * ((unused - 1) as nat) == period_time * unused,
{
    assert(period_time + period_time * ((unused - 1) as nat) == period_time * unused)
        by (nonlinear_arith)
        requires
            unused > 0,
    ;
}

/// With positive period time, the periods hold no time exactly when none is
/// left.
proof fn lemma_no_period_time(period_time: nat, unused: nat)
    requires
        period_time > 0,
    ensures
        (period_time * unused == 0) <==> (unused == 0),
{
    assert((period_time * unused == 0) <==> (unused == 0)) by (nonlinear_arith)
        requires
            period_time > 0,
    ;
}

/// Draining never touches the main time.
proof fn lemma_drain_main(m: ByoYomiModel, elapsed: nat)
    ensures
        m.drain(elapsed).main == m.main,
        m.drain(elapsed).running == m.running,
        m.drain(elapsed).config == m.config,
    decreases elapsed, m.unused,
{
    if m.drain_goes_on(elapsed) {
        let (next, rest) = m.drain_step(elapsed);
        lemma_drain_step_decreases(m, elapsed);
        lemma_drain_main(next, rest);
    }
}

/// Draining `elapsed` from a clock in byo-yomi whose period counts down
/// unless none is left takes exactly `elapsed` from the time of the
/// periods, down to zero, and expires the clock exactly when `elapsed`
/// covers that time.
proof fn lemma_drain_spends(m: ByoYomiModel, elapsed: nat)
    requires
        m.main == 0,
        m.period == 0 ==> m.unused == 0,
        m.period <= m.config.period_time@,
    ensures
        m.drain(elapsed).main == 0,
        m.drain(elapsed).running == m.running,
        m.drain(elapsed).config == m.config,
        m.drain(elapsed).period == 0 ==> m.drain(elapsed).unused == 0,
        m.drain(elapsed).period <= m.config.period_time@,
        m.drain(elapsed).unused <= m.unused,
        m.drain(elapsed).all_periods() == sub_sat(m.all_periods(), elapsed),
        m.drain(elapsed).expired() <==> elapsed >= m.all_periods(),
    decreases elapsed, m.unused,
{
    let pt = m.config.period_time@;
    if m.period == 0 {
        assert(pt * 0 == 0);
        assert(m.drain(elapsed) == m);
    } else if elapsed == 0 {
        assert(m.drain(elapsed) == m);
    } else {
        assert(m.max_remaining() > 0);
        assert(m.drain_goes_on(elapsed));
        let (next, rest) = m.drain_step(elapsed);
        lemma_drain_step_decreases(m, elapsed);
        let used = min_nat(elapsed, m.period);
        if m.period == used && m.unused > 0 {
            lemma_one_more_period(pt, m.unused);
        }
        lemma_drain_spends(next, rest);
        if pt > 0 {
            lemma_no_period_time(pt, m.drain(elapsed).unused);
        }
    }
}

/// During a turn, spending `elapsed` takes it from the main time first and
/// then from the periods: the time left, counted whole, drops by exactly
/// `elapsed` (down to zero), and the clock expires exactly when `elapsed`
/// covers all of it.
proof fn lemma_spend_exact(m: ByoYomiModel, elapsed: nat)
    requires
        m.wf(),
        m.running,
    ensures
        m.spend(elapsed).main == sub_sat(m.main, elapsed),
        m.spend(elapsed).unused <= m.unused,
        m.spend(elapsed).main + m.spend(elapsed).all_periods() == sub_sat(
            m.main + m.all_periods(),
            elapsed,
        ),
        m.spend(elapsed).expired() <==> elapsed >= m.main + m.all_periods(),
{
    let pt = m.config.period_time@;
    let (after, rest) = m.spend_main(elapsed);
    if elapsed < m.main {
        assert(after.main > 0);
        assert(m.spend(elapsed) == after);
    } else {
        let emptied = ByoYomiModel { main: 0, ..m };
        assert(after == emptied.take_period());
        if m.period == 0 && m.unused > 0 {
            if pt > 0 {
                lemma_one_more_period(pt, m.unused);
            } else {
                assert(pt * m.unused == 0);
            }
        }
        lemma_drain_spends(after, rest);
    }
}

/// During a turn, spending `max_remaining` or more makes it expire, and spending less does not;
/// either way `max_remaining` drops by exactly the time spent, down to zero,
/// and so does the main time, which is spent first.
pub proof fn lemma_byo_yomi_max_remaining(m: ByoYomiModel, elapsed: nat)
    requires
        m.wf(),
        m.running,
    ensures
        m.spend(elapsed).expired() <==> elapsed >= m.max_remaining(),
        m.spend(elapsed).max_remaining() == sub_sat(m.max_remaining(), elapsed),
        m.spend(elapsed).main == sub_sat(m.main, elapsed),
        m.spend(elapsed).max_remaining() == m.spend(elapsed).main + m.spend(
            elapsed,
        ).all_periods(),
        ByoYomiClock::model_expired(ByoYomiClock::model_spend(m, elapsed)) <==> elapsed
            >= ByoYomiClock::model_max_remaining(m),
        ByoYomiClock::model_max_remaining(m) == m.main + m.period + m.config.period_time@
            * m.unused,
{
    lemma_spend_exact(m, elapsed);
}

/// The main time never grows: starting and ending a turn keep it, and
/// spending during a turn takes from it first. Once it is zero it stays
/// zero until the clock is reset.
pub proof fn lemma_byo_yomi_main_never_grows(m: ByoYomiModel, elapsed: nat)
    ensures
        m.start().main == m.main,
        m.spend(elapsed).main == (if m.running {
            sub_sat(m.main, elapsed)
        } else {
            m.main
        }),
        m.spend(elapsed).main <= m.main,
        m.end().main == m.main,
{
    if m.running {
        let (after, rest) = m.spend_main(elapsed);
        lemma_drain_main(after, rest);
    }
}

/// Starting a turn while one is in progress changes nothing.
pub proof fn lemma_byo_yomi_start_idempotent(m: ByoYomiModel)
    requires
        m.wf(),
        m.running,
    ensures
        m.start() == m,
{
}

/// With positive period time, starting a turn keeps the main time, the time left, the periods left and whether
/// the clock has expired; in byo-yomi and not expired, a period is then
/// counting down; and starting again changes nothing.
pub proof fn lemma_byo_yomi_start_keeps(m: ByoYomiModel)
    requires
        m.wf(),
        m.config.period_time@ > 0,
    ensures
        m.start().main == m.main,
        m.start().max_remaining() == m.max_remaining(),
        m.start().periods_remaining() == m.periods_remaining(),
        m.start().expired() == m.expired(),
        m.start().main == 0 && !m.start().expired() ==> m.start().period > 0,
        m.start().start() == m.start(),
{
    let pt = m.config.period_time@;
    if m.main == 0 && m.period == 0 && m.unused > 0 {
        lemma_one_more_period(pt, m.unused);
    }
}

/// Between turns no period is counting down: the periods left are the
/// unused ones, each holding the full period time.
pub proof fn lemma_byo_yomi_between_turns(m: ByoYomiModel)
    requires
        m.wf(),
        !m.running,
    ensures
        m.period == 0,
        m.periods_remaining() == m.unused,
        m.all_periods() == m.config.period_time@ * m.unused,
{
}

/// Draining keeps the invariant.
proof fn lemma_drain_wf(m: ByoYomiModel, elapsed: nat)
    requires
        m.wf(),
        m.running,
    ensures
        m.drain(elapsed).wf(),
        m.drain(elapsed).running,
        m.drain(elapsed).config == m.config,
    decreases elapsed, m.unused,
{
    if m.drain_goes_on(elapsed) {
        let (next, rest) = m.drain_step(elapsed);
        lemma_drain_step_decreases(m, elapsed);
        lemma_drain_wf(next, rest);
    }
}

/// Every operation keeps the invariant, and a fresh clock has it: every
/// clock reachable from `new` satisfies it.
pub proof fn lemma_byo_yomi_wf_preserved(m: ByoYomiModel, elapsed: nat, config: ByoYomiConfig)
    requires
        m.wf(),
    ensures
        ByoYomiModel::initial(config).wf(),
        m.start().wf(),
        m.spend(elapsed).wf(),
        m.end().wf(),
{
    if m.running {
        let (after, rest) = m.spend_main(elapsed);
        lemma_drain_wf(after, rest);
    }
}

/// While draining, the time left never grows: every check fits if the
/// first one does.
proof fn lemma_drain_fits(m: ByoYomiModel, elapsed: nat)
    requires
        m.max_fits(),
    ensures
        m.drain_fits(elapsed),
    decreases elapsed, m.unused,
{
    let pt = m.config.period_time@;
    if elapsed > 0 && m.drain_goes_on(elapsed) {
        let (next, rest) = m.drain_step(elapsed);
        lemma_drain_step_decreases(m, elapsed);
        let used = min_nat(elapsed, m.period);
        if m.period == used && m.unused > 0 {
            lemma_one_more_period(pt, m.unused);
        }
        if pt == 0 {
            assert(pt * m.unused == 0);
            assert(pt * next.unused == 0);
        }
        lemma_drain_fits(next, rest);
    }
}

/// Spending during a turn stays within the range of a `Duration` whenever
/// `max_remaining` does.
pub proof fn lemma_byo_yomi_spend_fits(m: ByoYomiModel, elapsed: nat)
    requires
        m.max_fits(),
    ensures
        m.spend_fits(elapsed),
{
    let pt = m.config.period_time@;
    if m.running {
        let (after, rest) = m.spend_main(elapsed);
        let emptied = ByoYomiModel { main: (m.main - min_nat(elapsed, m.main)) as nat, ..m };
        assert(after == emptied.take_period());
        if emptied.main == 0 && m.period == 0 && m.unused > 0 {
            lemma_one_more_period(pt, m.unused);
        }
        if pt == 0 {
            assert(pt * m.unused == 0);
            assert(pt * after.unused == 0);
        }
        lemma_drain_fits(after, rest);
    }
}

/// Draining in two goes is draining the sum at once.
proof fn lemma_drain_additive(m: ByoYomiModel, a: nat, b: nat)
    requires
        m.main == 0,
        m.period == 0 ==> m.unused == 0,
        m.period <= m.config.period_time@,
    ensures
        m.drain(a).drain(b) == m.drain(a + b),
    decreases a, m.unused,
{
    let pt = m.config.period_time@;
    if a == 0 {
    } else if m.period == 0 {
        assert(pt * 0 == 0);
        assert(m.drain(a) == m);
        assert(m.drain(a + b) == m);
    } else {
        let (next, rest) = m.drain_step(a);
        lemma_drain_step_decreases(m, a);
        assert(m.drain_goes_on(a));
        assert(m.drain_goes_on(a + b));
        if a < m.period {
            assert(rest == 0);
            assert(next.drain(0) == next);
            if b > 0 {
                assert(next.drain_goes_on(b));
                let (n2, r2) = next.drain_step(b);
                assert(m.drain_step(a + b) == (n2, r2));
            } else {
                assert(m.drain_step(a + b) == (next, rest));
            }
        } else {
            assert(m.drain_step(a + b) == (next, (rest + b) as nat));
            lemma_drain_additive(next, rest, b);
        }
    }
}

/// During a turn, spending `a` and then `b` is spending `a + b` at once:
/// what counts is the total time spent thinking.
pub proof fn lemma_byo_yomi_spend_additive(m: ByoYomiModel, a: nat, b: nat)
    requires
        m.wf(),
        m.running,
    ensures
        m.spend(a).spend(b) == m.spend(a + b),
{
    let (after, ra) = m.spend_main(a);
    if a < m.main {
        assert(after.main > 0);
        assert(m.spend(a) == after);
        let (after2, rb) = after.spend_main(b);
        assert(m.spend_main(a + b) == (after2, rb));
    } else {
        lemma_drain_spends(after, ra);
        let r1 = after.drain(ra);
        assert(r1.take_period() == r1);
        assert(r1.spend_main(b) == (r1, b));
        lemma_drain_additive(after, ra, b);
        assert(m.spend_main(a + b) == (after, (ra + b) as nat));
    }
}

/// Ending a turn keeps the main time and the count of periods left: a
/// period still counting down is given back, however much of it was used.
pub proof fn lemma_byo_yomi_end(m: ByoYomiModel)
    requires
        m.wf(),
        m.running,
    ensures
        !ByoYomiClock::model_running(ByoYomiClock::model_end(m)),
        ByoYomiClock::model_end(m).main == m.main,
        ByoYomiClock::model_end(m).period == 0,
        ByoYomiClock::model_end(m).periods_remaining() == m.periods_remaining(),
        ByoYomiClock::model_end(m).unused == m.unused + (if m.period != 0 {
            1int
        } else {
            0int
        }),
        ByoYomiClock::model_expired(ByoYomiClock::model_end(m)) == ByoYomiClock::model_expired(m),
{
}

/// Resetting gives back the initial time and all periods, stopped.
pub proof fn lemma_byo_yomi_reset(m: ByoYomiModel)
    ensures
        ByoYomiClock::model_reset(m).main == m.config.initial@,
        ByoYomiClock::model_reset(m).period == 0,
        ByoYomiClock::model_reset(m).unused == m.config.num_periods,
        !ByoYomiClock::model_reset(m).running,
        ByoYomiClock::model_reset(m).config == m.config,
{
}

/// The clock shows its main time with minutes, or in byo-yomi the period
/// counting down (`----` between turns with periods left), then ` +`, the
/// number of unused periods, `x` and the period time; the number shown
/// reads back as the count of unused periods.
pub proof fn lemma_byo_yomi_display(m: ByoYomiModel)
    ensures
        ({
            let tail = seq![' ', '+'] + decimal(m.unused) + seq!['x'] + countdown_text(
                m.config.period_time@,
                false,
            );
            &&& m.main != 0 ==> m.display() == countdown_text(m.main, true) + tail
            &&& m.main == 0 && m.period == 0 && m.unused > 0 ==> m.display() == seq![
                '-',
                '-',
                '-',
                '-',
            ] + tail
            &&& m.main == 0 && (m.period != 0 || m.unused == 0) ==> m.display()
                == countdown_text(m.period, false) + tail
        }),
        digits_value(decimal(m.unused)) == m.unused,
{
    lemma_decimal_reads_back(m.unused);
    let tail = seq![' ', '+'] + decimal(m.unused) + seq!['x'] + countdown_text(
        m.config.period_time@,
        false,
    );
    assert(countdown_text(m.main, true) + seq![' ', '+'] + decimal(m.unused) + seq!['x']
        + countdown_text(m.config.period_time@, false) =~= countdown_text(m.main, true) + tail);
    assert(seq!['-', '-', '-', '-'] + seq![' ', '+'] + decimal(m.unused) + seq!['x']
        + countdown_text(m.config.period_time@, false) =~= seq!['-', '-', '-', '-'] + tail);
    assert(countdown_text(m.period, false) + seq![' ', '+'] + decimal(m.unused) + seq!['x']
        + countdown_text(m.config.period_time@, false) =~= countdown_text(m.period, false)
        + tail);
}

} // verus!
