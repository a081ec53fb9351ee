use vstd::prelude::*;

use crate::duration::Duration;

verus! {

/// A generic time control.
///
/// A player's clock counts down while it is their turn and may expire. It
/// is driven by calling:
///
/// - `turn_start` at the start of a turn;
/// - `turn_spend` one or more times during the turn, with the time spent
///   thinking since the last call; its result tells whether the clock
///   expired;
/// - `turn_end` at the end of the turn.
///
/// Each clock is described by an abstract state (`Model`) and by the spec
/// functions below, which say exactly what every operation does to that
/// state. The contracts of the operations also carry the promises that
/// hold of every time control: an expired clock stays expired until it is
/// reset, `turn_spend` reports expiry, and `turn_spend` and `turn_end` do
/// nothing outside a turn.
pub trait TimeControl: Sized {
    /// The abstract state of the clock.
    type Model;

    /// The abstract state of this clock.
    spec fn model(&self) -> Self::Model;

    /// Whether the clock has hit zero.
    spec fn model_expired(m: Self::Model) -> bool;

    /// Whether a turn is in progress (between `turn_start` and `turn_end`).
    spec fn model_running(m: Self::Model) -> bool;

    /// The longest time that can still be spent before the clock expires,
    /// in nanoseconds.
    spec fn model_max_remaining(m: Self::Model) -> nat;

    /// Whether `model_max_remaining` fits in a [`Duration`] (the sum is
    /// computed with overflow checks).
    spec fn max_remaining_fits(m: Self::Model) -> bool;

    /// The state after `reset`.
    spec fn model_reset(m: Self::Model) -> Self::Model;

    /// The state after `turn_start`.
    spec fn model_start(m: Self::Model) -> Self::Model;

    /// The state after `turn_spend` with `elapsed` nanoseconds.
    spec fn model_spend(m: Self::Model, elapsed: nat) -> Self::Model;

    /// Whether `turn_spend` with `elapsed` nanoseconds stays within the
    /// range of a [`Duration`] in every sum it computes.
    spec fn spend_fits(m: Self::Model, elapsed: nat) -> bool;

    /// The state after `turn_end`.
    spec fn model_end(m: Self::Model) -> Self::Model;

    /// Whether `turn_end` stays within the range of a [`Duration`].
    spec fn end_fits(m: Self::Model) -> bool;

    /// Reset this clock to its initial configuration.
    fn reset(&mut self)
        ensures
            final(self).model() == Self::model_reset(old(self).model()),
            !Self::model_running(final(self).model()),
    ;

    /// Whether this clock has hit zero, i.e. whether `turn_spend` has
    /// returned `true`.
    fn is_expired(&self) -> (r: bool)
        ensures
            r == Self::model_expired(self.model()),
    ;

    /// The largest amount of time left to think during this turn: between
    /// `turn_start` and `turn_end`, the time that, passed to `turn_spend`,
    /// makes the clock expire.
    fn max_remaining(&self) -> (r: Duration)
        requires
            Self::max_remaining_fits(self.model()),
        ensures
            r@ == Self::model_max_remaining(self.model()),
    ;

    /// Apply the clock adjustments for the start of this player's turn. An
    /// expired clock stays expired.
    fn turn_start(&mut self)
        ensures
            final(self).model() == Self::model_start(old(self).model()),
            Self::model_running(final(self).model()),
            Self::model_expired(old(self).model()) ==> Self::model_expired(
                final(self).model(),
            ),
    ;

    /// Record that this player has spent `elapsed` thinking. Returns whether
    /// the clock has expired. Outside a turn this changes nothing.
    fn turn_spend(&mut self, elapsed: Duration) -> (r: bool)
        requires
            Self::spend_fits(old(self).model(), elapsed@),
        ensures
            final(self).model() == Self::model_spend(old(self).model(), elapsed@),
            r == Self::model_expired(final(self).model()),
            !Self::model_running(old(self).model()) ==> final(self).model() == old(
                self,
            ).model(),
            Self::model_running(final(self).model()) == Self::model_running(
                old(self).model(),
            ),
            Self::model_expired(old(self).model()) ==> Self::model_expired(
                final(self).model(),
            ),
    ;

    /// Apply the clock adjustments for the end of this player's turn. An
    /// expired clock stays expired; outside a turn this changes nothing.
    fn turn_end(&mut self)
        requires
            Self::end_fits(old(self).model()),
        ensures
            final(self).model() == Self::model_end(old(self).model()),
            !Self::model_running(final(self).model()),
            !Self::model_running(old(self).model()) ==> final(self).model() == old(
                self,
            ).model(),
            Self::model_expired(old(self).model()) ==> Self::model_expired(
                final(self).model(),
            ),
    ;

    /// `turn_start`, `turn_spend` and `turn_end` in a row, for callers that
    /// record the time of a turn only once it is over.
    fn complete_turn(&mut self, elapsed: Duration) -> (r: bool)
        requires
            Self::spend_fits(Self::model_start(old(self).model()), elapsed@),
            Self::end_fits(
                Self::model_spend(Self::model_start(old(self).model()), elapsed@),
            ),
        ensures
            final(self).model() == Self::model_end(
                Self::model_spend(Self::model_start(old(self).model()), elapsed@),
            ),
            r == Self::model_expired(
                Self::model_spend(Self::model_start(old(self).model()), elapsed@),
            ),
    {
        self.turn_start();
        let expire = self.turn_spend(elapsed);
        self.turn_end();
        expire
    }
}

} // verus!
