use vstd::prelude::*;
use vstd::std_specs::convert::IntoSpec;

use crate::control::TimeControl;
use crate::duration::Duration;

verus! {

/// Time controls for two players.
///
/// Time is spent with [`turn_spend`][`Self::turn_spend`], and the player
/// whose clock it is taken from is changed with
/// [`set_p1_turn`][`Self::set_p1_turn`] and [`set_p2_turn`][`Self::set_p2_turn`].
/// Once either player's clock expires, further calls to
/// [`turn_spend`][`Self::turn_spend`] have no effect.
pub struct TwoPlayer<P1, P2 = P1> {
    p1_lose: Option<bool>,
    p1_turn: Option<bool>,
    p1: P1,
    p2: P2,
}

impl<P1> TwoPlayer<P1, P1> where P1: TimeControl {
    /// A two-player time control where both players start from the given
    /// config or clock.
    pub fn new<T>(from: T) -> (r: Self) where T: Into<P1> + Clone
        ensures
            r.lose() is None,
            r.turn() is None,
            r.wf(),
            T::obeys_into_spec() ==> r.second() == from.into_spec(),
            T::obeys_into_spec() ==> exists|c: T|
                cloned::<T>(from, c) && r.first() == #[trigger] c.into_spec(),
    {
        let copy = from.clone();
        let r = Self::new_asymmetric(copy, from);
        proof {
            if T::obeys_into_spec() {
                assert(cloned::<T>(from, copy));
                assert(r.first() == copy.into_spec());
            }
        }
        r
    }
}

impl<P1, P2> TwoPlayer<P1, P2> where P1: TimeControl, P2: TimeControl {
    /// Which player has lost on time: `Some(true)` for the first, `Some(false)`
    /// for the second, `None` while neither has.
    pub closed spec fn lose(&self) -> Option<bool> {
        self.p1_lose
    }

    /// Whose turn it is: `Some(true)` for the first player, `Some(false)` for
    /// the second, `None` for neither.
    pub closed spec fn turn(&self) -> Option<bool> {
        self.p1_turn
    }

    /// The first player's clock.
    pub closed spec fn first(&self) -> P1 {
        self.p1
    }

    /// The second player's clock.
    pub closed spec fn second(&self) -> P2 {
        self.p2
    }

    /// Whether either player's clock has expired, or a loss on time has been
    /// recorded.
    pub open spec fn expired(&self) -> bool {
        ||| self.lose() is Some
        ||| P1::model_expired(self.first().model())
        ||| P2::model_expired(self.second().model())
    }

    pub open spec fn first_counts(&self) -> bool {
        self.lose() is None && self.turn() == Some(true)
    }

    pub open spec fn second_counts(&self) -> bool {
        self.lose() is None && self.turn() == Some(false)
    }

    /// The invariant: the clock of the player whose turn it is is running,
    /// and a player recorded as having lost has an expired clock.
    pub open spec fn wf(&self) -> bool {
        &&& self.first_counts() ==> P1::model_running(self.first().model())
        &&& self.second_counts() ==> P2::model_running(self.second().model())
        &&& self.lose() == Some(true) ==> P1::model_expired(self.first().model())
        &&& self.lose() == Some(false) ==> P2::model_expired(self.second().model())
    }

    /// The first player's clock once the turn passes to `next`: stopped if
    /// it counted down and no longer does, started if it begins to.
    pub open spec fn first_after(&self, next: Option<bool>) -> P1::Model {
        let now = self.first_counts();
        let later = next == Some(true);
        if now && !later {
            P1::model_end(self.first().model())
        } else if !now && later {
            P1::model_start(self.first().model())
        } else {
            self.first().model()
        }
    }

    /// The second player's clock once the turn passes to `next`.
    pub open spec fn second_after(&self, next: Option<bool>) -> P2::Model {
        let now = self.second_counts();
        let later = next == Some(false);
        if now && !later {
            P2::model_end(self.second().model())
        } else if !now && later {
            P2::model_start(self.second().model())
        } else {
            self.second().model()
        }
    }

    /// Whether passing the turn to `next` stays within the range of a
    /// [`Duration`] in the clocks it stops.
    pub open spec fn turn_fits(&self, next: Option<bool>) -> bool {
        &&& self.first_counts() && next != Some(true) ==> P1::end_fits(self.first().model())
        &&& self.second_counts() && next != Some(false) ==> P2::end_fits(
            self.second().model(),
        )
    }

    /// Whether `turn_spend` with `elapsed` nanoseconds stays within the range
    /// of a [`Duration`] in both clocks, including stopping the clock that
    /// counted down if one expires.
    pub open spec fn spend_fits(&self, elapsed: nat) -> bool {
        self.lose() is None ==> {
            let m1 = P1::model_spend(self.first().model(), elapsed);
            let m2 = P2::model_spend(self.second().model(), elapsed);
            &&& P1::spend_fits(self.first().model(), elapsed)
            &&& P2::spend_fits(self.second().model(), elapsed)
            &&& (P1::model_expired(m1) || P2::model_expired(m2)) ==> {
                &&& self.first_counts() ==> P1::end_fits(m1)
                &&& self.second_counts() ==> P2::end_fits(m2)
            }
        }
    }

    /// A new two-player time control from the given configs or clocks.
    /// Initially neither clock counts down.
    pub fn new_asymmetric<T1, T2>(p1: T1, p2: T2) -> (r: Self) where
        T1: Into<P1>,
        T2: Into<P2>,

        ensures
            r.lose() is None,
            r.turn() is None,
            r.wf(),
            T1::obeys_into_spec() ==> r.first() == p1.into_spec(),
            T2::obeys_into_spec() ==> r.second() == p2.into_spec(),
    {
        TwoPlayer { p1_lose: None, p1_turn: None, p1: p1.into(), p2: p2.into() }
    }

    /// Reset both clocks to their initial configuration; afterwards neither
    /// clock counts down.
    pub fn reset(&mut self)
        ensures
            final(self).lose() is None,
            final(self).turn() is None,
            final(self).wf(),
            final(self).first().model() == P1::model_reset(old(self).first().model()),
            final(self).second().model() == P2::model_reset(old(self).second().model()),
    {
        self.p1_lose = None;
        self.p1_turn = None;
        self.p1.reset();
        self.p2.reset();
    }

    /// Whether either player's clock has expired.
    pub fn is_expired(&self) -> (r: bool)
        ensures
            r == self.expired(),
            self.wf() ==> r == (P1::model_expired(self.first().model())
                || P2::model_expired(self.second().model())),
    {
        proof {
            if let Some(b) = self.p1_lose {
                assert(self.lose() == Some(b));
            }
        }
        self.p1_lose.is_some() || self.p1.is_expired() || self.p2.is_expired()
    }

    /// Whether the first player's clock is counting down.
    pub fn p1_turn(&self) -> (r: bool)
        ensures
            r == self.first_counts(),
    {
        self.p1_lose.is_none() && match self.p1_turn {
            Some(b) => b,
            None => false,
        }
    }

    /// Whether the second player's clock is counting down.
    pub fn p2_turn(&self) -> (r: bool)
        ensures
            r == self.second_counts(),
    {
        self.p1_lose.is_none() && match self.p1_turn {
            Some(b) => !b,
            None => false,
        }
    }

    /// The first player's time control.
    pub fn p1(&self) -> (r: &P1)
        ensures
            *r == self.first(),
    {
        &self.p1
    }

    /// The second player's time control.
    pub fn p2(&self) -> (r: &P2)
        ensures
            *r == self.second(),
    {
        &self.p2
    }

    /// Passes the turn to `p1` (`Some(true)` for the first player,
    /// `Some(false)` for the second, `None` for neither), stopping and
    /// starting clocks as needed. Once a clock has expired this does
    /// nothing.
    fn set_turn(&mut self, p1: Option<bool>)
        requires
            old(self).wf(),
            old(self).lose() is None ==> old(self).turn_fits(p1),
        ensures
            final(self).wf(),
            old(self).expired() ==> final(self).expired(),
            P1::model_expired(old(self).first().model()) ==> P1::model_expired(
                final(self).first().model(),
            ),
            P2::model_expired(old(self).second().model()) ==> P2::model_expired(
                final(self).second().model(),
            ),
            old(self).lose() is Some ==> *final(self) == *old(self),
            old(self).lose() is None ==> {
                &&& final(self).lose() is None
                &&& final(self).turn() == p1
                &&& final(self).first().model() == old(self).first_after(p1)
                &&& final(self).second().model() == old(self).second_after(p1)
            },
            old(self).lose() is None && old(self).turn() == p1 ==> *final(self) == *old(self),
            old(self).lose() is None && p1 == Some(true) ==> P1::model_running(
                final(self).first().model(),
            ),
            old(self).lose() is None && p1 == Some(false) ==> P2::model_running(
                final(self).second().model(),
            ),
            old(self).first_counts() && p1 != Some(true) ==> !P1::model_running(
                final(self).first().model(),
            ),
            old(self).second_counts() && p1 != Some(false) ==> !P2::model_running(
                final(self).second().model(),
            ),
    {
        if self.p1_lose.is_some() {
            return;
        }
        let p1_turn = self.p1_turn();
        let p2_turn = self.p2_turn();

        let p1_next = match p1 {
            Some(b) => b,
            None => false,
        };
        let p2_next = match p1 {
            Some(b) => !b,
            None => false,
        };

        if p1_turn && !p1_next {
            self.p1.turn_end();
        }
        if p2_turn && !p2_next {
            self.p2.turn_end();
        }
        if !p1_turn && p1_next {
            self.p1.turn_start();
        }
        if !p2_turn && p2_next {
            self.p2.turn_start();
        }

        self.p1_turn = p1;
    }

    /// Marks that it is the first player's turn, starting their clock if
    /// needed. This does nothing if it already is their turn; if it is the
    /// second player's turn, their clock is stopped.
    pub fn set_p1_turn(&mut self)
        requires
            old(self).wf(),
            old(self).lose() is None ==> old(self).turn_fits(Some(true)),
        ensures
            final(self).wf(),
            old(self).expired() ==> final(self).expired(),
            old(self).lose() is Some ==> *final(self) == *old(self),
            old(self).lose() is None ==> {
                &&& final(self).lose() is None
                &&& final(self).turn() == Some(true)
                &&& final(self).first().model() == old(self).first_after(Some(true))
                &&& final(self).second().model() == old(self).second_after(Some(true))
                &&& P1::model_running(final(self).first().model())
            },
            old(self).first_counts() ==> *final(self) == *old(self),
            old(self).second_counts() ==> !P2::model_running(final(self).second().model()),
    {
        self.set_turn(Some(true));
    }

    /// Marks that it is the second player's turn, starting their clock if
    /// needed. This does nothing if it already is their turn; if it is the
    /// first player's turn, their clock is stopped.
    pub fn set_p2_turn(&mut self)
        requires
            old(self).wf(),
            old(self).lose() is None ==> old(self).turn_fits(Some(false)),
        ensures
            final(self).wf(),
            old(self).expired() ==> final(self).expired(),
            old(self).lose() is Some ==> *final(self) == *old(self),
            old(self).lose() is None ==> {
                &&& final(self).lose() is None
                &&& final(self).turn() == Some(false)
                &&& final(self).first().model() == old(self).first_after(Some(false))
                &&& final(self).second().model() == old(self).second_after(Some(false))
                &&& P2::model_running(final(self).second().model())
            },
            old(self).second_counts() ==> *final(self) == *old(self),
            old(self).first_counts() ==> !P1::model_running(final(self).first().model()),
    {
        self.set_turn(Some(false));
    }

    /// Marks that it is neither player's turn; the clock counting down, if
    /// any, is stopped.
    pub fn clear_turn(&mut self)
        requires
            old(self).wf(),
            old(self).lose() is None ==> old(self).turn_fits(None),
        ensures
            final(self).wf(),
            old(self).expired() ==> final(self).expired(),
            P1::model_expired(old(self).first().model()) ==> P1::model_expired(
                final(self).first().model(),
            ),
            P2::model_expired(old(self).second().model()) ==> P2::model_expired(
                final(self).second().model(),
            ),
            old(self).lose() is Some ==> *final(self) == *old(self),
            old(self).lose() is None ==> {
                &&& final(self).lose() is None
                &&& final(self).turn() is None
                &&& final(self).first().model() == old(self).first_after(None)
                &&& final(self).second().model() == old(self).second_after(None)
            },
            old(self).first_counts() ==> !P1::model_running(final(self).first().model()),
            old(self).second_counts() ==> !P2::model_running(final(self).second().model()),
    {
        self.set_turn(None);
    }

    /// Updates the clocks with the time passed since the last update, and
    /// returns whether either player's clock has expired. When one expires,
    /// its player loses (the second player, if both expire at once) and the
    /// clock counting down is stopped. Once a player has lost, this changes
    /// nothing and returns `true`.
    pub fn turn_spend(&mut self, elapsed: Duration) -> (r: bool)
        requires
            old(self).wf(),
            old(self).spend_fits(elapsed@),
        ensures
            final(self).wf(),
            old(self).expired() ==> final(self).expired(),
            old(self).lose() is Some ==> r && *final(self) == *old(self),
            r ==> final(self).expired(),
            old(self).lose() is None ==> {
                let m1 = P1::model_spend(old(self).first().model(), elapsed@);
                let m2 = P2::model_spend(old(self).second().model(), elapsed@);
                let x1 = P1::model_expired(m1);
                let x2 = P2::model_expired(m2);
                &&& r == (x1 || x2)
                &&& final(self).lose() == (if x2 {
                    Some(false)
                } else if x1 {
                    Some(true)
                } else {
                    None
                })
                &&& final(self).turn() == (if x1 || x2 {
                    None
                } else {
                    old(self).turn()
                })
                &&& final(self).first().model() == (if (x1 || x2) && old(self).first_counts() {
                    P1::model_end(m1)
                } else {
                    m1
                })
                &&& final(self).second().model() == (if (x1 || x2)
                    && old(self).second_counts() {
                    P2::model_end(m2)
                } else {
                    m2
                })
            },
    {
        if self.p1_lose.is_none() {
            let p1_expired = self.p1.turn_spend(elapsed);
            let p2_expired = self.p2.turn_spend(elapsed);

            if p1_expired {
                self.clear_turn();
                self.p1_lose = Some(true);
            }
            if p2_expired {
                self.clear_turn();
                self.p1_lose = Some(false);
            }

            p1_expired || p2_expired
        } else {
            true
        }
    }
}

} // verus!
