//! Time controls for turn-based games such as chess and go.
//!
//! - [`SimpleDelayClock`] and [`SimpleDelayConfig`], which at the start of a
//!   turn waits for a delay period before counting down the main time.
//! - [`FischerClock`] and [`FischerConfig`], which add a fixed increment at
//!   the end of a turn.
//! - [`BronsteinClock`] and [`BronsteinConfig`], which give back the time
//!   spent during the turn, up to a limit.
//! - [`ByoYomiClock`] and [`ByoYomiConfig`], which after the main time has
//!   run out count down byo-yomi periods that reset at the end of the turn
//!   if not fully used.
//! - [`AnyClock`] and [`AnyConfig`], which hold any of the above, and the
//!   [`TimeControl`] trait that all clocks implement.
//! - [`TwoPlayer`], which manages the clocks of two players, the clock
//!   counting down alternating between them.
//!
//! Every clock is driven by `turn_start`, one or more `turn_spend` calls
//! carrying the time elapsed since the last update, and `turn_end`. The
//! bookkeeping is done on [`Duration`] values, modelled as a whole number of
//! nanoseconds.
mod any;
mod bronstein;
mod byo_yomi;
mod control;
mod countdown;
mod duration;
mod fischer;
mod simple_delay;
mod two_player;

pub use any::{
    AnyClock, AnyConfig, AnyModel,
};
pub use bronstein::{
    lemma_bronstein_display, lemma_bronstein_end, lemma_bronstein_max_remaining,
    lemma_bronstein_reset, lemma_bronstein_spend, lemma_bronstein_spend_additive,
    lemma_bronstein_start_idempotent, lemma_bronstein_turn, lemma_bronstein_wf_preserved,
    BronsteinClock, BronsteinConfig, BronsteinModel,
};
pub use byo_yomi::{
    lemma_byo_yomi_between_turns, lemma_byo_yomi_display, lemma_byo_yomi_end,
    lemma_byo_yomi_main_never_grows, lemma_byo_yomi_max_remaining, lemma_byo_yomi_reset,
    lemma_byo_yomi_spend_additive, lemma_byo_yomi_spend_fits, lemma_byo_yomi_start_idempotent,
    lemma_byo_yomi_start_keeps, lemma_byo_yomi_wf_preserved, ByoYomiClock, ByoYomiConfig,
    ByoYomiModel,
};
pub use control::TimeControl;
pub use countdown::{
    ceil_secs, ceil_tenths, countdown_fits, countdown_text, decimal, digit_char, digit_value,
    digits_value, is_digit, is_number, lemma_countdown_reads_back, lemma_countdown_rounds_up,
    lemma_decimal_reads_back, lemma_two_digits_read_back, two_digits, whole_secs, whole_tenths,
    ShowCountdown,
};
pub use duration::{
    min_nat, sub_sat, Duration, MAX_NANOS, NANOS_PER_SEC,
};
pub use fischer::{
    lemma_fischer_display, lemma_fischer_end, lemma_fischer_limit, lemma_fischer_max_remaining,
    lemma_fischer_reset, lemma_fischer_spend, lemma_fischer_spend_additive,
    lemma_fischer_start_idempotent, FischerClock, FischerConfig, FischerModel,
};
pub use simple_delay::{
    lemma_simple_delay_display, lemma_simple_delay_end, lemma_simple_delay_max_remaining,
    lemma_simple_delay_reset, lemma_simple_delay_spend, lemma_simple_delay_spend_additive,
    lemma_simple_delay_start, lemma_simple_delay_start_idempotent, lemma_simple_delay_wf_preserved,
    SimpleDelayClock, SimpleDelayConfig, SimpleDelayModel,
};
pub use two_player::TwoPlayer;
