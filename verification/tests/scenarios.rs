use time_control::{
    AnyClock, AnyConfig, BronsteinClock, BronsteinConfig, ByoYomiClock, ByoYomiConfig, Duration,
    FischerClock, FischerConfig, ShowCountdown, SimpleDelayClock, SimpleDelayConfig, TimeControl,
    TwoPlayer,
};

fn secs(n: u64) -> Duration {
    Duration::from_secs(n)
}

#[test]
fn readme_fischer_single_clock() {
    let one_sec = Duration::from_secs(1);
    let one_min = Duration::from_mins(1);

    let cf = FischerConfig::new(3, 5);
    let mut clk = FischerClock::new(cf);
    assert_eq!(clk.to_string(), "3:00");

    clk.turn_start();
    clk.turn_spend(one_sec);
    assert_eq!(clk.to_string(), "2:59");
    clk.turn_spend(one_sec);
    assert_eq!(clk.to_string(), "2:58");
    clk.turn_spend(one_sec);
    assert_eq!(clk.to_string(), "2:57");

    clk.turn_end();
    assert_eq!(clk.to_string(), "3:02");

    clk.turn_start();
    assert_eq!(clk.turn_spend(one_min), false);
    assert_eq!(clk.to_string(), "2:02");
    assert_eq!(clk.turn_spend(one_min), false);
    assert_eq!(clk.to_string(), "1:02");
    assert_eq!(clk.turn_spend(one_min), false);
    assert_eq!(clk.to_string(), "2.0s");
    assert_eq!(clk.turn_spend(one_sec), false);
    assert_eq!(clk.to_string(), "1.0s");

    assert_eq!(clk.turn_spend(one_sec), true);
    assert_eq!(clk.to_string(), "0.0s");
    assert!(clk.is_expired());
    clk.turn_end();
    assert_eq!(clk.to_string(), "0.0s");
}

#[test]
fn two_player_fischer_example() {
    let one_sec = Duration::from_secs(1);
    let one_min = Duration::from_mins(1);

    let cf = FischerConfig::new(3, 5);
    let mut tc: TwoPlayer<FischerClock> = TwoPlayer::new(cf);

    let show = |tc: &TwoPlayer<FischerClock>| {
        format!("{} {}", tc.p1().to_string(), tc.p2().to_string())
    };

    assert_eq!(show(&tc), "3:00 3:00");

    tc.set_p1_turn();
    tc.turn_spend(one_min);
    assert_eq!(show(&tc), "2:00 3:00");

    tc.set_p2_turn();
    tc.turn_spend(one_min);
    tc.turn_spend(one_min);
    assert_eq!(show(&tc), "2:05 1:00");

    tc.set_p1_turn();
    tc.turn_spend(one_min);
    tc.turn_spend(one_min);
    assert_eq!(show(&tc), "5.0s 1:05");

    tc.set_p2_turn();
    tc.turn_spend(one_min);
    assert_eq!(show(&tc), "0:10 5.0s");
    assert!(!tc.turn_spend(one_sec));
    assert!(!tc.turn_spend(one_sec));
    assert!(!tc.turn_spend(one_sec));
    assert_eq!(show(&tc), "0:10 2.0s");
    assert!(!tc.turn_spend(one_sec));
    assert_eq!(show(&tc), "0:10 1.0s");

    assert!(tc.turn_spend(one_sec));
    assert_eq!(show(&tc), "0:10 0.0s");
}

#[test]
fn two_player_expired_spend_changes_nothing() {
    let mut tc: TwoPlayer<FischerClock> = TwoPlayer::new(FischerConfig::new(1, 0));
    tc.set_p2_turn();
    assert!(tc.p2_turn());
    assert!(!tc.p1_turn());
    assert!(tc.turn_spend(Duration::from_mins(2)));
    assert!(tc.is_expired());
    assert!(!tc.p1_turn());
    assert!(!tc.p2_turn());
    let p1_before = tc.p1().main_remaining();
    assert!(tc.turn_spend(secs(5)));
    assert_eq!(tc.p1().main_remaining(), p1_before);
    assert_eq!(tc.p2().main_remaining(), secs(0));
    tc.set_p1_turn();
    assert!(!tc.p1_turn());
    tc.reset();
    assert!(!tc.is_expired());
    assert_eq!(tc.p2().main_remaining(), secs(60));
}

#[test]
fn two_player_both_expire_second_loses() {
    // the clock not counting down is not spent from, so only the running
    // one can expire: both expire only when both run (a clock started by
    // hand before being handed over)
    let mut a = FischerClock::new(FischerConfig::new(0, 0));
    a.turn_start();
    let mut b = FischerClock::new(FischerConfig::new(0, 0));
    b.turn_start();
    let mut tc: TwoPlayer<FischerClock> = TwoPlayer::new_asymmetric(a, b);
    assert!(tc.turn_spend(secs(1)));
    assert!(tc.is_expired());
}

#[test]
fn two_player_clear_turn_stops_clock() {
    let mut tc: TwoPlayer<BronsteinClock> = TwoPlayer::new(BronsteinConfig::new(1, 10));
    tc.set_p1_turn();
    tc.turn_spend(secs(4));
    tc.clear_turn();
    assert!(!tc.p1_turn());
    assert!(!tc.p2_turn());
    assert_eq!(tc.p1().main_remaining(), secs(60));
    tc.turn_spend(secs(4));
    assert_eq!(tc.p1().main_remaining(), secs(60));
}

#[test]
fn two_player_any_clock() {
    let mut tc: TwoPlayer<AnyClock> = TwoPlayer::new(AnyConfig::from(ByoYomiConfig::new(0, 1, 5)));
    tc.set_p1_turn();
    assert!(!tc.turn_spend(secs(4)));
    assert!(tc.turn_spend(secs(1)));
    assert!(tc.is_expired());
    assert_eq!(tc.p1().to_string(), "0.0s +0x5.0s");
}

#[test]
fn fischer_doc_turn_of_two_minutes() {
    let mut clk = FischerClock::new(FischerConfig::new(10, 10));
    clk.turn_start();
    clk.turn_spend(Duration::from_mins(2));
    clk.turn_end();
    assert_eq!(clk.to_string(), "8:10");
}

#[test]
fn fischer_increment_only_after_turn() {
    let mut clk = FischerClock::new(FischerConfig::new(0, 30));
    let mut clk2 = FischerClock::new(FischerConfig {
        initial: secs(120),
        increment: secs(300),
        limit: None,
    });
    clk.turn_start();
    assert!(clk.turn_spend(secs(0)));
    clk2.turn_start();
    assert_eq!(clk2.max_remaining(), secs(120));
    assert!(!clk2.turn_spend(secs(119)));
    assert!(clk2.turn_spend(secs(1)));
}

#[test]
fn fischer_expired_gets_no_increment() {
    let mut clk = FischerClock::new(FischerConfig::new(1, 10));
    assert!(clk.complete_turn(secs(90)));
    assert_eq!(clk.main_remaining(), secs(0));
    assert!(clk.is_expired());
    clk.turn_start();
    clk.turn_end();
    assert!(clk.is_expired());
}

#[test]
fn bronstein_doc_refund() {
    let mut clk = BronsteinClock::new(BronsteinConfig::new(1, 10));
    assert!(!clk.complete_turn(secs(5)));
    assert_eq!(clk.main_remaining(), secs(60));
    assert!(!clk.complete_turn(secs(20)));
    assert_eq!(clk.main_remaining(), secs(50));
    assert_eq!(clk.max_remaining(), secs(50));
}

#[test]
fn simple_delay_display_and_expiry() {
    let mut clk = SimpleDelayClock::new(SimpleDelayConfig::new(1, 10));
    assert_eq!(clk.to_string(), "1:00");
    clk.turn_start();
    assert_eq!(clk.to_string(), "1:00 (10s)");
    assert_eq!(clk.max_remaining(), secs(70));
    clk.turn_spend(Duration::from_millis(3_500));
    assert_eq!(clk.to_string(), "1:00 (6.5s)");
    clk.turn_end();
    assert_eq!(clk.delay_remaining(), secs(0));
    assert_eq!(clk.to_string(), "1:00");
    // spending outside a turn does nothing
    assert!(!clk.turn_spend(secs(100)));
    assert_eq!(clk.main_remaining(), secs(60));
    clk.turn_start();
    assert!(!clk.turn_spend(secs(69)));
    assert!(clk.turn_spend(secs(1)));
    clk.turn_end();
    clk.turn_start();
    // an expired clock gets no delay
    assert_eq!(clk.delay_remaining(), secs(0));
    clk.reset();
    assert_eq!(clk.main_remaining(), secs(60));
    assert!(!clk.is_expired());
}

#[test]
fn simple_delay_start_twice_keeps_delay() {
    let mut clk = SimpleDelayClock::new(SimpleDelayConfig::new(1, 10));
    clk.turn_start();
    clk.turn_spend(secs(4));
    clk.turn_start();
    assert_eq!(clk.delay_remaining(), secs(6));
}

#[test]
fn byo_yomi_doc_table() {
    let mut clk = ByoYomiClock::new(ByoYomiConfig::new(10, 3, 30));
    assert_eq!(clk.to_string(), "10:00 +3x30s");

    clk.turn_start();
    clk.turn_spend(Duration::from_mins(2));
    assert_eq!(clk.to_string(), "8:00 +3x30s");
    clk.turn_end();
    assert_eq!(clk.to_string(), "8:00 +3x30s");

    clk.turn_start();
    clk.turn_spend(Duration::from_mins(7));
    assert_eq!(clk.to_string(), "1:00 +3x30s");
    clk.turn_end();

    clk.turn_start();
    clk.turn_spend(secs(80));
    assert_eq!(clk.to_string(), "10s +2x30s");
    clk.turn_end();
    assert_eq!(clk.to_string(), "---- +3x30s");
    assert_eq!(clk.periods_remaining(), 3);

    clk.turn_start();
    clk.turn_spend(secs(20));
    assert_eq!(clk.to_string(), "10s +2x30s");
    assert_eq!(clk.periods_remaining(), 3);
    clk.turn_end();
    assert_eq!(clk.to_string(), "---- +3x30s");

    clk.turn_start();
    assert_eq!(clk.max_remaining(), secs(90));
    assert_eq!(clk.all_periods_remaining(), secs(90));
    assert!(!clk.turn_spend(secs(80)));
    assert_eq!(clk.to_string(), "10s +0x30s");
    clk.turn_end();
    assert_eq!(clk.to_string(), "---- +1x30s");

    clk.turn_start();
    assert!(clk.turn_spend(secs(40)));
    assert!(clk.is_expired());
    clk.turn_end();
    assert!(clk.is_expired());
    assert_eq!(clk.to_string(), "0.0s +0x30s");
}

#[test]
fn byo_yomi_max_remaining_is_exact() {
    let mut clk = ByoYomiClock::new(ByoYomiConfig::new(1, 2, 10));
    clk.turn_start();
    assert_eq!(clk.max_remaining(), secs(80));
    let mut copy = clk;
    assert!(!copy.turn_spend(Duration::from_millis(79_999)));
    assert!(clk.turn_spend(secs(80)));
}

#[test]
fn byo_yomi_zero_period_time() {
    let mut clk = ByoYomiClock::new(ByoYomiConfig::new(0, 2, 0));
    assert!(clk.in_byo_yomi());
    assert!(!clk.is_expired());
    // periods of no time are used up at once: the clock has no time left
    clk.turn_start();
    assert_eq!(clk.unused_periods(), 0);
    assert!(clk.is_expired());
    clk.turn_start();
    assert_eq!(clk.unused_periods(), 0);

    let mut clk = ByoYomiClock::new(ByoYomiConfig::new(1, 3, 0));
    clk.turn_start();
    assert_eq!(clk.max_remaining(), secs(60));
    let mut copy = clk;
    assert!(!copy.turn_spend(secs(59)));
    assert_eq!(copy.unused_periods(), 3);
    assert!(clk.turn_spend(secs(60)));
    assert_eq!(clk.unused_periods(), 0);
    assert_eq!(clk.max_remaining(), secs(0));
}

#[test]
fn any_clock_dispatch() {
    let mut clk = AnyClock::new(SimpleDelayConfig::new(2, 5));
    clk.turn_start();
    assert_eq!(clk.to_string(), "2:00 (5.0s)");
    assert_eq!(clk.max_remaining(), secs(125));
    clk.turn_spend(secs(7));
    assert_eq!(clk.to_string(), "1:58");
    clk.turn_end();
    clk.reset();
    assert_eq!(clk.to_string(), "2:00");

    let clk: AnyClock = AnyClock::from(FischerConfig::new(1, 1));
    assert_eq!(clk.to_string(), "1:00");
    let inner = FischerClock::try_from(clk).unwrap();
    assert_eq!(inner.main_remaining(), secs(60));
    let back = AnyClock::from(inner);
    assert!(BronsteinClock::try_from(back).is_err());

    let cfg = AnyConfig::from(BronsteinConfig::new(1, 3));
    assert!(FischerConfig::try_from(cfg).is_err());
    assert_eq!(BronsteinConfig::try_from(cfg).unwrap().max_increment, secs(3));
    let b: BronsteinClock = BronsteinConfig::new(1, 3).into();
    assert_eq!(b.main_remaining(), secs(60));
}

#[test]
fn show_countdown_rounding() {
    let with = |n: u64| ShowCountdown::with_minutes(Duration::from_millis(n)).to_string();
    let without = |n: u64| ShowCountdown::without_minutes(Duration::from_millis(n)).to_string();
    assert_eq!(with(16_250), "0:17");
    assert_eq!(with(6_250), "6.3s");
    assert_eq!(with(3_600_000), "60:00");
    assert_eq!(without(3_600_000), "3600s");
    assert_eq!(with(1), "0.1s");
}

#[test]
fn duration_arithmetic() {
    let a = Duration::from_millis(2_500);
    assert_eq!(a.as_secs(), 2);
    assert_eq!(a.subsec_nanos(), 500_000_000);
    assert_eq!(a.plus(secs(1)), Duration::from_millis(3_500));
    assert_eq!(a.minus(secs(1)), Duration::from_millis(1_500));
    assert_eq!(a.saturating_sub(secs(3)), Duration::zero());
    assert_eq!(a.min(secs(1)), secs(1));
    assert_eq!(a.times(3), Duration::from_millis(7_500));
    assert!(Duration::zero().is_zero());
    assert_eq!(Duration::from_mins(2), secs(120));
}

#[test]
fn byo_yomi_start_twice_changes_nothing() {
    let mut clk = ByoYomiClock::new(ByoYomiConfig::new(0, 3, 10));
    clk.turn_start();
    assert_eq!(clk.unused_periods(), 2);
    assert_eq!(clk.this_period_remaining(), secs(10));
    clk.turn_spend(secs(4));
    clk.turn_start();
    assert_eq!(clk.unused_periods(), 2);
    assert_eq!(clk.this_period_remaining(), secs(6));
    clk.turn_end();
    assert_eq!(clk.this_period_remaining(), secs(0));
    assert_eq!(clk.unused_periods(), 3);
}

#[test]
fn two_player_set_turn_twice_changes_nothing() {
    let mut tc: TwoPlayer<SimpleDelayClock> = TwoPlayer::new(SimpleDelayConfig::new(1, 5));
    tc.set_p1_turn();
    tc.turn_spend(secs(2));
    assert_eq!(tc.p1().delay_remaining(), secs(3));
    tc.set_p1_turn();
    assert_eq!(tc.p1().delay_remaining(), secs(3));
    assert!(tc.p1_turn());
    tc.set_p2_turn();
    assert_eq!(tc.p1().delay_remaining(), secs(0));
    assert_eq!(tc.p2().delay_remaining(), secs(5));
}

#[test]
fn spending_in_pieces_equals_spending_at_once() {
    let mut whole = ByoYomiClock::new(ByoYomiConfig::new(1, 3, 10));
    let mut pieces = whole;
    whole.turn_start();
    pieces.turn_start();
    whole.turn_spend(secs(85));
    for _ in 0..17 {
        pieces.turn_spend(secs(5));
    }
    assert_eq!(whole.main_remaining(), pieces.main_remaining());
    assert_eq!(whole.this_period_remaining(), pieces.this_period_remaining());
    assert_eq!(whole.unused_periods(), pieces.unused_periods());
    assert_eq!(whole.this_period_remaining(), secs(5));
    assert_eq!(whole.unused_periods(), 0);

    let mut whole = SimpleDelayClock::new(SimpleDelayConfig::new(1, 10));
    let mut pieces = whole;
    whole.turn_start();
    pieces.turn_start();
    whole.turn_spend(secs(13));
    pieces.turn_spend(secs(6));
    pieces.turn_spend(secs(7));
    assert_eq!(whole.main_remaining(), pieces.main_remaining());
    assert_eq!(whole.main_remaining(), secs(57));
    assert_eq!(pieces.delay_remaining(), secs(0));
}

#[test]
fn two_player_expired_clock_counts_as_expired() {
    let tc: TwoPlayer<FischerClock> = TwoPlayer::new(FischerConfig::new(0, 0));
    assert!(tc.p1().is_expired());
    assert!(tc.is_expired());
    assert!(!tc.p1_turn());

    let tc: TwoPlayer<FischerClock> = TwoPlayer::new(FischerConfig::new(1, 0));
    assert!(!tc.is_expired());
}

#[test]
fn byo_yomi_spending_lowers_max_remaining_exactly() {
    let mut clk = ByoYomiClock::new(ByoYomiConfig::new(1, 3, 10));
    clk.turn_start();
    let before = clk.max_remaining();
    assert!(!clk.turn_spend(secs(67)));
    assert_eq!(clk.max_remaining(), before.saturating_sub(secs(67)));
    assert_eq!(clk.main_remaining(), secs(0));
    assert_eq!(
        clk.max_remaining(),
        clk.main_remaining().plus(clk.all_periods_remaining())
    );
    clk.turn_end();
    assert_eq!(clk.this_period_remaining(), secs(0));
    assert_eq!(clk.all_periods_remaining(), secs(10).times(clk.periods_remaining() as u64));
}

#[test]
fn byo_yomi_many_periods_count_whole() {
    let periods: usize = (1usize << 32) + 1;
    let mut clk = ByoYomiClock::new(ByoYomiConfig::new(0, periods, 1));
    clk.turn_start();
    assert_eq!(clk.unused_periods(), 1usize << 32);
    assert_eq!(clk.max_remaining(), secs((1u64 << 32) + 1));
    let mut copy = clk;
    assert!(!copy.turn_spend(secs(1)));
    assert_eq!(copy.max_remaining(), secs(1u64 << 32));
}
