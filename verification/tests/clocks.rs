use time_control::{
    ByoYomiClock, ByoYomiConfig, BronsteinClock, BronsteinConfig, Duration, FischerClock,
    FischerConfig, ShowCountdown, SimpleDelayClock, SimpleDelayConfig, TimeControl,
};

#[test]
fn test_simple_delay() {
    let t = Duration::from_secs;

    let mut clk = SimpleDelayClock::new(SimpleDelayConfig::new(1, 10));

    let spend = |clk: &mut SimpleDelayClock, secs| -> (bool, u64, u64) {
        let expired = clk.turn_spend(t(secs));
        (
            expired,
            clk.main_remaining().as_secs(),
            clk.delay_remaining().as_secs(),
        )
    };

    clk.turn_start();
    assert_eq!(spend(&mut clk, 0), (false, 60, 10));
    assert_eq!(spend(&mut clk, 5), (false, 60, 5));
    assert_eq!(spend(&mut clk, 5), (false, 60, 0));
    assert_eq!(spend(&mut clk, 5), (false, 55, 0));
    assert_eq!(spend(&mut clk, 15), (false, 40, 0));
    assert_eq!(spend(&mut clk, 20), (false, 20, 0));
    assert_eq!(spend(&mut clk, 20), (true, 0, 0));
    assert_eq!(spend(&mut clk, 20), (true, 0, 0));
}

#[test]
fn test_fischer() {
    let t = Duration::from_secs;

    let mut clk = FischerClock::new(FischerConfig::new(1, 10));

    let spend = |clk: &mut FischerClock, secs| -> (bool, u64) {
        let expired = clk.turn_spend(t(secs));
        (expired, clk.main_remaining().as_secs())
    };

    clk.turn_start();
    assert_eq!(spend(&mut clk, 0), (false, 60));
    assert_eq!(spend(&mut clk, 5), (false, 55));
    assert_eq!(spend(&mut clk, 15), (false, 40));
    assert_eq!(spend(&mut clk, 20), (false, 20));
    clk.turn_end();
    assert_eq!(clk.main_remaining(), t(30));
    clk.turn_start();
    assert_eq!(spend(&mut clk, 20), (false, 10));
    assert_eq!(spend(&mut clk, 20), (true, 0));

    let mut clk = FischerClock::new(FischerConfig {
        initial: t(60),
        increment: t(10),
        limit: Some(t(70)),
    });

    clk.turn_start();
    assert_eq!(spend(&mut clk, 5), (false, 55));
    clk.turn_end();
    clk.turn_start();
    assert_eq!(spend(&mut clk, 5), (false, 60));
    clk.turn_end();
    clk.turn_start();
    assert_eq!(spend(&mut clk, 5), (false, 65));
    clk.turn_end();
    clk.turn_start();
    assert_eq!(spend(&mut clk, 5), (false, 65));
    clk.turn_end();
}

#[test]
fn test_bronstein() {
    let t = Duration::from_secs;

    let mut clk = BronsteinClock::new(BronsteinConfig::new(1, 10));

    let spend = |clk: &mut BronsteinClock, secs| -> (bool, u64) {
        let expired = clk.turn_spend(t(secs));
        (expired, clk.main_remaining().as_secs())
    };

    assert_eq!(clk.main_remaining(), t(60));
    clk.turn_start();
    assert_eq!(spend(&mut clk, 5), (false, 55));
    clk.turn_end();
    assert_eq!(clk.main_remaining(), t(60));
    clk.turn_start();
    assert_eq!(spend(&mut clk, 20), (false, 40));
    clk.turn_end();
    assert_eq!(clk.main_remaining(), t(50));
    clk.turn_start();
    assert_eq!(spend(&mut clk, 5), (false, 45));
    clk.turn_end();
    assert_eq!(clk.main_remaining(), t(50));
    clk.turn_start();
    assert_eq!(spend(&mut clk, 20), (false, 30));
    assert_eq!(spend(&mut clk, 20), (false, 10));
    assert_eq!(spend(&mut clk, 20), (true, 0));
    clk.turn_end();
    assert_eq!(clk.main_remaining(), t(0));
}

#[test]
fn test_byo_yomi() {
    let t = Duration::from_secs;

    // 1:00 +3x10
    let mut clk = ByoYomiClock::new(ByoYomiConfig::new(1, 3, 10));

    let info = |clk: &ByoYomiClock| -> (u64, u64, usize) {
        (
            clk.main_remaining().as_secs(),
            clk.this_period_remaining().as_secs(),
            clk.unused_periods(),
        )
    };
    let spend = |clk: &mut ByoYomiClock, secs| -> (bool, u64, u64, usize) {
        let expired = clk.turn_spend(t(secs));
        (
            expired,
            clk.main_remaining().as_secs(),
            clk.this_period_remaining().as_secs(),
            clk.unused_periods(),
        )
    };

    assert_eq!(info(&clk), (60, 0, 3));
    clk.turn_start();
    assert_eq!(info(&clk), (60, 0, 3));
    assert_eq!(spend(&mut clk, 20), (false, 40, 0, 3));
    assert_eq!(spend(&mut clk, 20), (false, 20, 0, 3));
    assert_eq!(spend(&mut clk, 20), (false, 0, 10, 2));
    assert_eq!(spend(&mut clk, 5), (false, 0, 5, 2));
    assert_eq!(spend(&mut clk, 5), (false, 0, 10, 1));
    assert_eq!(spend(&mut clk, 5), (false, 0, 5, 1));
    clk.turn_end();
    assert_eq!(info(&clk), (0, 0, 2));
    clk.turn_start();
    assert_eq!(info(&clk), (0, 10, 1));
    assert_eq!(spend(&mut clk, 10), (false, 0, 10, 0));
    assert_eq!(spend(&mut clk, 10), (true, 0, 0, 0));
    assert_eq!(spend(&mut clk, 10), (true, 0, 0, 0));
}

#[test]
fn test_show_countdown_with_minutes() {
    let t = |n: u64| ShowCountdown::with_minutes(Duration::from_millis(n)).to_string();

    assert_eq!(t(90_000), "1:30");
    assert_eq!(t(89_100), "1:30");
    assert_eq!(t(61_000), "1:01");
    assert_eq!(t(59_999), "1:00");
    assert_eq!(t(59_000), "0:59");

    assert_eq!(t(10_000), "0:10");
    assert_eq!(t(9_900), "0:10");
    assert_eq!(t(9_800), "0:10");
    assert_eq!(t(9_200), "0:10");
    assert_eq!(t(9_100), "0:10");
    assert_eq!(t(9_050), "0:10");
    assert_eq!(t(9_000), "9.0s");
    assert_eq!(t(8_950), "9.0s");
    assert_eq!(t(8_900), "8.9s");
    assert_eq!(t(1_110), "1.2s");
    assert_eq!(t(0), "0.0s");
}

#[test]
fn test_show_countdown_without_minutes() {
    let t = |n: u64| ShowCountdown::without_minutes(Duration::from_millis(n)).to_string();

    assert_eq!(t(90_000), "90s");
    assert_eq!(t(89_100), "90s");
    assert_eq!(t(61_000), "61s");
    assert_eq!(t(59_999), "60s");
    assert_eq!(t(59_000), "59s");

    assert_eq!(t(10_000), "10s");
    assert_eq!(t(9_900), "10s");
    assert_eq!(t(9_800), "10s");
    assert_eq!(t(9_200), "10s");
    assert_eq!(t(9_100), "10s");
    assert_eq!(t(9_050), "10s");
    assert_eq!(t(9_000), "9.0s");
    assert_eq!(t(8_950), "9.0s");
    assert_eq!(t(8_900), "8.9s");
    assert_eq!(t(1_110), "1.2s");
    assert_eq!(t(0), "0.0s");
}
