use cts_lib::candle_counter::{
    Candle, CandleCounter, TradeLog, ViewCandlesQuest, ViewCandlesSegmentLength, create_candles, create_view_volume_stats,
};

const MINUTE: u128 = 60_000_000_000;

fn trade(t: u128, cycles: u128, tokens: u128, rate: u128) -> TradeLog {
    TradeLog { timestamp_nanos: t, cycles, tokens, cycles_per_token_rate: rate }
}

fn counter() -> CandleCounter {
    let mut cc = CandleCounter::new();
    cc.count_trade(&trade(MINUTE, 100, 10, 10));
    cc.count_trade(&trade(MINUTE + MINUTE / 2, 50, 5, 12));
    cc.count_trade(&trade(3 * MINUTE, 20, 1, 20));
    cc
}

fn candle(t: u128, vc: u128, vt: u128, o: u128, h: u128, l: u128, c: u128) -> Candle {
    Candle { time_nanos: t as u64, volume_cycles: vc, volume_tokens: vt, open_rate: o, high_rate: h, low_rate: l, close_rate: c }
}

#[test]
fn trades_make_one_minute_candles() {
    let cc = counter();
    assert_eq!(cc.latest_1_minute(), candle(3 * MINUTE, 20, 1, 20, 20, 20, 20));
    assert_eq!(*cc.segments_1_minute(), vec![candle(MINUTE, 150, 15, 10, 12, 10, 12)]);
    assert_eq!(cc.volumes(), (170, 16));
}

#[test]
fn candles_of_one_minute_and_of_five_minutes() {
    let cc = counter();
    let one = create_candles(&cc, ViewCandlesQuest { segment_length: ViewCandlesSegmentLength::OneMinute, opt_start_before_time_nanos: None });
    assert_eq!(one, vec![candle(MINUTE, 150, 15, 10, 12, 10, 12), candle(3 * MINUTE, 20, 1, 20, 20, 20, 20)]);
    let five = create_candles(&cc, ViewCandlesQuest { segment_length: ViewCandlesSegmentLength::FiveMinute, opt_start_before_time_nanos: None });
    assert_eq!(five, vec![candle(0, 170, 16, 10, 20, 10, 20)]);
    let before = create_candles(&cc, ViewCandlesQuest {
        segment_length: ViewCandlesSegmentLength::OneMinute,
        opt_start_before_time_nanos: Some((2 * MINUTE) as u64),
    });
    assert_eq!(before, vec![candle(MINUTE, 150, 15, 10, 12, 10, 12)]);
    for w in one.windows(2) {
        assert!(w[0].time_nanos < w[1].time_nanos);
    }
}

#[test]
fn volume_stats_count_the_last_day() {
    let cc = counter();
    let stats = create_view_volume_stats(&cc, (200 * 1_000_000_000u128) as u64);
    assert_eq!(stats.volume_cycles.volume_24_hour, 170);
    assert_eq!(stats.volume_tokens.volume_24_hour, 16);
    assert_eq!(stats.volume_cycles.volume_sum, 170);
    let later = create_view_volume_stats(&cc, (3 * MINUTE + 86_400_000_000_000) as u64);
    assert_eq!(later.volume_cycles.volume_24_hour, 20);
    assert_eq!(later.volume_cycles.volume_7_day, 170);
}

#[test]
fn segment_lengths_in_minutes() {
    assert_eq!(ViewCandlesSegmentLength::OneWeek.minutes(), 10080);
    assert_eq!(ViewCandlesSegmentLength::FifteenMinute.minutes(), 15);
}

#[test]
fn a_span_candle_adds_up_its_minutes_to_the_largest_number() {
    let mut cc = CandleCounter::new();
    cc.count_trade(&trade(MINUTE, u128::MAX - 5, 1, 7));
    cc.count_trade(&trade(2 * MINUTE, 10, 1, 3));
    cc.count_trade(&trade(6 * MINUTE, 1, 1, 9));
    let five = create_candles(&cc, ViewCandlesQuest {
        segment_length: ViewCandlesSegmentLength::FiveMinute,
        opt_start_before_time_nanos: Some((6 * MINUTE) as u64),
    });
    assert_eq!(five, vec![candle(0, u128::MAX, 2, 7, 7, 3, 3)]);
}
