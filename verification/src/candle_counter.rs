use vstd::prelude::*;
use crate::consts::{NANOS_IN_A_SECOND, SECONDS_IN_A_MINUTE, SECONDS_IN_A_DAY};
use crate::tools::{Cycles, Tokens};
use crate::types::cycles_market::tc::CyclesPerToken;

verus! {

/// The most candles that one answer holds: one and a half mebibytes of candles of 112 bytes.
pub const MAX_CANDLES_SPONSE: usize = 14043;

/// The trading of one span of time: its start, the volumes traded in it, and the rates at
/// which it opened, rose highest, fell lowest and closed.
#[derive(Clone, Copy, Debug, PartialEq, Eq, Structural)]
pub struct Candle {
    pub time_nanos: u64,
    pub volume_cycles: Cycles,
    pub volume_tokens: Tokens,
    pub open_rate: CyclesPerToken,
    pub high_rate: CyclesPerToken,
    pub low_rate: CyclesPerToken,
    pub close_rate: CyclesPerToken,
}

impl Candle {
    /// The candle with all fields zero.
    pub fn zero() -> (c: Candle)
        ensures
            c == spec_zero_candle(),
    {
        Candle {
            time_nanos: 0,
            volume_cycles: 0,
            volume_tokens: 0,
            open_rate: 0,
            high_rate: 0,
            low_rate: 0,
            close_rate: 0,
        }
    }
}

/// The candle with all fields zero.
pub open spec fn spec_zero_candle() -> Candle {
    Candle {
        time_nanos: 0,
        volume_cycles: 0,
        volume_tokens: 0,
        open_rate: 0,
        high_rate: 0,
        low_rate: 0,
        close_rate: 0,
    }
}

/// One trade: when it was made, the cycles and tokens that changed hands, and its rate.
pub struct TradeLog {
    pub timestamp_nanos: u128,
    pub cycles: Cycles,
    pub tokens: Tokens,
    pub cycles_per_token_rate: CyclesPerToken,
}

/// The span of time of the candles of an answer.
#[derive(Clone, Copy, Debug, PartialEq, Eq, Structural)]
pub enum ViewCandlesSegmentLength {
    OneMinute,
    FiveMinute,
    FifteenMinute,
    ThirtyMinute,
    OneHour,
    TwoHour,
    SixHour,
    TwelveHour,
    OneDay,
    OneWeek,
}

/// The minutes in a span of time.
pub open spec fn spec_segment_minutes(l: ViewCandlesSegmentLength) -> u64 {
    match l {
        ViewCandlesSegmentLength::OneMinute => 1,
        ViewCandlesSegmentLength::FiveMinute => 5,
        ViewCandlesSegmentLength::FifteenMinute => 15,
        ViewCandlesSegmentLength::ThirtyMinute => 30,
        ViewCandlesSegmentLength::OneHour => 60,
        ViewCandlesSegmentLength::TwoHour => 120,
        ViewCandlesSegmentLength::SixHour => 360,
        ViewCandlesSegmentLength::TwelveHour => 720,
        ViewCandlesSegmentLength::OneDay => 1440,
        ViewCandlesSegmentLength::OneWeek => 10080,
    }
}

impl ViewCandlesSegmentLength {
    /// The minutes in this span of time.
    pub fn minutes(&self) -> (m: u64)
        ensures
            m == spec_segment_minutes(*self),
            1 <= m <= 10080,
    {
        match self {
            ViewCandlesSegmentLength::OneMinute => 1,
            ViewCandlesSegmentLength::FiveMinute => 5,
            ViewCandlesSegmentLength::FifteenMinute => 15,
            ViewCandlesSegmentLength::ThirtyMinute => 30,
            ViewCandlesSegmentLength::OneHour => 60,
            ViewCandlesSegmentLength::TwoHour => 120,
            ViewCandlesSegmentLength::SixHour => 360,
            ViewCandlesSegmentLength::TwelveHour => 720,
            ViewCandlesSegmentLength::OneDay => 1440,
            ViewCandlesSegmentLength::OneWeek => 10080,
        }
    }
}

/// A request for candles of a span of time, before a time where one is given.
pub struct ViewCandlesQuest {
    pub segment_length: ViewCandlesSegmentLength,
    pub opt_start_before_time_nanos: Option<u64>,
}

/// The nanoseconds in a span of time.
pub open spec fn spec_segment_nanos(l: ViewCandlesSegmentLength) -> int {
    NANOS_IN_A_SECOND * SECONDS_IN_A_MINUTE * spec_segment_minutes(l)
}

/// The start of the span of time of the given length that holds the time `t`.
pub open spec fn spec_segment_start(l: ViewCandlesSegmentLength, t: u64) -> u64 {
    (t - (t as int) % spec_segment_nanos(l)) as u64
}

/// The start of the span of time of the given length that holds the time `time_nanos`.
fn segment_start_time_nanos(segment_length: ViewCandlesSegmentLength, time_nanos: u64) -> (start: u64)
    ensures
        start == spec_segment_start(segment_length, time_nanos),
        start <= time_nanos,
{
    let m: u64 = segment_length.minutes();
    let nanos: u64 = NANOS_IN_A_SECOND as u64;
    let seconds: u64 = SECONDS_IN_A_MINUTE as u64;
    assert(nanos == 1_000_000_000 && seconds == 60);
    let nanos_in_a_minute: u64 = nanos * seconds;
    let period: u64 = nanos_in_a_minute * m;
    assert(period > 0 && period == spec_segment_nanos(segment_length)) by (nonlinear_arith)
        requires period == 60_000_000_000 * m, m >= 1, m == spec_segment_minutes(segment_length);
    assert(time_nanos % period <= time_nanos) by (nonlinear_arith)
        requires period > 0;
    time_nanos.saturating_sub(time_nanos % period)
}

/// The candle `c` moved to start at the time `t`.
pub open spec fn with_time(c: Candle, t: u64) -> Candle {
    Candle {
        time_nanos: t,
        volume_cycles: c.volume_cycles,
        volume_tokens: c.volume_tokens,
        open_rate: c.open_rate,
        high_rate: c.high_rate,
        low_rate: c.low_rate,
        close_rate: c.close_rate,
    }
}

/// The candle that a first trade opens at the time `t`.
pub open spec fn spec_trade_candle(t: u64, tl: TradeLog) -> Candle {
    Candle {
        time_nanos: t,
        volume_cycles: tl.cycles,
        volume_tokens: tl.tokens,
        open_rate: tl.cycles_per_token_rate,
        high_rate: tl.cycles_per_token_rate,
        low_rate: tl.cycles_per_token_rate,
        close_rate: tl.cycles_per_token_rate,
    }
}

/// The larger of two rates.
pub open spec fn spec_max(a: u128, b: u128) -> u128 {
    if a >= b { a } else { b }
}

/// The smaller of two rates.
pub open spec fn spec_min(a: u128, b: u128) -> u128 {
    if a <= b { a } else { b }
}

/// The candle `c` after one more trade in its span of time.
pub open spec fn spec_add_trade(c: Candle, tl: TradeLog) -> Candle {
    Candle {
        time_nanos: c.time_nanos,
        volume_cycles: c.volume_cycles.saturating_add(tl.cycles),
        volume_tokens: c.volume_tokens.saturating_add(tl.tokens),
        open_rate: c.open_rate,
        high_rate: spec_max(c.high_rate, tl.cycles_per_token_rate),
        low_rate: spec_min(c.low_rate, tl.cycles_per_token_rate),
        close_rate: tl.cycles_per_token_rate,
    }
}

/// The candle `c1` is the candle `c0` of the current minute after the trade `tl`: the same
/// minute and opening rate, the volumes of the trade added (up to the largest number), a high
/// that is the higher of the old high and the trade's rate, a low that is the lower of the old
/// low and the trade's rate, and the trade's rate as the close.
pub open spec fn spec_trade_counted_in(c0: Candle, tl: TradeLog, c1: Candle) -> bool {
    let rate = tl.cycles_per_token_rate;
    &&& c1.time_nanos == c0.time_nanos
    &&& c1.open_rate == c0.open_rate
    &&& c1.volume_cycles == spec_capped_sum(c0.volume_cycles as int + tl.cycles as int)
    &&& c1.volume_tokens == spec_capped_sum(c0.volume_tokens as int + tl.tokens as int)
    &&& c1.high_rate >= c0.high_rate && c1.high_rate >= rate && (c1.high_rate == c0.high_rate || c1.high_rate == rate)
    &&& c1.low_rate <= c0.low_rate && c1.low_rate <= rate && (c1.low_rate == c0.low_rate || c1.low_rate == rate)
    &&& c1.close_rate == rate
}

/// A count, or the largest number where it does not fit.
pub open spec fn spec_capped_sum(x: int) -> u128 {
    if x > u128::MAX { u128::MAX } else { x as u128 }
}

/// A trade in the current minute is counted into its candle: the high is never lowered and
/// reaches the trade's rate, the low is never raised and reaches down to the trade's rate, the
/// volumes are added, and the trade's rate is the close.
pub proof fn lemma_a_trade_is_counted_in_its_minute(c: Candle, tl: TradeLog)
    ensures
        spec_trade_counted_in(c, tl, spec_add_trade(c, tl)),
{
}

/// The candles of complete minutes go up strictly in time, and all come before the current
/// minute.
pub open spec fn candles_sorted(segments: Seq<Candle>, latest: Candle) -> bool {
    &&& forall|i: int, j: int|
        0 <= i < j < segments.len() ==> (#[trigger] segments[i]).time_nanos < (#[trigger] segments[j]).time_nanos
    &&& forall|i: int| 0 <= i < segments.len() ==> (#[trigger] segments[i]).time_nanos < latest.time_nanos
}

/// The trading of a market, one candle per minute, with the volumes of all time.
pub struct CandleCounter {
    latest_1_minute: Candle,
    segments_1_minute: Vec<Candle>,
    volume_cycles: Cycles,
    volume_tokens: Tokens,
}

impl CandleCounter {
    #[verifier::type_invariant]
    spec fn inv(self) -> bool {
        candles_sorted(self.segments_1_minute@, self.latest_1_minute)
    }

    /// The candle of the current minute.
    pub closed spec fn spec_latest(&self) -> Candle {
        self.latest_1_minute
    }

    /// The candles of the complete minutes, oldest first.
    pub closed spec fn spec_segments(&self) -> Seq<Candle> {
        self.segments_1_minute@
    }

    /// The cycles traded in all time.
    pub closed spec fn spec_volume_cycles(&self) -> u128 {
        self.volume_cycles
    }

    /// The tokens traded in all time.
    pub closed spec fn spec_volume_tokens(&self) -> u128 {
        self.volume_tokens
    }

    /// A counter of a market with no trades.
    pub fn new() -> (cc: CandleCounter)
        ensures
            cc.spec_latest() == spec_zero_candle(),
            cc.spec_segments() == Seq::<Candle>::empty(),
            cc.spec_volume_cycles() == 0,
            cc.spec_volume_tokens() == 0,
    {
        CandleCounter {
            latest_1_minute: Candle::zero(),
            segments_1_minute: Vec::new(),
            volume_cycles: 0,
            volume_tokens: 0,
        }
    }

    /// A counter made of its parts, where the candles are in order; `None` where they are not.
    pub fn from_parts(latest_1_minute: Candle, segments_1_minute: Vec<Candle>, volume_cycles: Cycles, volume_tokens: Tokens) -> (r: Option<CandleCounter>)
        ensures
            match r {
                Some(cc) => {
                    &&& candles_sorted(segments_1_minute@, latest_1_minute)
                    &&& cc.spec_latest() == latest_1_minute
                    &&& cc.spec_segments() == segments_1_minute@
                    &&& cc.spec_volume_cycles() == volume_cycles
                    &&& cc.spec_volume_tokens() == volume_tokens
                },
                None => !candles_sorted(segments_1_minute@, latest_1_minute),
            },
    {
        let n: usize = segments_1_minute.len();
        let mut i: usize = 0;
        while i < n
            invariant
                n == segments_1_minute@.len(),
                i <= n,
                forall|a: int, b: int| 0 <= a < b < i ==> (#[trigger] segments_1_minute@[a]).time_nanos < (#[trigger] segments_1_minute@[b]).time_nanos,
                forall|a: int| 0 <= a < i ==> (#[trigger] segments_1_minute@[a]).time_nanos < latest_1_minute.time_nanos,
            decreases n - i,
        {
            if segments_1_minute[i].time_nanos >= latest_1_minute.time_nanos {
                return None;
            }
            if i > 0 && segments_1_minute[i - 1].time_nanos >= segments_1_minute[i].time_nanos {
                return None;
            }
            i = i + 1;
        }
        Some(CandleCounter { latest_1_minute, segments_1_minute, volume_cycles, volume_tokens })
    }

    /// The candle of the current minute.
    pub fn latest_1_minute(&self) -> (c: Candle)
        ensures
            c == self.spec_latest(),
    {
        self.latest_1_minute
    }

    /// The candles of the complete minutes, oldest first.
    pub fn segments_1_minute(&self) -> (s: &Vec<Candle>)
        ensures
            s@ == self.spec_segments(),
            candles_sorted(self.spec_segments(), self.spec_latest()),
    {
        proof {
            use_type_invariant(self);
        }
        &self.segments_1_minute
    }

    /// The cycles and the tokens traded in all time.
    pub fn volumes(&self) -> (v: (Cycles, Tokens))
        ensures
            v == (self.spec_volume_cycles(), self.spec_volume_tokens()),
    {
        (self.volume_cycles, self.volume_tokens)
    }

    /// Counts one trade. A trade in a later minute than the current candle closes that candle
    /// (kept, unless it is the empty start candle of time zero) and opens a new one; a trade in
    /// the same minute or an earlier one is added to the current candle. The volumes of all
    /// time grow by the trade, stopping at the largest number.
    pub fn count_trade(&mut self, tl: &TradeLog)
        ensures
            ({
                let seg = spec_segment_start(ViewCandlesSegmentLength::OneMinute, tl.timestamp_nanos as u64);
                if old(self).spec_latest().time_nanos < seg {
                    &&& final(self).spec_latest() == spec_trade_candle(seg, *tl)
                    &&& final(self).spec_latest().time_nanos == seg
                    &&& final(self).spec_latest().volume_cycles == tl.cycles
                    &&& final(self).spec_latest().volume_tokens == tl.tokens
                    &&& final(self).spec_latest().open_rate == tl.cycles_per_token_rate
                    &&& final(self).spec_latest().high_rate == tl.cycles_per_token_rate
                    &&& final(self).spec_latest().low_rate == tl.cycles_per_token_rate
                    &&& final(self).spec_latest().close_rate == tl.cycles_per_token_rate
                    &&& final(self).spec_segments() == if old(self).spec_latest().time_nanos != 0 {
                        old(self).spec_segments().push(old(self).spec_latest())
                    } else {
                        old(self).spec_segments()
                    }
                } else {
                    &&& final(self).spec_latest() == spec_add_trade(old(self).spec_latest(), *tl)
                    &&& spec_trade_counted_in(old(self).spec_latest(), *tl, final(self).spec_latest())
                    &&& final(self).spec_segments() == old(self).spec_segments()
                }
            }),
            final(self).spec_volume_cycles() == old(self).spec_volume_cycles().saturating_add(tl.cycles),
            final(self).spec_volume_tokens() == old(self).spec_volume_tokens().saturating_add(tl.tokens),
    {
        proof {
            use_type_invariant(&*self);
        }
        let current_segment_start_time_nanos: u64 = segment_start_time_nanos(
            ViewCandlesSegmentLength::OneMinute,
            #[verifier::truncate] (tl.timestamp_nanos as u64),
        );
        let latest: Candle = self.latest_1_minute;
        let mut segments: Vec<Candle> = Vec::new();
        std::mem::swap(&mut segments, &mut self.segments_1_minute);
        let new_latest: Candle;
        if latest.time_nanos < current_segment_start_time_nanos {
            new_latest = Candle {
                time_nanos: current_segment_start_time_nanos,
                volume_cycles: tl.cycles,
                volume_tokens: tl.tokens,
                open_rate: tl.cycles_per_token_rate,
                high_rate: tl.cycles_per_token_rate,
                low_rate: tl.cycles_per_token_rate,
                close_rate: tl.cycles_per_token_rate,
            };
            if latest.time_nanos != 0 {
                segments.push(latest);
            }
        } else {
            new_latest = Candle {
                time_nanos: latest.time_nanos,
                volume_cycles: latest.volume_cycles.saturating_add(tl.cycles),
                volume_tokens: latest.volume_tokens.saturating_add(tl.tokens),
                open_rate: latest.open_rate,
                high_rate: if latest.high_rate >= tl.cycles_per_token_rate { latest.high_rate } else { tl.cycles_per_token_rate },
                low_rate: if latest.low_rate <= tl.cycles_per_token_rate { latest.low_rate } else { tl.cycles_per_token_rate },
                close_rate: tl.cycles_per_token_rate,
            };
        }
        *self = CandleCounter {
            latest_1_minute: new_latest,
            segments_1_minute: segments,
            volume_cycles: self.volume_cycles.saturating_add(tl.cycles),
            volume_tokens: self.volume_tokens.saturating_add(tl.tokens),
        };
    }
}

impl Default for CandleCounter {
    fn default() -> (cc: CandleCounter)
        ensures
            cc.spec_latest() == spec_zero_candle(),
            cc.spec_segments() == Seq::<Candle>::empty(),
            cc.spec_volume_cycles() == 0,
            cc.spec_volume_tokens() == 0,
    {
        CandleCounter::new()
    }
}

/// `i` splits the candles into those before the time `t` and those at it or after.
pub open spec fn is_cut(s: Seq<Candle>, t: u64, i: int) -> bool {
    &&& 0 <= i <= s.len()
    &&& forall|j: int| 0 <= j < i ==> (#[trigger] s[j]).time_nanos < t
    &&& forall|j: int| i <= j < s.len() ==> (#[trigger] s[j]).time_nanos >= t
}

/// The number of candles before the time `t`, in a list that is in order.
pub open spec fn spec_cut(s: Seq<Candle>, t: u64) -> int {
    choose|i: int| is_cut(s, t, i)
}

/// A list in order has a place that splits it at any time.
pub proof fn lemma_cut_exists(s: Seq<Candle>, t: u64)
    requires
        forall|a: int, b: int| 0 <= a < b < s.len() ==> (#[trigger] s[a]).time_nanos < (#[trigger] s[b]).time_nanos,
    ensures
        is_cut(s, t, spec_cut(s, t)),
    decreases s.len(),
{
    if s.len() == 0 {
        assert(is_cut(s, t, 0));
    } else if s.last().time_nanos < t {
        assert forall|j: int| 0 <= j < s.len() implies (#[trigger] s[j]).time_nanos < t by {
            if j < s.len() - 1 {
                assert(s[j].time_nanos < s[s.len() - 1].time_nanos);
            }
        }
        assert(is_cut(s, t, s.len() as int));
    } else {
        let d = s.drop_last();
        lemma_cut_exists(d, t);
        let i = spec_cut(d, t);
        assert forall|j: int| i <= j < s.len() implies (#[trigger] s[j]).time_nanos >= t by {
            if j < s.len() - 1 {
                assert(s[j] == d[j]);
            }
        }
        assert forall|j: int| 0 <= j < i implies (#[trigger] s[j]).time_nanos < t by {
            assert(s[j] == d[j]);
        }
        assert(is_cut(s, t, i));
    }
}

/// A list has at most one place that splits it at a time.
pub proof fn lemma_cut_unique(s: Seq<Candle>, t: u64, i: int)
    requires
        is_cut(s, t, i),
    ensures
        spec_cut(s, t) == i,
{
    let k = spec_cut(s, t);
    assert(is_cut(s, t, k));
    if k < i {
        assert(s[k].time_nanos >= t);
    }
    if i < k {
        assert(s[i].time_nanos >= t);
    }
}

/// The place that splits the sorted candles at the time `t`, found by halving.
fn partition_point(s: &Vec<Candle>, t: u64) -> (i: usize)
    requires
        forall|a: int, b: int| 0 <= a < b < s@.len() ==> (#[trigger] s@[a]).time_nanos < (#[trigger] s@[b]).time_nanos,
    ensures
        is_cut(s@, t, i as int),
        i as int == spec_cut(s@, t),
{
    let mut lo: usize = 0;
    let mut hi: usize = s.len();
    while lo < hi
        invariant
            0 <= lo <= hi <= s@.len(),
            forall|a: int, b: int| 0 <= a < b < s@.len() ==> (#[trigger] s@[a]).time_nanos < (#[trigger] s@[b]).time_nanos,
            forall|j: int| 0 <= j < lo ==> (#[trigger] s@[j]).time_nanos < t,
            forall|j: int| hi <= j < s@.len() ==> (#[trigger] s@[j]).time_nanos >= t,
        decreases hi - lo,
    {
        let mid: usize = lo + (hi - lo) / 2;
        if s[mid].time_nanos < t {
            assert forall|j: int| 0 <= j < mid + 1 implies (#[trigger] s@[j]).time_nanos < t by {
                if j < mid {
                    assert(s@[j].time_nanos < s@[mid as int].time_nanos);
                }
            }
            lo = mid + 1;
        } else {
            assert forall|j: int| mid <= j < s@.len() implies (#[trigger] s@[j]).time_nanos >= t by {
                if j > mid {
                    assert(s@[mid as int].time_nanos < s@[j].time_nanos);
                }
            }
            hi = mid;
        }
    }
    proof {
        lemma_cut_unique(s@, t, lo as int);
    }
    lo
}

/// The candle `c` moved to the start of its span of time.
pub open spec fn spec_calibrated(l: ViewCandlesSegmentLength, c: Candle) -> Candle {
    with_time(c, spec_segment_start(l, c.time_nanos))
}

/// The candle `newer` after taking in the earlier candle `older` of its span of time.
pub open spec fn spec_merge_older(newer: Candle, older: Candle) -> Candle {
    Candle {
        time_nanos: newer.time_nanos,
        volume_cycles: newer.volume_cycles.saturating_add(older.volume_cycles),
        volume_tokens: newer.volume_tokens.saturating_add(older.volume_tokens),
        open_rate: older.open_rate,
        high_rate: spec_max(newer.high_rate, older.high_rate),
        low_rate: spec_min(newer.low_rate, older.low_rate),
        close_rate: newer.close_rate,
    }
}

/// The candles `r`, newest first, after taking in the earlier one-minute candle `c`: it opens
/// an earlier candle where its span starts before the earliest candle so far, and is merged
/// into that candle otherwise.
pub open spec fn spec_step_back(l: ViewCandlesSegmentLength, r: Seq<Candle>, c: Candle) -> Seq<Candle> {
    let cs = spec_segment_start(l, c.time_nanos);
    if cs < r.last().time_nanos {
        r.push(with_time(c, cs))
    } else {
        r.update(r.len() - 1, spec_merge_older(r.last(), c))
    }
}

/// The candles `r`, newest first, after taking in the one-minute candles `s` from the latest
/// back, until there are as many candles as one answer holds.
pub open spec fn spec_fold_back(l: ViewCandlesSegmentLength, s: Seq<Candle>, r: Seq<Candle>) -> Seq<Candle>
    decreases s.len(),
{
    if s.len() == 0 || r.len() >= MAX_CANDLES_SPONSE {
        r
    } else {
        spec_fold_back(l, s.drop_last(), spec_step_back(l, r, s.last()))
    }
}

/// The one-minute candles that an answer draws on, and the candle of the current minute
/// where the answer holds it.
pub open spec fn spec_candles_source(latest: Candle, segments: Seq<Candle>, q: ViewCandlesQuest) -> (Seq<Candle>, Seq<Candle>) {
    let l = q.segment_length;
    match q.opt_start_before_time_nanos {
        Some(sb) => {
            let sbs = spec_segment_start(l, sb);
            (
                segments.take(spec_cut(segments, sbs)),
                if latest.time_nanos < sbs { seq![spec_calibrated(l, latest)] } else { Seq::empty() },
            )
        },
        None => (segments, seq![spec_calibrated(l, latest)]),
    }
}

/// The cycles traded in the candles `g`, all added up.
pub open spec fn spec_total_cycles(g: Seq<Candle>) -> int
    decreases g.len(),
{
    if g.len() == 0 { 0 } else { g[0].volume_cycles + spec_total_cycles(g.drop_first()) }
}

/// The tokens traded in the candles `g`, all added up.
pub open spec fn spec_total_tokens(g: Seq<Candle>) -> int
    decreases g.len(),
{
    if g.len() == 0 { 0 } else { g[0].volume_tokens + spec_total_tokens(g.drop_first()) }
}

/// The highest rate of the candles `g`.
pub open spec fn spec_highest(g: Seq<Candle>) -> u128
    decreases g.len(),
{
    if g.len() <= 1 { g[0].high_rate } else { spec_max(spec_highest(g.drop_first()), g[0].high_rate) }
}

/// The lowest rate of the candles `g`.
pub open spec fn spec_lowest(g: Seq<Candle>) -> u128
    decreases g.len(),
{
    if g.len() <= 1 { g[0].low_rate } else { spec_min(spec_lowest(g.drop_first()), g[0].low_rate) }
}

/// A count, or the largest number where it does not fit.
pub open spec fn spec_capped(x: int) -> u128 {
    if x > u128::MAX { u128::MAX } else { x as u128 }
}

/// The candle of one span of time, made of the one-minute candles `g` of that span, oldest
/// first: it starts where the span starts, its volumes are the volumes of `g` added up (the
/// largest number where they do not fit), it opens at the opening rate of the first candle and
/// closes at the closing rate of the last, and its high and low are the highest and lowest
/// rates of `g`.
pub open spec fn spec_span_candle(l: ViewCandlesSegmentLength, g: Seq<Candle>) -> Candle {
    Candle {
        time_nanos: spec_segment_start(l, g.last().time_nanos),
        volume_cycles: spec_capped(spec_total_cycles(g)),
        volume_tokens: spec_capped(spec_total_tokens(g)),
        open_rate: g[0].open_rate,
        high_rate: spec_highest(g),
        low_rate: spec_lowest(g),
        close_rate: g.last().close_rate,
    }
}

/// All the candles of `g` lie in one span of time.
pub open spec fn spec_one_span(l: ViewCandlesSegmentLength, g: Seq<Candle>) -> bool {
    forall|i: int| 0 <= i < g.len() ==> spec_segment_start(l, (#[trigger] g[i]).time_nanos) == spec_segment_start(l, g.last().time_nanos)
}

/// The candle of a span, taken back one candle: the candle of the span from `g[i - 1]` on is
/// the candle from `g[i]` on with `g[i - 1]` merged in as the older one.
proof fn lemma_span_candle_step(l: ViewCandlesSegmentLength, g: Seq<Candle>, i: int)
    requires
        1 <= i < g.len(),
    ensures
        spec_span_candle(l, g.skip(i - 1)) == spec_merge_older(spec_span_candle(l, g.skip(i)), g[i - 1]),
{
    let a = g.skip(i - 1);
    let b = g.skip(i);
    assert(a.drop_first() =~= b);
    assert(a[0] == g[i - 1]);
    assert(a.last() == g.last() && b.last() == g.last());
    assert(b.len() >= 1);
    let tc = spec_total_cycles(b);
    let tt = spec_total_tokens(b);
    assert(tc >= 0 && tt >= 0) by {
        lemma_totals_nonnegative(b);
    }
    assert(spec_total_cycles(a) == g[i - 1].volume_cycles + tc);
    assert(spec_total_tokens(a) == g[i - 1].volume_tokens + tt);
}

/// Volumes added up are never below zero.
proof fn lemma_totals_nonnegative(g: Seq<Candle>)
    ensures
        spec_total_cycles(g) >= 0,
        spec_total_tokens(g) >= 0,
    decreases g.len(),
{
    if g.len() > 0 {
        lemma_totals_nonnegative(g.drop_first());
    }
}

/// Folding back the candles before `i` onto the candle of the span from `i` on gives the one
/// candle of the whole span.
proof fn lemma_fold_back_one_span(l: ViewCandlesSegmentLength, g: Seq<Candle>, i: int)
    requires
        0 <= i < g.len(),
        spec_one_span(l, g),
    ensures
        spec_fold_back(l, g.take(i), seq![spec_span_candle(l, g.skip(i))]) == seq![spec_span_candle(l, g)],
    decreases i,
{
    if i == 0 {
        assert(g.skip(0) =~= g);
        assert(g.take(0).len() == 0);
    } else {
        let r = seq![spec_span_candle(l, g.skip(i))];
        let c = g[i - 1];
        let p = g.take(i);
        assert(p.last() == c);
        assert(p.drop_last() =~= g.take(i - 1));
        assert(spec_segment_start(l, c.time_nanos) == spec_segment_start(l, g.last().time_nanos));
        assert(g.skip(i).last() == g.last());
        assert(r.last().time_nanos == spec_segment_start(l, g.last().time_nanos));
        lemma_span_candle_step(l, g, i);
        assert(spec_step_back(l, r, c) =~= seq![spec_span_candle(l, g.skip(i - 1))]);
        lemma_fold_back_one_span(l, g, i - 1);
    }
}

/// The one-minute candles of one span of time, folded back from the latest as an answer of
/// candles of that length does it, make one candle: the candle of the span, with its volumes
/// added up, the first opening rate, the last closing rate, and the highest and lowest rates.
pub proof fn lemma_one_span_folds_into_its_candle(l: ViewCandlesSegmentLength, g: Seq<Candle>)
    requires
        g.len() > 0,
        spec_one_span(l, g),
    ensures
        spec_fold_back(l, g.drop_last(), seq![spec_calibrated(l, g.last())]) == seq![spec_span_candle(l, g)],
{
    let n = g.len() - 1;
    let x = g.last();
    assert(g.skip(n) =~= seq![x]);
    assert(g.take(n) =~= g.drop_last());
    assert(spec_total_cycles(seq![x].drop_first()) == 0);
    assert(spec_total_tokens(seq![x].drop_first()) == 0);
    assert(spec_span_candle(l, seq![x]) == spec_calibrated(l, x));
    lemma_fold_back_one_span(l, g, n);
}

/// The candles of an answer, oldest first.
pub open spec fn spec_create_candles(latest: Candle, segments: Seq<Candle>, q: ViewCandlesQuest) -> Seq<Candle> {
    let l = q.segment_length;
    let (s, init) = spec_candles_source(latest, segments, q);
    if s.len() == 0 {
        init
    } else if l == ViewCandlesSegmentLength::OneMinute && init.len() == 0 {
        s.skip(s.len() - if s.len() <= MAX_CANDLES_SPONSE { s.len() as int } else { MAX_CANDLES_SPONSE as int })
    } else if init.len() == 0 {
        spec_fold_back(l, s.drop_last(), seq![spec_calibrated(l, s.last())]).reverse()
    } else {
        spec_fold_back(l, s, init).reverse()
    }
}

/// The candle `c` moved to the start of its span of time.
fn calibrated(l: ViewCandlesSegmentLength, c: Candle) -> (r: Candle)
    ensures
        r == spec_calibrated(l, c),
{
    Candle {
        time_nanos: segment_start_time_nanos(l, c.time_nanos),
        volume_cycles: c.volume_cycles,
        volume_tokens: c.volume_tokens,
        open_rate: c.open_rate,
        high_rate: c.high_rate,
        low_rate: c.low_rate,
        close_rate: c.close_rate,
    }
}

/// The candles `r` in the other order.
fn reversed(r: &Vec<Candle>) -> (out: Vec<Candle>)
    ensures
        out@ == r@.reverse(),
{
    let mut out: Vec<Candle> = Vec::new();
    let mut i: usize = r.len();
    while i > 0
        invariant
            i <= r@.len(),
            out@.len() == r@.len() - i,
            forall|j: int| 0 <= j < out@.len() ==> #[trigger] out@[j] == r@[r@.len() - 1 - j],
        decreases i,
    {
        i = i - 1;
        out.push(r[i]);
    }
    assert(out@ =~= r@.reverse());
    out
}

/// Takes in the one-minute candles `segments[..end]` from the latest back, into the candles
/// `r`, newest first.
fn fold_back(l: ViewCandlesSegmentLength, segments: &Vec<Candle>, end: usize, r: &mut Vec<Candle>)
    requires
        end <= segments@.len(),
        1 <= old(r)@.len() <= MAX_CANDLES_SPONSE,
    ensures
        final(r)@ == spec_fold_back(l, segments@.take(end as int), old(r)@),
{
    let ghost target = spec_fold_back(l, segments@.take(end as int), old(r)@);
    let mut i: usize = end;
    while i > 0 && r.len() < MAX_CANDLES_SPONSE
        invariant
            i <= end <= segments@.len(),
            1 <= r@.len() <= MAX_CANDLES_SPONSE,
            spec_fold_back(l, segments@.take(i as int), r@) == target,
        decreases i,
    {
        let ghost before = r@;
        let c: Candle = segments[i - 1];
        let cs: u64 = segment_start_time_nanos(l, c.time_nanos);
        let last: usize = r.len() - 1;
        let front: Candle = r[last];
        if cs < front.time_nanos {
            r.push(Candle {
                time_nanos: cs,
                volume_cycles: c.volume_cycles,
                volume_tokens: c.volume_tokens,
                open_rate: c.open_rate,
                high_rate: c.high_rate,
                low_rate: c.low_rate,
                close_rate: c.close_rate,
            });
        } else {
            r.set(last, Candle {
                time_nanos: front.time_nanos,
                volume_cycles: front.volume_cycles.saturating_add(c.volume_cycles),
                volume_tokens: front.volume_tokens.saturating_add(c.volume_tokens),
                open_rate: c.open_rate,
                high_rate: if front.high_rate >= c.high_rate { front.high_rate } else { c.high_rate },
                low_rate: if front.low_rate <= c.low_rate { front.low_rate } else { c.low_rate },
                close_rate: front.close_rate,
            });
        }
        proof {
            let s = segments@.take(i as int);
            assert(s.drop_last() =~= segments@.take(i - 1));
            assert(s.last() == c);
            assert(r@ =~= spec_step_back(l, before, c));
        }
        i = i - 1;
    }
}

/// The candles of the spans of the given length, oldest first: the spans before the given
/// time where one is given, with the current minute where it comes before that time or no
/// time is given, and at most as many as one answer holds, the latest ones. One-minute candles
/// of complete minutes are handed out as they are kept.
pub fn create_candles(candle_counter: &CandleCounter, q: ViewCandlesQuest) -> (candles: Vec<Candle>)
    ensures
        candles@ == spec_create_candles(candle_counter.spec_latest(), candle_counter.spec_segments(), q),
{
    proof {
        use_type_invariant(candle_counter);
    }
    let segments: &Vec<Candle> = &candle_counter.segments_1_minute;
    let latest: Candle = candle_counter.latest_1_minute;
    let l: ViewCandlesSegmentLength = q.segment_length;
    let ghost src = spec_candles_source(latest, segments@, q);
    let mut r: Vec<Candle> = Vec::new();
    let end: usize;
    match q.opt_start_before_time_nanos {
        Some(sb) => {
            let sbs: u64 = segment_start_time_nanos(l, sb);
            end = partition_point(segments, sbs);
            if latest.time_nanos < sbs {
                r.push(calibrated(l, latest));
            }
        },
        None => {
            end = segments.len();
            r.push(calibrated(l, latest));
        },
    }
    proof {
        assert(src.0 =~= segments@.take(end as int));
        assert(src.1 =~= r@);
    }
    if end == 0 {
        return r;
    }
    if l == ViewCandlesSegmentLength::OneMinute && r.len() == 0 {
        let start: usize = if end <= MAX_CANDLES_SPONSE { 0 } else { end - MAX_CANDLES_SPONSE };
        let mut out: Vec<Candle> = Vec::new();
        let mut i: usize = start;
        while i < end
            invariant
                start <= i <= end <= segments@.len(),
                out@ =~= segments@.subrange(start as int, i as int),
            decreases end - i,
        {
            out.push(segments[i]);
            i = i + 1;
        }
        proof {
            assert(out@ =~= segments@.take(end as int).skip(start as int));
        }
        return out;
    }
    let mut rest_end: usize = end;
    if r.len() == 0 {
        r.push(calibrated(l, segments[end - 1]));
        rest_end = end - 1;
        proof {
            assert(segments@.take(end as int).drop_last() =~= segments@.take(rest_end as int));
        }
    }
    fold_back(l, segments, rest_end, &mut r);
    reversed(&r)
}

/// The cycles `start` with the cycles of the candles `s` added, stopping at the largest number.
pub open spec fn spec_sum_cycles(start: u128, s: Seq<Candle>) -> u128
    decreases s.len(),
{
    if s.len() == 0 {
        start
    } else {
        spec_sum_cycles(start, s.drop_last()).saturating_add(s.last().volume_cycles)
    }
}

/// The tokens `start` with the tokens of the candles `s` added, stopping at the largest number.
pub open spec fn spec_sum_tokens(start: u128, s: Seq<Candle>) -> u128
    decreases s.len(),
{
    if s.len() == 0 {
        start
    } else {
        spec_sum_tokens(start, s.drop_last()).saturating_add(s.last().volume_tokens)
    }
}

/// The volumes traded in the span of `length_nanos` nanoseconds up to `now_nanos`: the
/// candles that start within it, the current one included.
pub open spec fn spec_volume_in(latest: Candle, segments: Seq<Candle>, now_nanos: u64, length_nanos: u128) -> (u128, u128) {
    let start = now_nanos.saturating_sub(length_nanos as u64);
    let count: (u128, u128) = if latest.time_nanos >= start {
        (latest.volume_cycles, latest.volume_tokens)
    } else {
        (0, 0)
    };
    let s = segments.skip(spec_cut(segments, start));
    (spec_sum_cycles(count.0, s), spec_sum_tokens(count.1, s))
}

/// The cycles traded in the candles of `s` that start at or after the time `t`, all added up.
pub open spec fn spec_cycles_at_or_after(s: Seq<Candle>, t: u64) -> int
    decreases s.len(),
{
    if s.len() == 0 {
        0
    } else {
        spec_cycles_at_or_after(s.drop_last(), t) + if s.last().time_nanos >= t { s.last().volume_cycles as int } else { 0 }
    }
}

/// The tokens traded in the candles of `s` that start at or after the time `t`, all added up.
pub open spec fn spec_tokens_at_or_after(s: Seq<Candle>, t: u64) -> int
    decreases s.len(),
{
    if s.len() == 0 {
        0
    } else {
        spec_tokens_at_or_after(s.drop_last(), t) + if s.last().time_nanos >= t { s.last().volume_tokens as int } else { 0 }
    }
}

proof fn lemma_at_or_after_nonnegative(s: Seq<Candle>, t: u64)
    ensures
        spec_cycles_at_or_after(s, t) >= 0,
        spec_tokens_at_or_after(s, t) >= 0,
    decreases s.len(),
{
    if s.len() > 0 {
        lemma_at_or_after_nonnegative(s.drop_last(), t);
    }
}

/// Adding up with a stop at the largest number gives the sum, or the largest number where the
/// sum does not fit.
proof fn lemma_saturating_sums(x: u128, y: u128, s: Seq<Candle>)
    ensures
        spec_sum_cycles(x, s) == spec_capped_sum(x + spec_cycles_at_or_after(s, 0)),
        spec_sum_tokens(y, s) == spec_capped_sum(y + spec_tokens_at_or_after(s, 0)),
    decreases s.len(),
{
    if s.len() > 0 {
        lemma_saturating_sums(x, y, s.drop_last());
        lemma_at_or_after_nonnegative(s.drop_last(), 0);
    }
}

/// Where `c` cuts the list in order `s` at the time `t`, the candles at or after `t` are those
/// from `c` on.
proof fn lemma_at_or_after_is_the_rest(s: Seq<Candle>, t: u64, c: int)
    requires
        is_cut(s, t, c),
    ensures
        spec_cycles_at_or_after(s, t) == spec_cycles_at_or_after(s.skip(c), 0),
        spec_tokens_at_or_after(s, t) == spec_tokens_at_or_after(s.skip(c), 0),
    decreases s.len(),
{
    if s.len() == 0 {
        assert(s.skip(c) =~= Seq::<Candle>::empty());
    } else {
        let d = s.drop_last();
        if c == s.len() {
            assert(s[s.len() - 1].time_nanos < t);
            assert(is_cut(d, t, c - 1));
            lemma_at_or_after_is_the_rest(d, t, c - 1);
            assert(d.skip(c - 1) =~= Seq::<Candle>::empty());
            assert(s.skip(c) =~= Seq::<Candle>::empty());
        } else {
            assert(s[s.len() - 1].time_nanos >= t);
            assert(is_cut(d, t, c)) by {
                assert forall|j: int| 0 <= j < c implies (#[trigger] d[j]).time_nanos < t by {
                    assert(d[j] == s[j]);
                }
                assert forall|j: int| c <= j < d.len() implies (#[trigger] d[j]).time_nanos >= t by {
                    assert(d[j] == s[j]);
                }
            }
            lemma_at_or_after_is_the_rest(d, t, c);
            assert(s.skip(c).drop_last() =~= d.skip(c));
            assert(s.skip(c).last() == s.last());
        }
    }
}

/// The volume traded over a span of time up to `now_nanos` is the volume of exactly the
/// candles, the kept ones and the current one, that start at or after the start of the span,
/// all added up (the largest number where it does not fit). A counter whose candles are all
/// older than the span has traded nothing in it.
pub proof fn lemma_volume_in_counts_the_candles_of_the_span(latest: Candle, segments: Seq<Candle>, now_nanos: u64, length_nanos: u128)
    requires
        candles_sorted(segments, latest),
    ensures
        ({
            let start = now_nanos.saturating_sub(length_nanos as u64);
            let all = segments.push(latest);
            let v = spec_volume_in(latest, segments, now_nanos, length_nanos);
            &&& v.0 == spec_capped_sum(spec_cycles_at_or_after(all, start))
            &&& v.1 == spec_capped_sum(spec_tokens_at_or_after(all, start))
        }),
{
    let start = now_nanos.saturating_sub(length_nanos as u64);
    let all = segments.push(latest);
    lemma_cut_exists(segments, start);
    let c = spec_cut(segments, start);
    lemma_at_or_after_is_the_rest(segments, start, c);
    let x: u128 = if latest.time_nanos >= start { latest.volume_cycles } else { 0 };
    let y: u128 = if latest.time_nanos >= start { latest.volume_tokens } else { 0 };
    lemma_saturating_sums(x, y, segments.skip(c));
    assert(all.drop_last() =~= segments);
    assert(all.last() == latest);
}

/// Volumes traded over a day, a week, thirty days and all time.
pub struct Volume {
    pub volume_24_hour: u128,
    pub volume_7_day: u128,
    pub volume_30_day: u128,
    pub volume_sum: u128,
}

/// The volumes of cycles and of tokens.
pub struct ViewVolumeStatsSponse {
    pub volume_cycles: Volume,
    pub volume_tokens: Volume,
}

/// The volumes traded in the span of `length_nanos` nanoseconds up to `now_nanos`.
fn volume_in(candle_counter: &CandleCounter, now_nanos: u64, length_nanos: u128) -> (v: (u128, u128))
    requires
        length_nanos <= u64::MAX,
    ensures
        v == spec_volume_in(candle_counter.spec_latest(), candle_counter.spec_segments(), now_nanos, length_nanos),
{
    proof {
        use_type_invariant(candle_counter);
    }
    let segments: &Vec<Candle> = &candle_counter.segments_1_minute;
    let latest: Candle = candle_counter.latest_1_minute;
    let start: u64 = now_nanos.saturating_sub(length_nanos as u64);
    let mut count_cycles: u128;
    let mut count_tokens: u128;
    if latest.time_nanos >= start {
        count_cycles = latest.volume_cycles;
        count_tokens = latest.volume_tokens;
    } else {
        count_cycles = 0;
        count_tokens = 0;
    }
    let ghost c0 = count_cycles;
    let ghost t0 = count_tokens;
    let from: usize = partition_point(segments, start);
    let ghost s = segments@.skip(from as int);
    let mut i: usize = from;
    while i < segments.len()
        invariant
            from <= i <= segments@.len(),
            s == segments@.skip(from as int),
            count_cycles == spec_sum_cycles(c0, s.take(i - from)),
            count_tokens == spec_sum_tokens(t0, s.take(i - from)),
        decreases segments@.len() - i,
    {
        proof {
            assert(s.take(i - from + 1).drop_last() =~= s.take(i - from));
            assert(s.take(i - from + 1).last() == segments@[i as int]);
        }
        count_cycles = count_cycles.saturating_add(segments[i].volume_cycles);
        count_tokens = count_tokens.saturating_add(segments[i].volume_tokens);
        i = i + 1;
    }
    proof {
        assert(s.take(i - from) =~= s);
    }
    (count_cycles, count_tokens)
}

/// The volumes traded over the last day, week and thirty days up to `now_nanos`, and of all
/// time.
pub fn create_view_volume_stats(candle_counter: &CandleCounter, now_nanos: u64) -> (stats: ViewVolumeStatsSponse)
    ensures
        ({
            let latest = candle_counter.spec_latest();
            let segments = candle_counter.spec_segments();
            let day = spec_volume_in(latest, segments, now_nanos, (NANOS_IN_A_SECOND * SECONDS_IN_A_DAY * 1) as u128);
            let week = spec_volume_in(latest, segments, now_nanos, (NANOS_IN_A_SECOND * SECONDS_IN_A_DAY * 7) as u128);
            let month = spec_volume_in(latest, segments, now_nanos, (NANOS_IN_A_SECOND * SECONDS_IN_A_DAY * 30) as u128);
            &&& stats.volume_cycles.volume_24_hour == day.0
            &&& stats.volume_cycles.volume_7_day == week.0
            &&& stats.volume_cycles.volume_30_day == month.0
            &&& stats.volume_cycles.volume_sum == candle_counter.spec_volume_cycles()
            &&& stats.volume_tokens.volume_24_hour == day.1
            &&& stats.volume_tokens.volume_7_day == week.1
            &&& stats.volume_tokens.volume_30_day == month.1
            &&& stats.volume_tokens.volume_sum == candle_counter.spec_volume_tokens()
        }),
        ({
            let all = candle_counter.spec_segments().push(candle_counter.spec_latest());
            let day_start = now_nanos.saturating_sub((NANOS_IN_A_SECOND * SECONDS_IN_A_DAY * 1) as u64);
            let week_start = now_nanos.saturating_sub((NANOS_IN_A_SECOND * SECONDS_IN_A_DAY * 7) as u64);
            let month_start = now_nanos.saturating_sub((NANOS_IN_A_SECOND * SECONDS_IN_A_DAY * 30) as u64);
            &&& stats.volume_cycles.volume_24_hour == spec_capped_sum(spec_cycles_at_or_after(all, day_start))
            &&& stats.volume_cycles.volume_7_day == spec_capped_sum(spec_cycles_at_or_after(all, week_start))
            &&& stats.volume_cycles.volume_30_day == spec_capped_sum(spec_cycles_at_or_after(all, month_start))
            &&& stats.volume_tokens.volume_24_hour == spec_capped_sum(spec_tokens_at_or_after(all, day_start))
            &&& stats.volume_tokens.volume_7_day == spec_capped_sum(spec_tokens_at_or_after(all, week_start))
            &&& stats.volume_tokens.volume_30_day == spec_capped_sum(spec_tokens_at_or_after(all, month_start))
        }),
{
    proof {
        use_type_invariant(candle_counter);
        let latest = candle_counter.spec_latest();
        let segments = candle_counter.spec_segments();
        lemma_volume_in_counts_the_candles_of_the_span(latest, segments, now_nanos, (NANOS_IN_A_SECOND * SECONDS_IN_A_DAY * 1) as u128);
        lemma_volume_in_counts_the_candles_of_the_span(latest, segments, now_nanos, (NANOS_IN_A_SECOND * SECONDS_IN_A_DAY * 7) as u128);
        lemma_volume_in_counts_the_candles_of_the_span(latest, segments, now_nanos, (NANOS_IN_A_SECOND * SECONDS_IN_A_DAY * 30) as u128);
    }
    let (vc_24_hour, vt_24_hour) = volume_in(candle_counter, now_nanos, NANOS_IN_A_SECOND * SECONDS_IN_A_DAY * 1);
    let (vc_7_day, vt_7_day) = volume_in(candle_counter, now_nanos, NANOS_IN_A_SECOND * SECONDS_IN_A_DAY * 7);
    let (vc_30_day, vt_30_day) = volume_in(candle_counter, now_nanos, NANOS_IN_A_SECOND * SECONDS_IN_A_DAY * 30);
    ViewVolumeStatsSponse {
        volume_cycles: Volume {
            volume_24_hour: vc_24_hour,
            volume_7_day: vc_7_day,
            volume_30_day: vc_30_day,
            volume_sum: candle_counter.volume_cycles,
        },
        volume_tokens: Volume {
            volume_24_hour: vt_24_hour,
            volume_7_day: vt_7_day,
            volume_30_day: vt_30_day,
            volume_sum: candle_counter.volume_tokens,
        },
    }
}

/// The candles go strictly down in time.
pub open spec fn candles_descending(r: Seq<Candle>) -> bool {
    forall|i: int, j: int| 0 <= i < j < r.len() ==> (#[trigger] r[i]).time_nanos > (#[trigger] r[j]).time_nanos
}

/// The candles go strictly up in time.
pub open spec fn candles_ascending(r: Seq<Candle>) -> bool {
    forall|i: int, j: int| 0 <= i < j < r.len() ==> (#[trigger] r[i]).time_nanos < (#[trigger] r[j]).time_nanos
}

/// Taking in earlier candles keeps the candles going down in time and no more than an answer
/// holds.
proof fn lemma_fold_back_descending(l: ViewCandlesSegmentLength, s: Seq<Candle>, r: Seq<Candle>)
    requires
        1 <= r.len() <= MAX_CANDLES_SPONSE,
        candles_descending(r),
    ensures
        1 <= spec_fold_back(l, s, r).len() <= MAX_CANDLES_SPONSE,
        candles_descending(spec_fold_back(l, s, r)),
    decreases s.len(),
{
    if s.len() == 0 || r.len() >= MAX_CANDLES_SPONSE {
    } else {
        let r2 = spec_step_back(l, r, s.last());
        assert(candles_descending(r2)) by {
            let cs = spec_segment_start(l, s.last().time_nanos);
            if cs < r.last().time_nanos {
                assert forall|i: int, j: int| 0 <= i < j < r2.len() implies (#[trigger] r2[i]).time_nanos > (#[trigger] r2[j]).time_nanos by {
                    if j == r.len() {
                        if i < r.len() - 1 {
                            assert(r[i].time_nanos > r[r.len() - 1].time_nanos);
                        }
                    }
                }
            } else {
                assert forall|i: int, j: int| 0 <= i < j < r2.len() implies (#[trigger] r2[i]).time_nanos > (#[trigger] r2[j]).time_nanos by {
                    assert(r2[i].time_nanos == r[i].time_nanos);
                    assert(r2[j].time_nanos == r[j].time_nanos);
                }
            }
        }
        lemma_fold_back_descending(l, s.drop_last(), r2);
    }
}

/// An answer holds at most as many candles as one answer may, and they go strictly up in
/// time.
pub proof fn lemma_create_candles_bounded_and_ascending(latest: Candle, segments: Seq<Candle>, q: ViewCandlesQuest)
    requires
        candles_sorted(segments, latest),
    ensures
        spec_create_candles(latest, segments, q).len() <= MAX_CANDLES_SPONSE,
        candles_ascending(spec_create_candles(latest, segments, q)),
{
    let l = q.segment_length;
    let (s, init) = spec_candles_source(latest, segments, q);
    let out = spec_create_candles(latest, segments, q);
    if let Some(sb) = q.opt_start_before_time_nanos {
        lemma_cut_exists(segments, spec_segment_start(l, sb));
    }
    if s.len() == 0 {
    } else if l == ViewCandlesSegmentLength::OneMinute && init.len() == 0 {
        let n = s.len() as int;
        let k = n - if s.len() <= MAX_CANDLES_SPONSE { n } else { MAX_CANDLES_SPONSE as int };
        assert(s.len() <= segments.len());
        assert forall|i: int, j: int| 0 <= i < j < out.len() implies (#[trigger] out[i]).time_nanos < (#[trigger] out[j]).time_nanos by {
            assert(out[i] == segments[k + i]);
            assert(out[j] == segments[k + j]);
        }
    } else {
        let r = if init.len() == 0 {
            spec_fold_back(l, s.drop_last(), seq![spec_calibrated(l, s.last())])
        } else {
            spec_fold_back(l, s, init)
        };
        if init.len() == 0 {
            lemma_fold_back_descending(l, s.drop_last(), seq![spec_calibrated(l, s.last())]);
        } else {
            lemma_fold_back_descending(l, s, init);
        }
        assert(out == r.reverse());
        assert forall|i: int, j: int| 0 <= i < j < out.len() implies (#[trigger] out[i]).time_nanos < (#[trigger] out[j]).time_nanos by {
            assert(out[i] == r[r.len() - 1 - i]);
            assert(out[j] == r[r.len() - 1 - j]);
        }
    }
}

/// The start of a span of time is no later than the time, and is the start of its own span.
pub proof fn lemma_segment_start_is_a_start(l: ViewCandlesSegmentLength, t: u64)
    ensures
        spec_segment_start(l, t) <= t,
        spec_segment_start(l, spec_segment_start(l, t)) == spec_segment_start(l, t),
{
    let p = spec_segment_nanos(l);
    let m = spec_segment_minutes(l) as int;
    assert(m >= 1);
    assert(p == 60_000_000_000 * m);
    let t0 = t as int;
    let q = t0 / p;
    let r = t0 % p;
    vstd::arithmetic::div_mod::lemma_fundamental_div_mod(t0, p);
    assert(0 <= r < p);
    assert(t0 - r == q * p) by (nonlinear_arith)
        requires t0 == p * q + r;
    assert(q >= 0) by (nonlinear_arith)
        requires t0 >= 0, t0 == p * q + r, 0 <= r < p, p > 0;
    vstd::arithmetic::div_mod::lemma_mod_multiples_basic(q, p);
    assert(spec_segment_start(l, t) == t0 - r);
    let s = spec_segment_start(l, t);
    assert((s as int) % p == 0);
}

/// Each candle of `r` starts at the start of a span of time of the length `l`, and that span
/// holds a candle of `src`.
pub open spec fn spec_spans_of(l: ViewCandlesSegmentLength, r: Seq<Candle>, src: Seq<Candle>) -> bool {
    forall|k: int| 0 <= k < r.len() ==> {
        &&& spec_segment_start(l, (#[trigger] r[k]).time_nanos) == r[k].time_nanos
        &&& exists|i: int| 0 <= i < src.len() && spec_segment_start(l, src[i].time_nanos) == r[k].time_nanos
    }
}

/// Folding back candles of `src` keeps the candles at the starts of spans that hold candles of
/// `src`.
proof fn lemma_fold_back_spans(l: ViewCandlesSegmentLength, s: Seq<Candle>, r: Seq<Candle>, src: Seq<Candle>)
    requires
        r.len() >= 1,
        spec_spans_of(l, r, src),
        forall|i: int| 0 <= i < s.len() ==> src.contains(#[trigger] s[i]),
    ensures
        spec_spans_of(l, spec_fold_back(l, s, r), src),
    decreases s.len(),
{
    if s.len() == 0 || r.len() >= MAX_CANDLES_SPONSE {
    } else {
        let c = s.last();
        assert(src.contains(s[s.len() - 1]));
        let cs = spec_segment_start(l, c.time_nanos);
        let r2 = spec_step_back(l, r, c);
        assert(spec_spans_of(l, r2, src)) by {
            if cs < r.last().time_nanos {
                lemma_segment_start_is_a_start(l, c.time_nanos);
                let i = choose|i: int| 0 <= i < src.len() && src[i] == c;
                assert forall|k: int| 0 <= k < r2.len() implies {
                    &&& spec_segment_start(l, (#[trigger] r2[k]).time_nanos) == r2[k].time_nanos
                    &&& exists|i: int| 0 <= i < src.len() && spec_segment_start(l, src[i].time_nanos) == r2[k].time_nanos
                } by {
                    if k < r.len() {
                        assert(r2[k] == r[k]);
                    } else {
                        assert(r2[k].time_nanos == cs);
                        assert(spec_segment_start(l, src[i].time_nanos) == cs);
                    }
                }
            } else {
                assert forall|k: int| 0 <= k < r2.len() implies {
                    &&& spec_segment_start(l, (#[trigger] r2[k]).time_nanos) == r2[k].time_nanos
                    &&& exists|i: int| 0 <= i < src.len() && spec_segment_start(l, src[i].time_nanos) == r2[k].time_nanos
                } by {
                    assert(r2[k].time_nanos == r[k].time_nanos);
                }
            }
        }
        assert forall|i: int| 0 <= i < s.drop_last().len() implies src.contains(#[trigger] s.drop_last()[i]) by {
            assert(s.drop_last()[i] == s[i]);
        }
        lemma_fold_back_spans(l, s.drop_last(), r2, src);
    }
}

/// The candles of an answer of spans longer than a minute each start at the start of a span,
/// and each span that they show holds a one-minute candle of the counter, a kept one or the
/// current one. With their times going strictly up
/// (`lemma_create_candles_bounded_and_ascending`), an answer has one candle for each span it
/// shows, and only for spans in which there was trading.
pub proof fn lemma_create_candles_one_per_span(latest: Candle, segments: Seq<Candle>, q: ViewCandlesQuest)
    requires
        candles_sorted(segments, latest),
        q.segment_length != ViewCandlesSegmentLength::OneMinute,
    ensures
        spec_spans_of(q.segment_length, spec_create_candles(latest, segments, q), segments.push(latest)),
{
    let l = q.segment_length;
    if let Some(sb) = q.opt_start_before_time_nanos {
        lemma_cut_exists(segments, spec_segment_start(l, sb));
    }
    let src = segments.push(latest);
    let (s, init) = spec_candles_source(latest, segments, q);
    let out = spec_create_candles(latest, segments, q);
    assert(s.len() <= segments.len());
    assert forall|i: int| 0 <= i < s.len() implies src.contains(#[trigger] s[i]) by {
        assert(s[i] == segments[i]);
        assert(src[i] == segments[i]);
    }
    assert(spec_spans_of(l, init, src)) by {
        if init.len() > 0 {
            lemma_segment_start_is_a_start(l, latest.time_nanos);
            assert(init[0] == spec_calibrated(l, latest));
            assert(src[segments.len() as int] == latest);
        }
    }
    if s.len() == 0 {
    } else {
        let r = if init.len() == 0 {
            let x = s.last();
            lemma_segment_start_is_a_start(l, x.time_nanos);
            assert(src.contains(s[s.len() - 1]));
            let r0 = seq![spec_calibrated(l, x)];
            assert(spec_spans_of(l, r0, src)) by {
                let i = choose|i: int| 0 <= i < src.len() && src[i] == x;
                assert(r0[0].time_nanos == spec_segment_start(l, src[i].time_nanos));
            }
            assert forall|i: int| 0 <= i < s.drop_last().len() implies src.contains(#[trigger] s.drop_last()[i]) by {
                assert(s.drop_last()[i] == s[i]);
            }
            lemma_fold_back_spans(l, s.drop_last(), r0, src);
            spec_fold_back(l, s.drop_last(), r0)
        } else {
            lemma_fold_back_spans(l, s, init, src);
            spec_fold_back(l, s, init)
        };
        assert(out == r.reverse());
        assert forall|k: int| 0 <= k < out.len() implies {
            &&& spec_segment_start(l, (#[trigger] out[k]).time_nanos) == out[k].time_nanos
            &&& exists|i: int| 0 <= i < src.len() && spec_segment_start(l, src[i].time_nanos) == out[k].time_nanos
        } by {
            assert(out[k] == r[r.len() - 1 - k]);
        }
    }
}

/// A later time is in the same span of time or a later one.
pub proof fn lemma_segment_start_is_ordered(l: ViewCandlesSegmentLength, t1: u64, t2: u64)
    requires
        t1 <= t2,
    ensures
        spec_segment_start(l, t1) <= spec_segment_start(l, t2),
{
    let p = spec_segment_nanos(l);
    let m = spec_segment_minutes(l) as int;
    assert(m >= 1);
    assert(p == 60_000_000_000 * m);
    let a = t1 as int;
    let b = t2 as int;
    vstd::arithmetic::div_mod::lemma_fundamental_div_mod(a, p);
    vstd::arithmetic::div_mod::lemma_fundamental_div_mod(b, p);
    vstd::arithmetic::div_mod::lemma_div_is_ordered(a, b, p);
    let qa = a / p;
    let qb = b / p;
    assert(p * qa <= p * qb) by (nonlinear_arith)
        requires qa <= qb, p > 0;
    assert(spec_segment_start(l, t1) == a - a % p);
    assert(spec_segment_start(l, t2) == b - b % p);
}

/// `c` is the candle of the span of time that holds the candles `s[a..b)`; no candle of `s`
/// after them is in their span, and where `whole` holds, no candle before them either.
pub open spec fn spec_candle_of_group(l: ViewCandlesSegmentLength, s: Seq<Candle>, a: int, b: int, c: Candle, whole: bool) -> bool {
    &&& 0 <= a < b <= s.len()
    &&& spec_one_span(l, s.subrange(a, b))
    &&& c == spec_span_candle(l, s.subrange(a, b))
    &&& (b == s.len() || spec_segment_start(l, s[b].time_nanos) != spec_segment_start(l, s[b - 1].time_nanos))
    &&& whole ==> (a == 0 || spec_segment_start(l, s[a - 1].time_nanos) != spec_segment_start(l, s[a].time_nanos))
}

/// The candles `r`, newest first, after taking in the candles of `s` from `i` on: each is the
/// candle of a whole span of them, but the earliest, which is the candle of its span from `i`
/// on.
pub open spec fn spec_fold_groups(l: ViewCandlesSegmentLength, s: Seq<Candle>, i: int, r: Seq<Candle>) -> bool {
    &&& r.len() >= 1
    &&& spec_whole_groups(l, s, r)
    &&& spec_earliest_group(l, s, i, r.last())
}

/// Each candle of `r` but the last is the candle of a whole span of the candles of `s`.
pub open spec fn spec_whole_groups(l: ViewCandlesSegmentLength, s: Seq<Candle>, r: Seq<Candle>) -> bool {
    forall|k: int| #![trigger r[k]] 0 <= k < r.len() - 1 ==> spec_whole_group_candle(l, s, r[k])
}

/// `c` is the candle of a whole span of the candles of `s`.
pub open spec fn spec_whole_group_candle(l: ViewCandlesSegmentLength, s: Seq<Candle>, c: Candle) -> bool {
    exists|a: int, b: int| #[trigger] spec_candle_of_group(l, s, a, b, c, true)
}

/// `c` is the candle of the span of the candles of `s` from `i` on.
pub open spec fn spec_earliest_group(l: ViewCandlesSegmentLength, s: Seq<Candle>, i: int, c: Candle) -> bool {
    exists|b: int| #[trigger] spec_candle_of_group(l, s, i, b, c, false)
}

/// The candles of a list going up in time.
pub open spec fn spec_ascending(s: Seq<Candle>) -> bool {
    forall|a: int, b: int| 0 <= a < b < s.len() ==> (#[trigger] s[a]).time_nanos < (#[trigger] s[b]).time_nanos
}

/// The candle of the span of `s[a - 1..b)` is the candle of the span of `s[a..b)` with
/// `s[a - 1]` merged in as the older one.
proof fn lemma_group_takes_one_more(l: ViewCandlesSegmentLength, s: Seq<Candle>, a: int, b: int)
    requires
        1 <= a < b <= s.len(),
    ensures
        spec_span_candle(l, s.subrange(a - 1, b)) == spec_merge_older(spec_span_candle(l, s.subrange(a, b)), s[a - 1]),
{
    let g = s.subrange(a - 1, b);
    lemma_span_candle_step(l, g, 1);
    assert(g.skip(0) =~= g);
    assert(g.skip(1) =~= s.subrange(a, b));
}

/// Folding back the candles of `s` before `i` keeps each candle the candle of a span of `s`.
proof fn lemma_fold_back_keeps_groups(l: ViewCandlesSegmentLength, s: Seq<Candle>, i: int, r: Seq<Candle>)
    requires
        0 <= i < s.len(),
        spec_ascending(s),
        r.len() <= MAX_CANDLES_SPONSE,
        spec_fold_groups(l, s, i, r),
    ensures
        exists|j: int| 0 <= j <= i && #[trigger] spec_fold_groups(l, s, j, spec_fold_back(l, s.take(i), r))
            && (spec_fold_back(l, s.take(i), r).len() < MAX_CANDLES_SPONSE ==> j == 0),
    decreases i,
{
    let p = s.take(i);
    if i == 0 || r.len() >= MAX_CANDLES_SPONSE {
        assert(spec_fold_groups(l, s, i, spec_fold_back(l, p, r)));
    } else {
        let c = s[i - 1];
        assert(p.last() == c);
        assert(p.drop_last() =~= s.take(i - 1));
        assert(spec_earliest_group(l, s, i, r.last()));
        let b = choose|b: int| #[trigger] spec_candle_of_group(l, s, i, b, r.last(), false);
        let g = s.subrange(i, b);
        assert(g[0] == s[i] && g[g.len() - 1] == s[b - 1]);
        assert(spec_segment_start(l, s[i].time_nanos) == spec_segment_start(l, s[b - 1].time_nanos)) by {
            assert(spec_segment_start(l, g[0].time_nanos) == spec_segment_start(l, g.last().time_nanos));
        }
        let cs = spec_segment_start(l, c.time_nanos);
        let rl = r.last().time_nanos;
        assert(rl == spec_segment_start(l, s[i].time_nanos));
        assert(c.time_nanos < s[i].time_nanos);
        lemma_segment_start_is_ordered(l, c.time_nanos, s[i].time_nanos);
        let r2 = spec_step_back(l, r, c);
        if cs < rl {
            assert(r2 == r.push(with_time(c, cs)));
            let one = s.subrange(i - 1, i);
            assert(one =~= seq![c]);
            assert(spec_total_cycles(one.drop_first()) == 0);
            assert(spec_total_tokens(one.drop_first()) == 0);
            assert(spec_span_candle(l, one) == with_time(c, cs));
            assert(spec_one_span(l, one));
            assert(spec_candle_of_group(l, s, i - 1, i, r2.last(), false));
            assert(spec_earliest_group(l, s, i - 1, r2.last()));
            assert(spec_candle_of_group(l, s, i, b, r2[r.len() - 1], true));
            assert forall|k: int| #![trigger r2[k]] 0 <= k < r2.len() - 1 implies spec_whole_group_candle(l, s, r2[k]) by {
                if k < r.len() - 1 {
                    assert(r2[k] == r[k]);
                    assert(spec_whole_group_candle(l, s, r[k]));
                    let (a2, b2) = choose|a2: int, b2: int| #[trigger] spec_candle_of_group(l, s, a2, b2, r[k], true);
                    assert(spec_candle_of_group(l, s, a2, b2, r2[k], true));
                } else {
                    assert(spec_candle_of_group(l, s, i, b, r2[k], true));
                }
            }
            assert(r2.len() >= 1);
            assert(spec_fold_groups(l, s, i - 1, r2));
        } else {
            assert(cs == rl);
            let merged = spec_merge_older(r.last(), c);
            assert(r2 == r.update(r.len() - 1, merged));
            lemma_group_takes_one_more(l, s, i, b);
            let g2 = s.subrange(i - 1, b);
            assert(spec_one_span(l, g2)) by {
                assert forall|x: int| 0 <= x < g2.len() implies spec_segment_start(l, (#[trigger] g2[x]).time_nanos) == spec_segment_start(l, g2.last().time_nanos) by {
                    assert(g2.last() == s[b - 1]);
                    if x > 0 {
                        assert(g2[x] == g[x - 1]);
                    }
                }
            }
            assert(spec_candle_of_group(l, s, i - 1, b, r2.last(), false));
            assert(spec_earliest_group(l, s, i - 1, r2.last()));
            assert forall|k: int| #![trigger r2[k]] 0 <= k < r2.len() - 1 implies spec_whole_group_candle(l, s, r2[k]) by {
                assert(r2[k] == r[k]);
                assert(spec_whole_group_candle(l, s, r[k]));
                    let (a2, b2) = choose|a2: int, b2: int| #[trigger] spec_candle_of_group(l, s, a2, b2, r[k], true);
                assert(spec_candle_of_group(l, s, a2, b2, r2[k], true));
            }
            assert(spec_fold_groups(l, s, i - 1, r2));
        }
        assert(spec_fold_back(l, p, r) == spec_fold_back(l, s.take(i - 1), r2));
        if i - 1 == 0 {
            assert(s.take(0).len() == 0);
            assert(spec_fold_back(l, s.take(0), r2) == r2);
            assert(spec_fold_groups(l, s, 0, spec_fold_back(l, p, r)));
        } else {
            lemma_fold_back_keeps_groups(l, s, i - 1, r2);
            let j = choose|j: int| 0 <= j <= i - 1 && #[trigger] spec_fold_groups(l, s, j, spec_fold_back(l, s.take(i - 1), r2))
                && (spec_fold_back(l, s.take(i - 1), r2).len() < MAX_CANDLES_SPONSE ==> j == 0);
            assert(spec_fold_groups(l, s, j, spec_fold_back(l, p, r)));
        }
    }
}

/// The one-minute candles that an answer that folds them draws on, oldest first: the kept
/// candles before its start, then the current one where the answer holds it.
pub open spec fn spec_fold_source(latest: Candle, segments: Seq<Candle>, q: ViewCandlesQuest) -> Seq<Candle> {
    let (s, init) = spec_candles_source(latest, segments, q);
    if init.len() == 0 { s } else { s.push(latest) }
}

/// The one-minute candles that an answer draws on go up in time, and the answer folds them back
/// from the latest.
proof fn lemma_answer_folds_its_source(latest: Candle, segments: Seq<Candle>, q: ViewCandlesQuest)
    requires
        candles_sorted(segments, latest),
        !(q.segment_length == ViewCandlesSegmentLength::OneMinute && spec_candles_source(latest, segments, q).1.len() == 0),
    ensures
        ({
            let l = q.segment_length;
            let src = spec_fold_source(latest, segments, q);
            let out = spec_create_candles(latest, segments, q);
            &&& spec_ascending(src)
            &&& src.len() == 0 ==> out.len() == 0
            &&& src.len() > 0 ==> out == spec_fold_back(l, src.take(src.len() - 1), seq![spec_calibrated(l, src.last())]).reverse()
        }),
{
    let l = q.segment_length;
    let (s, init) = spec_candles_source(latest, segments, q);
    let src = spec_fold_source(latest, segments, q);
    if let Some(sb) = q.opt_start_before_time_nanos {
        lemma_cut_exists(segments, spec_segment_start(l, sb));
    }
    assert(s.len() <= segments.len());
    assert forall|i: int| 0 <= i < s.len() implies s[i] == segments[i] by {}
    assert forall|a: int, b: int| 0 <= a < b < src.len() implies (#[trigger] src[a]).time_nanos < (#[trigger] src[b]).time_nanos by {
        assert(src[a] == segments[a]);
        if b < s.len() {
            assert(src[b] == segments[b]);
        } else {
            assert(src[b] == latest);
        }
    }
    if src.len() > 0 {
        let n = src.len() as int;
        if init.len() > 0 {
            assert(init =~= seq![spec_calibrated(l, src.last())]);
            assert(src.take(n - 1) =~= s);
        } else {
            assert(src.take(n - 1) =~= s.drop_last());
        }
    }
}

/// The first candle of a fold back, the latest one-minute candle moved to the start of its
/// span, is the candle of its span from there on.
proof fn lemma_fold_starts_with_a_group(l: ViewCandlesSegmentLength, src: Seq<Candle>)
    requires
        src.len() > 0,
    ensures
        spec_fold_groups(l, src, src.len() - 1, seq![spec_calibrated(l, src.last())]),
{
    let n = src.len() as int;
    let r0 = seq![spec_calibrated(l, src[n - 1])];
    let one = src.subrange(n - 1, n);
    assert(one =~= seq![src[n - 1]]);
    assert(spec_total_cycles(one.drop_first()) == 0);
    assert(spec_total_tokens(one.drop_first()) == 0);
    assert(spec_span_candle(l, one) == spec_calibrated(l, src[n - 1]));
    assert(spec_candle_of_group(l, src, n - 1, n, r0.last(), false));
    assert(spec_earliest_group(l, src, n - 1, r0.last()));
}

/// Each candle of an answer is the candle of the span of time it starts (`spec_span_candle`):
/// it starts where the span starts, and is made of the one-minute candles of that span that the
/// answer draws on, with their volumes added up, the opening rate of the first, the closing rate
/// of the last, and the highest high and the lowest low among them. Each takes in all the
/// one-minute candles of its span; the earliest may take in only the latest of them, and only
/// where the answer holds as many candles as one answer may. (Answers of one-minute candles
/// that hold no current minute hand out the kept candles as they are.)
pub proof fn lemma_create_candles_are_the_candles_of_their_spans(latest: Candle, segments: Seq<Candle>, q: ViewCandlesQuest)
    requires
        candles_sorted(segments, latest),
        !(q.segment_length == ViewCandlesSegmentLength::OneMinute && spec_candles_source(latest, segments, q).1.len() == 0),
    ensures
        ({
            let l = q.segment_length;
            let src = spec_fold_source(latest, segments, q);
            let out = spec_create_candles(latest, segments, q);
            &&& forall|k: int| #![trigger out[k]] 0 <= k < out.len() && (k > 0 || out.len() < MAX_CANDLES_SPONSE)
                    ==> spec_whole_group_candle(l, src, out[k])
            &&& out.len() > 0 ==> exists|a: int| spec_earliest_group(l, src, a, out[0])
        }),
{
    let l = q.segment_length;
    let src = spec_fold_source(latest, segments, q);
    let out = spec_create_candles(latest, segments, q);
    lemma_answer_folds_its_source(latest, segments, q);
    if src.len() == 0 {
        return;
    }
    let n = src.len() as int;
    let r0 = seq![spec_calibrated(l, src.last())];
    lemma_fold_starts_with_a_group(l, src);
    let r = spec_fold_back(l, src.take(n - 1), r0);
    lemma_fold_back_keeps_groups(l, src, n - 1, r0);
    let j = choose|j: int| 0 <= j <= n - 1 && #[trigger] spec_fold_groups(l, src, j, r)
        && (r.len() < MAX_CANDLES_SPONSE ==> j == 0);
    assert(out == r.reverse());
    assert forall|k: int| #![trigger out[k]] 0 <= k < out.len() && (k > 0 || out.len() < MAX_CANDLES_SPONSE)
        implies spec_whole_group_candle(l, src, out[k]) by {
        assert(out[k] == r[r.len() - 1 - k]);
        if k > 0 {
            assert(spec_whole_group_candle(l, src, r[r.len() - 1 - k]));
        } else {
            assert(spec_earliest_group(l, src, 0, r.last()));
            let b = choose|b: int| #[trigger] spec_candle_of_group(l, src, 0, b, r.last(), false);
            assert(spec_candle_of_group(l, src, 0, b, r.last(), true));
        }
    }
    assert(out[0] == r.last());
    assert(spec_earliest_group(l, src, j, out[0]));
}

/// An answer of one-minute candles that holds no current minute is the latest of the kept
/// candles before its start, as they are kept, in order, as many as one answer may hold.
pub proof fn lemma_one_minute_answers_are_the_latest_kept_candles(latest: Candle, segments: Seq<Candle>, q: ViewCandlesQuest)
    requires
        candles_sorted(segments, latest),
        q.segment_length == ViewCandlesSegmentLength::OneMinute,
        spec_candles_source(latest, segments, q).1.len() == 0,
    ensures
        ({
            let s = spec_candles_source(latest, segments, q).0;
            let out = spec_create_candles(latest, segments, q);
            &&& out.len() == if s.len() <= MAX_CANDLES_SPONSE { s.len() as int } else { MAX_CANDLES_SPONSE as int }
            &&& forall|k: int| 0 <= k < out.len() ==> #[trigger] out[k] == s[s.len() - out.len() + k]
        }),
{
    let l = q.segment_length;
    if let Some(sb) = q.opt_start_before_time_nanos {
        lemma_cut_exists(segments, spec_segment_start(l, sb));
    }
}

} // verus!
