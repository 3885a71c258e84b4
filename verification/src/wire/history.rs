//! Messages with historical prices.
use crate::codes::IncomingMessageIds;
use crate::decoder::{is_any_interpretation, Interpretation};
use crate::event::Event;
use crate::history::{
    bar_events, histogram_points, historical_ticks, historical_ticks_bid_ask, historical_ticks_last,
    leading_bars,
};
use crate::number::Double;
use crate::server_versions::MIN_SERVER_VER_SYNT_REALTIME_BARS;
use crate::types::{
    BarData, HistogramData, HistoricalTick, HistoricalTickBidAsk, HistoricalTickLast, RealTimeBar,
    TickAttribBidAsk, TickAttribLast,
};
use crate::wire::{
    bit, counts, lemma_bits, lemma_kind, lemma_one_by_one, long, number, one_by_one, sent_if,
    stands, writes,
};
use vstd::prelude::*;

verus! {

/// A bar, field by field.
pub struct BarFields {
    pub date: String,
    pub open: String,
    pub high: String,
    pub low: String,
    pub close: String,
    pub volume: String,
    pub average: String,
    pub has_gaps: String,
    pub bar_count: String,
}

impl BarFields {
    /// The bar as a server sends it; an old one says of it whether it has gaps.
    pub open spec fn written(self, server_version: i32) -> Seq<String> {
        seq![self.date, self.open, self.high, self.low, self.close, self.volume, self.average]
            + sent_if(server_version < MIN_SERVER_VER_SYNT_REALTIME_BARS, seq![self.has_gaps])
            + seq![self.bar_count]
    }

    /// The bar that is meant. The volume that an old server sends has 32 bits.
    pub open spec fn meant(self, server_version: i32) -> BarData {
        BarData {
            date: self.date,
            open: Double::Parsed(self.open),
            high: Double::Parsed(self.high),
            low: Double::Parsed(self.low),
            close: Double::Parsed(self.close),
            volume: if server_version < MIN_SERVER_VER_SYNT_REALTIME_BARS {
                number(self.volume) as i64
            } else {
                long(self.volume)
            },
            bar_count: number(self.bar_count),
            average: Double::Parsed(self.average),
        }
    }
}

/// What stands before the bars, field by field.
pub struct BarsHead {
    pub id: String,
    pub version: String,
    pub req_id: String,
    pub start: String,
    pub end: String,
    pub count: String,
}

impl BarsHead {
    /// The head as a server sends it; an old one adds a version.
    pub open spec fn written(self, server_version: i32) -> Seq<String> {
        seq![self.id] + sent_if(
            server_version < MIN_SERVER_VER_SYNT_REALTIME_BARS,
            seq![self.version],
        ) + seq![self.req_id, self.start, self.end, self.count]
    }
}

/// The fields of bars, one bar after the other.
pub open spec fn bars_written(server_version: i32, bars: Seq<BarFields>) -> Seq<String> {
    one_by_one(bars.map_values(|b: BarFields| b.written(server_version)))
}

/// The events of bars: each tells its own bar.
pub open spec fn bars_told(server_version: i32, req_id: i32, bars: Seq<BarFields>) -> Seq<Event> {
    bars.map_values(
        |b: BarFields| Event::HistoricalData { req_id, bar: b.meant(server_version) },
    )
}

/// Historical bars are told one by one, each as it was written, and then their end.
pub proof fn lemma_historical_data(
    server_version: i32,
    head: BarsHead,
    bars: Seq<BarFields>,
    r: Interpretation,
)
    requires
        writes(head.id, 17),
        counts(head.count, bars.len()),
        is_any_interpretation(
            server_version,
            head.written(server_version) + bars_written(server_version, bars),
            r,
        ),
    ensures
        r.ending is Done,
        r.events@ == bars_told(server_version, number(head.req_id), bars).push(
            Event::HistoricalDataEnd {
                req_id: number(head.req_id),
                start: head.start,
                end: head.end,
            },
        ),
{
    let f = head.written(server_version) + bars_written(server_version, bars);
    lemma_bars(server_version, head, bars, seq![]);
    assert(f + seq![] =~= f);
}

/// Where the bars of a message are, whatever follows them.
proof fn lemma_bars(
    server_version: i32,
    head: BarsHead,
    bars: Seq<BarFields>,
    rest: Seq<String>,
)
    ensures
        ({
            let f = head.written(server_version) + bars_written(server_version, bars) + rest;
            bar_events(server_version, f, bars.len()) == bars_told(
                server_version,
                number(head.req_id),
                bars,
            )
        }),
        bars_written(server_version, bars).len() == if server_version
            < MIN_SERVER_VER_SYNT_REALTIME_BARS {
            9 * bars.len()
        } else {
            8 * bars.len()
        },
{
    let entries = bars.map_values(|b: BarFields| b.written(server_version));
    let width: int = if server_version < MIN_SERVER_VER_SYNT_REALTIME_BARS {
        9
    } else {
        8
    };
    lemma_one_by_one(entries, width);
    let f = head.written(server_version) + bars_written(server_version, bars) + rest;
    let told = bars_told(server_version, number(head.req_id), bars);
    assert forall|i: int| 0 <= i < bars.len() implies bar_events(
        server_version,
        f,
        bars.len(),
    )[i] == #[trigger] told[i] by {
        let b = entries[i];
        assert(b == bars[i].written(server_version));
        assert(b[0] == bars[i].date);
        assert(b[1] == bars[i].open);
        assert(b[2] == bars[i].high);
        assert(b[3] == bars[i].low);
        assert(b[4] == bars[i].close);
        assert(b[5] == bars[i].volume);
        assert(b[6] == bars[i].average);
        assert(b[width - 1] == bars[i].bar_count);
    }
    assert(bar_events(server_version, f, bars.len()) =~= told);
}

/// Historical bars that break off, in the head or in a bar, are told up to there.
pub proof fn lemma_historical_data_broken(
    server_version: i32,
    head: BarsHead,
    bars: Seq<BarFields>,
    broken: BarFields,
    rest: Seq<String>,
    r: Interpretation,
)
    requires
        writes(head.id, 17),
        number(head.count) > bars.len(),
        rest.len() < broken.written(server_version).len(),
        rest == broken.written(server_version).take(rest.len() as int),
        is_any_interpretation(
            server_version,
            head.written(server_version) + bars_written(server_version, bars) + rest,
            r,
        ),
    ensures
        r.ending is BrokenOff,
        r.events@ == bars_told(server_version, number(head.req_id), bars),
{
    let f = head.written(server_version) + bars_written(server_version, bars) + rest;
    lemma_bars(server_version, head, bars, rest);
    assert(leading_bars(server_version, f) == bars.len());
    IncomingMessageIds::HistoricalData.lemma_code(17);
}

/// A bar does not depend on the others: where two messages of the same length have the same bar in
/// one place, they tell the same bar there, whatever the other bars are.
pub proof fn lemma_bars_are_independent(
    server_version: i32,
    head: BarsHead,
    bars: Seq<BarFields>,
    others: Seq<BarFields>,
    i: int,
    r: Interpretation,
    s: Interpretation,
)
    requires
        writes(head.id, 17),
        counts(head.count, bars.len()),
        counts(head.count, others.len()),
        0 <= i < bars.len(),
        bars[i] == others[i],
        is_any_interpretation(
            server_version,
            head.written(server_version) + bars_written(server_version, bars),
            r,
        ),
        is_any_interpretation(
            server_version,
            head.written(server_version) + bars_written(server_version, others),
            s,
        ),
    ensures
        r.events@[i] == s.events@[i],
        r.events@.len() == s.events@.len(),
        r.events@.last() == s.events@.last(),
{
    lemma_historical_data(server_version, head, bars, r);
    lemma_historical_data(server_version, head, others, s);
}

/// A historical bar is brought up to date as it was written.
pub proof fn lemma_historical_data_update(
    server_version: i32,
    id: String,
    req_id: String,
    bar_count: String,
    date: String,
    open: String,
    close: String,
    high: String,
    low: String,
    average: String,
    volume: String,
    r: Interpretation,
)
    requires
        writes(id, 90),
        is_any_interpretation(
            server_version,
            seq![id, req_id, bar_count, date, open, close, high, low, average, volume],
            r,
        ),
    ensures
        r.ending is Done,
        r.events@ == seq![
            Event::HistoricalDataUpdate {
                req_id: number(req_id),
                bar: BarData {
                    date,
                    open: Double::Parsed(open),
                    high: Double::Parsed(high),
                    low: Double::Parsed(low),
                    close: Double::Parsed(close),
                    volume: long(volume),
                    bar_count: number(bar_count),
                    average: Double::Parsed(average),
                },
            },
        ],
{
    let f = seq![id, req_id, bar_count, date, open, close, high, low, average, volume];
    lemma_kind(server_version, f, IncomingMessageIds::HistoricalDataUpdate, r);
}

/// A bar of current prices is told as it was written.
pub proof fn lemma_real_time_bar(
    server_version: i32,
    id: String,
    version: String,
    req_id: String,
    date_time: String,
    open: String,
    high: String,
    low: String,
    close: String,
    volume: String,
    wap: String,
    count: String,
    r: Interpretation,
)
    requires
        writes(id, 50),
        is_any_interpretation(
            server_version,
            seq![id, version, req_id, date_time, open, high, low, close, volume, wap, count],
            r,
        ),
    ensures
        r.ending is Done,
        r.events@ == seq![
            Event::RealtimeBar {
                req_id: number(req_id),
                bar: RealTimeBar {
                    date_time,
                    open: Double::Parsed(open),
                    high: Double::Parsed(high),
                    low: Double::Parsed(low),
                    close: Double::Parsed(close),
                    volume: long(volume),
                    wap: Double::Parsed(wap),
                    count: number(count),
                },
            },
        ],
{
    let f = seq![id, version, req_id, date_time, open, high, low, close, volume, wap, count];
    lemma_kind(server_version, f, IncomingMessageIds::RealTimeBars, r);
}

/// A point of a histogram, field by field.
pub struct HistogramFields {
    pub price: String,
    pub count: String,
}

impl HistogramFields {
    /// The entry as a server sends it.
    pub open spec fn written(self) -> Seq<String> {
        seq![self.price, self.count]
    }

    /// The entry that is meant.
    pub open spec fn meant(self) -> HistogramData {
        HistogramData {
            price: Double::Parsed(self.price),
            count: number(self.count),
        }
    }
}

/// A histogram is told as it was written.
#[verifier::spinoff_prover]
pub proof fn lemma_histogram_data(
    server_version: i32,
    id: String,
    req_id: String,
    count: String,
    entries: Seq<HistogramFields>,
    r: Interpretation,
)
    requires
        writes(id, 89),
        counts(count, entries.len()),
        is_any_interpretation(
            server_version,
            seq![id, req_id, count] + one_by_one(
                entries.map_values(|e: HistogramFields| e.written()),
            ),
            r,
        ),
    ensures
        r.ending is Done,
        r.events@.len() == 1,
        r.events@[0] matches Event::HistogramData { req_id: request, items } && {
            &&& request == number(req_id)
            &&& items@ == entries.map_values(|e: HistogramFields| e.meant())
        },
{
    let parts = entries.map_values(|e: HistogramFields| e.written());
    let meant = entries.map_values(|e: HistogramFields| e.meant());
    let f = seq![id, req_id, count] + one_by_one(parts);
    assert(one_by_one(parts).len() == 2 * entries.len()) by {
        lemma_one_by_one(parts, 2);
    }
    assert(f[0] == id && f[1] == req_id && f[2] == count);
    assert(histogram_points(f, 3, entries.len()) == meant) by {
        lemma_one_by_one(parts, 2);
        let read = histogram_points(f, 3, entries.len());
        assert forall|i: int| 0 <= i < entries.len() implies read[i] == #[trigger] meant[i] by {
            let part = parts[i];
            assert(part[0] == entries[i].price);
            assert(part[1] == entries[i].count);
        }
        assert(read =~= meant);
    }
    lemma_kind(server_version, f, IncomingMessageIds::HistogramData, r);
}

/// A historical midpoint, field by field.
pub struct HistoricalTickFields {
    pub time: String,
    pub ignored: String,
    pub price: String,
    pub size: String,
}

impl HistoricalTickFields {
    /// The entry as a server sends it.
    pub open spec fn written(self) -> Seq<String> {
        seq![self.time, self.ignored, self.price, self.size]
    }

    /// The entry that is meant.
    pub open spec fn meant(self) -> HistoricalTick {
        HistoricalTick {
            time: number(self.time),
            price: Double::Parsed(self.price),
            size: number(self.size),
        }
    }
}

/// Historical midpoints are told as they were written; a missing end mark is one that is not set.
#[verifier::spinoff_prover]
pub proof fn lemma_historical_ticks(
    server_version: i32,
    id: String,
    req_id: String,
    count: String,
    entries: Seq<HistoricalTickFields>,
    done: String,
    has_done: bool,
    r: Interpretation,
)
    requires
        writes(id, 96),
        counts(count, entries.len()),
        is_any_interpretation(
            server_version,
            seq![id, req_id, count] + one_by_one(
                entries.map_values(|e: HistoricalTickFields| e.written()),
            ) + sent_if(has_done, seq![done]),
            r,
        ),
    ensures
        r.ending is Done,
        r.events@.len() == 1,
        r.events@[0] matches Event::HistoricalTicks {
            req_id: request,
            ticks: items,
            done: finished,
        } && {
            &&& request == number(req_id)
            &&& finished == (has_done && number(done) != 0)
            &&& items@ == entries.map_values(|e: HistoricalTickFields| e.meant())
        },
{
    let parts = entries.map_values(|e: HistoricalTickFields| e.written());
    let meant = entries.map_values(|e: HistoricalTickFields| e.meant());
    let f = seq![id, req_id, count] + one_by_one(parts) + sent_if(has_done, seq![done]);
    assert(one_by_one(parts).len() == 4 * entries.len()) by {
        lemma_one_by_one(parts, 4);
    }
    assert(f[0] == id && f[1] == req_id && f[2] == count);
    assert(historical_ticks(f, 3, entries.len()) == meant) by {
        lemma_one_by_one(parts, 4);
        let read = historical_ticks(f, 3, entries.len());
        assert forall|i: int| 0 <= i < entries.len() implies read[i] == #[trigger] meant[i] by {
            let part = parts[i];
            assert(part[0] == entries[i].time);
            assert(part[1] == entries[i].ignored);
            assert(part[2] == entries[i].price);
            assert(part[3] == entries[i].size);
        }
        assert(read =~= meant);
    }
    lemma_kind(server_version, f, IncomingMessageIds::HistoricalTicks, r);
}

/// A historical quote, field by field.
pub struct HistoricalTickBidAskFields {
    pub time: String,
    pub mask: String,
    pub price_bid: String,
    pub price_ask: String,
    pub size_bid: String,
    pub size_ask: String,
}

impl HistoricalTickBidAskFields {
    /// The entry as a server sends it.
    pub open spec fn written(self) -> Seq<String> {
        seq![self.time, self.mask, self.price_bid, self.price_ask, self.size_bid, self.size_ask]
    }

    /// The entry that is meant.
    pub open spec fn meant(self) -> HistoricalTickBidAsk {
        HistoricalTickBidAsk {
            time: number(self.time),
            tick_attrib_bid_ask: TickAttribBidAsk {
                ask_past_high: bit(number(self.mask), 1),
                bid_past_low: bit(number(self.mask), 2),
            },
            price_bid: Double::Parsed(self.price_bid),
            price_ask: Double::Parsed(self.price_ask),
            size_bid: number(self.size_bid),
            size_ask: number(self.size_ask),
        }
    }
}

/// Historical quotes are told as they were written; a missing end mark is one that is not set.
#[verifier::spinoff_prover]
pub proof fn lemma_historical_ticks_bid_ask(
    server_version: i32,
    id: String,
    req_id: String,
    count: String,
    entries: Seq<HistoricalTickBidAskFields>,
    done: String,
    has_done: bool,
    r: Interpretation,
)
    requires
        writes(id, 97),
        counts(count, entries.len()),
        is_any_interpretation(
            server_version,
            seq![id, req_id, count] + one_by_one(
                entries.map_values(|e: HistoricalTickBidAskFields| e.written()),
            ) + sent_if(has_done, seq![done]),
            r,
        ),
    ensures
        r.ending is Done,
        r.events@.len() == 1,
        r.events@[0] matches Event::HistoricalTicksBidAsk {
            req_id: request,
            ticks: items,
            done: finished,
        } && {
            &&& request == number(req_id)
            &&& finished == (has_done && number(done) != 0)
            &&& items@ == entries.map_values(|e: HistoricalTickBidAskFields| e.meant())
        },
{
    let parts = entries.map_values(|e: HistoricalTickBidAskFields| e.written());
    let meant = entries.map_values(|e: HistoricalTickBidAskFields| e.meant());
    let f = seq![id, req_id, count] + one_by_one(parts) + sent_if(has_done, seq![done]);
    assert(one_by_one(parts).len() == 6 * entries.len()) by {
        lemma_one_by_one(parts, 6);
    }
    assert(f[0] == id && f[1] == req_id && f[2] == count);
    assert(historical_ticks_bid_ask(f, 3, entries.len()) == meant) by {
        lemma_one_by_one(parts, 6);
        let read = historical_ticks_bid_ask(f, 3, entries.len());
        assert forall|i: int| 0 <= i < entries.len() implies read[i] == #[trigger] meant[i] by {
            let part = parts[i];
            assert(part[0] == entries[i].time);
            assert(part[1] == entries[i].mask);
            lemma_bits(number(entries[i].mask));
            assert(part[2] == entries[i].price_bid);
            assert(part[3] == entries[i].price_ask);
            assert(part[4] == entries[i].size_bid);
            assert(part[5] == entries[i].size_ask);
        }
        assert(read =~= meant);
    }
    lemma_kind(server_version, f, IncomingMessageIds::HistoricalTicksBidAsk, r);
}

/// A historical trade, field by field.
pub struct HistoricalTickLastFields {
    pub time: String,
    pub mask: String,
    pub price: String,
    pub size: String,
    pub exchange: String,
    pub special_conditions: String,
}

impl HistoricalTickLastFields {
    /// The entry as a server sends it.
    pub open spec fn written(self) -> Seq<String> {
        seq![self.time, self.mask, self.price, self.size, self.exchange, self.special_conditions]
    }

    /// The entry that is meant.
    pub open spec fn meant(self) -> HistoricalTickLast {
        HistoricalTickLast {
            time: number(self.time),
            tick_attrib_last: TickAttribLast {
                past_limit: bit(number(self.mask), 1),
                unreported: bit(number(self.mask), 2),
            },
            price: Double::Parsed(self.price),
            size: number(self.size),
            exchange: self.exchange,
            special_conditions: self.special_conditions,
        }
    }
}

/// Historical trades are told as they were written; a missing end mark is one that is not set.
#[verifier::spinoff_prover]
pub proof fn lemma_historical_ticks_last(
    server_version: i32,
    id: String,
    req_id: String,
    count: String,
    entries: Seq<HistoricalTickLastFields>,
    done: String,
    has_done: bool,
    r: Interpretation,
)
    requires
        writes(id, 98),
        counts(count, entries.len()),
        is_any_interpretation(
            server_version,
            seq![id, req_id, count] + one_by_one(
                entries.map_values(|e: HistoricalTickLastFields| e.written()),
            ) + sent_if(has_done, seq![done]),
            r,
        ),
    ensures
        r.ending is Done,
        r.events@.len() == 1,
        r.events@[0] matches Event::HistoricalTicksLast {
            req_id: request,
            ticks: items,
            done: finished,
        } && {
            &&& request == number(req_id)
            &&& finished == (has_done && number(done) != 0)
            &&& items@ == entries.map_values(|e: HistoricalTickLastFields| e.meant())
        },
{
    let parts = entries.map_values(|e: HistoricalTickLastFields| e.written());
    let meant = entries.map_values(|e: HistoricalTickLastFields| e.meant());
    let f = seq![id, req_id, count] + one_by_one(parts) + sent_if(has_done, seq![done]);
    assert(one_by_one(parts).len() == 6 * entries.len()) by {
        lemma_one_by_one(parts, 6);
    }
    assert(f[0] == id && f[1] == req_id && f[2] == count);
    assert(historical_ticks_last(f, 3, entries.len()) == meant) by {
        lemma_one_by_one(parts, 6);
        let read = historical_ticks_last(f, 3, entries.len());
        assert forall|i: int| 0 <= i < entries.len() implies read[i] == #[trigger] meant[i] by {
            let part = parts[i];
            assert(part[0] == entries[i].time);
            assert(part[1] == entries[i].mask);
            lemma_bits(number(entries[i].mask));
            assert(part[2] == entries[i].price);
            assert(part[3] == entries[i].size);
            assert(part[4] == entries[i].exchange);
            assert(part[5] == entries[i].special_conditions);
        }
        assert(read =~= meant);
    }
    lemma_kind(server_version, f, IncomingMessageIds::HistoricalTicksLast, r);
}

} // verus!
