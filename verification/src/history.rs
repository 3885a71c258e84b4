//! Messages on past prices, and bars of current ones.
use crate::decoder::Decoder;
use crate::event::Event;
use crate::fields::{count_at, double_at, flag_at, int_at, long_at, Reader};
use crate::server_versions::MIN_SERVER_VER_SYNT_REALTIME_BARS;
use crate::types::{
    BarData, HistogramData, HistoricalTick, HistoricalTickBidAsk, HistoricalTickLast, RealTimeBar,
    TickAttribBidAsk, TickAttribLast,
};
use vstd::prelude::*;

verus! {

/// Whether bars come in the older form: with a version field before them, a 32-bit volume, and a
/// field on gaps in each.
pub open spec fn old_bars(server_version: i32) -> bool {
    server_version < MIN_SERVER_VER_SYNT_REALTIME_BARS
}

/// The field with the request that bars answer.
pub open spec fn bars_req_id(server_version: i32) -> int {
    if old_bars(server_version) {
        2
    } else {
        1
    }
}

/// The bar that starts at field `p`.
pub open spec fn bar_at(server_version: i32, f: Seq<String>, p: int) -> BarData {
    BarData {
        date: f[p],
        open: double_at(f, p + 1),
        high: double_at(f, p + 2),
        low: double_at(f, p + 3),
        close: double_at(f, p + 4),
        volume: if old_bars(server_version) {
            int_at(f, p + 5) as i64
        } else {
            long_at(f, p + 5)
        },
        average: double_at(f, p + 6),
        bar_count: if old_bars(server_version) {
            int_at(f, p + 8)
        } else {
            int_at(f, p + 7)
        },
    }
}

/// Where bar `i` starts.
pub open spec fn bar_start(server_version: i32, i: int) -> int {
    if old_bars(server_version) {
        6 + 9 * i
    } else {
        5 + 8 * i
    }
}

/// Whether a message with historical bars has all its fields.
pub open spec fn historical_data_complete(server_version: i32, f: Seq<String>) -> bool {
    f.len() >= bar_start(
        server_version,
        count_at(f, bars_req_id(server_version) + 3) as int,
    )
}

/// The first `n` bars of a message, each as an event.
pub open spec fn bar_events(server_version: i32, f: Seq<String>, n: nat) -> Seq<Event> {
    Seq::new(
        n,
        |i: int|
            Event::HistoricalData {
                req_id: int_at(f, bars_req_id(server_version)),
                bar: bar_at(server_version, f, bar_start(server_version, i)),
            },
    )
}

/// What a message with historical bars tells: each bar, then the end of the period.
pub open spec fn historical_data_events(server_version: i32, f: Seq<String>) -> Seq<Event> {
    let p = bars_req_id(server_version);
    bar_events(server_version, f, count_at(f, p + 3)).push(
        Event::HistoricalDataEnd { req_id: int_at(f, p), start: f[p + 1], end: f[p + 2] },
    )
}

/// How many bars stand in full in a message that breaks off.
pub open spec fn leading_bars(server_version: i32, f: Seq<String>) -> nat {
    if f.len() < bar_start(server_version, 0) {
        0
    } else if old_bars(server_version) {
        ((f.len() - 6) / 9) as nat
    } else {
        ((f.len() - 5) / 8) as nat
    }
}

/// What a message tells that brings a historical bar up to date.
pub open spec fn historical_data_update_event(f: Seq<String>) -> Option<Event> {
    if f.len() >= 10 {
        Some(
            Event::HistoricalDataUpdate {
                req_id: int_at(f, 1),
                bar: BarData {
                    bar_count: int_at(f, 2),
                    date: f[3],
                    open: double_at(f, 4),
                    close: double_at(f, 5),
                    high: double_at(f, 6),
                    low: double_at(f, 7),
                    average: double_at(f, 8),
                    volume: long_at(f, 9),
                },
            },
        )
    } else {
        None
    }
}

/// What a message with a current bar tells.
pub open spec fn real_time_bars_event(f: Seq<String>) -> Option<Event> {
    if f.len() >= 11 {
        Some(
            Event::RealtimeBar {
                req_id: int_at(f, 2),
                bar: RealTimeBar {
                    date_time: f[3],
                    open: double_at(f, 4),
                    high: double_at(f, 5),
                    low: double_at(f, 6),
                    close: double_at(f, 7),
                    volume: long_at(f, 8),
                    wap: double_at(f, 9),
                    count: int_at(f, 10),
                },
            },
        )
    } else {
        None
    }
}

/// The prices of a histogram in fields `start` and on.
pub open spec fn histogram_points(f: Seq<String>, start: int, n: nat) -> Seq<HistogramData> {
    Seq::new(
        n,
        |i: int|
            HistogramData {
                price: double_at(f, start + 2 * i),
                count: int_at(f, start + 2 * i + 1),
            },
    )
}

/// Whether a histogram message has all its fields.
pub open spec fn histogram_data_complete(f: Seq<String>) -> bool {
    f.len() >= 3 + 2 * count_at(f, 2)
}

/// Whether `e` is the event of a histogram message.
pub open spec fn is_histogram_data(f: Seq<String>, e: Event) -> bool {
    e matches Event::HistogramData { req_id, items } && {
        &&& req_id == int_at(f, 1)
        &&& items@ == histogram_points(f, 3, count_at(f, 2))
    }
}

/// The midpoints in fields `start` and on; the second field of each is not used.
pub open spec fn historical_ticks(f: Seq<String>, start: int, n: nat) -> Seq<HistoricalTick> {
    Seq::new(
        n,
        |i: int|
            HistoricalTick {
                time: int_at(f, start + 4 * i),
                price: double_at(f, start + 4 * i + 2),
                size: int_at(f, start + 4 * i + 3),
            },
    )
}

/// Whether a message with historical midpoints has all its fields but for the last flag.
pub open spec fn historical_ticks_complete(f: Seq<String>) -> bool {
    f.len() >= 3 + 4 * count_at(f, 2)
}

/// Whether `e` is the event of a message with historical midpoints.
pub open spec fn is_historical_ticks(f: Seq<String>, e: Event) -> bool {
    e matches Event::HistoricalTicks { req_id, ticks, done } && {
        &&& req_id == int_at(f, 1)
        &&& ticks@ == historical_ticks(f, 3, count_at(f, 2))
        &&& done == flag_at(f, (3 + 4 * count_at(f, 2)) as int)
    }
}

/// The quotes in fields `start` and on.
pub open spec fn historical_ticks_bid_ask(f: Seq<String>, start: int, n: nat) -> Seq<
    HistoricalTickBidAsk,
> {
    Seq::new(
        n,
        |i: int|
            HistoricalTickBidAsk {
                time: int_at(f, start + 6 * i),
                tick_attrib_bid_ask: TickAttribBidAsk {
                    ask_past_high: (int_at(f, start + 6 * i + 1) & 1) != 0,
                    bid_past_low: (int_at(f, start + 6 * i + 1) & 2) != 0,
                },
                price_bid: double_at(f, start + 6 * i + 2),
                price_ask: double_at(f, start + 6 * i + 3),
                size_bid: int_at(f, start + 6 * i + 4),
                size_ask: int_at(f, start + 6 * i + 5),
            },
    )
}

/// Whether a message with historical quotes has all its fields but for the last flag.
pub open spec fn historical_ticks_bid_ask_complete(f: Seq<String>) -> bool {
    f.len() >= 3 + 6 * count_at(f, 2)
}

/// Whether `e` is the event of a message with historical quotes.
pub open spec fn is_historical_ticks_bid_ask(f: Seq<String>, e: Event) -> bool {
    e matches Event::HistoricalTicksBidAsk { req_id, ticks, done } && {
        &&& req_id == int_at(f, 1)
        &&& ticks@ == historical_ticks_bid_ask(f, 3, count_at(f, 2))
        &&& done == flag_at(f, (3 + 6 * count_at(f, 2)) as int)
    }
}

/// The trades in fields `start` and on.
pub open spec fn historical_ticks_last(f: Seq<String>, start: int, n: nat) -> Seq<
    HistoricalTickLast,
> {
    Seq::new(
        n,
        |i: int|
            HistoricalTickLast {
                time: int_at(f, start + 6 * i),
                tick_attrib_last: TickAttribLast {
                    past_limit: (int_at(f, start + 6 * i + 1) & 1) != 0,
                    unreported: (int_at(f, start + 6 * i + 1) & 2) != 0,
                },
                price: double_at(f, start + 6 * i + 2),
                size: int_at(f, start + 6 * i + 3),
                exchange: f[start + 6 * i + 4],
                special_conditions: f[start + 6 * i + 5],
            },
    )
}

/// Whether a message with historical trades has all its fields but for the last flag.
pub open spec fn historical_ticks_last_complete(f: Seq<String>) -> bool {
    f.len() >= 3 + 6 * count_at(f, 2)
}

/// Whether `e` is the event of a message with historical trades.
pub open spec fn is_historical_ticks_last(f: Seq<String>, e: Event) -> bool {
    e matches Event::HistoricalTicksLast { req_id, ticks, done } && {
        &&& req_id == int_at(f, 1)
        &&& ticks@ == historical_ticks_last(f, 3, count_at(f, 2))
        &&& done == flag_at(f, (3 + 6 * count_at(f, 2)) as int)
    }
}

/// Reads what stands before the bars: the request, the start and the end of the period, and the
/// number of bars.
fn next_bars_head(reader: &mut Reader) -> (r: Option<(i32, String, String, i32)>)
    requires
        old(reader).wf(),
    ensures
        final(reader).wf(),
        final(reader).all() == old(reader).all(),
        r is Some <==> old(reader).at() + 4 <= old(reader).all().len(),
        r matches Some((req_id, start, end, count)) ==> {
            &&& final(reader).at() == old(reader).at() + 4
            &&& req_id == int_at(old(reader).all(), old(reader).at())
            &&& start == old(reader).all()[old(reader).at() + 1]
            &&& end == old(reader).all()[old(reader).at() + 2]
            &&& count == int_at(old(reader).all(), old(reader).at() + 3)
        },
{
    let req_id: i32 = reader.next_i32()?;
    let start = reader.next_text()?;
    let end = reader.next_text()?;
    let count: i32 = reader.next_i32()?;
    Some((req_id, start, end, count))
}

/// Reads a bar.
fn next_bar(reader: &mut Reader, server_version: i32) -> (r: Option<BarData>)
    requires
        old(reader).wf(),
    ensures
        final(reader).wf(),
        final(reader).all() == old(reader).all(),
        r is Some <==> old(reader).at() + (if old_bars(server_version) {
            9int
        } else {
            8
        }) <= old(reader).all().len(),
        r is Some ==> {
            &&& r->0 == bar_at(server_version, old(reader).all(), old(reader).at())
            &&& final(reader).at() == old(reader).at() + (if old_bars(server_version) {
                9int
            } else {
                8
            })
        },
{
    let old = server_version < MIN_SERVER_VER_SYNT_REALTIME_BARS;
    let date = reader.next_text()?;
    let open = reader.next_double()?;
    let high = reader.next_double()?;
    let low = reader.next_double()?;
    let close = reader.next_double()?;
    let volume: i64 = if old {
        reader.next_i32()? as i64
    } else {
        reader.next_i64()?
    };
    let average = reader.next_double()?;
    if old {
        reader.next_text()?;
    }
    let bar_count: i32 = reader.next_i32()?;
    Some(BarData { date, open, high, low, close, volume, bar_count, average })
}

impl Decoder {
    /// Reads a message with historical bars. Where it breaks off, the bars before that are all that
    /// it tells; they are handed back in place of the whole.
    pub fn process_historical_data(server_version: i32, fields: &[String]) -> (r: Result<
        Vec<Event>,
        Vec<Event>,
    >)
        ensures
            r is Ok <==> historical_data_complete(server_version, fields@),
            r is Ok ==> r->Ok_0@ == historical_data_events(server_version, fields@),
            r is Err ==> r->Err_0@ == bar_events(
                server_version,
                fields@,
                leading_bars(server_version, fields@),
            ),
    {
        let mut reader = Reader::new(fields);
        reader.skip();
        if server_version < MIN_SERVER_VER_SYNT_REALTIME_BARS {
            reader.skip();
        }
        let mut events: Vec<Event> = Vec::new();
        let (req_id, start, end, count) = match next_bars_head(&mut reader) {
            Some(head) => head,
            None => {
                assert(events@ == bar_events(server_version, fields@, 0));
                return Err(events);
            },
        };
        let ghost p = bars_req_id(server_version);
        let mut i: i32 = 0;
        while i < count
            invariant
                reader.wf(),
                reader.all() == fields@,
                p == bars_req_id(server_version),
                fields@.len() >= p + 4,
                req_id == int_at(fields@, p),
                count == int_at(fields@, p + 3),
                0 <= i,
                i <= count || i == 0,
                reader.at() == bar_start(server_version, i as int),
                events@ == bar_events(server_version, fields@, i as nat),
            decreases count - i,
        {
            match next_bar(&mut reader, server_version) {
                Some(bar) => {
                    events.push(Event::HistoricalData { req_id, bar });
                },
                None => {
                    assert(leading_bars(server_version, fields@) == i);
                    return Err(events);
                },
            }
            i = i + 1;
        }
        events.push(Event::HistoricalDataEnd { req_id, start, end });
        Ok(events)
    }

    /// Reads a message that brings a historical bar up to date.
    pub fn process_historical_data_update(fields: &[String]) -> (r: Option<Event>)
        ensures
            r == historical_data_update_event(fields@),
    {
        let mut reader = Reader::new(fields);
        reader.skip();
        let req_id: i32 = reader.next_i32()?;
        let bar_count: i32 = reader.next_i32()?;
        let date = reader.next_text()?;
        let open = reader.next_double()?;
        let close = reader.next_double()?;
        let high = reader.next_double()?;
        let low = reader.next_double()?;
        let average = reader.next_double()?;
        let volume: i64 = reader.next_i64()?;
        let bar = BarData { date, open, high, low, close, volume, bar_count, average };
        Some(Event::HistoricalDataUpdate { req_id, bar })
    }

    /// Reads a message with a current bar.
    pub fn process_real_time_bars(fields: &[String]) -> (r: Option<Event>)
        ensures
            r == real_time_bars_event(fields@),
    {
        let mut reader = Reader::new(fields);
        reader.skip();
        reader.skip();
        let req_id: i32 = reader.next_i32()?;
        let date_time = reader.next_text()?;
        let open = reader.next_double()?;
        let high = reader.next_double()?;
        let low = reader.next_double()?;
        let close = reader.next_double()?;
        let volume: i64 = reader.next_i64()?;
        let wap = reader.next_double()?;
        let count: i32 = reader.next_i32()?;
        let bar = RealTimeBar { date_time, open, high, low, close, volume, wap, count };
        Some(Event::RealtimeBar { req_id, bar })
    }

    /// Reads a histogram message.
    pub fn process_histogram_data(fields: &[String]) -> (r: Option<Event>)
        ensures
            r is Some <==> histogram_data_complete(fields@),
            r is Some ==> is_histogram_data(fields@, r->0),
    {
        let mut reader = Reader::new(fields);
        reader.skip();
        let req_id: i32 = reader.next_i32()?;
        let num_points: i32 = reader.next_i32()?;
        let mut items: Vec<HistogramData> = Vec::new();
        let mut i: i32 = 0;
        while i < num_points
            invariant
                reader.wf(),
                reader.all() == fields@,
                fields@.len() >= 3,
                num_points == int_at(fields@, 2),
                0 <= i,
                i <= num_points || i == 0,
                reader.at() == 3 + 2 * i,
                items@ == histogram_points(fields@, 3, i as nat),
            decreases num_points - i,
        {
            let price = reader.next_double()?;
            let count: i32 = reader.next_i32()?;
            items.push(HistogramData { price, count });
            i = i + 1;
        }
        Some(Event::HistogramData { req_id, items })
    }

    /// Reads a message with historical midpoints.
    pub fn process_historical_ticks(fields: &[String]) -> (r: Option<Event>)
        ensures
            r is Some <==> historical_ticks_complete(fields@),
            r is Some ==> is_historical_ticks(fields@, r->0),
    {
        let mut reader = Reader::new(fields);
        reader.skip();
        let req_id: i32 = reader.next_i32()?;
        let tick_count: i32 = reader.next_i32()?;
        let mut ticks: Vec<HistoricalTick> = Vec::new();
        let mut i: i32 = 0;
        while i < tick_count
            invariant
                reader.wf(),
                reader.all() == fields@,
                fields@.len() >= 3,
                tick_count == int_at(fields@, 2),
                0 <= i,
                i <= tick_count || i == 0,
                reader.at() == 3 + 4 * i,
                ticks@ == historical_ticks(fields@, 3, i as nat),
            decreases tick_count - i,
        {
            let time: i32 = reader.next_i32()?;
            reader.skip();
            let price = reader.next_double()?;
            let size: i32 = reader.next_i32()?;
            ticks.push(HistoricalTick { time, price, size });
            i = i + 1;
        }
        let done = reader.next_flag();
        Some(Event::HistoricalTicks { req_id, ticks, done })
    }

    /// Reads a message with historical quotes.
    pub fn process_historical_ticks_bid_ask(fields: &[String]) -> (r: Option<Event>)
        ensures
            r is Some <==> historical_ticks_bid_ask_complete(fields@),
            r is Some ==> is_historical_ticks_bid_ask(fields@, r->0),
    {
        let mut reader = Reader::new(fields);
        reader.skip();
        let req_id: i32 = reader.next_i32()?;
        let tick_count: i32 = reader.next_i32()?;
        let mut ticks: Vec<HistoricalTickBidAsk> = Vec::new();
        let mut i: i32 = 0;
        while i < tick_count
            invariant
                reader.wf(),
                reader.all() == fields@,
                fields@.len() >= 3,
                tick_count == int_at(fields@, 2),
                0 <= i,
                i <= tick_count || i == 0,
                reader.at() == 3 + 6 * i,
                ticks@ == historical_ticks_bid_ask(fields@, 3, i as nat),
            decreases tick_count - i,
        {
            let time: i32 = reader.next_i32()?;
            let mask: i32 = reader.next_i32()?;
            let tick_attrib_bid_ask = TickAttribBidAsk {
                ask_past_high: (mask & 1) != 0,
                bid_past_low: (mask & 2) != 0,
            };
            let price_bid = reader.next_double()?;
            let price_ask = reader.next_double()?;
            let size_bid: i32 = reader.next_i32()?;
            let size_ask: i32 = reader.next_i32()?;
            ticks.push(
                HistoricalTickBidAsk {
                    time,
                    tick_attrib_bid_ask,
                    price_bid,
                    price_ask,
                    size_bid,
                    size_ask,
                },
            );
            i = i + 1;
        }
        let done = reader.next_flag();
        Some(Event::HistoricalTicksBidAsk { req_id, ticks, done })
    }

    /// Reads a message with historical trades.
    pub fn process_historical_ticks_last(fields: &[String]) -> (r: Option<Event>)
        ensures
            r is Some <==> historical_ticks_last_complete(fields@),
            r is Some ==> is_historical_ticks_last(fields@, r->0),
    {
        let mut reader = Reader::new(fields);
        reader.skip();
        let req_id: i32 = reader.next_i32()?;
        let tick_count: i32 = reader.next_i32()?;
        let mut ticks: Vec<HistoricalTickLast> = Vec::new();
        let mut i: i32 = 0;
        while i < tick_count
            invariant
                reader.wf(),
                reader.all() == fields@,
                fields@.len() >= 3,
                tick_count == int_at(fields@, 2),
                0 <= i,
                i <= tick_count || i == 0,
                reader.at() == 3 + 6 * i,
                ticks@ == historical_ticks_last(fields@, 3, i as nat),
            decreases tick_count - i,
        {
            let time: i32 = reader.next_i32()?;
            let mask: i32 = reader.next_i32()?;
            let tick_attrib_last = TickAttribLast {
                past_limit: (mask & 1) != 0,
                unreported: (mask & 2) != 0,
            };
            let price = reader.next_double()?;
            let size: i32 = reader.next_i32()?;
            let exchange = reader.next_text()?;
            let special_conditions = reader.next_text()?;
            ticks.push(
                HistoricalTickLast {
                    time,
                    tick_attrib_last,
                    price,
                    size,
                    exchange,
                    special_conditions,
                },
            );
            i = i + 1;
        }
        let done = reader.next_flag();
        Some(Event::HistoricalTicksLast { req_id, ticks, done })
    }
}

} // verus!
