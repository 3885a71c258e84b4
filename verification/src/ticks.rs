//! Messages on the market as it moves.
use crate::codes::{TickByTickType, TickType};
use crate::decoder::Decoder;
use crate::event::Event;
use crate::fields::{double_at, fields_if, int_at, long_at, Reader};
use crate::number::{AbsentMark, Double};
use crate::server_versions::{MIN_SERVER_VER_PAST_LIMIT, MIN_SERVER_VER_PRE_OPEN_BID_ASK};
use crate::types::{TickAttrib, TickAttribBidAsk, TickAttribLast};
use vstd::prelude::*;

verus! {

/// The conditions that a mask gives, as far as the server version knows them.
pub open spec fn tick_attrib(server_version: i32, mask: i32) -> TickAttrib {
    TickAttrib {
        can_auto_execute: if server_version >= MIN_SERVER_VER_PAST_LIMIT {
            (mask & 1) != 0
        } else {
            mask == 1
        },
        past_limit: server_version >= MIN_SERVER_VER_PAST_LIMIT && (mask & 2) != 0,
        pre_open: server_version >= MIN_SERVER_VER_PRE_OPEN_BID_ASK && (mask & 4) != 0,
    }
}

/// The type of the size that comes along with a price; `NotSet` where none does.
pub open spec fn spec_size_tick_type(price: TickType) -> TickType {
    match price {
        TickType::Bid => TickType::BidSize,
        TickType::Ask => TickType::AskSize,
        TickType::Last => TickType::LastSize,
        TickType::DelayedBid => TickType::DelayedBidSize,
        TickType::DelayedAsk => TickType::DelayedAskSize,
        TickType::DelayedLast => TickType::DelayedLastSize,
        _ => TickType::NotSet,
    }
}

/// The type of the size that comes along with a price; `NotSet` where none does.
pub fn size_tick_type(price: TickType) -> (r: TickType)
    ensures
        r == spec_size_tick_type(price),
{
    match price {
        TickType::Bid => TickType::BidSize,
        TickType::Ask => TickType::AskSize,
        TickType::Last => TickType::LastSize,
        TickType::DelayedBid => TickType::DelayedBidSize,
        TickType::DelayedAsk => TickType::DelayedAskSize,
        TickType::DelayedLast => TickType::DelayedLastSize,
        _ => TickType::NotSet,
    }
}

/// What a price message tells: the price, then the size where there is one for this type. None
/// where the message is too short or its tick type is unknown.
pub open spec fn tick_price_events(server_version: i32, f: Seq<String>) -> Option<Seq<Event>> {
    match TickType::of(int_at(f, 3)) {
        Some(tick_type) => if f.len() >= 7 {
            let price = Event::TickPrice {
                req_id: int_at(f, 2),
                tick_type,
                price: double_at(f, 4),
                attrib: tick_attrib(server_version, int_at(f, 6)),
            };
            let size_type = spec_size_tick_type(tick_type);
            if size_type == TickType::NotSet {
                Some(seq![price])
            } else {
                Some(
                    seq![
                        price,
                        Event::TickSize {
                            req_id: int_at(f, 2),
                            tick_type: size_type,
                            size: int_at(f, 5),
                        },
                    ],
                )
            }
        } else {
            None
        },
        None => None,
    }
}

/// What a size message tells.
pub open spec fn tick_size_event(f: Seq<String>) -> Option<Event> {
    match TickType::of(int_at(f, 3)) {
        Some(tick_type) => if f.len() >= 5 {
            Some(Event::TickSize { req_id: int_at(f, 2), tick_type, size: int_at(f, 4) })
        } else {
            None
        },
        None => None,
    }
}

/// What a text tick message tells.
pub open spec fn tick_string_event(f: Seq<String>) -> Option<Event> {
    match TickType::of(int_at(f, 3)) {
        Some(tick_type) => if f.len() >= 5 {
            Some(Event::TickString { req_id: int_at(f, 2), tick_type, value: f[4] })
        } else {
            None
        },
        None => None,
    }
}

/// What a generic tick message tells.
pub open spec fn tick_generic_event(f: Seq<String>) -> Option<Event> {
    match TickType::of(int_at(f, 3)) {
        Some(tick_type) => if f.len() >= 5 {
            Some(Event::TickGeneric { req_id: int_at(f, 2), tick_type, value: double_at(f, 4) })
        } else {
            None
        },
        None => None,
    }
}

/// What an exchange-for-physical message tells.
pub open spec fn tick_efp_event(f: Seq<String>) -> Option<Event> {
    match TickType::of(int_at(f, 3)) {
        Some(tick_type) => if f.len() >= 11 {
            Some(
                Event::TickEfp {
                    req_id: int_at(f, 2),
                    tick_type,
                    basis_points: double_at(f, 4),
                    formatted_basis_points: f[5],
                    implied_futures_price: double_at(f, 6),
                    hold_days: int_at(f, 7),
                    future_last_trade_date: f[8],
                    dividend_impact: double_at(f, 9),
                    dividends_to_last_trade_date: double_at(f, 10),
                },
            )
        } else {
            None
        },
        None => None,
    }
}

/// A computed value that may be left out, and that a mark says is not computed yet.
pub open spec fn computed_if(present: bool, f: Seq<String>, i: int, mark: AbsentMark) -> Double {
    if present {
        Double::Marked(f[i], mark)
    } else {
        Double::Max
    }
}

/// What an option computation message tells.
pub open spec fn tick_option_computation_event(f: Seq<String>) -> Option<Event> {
    let version = int_at(f, 1);
    let tick_type = TickType::of(int_at(f, 3));
    let priced = version >= 6 || tick_type == Some(TickType::ModelOption) || tick_type == Some(
        TickType::DelayedModelOption,
    );
    let gamma = 6 + fields_if(priced, 2);
    if tick_type is Some && f.len() >= gamma + fields_if(version >= 6, 4) {
        Some(
            Event::TickOptionComputation {
                req_id: int_at(f, 2),
                tick_type: tick_type->0,
                implied_vol: Double::Marked(f[4], AbsentMark::MinusOne),
                delta: Double::Marked(f[5], AbsentMark::MinusTwo),
                opt_price: computed_if(priced, f, 6, AbsentMark::MinusOne),
                pv_dividend: computed_if(priced, f, 7, AbsentMark::MinusOne),
                gamma: computed_if(version >= 6, f, gamma, AbsentMark::MinusTwo),
                vega: computed_if(version >= 6, f, gamma + 1, AbsentMark::MinusTwo),
                theta: computed_if(version >= 6, f, gamma + 2, AbsentMark::MinusTwo),
                und_price: computed_if(version >= 6, f, gamma + 3, AbsentMark::MinusOne),
            },
        )
    } else {
        None
    }
}

/// Reads a computed value that may be left out.
fn next_computed_if(reader: &mut Reader, present: bool, mark: AbsentMark) -> (r: Option<Double>)
    requires
        old(reader).wf(),
    ensures
        present ==> old(reader).moved(*final(reader)),
        !present ==> *final(reader) == *old(reader),
        r is Some <==> present ==> old(reader).at() < old(reader).all().len(),
        r is Some ==> r->0 == computed_if(present, old(reader).all(), old(reader).at(), mark),
{
    if present {
        let text = reader.next_text()?;
        Some(Double::Marked(text, mark))
    } else {
        Some(Double::Max)
    }
}

/// What a message on the terms of a request tells.
pub open spec fn tick_req_params_event(f: Seq<String>) -> Option<Event> {
    if f.len() >= 5 {
        Some(
            Event::TickReqParams {
                req_id: int_at(f, 1),
                min_tick: double_at(f, 2),
                bbo_exchange: f[3],
                snapshot_permissions: int_at(f, 4),
            },
        )
    } else {
        None
    }
}

/// What the end of a snapshot tells.
pub open spec fn tick_snapshot_end_event(f: Seq<String>) -> Option<Event> {
    if f.len() >= 3 {
        Some(Event::TickSnapshotEnd { req_id: int_at(f, 2) })
    } else {
        None
    }
}

/// What a message on the kind of market data tells.
pub open spec fn market_data_type_event(f: Seq<String>) -> Option<Event> {
    if f.len() >= 4 {
        Some(Event::MarketDataType { req_id: int_at(f, 2), market_data_type: int_at(f, 3) })
    } else {
        None
    }
}

/// What a tick-by-tick message tells: one event for a trade, a quote or a midpoint, and nothing
/// for a subscription of any other type.
pub open spec fn tick_by_tick_events(f: Seq<String>) -> Option<Seq<Event>> {
    let req_id = int_at(f, 1);
    let kind = int_at(f, 2);
    let time = long_at(f, 3);
    if f.len() < 4 {
        None
    } else if kind == 1 || kind == 2 {
        if f.len() >= 9 {
            Some(
                seq![
                    Event::TickByTickAllLast {
                        req_id,
                        tick_type: TickByTickType::of(kind)->0,
                        time,
                        price: double_at(f, 4),
                        size: int_at(f, 5),
                        attrib: TickAttribLast {
                            past_limit: (int_at(f, 6) & 1) != 0,
                            unreported: (int_at(f, 6) & 2) != 0,
                        },
                        exchange: f[7],
                        special_conditions: f[8],
                    },
                ],
            )
        } else {
            None
        }
    } else if kind == 3 {
        if f.len() >= 9 {
            Some(
                seq![
                    Event::TickByTickBidAsk {
                        req_id,
                        time,
                        bid_price: double_at(f, 4),
                        ask_price: double_at(f, 5),
                        bid_size: int_at(f, 6),
                        ask_size: int_at(f, 7),
                        attrib: TickAttribBidAsk {
                            bid_past_low: (int_at(f, 8) & 1) != 0,
                            ask_past_high: (int_at(f, 8) & 2) != 0,
                        },
                    },
                ],
            )
        } else {
            None
        }
    } else if kind == 4 {
        if f.len() >= 5 {
            Some(seq![Event::TickByTickMidPoint { req_id, time, mid_point: double_at(f, 4) }])
        } else {
            None
        }
    } else {
        Some(seq![])
    }
}

impl Decoder {
    /// Reads a price message.
    pub fn process_tick_price(server_version: i32, fields: &[String]) -> (r: Option<Vec<Event>>)
        ensures
            r is Some <==> tick_price_events(server_version, fields@) is Some,
            r is Some ==> r->0@ == tick_price_events(server_version, fields@)->0,
    {
        let mut reader = Reader::new(fields);
        reader.skip();
        reader.skip();
        let req_id: i32 = reader.next_i32()?;
        let code: i32 = reader.next_i32()?;
        let price = reader.next_double()?;
        let size: i32 = reader.next_i32()?;
        let attr_mask: i32 = reader.next_i32()?;
        let mut attrib = TickAttrib { can_auto_execute: false, past_limit: false, pre_open: false };
        attrib.can_auto_execute = attr_mask == 1;
        if server_version >= MIN_SERVER_VER_PAST_LIMIT {
            attrib.can_auto_execute = (attr_mask & 1) != 0;
            attrib.past_limit = (attr_mask & 2) != 0;
        }
        if server_version >= MIN_SERVER_VER_PRE_OPEN_BID_ASK {
            attrib.pre_open = (attr_mask & 4) != 0;
        }
        let tick_type = TickType::from_i32(code)?;
        let mut events: Vec<Event> = Vec::new();
        events.push(Event::TickPrice { req_id, tick_type, price, attrib });
        let size_type = size_tick_type(tick_type);
        if size_type != TickType::NotSet {
            events.push(Event::TickSize { req_id, tick_type: size_type, size });
        }
        assert(events@ == tick_price_events(server_version, fields@)->0);
        Some(events)
    }

    /// Reads a size message.
    pub fn process_tick_size(fields: &[String]) -> (r: Option<Event>)
        ensures
            r == tick_size_event(fields@),
    {
        let mut reader = Reader::new(fields);
        reader.skip();
        reader.skip();
        let req_id: i32 = reader.next_i32()?;
        let code: i32 = reader.next_i32()?;
        let size: i32 = reader.next_i32()?;
        let tick_type = TickType::from_i32(code)?;
        Some(Event::TickSize { req_id, tick_type, size })
    }

    /// Reads a text tick message.
    pub fn process_tick_string(fields: &[String]) -> (r: Option<Event>)
        ensures
            r == tick_string_event(fields@),
    {
        let mut reader = Reader::new(fields);
        reader.skip();
        reader.skip();
        let req_id: i32 = reader.next_i32()?;
        let code: i32 = reader.next_i32()?;
        let value = reader.next_text()?;
        let tick_type = TickType::from_i32(code)?;
        Some(Event::TickString { req_id, tick_type, value })
    }

    /// Reads a generic tick message.
    pub fn process_tick_generic(fields: &[String]) -> (r: Option<Event>)
        ensures
            r == tick_generic_event(fields@),
    {
        let mut reader = Reader::new(fields);
        reader.skip();
        reader.skip();
        let req_id: i32 = reader.next_i32()?;
        let code: i32 = reader.next_i32()?;
        let value = reader.next_double()?;
        let tick_type = TickType::from_i32(code)?;
        Some(Event::TickGeneric { req_id, tick_type, value })
    }

    /// Reads an exchange-for-physical message.
    pub fn process_tick_efp(fields: &[String]) -> (r: Option<Event>)
        ensures
            r == tick_efp_event(fields@),
    {
        let mut reader = Reader::new(fields);
        reader.skip();
        reader.skip();
        let req_id: i32 = reader.next_i32()?;
        let code: i32 = reader.next_i32()?;
        let basis_points = reader.next_double()?;
        let formatted_basis_points = reader.next_text()?;
        let implied_futures_price = reader.next_double()?;
        let hold_days: i32 = reader.next_i32()?;
        let future_last_trade_date = reader.next_text()?;
        let dividend_impact = reader.next_double()?;
        let dividends_to_last_trade_date = reader.next_double()?;
        let tick_type = TickType::from_i32(code)?;
        Some(
            Event::TickEfp {
                req_id,
                tick_type,
                basis_points,
                formatted_basis_points,
                implied_futures_price,
                hold_days,
                future_last_trade_date,
                dividend_impact,
                dividends_to_last_trade_date,
            },
        )
    }

    /// Reads an option computation message.
    pub fn process_tick_option_computation(fields: &[String]) -> (r: Option<Event>)
        ensures
            r == tick_option_computation_event(fields@),
    {
        let mut reader = Reader::new(fields);
        reader.skip();
        let version: i32 = reader.next_i32()?;
        let req_id: i32 = reader.next_i32()?;
        let code: i32 = reader.next_i32()?;
        let tick_type = TickType::from_i32(code)?;
        let greeks = version >= 6;
        let priced = greeks || tick_type == TickType::ModelOption || tick_type
            == TickType::DelayedModelOption;
        let implied_vol = next_computed_if(&mut reader, true, AbsentMark::MinusOne)?;
        let delta = next_computed_if(&mut reader, true, AbsentMark::MinusTwo)?;
        let opt_price = next_computed_if(&mut reader, priced, AbsentMark::MinusOne)?;
        let pv_dividend = next_computed_if(&mut reader, priced, AbsentMark::MinusOne)?;
        let gamma = next_computed_if(&mut reader, greeks, AbsentMark::MinusTwo)?;
        let vega = next_computed_if(&mut reader, greeks, AbsentMark::MinusTwo)?;
        let theta = next_computed_if(&mut reader, greeks, AbsentMark::MinusTwo)?;
        let und_price = next_computed_if(&mut reader, greeks, AbsentMark::MinusOne)?;
        Some(
            Event::TickOptionComputation {
                req_id,
                tick_type,
                implied_vol,
                delta,
                opt_price,
                pv_dividend,
                gamma,
                vega,
                theta,
                und_price,
            },
        )
    }

    /// Reads a message on the terms of a request.
    pub fn process_tick_req_params(fields: &[String]) -> (r: Option<Event>)
        ensures
            r == tick_req_params_event(fields@),
    {
        let mut reader = Reader::new(fields);
        reader.skip();
        let req_id: i32 = reader.next_i32()?;
        let min_tick = reader.next_double()?;
        let bbo_exchange = reader.next_text()?;
        let snapshot_permissions: i32 = reader.next_i32()?;
        Some(Event::TickReqParams { req_id, min_tick, bbo_exchange, snapshot_permissions })
    }

    /// Reads the end of a snapshot.
    pub fn process_tick_snapshot_end(fields: &[String]) -> (r: Option<Event>)
        ensures
            r == tick_snapshot_end_event(fields@),
    {
        let mut reader = Reader::new(fields);
        reader.skip();
        reader.skip();
        let req_id: i32 = reader.next_i32()?;
        Some(Event::TickSnapshotEnd { req_id })
    }

    /// Reads a message on the kind of market data.
    pub fn process_market_data_type(fields: &[String]) -> (r: Option<Event>)
        ensures
            r == market_data_type_event(fields@),
    {
        let mut reader = Reader::new(fields);
        reader.skip();
        reader.skip();
        let req_id: i32 = reader.next_i32()?;
        let market_data_type: i32 = reader.next_i32()?;
        Some(Event::MarketDataType { req_id, market_data_type })
    }

    /// Reads a tick-by-tick message.
    pub fn process_tick_by_tick(fields: &[String]) -> (r: Option<Vec<Event>>)
        ensures
            r is Some <==> tick_by_tick_events(fields@) is Some,
            r is Some ==> r->0@ == tick_by_tick_events(fields@)->0,
    {
        let mut reader = Reader::new(fields);
        reader.skip();
        let req_id: i32 = reader.next_i32()?;
        let kind: i32 = reader.next_i32()?;
        let time: i64 = reader.next_i64()?;
        let mut events: Vec<Event> = Vec::new();
        match kind {
            1..=2 => {
                let price = reader.next_double()?;
                let size: i32 = reader.next_i32()?;
                let mask: i32 = reader.next_i32()?;
                let attrib = TickAttribLast {
                    past_limit: (mask & 1) != 0,
                    unreported: (mask & 2) != 0,
                };
                let exchange = reader.next_text()?;
                let special_conditions = reader.next_text()?;
                let tick_type = TickByTickType::from_i32(kind)?;
                events.push(
                    Event::TickByTickAllLast {
                        req_id,
                        tick_type,
                        time,
                        price,
                        size,
                        attrib,
                        exchange,
                        special_conditions,
                    },
                );
            },
            3 => {
                let bid_price = reader.next_double()?;
                let ask_price = reader.next_double()?;
                let bid_size: i32 = reader.next_i32()?;
                let ask_size: i32 = reader.next_i32()?;
                let mask: i32 = reader.next_i32()?;
                let attrib = TickAttribBidAsk {
                    bid_past_low: (mask & 1) != 0,
                    ask_past_high: (mask & 2) != 0,
                };
                events.push(
                    Event::TickByTickBidAsk {
                        req_id,
                        time,
                        bid_price,
                        ask_price,
                        bid_size,
                        ask_size,
                        attrib,
                    },
                );
            },
            4 => {
                let mid_point = reader.next_double()?;
                events.push(Event::TickByTickMidPoint { req_id, time, mid_point });
            },
            _ => {},
        }
        assert(events@ == tick_by_tick_events(fields@)->0);
        Some(events)
    }
}

/// A price comes with a size exactly where its type has a type of size, and the two speak of the
/// same request.
pub proof fn lemma_size_goes_with_price(server_version: i32, f: Seq<String>)
    requires
        tick_price_events(server_version, f) is Some,
    ensures
        ({
            let events = tick_price_events(server_version, f)->0;
            let tick_type = TickType::of(int_at(f, 3))->0;
            &&& events[0] is TickPrice
            &&& events[0]->TickPrice_tick_type == tick_type
            &&& events.len() == 2 <==> {
                ||| tick_type == TickType::Bid
                ||| tick_type == TickType::Ask
                ||| tick_type == TickType::Last
                ||| tick_type == TickType::DelayedBid
                ||| tick_type == TickType::DelayedAsk
                ||| tick_type == TickType::DelayedLast
            }
            &&& events.len() == 2 ==> events[1] is TickSize && events[1]->TickSize_req_id
                == events[0]->TickPrice_req_id
        }),
{
}

} // verus!
