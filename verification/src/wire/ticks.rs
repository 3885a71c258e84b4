//! Messages with ticks.
use crate::codes::{IncomingMessageIds, TickByTickType, TickType};
use crate::decoder::{is_any_interpretation, Interpretation};
use crate::event::Event;
use crate::number::{AbsentMark, Double};
use crate::server_versions::{MIN_SERVER_VER_PAST_LIMIT, MIN_SERVER_VER_PRE_OPEN_BID_ASK};
use crate::ticks::{tick_by_tick_events, tick_efp_event};
use crate::types::{TickAttrib, TickAttribBidAsk, TickAttribLast};
use crate::wire::{
    begins, bit, lemma_all, lemma_beginning, lemma_bits, lemma_kind, lemma_part, long, number,
    sent_if, stands, writes,
};
use vstd::prelude::*;

verus! {

/// The attributes that a mask gives, as the server version says: the whole mask is one flag, or its
/// bits are flags, of which the third came later.
pub open spec fn attrib_of(server_version: i32, mask: i32) -> TickAttrib {
    if server_version < MIN_SERVER_VER_PAST_LIMIT {
        TickAttrib { can_auto_execute: mask == 1, past_limit: false, pre_open: false }
    } else {
        TickAttrib {
            can_auto_execute: bit(mask, 1),
            past_limit: bit(mask, 2),
            pre_open: server_version >= MIN_SERVER_VER_PRE_OPEN_BID_ASK && bit(mask, 4),
        }
    }
}

/// The size that goes with a type of price, if one does.
pub open spec fn size_of(kind: TickType) -> Option<TickType> {
    match kind {
        TickType::Bid => Some(TickType::BidSize),
        TickType::Ask => Some(TickType::AskSize),
        TickType::Last => Some(TickType::LastSize),
        TickType::DelayedBid => Some(TickType::DelayedBidSize),
        TickType::DelayedAsk => Some(TickType::DelayedAskSize),
        TickType::DelayedLast => Some(TickType::DelayedLastSize),
        _ => None,
    }
}

/// A price message, field by field.
pub struct TickPriceFields {
    pub id: String,
    pub version: String,
    pub req_id: String,
    pub tick_type: String,
    pub price: String,
    pub size: String,
    pub attr_mask: String,
}

impl TickPriceFields {
    /// The message as a server sends it.
    pub open spec fn written(self) -> Seq<String> {
        seq![
            self.id,
            self.version,
            self.req_id,
            self.tick_type,
            self.price,
            self.size,
            self.attr_mask,
        ]
    }
}

/// A price is told as it was written, whatever its type, and then its size where one goes with it.
pub proof fn lemma_tick_price(
    server_version: i32,
    m: TickPriceFields,
    kind: TickType,
    r: Interpretation,
)
    requires
        writes(m.id, 1),
        number(m.tick_type) == kind.code(),
        is_any_interpretation(server_version, m.written(), r),
    ensures
        r.ending is Done,
        r.events@ == seq![
            Event::TickPrice {
                req_id: number(m.req_id),
                tick_type: kind,
                price: Double::Parsed(m.price),
                attrib: attrib_of(server_version, number(m.attr_mask)),
            },
        ] + match size_of(kind) {
            Some(size_type) => seq![
                Event::TickSize {
                    req_id: number(m.req_id),
                    tick_type: size_type,
                    size: number(m.size),
                },
            ],
            None => seq![],
        },
{
    kind.lemma_code(kind.code());
    lemma_bits(number(m.attr_mask));
    lemma_kind(server_version, m.written(), IncomingMessageIds::TickPrice, r);
}

/// The price that is told is decided by the field of the price alone: two messages that agree in it
/// tell the same price, whatever their types and sizes are.
pub proof fn lemma_price_decides(
    server_version: i32,
    a: TickPriceFields,
    b: TickPriceFields,
    kind: TickType,
    other_kind: TickType,
    r: Interpretation,
    s: Interpretation,
)
    requires
        writes(a.id, 1),
        writes(b.id, 1),
        number(a.tick_type) == kind.code(),
        number(b.tick_type) == other_kind.code(),
        a.price == b.price,
        is_any_interpretation(server_version, a.written(), r),
        is_any_interpretation(server_version, b.written(), s),
    ensures
        r.events@[0]->TickPrice_price == s.events@[0]->TickPrice_price,
{
    lemma_tick_price(server_version, a, kind, r);
    lemma_tick_price(server_version, b, other_kind, s);
}

/// The size has no part in the event of the price.
pub proof fn lemma_size_does_not_matter(
    server_version: i32,
    m: TickPriceFields,
    kind: TickType,
    size: String,
    r: Interpretation,
    s: Interpretation,
)
    requires
        writes(m.id, 1),
        number(m.tick_type) == kind.code(),
        is_any_interpretation(server_version, m.written(), r),
        is_any_interpretation(server_version, (TickPriceFields { size, ..m }).written(), s),
    ensures
        r.events@[0] == s.events@[0],
{
    lemma_tick_price(server_version, m, kind, r);
    lemma_tick_price(server_version, TickPriceFields { size, ..m }, kind, s);
}

/// A size is told as it was written.
pub proof fn lemma_tick_size(
    server_version: i32,
    id: String,
    version: String,
    req_id: String,
    tick_type: String,
    size: String,
    kind: TickType,
    r: Interpretation,
)
    requires
        writes(id, 2),
        number(tick_type) == kind.code(),
        is_any_interpretation(server_version, seq![id, version, req_id, tick_type, size], r),
    ensures
        r.ending is Done,
        r.events@ == seq![
            Event::TickSize {
                req_id: number(req_id),
                tick_type: kind,
                size: number(size),
            },
        ],
{
    kind.lemma_code(kind.code());
    let f = seq![id, version, req_id, tick_type, size];
    lemma_kind(server_version, f, IncomingMessageIds::TickSize, r);
}

/// A text is told as it was written.
pub proof fn lemma_tick_string(
    server_version: i32,
    id: String,
    version: String,
    req_id: String,
    tick_type: String,
    value: String,
    kind: TickType,
    r: Interpretation,
)
    requires
        writes(id, 46),
        number(tick_type) == kind.code(),
        is_any_interpretation(server_version, seq![id, version, req_id, tick_type, value], r),
    ensures
        r.ending is Done,
        r.events@ == seq![Event::TickString { req_id: number(req_id), tick_type: kind, value }],
{
    kind.lemma_code(kind.code());
    let f = seq![id, version, req_id, tick_type, value];
    lemma_kind(server_version, f, IncomingMessageIds::TickString, r);
}

/// A value is told as it was written.
pub proof fn lemma_tick_generic(
    server_version: i32,
    id: String,
    version: String,
    req_id: String,
    tick_type: String,
    value: String,
    kind: TickType,
    r: Interpretation,
)
    requires
        writes(id, 45),
        number(tick_type) == kind.code(),
        is_any_interpretation(server_version, seq![id, version, req_id, tick_type, value], r),
    ensures
        r.ending is Done,
        r.events@ == seq![
            Event::TickGeneric {
                req_id: number(req_id),
                tick_type: kind,
                value: Double::Parsed(value),
            },
        ],
{
    kind.lemma_code(kind.code());
    let f = seq![id, version, req_id, tick_type, value];
    lemma_kind(server_version, f, IncomingMessageIds::TickGeneric, r);
}

/// The terms of a request are told as they were written.
pub proof fn lemma_tick_req_params(
    server_version: i32,
    id: String,
    req_id: String,
    min_tick: String,
    bbo_exchange: String,
    snapshot_permissions: String,
    r: Interpretation,
)
    requires
        writes(id, 81),
        is_any_interpretation(
            server_version,
            seq![id, req_id, min_tick, bbo_exchange, snapshot_permissions],
            r,
        ),
    ensures
        r.ending is Done,
        r.events@ == seq![
            Event::TickReqParams {
                req_id: number(req_id),
                min_tick: Double::Parsed(min_tick),
                bbo_exchange,
                snapshot_permissions: number(snapshot_permissions),
            },
        ],
{
    let f = seq![id, req_id, min_tick, bbo_exchange, snapshot_permissions];
    lemma_kind(server_version, f, IncomingMessageIds::TickReqParams, r);
}

/// The end of a snapshot is told as it was written.
pub proof fn lemma_tick_snapshot_end(
    server_version: i32,
    id: String,
    version: String,
    req_id: String,
    r: Interpretation,
)
    requires
        writes(id, 57),
        is_any_interpretation(server_version, seq![id, version, req_id], r),
    ensures
        r.ending is Done,
        r.events@ == seq![Event::TickSnapshotEnd { req_id: number(req_id) }],
{
    lemma_kind(server_version, seq![id, version, req_id], IncomingMessageIds::TickSnapshotEnd, r);
}

/// The kind of market data is told as it was written.
pub proof fn lemma_market_data_type(
    server_version: i32,
    id: String,
    version: String,
    req_id: String,
    market_data_type: String,
    r: Interpretation,
)
    requires
        writes(id, 58),
        is_any_interpretation(server_version, seq![id, version, req_id, market_data_type], r),
    ensures
        r.ending is Done,
        r.events@ == seq![
            Event::MarketDataType {
                req_id: number(req_id),
                market_data_type: number(market_data_type),
            },
        ],
{
    let f = seq![id, version, req_id, market_data_type];
    lemma_kind(server_version, f, IncomingMessageIds::MarketDataType, r);
}

/// An exchange for physical is told as it was written.
pub proof fn lemma_tick_efp(
    id: String,
    version: String,
    req_id: String,
    tick_type: String,
    basis_points: String,
    formatted_basis_points: String,
    implied_futures_price: String,
    hold_days: String,
    future_last_trade_date: String,
    dividend_impact: String,
    dividends_to_last_trade_date: String,
    kind: TickType,
)
    requires
        number(tick_type) == kind.code(),
    ensures
        tick_efp_event(
            seq![
                id,
                version,
                req_id,
                tick_type,
                basis_points,
                formatted_basis_points,
                implied_futures_price,
                hold_days,
                future_last_trade_date,
                dividend_impact,
                dividends_to_last_trade_date,
            ],
        ) == Some(
            Event::TickEfp {
                req_id: number(req_id),
                tick_type: kind,
                basis_points: Double::Parsed(basis_points),
                formatted_basis_points,
                implied_futures_price: Double::Parsed(implied_futures_price),
                hold_days: number(hold_days),
                future_last_trade_date,
                dividend_impact: Double::Parsed(dividend_impact),
                dividends_to_last_trade_date: Double::Parsed(dividends_to_last_trade_date),
            },
        ),
{
    kind.lemma_code(kind.code());
}

/// A computed value that is sent under a condition only, and for which a mark says that it has not
/// been computed yet.
pub open spec fn marked_if(condition: bool, field: String, mark: AbsentMark) -> Double {
    if condition {
        Double::Marked(field, mark)
    } else {
        Double::Max
    }
}

/// An option computation, field by field.
pub struct OptionComputationFields {
    pub id: String,
    pub version: String,
    pub req_id: String,
    pub tick_type: String,
    pub implied_vol: String,
    pub delta: String,
    pub opt_price: String,
    pub pv_dividend: String,
    pub gamma: String,
    pub vega: String,
    pub theta: String,
    pub und_price: String,
}

impl OptionComputationFields {
    /// Whether the price of the option is sent: with a newer message, or for one of the two types
    /// that come of a model.
    pub open spec fn priced(self) -> bool {
        ||| number(self.version) >= 6
        ||| number(self.tick_type) == 13
        ||| number(self.tick_type) == 83
    }

    /// The message as a server sends it.
    pub open spec fn written(self, server_version: i32) -> Seq<String> {
        seq![
                self.id,
                self.version,
                self.req_id,
                self.tick_type,
                self.implied_vol,
                self.delta,
            ]
            + sent_if(self.priced(), seq![self.opt_price, self.pv_dividend])
            + sent_if(
                number(self.version) >= 6,
                seq![self.gamma, self.vega, self.theta, self.und_price],
            )
    }

    /// Whether `e` tells each value under its own name.
    pub open spec fn told(self, server_version: i32, kind: TickType, e: Event) -> bool {
        e == (Event::TickOptionComputation {
            req_id: number(self.req_id),
            tick_type: kind,
            implied_vol: Double::Marked(self.implied_vol, AbsentMark::MinusOne),
            delta: Double::Marked(self.delta, AbsentMark::MinusTwo),
            opt_price: marked_if(self.priced(), self.opt_price, AbsentMark::MinusOne),
            pv_dividend: marked_if(self.priced(), self.pv_dividend, AbsentMark::MinusOne),
            gamma: marked_if(number(self.version) >= 6, self.gamma, AbsentMark::MinusTwo),
            vega: marked_if(number(self.version) >= 6, self.vega, AbsentMark::MinusTwo),
            theta: marked_if(number(self.version) >= 6, self.theta, AbsentMark::MinusTwo),
            und_price: marked_if(number(self.version) >= 6, self.und_price, AbsentMark::MinusOne),
        })
    }
}

/// An option computation is told as it was written.
pub proof fn lemma_tick_option_computation(
    server_version: i32,
    m: OptionComputationFields,
    kind: TickType,
    r: Interpretation,
)
    requires
        writes(m.id, 21),
        number(m.tick_type) == kind.code(),
        is_any_interpretation(server_version, m.written(server_version), r),
    ensures
        r.ending is Done,
        r.events@.len() == 1,
        m.told(server_version, kind, r.events@[0]),
{
    let f = m.written(server_version);
    lemma_all(f);
    lemma_tick_option_computation_read(server_version, m, kind, f, r);
}

/// What is read of the fields of such a message.
#[verifier::spinoff_prover]
#[verifier::rlimit(40)]
proof fn lemma_tick_option_computation_read(
    server_version: i32,
    m: OptionComputationFields,
    kind: TickType,
    f: Seq<String>,
    r: Interpretation,
)
    requires
        writes(m.id, 21),
        number(m.tick_type) == kind.code(),
        begins(f, m.written(server_version)),
        f.len() == m.written(server_version).len(),
        is_any_interpretation(server_version, f, r),
    ensures
        r.ending is Done,
        r.events@.len() == 1,
        m.told(server_version, kind, r.events@[0]),
{
    kind.lemma_code(kind.code());
    TickType::ModelOption.lemma_code(number(m.tick_type));
    TickType::DelayedModelOption.lemma_code(number(m.tick_type));
    let a0 = seq![
            m.id,
            m.version,
            m.req_id,
            m.tick_type,
            m.implied_vol,
            m.delta,
        ];
    let p1 = sent_if(m.priced(), seq![m.opt_price, m.pv_dividend]);
    let a1 = a0 + p1;
    let p2 = sent_if(number(m.version) >= 6, seq![m.gamma, m.vega, m.theta, m.und_price]);
    let a2 = a1 + p2;
    lemma_part(f, a1, p2);
    lemma_part(f, a0, p1);
    let n0 = a0.len() as int;
    let n1 = a1.len() as int;
    let n2 = a2.len() as int;
    assert({
        &&& f[0] == m.id
        &&& f[1] == m.version
        &&& f[2] == m.req_id
        &&& f[3] == m.tick_type
        &&& f[4] == m.implied_vol
        &&& f[5] == m.delta
    }) by {
        lemma_beginning(f, a0);
    }
    assert(m.priced() ==> f[n0] == m.opt_price && f[n0 + 1] == m.pv_dividend) by {
        reveal(stands);
        if m.priced() {
            assert(p1[0] == m.opt_price);
            assert(p1[1] == m.pv_dividend);
        }
    }
    assert(number(m.version) >= 6 ==> {
        &&& f[n1] == m.gamma
        &&& f[n1 + 1] == m.vega
        &&& f[n1 + 2] == m.theta
        &&& f[n1 + 3] == m.und_price
    }) by {
        reveal(stands);
        if number(m.version) >= 6 {
            assert(p2[0] == m.gamma);
            assert(p2[1] == m.vega);
            assert(p2[2] == m.theta);
            assert(p2[3] == m.und_price);
        }
    }
    lemma_kind(server_version, f, IncomingMessageIds::TickOptionComputation, r);
}

/// Whether a field names a tick-by-tick message, or the kind that is read as one.
pub open spec fn names_tick_by_tick(id: String) -> bool {
    writes(id, 99) || writes(id, 47)
}

/// A complete tick-by-tick message is read to its end.
proof fn lemma_tick_by_tick(server_version: i32, f: Seq<String>, r: Interpretation)
    requires
        f.len() > 0,
        names_tick_by_tick(f[0]),
        tick_by_tick_events(f) is Some,
        is_any_interpretation(server_version, f, r),
    ensures
        r.ending is Done,
        tick_by_tick_events(f) == Some(r.events@),
{
    if writes(f[0], 99) {
        lemma_kind(server_version, f, IncomingMessageIds::TickByTick, r);
    } else {
        lemma_kind(server_version, f, IncomingMessageIds::TickEfp, r);
    }
}

/// A trade is told as it was written: of the type one the last ones, of the type two all of them.
pub proof fn lemma_trade(
    server_version: i32,
    id: String,
    req_id: String,
    tick_type: String,
    time: String,
    price: String,
    size: String,
    mask: String,
    exchange: String,
    special_conditions: String,
    r: Interpretation,
)
    requires
        names_tick_by_tick(id),
        number(tick_type) == 1 || number(tick_type) == 2,
        is_any_interpretation(
            server_version,
            seq![id, req_id, tick_type, time, price, size, mask, exchange, special_conditions],
            r,
        ),
    ensures
        r.ending is Done,
        r.events@ == seq![
            Event::TickByTickAllLast {
                req_id: number(req_id),
                tick_type: if number(tick_type) == 1 {
                    TickByTickType::Last
                } else {
                    TickByTickType::AllLast
                },
                time: long(time),
                price: Double::Parsed(price),
                size: number(size),
                attrib: TickAttribLast {
                    past_limit: bit(number(mask), 1),
                    unreported: bit(number(mask), 2),
                },
                exchange,
                special_conditions,
            },
        ],
{
    let f = seq![id, req_id, tick_type, time, price, size, mask, exchange, special_conditions];
    lemma_bits(number(mask));
    lemma_tick_by_tick(server_version, f, r);
}

/// A quote is told as it was written.
pub proof fn lemma_quote(
    server_version: i32,
    id: String,
    req_id: String,
    tick_type: String,
    time: String,
    bid_price: String,
    ask_price: String,
    bid_size: String,
    ask_size: String,
    mask: String,
    r: Interpretation,
)
    requires
        names_tick_by_tick(id),
        number(tick_type) == 3,
        is_any_interpretation(
            server_version,
            seq![id, req_id, tick_type, time, bid_price, ask_price, bid_size, ask_size, mask],
            r,
        ),
    ensures
        r.ending is Done,
        r.events@ == seq![
            Event::TickByTickBidAsk {
                req_id: number(req_id),
                time: long(time),
                bid_price: Double::Parsed(bid_price),
                ask_price: Double::Parsed(ask_price),
                bid_size: number(bid_size),
                ask_size: number(ask_size),
                attrib: TickAttribBidAsk {
                    bid_past_low: bit(number(mask), 1),
                    ask_past_high: bit(number(mask), 2),
                },
            },
        ],
{
    let f = seq![id, req_id, tick_type, time, bid_price, ask_price, bid_size, ask_size, mask];
    lemma_bits(number(mask));
    lemma_tick_by_tick(server_version, f, r);
}

/// A midpoint is told as it was written.
pub proof fn lemma_midpoint(
    server_version: i32,
    id: String,
    req_id: String,
    tick_type: String,
    time: String,
    mid_point: String,
    r: Interpretation,
)
    requires
        names_tick_by_tick(id),
        number(tick_type) == 4,
        is_any_interpretation(server_version, seq![id, req_id, tick_type, time, mid_point], r),
    ensures
        r.ending is Done,
        r.events@ == seq![
            Event::TickByTickMidPoint {
                req_id: number(req_id),
                time: long(time),
                mid_point: Double::Parsed(mid_point),
            },
        ],
{
    lemma_tick_by_tick(server_version, seq![id, req_id, tick_type, time, mid_point], r);
}

/// A tick-by-tick message of any other type tells nothing.
pub proof fn lemma_no_tick(
    server_version: i32,
    id: String,
    req_id: String,
    tick_type: String,
    time: String,
    r: Interpretation,
)
    requires
        names_tick_by_tick(id),
        number(tick_type) < 1 || number(tick_type) > 4,
        is_any_interpretation(server_version, seq![id, req_id, tick_type, time], r),
    ensures
        r.ending is Done,
        r.events@.len() == 0,
{
    lemma_tick_by_tick(server_version, seq![id, req_id, tick_type, time], r);
}

} // verus!
