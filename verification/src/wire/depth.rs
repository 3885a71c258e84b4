//! Messages with market depth and market structure.
use crate::codes::IncomingMessageIds;
use crate::decoder::{is_any_interpretation, message_complete, Interpretation};
use crate::depth::{depth_description, depth_description_len, price_increments, smart_components};
use crate::event::Event;
use crate::number::Double;
use crate::server_versions::{MIN_SERVER_VER_SERVICE_DATA_TYPE, MIN_SERVER_VER_SMART_DEPTH};
use crate::types::{DepthMktDataDescription, PriceIncrement, SmartComponent};
use crate::wire::{
    begins, counts, lemma_all, lemma_beginning, lemma_kind, lemma_one_by_one, lemma_part, number,
    number_sent, one_by_one, sent_if, stands, text_sent, writes,
};
use vstd::prelude::*;

verus! {

/// A row of the book is told as it was written.
pub proof fn lemma_market_depth(
    server_version: i32,
    id: String,
    version: String,
    req_id: String,
    position: String,
    operation: String,
    side: String,
    price: String,
    size: String,
    r: Interpretation,
)
    requires
        writes(id, 12),
        is_any_interpretation(
            server_version,
            seq![id, version, req_id, position, operation, side, price, size],
            r,
        ),
    ensures
        r.ending is Done,
        r.events@ == seq![
            Event::UpdateMktDepth {
                req_id: number(req_id),
                position: number(position),
                operation: number(operation),
                side: number(side),
                price: Double::Parsed(price),
                size: number(size),
            },
        ],
{
    let f = seq![id, version, req_id, position, operation, side, price, size];
    lemma_kind(server_version, f, IncomingMessageIds::MarketDepth, r);
}

/// A market data request that is sent elsewhere is told as it was written.
pub proof fn lemma_reroute_mkt_data_req(
    server_version: i32,
    id: String,
    req_id: String,
    con_id: String,
    exchange: String,
    r: Interpretation,
)
    requires
        writes(id, 91),
        is_any_interpretation(server_version, seq![id, req_id, con_id, exchange], r),
    ensures
        r.ending is Done,
        r.events@ == seq![
            Event::RerouteMktDataReq {
                req_id: number(req_id),
                con_id: number(con_id),
                exchange,
            },
        ],
{
    let f = seq![id, req_id, con_id, exchange];
    lemma_kind(server_version, f, IncomingMessageIds::RerouteMktDataReq, r);
}

/// A market depth request that is sent elsewhere is told as it was written.
pub proof fn lemma_reroute_mkt_depth_req(
    server_version: i32,
    id: String,
    req_id: String,
    con_id: String,
    exchange: String,
    r: Interpretation,
)
    requires
        writes(id, 92),
        is_any_interpretation(server_version, seq![id, req_id, con_id, exchange], r),
    ensures
        r.ending is Done,
        r.events@ == seq![
            Event::RerouteMktDepthReq {
                req_id: number(req_id),
                con_id: number(con_id),
                exchange,
            },
        ],
{
    let f = seq![id, req_id, con_id, exchange];
    lemma_kind(server_version, f, IncomingMessageIds::RerouteMktDepthReq, r);
}

/// A row of the book with its maker, field by field.
pub struct MarketDepthL2Fields {
    pub id: String,
    pub version: String,
    pub req_id: String,
    pub position: String,
    pub market_maker: String,
    pub operation: String,
    pub side: String,
    pub price: String,
    pub size: String,
    pub is_smart_depth: String,
}

impl MarketDepthL2Fields {
    /// The message as a server sends it.
    pub open spec fn written(self, server_version: i32) -> Seq<String> {
        seq![
                self.id,
                self.version,
                self.req_id,
                self.position,
                self.market_maker,
                self.operation,
                self.side,
                self.price,
                self.size,
            ]
            + sent_if(server_version >= MIN_SERVER_VER_SMART_DEPTH, seq![self.is_smart_depth])
    }

    /// Whether `e` tells the row.
    pub open spec fn told(self, server_version: i32, e: Event) -> bool {
        e == (Event::UpdateMktDepthL2 {
            req_id: number(self.req_id),
            position: number(self.position),
            market_maker: self.market_maker,
            operation: number(self.operation),
            side: number(self.side),
            price: Double::Parsed(self.price),
            size: number(self.size),
            is_smart_depth: server_version >= MIN_SERVER_VER_SMART_DEPTH && number(
                self.is_smart_depth,
            ) != 0,
        })
    }
}

/// A row of the book with its maker is told as it was written.
pub proof fn lemma_market_depth_l2(
    server_version: i32,
    m: MarketDepthL2Fields,
    r: Interpretation,
)
    requires
        writes(m.id, 13),
        is_any_interpretation(server_version, m.written(server_version), r),
    ensures
        r.ending is Done,
        r.events@.len() == 1,
        m.told(server_version, r.events@[0]),
{
    let f = m.written(server_version);
    lemma_all(f);
    lemma_market_depth_l2_read(server_version, m, f, r);
}

/// What is read of the fields of such a message.
#[verifier::spinoff_prover]
#[verifier::rlimit(40)]
proof fn lemma_market_depth_l2_read(
    server_version: i32,
    m: MarketDepthL2Fields,
    f: Seq<String>,
    r: Interpretation,
)
    requires
        writes(m.id, 13),
        begins(f, m.written(server_version)),
        f.len() == m.written(server_version).len(),
        is_any_interpretation(server_version, f, r),
    ensures
        r.ending is Done,
        r.events@.len() == 1,
        m.told(server_version, r.events@[0]),
{
    let a0 = seq![
            m.id,
            m.version,
            m.req_id,
            m.position,
            m.market_maker,
            m.operation,
            m.side,
            m.price,
            m.size,
        ];
    let p1 = sent_if(server_version >= MIN_SERVER_VER_SMART_DEPTH, seq![m.is_smart_depth]);
    let a1 = a0 + p1;
    lemma_part(f, a0, p1);
    let n0 = a0.len() as int;
    let n1 = a1.len() as int;
    assert({
        &&& f[0] == m.id
        &&& f[1] == m.version
        &&& f[2] == m.req_id
        &&& f[3] == m.position
        &&& f[4] == m.market_maker
        &&& f[5] == m.operation
        &&& f[6] == m.side
        &&& f[7] == m.price
        &&& f[8] == m.size
    }) by {
        lemma_beginning(f, a0);
    }
    assert(server_version >= MIN_SERVER_VER_SMART_DEPTH ==> f[n0] == m.is_smart_depth) by {
        reveal(stands);
        if server_version >= MIN_SERVER_VER_SMART_DEPTH {
            assert(p1[0] == m.is_smart_depth);
        }
    }
    lemma_kind(server_version, f, IncomingMessageIds::MarketDepthL2, r);
}

/// A missing flag at the end of a row of the book is one that is not set.
pub proof fn lemma_market_depth_l2_short(
    server_version: i32,
    id: String,
    version: String,
    req_id: String,
    position: String,
    market_maker: String,
    operation: String,
    side: String,
    price: String,
    size: String,
    r: Interpretation,
)
    requires
        writes(id, 13),
        is_any_interpretation(
            server_version,
            seq![id, version, req_id, position, market_maker, operation, side, price, size],
            r,
        ),
    ensures
        r.ending is Done,
        r.events@ == seq![
            Event::UpdateMktDepthL2 {
                req_id: number(req_id),
                position: number(position),
                market_maker,
                operation: number(operation),
                side: number(side),
                price: Double::Parsed(price),
                size: number(size),
                is_smart_depth: false,
            },
        ],
{
    let f = seq![id, version, req_id, position, market_maker, operation, side, price, size];
    lemma_kind(server_version, f, IncomingMessageIds::MarketDepthL2, r);
}

/// An exchange that offers market depth, field by field.
pub struct DepthExchangeFields {
    pub exchange: String,
    pub sec_type: String,
    pub ignored: String,
    pub listing_exch: String,
    pub service_data_type: String,
    pub agg_group: String,
}

impl DepthExchangeFields {
    /// The exchange as a server sends it; an old one says less of it, and a flag that is ignored.
    pub open spec fn written(self, server_version: i32) -> Seq<String> {
        seq![self.exchange, self.sec_type] + if server_version >= MIN_SERVER_VER_SERVICE_DATA_TYPE {
            seq![self.listing_exch, self.service_data_type, self.agg_group]
        } else {
            seq![self.ignored]
        }
    }

    /// Whether `d` describes the exchange.
    pub open spec fn described(self, server_version: i32, d: DepthMktDataDescription) -> bool {
        let newer = server_version >= MIN_SERVER_VER_SERVICE_DATA_TYPE;
        &&& d.exchange@ == self.exchange@
        &&& d.sec_type@ == self.sec_type@
        &&& d.listing_exch@ == text_sent(newer, self.listing_exch)
        &&& d.service_data_type@ == text_sent(newer, self.service_data_type)
        &&& d.agg_group == number_sent(newer, self.agg_group)
    }
}

/// Exchanges that offer market depth are told as they were written.
pub proof fn lemma_market_depth_exchanges(
    server_version: i32,
    id: String,
    count: String,
    entries: Seq<DepthExchangeFields>,
    r: Interpretation,
)
    requires
        writes(id, 80),
        counts(count, entries.len()),
        is_any_interpretation(
            server_version,
            seq![id, count] + one_by_one(
                entries.map_values(|e: DepthExchangeFields| e.written(server_version)),
            ),
            r,
        ),
    ensures
        r.ending is Done,
        r.events@.len() == 1,
        r.events@[0] matches Event::MktDepthExchanges { descriptions } && {
            &&& descriptions@.len() == entries.len()
            &&& forall|i: int|
                0 <= i < entries.len() ==> entries[i].described(
                    server_version,
                    #[trigger] descriptions@[i],
                )
        },
{
    let parts = entries.map_values(|e: DepthExchangeFields| e.written(server_version));
    let f = seq![id, count] + one_by_one(parts);
    assert(message_complete(IncomingMessageIds::MktDepthExchanges, server_version, f)) by {
        lemma_one_by_one(parts, depth_description_len(server_version));
    }
    lemma_kind(server_version, f, IncomingMessageIds::MktDepthExchanges, r);
    let descriptions = r.events@[0]->descriptions@;
    assert forall|i: int| 0 <= i < entries.len() implies entries[i].described(
        server_version,
        #[trigger] descriptions[i],
    ) by {
        lemma_exchange(server_version, seq![id, count], entries, i);
    }
}

/// Where an exchange is in a message.
proof fn lemma_exchange(
    server_version: i32,
    head: Seq<String>,
    entries: Seq<DepthExchangeFields>,
    i: int,
)
    requires
        head.len() == 2,
        0 <= i < entries.len(),
    ensures
        ({
            let newer = server_version >= MIN_SERVER_VER_SERVICE_DATA_TYPE;
            let parts = entries.map_values(|e: DepthExchangeFields| e.written(server_version));
            let d = depth_description(
                server_version,
                head + one_by_one(parts),
                2 + i * depth_description_len(server_version),
            );
            &&& d.exchange == entries[i].exchange@
            &&& d.sec_type == entries[i].sec_type@
            &&& d.listing_exch == text_sent(newer, entries[i].listing_exch)
            &&& d.service_data_type == text_sent(newer, entries[i].service_data_type)
            &&& d.agg_group == number_sent(newer, entries[i].agg_group)
        }),
{
    let parts = entries.map_values(|e: DepthExchangeFields| e.written(server_version));
    let part = parts[i];
    assert(part == entries[i].written(server_version));
    if server_version >= MIN_SERVER_VER_SERVICE_DATA_TYPE {
        lemma_one_by_one(parts, 5);
        assert(part[0] == entries[i].exchange);
        assert(part[1] == entries[i].sec_type);
        assert(part[2] == entries[i].listing_exch);
        assert(part[3] == entries[i].service_data_type);
        assert(part[4] == entries[i].agg_group);
    } else {
        lemma_one_by_one(parts, 3);
        assert(part[0] == entries[i].exchange);
        assert(part[1] == entries[i].sec_type);
    }
}

/// A price step, field by field.
pub struct PriceIncrementFields {
    pub low_edge: String,
    pub increment: String,
}

impl PriceIncrementFields {
    /// The entry as a server sends it.
    pub open spec fn written(self) -> Seq<String> {
        seq![self.low_edge, self.increment]
    }

    /// The entry that is meant.
    pub open spec fn meant(self) -> PriceIncrement {
        PriceIncrement {
            low_edge: Double::Parsed(self.low_edge),
            increment: Double::Parsed(self.increment),
        }
    }
}

/// Price steps are told as they were written.
#[verifier::spinoff_prover]
pub proof fn lemma_market_rule(
    server_version: i32,
    id: String,
    market_rule_id: String,
    count: String,
    entries: Seq<PriceIncrementFields>,
    r: Interpretation,
)
    requires
        writes(id, 93),
        counts(count, entries.len()),
        is_any_interpretation(
            server_version,
            seq![id, market_rule_id, count] + one_by_one(
                entries.map_values(|e: PriceIncrementFields| e.written()),
            ),
            r,
        ),
    ensures
        r.ending is Done,
        r.events@.len() == 1,
        r.events@[0] matches Event::MarketRule {
            market_rule_id: rule,
            price_increments: items,
        } && {
            &&& rule == number(market_rule_id)
            &&& items@ == entries.map_values(|e: PriceIncrementFields| e.meant())
        },
{
    let parts = entries.map_values(|e: PriceIncrementFields| e.written());
    let meant = entries.map_values(|e: PriceIncrementFields| e.meant());
    let f = seq![id, market_rule_id, count] + one_by_one(parts);
    assert(one_by_one(parts).len() == 2 * entries.len()) by {
        lemma_one_by_one(parts, 2);
    }
    assert(f[0] == id && f[1] == market_rule_id && f[2] == count);
    assert(price_increments(f, 3, entries.len()) == meant) by {
        lemma_one_by_one(parts, 2);
        let read = price_increments(f, 3, entries.len());
        assert forall|i: int| 0 <= i < entries.len() implies read[i] == #[trigger] meant[i] by {
            let part = parts[i];
            assert(part[0] == entries[i].low_edge);
            assert(part[1] == entries[i].increment);
        }
        assert(read =~= meant);
    }
    lemma_kind(server_version, f, IncomingMessageIds::MarketRule, r);
}

/// An exchange behind smart routing, field by field.
pub struct SmartComponentFields {
    pub bit_number: String,
    pub exchange: String,
    pub exchange_letter: String,
}

impl SmartComponentFields {
    /// The entry as a server sends it.
    pub open spec fn written(self) -> Seq<String> {
        seq![self.bit_number, self.exchange, self.exchange_letter]
    }

    /// The entry that is meant.
    pub open spec fn meant(self) -> SmartComponent {
        SmartComponent {
            bit_number: number(self.bit_number),
            exchange: self.exchange,
            exchange_letter: self.exchange_letter,
        }
    }
}

/// Exchanges behind smart routing are told as they were written.
#[verifier::spinoff_prover]
pub proof fn lemma_smart_components(
    server_version: i32,
    id: String,
    req_id: String,
    count: String,
    entries: Seq<SmartComponentFields>,
    r: Interpretation,
)
    requires
        writes(id, 82),
        counts(count, entries.len()),
        is_any_interpretation(
            server_version,
            seq![id, req_id, count] + one_by_one(
                entries.map_values(|e: SmartComponentFields| e.written()),
            ),
            r,
        ),
    ensures
        r.ending is Done,
        r.events@.len() == 1,
        r.events@[0] matches Event::SmartComponents { req_id: request, components: items } && {
            &&& request == number(req_id)
            &&& items@ == entries.map_values(|e: SmartComponentFields| e.meant())
        },
{
    let parts = entries.map_values(|e: SmartComponentFields| e.written());
    let meant = entries.map_values(|e: SmartComponentFields| e.meant());
    let f = seq![id, req_id, count] + one_by_one(parts);
    assert(one_by_one(parts).len() == 3 * entries.len()) by {
        lemma_one_by_one(parts, 3);
    }
    assert(f[0] == id && f[1] == req_id && f[2] == count);
    assert(smart_components(f, 3, entries.len()) == meant) by {
        lemma_one_by_one(parts, 3);
        let read = smart_components(f, 3, entries.len());
        assert forall|i: int| 0 <= i < entries.len() implies read[i] == #[trigger] meant[i] by {
            let part = parts[i];
            assert(part[0] == entries[i].bit_number);
            assert(part[1] == entries[i].exchange);
            assert(part[2] == entries[i].exchange_letter);
        }
        assert(read =~= meant);
    }
    lemma_kind(server_version, f, IncomingMessageIds::SmartComponents, r);
}

} // verus!
