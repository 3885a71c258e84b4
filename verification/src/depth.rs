//! Messages on market depth, on exchanges and on price steps.
use crate::decoder::Decoder;
use crate::event::Event;
use crate::fields::{count_at, double_at, flag_at, int_at, Reader};
use crate::server_versions::{MIN_SERVER_VER_SERVICE_DATA_TYPE, MIN_SERVER_VER_SMART_DEPTH};
use crate::types::{
    DepthMktDataDescription, DepthMktDataDescriptionView, PriceIncrement, SmartComponent,
};
use vstd::prelude::*;

verus! {

/// What a market depth message tells.
pub open spec fn market_depth_event(f: Seq<String>) -> Option<Event> {
    if f.len() >= 8 {
        Some(
            Event::UpdateMktDepth {
                req_id: int_at(f, 2),
                position: int_at(f, 3),
                operation: int_at(f, 4),
                side: int_at(f, 5),
                price: double_at(f, 6),
                size: int_at(f, 7),
            },
        )
    } else {
        None
    }
}

/// What a market depth message with a market maker tells.
pub open spec fn market_depth_l2_event(server_version: i32, f: Seq<String>) -> Option<Event> {
    if f.len() >= 9 {
        Some(
            Event::UpdateMktDepthL2 {
                req_id: int_at(f, 2),
                position: int_at(f, 3),
                market_maker: f[4],
                operation: int_at(f, 5),
                side: int_at(f, 6),
                price: double_at(f, 7),
                size: int_at(f, 8),
                is_smart_depth: server_version >= MIN_SERVER_VER_SMART_DEPTH && flag_at(f, 9),
            },
        )
    } else {
        None
    }
}

/// How many fields the description of an exchange takes up.
pub open spec fn depth_description_len(server_version: i32) -> int {
    if server_version >= MIN_SERVER_VER_SERVICE_DATA_TYPE {
        5
    } else {
        3
    }
}

/// The description of an exchange that starts at field `p`.
pub open spec fn depth_description(
    server_version: i32,
    f: Seq<String>,
    p: int,
) -> DepthMktDataDescriptionView {
    if server_version >= MIN_SERVER_VER_SERVICE_DATA_TYPE {
        DepthMktDataDescriptionView {
            exchange: f[p]@,
            sec_type: f[p + 1]@,
            listing_exch: f[p + 2]@,
            service_data_type: f[p + 3]@,
            agg_group: int_at(f, p + 4),
        }
    } else {
        DepthMktDataDescriptionView {
            exchange: f[p]@,
            sec_type: f[p + 1]@,
            listing_exch: seq![],
            service_data_type: seq![],
            agg_group: 0,
        }
    }
}

/// Whether a message on the exchanges that offer market depth has all its fields.
pub open spec fn market_depth_exchanges_complete(server_version: i32, f: Seq<String>) -> bool {
    f.len() >= 2 + if server_version >= MIN_SERVER_VER_SERVICE_DATA_TYPE {
        5 * count_at(f, 1)
    } else {
        3 * count_at(f, 1)
    }
}

/// Whether `e` is the event of a message on the exchanges that offer market depth.
pub open spec fn is_market_depth_exchanges(server_version: i32, f: Seq<String>, e: Event) -> bool {
    e matches Event::MktDepthExchanges { descriptions } && {
        &&& descriptions@.len() == count_at(f, 1)
        &&& forall|i: int|
            0 <= i < descriptions@.len() ==> (#[trigger] descriptions@[i])@ == depth_description(
                server_version,
                f,
                2 + i * depth_description_len(server_version),
            )
    }
}

/// The price steps in fields `start` and on.
pub open spec fn price_increments(f: Seq<String>, start: int, n: nat) -> Seq<PriceIncrement> {
    Seq::new(
        n,
        |i: int|
            PriceIncrement {
                low_edge: double_at(f, start + 2 * i),
                increment: double_at(f, start + 2 * i + 1),
            },
    )
}

/// Whether a message on price steps has all its fields.
pub open spec fn market_rule_complete(f: Seq<String>) -> bool {
    f.len() >= 3 + 2 * count_at(f, 2)
}

/// Whether `e` is the event of a message on price steps.
pub open spec fn is_market_rule(f: Seq<String>, e: Event) -> bool {
    e matches Event::MarketRule { market_rule_id, price_increments: steps } && {
        &&& market_rule_id == int_at(f, 1)
        &&& steps@ == price_increments(f, 3, count_at(f, 2))
    }
}

/// The exchanges behind smart routing in fields `start` and on.
pub open spec fn smart_components(f: Seq<String>, start: int, n: nat) -> Seq<SmartComponent> {
    Seq::new(
        n,
        |i: int|
            SmartComponent {
                bit_number: int_at(f, start + 3 * i),
                exchange: f[start + 3 * i + 1],
                exchange_letter: f[start + 3 * i + 2],
            },
    )
}

/// Whether a message on the exchanges behind smart routing has all its fields.
pub open spec fn smart_components_complete(f: Seq<String>) -> bool {
    f.len() >= 3 + 3 * count_at(f, 2)
}

/// Whether `e` is the event of a message on the exchanges behind smart routing.
pub open spec fn is_smart_components(f: Seq<String>, e: Event) -> bool {
    e matches Event::SmartComponents { req_id, components } && {
        &&& req_id == int_at(f, 1)
        &&& components@ == smart_components(f, 3, count_at(f, 2))
    }
}

/// What a message tells that sends a market data request elsewhere.
pub open spec fn reroute_mkt_data_req_event(f: Seq<String>) -> Option<Event> {
    if f.len() >= 4 {
        Some(
            Event::RerouteMktDataReq {
                req_id: int_at(f, 1),
                con_id: int_at(f, 2),
                exchange: f[3],
            },
        )
    } else {
        None
    }
}

/// What a message tells that sends a market depth request elsewhere.
pub open spec fn reroute_mkt_depth_req_event(f: Seq<String>) -> Option<Event> {
    if f.len() >= 4 {
        Some(
            Event::RerouteMktDepthReq {
                req_id: int_at(f, 1),
                con_id: int_at(f, 2),
                exchange: f[3],
            },
        )
    } else {
        None
    }
}

impl Decoder {
    /// Reads a market depth message.
    pub fn process_market_depth(fields: &[String]) -> (r: Option<Event>)
        ensures
            r == market_depth_event(fields@),
    {
        let mut reader = Reader::new(fields);
        reader.skip();
        reader.skip();
        let req_id: i32 = reader.next_i32()?;
        let position: i32 = reader.next_i32()?;
        let operation: i32 = reader.next_i32()?;
        let side: i32 = reader.next_i32()?;
        let price = reader.next_double()?;
        let size: i32 = reader.next_i32()?;
        Some(Event::UpdateMktDepth { req_id, position, operation, side, price, size })
    }

    /// Reads a market depth message with a market maker.
    pub fn process_market_depth_l2(server_version: i32, fields: &[String]) -> (r: Option<Event>)
        ensures
            r == market_depth_l2_event(server_version, fields@),
    {
        let mut reader = Reader::new(fields);
        reader.skip();
        reader.skip();
        let req_id: i32 = reader.next_i32()?;
        let position: i32 = reader.next_i32()?;
        let market_maker = reader.next_text()?;
        let operation: i32 = reader.next_i32()?;
        let side: i32 = reader.next_i32()?;
        let price = reader.next_double()?;
        let size: i32 = reader.next_i32()?;
        let mut is_smart_depth = false;
        if server_version >= MIN_SERVER_VER_SMART_DEPTH {
            is_smart_depth = reader.next_flag();
        }
        Some(
            Event::UpdateMktDepthL2 {
                req_id,
                position,
                market_maker,
                operation,
                side,
                price,
                size,
                is_smart_depth,
            },
        )
    }

    /// Reads a message on the exchanges that offer market depth.
    pub fn process_market_depth_exchanges(server_version: i32, fields: &[String]) -> (r: Option<
        Event,
    >)
        ensures
            r is Some <==> market_depth_exchanges_complete(server_version, fields@),
            r is Some ==> is_market_depth_exchanges(server_version, fields@, r->0),
    {
        let mut reader = Reader::new(fields);
        reader.skip();
        let count: i32 = reader.next_i32()?;
        let typed = server_version >= MIN_SERVER_VER_SERVICE_DATA_TYPE;
        let mut descriptions: Vec<DepthMktDataDescription> = Vec::new();
        let mut i: i32 = 0;
        while i < count
            invariant
                reader.wf(),
                reader.all() == fields@,
                fields@.len() >= 2,
                count == int_at(fields@, 1),
                typed == (server_version >= MIN_SERVER_VER_SERVICE_DATA_TYPE),
                0 <= i,
                i <= count || i == 0,
                reader.at() == 2 + i * depth_description_len(server_version),
                descriptions@.len() == i,
                forall|k: int|
                    0 <= k < i ==> (#[trigger] descriptions@[k])@ == depth_description(
                        server_version,
                        fields@,
                        2 + k * depth_description_len(server_version),
                    ),
            decreases count - i,
        {
            let exchange = reader.next_text()?;
            let sec_type = reader.next_text()?;
            let mut description = DepthMktDataDescription::default();
            description.exchange = exchange;
            description.sec_type = sec_type;
            if typed {
                description.listing_exch = reader.next_text()?;
                description.service_data_type = reader.next_text()?;
                description.agg_group = reader.next_i32()?;
            } else {
                reader.next_i32()?;
            }
            descriptions.push(description);
            i = i + 1;
        }
        Some(Event::MktDepthExchanges { descriptions })
    }

    /// Reads a message on price steps.
    pub fn process_market_rule(fields: &[String]) -> (r: Option<Event>)
        ensures
            r is Some <==> market_rule_complete(fields@),
            r is Some ==> is_market_rule(fields@, r->0),
    {
        let mut reader = Reader::new(fields);
        reader.skip();
        let market_rule_id: i32 = reader.next_i32()?;
        let count: i32 = reader.next_i32()?;
        let mut steps: Vec<PriceIncrement> = Vec::new();
        let mut i: i32 = 0;
        while i < count
            invariant
                reader.wf(),
                reader.all() == fields@,
                fields@.len() >= 3,
                count == int_at(fields@, 2),
                0 <= i,
                i <= count || i == 0,
                reader.at() == 3 + 2 * i,
                steps@ == price_increments(fields@, 3, i as nat),
            decreases count - i,
        {
            let low_edge = reader.next_double()?;
            let increment = reader.next_double()?;
            steps.push(PriceIncrement { low_edge, increment });
            i = i + 1;
        }
        Some(Event::MarketRule { market_rule_id, price_increments: steps })
    }

    /// Reads a message on the exchanges behind smart routing.
    pub fn process_smart_components(fields: &[String]) -> (r: Option<Event>)
        ensures
            r is Some <==> smart_components_complete(fields@),
            r is Some ==> is_smart_components(fields@, r->0),
    {
        let mut reader = Reader::new(fields);
        reader.skip();
        let req_id: i32 = reader.next_i32()?;
        let count: i32 = reader.next_i32()?;
        let mut components: Vec<SmartComponent> = Vec::new();
        let mut i: i32 = 0;
        while i < count
            invariant
                reader.wf(),
                reader.all() == fields@,
                fields@.len() >= 3,
                count == int_at(fields@, 2),
                0 <= i,
                i <= count || i == 0,
                reader.at() == 3 + 3 * i,
                components@ == smart_components(fields@, 3, i as nat),
            decreases count - i,
        {
            let bit_number: i32 = reader.next_i32()?;
            let exchange = reader.next_text()?;
            let exchange_letter = reader.next_text()?;
            components.push(SmartComponent { bit_number, exchange, exchange_letter });
            i = i + 1;
        }
        Some(Event::SmartComponents { req_id, components })
    }

    /// Reads a message that sends a market data request elsewhere.
    pub fn process_reroute_mkt_data_req(fields: &[String]) -> (r: Option<Event>)
        ensures
            r == reroute_mkt_data_req_event(fields@),
    {
        let mut reader = Reader::new(fields);
        reader.skip();
        let req_id: i32 = reader.next_i32()?;
        let con_id: i32 = reader.next_i32()?;
        let exchange = reader.next_text()?;
        Some(Event::RerouteMktDataReq { req_id, con_id, exchange })
    }

    /// Reads a message that sends a market depth request elsewhere.
    pub fn process_reroute_mkt_depth_req(fields: &[String]) -> (r: Option<Event>)
        ensures
            r == reroute_mkt_depth_req_event(fields@),
    {
        let mut reader = Reader::new(fields);
        reader.skip();
        let req_id: i32 = reader.next_i32()?;
        let con_id: i32 = reader.next_i32()?;
        let exchange = reader.next_text()?;
        Some(Event::RerouteMktDepthReq { req_id, con_id, exchange })
    }
}

} // verus!
