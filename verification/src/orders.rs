//! Messages on orders and what became of them.
use crate::account::{next_quantity, quantity_at};
use crate::decoder::Decoder;
use crate::event::Event;
use crate::fields::{
    double_at, double_if, fields_if, int_at, int_if, text_if, Reader, UNSET_INTEGER,
};
use crate::number::Double;
use crate::server_versions::{
    MIN_SERVER_VER_LAST_LIQUIDITY, MIN_SERVER_VER_MARKET_CAP_PRICE, MIN_SERVER_VER_MODELS_SUPPORT,
    MIN_SERVER_VER_ORDER_CONTAINER,
};
use crate::types::{CommissionReport, Contract, ContractView, Execution, ExecutionView};
use vstd::prelude::*;

verus! {

/// Whether an open order message has the field with its version, where it has to have one.
pub open spec fn open_order_complete(server_version: i32, f: Seq<String>) -> bool {
    server_version >= MIN_SERVER_VER_ORDER_CONTAINER || f.len() >= 2
}

/// The fields from `i` on.
pub open spec fn fields_from(f: Seq<String>, i: int) -> Seq<String> {
    if i < f.len() {
        f.skip(i)
    } else {
        seq![]
    }
}

/// Whether `e` is the event of an open order message.
pub open spec fn is_open_order(server_version: i32, f: Seq<String>, e: Event) -> bool {
    e matches Event::OpenOrder { version, server_version: server, fields } && {
        &&& server == server_version
        &&& if server_version >= MIN_SERVER_VER_ORDER_CONTAINER {
            version == server_version && fields@ == fields_from(f, 1)
        } else {
            version == int_at(f, 1) && fields@ == fields_from(f, 2)
        }
    }
}

/// Whether `e` is the event of a completed order message.
pub open spec fn is_completed_order(server_version: i32, f: Seq<String>, e: Event) -> bool {
    e matches Event::CompletedOrder { version, server_version: server, fields } && {
        &&& server == server_version
        &&& version == UNSET_INTEGER
        &&& fields@ == fields_from(f, 1)
    }
}

/// What a message on an order bound to a client tells.
pub open spec fn order_bound_event(f: Seq<String>) -> Option<Event> {
    if f.len() >= 4 {
        Some(
            Event::OrderBound {
                req_id: int_at(f, 1),
                api_client_id: int_at(f, 2),
                api_order_id: int_at(f, 3),
            },
        )
    } else {
        None
    }
}

/// What a message on the next order id tells.
pub open spec fn next_valid_id_event(f: Seq<String>) -> Option<Event> {
    if f.len() >= 3 {
        Some(Event::NextValidId { order_id: int_at(f, 2) })
    } else {
        None
    }
}

/// What an order status message tells.
pub open spec fn order_status_event(server_version: i32, f: Seq<String>) -> Option<Event> {
    let capped = server_version >= MIN_SERVER_VER_MARKET_CAP_PRICE;
    let p = 1 + fields_if(!capped, 1);
    if f.len() >= p + 10 + fields_if(capped, 1) {
        Some(
            Event::OrderStatus {
                order_id: int_at(f, p),
                status: f[p + 1],
                filled: quantity_at(server_version, f, p + 2),
                remaining: quantity_at(server_version, f, p + 3),
                avg_fill_price: double_at(f, p + 4),
                perm_id: int_at(f, p + 5),
                parent_id: int_at(f, p + 6),
                last_fill_price: double_at(f, p + 7),
                client_id: int_at(f, p + 8),
                why_held: f[p + 9],
                mkt_cap_price: double_if(capped, f, p + 10),
            },
        )
    } else {
        None
    }
}

/// What the end of the executions tells.
pub open spec fn execution_data_end_event(f: Seq<String>) -> Option<Event> {
    if f.len() >= 3 {
        Some(Event::ExecDetailsEnd { req_id: int_at(f, 2) })
    } else {
        None
    }
}

/// What a commission report tells.
pub open spec fn commission_report_event(f: Seq<String>) -> Option<Event> {
    if f.len() >= 8 {
        Some(
            Event::CommissionReport {
                report: CommissionReport {
                    exec_id: f[2],
                    commission: double_at(f, 3),
                    currency: f[4],
                    realized_pnl: double_at(f, 5),
                    yield_: double_at(f, 6),
                    yield_redemption_date: f[7],
                },
            },
        )
    } else {
        None
    }
}

/// The version of an execution message: its own, or that of the server where it has none.
pub open spec fn execution_version(server_version: i32, f: Seq<String>) -> i32 {
    if server_version < MIN_SERVER_VER_LAST_LIQUIDITY {
        int_at(f, 1)
    } else {
        server_version
    }
}

/// Where the parts of an execution message begin: those that come after an optional one.
pub struct ExecutionLayout {
    pub req_id: int,
    pub order_id: int,
    pub exchange: int,
    pub exec_id: int,
    pub order_ref: int,
    pub ev_rule: int,
    pub model_code: int,
    pub last_liquidity: int,
    pub end: int,
}

/// The layout of an execution message. After the rule for the economic value comes a field of
/// which only matters whether it is empty: where it is not, the multiplier follows it.
pub open spec fn execution_layout(server_version: i32, f: Seq<String>) -> ExecutionLayout {
    let version = execution_version(server_version, f);
    let req_id = 1 + fields_if(server_version < MIN_SERVER_VER_LAST_LIQUIDITY, 1);
    let order_id = req_id + fields_if(version >= 7, 1);
    let exchange = order_id + 7 + fields_if(version >= 9, 1);
    let exec_id = exchange + 3 + fields_if(version >= 10, 1);
    let order_ref = exec_id + 10 + fields_if(version >= 6, 2);
    let ev_rule = order_ref + fields_if(version >= 8, 1);
    let model_code = ev_rule + fields_if(version >= 9, 2) + fields_if(
        version >= 9 && f[ev_rule + 1]@.len() > 0,
        1,
    );
    let last_liquidity = model_code + fields_if(server_version >= MIN_SERVER_VER_MODELS_SUPPORT, 1);
    let end = last_liquidity + fields_if(server_version >= MIN_SERVER_VER_LAST_LIQUIDITY, 1);
    ExecutionLayout {
        req_id,
        order_id,
        exchange,
        exec_id,
        order_ref,
        ev_rule,
        model_code,
        last_liquidity,
        end,
    }
}

/// Whether an execution message has all its fields.
pub open spec fn execution_data_complete(server_version: i32, f: Seq<String>) -> bool {
    f.len() >= execution_layout(server_version, f).end
}

/// The contract of an execution message.
pub open spec fn execution_contract(server_version: i32, f: Seq<String>) -> ContractView {
    let version = execution_version(server_version, f);
    let l = execution_layout(server_version, f);
    ContractView {
        con_id: int_at(f, l.order_id + 1),
        symbol: f[l.order_id + 2]@,
        sec_type: f[l.order_id + 3]@,
        last_trade_date_or_contract_month: f[l.order_id + 4]@,
        strike: double_at(f, l.order_id + 5),
        right: f[l.order_id + 6]@,
        multiplier: text_if(version >= 9, f, l.order_id + 7),
        exchange: f[l.exchange]@,
        currency: f[l.exchange + 1]@,
        local_symbol: f[l.exchange + 2]@,
        trading_class: text_if(version >= 10, f, l.exchange + 3),
        ..ContractView::blank()
    }
}

/// The execution of an execution message.
pub open spec fn execution_of(server_version: i32, f: Seq<String>) -> ExecutionView {
    let version = execution_version(server_version, f);
    let l = execution_layout(server_version, f);
    let p = l.exec_id;
    ExecutionView {
        order_id: int_at(f, l.order_id),
        exec_id: f[p]@,
        time: f[p + 1]@,
        acct_number: f[p + 2]@,
        exchange: f[p + 3]@,
        side: f[p + 4]@,
        shares: quantity_at(server_version, f, p + 5),
        price: double_at(f, p + 6),
        perm_id: int_at(f, p + 7),
        client_id: int_at(f, p + 8),
        liquidation: int_at(f, p + 9),
        cum_qty: double_if(version >= 6, f, p + 10),
        avg_price: double_if(version >= 6, f, p + 11),
        order_ref: text_if(version >= 8, f, l.order_ref),
        ev_rule: text_if(version >= 9, f, l.ev_rule),
        ev_multiplier: if version < 9 {
            Double::Whole(0)
        } else if f[l.ev_rule + 1]@.len() > 0 {
            double_at(f, l.ev_rule + 2)
        } else {
            Double::Whole(1)
        },
        model_code: text_if(server_version >= MIN_SERVER_VER_MODELS_SUPPORT, f, l.model_code),
        last_liquidity: int_if(
            server_version >= MIN_SERVER_VER_LAST_LIQUIDITY,
            f,
            l.last_liquidity,
        ),
    }
}

/// Whether `e` is the event of an execution message.
pub open spec fn is_execution_data(server_version: i32, f: Seq<String>, e: Event) -> bool {
    e matches Event::ExecDetails { req_id, contract, execution } && {
        &&& req_id == if execution_version(server_version, f) >= 7 {
            int_at(f, execution_layout(server_version, f).req_id)
        } else {
            (-1) as i32
        }
        &&& contract@ == execution_contract(server_version, f)
        &&& execution@ == execution_of(server_version, f)
    }
}

impl Decoder {
    /// Reads an open order message as far as the order itself.
    pub fn process_open_order(server_version: i32, fields: &[String]) -> (r: Option<Event>)
        ensures
            r is Some <==> open_order_complete(server_version, fields@),
            r is Some ==> is_open_order(server_version, fields@, r->0),
    {
        let mut reader = Reader::new(fields);
        reader.skip();
        let mut version: i32 = server_version;
        if server_version < MIN_SERVER_VER_ORDER_CONTAINER {
            version = reader.next_i32()?;
        }
        let rest = reader.remaining_fields();
        assert(rest@ == fields_from(
            fields@,
            if server_version >= MIN_SERVER_VER_ORDER_CONTAINER {
                1
            } else {
                2
            },
        ));
        Some(Event::OpenOrder { version, server_version, fields: rest })
    }

    /// Reads the end of the open orders.
    pub fn process_open_order_end(_fields: &[String]) -> (r: Option<Event>)
        ensures
            r == Some(Event::OpenOrderEnd),
    {
        Some(Event::OpenOrderEnd)
    }

    /// Reads a completed order message as far as the order itself.
    pub fn process_completed_order(server_version: i32, fields: &[String]) -> (r: Option<Event>)
        ensures
            r is Some,
            is_completed_order(server_version, fields@, r->0),
    {
        let mut reader = Reader::new(fields);
        reader.skip();
        let rest = reader.remaining_fields();
        assert(rest@ == fields_from(fields@, 1));
        Some(Event::CompletedOrder { version: UNSET_INTEGER, server_version, fields: rest })
    }

    /// Reads the end of the completed orders.
    pub fn process_complete_orders_end(_fields: &[String]) -> (r: Option<Event>)
        ensures
            r == Some(Event::CompletedOrdersEnd),
    {
        Some(Event::CompletedOrdersEnd)
    }

    /// Reads a message on an order bound to a client.
    pub fn process_order_bound(fields: &[String]) -> (r: Option<Event>)
        ensures
            r == order_bound_event(fields@),
    {
        let mut reader = Reader::new(fields);
        reader.skip();
        let req_id: i32 = reader.next_i32()?;
        let api_client_id: i32 = reader.next_i32()?;
        let api_order_id: i32 = reader.next_i32()?;
        Some(Event::OrderBound { req_id, api_client_id, api_order_id })
    }

    /// Reads a message on the next order id.
    pub fn process_next_valid_id(fields: &[String]) -> (r: Option<Event>)
        ensures
            r == next_valid_id_event(fields@),
    {
        let mut reader = Reader::new(fields);
        reader.skip();
        reader.skip();
        let order_id: i32 = reader.next_i32()?;
        Some(Event::NextValidId { order_id })
    }

    /// Reads an order status message.
    pub fn process_order_status(server_version: i32, fields: &[String]) -> (r: Option<Event>)
        ensures
            r == order_status_event(server_version, fields@),
    {
        let mut reader = Reader::new(fields);
        reader.skip();
        if server_version < MIN_SERVER_VER_MARKET_CAP_PRICE {
            reader.skip();
        }
        let order_id: i32 = reader.next_i32()?;
        let status = reader.next_text()?;
        let filled = next_quantity(&mut reader, server_version)?;
        let remaining = next_quantity(&mut reader, server_version)?;
        let avg_fill_price = reader.next_double()?;
        let perm_id: i32 = reader.next_i32()?;
        let parent_id: i32 = reader.next_i32()?;
        let last_fill_price = reader.next_double()?;
        let client_id: i32 = reader.next_i32()?;
        let why_held = reader.next_text()?;
        let mkt_cap_price = reader.next_double_if(
            server_version >= MIN_SERVER_VER_MARKET_CAP_PRICE,
        )?;
        Some(
            Event::OrderStatus {
                order_id,
                status,
                filled,
                remaining,
                avg_fill_price,
                perm_id,
                parent_id,
                last_fill_price,
                client_id,
                why_held,
                mkt_cap_price,
            },
        )
    }

    /// Reads an execution message.
    pub fn process_execution_data(server_version: i32, fields: &[String]) -> (r: Option<Event>)
        ensures
            r is Some <==> execution_data_complete(server_version, fields@),
            r is Some ==> is_execution_data(server_version, fields@, r->0),
    {
        let mut reader = Reader::new(fields);
        reader.skip();
        let mut version: i32 = server_version;
        if server_version < MIN_SERVER_VER_LAST_LIQUIDITY {
            version = reader.next_i32()?;
        }
        let mut req_id: i32 = -1;
        if version >= 7 {
            req_id = reader.next_i32()?;
        }
        let order_id: i32 = reader.next_i32()?;
        let con_id: i32 = reader.next_i32()?;
        let symbol = reader.next_text()?;
        let sec_type = reader.next_text()?;
        let last_trade_date_or_contract_month = reader.next_text()?;
        let strike = reader.next_double()?;
        let right = reader.next_text()?;
        let multiplier = reader.next_text_if(version >= 9)?;
        let contract_exchange = reader.next_text()?;
        let currency = reader.next_text()?;
        let local_symbol = reader.next_text()?;
        let trading_class = reader.next_text_if(version >= 10)?;
        let exec_id = reader.next_text()?;
        let time = reader.next_text()?;
        let acct_number = reader.next_text()?;
        let exchange = reader.next_text()?;
        let side = reader.next_text()?;
        let shares = next_quantity(&mut reader, server_version)?;
        let price = reader.next_double()?;
        let perm_id: i32 = reader.next_i32()?;
        let client_id: i32 = reader.next_i32()?;
        let liquidation: i32 = reader.next_i32()?;
        let cum_qty = reader.next_double_if(version >= 6)?;
        let avg_price = reader.next_double_if(version >= 6)?;
        let order_ref = reader.next_text_if(version >= 8)?;
        let ev_rule = reader.next_text_if(version >= 9)?;
        let mut ev_multiplier = Double::Whole(0);
        if version >= 9 {
            let announced = reader.next_text()?;
            if announced.as_str().is_empty() {
                ev_multiplier = Double::Whole(1);
            } else {
                ev_multiplier = reader.next_double()?;
            }
        }
        let model_code = reader.next_text_if(server_version >= MIN_SERVER_VER_MODELS_SUPPORT)?;
        let last_liquidity: i32 = reader.next_i32_if(
            server_version >= MIN_SERVER_VER_LAST_LIQUIDITY,
        )?;
        let contract = Contract {
            con_id,
            symbol,
            sec_type,
            last_trade_date_or_contract_month,
            strike,
            right,
            multiplier,
            exchange: contract_exchange,
            currency,
            local_symbol,
            trading_class,
            ..Contract::default()
        };
        let execution = Execution {
            exec_id,
            time,
            acct_number,
            exchange,
            side,
            shares,
            price,
            perm_id,
            client_id,
            order_id,
            liquidation,
            cum_qty,
            avg_price,
            order_ref,
            ev_rule,
            ev_multiplier,
            model_code,
            last_liquidity,
        };
        Some(Event::ExecDetails { req_id, contract, execution })
    }

    /// Reads the end of the executions.
    pub fn process_execution_data_end(fields: &[String]) -> (r: Option<Event>)
        ensures
            r == execution_data_end_event(fields@),
    {
        let mut reader = Reader::new(fields);
        reader.skip();
        reader.skip();
        let req_id: i32 = reader.next_i32()?;
        Some(Event::ExecDetailsEnd { req_id })
    }

    /// Reads a commission report.
    pub fn process_commission_report(fields: &[String]) -> (r: Option<Event>)
        ensures
            r == commission_report_event(fields@),
    {
        let mut reader = Reader::new(fields);
        reader.skip();
        reader.skip();
        let exec_id = reader.next_text()?;
        let commission = reader.next_double()?;
        let currency = reader.next_text()?;
        let realized_pnl = reader.next_double()?;
        let yield_ = reader.next_double()?;
        let yield_redemption_date = reader.next_text()?;
        Some(
            Event::CommissionReport {
                report: CommissionReport {
                    exec_id,
                    commission,
                    currency,
                    realized_pnl,
                    yield_,
                    yield_redemption_date,
                },
            },
        )
    }
}

} // verus!
