//! Messages on orders and executions.
use crate::codes::IncomingMessageIds;
use crate::decoder::{is_any_interpretation, Interpretation};
use crate::event::Event;
use crate::number::Double;
use crate::orders::execution_layout;
use crate::server_versions::{
    MIN_SERVER_VER_FRACTIONAL_POSITIONS, MIN_SERVER_VER_LAST_LIQUIDITY,
    MIN_SERVER_VER_MARKET_CAP_PRICE, MIN_SERVER_VER_MODELS_SUPPORT, MIN_SERVER_VER_ORDER_CONTAINER,
};
use crate::types::CommissionReport;
use crate::wire::{
    begins, double_sent, lemma_all, lemma_beginning, lemma_kind, lemma_part, number, number_sent,
    sent_if, stands, text_sent, writes,
};
use vstd::prelude::*;

verus! {

/// The end of the open orders is told.
pub proof fn lemma_open_order_end(server_version: i32, id: String, r: Interpretation)
    requires
        writes(id, 53),
        is_any_interpretation(server_version, seq![id], r),
    ensures
        r.ending is Done,
        r.events@ == seq![Event::OpenOrderEnd],
{
    lemma_kind(server_version, seq![id], IncomingMessageIds::OpenOrderEnd, r);
}

/// The end of the completed orders is told.
pub proof fn lemma_completed_orders_end(server_version: i32, id: String, r: Interpretation)
    requires
        writes(id, 102),
        is_any_interpretation(server_version, seq![id], r),
    ensures
        r.ending is Done,
        r.events@ == seq![Event::CompletedOrdersEnd],
{
    lemma_kind(server_version, seq![id], IncomingMessageIds::CompletedOrdersEnd, r);
}

/// The numbers of an order are told as they were written.
pub proof fn lemma_order_bound(
    server_version: i32,
    id: String,
    req_id: String,
    api_client_id: String,
    api_order_id: String,
    r: Interpretation,
)
    requires
        writes(id, 100),
        is_any_interpretation(server_version, seq![id, req_id, api_client_id, api_order_id], r),
    ensures
        r.ending is Done,
        r.events@ == seq![
            Event::OrderBound {
                req_id: number(req_id),
                api_client_id: number(api_client_id),
                api_order_id: number(api_order_id),
            },
        ],
{
    let f = seq![id, req_id, api_client_id, api_order_id];
    lemma_kind(server_version, f, IncomingMessageIds::OrderBound, r);
}

/// The next number of an order is told as it was written.
pub proof fn lemma_next_valid_id(
    server_version: i32,
    id: String,
    version: String,
    order_id: String,
    r: Interpretation,
)
    requires
        writes(id, 9),
        is_any_interpretation(server_version, seq![id, version, order_id], r),
    ensures
        r.ending is Done,
        r.events@ == seq![Event::NextValidId { order_id: number(order_id) }],
{
    lemma_kind(server_version, seq![id, version, order_id], IncomingMessageIds::NextValidId, r);
}

/// The end of the executions is told as it was written.
pub proof fn lemma_execution_data_end(
    server_version: i32,
    id: String,
    version: String,
    req_id: String,
    r: Interpretation,
)
    requires
        writes(id, 55),
        is_any_interpretation(server_version, seq![id, version, req_id], r),
    ensures
        r.ending is Done,
        r.events@ == seq![Event::ExecDetailsEnd { req_id: number(req_id) }],
{
    lemma_kind(server_version, seq![id, version, req_id], IncomingMessageIds::ExecutionDataEnd, r);
}

/// The status of an order, field by field.
pub struct OrderStatusFields {
    pub id: String,
    pub version: String,
    pub order_id: String,
    pub status: String,
    pub filled: String,
    pub remaining: String,
    pub avg_fill_price: String,
    pub perm_id: String,
    pub parent_id: String,
    pub last_fill_price: String,
    pub client_id: String,
    pub why_held: String,
    pub mkt_cap_price: String,
}

impl OrderStatusFields {
    /// The message as a server sends it.
    pub open spec fn written(self, server_version: i32) -> Seq<String> {
        seq![self.id]
            + sent_if(server_version < MIN_SERVER_VER_MARKET_CAP_PRICE, seq![self.version])
            + seq![
                self.order_id,
                self.status,
                self.filled,
                self.remaining,
                self.avg_fill_price,
                self.perm_id,
                self.parent_id,
                self.last_fill_price,
                self.client_id,
                self.why_held,
            ]
            + sent_if(server_version >= MIN_SERVER_VER_MARKET_CAP_PRICE, seq![self.mkt_cap_price])
    }

    /// Whether `e` tells of the order each value under its own name.
    pub open spec fn told(self, server_version: i32, e: Event) -> bool {
        e == (Event::OrderStatus {
            order_id: number(self.order_id),
            status: self.status,
            filled: if server_version >= MIN_SERVER_VER_FRACTIONAL_POSITIONS {
                Double::Parsed(self.filled)
            } else {
                Double::Whole(number(self.filled))
            },
            remaining: if server_version >= MIN_SERVER_VER_FRACTIONAL_POSITIONS {
                Double::Parsed(self.remaining)
            } else {
                Double::Whole(number(self.remaining))
            },
            avg_fill_price: Double::Parsed(self.avg_fill_price),
            perm_id: number(self.perm_id),
            parent_id: number(self.parent_id),
            last_fill_price: Double::Parsed(self.last_fill_price),
            client_id: number(self.client_id),
            why_held: self.why_held,
            mkt_cap_price: double_sent(
                server_version >= MIN_SERVER_VER_MARKET_CAP_PRICE,
                self.mkt_cap_price,
            ),
        })
    }
}

/// The status of an order is told as it was written.
pub proof fn lemma_order_status(
    server_version: i32,
    m: OrderStatusFields,
    r: Interpretation,
)
    requires
        writes(m.id, 3),
        is_any_interpretation(server_version, m.written(server_version), r),
    ensures
        r.ending is Done,
        r.events@.len() == 1,
        m.told(server_version, r.events@[0]),
{
    let f = m.written(server_version);
    lemma_all(f);
    lemma_order_status_read(server_version, m, f, r);
}

/// What is read of the fields of such a message.
#[verifier::spinoff_prover]
#[verifier::rlimit(40)]
proof fn lemma_order_status_read(
    server_version: i32,
    m: OrderStatusFields,
    f: Seq<String>,
    r: Interpretation,
)
    requires
        writes(m.id, 3),
        begins(f, m.written(server_version)),
        f.len() == m.written(server_version).len(),
        is_any_interpretation(server_version, f, r),
    ensures
        r.ending is Done,
        r.events@.len() == 1,
        m.told(server_version, r.events@[0]),
{
    let a0 = seq![m.id];
    let p1 = sent_if(server_version < MIN_SERVER_VER_MARKET_CAP_PRICE, seq![m.version]);
    let a1 = a0 + p1;
    let p2 = seq![
            m.order_id,
            m.status,
            m.filled,
            m.remaining,
            m.avg_fill_price,
            m.perm_id,
            m.parent_id,
            m.last_fill_price,
            m.client_id,
            m.why_held,
        ];
    let a2 = a1 + p2;
    let p3 = sent_if(server_version >= MIN_SERVER_VER_MARKET_CAP_PRICE, seq![m.mkt_cap_price]);
    let a3 = a2 + p3;
    lemma_part(f, a2, p3);
    lemma_part(f, a1, p2);
    lemma_part(f, a0, p1);
    let n0 = a0.len() as int;
    let n1 = a1.len() as int;
    let n2 = a2.len() as int;
    let n3 = a3.len() as int;
    assert(f[0] == m.id) by {
        lemma_beginning(f, a0);
    }
    assert(server_version < MIN_SERVER_VER_MARKET_CAP_PRICE ==> f[n0] == m.version) by {
        reveal(stands);
        if server_version < MIN_SERVER_VER_MARKET_CAP_PRICE {
            assert(p1[0] == m.version);
        }
    }
    assert({
        &&& f[n1] == m.order_id
        &&& f[n1 + 1] == m.status
        &&& f[n1 + 2] == m.filled
        &&& f[n1 + 3] == m.remaining
        &&& f[n1 + 4] == m.avg_fill_price
        &&& f[n1 + 5] == m.perm_id
        &&& f[n1 + 6] == m.parent_id
        &&& f[n1 + 7] == m.last_fill_price
        &&& f[n1 + 8] == m.client_id
        &&& f[n1 + 9] == m.why_held
    }) by {
        reveal(stands);
        assert(p2[0] == m.order_id);
        assert(p2[1] == m.status);
        assert(p2[2] == m.filled);
        assert(p2[3] == m.remaining);
        assert(p2[4] == m.avg_fill_price);
        assert(p2[5] == m.perm_id);
        assert(p2[6] == m.parent_id);
        assert(p2[7] == m.last_fill_price);
        assert(p2[8] == m.client_id);
        assert(p2[9] == m.why_held);
    }
    assert(server_version >= MIN_SERVER_VER_MARKET_CAP_PRICE ==> f[n2] == m.mkt_cap_price) by {
        reveal(stands);
        if server_version >= MIN_SERVER_VER_MARKET_CAP_PRICE {
            assert(p3[0] == m.mkt_cap_price);
        }
    }
    lemma_kind(server_version, f, IncomingMessageIds::OrderStatus, r);
}

/// An execution message, field by field. The mark says whether a multiplier follows.
pub struct ExecutionFields {
    pub id: String,
    pub version: String,
    pub req_id: String,
    pub order_id: String,
    pub con_id: String,
    pub symbol: String,
    pub sec_type: String,
    pub last_trade_date_or_contract_month: String,
    pub strike: String,
    pub right: String,
    pub multiplier: String,
    pub exchange: String,
    pub currency: String,
    pub local_symbol: String,
    pub trading_class: String,
    pub exec_id: String,
    pub time: String,
    pub acct_number: String,
    pub exec_exchange: String,
    pub side: String,
    pub shares: String,
    pub price: String,
    pub perm_id: String,
    pub client_id: String,
    pub liquidation: String,
    pub cum_qty: String,
    pub avg_price: String,
    pub order_ref: String,
    pub ev_rule: String,
    pub ev_mark: String,
    pub ev_multiplier: String,
    pub model_code: String,
    pub last_liquidity: String,
}

impl ExecutionFields {
    /// The version that decides what is sent: that of the message, or with a newer server that of
    /// the server.
    pub open spec fn edition(self, server_version: i32) -> i32 {
        if server_version < MIN_SERVER_VER_LAST_LIQUIDITY {
            number(self.version)
        } else {
            server_version
        }
    }

    /// The message as a server sends it.
    pub open spec fn written(self, server_version: i32) -> Seq<String> {
        seq![self.id]
            + sent_if(server_version < MIN_SERVER_VER_LAST_LIQUIDITY, seq![self.version])
            + sent_if(self.edition(server_version) >= 7, seq![self.req_id])
            + seq![
                self.order_id,
                self.con_id,
                self.symbol,
                self.sec_type,
                self.last_trade_date_or_contract_month,
                self.strike,
                self.right,
            ]
            + sent_if(self.edition(server_version) >= 9, seq![self.multiplier])
            + seq![self.exchange, self.currency, self.local_symbol]
            + sent_if(self.edition(server_version) >= 10, seq![self.trading_class])
            + seq![
                self.exec_id,
                self.time,
                self.acct_number,
                self.exec_exchange,
                self.side,
                self.shares,
                self.price,
                self.perm_id,
                self.client_id,
                self.liquidation,
            ]
            + sent_if(self.edition(server_version) >= 6, seq![self.cum_qty, self.avg_price])
            + sent_if(self.edition(server_version) >= 8, seq![self.order_ref])
            + sent_if(self.edition(server_version) >= 9, seq![self.ev_rule, self.ev_mark])
            + sent_if(
                self.edition(server_version) >= 9 && self.ev_mark@.len() > 0,
                seq![self.ev_multiplier],
            )
            + sent_if(server_version >= MIN_SERVER_VER_MODELS_SUPPORT, seq![self.model_code])
            + sent_if(server_version >= MIN_SERVER_VER_LAST_LIQUIDITY, seq![self.last_liquidity])
    }

    /// Whether `e` tells of the contract and the execution each value under its own name, and
    /// nothing that was not sent.
    pub open spec fn told(self, server_version: i32, e: Event) -> bool {
        e matches Event::ExecDetails { req_id, contract, execution } && {
            &&& req_id == if self.edition(server_version) >= 7 {
                number(self.req_id)
            } else {
                (-1) as i32
            }
            &&& contract.con_id == number(self.con_id)
            &&& contract.symbol@ == self.symbol@
            &&& contract.sec_type@ == self.sec_type@
            &&& contract.last_trade_date_or_contract_month@
                == self.last_trade_date_or_contract_month@
            &&& contract.strike == Double::Parsed(self.strike)
            &&& contract.right@ == self.right@
            &&& contract.multiplier@ == text_sent(
                self.edition(server_version) >= 9,
                self.multiplier,
            )
            &&& contract.exchange@ == self.exchange@
            &&& contract.primary_exchange@ == Seq::<char>::empty()
            &&& contract.currency@ == self.currency@
            &&& contract.local_symbol@ == self.local_symbol@
            &&& contract.trading_class@ == text_sent(
                self.edition(server_version) >= 10,
                self.trading_class,
            )
            &&& execution.exec_id@ == self.exec_id@
            &&& execution.time@ == self.time@
            &&& execution.acct_number@ == self.acct_number@
            &&& execution.exchange@ == self.exec_exchange@
            &&& execution.side@ == self.side@
            &&& execution.shares == if server_version >= MIN_SERVER_VER_FRACTIONAL_POSITIONS {
                Double::Parsed(self.shares)
            } else {
                Double::Whole(number(self.shares))
            }
            &&& execution.price == Double::Parsed(self.price)
            &&& execution.perm_id == number(self.perm_id)
            &&& execution.client_id == number(self.client_id)
            &&& execution.order_id == number(self.order_id)
            &&& execution.liquidation == number(self.liquidation)
            &&& execution.cum_qty == double_sent(self.edition(server_version) >= 6, self.cum_qty)
            &&& execution.avg_price == double_sent(
                self.edition(server_version) >= 6,
                self.avg_price,
            )
            &&& execution.order_ref@ == text_sent(self.edition(server_version) >= 8, self.order_ref)
            &&& execution.ev_rule@ == text_sent(self.edition(server_version) >= 9, self.ev_rule)
            &&& execution.ev_multiplier == if self.edition(server_version) < 9 {
                Double::Whole(0)
            } else if self.ev_mark@.len() > 0 {
                Double::Parsed(self.ev_multiplier)
            } else {
                Double::Whole(1)
            }
            &&& execution.model_code@ == text_sent(
                server_version >= MIN_SERVER_VER_MODELS_SUPPORT,
                self.model_code,
            )
            &&& execution.last_liquidity == number_sent(
                server_version >= MIN_SERVER_VER_LAST_LIQUIDITY,
                self.last_liquidity,
            )
        }
    }
}

/// An execution is told as it was written.
pub proof fn lemma_execution_data(
    server_version: i32,
    m: ExecutionFields,
    r: Interpretation,
)
    requires
        writes(m.id, 11),
        is_any_interpretation(server_version, m.written(server_version), r),
    ensures
        r.ending is Done,
        r.events@.len() == 1,
        m.told(server_version, r.events@[0]),
{
    let f = m.written(server_version);
    lemma_all(f);
    lemma_execution_data_read(server_version, m, f, r);
}

/// What is read of the fields of such a message.
#[verifier::spinoff_prover]
#[verifier::rlimit(60)]
proof fn lemma_execution_data_read(
    server_version: i32,
    m: ExecutionFields,
    f: Seq<String>,
    r: Interpretation,
)
    requires
        writes(m.id, 11),
        begins(f, m.written(server_version)),
        f.len() == m.written(server_version).len(),
        is_any_interpretation(server_version, f, r),
    ensures
        r.ending is Done,
        r.events@.len() == 1,
        m.told(server_version, r.events@[0]),
{
    let a0 = seq![m.id];
    let p1 = sent_if(server_version < MIN_SERVER_VER_LAST_LIQUIDITY, seq![m.version]);
    let a1 = a0 + p1;
    let p2 = sent_if(m.edition(server_version) >= 7, seq![m.req_id]);
    let a2 = a1 + p2;
    let p3 = seq![
            m.order_id,
            m.con_id,
            m.symbol,
            m.sec_type,
            m.last_trade_date_or_contract_month,
            m.strike,
            m.right,
        ];
    let a3 = a2 + p3;
    let p4 = sent_if(m.edition(server_version) >= 9, seq![m.multiplier]);
    let a4 = a3 + p4;
    let p5 = seq![m.exchange, m.currency, m.local_symbol];
    let a5 = a4 + p5;
    let p6 = sent_if(m.edition(server_version) >= 10, seq![m.trading_class]);
    let a6 = a5 + p6;
    let p7 = seq![
            m.exec_id,
            m.time,
            m.acct_number,
            m.exec_exchange,
            m.side,
            m.shares,
            m.price,
            m.perm_id,
            m.client_id,
            m.liquidation,
        ];
    let a7 = a6 + p7;
    let p8 = sent_if(m.edition(server_version) >= 6, seq![m.cum_qty, m.avg_price]);
    let a8 = a7 + p8;
    let p9 = sent_if(m.edition(server_version) >= 8, seq![m.order_ref]);
    let a9 = a8 + p9;
    let p10 = sent_if(m.edition(server_version) >= 9, seq![m.ev_rule, m.ev_mark]);
    let a10 = a9 + p10;
    let p11 = sent_if(
        m.edition(server_version) >= 9 && m.ev_mark@.len() > 0,
        seq![m.ev_multiplier],
    );
    let a11 = a10 + p11;
    let p12 = sent_if(server_version >= MIN_SERVER_VER_MODELS_SUPPORT, seq![m.model_code]);
    let a12 = a11 + p12;
    let p13 = sent_if(server_version >= MIN_SERVER_VER_LAST_LIQUIDITY, seq![m.last_liquidity]);
    let a13 = a12 + p13;
    lemma_part(f, a12, p13);
    lemma_part(f, a11, p12);
    lemma_part(f, a10, p11);
    lemma_part(f, a9, p10);
    lemma_part(f, a8, p9);
    lemma_part(f, a7, p8);
    lemma_part(f, a6, p7);
    lemma_part(f, a5, p6);
    lemma_part(f, a4, p5);
    lemma_part(f, a3, p4);
    lemma_part(f, a2, p3);
    lemma_part(f, a1, p2);
    lemma_part(f, a0, p1);
    let n0 = a0.len() as int;
    let n1 = a1.len() as int;
    let n2 = a2.len() as int;
    let n3 = a3.len() as int;
    let n4 = a4.len() as int;
    let n5 = a5.len() as int;
    let n6 = a6.len() as int;
    let n7 = a7.len() as int;
    let n8 = a8.len() as int;
    let n9 = a9.len() as int;
    let n10 = a10.len() as int;
    let n11 = a11.len() as int;
    let n12 = a12.len() as int;
    let n13 = a13.len() as int;
    assert(f[0] == m.id) by {
        lemma_beginning(f, a0);
    }
    assert(server_version < MIN_SERVER_VER_LAST_LIQUIDITY ==> f[n0] == m.version) by {
        reveal(stands);
        if server_version < MIN_SERVER_VER_LAST_LIQUIDITY {
            assert(p1[0] == m.version);
        }
    }
    assert(m.edition(server_version) >= 7 ==> f[n1] == m.req_id) by {
        reveal(stands);
        if m.edition(server_version) >= 7 {
            assert(p2[0] == m.req_id);
        }
    }
    assert({
        &&& f[n2] == m.order_id
        &&& f[n2 + 1] == m.con_id
        &&& f[n2 + 2] == m.symbol
        &&& f[n2 + 3] == m.sec_type
        &&& f[n2 + 4] == m.last_trade_date_or_contract_month
        &&& f[n2 + 5] == m.strike
        &&& f[n2 + 6] == m.right
    }) by {
        reveal(stands);
        assert(p3[0] == m.order_id);
        assert(p3[1] == m.con_id);
        assert(p3[2] == m.symbol);
        assert(p3[3] == m.sec_type);
        assert(p3[4] == m.last_trade_date_or_contract_month);
        assert(p3[5] == m.strike);
        assert(p3[6] == m.right);
    }
    assert(m.edition(server_version) >= 9 ==> f[n3] == m.multiplier) by {
        reveal(stands);
        if m.edition(server_version) >= 9 {
            assert(p4[0] == m.multiplier);
        }
    }
    assert(f[n4] == m.exchange && f[n4 + 1] == m.currency && f[n4 + 2] == m.local_symbol) by {
        reveal(stands);
        assert(p5[0] == m.exchange);
        assert(p5[1] == m.currency);
        assert(p5[2] == m.local_symbol);
    }
    assert(m.edition(server_version) >= 10 ==> f[n5] == m.trading_class) by {
        reveal(stands);
        if m.edition(server_version) >= 10 {
            assert(p6[0] == m.trading_class);
        }
    }
    assert({
        &&& f[n6] == m.exec_id
        &&& f[n6 + 1] == m.time
        &&& f[n6 + 2] == m.acct_number
        &&& f[n6 + 3] == m.exec_exchange
        &&& f[n6 + 4] == m.side
        &&& f[n6 + 5] == m.shares
        &&& f[n6 + 6] == m.price
        &&& f[n6 + 7] == m.perm_id
        &&& f[n6 + 8] == m.client_id
        &&& f[n6 + 9] == m.liquidation
    }) by {
        reveal(stands);
        assert(p7[0] == m.exec_id);
        assert(p7[1] == m.time);
        assert(p7[2] == m.acct_number);
        assert(p7[3] == m.exec_exchange);
        assert(p7[4] == m.side);
        assert(p7[5] == m.shares);
        assert(p7[6] == m.price);
        assert(p7[7] == m.perm_id);
        assert(p7[8] == m.client_id);
        assert(p7[9] == m.liquidation);
    }
    assert(m.edition(server_version) >= 6 ==> f[n7] == m.cum_qty && f[n7 + 1] == m.avg_price) by {
        reveal(stands);
        if m.edition(server_version) >= 6 {
            assert(p8[0] == m.cum_qty);
            assert(p8[1] == m.avg_price);
        }
    }
    assert(m.edition(server_version) >= 8 ==> f[n8] == m.order_ref) by {
        reveal(stands);
        if m.edition(server_version) >= 8 {
            assert(p9[0] == m.order_ref);
        }
    }
    assert(m.edition(server_version) >= 9 ==> f[n9] == m.ev_rule && f[n9 + 1] == m.ev_mark) by {
        reveal(stands);
        if m.edition(server_version) >= 9 {
            assert(p10[0] == m.ev_rule);
            assert(p10[1] == m.ev_mark);
        }
    }
    assert(m.edition(server_version) >= 9 && m.ev_mark@.len() > 0 ==> {
        &&& f[n10] == m.ev_multiplier
    }) by {
        reveal(stands);
        if m.edition(server_version) >= 9 && m.ev_mark@.len() > 0 {
            assert(p11[0] == m.ev_multiplier);
        }
    }
    assert(server_version >= MIN_SERVER_VER_MODELS_SUPPORT ==> f[n11] == m.model_code) by {
        reveal(stands);
        if server_version >= MIN_SERVER_VER_MODELS_SUPPORT {
            assert(p12[0] == m.model_code);
        }
    }
    assert(server_version >= MIN_SERVER_VER_LAST_LIQUIDITY ==> f[n12] == m.last_liquidity) by {
        reveal(stands);
        if server_version >= MIN_SERVER_VER_LAST_LIQUIDITY {
            assert(p13[0] == m.last_liquidity);
        }
    }
    let l = execution_layout(server_version, f);
    assert(l.req_id == n1);
    assert(l.order_id == n2);
    assert(l.exchange == n4);
    assert(l.exec_id == n6);
    assert(l.order_ref == n8);
    assert(l.ev_rule == n9);
    assert(l.model_code == n11);
    assert(l.last_liquidity == n12);
    assert(l.end == n13);
    lemma_kind(server_version, f, IncomingMessageIds::ExecutionData, r);
}

/// A commission is told as it was written.
pub proof fn lemma_commission_report(
    server_version: i32,
    id: String,
    version: String,
    exec_id: String,
    commission: String,
    currency: String,
    realized_pnl: String,
    yield_: String,
    yield_redemption_date: String,
    r: Interpretation,
)
    requires
        writes(id, 59),
        is_any_interpretation(
            server_version,
            seq![
                id,
                version,
                exec_id,
                commission,
                currency,
                realized_pnl,
                yield_,
                yield_redemption_date,
            ],
            r,
        ),
    ensures
        r.ending is Done,
        r.events@ == seq![
            Event::CommissionReport {
                report: CommissionReport {
                    exec_id,
                    commission: Double::Parsed(commission),
                    currency,
                    realized_pnl: Double::Parsed(realized_pnl),
                    yield_: Double::Parsed(yield_),
                    yield_redemption_date,
                },
            },
        ],
{
    let f = seq![
        id,
        version,
        exec_id,
        commission,
        currency,
        realized_pnl,
        yield_,
        yield_redemption_date,
    ];
    lemma_kind(server_version, f, IncomingMessageIds::CommissionReport, r);
}

/// An open order is told with the version that applies, and with all fields that hold the order.
pub proof fn lemma_open_order(
    server_version: i32,
    id: String,
    version: String,
    order: Seq<String>,
    r: Interpretation,
)
    requires
        writes(id, 5),
        is_any_interpretation(
            server_version,
            seq![id] + sent_if(server_version < MIN_SERVER_VER_ORDER_CONTAINER, seq![version])
                + order,
            r,
        ),
    ensures
        r.ending is Done,
        r.events@.len() == 1,
        r.events@[0] matches Event::OpenOrder { version: v, server_version: s, fields } && {
            &&& v == if server_version < MIN_SERVER_VER_ORDER_CONTAINER {
                number(version)
            } else {
                server_version
            }
            &&& s == server_version
            &&& fields@ == order
        },
{
    let f = seq![id] + sent_if(server_version < MIN_SERVER_VER_ORDER_CONTAINER, seq![version])
        + order;
    lemma_kind(server_version, f, IncomingMessageIds::OpenOrder, r);
    if server_version < MIN_SERVER_VER_ORDER_CONTAINER {
        assert(f.skip(2) =~= order);
    } else {
        assert(f.skip(1) =~= order);
    }
}

/// A completed order is told with all fields that hold the order.
pub proof fn lemma_completed_order(
    server_version: i32,
    id: String,
    order: Seq<String>,
    r: Interpretation,
)
    requires
        writes(id, 101),
        is_any_interpretation(server_version, seq![id] + order, r),
    ensures
        r.ending is Done,
        r.events@.len() == 1,
        r.events@[0] matches Event::CompletedOrder { version: v, server_version: s, fields } && {
            &&& v == i32::MAX
            &&& s == server_version
            &&& fields@ == order
        },
{
    let f = seq![id] + order;
    lemma_kind(server_version, f, IncomingMessageIds::CompletedOrder, r);
    assert(f.skip(1) =~= order);
}

} // verus!
