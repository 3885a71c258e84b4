//! The records that notifications carry.
use crate::number::Double;
use vstd::prelude::*;

verus! {

/// The conditions under which a price tick holds.
#[derive(Clone, Copy, Debug, PartialEq, Eq, Structural)]
pub struct TickAttrib {
    pub can_auto_execute: bool,
    pub past_limit: bool,
    pub pre_open: bool,
}

/// The conditions under which a bid and ask tick holds.
#[derive(Clone, Copy, Debug, PartialEq, Eq, Structural)]
pub struct TickAttribBidAsk {
    pub bid_past_low: bool,
    pub ask_past_high: bool,
}

/// The conditions under which a trade tick holds.
#[derive(Clone, Copy, Debug, PartialEq, Eq, Structural)]
pub struct TickAttribLast {
    pub past_limit: bool,
    pub unreported: bool,
}

/// A name and its value.
#[derive(Clone, Debug, PartialEq, Eq)]
pub struct TagValue {
    pub tag: String,
    pub value: String,
}

/// A tradable instrument.
#[derive(Clone, Debug, PartialEq, Eq)]
pub struct Contract {
    pub con_id: i32,
    pub symbol: String,
    pub sec_type: String,
    pub last_trade_date_or_contract_month: String,
    pub strike: Double,
    pub right: String,
    pub multiplier: String,
    pub exchange: String,
    pub primary_exchange: String,
    pub currency: String,
    pub local_symbol: String,
    pub trading_class: String,
}

/// What a `Contract` says.
pub struct ContractView {
    pub con_id: i32,
    pub symbol: Seq<char>,
    pub sec_type: Seq<char>,
    pub last_trade_date_or_contract_month: Seq<char>,
    pub strike: Double,
    pub right: Seq<char>,
    pub multiplier: Seq<char>,
    pub exchange: Seq<char>,
    pub primary_exchange: Seq<char>,
    pub currency: Seq<char>,
    pub local_symbol: Seq<char>,
    pub trading_class: Seq<char>,
}

impl View for Contract {
    type V = ContractView;

    open spec fn view(&self) -> ContractView {
        ContractView {
            con_id: self.con_id,
            symbol: self.symbol@,
            sec_type: self.sec_type@,
            last_trade_date_or_contract_month: self.last_trade_date_or_contract_month@,
            strike: self.strike,
            right: self.right@,
            multiplier: self.multiplier@,
            exchange: self.exchange@,
            primary_exchange: self.primary_exchange@,
            currency: self.currency@,
            local_symbol: self.local_symbol@,
            trading_class: self.trading_class@,
        }
    }
}

impl ContractView {
    /// A contract of which nothing is known.
    pub open spec fn blank() -> ContractView {
        ContractView {
            con_id: 0,
            symbol: seq![],
            sec_type: seq![],
            last_trade_date_or_contract_month: seq![],
            strike: Double::Whole(0),
            right: seq![],
            multiplier: seq![],
            exchange: seq![],
            primary_exchange: seq![],
            currency: seq![],
            local_symbol: seq![],
            trading_class: seq![],
        }
    }
}

impl Default for Contract {
    fn default() -> (r: Self)
        ensures
            r@ == ContractView::blank(),
    {
        Contract {
            con_id: 0,
            symbol: String::new(),
            sec_type: String::new(),
            last_trade_date_or_contract_month: String::new(),
            strike: Double::Whole(0),
            right: String::new(),
            multiplier: String::new(),
            exchange: String::new(),
            primary_exchange: String::new(),
            currency: String::new(),
            local_symbol: String::new(),
            trading_class: String::new(),
        }
    }
}

/// A contract and the terms on which it is traded.
#[derive(Clone, Debug, PartialEq, Eq)]
pub struct ContractDetails {
    pub contract: Contract,
    pub market_name: String,
    pub min_tick: Double,
    pub order_types: String,
    pub valid_exchanges: String,
    pub price_magnifier: i32,
    pub under_con_id: i32,
    pub long_name: String,
    pub contract_month: String,
    pub industry: String,
    pub category: String,
    pub subcategory: String,
    pub time_zone_id: String,
    pub trading_hours: String,
    pub liquid_hours: String,
    pub ev_rule: String,
    pub ev_multiplier: Double,
    pub md_size_multiplier: i32,
    pub agg_group: i32,
    pub under_symbol: String,
    pub under_sec_type: String,
    pub market_rule_ids: String,
    pub sec_id_list: Vec<TagValue>,
    pub real_expiration_date: String,
    pub last_trade_time: String,
    pub cusip: String,
    pub ratings: String,
    pub desc_append: String,
    pub bond_type: String,
    pub coupon_type: String,
    pub callable: bool,
    pub putable: bool,
    pub coupon: Double,
    pub convertible: bool,
    pub maturity: String,
    pub issue_date: String,
    pub next_option_date: String,
    pub next_option_type: String,
    pub next_option_partial: bool,
    pub notes: String,
}

/// What a `ContractDetails` says.
pub struct ContractDetailsView {
    pub contract: ContractView,
    pub market_name: Seq<char>,
    pub min_tick: Double,
    pub order_types: Seq<char>,
    pub valid_exchanges: Seq<char>,
    pub price_magnifier: i32,
    pub under_con_id: i32,
    pub long_name: Seq<char>,
    pub contract_month: Seq<char>,
    pub industry: Seq<char>,
    pub category: Seq<char>,
    pub subcategory: Seq<char>,
    pub time_zone_id: Seq<char>,
    pub trading_hours: Seq<char>,
    pub liquid_hours: Seq<char>,
    pub ev_rule: Seq<char>,
    pub ev_multiplier: Double,
    pub md_size_multiplier: i32,
    pub agg_group: i32,
    pub under_symbol: Seq<char>,
    pub under_sec_type: Seq<char>,
    pub market_rule_ids: Seq<char>,
    pub sec_id_list: Seq<TagValue>,
    pub real_expiration_date: Seq<char>,
    pub last_trade_time: Seq<char>,
    pub cusip: Seq<char>,
    pub ratings: Seq<char>,
    pub desc_append: Seq<char>,
    pub bond_type: Seq<char>,
    pub coupon_type: Seq<char>,
    pub callable: bool,
    pub putable: bool,
    pub coupon: Double,
    pub convertible: bool,
    pub maturity: Seq<char>,
    pub issue_date: Seq<char>,
    pub next_option_date: Seq<char>,
    pub next_option_type: Seq<char>,
    pub next_option_partial: bool,
    pub notes: Seq<char>,
}

impl View for ContractDetails {
    type V = ContractDetailsView;

    open spec fn view(&self) -> ContractDetailsView {
        ContractDetailsView {
            contract: self.contract@,
            market_name: self.market_name@,
            min_tick: self.min_tick,
            order_types: self.order_types@,
            valid_exchanges: self.valid_exchanges@,
            price_magnifier: self.price_magnifier,
            under_con_id: self.under_con_id,
            long_name: self.long_name@,
            contract_month: self.contract_month@,
            industry: self.industry@,
            category: self.category@,
            subcategory: self.subcategory@,
            time_zone_id: self.time_zone_id@,
            trading_hours: self.trading_hours@,
            liquid_hours: self.liquid_hours@,
            ev_rule: self.ev_rule@,
            ev_multiplier: self.ev_multiplier,
            md_size_multiplier: self.md_size_multiplier,
            agg_group: self.agg_group,
            under_symbol: self.under_symbol@,
            under_sec_type: self.under_sec_type@,
            market_rule_ids: self.market_rule_ids@,
            sec_id_list: self.sec_id_list@,
            real_expiration_date: self.real_expiration_date@,
            last_trade_time: self.last_trade_time@,
            cusip: self.cusip@,
            ratings: self.ratings@,
            desc_append: self.desc_append@,
            bond_type: self.bond_type@,
            coupon_type: self.coupon_type@,
            callable: self.callable,
            putable: self.putable,
            coupon: self.coupon,
            convertible: self.convertible,
            maturity: self.maturity@,
            issue_date: self.issue_date@,
            next_option_date: self.next_option_date@,
            next_option_type: self.next_option_type@,
            next_option_partial: self.next_option_partial,
            notes: self.notes@,
        }
    }
}

impl ContractDetailsView {
    /// Details of which nothing is known.
    pub open spec fn blank() -> ContractDetailsView {
        ContractDetailsView {
            contract: ContractView::blank(),
            market_name: seq![],
            min_tick: Double::Whole(0),
            order_types: seq![],
            valid_exchanges: seq![],
            price_magnifier: 0,
            under_con_id: 0,
            long_name: seq![],
            contract_month: seq![],
            industry: seq![],
            category: seq![],
            subcategory: seq![],
            time_zone_id: seq![],
            trading_hours: seq![],
            liquid_hours: seq![],
            ev_rule: seq![],
            ev_multiplier: Double::Whole(0),
            md_size_multiplier: 0,
            agg_group: 0,
            under_symbol: seq![],
            under_sec_type: seq![],
            market_rule_ids: seq![],
            sec_id_list: seq![],
            real_expiration_date: seq![],
            last_trade_time: seq![],
            cusip: seq![],
            ratings: seq![],
            desc_append: seq![],
            bond_type: seq![],
            coupon_type: seq![],
            callable: false,
            putable: false,
            coupon: Double::Whole(0),
            convertible: false,
            maturity: seq![],
            issue_date: seq![],
            next_option_date: seq![],
            next_option_type: seq![],
            next_option_partial: false,
            notes: seq![],
        }
    }
}

impl Default for ContractDetails {
    fn default() -> (r: Self)
        ensures
            r@ == ContractDetailsView::blank(),
    {
        ContractDetails {
            contract: Contract::default(),
            market_name: String::new(),
            min_tick: Double::Whole(0),
            order_types: String::new(),
            valid_exchanges: String::new(),
            price_magnifier: 0,
            under_con_id: 0,
            long_name: String::new(),
            contract_month: String::new(),
            industry: String::new(),
            category: String::new(),
            subcategory: String::new(),
            time_zone_id: String::new(),
            trading_hours: String::new(),
            liquid_hours: String::new(),
            ev_rule: String::new(),
            ev_multiplier: Double::Whole(0),
            md_size_multiplier: 0,
            agg_group: 0,
            under_symbol: String::new(),
            under_sec_type: String::new(),
            market_rule_ids: String::new(),
            sec_id_list: Vec::new(),
            real_expiration_date: String::new(),
            last_trade_time: String::new(),
            cusip: String::new(),
            ratings: String::new(),
            desc_append: String::new(),
            bond_type: String::new(),
            coupon_type: String::new(),
            callable: false,
            putable: false,
            coupon: Double::Whole(0),
            convertible: false,
            maturity: String::new(),
            issue_date: String::new(),
            next_option_date: String::new(),
            next_option_type: String::new(),
            next_option_partial: false,
            notes: String::new(),
        }
    }
}

/// A contract that a symbol search found, with the derivatives that there are on it.
#[derive(Clone, Debug, PartialEq, Eq)]
pub struct ContractDescription {
    pub contract: Contract,
    pub derivative_sec_types: Vec<String>,
}

/// What a `ContractDescription` says.
pub struct ContractDescriptionView {
    pub contract: ContractView,
    pub derivative_sec_types: Seq<String>,
}

impl View for ContractDescription {
    type V = ContractDescriptionView;

    open spec fn view(&self) -> ContractDescriptionView {
        ContractDescriptionView {
            contract: self.contract@,
            derivative_sec_types: self.derivative_sec_types@,
        }
    }
}

/// The hedge of a delta-neutral order.
#[derive(Clone, Debug, PartialEq, Eq)]
pub struct DeltaNeutralContract {
    pub con_id: i32,
    pub delta: Double,
    pub price: Double,
}

/// An order that was filled, wholly or in part.
#[derive(Clone, Debug, PartialEq, Eq)]
pub struct Execution {
    pub exec_id: String,
    pub time: String,
    pub acct_number: String,
    pub exchange: String,
    pub side: String,
    pub shares: Double,
    pub price: Double,
    pub perm_id: i32,
    pub client_id: i32,
    pub order_id: i32,
    pub liquidation: i32,
    pub cum_qty: Double,
    pub avg_price: Double,
    pub order_ref: String,
    pub ev_rule: String,
    pub ev_multiplier: Double,
    pub model_code: String,
    pub last_liquidity: i32,
}

/// What an `Execution` says.
pub struct ExecutionView {
    pub exec_id: Seq<char>,
    pub time: Seq<char>,
    pub acct_number: Seq<char>,
    pub exchange: Seq<char>,
    pub side: Seq<char>,
    pub shares: Double,
    pub price: Double,
    pub perm_id: i32,
    pub client_id: i32,
    pub order_id: i32,
    pub liquidation: i32,
    pub cum_qty: Double,
    pub avg_price: Double,
    pub order_ref: Seq<char>,
    pub ev_rule: Seq<char>,
    pub ev_multiplier: Double,
    pub model_code: Seq<char>,
    pub last_liquidity: i32,
}

impl View for Execution {
    type V = ExecutionView;

    open spec fn view(&self) -> ExecutionView {
        ExecutionView {
            exec_id: self.exec_id@,
            time: self.time@,
            acct_number: self.acct_number@,
            exchange: self.exchange@,
            side: self.side@,
            shares: self.shares,
            price: self.price,
            perm_id: self.perm_id,
            client_id: self.client_id,
            order_id: self.order_id,
            liquidation: self.liquidation,
            cum_qty: self.cum_qty,
            avg_price: self.avg_price,
            order_ref: self.order_ref@,
            ev_rule: self.ev_rule@,
            ev_multiplier: self.ev_multiplier,
            model_code: self.model_code@,
            last_liquidity: self.last_liquidity,
        }
    }
}

/// What an execution cost.
#[derive(Clone, Debug, PartialEq, Eq)]
pub struct CommissionReport {
    pub exec_id: String,
    pub commission: Double,
    pub currency: String,
    pub realized_pnl: Double,
    pub yield_: Double,
    pub yield_redemption_date: String,
}

/// An account and the family that it belongs to.
#[derive(Clone, Debug, PartialEq, Eq)]
pub struct FamilyCode {
    pub account_id: String,
    pub family_code_str: String,
}

/// How often a price occurred.
#[derive(Clone, Debug, PartialEq, Eq)]
pub struct HistogramData {
    pub price: Double,
    pub count: i32,
}

/// A bar of historical prices.
#[derive(Clone, Debug, PartialEq, Eq)]
pub struct BarData {
    pub date: String,
    pub open: Double,
    pub high: Double,
    pub low: Double,
    pub close: Double,
    pub volume: i64,
    pub bar_count: i32,
    pub average: Double,
}

/// A bar of current prices.
#[derive(Clone, Debug, PartialEq, Eq)]
pub struct RealTimeBar {
    pub date_time: String,
    pub open: Double,
    pub high: Double,
    pub low: Double,
    pub close: Double,
    pub volume: i64,
    pub wap: Double,
    pub count: i32,
}

/// A historical midpoint.
#[derive(Clone, Debug, PartialEq, Eq)]
pub struct HistoricalTick {
    pub time: i32,
    pub price: Double,
    pub size: i32,
}

/// A historical bid and ask.
#[derive(Clone, Debug, PartialEq, Eq)]
pub struct HistoricalTickBidAsk {
    pub time: i32,
    pub tick_attrib_bid_ask: TickAttribBidAsk,
    pub price_bid: Double,
    pub price_ask: Double,
    pub size_bid: i32,
    pub size_ask: i32,
}

/// A historical trade.
#[derive(Clone, Debug, PartialEq, Eq)]
pub struct HistoricalTickLast {
    pub time: i32,
    pub tick_attrib_last: TickAttribLast,
    pub price: Double,
    pub size: i32,
    pub exchange: String,
    pub special_conditions: String,
}

/// An exchange that offers market depth.
#[derive(Clone, Debug, PartialEq, Eq)]
pub struct DepthMktDataDescription {
    pub exchange: String,
    pub sec_type: String,
    pub listing_exch: String,
    pub service_data_type: String,
    pub agg_group: i32,
}

/// What a `DepthMktDataDescription` says.
pub struct DepthMktDataDescriptionView {
    pub exchange: Seq<char>,
    pub sec_type: Seq<char>,
    pub listing_exch: Seq<char>,
    pub service_data_type: Seq<char>,
    pub agg_group: i32,
}

impl View for DepthMktDataDescription {
    type V = DepthMktDataDescriptionView;

    open spec fn view(&self) -> DepthMktDataDescriptionView {
        DepthMktDataDescriptionView {
            exchange: self.exchange@,
            sec_type: self.sec_type@,
            listing_exch: self.listing_exch@,
            service_data_type: self.service_data_type@,
            agg_group: self.agg_group,
        }
    }
}

impl Default for DepthMktDataDescription {
    fn default() -> (r: Self)
        ensures
            r@ == (DepthMktDataDescriptionView {
                exchange: seq![],
                sec_type: seq![],
                listing_exch: seq![],
                service_data_type: seq![],
                agg_group: 0,
            }),
    {
        DepthMktDataDescription {
            exchange: String::new(),
            sec_type: String::new(),
            listing_exch: String::new(),
            service_data_type: String::new(),
            agg_group: 0,
        }
    }
}

/// A source of news.
#[derive(Clone, Debug, PartialEq, Eq)]
pub struct NewsProvider {
    pub code: String,
    pub name: String,
}

/// The price step from a price on.
#[derive(Clone, Debug, PartialEq, Eq)]
pub struct PriceIncrement {
    pub low_edge: Double,
    pub increment: Double,
}

/// An exchange behind smart routing.
#[derive(Clone, Debug, PartialEq, Eq)]
pub struct SmartComponent {
    pub bit_number: i32,
    pub exchange: String,
    pub exchange_letter: String,
}

/// A soft dollar tier.
#[derive(Clone, Debug, PartialEq, Eq)]
pub struct SoftDollarTier {
    pub name: String,
    pub val: String,
    pub display_name: String,
}

} // verus!
