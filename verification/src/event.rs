//! What the application is notified of.
use crate::codes::{FaDataType, TickByTickType, TickType};
use crate::number::Double;
use crate::types::{
    BarData, CommissionReport, Contract, ContractDescription, ContractDetails, DeltaNeutralContract,
    DepthMktDataDescription, Execution, FamilyCode, HistogramData, HistoricalTick,
    HistoricalTickBidAsk, HistoricalTickLast, NewsProvider, PriceIncrement, RealTimeBar,
    SmartComponent, SoftDollarTier, TickAttrib, TickAttribBidAsk, TickAttribLast,
};
use vstd::prelude::*;

verus! {

/// A notification, with what it tells.
#[derive(Clone, Debug, PartialEq, Eq)]
#[allow(inconsistent_fields)]
pub enum Event {
    TickPrice { req_id: i32, tick_type: TickType, price: Double, attrib: TickAttrib },
    TickSize { req_id: i32, tick_type: TickType, size: i32 },
    TickString { req_id: i32, tick_type: TickType, value: String },
    TickGeneric { req_id: i32, tick_type: TickType, value: Double },
    TickEfp {
        req_id: i32,
        tick_type: TickType,
        basis_points: Double,
        formatted_basis_points: String,
        implied_futures_price: Double,
        hold_days: i32,
        future_last_trade_date: String,
        dividend_impact: Double,
        dividends_to_last_trade_date: Double,
    },
    TickOptionComputation {
        req_id: i32,
        tick_type: TickType,
        implied_vol: Double,
        delta: Double,
        opt_price: Double,
        pv_dividend: Double,
        gamma: Double,
        vega: Double,
        theta: Double,
        und_price: Double,
    },
    TickNews {
        req_id: i32,
        time_stamp: i32,
        provider_code: String,
        article_id: String,
        headline: String,
        extra_data: String,
    },
    TickReqParams {
        req_id: i32,
        min_tick: Double,
        bbo_exchange: String,
        snapshot_permissions: i32,
    },
    TickSnapshotEnd { req_id: i32 },
    TickByTickAllLast {
        req_id: i32,
        tick_type: TickByTickType,
        time: i64,
        price: Double,
        size: i32,
        attrib: TickAttribLast,
        exchange: String,
        special_conditions: String,
    },
    TickByTickBidAsk {
        req_id: i32,
        time: i64,
        bid_price: Double,
        ask_price: Double,
        bid_size: i32,
        ask_size: i32,
        attrib: TickAttribBidAsk,
    },
    TickByTickMidPoint { req_id: i32, time: i64, mid_point: Double },
    MarketDataType { req_id: i32, market_data_type: i32 },
    UpdateMktDepth {
        req_id: i32,
        position: i32,
        operation: i32,
        side: i32,
        price: Double,
        size: i32,
    },
    UpdateMktDepthL2 {
        req_id: i32,
        position: i32,
        market_maker: String,
        operation: i32,
        side: i32,
        price: Double,
        size: i32,
        is_smart_depth: bool,
    },
    MktDepthExchanges { descriptions: Vec<DepthMktDataDescription> },
    SmartComponents { req_id: i32, components: Vec<SmartComponent> },
    MarketRule { market_rule_id: i32, price_increments: Vec<PriceIncrement> },
    RerouteMktDataReq { req_id: i32, con_id: i32, exchange: String },
    RerouteMktDepthReq { req_id: i32, con_id: i32, exchange: String },
    HistoricalData { req_id: i32, bar: BarData },
    HistoricalDataEnd { req_id: i32, start: String, end: String },
    HistoricalDataUpdate { req_id: i32, bar: BarData },
    RealtimeBar { req_id: i32, bar: RealTimeBar },
    HistogramData { req_id: i32, items: Vec<HistogramData> },
    HistoricalTicks { req_id: i32, ticks: Vec<HistoricalTick>, done: bool },
    HistoricalTicksBidAsk { req_id: i32, ticks: Vec<HistoricalTickBidAsk>, done: bool },
    HistoricalTicksLast { req_id: i32, ticks: Vec<HistoricalTickLast>, done: bool },
    AccountSummary { req_id: i32, account: String, tag: String, value: String, currency: String },
    AccountSummaryEnd { req_id: i32 },
    AccountUpdateMulti {
        req_id: i32,
        account: String,
        model_code: String,
        key: String,
        value: String,
        currency: String,
    },
    AccountUpdateMultiEnd { req_id: i32 },
    AccountDownloadEnd { account: String },
    UpdateAccountTime { time_stamp: String },
    UpdateAccountValue { key: String, value: String, currency: String, account: String },
    ManagedAccounts { accounts: String },
    FamilyCodes { family_codes: Vec<FamilyCode> },
    ReceiveFa { data_type: FaDataType, xml: String },
    SoftDollarTiers { req_id: i32, tiers: Vec<SoftDollarTier> },
    Pnl { req_id: i32, daily_pnl: Double, unrealized_pnl: Double, realized_pnl: Double },
    PnlSingle {
        req_id: i32,
        pos: i32,
        daily_pnl: Double,
        unrealized_pnl: Double,
        realized_pnl: Double,
        value: Double,
    },
    UpdatePortfolio {
        contract: Contract,
        position: Double,
        market_price: Double,
        market_value: Double,
        average_cost: Double,
        unrealized_pnl: Double,
        realized_pnl: Double,
        account_name: String,
    },
    Position { account: String, contract: Contract, position: Double, avg_cost: Double },
    PositionEnd,
    PositionMulti {
        req_id: i32,
        account: String,
        model_code: String,
        contract: Contract,
        position: Double,
        avg_cost: Double,
    },
    PositionMultiEnd { req_id: i32 },
    ContractDetails { req_id: i32, details: ContractDetails },
    BondContractDetails { req_id: i32, details: ContractDetails },
    ContractDetailsEnd { req_id: i32 },
    DeltaNeutralValidation { req_id: i32, delta_neutral_contract: DeltaNeutralContract },
    SymbolSamples { req_id: i32, contract_descriptions: Vec<ContractDescription> },
    /// No expiration is listed twice.
    SecurityDefinitionOptionParameter {
        req_id: i32,
        exchange: String,
        underlying_con_id: i32,
        trading_class: String,
        multiplier: String,
        expirations: Vec<String>,
        strikes: Vec<Double>,
    },
    SecurityDefinitionOptionParameterEnd { req_id: i32 },
    ScannerData {
        req_id: i32,
        rank: i32,
        details: ContractDetails,
        distance: String,
        benchmark: String,
        projection: String,
        legs: String,
    },
    ScannerDataEnd { req_id: i32 },
    ScannerParameters { xml: String },
    /// The fields of the order, its contract and its state follow in `fields`, laid out as
    /// `version` and `server_version` say.
    OpenOrder { version: i32, server_version: i32, fields: Vec<String> },
    OpenOrderEnd,
    /// The fields of the order, its contract and its state follow in `fields`, laid out as
    /// `version` and `server_version` say.
    CompletedOrder { version: i32, server_version: i32, fields: Vec<String> },
    CompletedOrdersEnd,
    OrderStatus {
        order_id: i32,
        status: String,
        filled: Double,
        remaining: Double,
        avg_fill_price: Double,
        perm_id: i32,
        parent_id: i32,
        last_fill_price: Double,
        client_id: i32,
        why_held: String,
        mkt_cap_price: Double,
    },
    OrderBound { req_id: i32, api_client_id: i32, api_order_id: i32 },
    NextValidId { order_id: i32 },
    ExecDetails { req_id: i32, contract: Contract, execution: Execution },
    ExecDetailsEnd { req_id: i32 },
    CommissionReport { report: CommissionReport },
    NewsArticle { req_id: i32, article_type: i32, article_text: String },
    UpdateNewsBulletin { msg_id: i32, msg_type: i32, message: String, originating_exch: String },
    NewsProviders { news_providers: Vec<NewsProvider> },
    HistoricalNews {
        req_id: i32,
        time: String,
        provider_code: String,
        article_id: String,
        headline: String,
    },
    HistoricalNewsEnd { req_id: i32, has_more: bool },
    FundamentalData { req_id: i32, data: String },
    CurrentTime { time: i64 },
    DisplayGroupList { req_id: i32, groups: String },
    DisplayGroupUpdated { req_id: i32, contract_info: String },
    VerifyMessageApi { api_data: String },
    VerifyCompleted { is_successful: bool, error_text: String },
    VerifyAndAuthMessageApi { api_data: String, xyz_challenge: String },
    VerifyAndAuthCompleted { is_successful: bool, error_text: String },
    Error { req_id: i32, code: i32, text: String },
    ConnectionClosed,
}

} // verus!
