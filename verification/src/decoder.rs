//! The decoder: which message tells what.
use crate::account::{
    account_download_end_event, account_summary_end_event, account_summary_event,
    account_update_multi_end_event, account_update_multi_event, account_update_time_event,
    account_value_event, family_codes_complete, is_family_codes, is_portfolio_value,
    is_position_data, is_position_multi, is_soft_dollar_tiers, managed_accounts_event, pnl_event,
    pnl_single_event, portfolio_value_complete, position_data_complete, position_multi_complete,
    position_multi_end_event, receive_fa_event, soft_dollar_tiers_complete,
};
use crate::codes::IncomingMessageIds;
use crate::contracts::{
    bond_bad_flag, bond_complete, contract_details_complete, contract_details_end_event,
    delta_neutral_validation_event, is_bond_outcome, is_contract_details,
};
use crate::depth::{
    is_market_depth_exchanges, is_market_rule, is_smart_components, market_depth_event,
    market_depth_exchanges_complete, market_depth_l2_event, market_rule_complete,
    reroute_mkt_data_req_event, reroute_mkt_depth_req_event, smart_components_complete,
};
use crate::errors::IBKRApiLibError;
use crate::event::Event;
use crate::history::{
    bar_events, histogram_data_complete, historical_data_complete, historical_data_events,
    historical_data_update_event, historical_ticks_bid_ask_complete, historical_ticks_complete,
    historical_ticks_last_complete, is_histogram_data, is_historical_ticks,
    is_historical_ticks_bid_ask, is_historical_ticks_last, leading_bars, real_time_bars_event,
};
use crate::lookup::{
    are_leading_scan_entries, are_scanner_data, is_option_parameter, is_symbol_samples,
    option_parameter_complete, option_parameter_end_event, scanner_data_complete,
    scanner_parameters_event, symbol_samples_complete,
};
use crate::news::{
    historical_news_end_event, historical_news_event, is_news_providers, news_article_event,
    news_bulletins_event, news_providers_complete, tick_news_event,
};
use crate::orders::{
    commission_report_event, execution_data_complete, execution_data_end_event, is_completed_order,
    is_execution_data, is_open_order, next_valid_id_event, open_order_complete, order_bound_event,
    order_status_event,
};
use crate::session::{
    current_time_event, display_group_list_event, display_group_updated_event, error_message_event,
    fundamental_data_event, head_timestamp_event, verify_and_auth_completed_event,
    verify_and_auth_message_api_event, verify_completed_event,
};
use crate::text::{integer_i32, parse_i32};
use crate::ticks::{
    market_data_type_event, tick_by_tick_events, tick_generic_event, tick_option_computation_event,
    tick_price_events, tick_req_params_event, tick_size_event, tick_snapshot_end_event,
    tick_string_event,
};
use vstd::prelude::*;

verus! {

/// Turns the messages of a server into the events that they carry.
#[derive(Clone, Copy, Debug, PartialEq, Eq, Structural)]
pub struct Decoder {
    /// The protocol that the server speaks.
    pub server_version: i32,
}

/// Whether a message of kind `id` has all its fields, and known codes in those that hold a code.
pub open spec fn message_complete(
    id: IncomingMessageIds,
    server_version: i32,
    f: Seq<String>,
) -> bool {
    match id {
        IncomingMessageIds::TickPrice => tick_price_events(server_version, f) is Some,
        IncomingMessageIds::AccountSummary => account_summary_event(f) is Some,
        IncomingMessageIds::AccountSummaryEnd => account_summary_end_event(f) is Some,
        IncomingMessageIds::AccountUpdateMulti => account_update_multi_event(f) is Some,
        IncomingMessageIds::AccountUpdateMultiEnd => account_update_multi_end_event(f) is Some,
        IncomingMessageIds::AcctDownloadEnd => account_download_end_event(f) is Some,
        IncomingMessageIds::AcctUpdateTime => account_update_time_event(f) is Some,
        IncomingMessageIds::AcctValue => account_value_event(f) is Some,
        IncomingMessageIds::BondContractData => bond_complete(server_version, f),
        IncomingMessageIds::CommissionReport => commission_report_event(f) is Some,
        IncomingMessageIds::CompletedOrder => true,
        IncomingMessageIds::CompletedOrdersEnd => true,
        IncomingMessageIds::ContractData => contract_details_complete(server_version, f),
        IncomingMessageIds::ContractDataEnd => contract_details_end_event(f) is Some,
        IncomingMessageIds::CurrentTime => current_time_event(f) is Some,
        IncomingMessageIds::DeltaNeutralValidation => delta_neutral_validation_event(f) is Some,
        IncomingMessageIds::DisplayGroupList => display_group_list_event(f) is Some,
        IncomingMessageIds::DisplayGroupUpdated => display_group_updated_event(f) is Some,
        IncomingMessageIds::ErrMsg => error_message_event(f) is Some,
        IncomingMessageIds::ExecutionData => execution_data_complete(server_version, f),
        IncomingMessageIds::ExecutionDataEnd => execution_data_end_event(f) is Some,
        IncomingMessageIds::FamilyCodes => family_codes_complete(f),
        IncomingMessageIds::FundamentalData => fundamental_data_event(f) is Some,
        IncomingMessageIds::HeadTimestamp => head_timestamp_event(f) is Some,
        IncomingMessageIds::HistogramData => histogram_data_complete(f),
        IncomingMessageIds::HistoricalData => historical_data_complete(server_version, f),
        IncomingMessageIds::HistoricalDataUpdate => historical_data_update_event(f) is Some,
        IncomingMessageIds::HistoricalNews => historical_news_event(f) is Some,
        IncomingMessageIds::HistoricalNewsEnd => historical_news_end_event(f) is Some,
        IncomingMessageIds::HistoricalTicks => historical_ticks_complete(f),
        IncomingMessageIds::HistoricalTicksBidAsk => historical_ticks_bid_ask_complete(f),
        IncomingMessageIds::HistoricalTicksLast => historical_ticks_last_complete(f),
        IncomingMessageIds::ManagedAccts => managed_accounts_event(f) is Some,
        IncomingMessageIds::MarketDataType => market_data_type_event(f) is Some,
        IncomingMessageIds::MarketDepth => market_depth_event(f) is Some,
        IncomingMessageIds::MarketDepthL2 => market_depth_l2_event(server_version, f) is Some,
        IncomingMessageIds::MarketRule => market_rule_complete(f),
        IncomingMessageIds::MktDepthExchanges => market_depth_exchanges_complete(server_version, f),
        IncomingMessageIds::NewsArticle => news_article_event(f) is Some,
        IncomingMessageIds::NewsBulletins => news_bulletins_event(f) is Some,
        IncomingMessageIds::NewsProviders => news_providers_complete(f),
        IncomingMessageIds::NextValidId => next_valid_id_event(f) is Some,
        IncomingMessageIds::OpenOrder => open_order_complete(server_version, f),
        IncomingMessageIds::OpenOrderEnd => true,
        IncomingMessageIds::OrderStatus => order_status_event(server_version, f) is Some,
        IncomingMessageIds::OrderBound => order_bound_event(f) is Some,
        IncomingMessageIds::Pnl => pnl_event(server_version, f) is Some,
        IncomingMessageIds::PnlSingle => pnl_single_event(server_version, f) is Some,
        IncomingMessageIds::PortfolioValue => portfolio_value_complete(server_version, f),
        IncomingMessageIds::PositionData => position_data_complete(f),
        IncomingMessageIds::PositionEnd => true,
        IncomingMessageIds::RealTimeBars => real_time_bars_event(f) is Some,
        IncomingMessageIds::ReceiveFa => receive_fa_event(f) is Some,
        IncomingMessageIds::RerouteMktDataReq => reroute_mkt_data_req_event(f) is Some,
        IncomingMessageIds::PositionMulti => position_multi_complete(f),
        IncomingMessageIds::PositionMultiEnd => position_multi_end_event(f) is Some,
        IncomingMessageIds::ScannerData => scanner_data_complete(f),
        IncomingMessageIds::ScannerParameters => scanner_parameters_event(f) is Some,
        IncomingMessageIds::SecurityDefinitionOptionParameter => option_parameter_complete(f),
        IncomingMessageIds::SecurityDefinitionOptionParameterEnd => {
            option_parameter_end_event(f) is Some
        },
        IncomingMessageIds::SmartComponents => smart_components_complete(f),
        IncomingMessageIds::SoftDollarTiers => soft_dollar_tiers_complete(f),
        IncomingMessageIds::SymbolSamples => symbol_samples_complete(f),
        IncomingMessageIds::TickByTick => tick_by_tick_events(f) is Some,
        IncomingMessageIds::TickEfp => tick_by_tick_events(f) is Some,
        IncomingMessageIds::TickGeneric => tick_generic_event(f) is Some,
        IncomingMessageIds::TickNews => tick_news_event(f) is Some,
        IncomingMessageIds::TickOptionComputation => tick_option_computation_event(f) is Some,
        IncomingMessageIds::TickReqParams => tick_req_params_event(f) is Some,
        IncomingMessageIds::TickSize => tick_size_event(f) is Some,
        IncomingMessageIds::TickSnapshotEnd => tick_snapshot_end_event(f) is Some,
        IncomingMessageIds::TickString => tick_string_event(f) is Some,
        IncomingMessageIds::VerifyAndAuthCompleted => verify_and_auth_completed_event(f) is Some,
        IncomingMessageIds::VerifyCompleted => verify_completed_event(f) is Some,
        IncomingMessageIds::VerifyMessageApi => verify_completed_event(f) is Some,
        IncomingMessageIds::VerifyAndAuthMessageApi => verify_and_auth_message_api_event(f) is Some,
        IncomingMessageIds::RerouteMktDepthReq => reroute_mkt_depth_req_event(f) is Some,
    }
}

/// The field that keeps a message of kind `id` from telling anything: it has to be an integer and
/// is none.
pub open spec fn message_bad_field(
    id: IncomingMessageIds,
    server_version: i32,
    f: Seq<String>,
) -> Option<String> {
    match id {
        IncomingMessageIds::BondContractData => bond_bad_flag(server_version, f),
        _ => None,
    }
}

/// Whether `events`, in this order, is what a complete message of kind `id` tells.
pub open spec fn message_tells(
    id: IncomingMessageIds,
    server_version: i32,
    f: Seq<String>,
    events: Seq<Event>,
) -> bool {
    match id {
        IncomingMessageIds::TickPrice => tick_price_events(server_version, f) == Some(events),
        IncomingMessageIds::AccountSummary => {
            &&& events.len() == 1
            &&& account_summary_event(f) == Some(events[0])
        },
        IncomingMessageIds::AccountSummaryEnd => {
            &&& events.len() == 1
            &&& account_summary_end_event(f) == Some(events[0])
        },
        IncomingMessageIds::AccountUpdateMulti => {
            &&& events.len() == 1
            &&& account_update_multi_event(f) == Some(events[0])
        },
        IncomingMessageIds::AccountUpdateMultiEnd => {
            &&& events.len() == 1
            &&& account_update_multi_end_event(f) == Some(events[0])
        },
        IncomingMessageIds::AcctDownloadEnd => {
            &&& events.len() == 1
            &&& account_download_end_event(f) == Some(events[0])
        },
        IncomingMessageIds::AcctUpdateTime => {
            &&& events.len() == 1
            &&& account_update_time_event(f) == Some(events[0])
        },
        IncomingMessageIds::AcctValue => {
            &&& events.len() == 1
            &&& account_value_event(f) == Some(events[0])
        },
        IncomingMessageIds::BondContractData => {
            &&& events.len() == 1
            &&& is_bond_outcome(server_version, f, Ok(events[0]))
        },
        IncomingMessageIds::CommissionReport => {
            &&& events.len() == 1
            &&& commission_report_event(f) == Some(events[0])
        },
        IncomingMessageIds::CompletedOrder => {
            &&& events.len() == 1
            &&& is_completed_order(server_version, f, events[0])
        },
        IncomingMessageIds::CompletedOrdersEnd => events == seq![Event::CompletedOrdersEnd],
        IncomingMessageIds::ContractData => {
            &&& events.len() == 1
            &&& is_contract_details(server_version, f, events[0])
        },
        IncomingMessageIds::ContractDataEnd => {
            &&& events.len() == 1
            &&& contract_details_end_event(f) == Some(events[0])
        },
        IncomingMessageIds::CurrentTime => {
            &&& events.len() == 1
            &&& current_time_event(f) == Some(events[0])
        },
        IncomingMessageIds::DeltaNeutralValidation => {
            &&& events.len() == 1
            &&& delta_neutral_validation_event(f) == Some(events[0])
        },
        IncomingMessageIds::DisplayGroupList => {
            &&& events.len() == 1
            &&& display_group_list_event(f) == Some(events[0])
        },
        IncomingMessageIds::DisplayGroupUpdated => {
            &&& events.len() == 1
            &&& display_group_updated_event(f) == Some(events[0])
        },
        IncomingMessageIds::ErrMsg => {
            &&& events.len() == 1
            &&& error_message_event(f) == Some(events[0])
        },
        IncomingMessageIds::ExecutionData => {
            &&& events.len() == 1
            &&& is_execution_data(server_version, f, events[0])
        },
        IncomingMessageIds::ExecutionDataEnd => {
            &&& events.len() == 1
            &&& execution_data_end_event(f) == Some(events[0])
        },
        IncomingMessageIds::FamilyCodes => events.len() == 1 && is_family_codes(f, events[0]),
        IncomingMessageIds::FundamentalData => {
            &&& events.len() == 1
            &&& fundamental_data_event(f) == Some(events[0])
        },
        IncomingMessageIds::HeadTimestamp => {
            &&& events.len() == 1
            &&& head_timestamp_event(f) == Some(events[0])
        },
        IncomingMessageIds::HistogramData => events.len() == 1 && is_histogram_data(f, events[0]),
        IncomingMessageIds::HistoricalData => events == historical_data_events(server_version, f),
        IncomingMessageIds::HistoricalDataUpdate => {
            &&& events.len() == 1
            &&& historical_data_update_event(f) == Some(events[0])
        },
        IncomingMessageIds::HistoricalNews => {
            &&& events.len() == 1
            &&& historical_news_event(f) == Some(events[0])
        },
        IncomingMessageIds::HistoricalNewsEnd => {
            &&& events.len() == 1
            &&& historical_news_end_event(f) == Some(events[0])
        },
        IncomingMessageIds::HistoricalTicks => {
            &&& events.len() == 1
            &&& is_historical_ticks(f, events[0])
        },
        IncomingMessageIds::HistoricalTicksBidAsk => {
            &&& events.len() == 1
            &&& is_historical_ticks_bid_ask(f, events[0])
        },
        IncomingMessageIds::HistoricalTicksLast => {
            &&& events.len() == 1
            &&& is_historical_ticks_last(f, events[0])
        },
        IncomingMessageIds::ManagedAccts => {
            &&& events.len() == 1
            &&& managed_accounts_event(f) == Some(events[0])
        },
        IncomingMessageIds::MarketDataType => {
            &&& events.len() == 1
            &&& market_data_type_event(f) == Some(events[0])
        },
        IncomingMessageIds::MarketDepth => {
            &&& events.len() == 1
            &&& market_depth_event(f) == Some(events[0])
        },
        IncomingMessageIds::MarketDepthL2 => {
            &&& events.len() == 1
            &&& market_depth_l2_event(server_version, f) == Some(events[0])
        },
        IncomingMessageIds::MarketRule => events.len() == 1 && is_market_rule(f, events[0]),
        IncomingMessageIds::MktDepthExchanges => {
            &&& events.len() == 1
            &&& is_market_depth_exchanges(server_version, f, events[0])
        },
        IncomingMessageIds::NewsArticle => {
            &&& events.len() == 1
            &&& news_article_event(f) == Some(events[0])
        },
        IncomingMessageIds::NewsBulletins => {
            &&& events.len() == 1
            &&& news_bulletins_event(f) == Some(events[0])
        },
        IncomingMessageIds::NewsProviders => events.len() == 1 && is_news_providers(f, events[0]),
        IncomingMessageIds::NextValidId => {
            &&& events.len() == 1
            &&& next_valid_id_event(f) == Some(events[0])
        },
        IncomingMessageIds::OpenOrder => {
            &&& events.len() == 1
            &&& is_open_order(server_version, f, events[0])
        },
        IncomingMessageIds::OpenOrderEnd => events == seq![Event::OpenOrderEnd],
        IncomingMessageIds::OrderStatus => {
            &&& events.len() == 1
            &&& order_status_event(server_version, f) == Some(events[0])
        },
        IncomingMessageIds::OrderBound => {
            &&& events.len() == 1
            &&& order_bound_event(f) == Some(events[0])
        },
        IncomingMessageIds::Pnl => {
            &&& events.len() == 1
            &&& pnl_event(server_version, f) == Some(events[0])
        },
        IncomingMessageIds::PnlSingle => {
            &&& events.len() == 1
            &&& pnl_single_event(server_version, f) == Some(events[0])
        },
        IncomingMessageIds::PortfolioValue => {
            &&& events.len() == 1
            &&& is_portfolio_value(server_version, f, events[0])
        },
        IncomingMessageIds::PositionData => {
            &&& events.len() == 1
            &&& is_position_data(server_version, f, events[0])
        },
        IncomingMessageIds::PositionEnd => events == seq![Event::PositionEnd],
        IncomingMessageIds::RealTimeBars => {
            &&& events.len() == 1
            &&& real_time_bars_event(f) == Some(events[0])
        },
        IncomingMessageIds::ReceiveFa => {
            &&& events.len() == 1
            &&& receive_fa_event(f) == Some(events[0])
        },
        IncomingMessageIds::RerouteMktDataReq => {
            &&& events.len() == 1
            &&& reroute_mkt_data_req_event(f) == Some(events[0])
        },
        IncomingMessageIds::PositionMulti => events.len() == 1 && is_position_multi(f, events[0]),
        IncomingMessageIds::PositionMultiEnd => {
            &&& events.len() == 1
            &&& position_multi_end_event(f) == Some(events[0])
        },
        IncomingMessageIds::ScannerData => are_scanner_data(f, events),
        IncomingMessageIds::ScannerParameters => {
            &&& events.len() == 1
            &&& scanner_parameters_event(f) == Some(events[0])
        },
        IncomingMessageIds::SecurityDefinitionOptionParameter => {
            &&& events.len() == 1
            &&& is_option_parameter(f, events[0])
        },
        IncomingMessageIds::SecurityDefinitionOptionParameterEnd => {
            &&& events.len() == 1
            &&& option_parameter_end_event(f) == Some(events[0])
        },
        IncomingMessageIds::SmartComponents => {
            &&& events.len() == 1
            &&& is_smart_components(f, events[0])
        },
        IncomingMessageIds::SoftDollarTiers => {
            &&& events.len() == 1
            &&& is_soft_dollar_tiers(f, events[0])
        },
        IncomingMessageIds::SymbolSamples => events.len() == 1 && is_symbol_samples(f, events[0]),
        IncomingMessageIds::TickByTick => tick_by_tick_events(f) == Some(events),
        IncomingMessageIds::TickEfp => tick_by_tick_events(f) == Some(events),
        IncomingMessageIds::TickGeneric => {
            &&& events.len() == 1
            &&& tick_generic_event(f) == Some(events[0])
        },
        IncomingMessageIds::TickNews => events.len() == 1 && tick_news_event(f) == Some(events[0]),
        IncomingMessageIds::TickOptionComputation => {
            &&& events.len() == 1
            &&& tick_option_computation_event(f) == Some(events[0])
        },
        IncomingMessageIds::TickReqParams => {
            &&& events.len() == 1
            &&& tick_req_params_event(f) == Some(events[0])
        },
        IncomingMessageIds::TickSize => events.len() == 1 && tick_size_event(f) == Some(events[0]),
        IncomingMessageIds::TickSnapshotEnd => {
            &&& events.len() == 1
            &&& tick_snapshot_end_event(f) == Some(events[0])
        },
        IncomingMessageIds::TickString => {
            &&& events.len() == 1
            &&& tick_string_event(f) == Some(events[0])
        },
        IncomingMessageIds::VerifyAndAuthCompleted => {
            &&& events.len() == 1
            &&& verify_and_auth_completed_event(f) == Some(events[0])
        },
        IncomingMessageIds::VerifyCompleted => {
            &&& events.len() == 1
            &&& verify_completed_event(f) == Some(events[0])
        },
        IncomingMessageIds::VerifyMessageApi => {
            &&& events.len() == 1
            &&& verify_completed_event(f) == Some(events[0])
        },
        IncomingMessageIds::VerifyAndAuthMessageApi => {
            &&& events.len() == 1
            &&& verify_and_auth_message_api_event(f) == Some(events[0])
        },
        IncomingMessageIds::RerouteMktDepthReq => {
            &&& events.len() == 1
            &&& reroute_mkt_depth_req_event(f) == Some(events[0])
        },
    }
}

/// Whether `r` is what comes of a complete message of kind `id`.
pub open spec fn is_message_outcome(
    id: IncomingMessageIds,
    server_version: i32,
    f: Seq<String>,
    r: Result<Vec<Event>, IBKRApiLibError>,
) -> bool {
    match message_bad_field(id, server_version, f) {
        Some(field) => r == Err::<Vec<Event>, IBKRApiLibError>(IBKRApiLibError::ParseInt(field)),
        None => r is Ok && message_tells(id, server_version, f, r->Ok_0@),
    }
}

/// Whether the fields of a message can be interpreted: there are none, or the first is no
/// integer, or it is the number of a kind of message that is complete.
pub open spec fn interpretable(server_version: i32, f: Seq<String>) -> bool {
    f.len() > 0 ==> match integer_i32(f[0]@) {
        Some(code) => match IncomingMessageIds::of(code) {
            Some(id) => message_complete(id, server_version, f),
            None => false,
        },
        None => true,
    }
}

/// Whether `r` is what comes of the fields of a message. No fields tell nothing. A first field
/// that is no integer is the error. Else it says of which kind the message is.
pub open spec fn is_interpretation(
    server_version: i32,
    f: Seq<String>,
    r: Result<Vec<Event>, IBKRApiLibError>,
) -> bool {
    if f.len() == 0 {
        r is Ok && r->Ok_0@ == Seq::<Event>::empty()
    } else {
        match integer_i32(f[0]@) {
            Some(code) => IncomingMessageIds::of(code) matches Some(id) && is_message_outcome(
                id,
                server_version,
                f,
                r,
            ),
            None => r == Err::<Vec<Event>, IBKRApiLibError>(IBKRApiLibError::ParseInt(f[0])),
        }
    }
}

/// The field for which the interpretation of a message ends in an error: the first one where it is
/// no integer, else the one that its kind of message has to name.
pub open spec fn interpretation_error(server_version: i32, f: Seq<String>) -> Option<String> {
    if f.len() == 0 {
        None
    } else {
        match integer_i32(f[0]@) {
            Some(code) => match IncomingMessageIds::of(code) {
                Some(id) => message_bad_field(id, server_version, f),
                None => None,
            },
            None => Some(f[0]),
        }
    }
}

/// Whether `events` is what a message of kind `id` tells that breaks off: the leading entries of a
/// list whose entries are events of their own, else nothing.
pub open spec fn message_leads(
    id: IncomingMessageIds,
    server_version: i32,
    f: Seq<String>,
    events: Seq<Event>,
) -> bool {
    match id {
        IncomingMessageIds::HistoricalData => {
            events == bar_events(server_version, f, leading_bars(server_version, f))
        },
        IncomingMessageIds::ScannerData => are_leading_scan_entries(f, events),
        _ => events.len() == 0,
    }
}

/// Whether `events` is what the fields of a message tell that cannot be interpreted.
pub open spec fn interpretation_leads(
    server_version: i32,
    f: Seq<String>,
    events: Seq<Event>,
) -> bool {
    match IncomingMessageIds::of(integer_i32(f[0]@)->0) {
        Some(id) => message_leads(id, server_version, f, events),
        None => events.len() == 0,
    }
}

/// How the interpretation of a message ends.
#[derive(Debug)]
pub enum Ending {
    /// The message has told all.
    Done,
    /// The message is in error.
    Failed(IBKRApiLibError),
    /// The message is of an unknown kind, breaks off, or holds an unknown code.
    BrokenOff,
}

/// What comes of any message.
#[derive(Debug)]
pub struct Interpretation {
    /// What the message tells, in this order; all that it tells before it breaks off.
    pub events: Vec<Event>,
    pub ending: Ending,
}

/// Whether `r` is what comes of any fields.
pub open spec fn is_any_interpretation(
    server_version: i32,
    f: Seq<String>,
    r: Interpretation,
) -> bool {
    match r.ending {
        Ending::Done => {
            &&& interpretable(server_version, f)
            &&& is_interpretation(server_version, f, Ok(r.events))
        },
        Ending::Failed(error) => {
            &&& interpretable(server_version, f)
            &&& is_interpretation(server_version, f, Err::<Vec<Event>, IBKRApiLibError>(error))
            &&& r.events@.len() == 0
        },
        Ending::BrokenOff => {
            &&& !interpretable(server_version, f)
            &&& interpretation_leads(server_version, f, r.events@)
        },
    }
}

/// A single event as what comes of a message.
fn single(event: Option<Event>) -> (r: Interpretation)
    ensures
        event is Some ==> r.ending is Done && r.events@ == seq![event->0],
        event is None ==> r.ending is BrokenOff && r.events@.len() == 0,
{
    let mut events: Vec<Event> = Vec::new();
    match event {
        Some(event) => {
            events.push(event);
            Interpretation { events, ending: Ending::Done }
        },
        None => Interpretation { events, ending: Ending::BrokenOff },
    }
}

/// Events that come all or none as what comes of a message.
fn several(events: Option<Vec<Event>>) -> (r: Interpretation)
    ensures
        events is Some ==> r.ending is Done && r.events == events->0,
        events is None ==> r.ending is BrokenOff && r.events@.len() == 0,
{
    match events {
        Some(events) => Interpretation { events, ending: Ending::Done },
        None => Interpretation { events: Vec::new(), ending: Ending::BrokenOff },
    }
}

/// The entries of a list, all of them or the leading ones, as what comes of a message.
fn listed(events: Result<Vec<Event>, Vec<Event>>) -> (r: Interpretation)
    ensures
        events is Ok ==> r.ending is Done && r.events == events->Ok_0,
        events is Err ==> r.ending is BrokenOff && r.events == events->Err_0,
{
    match events {
        Ok(events) => Interpretation { events, ending: Ending::Done },
        Err(events) => Interpretation { events, ending: Ending::BrokenOff },
    }
}

impl Decoder {
    /// A decoder for a server that speaks the protocol `server_version`.
    pub fn new(server_version: i32) -> (r: Self)
        ensures
            r.server_version == server_version,
    {
        Decoder { server_version }
    }

    /// Interprets a message of a known kind.
    fn process(id: IncomingMessageIds, server_version: i32, fields: &[String]) -> (r:
        Interpretation)
        ensures
            match r.ending {
                Ending::Done => {
                    &&& message_complete(id, server_version, fields@)
                    &&& is_message_outcome(id, server_version, fields@, Ok(r.events))
                },
                Ending::Failed(error) => {
                    &&& message_complete(id, server_version, fields@)
                    &&& is_message_outcome(
                        id,
                        server_version,
                        fields@,
                        Err::<Vec<Event>, IBKRApiLibError>(error),
                    )
                    &&& r.events@.len() == 0
                },
                Ending::BrokenOff => {
                    &&& !message_complete(id, server_version, fields@)
                    &&& message_leads(id, server_version, fields@, r.events@)
                },
            },
    {
        match id {
            IncomingMessageIds::TickPrice => {
                several(Self::process_tick_price(server_version, fields))
            },
            IncomingMessageIds::AccountSummary => single(Self::process_account_summary(fields)),
            IncomingMessageIds::AccountSummaryEnd => {
                single(Self::process_account_summary_end(fields))
            },
            IncomingMessageIds::AccountUpdateMulti => {
                single(Self::process_account_update_multi(fields))
            },
            IncomingMessageIds::AccountUpdateMultiEnd => {
                single(Self::process_account_update_multi_end(fields))
            },
            IncomingMessageIds::AcctDownloadEnd => {
                single(Self::process_account_download_end(fields))
            },
            IncomingMessageIds::AcctUpdateTime => single(Self::process_account_update_time(fields)),
            IncomingMessageIds::AcctValue => single(Self::process_account_value(fields)),
            IncomingMessageIds::BondContractData => {
                match Self::process_bond_contract_data(server_version, fields) {
                    Some(Ok(event)) => single(Some(event)),
                    Some(Err(error)) => Interpretation {
                        events: Vec::new(),
                        ending: Ending::Failed(error),
                    },
                    None => single(None),
                }
            },
            IncomingMessageIds::CommissionReport => single(Self::process_commission_report(fields)),
            IncomingMessageIds::CompletedOrder => {
                single(Self::process_completed_order(server_version, fields))
            },
            IncomingMessageIds::CompletedOrdersEnd => {
                single(Self::process_complete_orders_end(fields))
            },
            IncomingMessageIds::ContractData => {
                single(Self::process_contract_details(server_version, fields))
            },
            IncomingMessageIds::ContractDataEnd => {
                single(Self::process_contract_details_end(fields))
            },
            IncomingMessageIds::CurrentTime => single(Self::process_current_time(fields)),
            IncomingMessageIds::DeltaNeutralValidation => {
                single(Self::process_delta_neutral_validation(fields))
            },
            IncomingMessageIds::DisplayGroupList => {
                single(Self::process_display_group_list(fields))
            },
            IncomingMessageIds::DisplayGroupUpdated => {
                single(Self::process_display_group_updated(fields))
            },
            IncomingMessageIds::ErrMsg => single(Self::process_error_message(fields)),
            IncomingMessageIds::ExecutionData => {
                single(Self::process_execution_data(server_version, fields))
            },
            IncomingMessageIds::ExecutionDataEnd => {
                single(Self::process_execution_data_end(fields))
            },
            IncomingMessageIds::FamilyCodes => single(Self::process_family_codes(fields)),
            IncomingMessageIds::FundamentalData => single(Self::process_fundamental_data(fields)),
            IncomingMessageIds::HeadTimestamp => single(Self::process_head_timestamp(fields)),
            IncomingMessageIds::HistogramData => single(Self::process_histogram_data(fields)),
            IncomingMessageIds::HistoricalData => {
                listed(Self::process_historical_data(server_version, fields))
            },
            IncomingMessageIds::HistoricalDataUpdate => {
                single(Self::process_historical_data_update(fields))
            },
            IncomingMessageIds::HistoricalNews => single(Self::process_historical_news(fields)),
            IncomingMessageIds::HistoricalNewsEnd => {
                single(Self::process_historical_news_end(fields))
            },
            IncomingMessageIds::HistoricalTicks => single(Self::process_historical_ticks(fields)),
            IncomingMessageIds::HistoricalTicksBidAsk => {
                single(Self::process_historical_ticks_bid_ask(fields))
            },
            IncomingMessageIds::HistoricalTicksLast => {
                single(Self::process_historical_ticks_last(fields))
            },
            IncomingMessageIds::ManagedAccts => single(Self::process_managed_accounts(fields)),
            IncomingMessageIds::MarketDataType => single(Self::process_market_data_type(fields)),
            IncomingMessageIds::MarketDepth => single(Self::process_market_depth(fields)),
            IncomingMessageIds::MarketDepthL2 => {
                single(Self::process_market_depth_l2(server_version, fields))
            },
            IncomingMessageIds::MarketRule => single(Self::process_market_rule(fields)),
            IncomingMessageIds::MktDepthExchanges => {
                single(Self::process_market_depth_exchanges(server_version, fields))
            },
            IncomingMessageIds::NewsArticle => single(Self::process_news_article(fields)),
            IncomingMessageIds::NewsBulletins => single(Self::process_news_bulletins(fields)),
            IncomingMessageIds::NewsProviders => single(Self::process_news_providers(fields)),
            IncomingMessageIds::NextValidId => single(Self::process_next_valid_id(fields)),
            IncomingMessageIds::OpenOrder => {
                single(Self::process_open_order(server_version, fields))
            },
            IncomingMessageIds::OpenOrderEnd => single(Self::process_open_order_end(fields)),
            IncomingMessageIds::OrderStatus => {
                single(Self::process_order_status(server_version, fields))
            },
            IncomingMessageIds::OrderBound => single(Self::process_order_bound(fields)),
            IncomingMessageIds::Pnl => single(Self::process_pnl(server_version, fields)),
            IncomingMessageIds::PnlSingle => {
                single(Self::process_pnl_single(server_version, fields))
            },
            IncomingMessageIds::PortfolioValue => {
                single(Self::process_portfolio_value(server_version, fields))
            },
            IncomingMessageIds::PositionData => {
                single(Self::process_position_data(server_version, fields))
            },
            IncomingMessageIds::PositionEnd => single(Self::process_position_end(fields)),
            IncomingMessageIds::RealTimeBars => single(Self::process_real_time_bars(fields)),
            IncomingMessageIds::ReceiveFa => single(Self::process_receive_fa(fields)),
            IncomingMessageIds::RerouteMktDataReq => {
                single(Self::process_reroute_mkt_data_req(fields))
            },
            IncomingMessageIds::PositionMulti => single(Self::process_position_multi(fields)),
            IncomingMessageIds::PositionMultiEnd => {
                single(Self::process_position_multi_end(fields))
            },
            IncomingMessageIds::ScannerData => listed(Self::process_scanner_data(fields)),
            IncomingMessageIds::ScannerParameters => {
                single(Self::process_scanner_parameters(fields))
            },
            IncomingMessageIds::SecurityDefinitionOptionParameter => {
                single(Self::process_security_definition_option_parameter(fields))
            },
            IncomingMessageIds::SecurityDefinitionOptionParameterEnd => {
                single(Self::process_security_definition_option_parameter_end(fields))
            },
            IncomingMessageIds::SmartComponents => single(Self::process_smart_components(fields)),
            IncomingMessageIds::SoftDollarTiers => single(Self::process_soft_dollar_tiers(fields)),
            IncomingMessageIds::SymbolSamples => single(Self::process_symbol_samples(fields)),
            IncomingMessageIds::TickByTick => several(Self::process_tick_by_tick(fields)),
            IncomingMessageIds::TickEfp => several(Self::process_tick_by_tick(fields)),
            IncomingMessageIds::TickGeneric => single(Self::process_tick_generic(fields)),
            IncomingMessageIds::TickNews => single(Self::process_tick_news(fields)),
            IncomingMessageIds::TickOptionComputation => {
                single(Self::process_tick_option_computation(fields))
            },
            IncomingMessageIds::TickReqParams => single(Self::process_tick_req_params(fields)),
            IncomingMessageIds::TickSize => single(Self::process_tick_size(fields)),
            IncomingMessageIds::TickSnapshotEnd => single(Self::process_tick_snapshot_end(fields)),
            IncomingMessageIds::TickString => single(Self::process_tick_string(fields)),
            IncomingMessageIds::VerifyAndAuthCompleted => {
                single(Self::process_verify_and_auth_completed(fields))
            },
            IncomingMessageIds::VerifyCompleted => single(Self::process_verify_completed(fields)),
            IncomingMessageIds::VerifyMessageApi => single(Self::process_verify_completed(fields)),
            IncomingMessageIds::VerifyAndAuthMessageApi => {
                single(Self::process_verify_and_auth_message_api(fields))
            },
            IncomingMessageIds::RerouteMktDepthReq => {
                single(Self::process_reroute_mkt_depth_req(fields))
            },
        }
    }

    /// Interprets any fields, as far as they go.
    pub fn interpret_any(server_version: i32, fields: &[String]) -> (r: Interpretation)
        ensures
            is_any_interpretation(server_version, fields@, r),
    {
        if fields.len() == 0 {
            return Interpretation { events: Vec::new(), ending: Ending::Done };
        }
        match parse_i32(fields[0].as_str()) {
            Some(code) => match IncomingMessageIds::from_i32(code) {
                Some(id) => Self::process(id, server_version, fields),
                None => single(None),
            },
            None => Interpretation {
                events: Vec::new(),
                ending: Ending::Failed(IBKRApiLibError::ParseInt(fields[0].clone())),
            },
        }
    }

    /// Interprets the fields of a message; gives nothing where that is not possible to their end.
    pub fn try_interpret(server_version: i32, fields: &[String]) -> (r: Option<
        Result<Vec<Event>, IBKRApiLibError>,
    >)
        ensures
            r is Some <==> interpretable(server_version, fields@),
            r is Some ==> is_interpretation(server_version, fields@, r->0),
    {
        let r = Self::interpret_any(server_version, fields);
        match r.ending {
            Ending::Done => Some(Ok(r.events)),
            Ending::Failed(error) => Some(Err(error)),
            Ending::BrokenOff => None,
        }
    }

    /// Interprets the fields of a message.
    pub fn interpret(server_version: i32, fields: &[String]) -> (r: Result<
        Vec<Event>,
        IBKRApiLibError,
    >)
        requires
            interpretable(server_version, fields@),
        ensures
            is_interpretation(server_version, fields@, r),
    {
        Self::try_interpret(server_version, fields).unwrap()
    }
}

} // verus!
