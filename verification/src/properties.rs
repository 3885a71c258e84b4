//! What holds of every message.
use crate::account::{family_codes, soft_dollar_tiers};
use crate::codes::{IncomingMessageIds, TickType};
use crate::contracts::{
    bond_bad_flag, bond_complete, bond_details_of, bond_layout, contract_details_complete,
    contract_details_layout, contract_details_of, contract_details_req_id, tag_values,
};
use crate::decoder::{
    interpretable, interpretation_error, is_any_interpretation, is_interpretation,
    message_bad_field, message_complete, message_leads, message_tells, Ending, Interpretation,
};
use crate::depth::{price_increments, smart_components};
use crate::errors::IBKRApiLibError;
use crate::event::Event;
use crate::fields::{count_at, int_at};
use crate::history::{
    bar_events, bar_start, bars_req_id, histogram_points, historical_ticks,
    historical_ticks_bid_ask, historical_ticks_last, leading_bars,
};
use crate::lookup::{
    is_scan_entry, leading_scan_entries, lemma_sample_start_grows, sample_at, sample_start,
    strike_count_field, strikes,
};
use crate::news::news_providers;
use crate::server_versions::MIN_SERVER_VER_SMART_DEPTH;
use crate::text::{integer_i32, texts};
use crate::ticks::spec_size_tick_type;
use vstd::prelude::*;

verus! {

/// Whether what a message of kind `id` tells is settled by the fields `f`, so that fields after
/// them are not looked at: an order takes up all that there is, and a flag at the end of a
/// message may be missing.
pub open spec fn settled(id: IncomingMessageIds, server_version: i32, f: Seq<String>) -> bool {
    match id {
        IncomingMessageIds::OpenOrder | IncomingMessageIds::CompletedOrder => false,
        IncomingMessageIds::HistoricalNewsEnd => f.len() >= 3,
        IncomingMessageIds::HistoricalTicks => f.len() >= 4 + 4 * count_at(f, 2),
        IncomingMessageIds::HistoricalTicksBidAsk | IncomingMessageIds::HistoricalTicksLast => {
            f.len() >= 4 + 6 * count_at(f, 2)
        },
        IncomingMessageIds::MarketDepthL2 => {
            server_version < MIN_SERVER_VER_SMART_DEPTH || f.len() >= 10
        },
        _ => true,
    }
}

/// Whether fields after `f` change nothing: the message is complete with them, too, and the same
/// comes of it.
spec fn stays(
    id: IncomingMessageIds,
    server_version: i32,
    f: Seq<String>,
    more: Seq<String>,
    events: Seq<Event>,
) -> bool {
    &&& message_complete(id, server_version, f + more)
    &&& message_bad_field(id, server_version, f + more) == message_bad_field(id, server_version, f)
    &&& message_tells(id, server_version, f + more, events) == message_tells(
        id,
        server_version,
        f,
        events,
    )
}

/// Fields after those that a complete message is made of change nothing.
pub proof fn lemma_later_fields_are_ignored(
    id: IncomingMessageIds,
    server_version: i32,
    f: Seq<String>,
    more: Seq<String>,
    events: Seq<Event>,
)
    requires
        message_complete(id, server_version, f),
        settled(id, server_version, f),
    ensures
        message_complete(id, server_version, f + more),
        message_bad_field(id, server_version, f + more) == message_bad_field(id, server_version, f),
        message_tells(id, server_version, f + more, events) <==> message_tells(
            id,
            server_version,
            f,
            events,
        ),
{
    if is_tick_message(id) {
        lemma_tick_stays(id, server_version, f, more, events);
    } else if is_account_message(id) {
        lemma_account_stays(id, server_version, f, more, events);
    } else if is_contract_message(id) {
        lemma_contract_stays(id, server_version, f, more, events);
    } else if is_order_message(id) {
        lemma_order_stays(id, server_version, f, more, events);
    } else if is_session_message(id) {
        lemma_session_stays(id, server_version, f, more, events);
    } else if is_history_message(id) {
        lemma_history_stays(id, server_version, f, more, events);
    } else if is_news_message(id) {
        lemma_news_stays(id, server_version, f, more, events);
    } else if is_depth_message(id) {
        lemma_depth_stays(id, server_version, f, more, events);
    } else if is_lookup_message(id) {
        lemma_lookup_stays(id, server_version, f, more, events);
    }
}

/// Fields after those that a complete message is made of change nothing in how it is interpreted.
pub proof fn lemma_interpretation_ignores_later_fields(
    server_version: i32,
    f: Seq<String>,
    more: Seq<String>,
    r: Result<Vec<Event>, IBKRApiLibError>,
)
    requires
        f.len() > 0,
        interpretable(server_version, f),
        integer_i32(f[0]@) matches Some(code) ==> settled(
            IncomingMessageIds::of(code)->0,
            server_version,
            f,
        ),
    ensures
        interpretable(server_version, f + more),
        is_interpretation(server_version, f + more, r) <==> is_interpretation(server_version, f, r),
{
    assert((f + more)[0] == f[0]);
    if let Some(code) = integer_i32(f[0]@) {
        let id = IncomingMessageIds::of(code)->0;
        let events = r->Ok_0@;
        lemma_later_fields_are_ignored(id, server_version, f, more, events);
    }
}

/// How many events a message of kind `id` tells that breaks off.
pub open spec fn leading_count(id: IncomingMessageIds, server_version: i32, f: Seq<String>) -> nat {
    match id {
        IncomingMessageIds::HistoricalData => leading_bars(server_version, f),
        IncomingMessageIds::ScannerData => leading_scan_entries(f),
        _ => 0,
    }
}

/// How many events the interpretation of a message gives.
pub open spec fn interpretation_count(server_version: i32, f: Seq<String>) -> nat {
    if f.len() == 0 || interpretation_error(server_version, f) is Some {
        0
    } else {
        match integer_i32(f[0]@) {
            Some(code) => match IncomingMessageIds::of(code) {
                Some(id) => if message_complete(id, server_version, f) {
                    event_count(id, server_version, f)
                } else {
                    leading_count(id, server_version, f)
                },
                None => 0,
            },
            None => 0,
        }
    }
}

/// The interpretation of a message is an error exactly where a field is to blame, and that field
/// is the error. Else it gives as many events as its kind of message tells.
pub proof fn lemma_interpretation(
    server_version: i32,
    f: Seq<String>,
    r: Result<Vec<Event>, IBKRApiLibError>,
)
    requires
        interpretable(server_version, f),
        is_interpretation(server_version, f, r),
    ensures
        match interpretation_error(server_version, f) {
            Some(field) => r == Err::<Vec<Event>, IBKRApiLibError>(
                IBKRApiLibError::ParseInt(field),
            ),
            None => r is Ok && r->Ok_0@.len() == interpretation_count(server_version, f),
        },
{
    if f.len() > 0 && interpretation_error(server_version, f) is None {
        let id = IncomingMessageIds::of(integer_i32(f[0]@)->0)->0;
        lemma_event_count(id, server_version, f, r->Ok_0@);
    }
}

/// What comes of any message breaks off exactly where it cannot be interpreted, and is an error
/// exactly where a field is to blame. It gives as many events as `interpretation_count` says.
pub proof fn lemma_any_interpretation(server_version: i32, f: Seq<String>, r: Interpretation)
    requires
        is_any_interpretation(server_version, f, r),
    ensures
        r.ending is BrokenOff <==> !interpretable(server_version, f),
        r.ending is Failed <==> interpretation_error(server_version, f) is Some,
        r.ending matches Ending::Failed(error) ==> error == IBKRApiLibError::ParseInt(
            interpretation_error(server_version, f)->0,
        ),
        r.events@.len() == interpretation_count(server_version, f),
{
    match r.ending {
        Ending::Done => {
            lemma_interpretation(server_version, f, Ok(r.events));
        },
        Ending::Failed(error) => {
            lemma_interpretation(server_version, f, Err::<Vec<Event>, IBKRApiLibError>(error));
        },
        Ending::BrokenOff => {},
    }
}

/// What a message tells that breaks off is the beginning of what it tells with the fields that are
/// missing: followed by the rest of that, it is what the whole message tells.
pub proof fn lemma_leading_events(
    id: IncomingMessageIds,
    server_version: i32,
    f: Seq<String>,
    more: Seq<String>,
    leading: Seq<Event>,
    events: Seq<Event>,
)
    requires
        !message_complete(id, server_version, f),
        message_leads(id, server_version, f, leading),
        message_complete(id, server_version, f + more),
        message_tells(id, server_version, f + more, events),
    ensures
        leading.len() <= events.len(),
        message_tells(
            id,
            server_version,
            f + more,
            leading + events.skip(leading.len() as int),
        ),
{
    let g = f + more;
    let whole = leading + events.skip(leading.len() as int);
    assert(forall|i: int| 0 <= i < f.len() ==> f[i] == g[i]);
    match id {
        IncomingMessageIds::HistoricalData => {
            let n = leading_bars(server_version, f);
            if f.len() >= bar_start(server_version, 0) {
                assert(bar_events(server_version, f, n) =~= bar_events(server_version, g, n));
            }
            assert(whole =~= events);
        },
        IncomingMessageIds::ScannerData => {
            let n = leading_scan_entries(f) as int;
            assert forall|i: int| 0 <= i < count_at(g, 3) implies is_scan_entry(
                g,
                4 + 16 * i,
                #[trigger] whole[i],
            ) by {
                if i < n {
                    assert(is_scan_entry(f, 4 + 16 * i, leading[i]));
                } else {
                    assert(whole[i] == events[i]);
                }
            }
        },
        _ => {
            assert(whole =~= events);
        },
    }
}

/// What the fields of a message hold decides whether it can be interpreted, whether that ends in
/// an error and what the field to blame holds, and how many events there are.
pub proof fn lemma_texts_decide(server_version: i32, f: Seq<String>, g: Seq<String>)
    requires
        texts(f) == texts(g),
    ensures
        interpretable(server_version, f) == interpretable(server_version, g),
        interpretation_error(server_version, f) is Some <==> interpretation_error(
            server_version,
            g,
        ) is Some,
        interpretation_error(server_version, f) is Some ==> interpretation_error(
            server_version,
            f,
        )->0@ == interpretation_error(server_version, g)->0@,
        interpretation_count(server_version, f) == interpretation_count(server_version, g),
{
    assert(texts(f).len() == f.len());
    assert(texts(g).len() == g.len());
    assert forall|i: int| 0 <= i < f.len() implies f[i]@ == #[trigger] g[i]@ by {
        assert(texts(f)[i] == texts(g)[i]);
    }
    if f.len() > 0 {
        assert(f[0]@ == g[0]@);
        if let Some(code) = integer_i32(f[0]@) {
            if let Some(id) = IncomingMessageIds::of(code) {
                lemma_complete_agrees(id, server_version, f, g);
                if message_complete(id, server_version, f) {
                    lemma_bad_field_agrees(id, server_version, f, g);
                    lemma_event_count_agrees(id, server_version, f, g);
                }
            }
        }
    }
}

/// Which field of a complete message is wrong is decided by what its fields hold.
proof fn lemma_bad_field_agrees(
    id: IncomingMessageIds,
    server_version: i32,
    f: Seq<String>,
    g: Seq<String>,
)
    requires
        same_texts(f, g),
        message_complete(id, server_version, f),
    ensures
        message_bad_field(id, server_version, f) is Some <==> message_bad_field(
            id,
            server_version,
            g,
        ) is Some,
        message_bad_field(id, server_version, f) is Some ==> message_bad_field(
            id,
            server_version,
            f,
        )->0@ == message_bad_field(id, server_version, g)->0@,
{
}

/// How many events a complete message tells is decided by what its fields hold.
proof fn lemma_event_count_agrees(
    id: IncomingMessageIds,
    server_version: i32,
    f: Seq<String>,
    g: Seq<String>,
)
    requires
        same_texts(f, g),
        message_complete(id, server_version, f),
    ensures
        event_count(id, server_version, f) == event_count(id, server_version, g),
{
}

/// Whether two messages hold the same in their fields.
spec fn same_texts(f: Seq<String>, g: Seq<String>) -> bool {
    &&& f.len() == g.len()
    &&& forall|i: int| 0 <= i < f.len() ==> f[i]@ == #[trigger] g[i]@
}

/// Whether a message is complete is decided by what its fields hold.
proof fn lemma_complete_agrees(
    id: IncomingMessageIds,
    server_version: i32,
    f: Seq<String>,
    g: Seq<String>,
)
    requires
        same_texts(f, g),
    ensures
        message_complete(id, server_version, f) == message_complete(id, server_version, g),
{
    if is_tick_message(id) {
        lemma_tick_agree(id, server_version, f, g);
    } else if is_account_message(id) {
        lemma_account_agree(id, server_version, f, g);
    } else if is_contract_message(id) {
        lemma_contract_agree(id, server_version, f, g);
    } else if is_order_message(id) {
        lemma_order_agree(id, server_version, f, g);
    } else if is_session_message(id) {
        lemma_session_agree(id, server_version, f, g);
    } else if is_history_message(id) {
        lemma_history_agree(id, server_version, f, g);
    } else if is_news_message(id) {
        lemma_news_agree(id, server_version, f, g);
    } else if is_depth_message(id) {
        lemma_depth_agree(id, server_version, f, g);
    } else if is_lookup_message(id) {
        lemma_lookup_agree(id, server_version, f, g);
    }
}

/// These messages are complete as what their fields hold says.
proof fn lemma_tick_agree(
    id: IncomingMessageIds,
    server_version: i32,
    f: Seq<String>,
    g: Seq<String>,
)
    requires
        is_tick_message(id),
        same_texts(f, g),
    ensures
        message_complete(id, server_version, f) == message_complete(id, server_version, g),
{
}

/// These messages are complete as what their fields hold says.
proof fn lemma_account_agree(
    id: IncomingMessageIds,
    server_version: i32,
    f: Seq<String>,
    g: Seq<String>,
)
    requires
        is_account_message(id),
        same_texts(f, g),
    ensures
        message_complete(id, server_version, f) == message_complete(id, server_version, g),
{
}

/// These messages are complete as what their fields hold says.
proof fn lemma_contract_agree(
    id: IncomingMessageIds,
    server_version: i32,
    f: Seq<String>,
    g: Seq<String>,
)
    requires
        is_contract_message(id),
        same_texts(f, g),
    ensures
        message_complete(id, server_version, f) == message_complete(id, server_version, g),
{
}

/// These messages are complete as what their fields hold says.
proof fn lemma_order_agree(
    id: IncomingMessageIds,
    server_version: i32,
    f: Seq<String>,
    g: Seq<String>,
)
    requires
        is_order_message(id),
        same_texts(f, g),
    ensures
        message_complete(id, server_version, f) == message_complete(id, server_version, g),
{
}

/// These messages are complete as what their fields hold says.
proof fn lemma_session_agree(
    id: IncomingMessageIds,
    server_version: i32,
    f: Seq<String>,
    g: Seq<String>,
)
    requires
        is_session_message(id),
        same_texts(f, g),
    ensures
        message_complete(id, server_version, f) == message_complete(id, server_version, g),
{
}

/// These messages are complete as what their fields hold says.
proof fn lemma_history_agree(
    id: IncomingMessageIds,
    server_version: i32,
    f: Seq<String>,
    g: Seq<String>,
)
    requires
        is_history_message(id),
        same_texts(f, g),
    ensures
        message_complete(id, server_version, f) == message_complete(id, server_version, g),
{
}

/// These messages are complete as what their fields hold says.
proof fn lemma_news_agree(
    id: IncomingMessageIds,
    server_version: i32,
    f: Seq<String>,
    g: Seq<String>,
)
    requires
        is_news_message(id),
        same_texts(f, g),
    ensures
        message_complete(id, server_version, f) == message_complete(id, server_version, g),
{
}

/// These messages are complete as what their fields hold says.
proof fn lemma_depth_agree(
    id: IncomingMessageIds,
    server_version: i32,
    f: Seq<String>,
    g: Seq<String>,
)
    requires
        is_depth_message(id),
        same_texts(f, g),
    ensures
        message_complete(id, server_version, f) == message_complete(id, server_version, g),
{
}

/// These messages are complete as what their fields hold says.
proof fn lemma_lookup_agree(
    id: IncomingMessageIds,
    server_version: i32,
    f: Seq<String>,
    g: Seq<String>,
)
    requires
        is_lookup_message(id),
        same_texts(f, g),
    ensures
        message_complete(id, server_version, f) == message_complete(id, server_version, g),
{
    lemma_sample_starts_agree(f, g, count_at(f, 2));
}

/// Samples of a symbol search begin where what the fields hold says.
proof fn lemma_sample_starts_agree(f: Seq<String>, g: Seq<String>, n: nat)
    requires
        same_texts(f, g),
    ensures
        sample_start(f, n) <= f.len() || sample_start(g, n) <= f.len() ==> sample_start(f, n)
            == sample_start(g, n),
    decreases n,
{
    if n > 0 {
        let k = (n - 1) as nat;
        lemma_sample_start_grows(f, k, n);
        lemma_sample_start_grows(g, k, n);
        lemma_sample_start_grows(f, 0, k);
        lemma_sample_start_grows(g, 0, k);
        lemma_sample_starts_agree(f, g, k);
    }
}

/// How many events a complete message of kind `id` tells.
pub open spec fn event_count(id: IncomingMessageIds, server_version: i32, f: Seq<String>) -> nat {
    match id {
        IncomingMessageIds::TickPrice => {
            if spec_size_tick_type(TickType::of(int_at(f, 3))->0) == TickType::NotSet {
                1
            } else {
                2
            }
        },
        IncomingMessageIds::TickByTick | IncomingMessageIds::TickEfp => {
            if 1 <= int_at(f, 2) <= 4 {
                1
            } else {
                0
            }
        },
        IncomingMessageIds::HistoricalData => {
            count_at(f, bars_req_id(server_version) + 3) + 1
        },
        IncomingMessageIds::ScannerData => count_at(f, 3) + 1,
        _ => 1,
    }
}

/// A message tells one event, but for a price, which may come with a size, for a tick-by-tick
/// message of a type without ticks, and for lists, whose entries and end are events of their own.
pub proof fn lemma_event_count(
    id: IncomingMessageIds,
    server_version: i32,
    f: Seq<String>,
    events: Seq<Event>,
)
    requires
        message_complete(id, server_version, f),
        message_tells(id, server_version, f, events),
    ensures
        events.len() == event_count(id, server_version, f),
{
}

/// Whether the messages of kind `id` are those of module `ticks`.
spec fn is_tick_message(id: IncomingMessageIds) -> bool {
    match id {
        IncomingMessageIds::TickPrice
        | IncomingMessageIds::MarketDataType
        | IncomingMessageIds::TickByTick
        | IncomingMessageIds::TickEfp
        | IncomingMessageIds::TickGeneric
        | IncomingMessageIds::TickOptionComputation
        | IncomingMessageIds::TickReqParams
        | IncomingMessageIds::TickSize
        | IncomingMessageIds::TickSnapshotEnd
        | IncomingMessageIds::TickString => true,
        _ => false,
    }
}

/// Later fields change nothing in these messages.
proof fn lemma_tick_stays(
    id: IncomingMessageIds,
    server_version: i32,
    f: Seq<String>,
    more: Seq<String>,
    events: Seq<Event>,
)
    requires
        is_tick_message(id),
        message_complete(id, server_version, f),
        settled(id, server_version, f),
    ensures
        stays(id, server_version, f, more, events),
{
    let g = f + more;
    assert(forall|i: int| 0 <= i < f.len() ==> f[i] == g[i]);
}

/// Whether the messages of kind `id` are those of module `account`.
spec fn is_account_message(id: IncomingMessageIds) -> bool {
    match id {
        IncomingMessageIds::AccountSummary
        | IncomingMessageIds::AccountSummaryEnd
        | IncomingMessageIds::AccountUpdateMulti
        | IncomingMessageIds::AccountUpdateMultiEnd
        | IncomingMessageIds::AcctDownloadEnd
        | IncomingMessageIds::AcctUpdateTime
        | IncomingMessageIds::AcctValue
        | IncomingMessageIds::FamilyCodes
        | IncomingMessageIds::ManagedAccts
        | IncomingMessageIds::Pnl
        | IncomingMessageIds::PnlSingle
        | IncomingMessageIds::PortfolioValue
        | IncomingMessageIds::PositionData
        | IncomingMessageIds::PositionEnd
        | IncomingMessageIds::ReceiveFa
        | IncomingMessageIds::PositionMulti
        | IncomingMessageIds::PositionMultiEnd
        | IncomingMessageIds::SoftDollarTiers => true,
        _ => false,
    }
}

/// Later fields change nothing in these messages.
proof fn lemma_account_stays(
    id: IncomingMessageIds,
    server_version: i32,
    f: Seq<String>,
    more: Seq<String>,
    events: Seq<Event>,
)
    requires
        is_account_message(id),
        message_complete(id, server_version, f),
        settled(id, server_version, f),
    ensures
        stays(id, server_version, f, more, events),
{
    let g = f + more;
    assert(forall|i: int| 0 <= i < f.len() ==> f[i] == g[i]);
    match id {
        IncomingMessageIds::FamilyCodes => {
            let n = count_at(f, 1);
            assert(family_codes(f, 2, n) =~= family_codes(g, 2, n));
        },
        IncomingMessageIds::SoftDollarTiers => {
            let n = count_at(f, 2);
            assert(soft_dollar_tiers(f, 3, n) =~= soft_dollar_tiers(g, 3, n));
        },
        _ => {},
    }
}

/// Whether the messages of kind `id` are those of module `contracts`.
spec fn is_contract_message(id: IncomingMessageIds) -> bool {
    match id {
        IncomingMessageIds::BondContractData
        | IncomingMessageIds::ContractData
        | IncomingMessageIds::ContractDataEnd
        | IncomingMessageIds::DeltaNeutralValidation => true,
        _ => false,
    }
}

/// Later fields change nothing in these messages.
proof fn lemma_contract_stays(
    id: IncomingMessageIds,
    server_version: i32,
    f: Seq<String>,
    more: Seq<String>,
    events: Seq<Event>,
)
    requires
        is_contract_message(id),
        message_complete(id, server_version, f),
        settled(id, server_version, f),
    ensures
        stays(id, server_version, f, more, events),
{
    let g = f + more;
    assert(forall|i: int| 0 <= i < f.len() ==> f[i] == g[i]);
    match id {
        IncomingMessageIds::BondContractData => {
            lemma_bond_stays(server_version, f, more);
        },
        IncomingMessageIds::ContractData => {
            lemma_contract_details_stay(server_version, f, more);
        },
        _ => {},
    }
}

/// Whether the messages of kind `id` are those of module `orders`.
spec fn is_order_message(id: IncomingMessageIds) -> bool {
    match id {
        IncomingMessageIds::CommissionReport
        | IncomingMessageIds::CompletedOrder
        | IncomingMessageIds::CompletedOrdersEnd
        | IncomingMessageIds::ExecutionData
        | IncomingMessageIds::ExecutionDataEnd
        | IncomingMessageIds::NextValidId
        | IncomingMessageIds::OpenOrder
        | IncomingMessageIds::OpenOrderEnd
        | IncomingMessageIds::OrderStatus
        | IncomingMessageIds::OrderBound => true,
        _ => false,
    }
}

/// Later fields change nothing in these messages.
proof fn lemma_order_stays(
    id: IncomingMessageIds,
    server_version: i32,
    f: Seq<String>,
    more: Seq<String>,
    events: Seq<Event>,
)
    requires
        is_order_message(id),
        message_complete(id, server_version, f),
        settled(id, server_version, f),
    ensures
        stays(id, server_version, f, more, events),
{
    let g = f + more;
    assert(forall|i: int| 0 <= i < f.len() ==> f[i] == g[i]);
}

/// Whether the messages of kind `id` are those of module `session`.
spec fn is_session_message(id: IncomingMessageIds) -> bool {
    match id {
        IncomingMessageIds::CurrentTime
        | IncomingMessageIds::DisplayGroupList
        | IncomingMessageIds::DisplayGroupUpdated
        | IncomingMessageIds::ErrMsg
        | IncomingMessageIds::FundamentalData
        | IncomingMessageIds::HeadTimestamp
        | IncomingMessageIds::VerifyAndAuthCompleted
        | IncomingMessageIds::VerifyCompleted
        | IncomingMessageIds::VerifyMessageApi
        | IncomingMessageIds::VerifyAndAuthMessageApi => true,
        _ => false,
    }
}

/// Later fields change nothing in these messages.
proof fn lemma_session_stays(
    id: IncomingMessageIds,
    server_version: i32,
    f: Seq<String>,
    more: Seq<String>,
    events: Seq<Event>,
)
    requires
        is_session_message(id),
        message_complete(id, server_version, f),
        settled(id, server_version, f),
    ensures
        stays(id, server_version, f, more, events),
{
    let g = f + more;
    assert(forall|i: int| 0 <= i < f.len() ==> f[i] == g[i]);
}

/// Whether the messages of kind `id` are those of module `history`.
spec fn is_history_message(id: IncomingMessageIds) -> bool {
    match id {
        IncomingMessageIds::HistogramData
        | IncomingMessageIds::HistoricalData
        | IncomingMessageIds::HistoricalDataUpdate
        | IncomingMessageIds::HistoricalTicks
        | IncomingMessageIds::HistoricalTicksBidAsk
        | IncomingMessageIds::HistoricalTicksLast
        | IncomingMessageIds::RealTimeBars => true,
        _ => false,
    }
}

/// Later fields change nothing in these messages.
proof fn lemma_history_stays(
    id: IncomingMessageIds,
    server_version: i32,
    f: Seq<String>,
    more: Seq<String>,
    events: Seq<Event>,
)
    requires
        is_history_message(id),
        message_complete(id, server_version, f),
        settled(id, server_version, f),
    ensures
        stays(id, server_version, f, more, events),
{
    let g = f + more;
    assert(forall|i: int| 0 <= i < f.len() ==> f[i] == g[i]);
    match id {
        IncomingMessageIds::HistogramData => {
            let n = count_at(f, 2);
            assert(histogram_points(f, 3, n) =~= histogram_points(g, 3, n));
        },
        IncomingMessageIds::HistoricalData => {
            let n = count_at(f, bars_req_id(server_version) + 3);
            assert(bar_events(server_version, f, n) =~= bar_events(server_version, g, n));
        },
        IncomingMessageIds::HistoricalTicks => {
            let n = count_at(f, 2);
            assert(historical_ticks(f, 3, n) =~= historical_ticks(g, 3, n));
        },
        IncomingMessageIds::HistoricalTicksBidAsk => {
            let n = count_at(f, 2);
            assert(historical_ticks_bid_ask(f, 3, n) =~= historical_ticks_bid_ask(g, 3, n));
        },
        IncomingMessageIds::HistoricalTicksLast => {
            let n = count_at(f, 2);
            assert(historical_ticks_last(f, 3, n) =~= historical_ticks_last(g, 3, n));
        },
        _ => {},
    }
}

/// Whether the messages of kind `id` are those of module `news`.
spec fn is_news_message(id: IncomingMessageIds) -> bool {
    match id {
        IncomingMessageIds::HistoricalNews
        | IncomingMessageIds::HistoricalNewsEnd
        | IncomingMessageIds::NewsArticle
        | IncomingMessageIds::NewsBulletins
        | IncomingMessageIds::NewsProviders
        | IncomingMessageIds::TickNews => true,
        _ => false,
    }
}

/// Later fields change nothing in these messages.
proof fn lemma_news_stays(
    id: IncomingMessageIds,
    server_version: i32,
    f: Seq<String>,
    more: Seq<String>,
    events: Seq<Event>,
)
    requires
        is_news_message(id),
        message_complete(id, server_version, f),
        settled(id, server_version, f),
    ensures
        stays(id, server_version, f, more, events),
{
    let g = f + more;
    assert(forall|i: int| 0 <= i < f.len() ==> f[i] == g[i]);
    match id {
        IncomingMessageIds::NewsProviders => {
            let n = count_at(f, 1);
            assert(news_providers(f, 2, n) =~= news_providers(g, 2, n));
        },
        _ => {},
    }
}

/// Whether the messages of kind `id` are those of module `depth`.
spec fn is_depth_message(id: IncomingMessageIds) -> bool {
    match id {
        IncomingMessageIds::MarketDepth
        | IncomingMessageIds::MarketDepthL2
        | IncomingMessageIds::MarketRule
        | IncomingMessageIds::MktDepthExchanges
        | IncomingMessageIds::RerouteMktDataReq
        | IncomingMessageIds::SmartComponents
        | IncomingMessageIds::RerouteMktDepthReq => true,
        _ => false,
    }
}

/// Later fields change nothing in these messages.
proof fn lemma_depth_stays(
    id: IncomingMessageIds,
    server_version: i32,
    f: Seq<String>,
    more: Seq<String>,
    events: Seq<Event>,
)
    requires
        is_depth_message(id),
        message_complete(id, server_version, f),
        settled(id, server_version, f),
    ensures
        stays(id, server_version, f, more, events),
{
    let g = f + more;
    assert(forall|i: int| 0 <= i < f.len() ==> f[i] == g[i]);
    match id {
        IncomingMessageIds::MarketRule => {
            let n = count_at(f, 2);
            assert(price_increments(f, 3, n) =~= price_increments(g, 3, n));
        },
        IncomingMessageIds::SmartComponents => {
            let n = count_at(f, 2);
            assert(smart_components(f, 3, n) =~= smart_components(g, 3, n));
        },
        _ => {},
    }
}

/// Whether the messages of kind `id` are those of module `lookup`.
spec fn is_lookup_message(id: IncomingMessageIds) -> bool {
    match id {
        IncomingMessageIds::ScannerData
        | IncomingMessageIds::ScannerParameters
        | IncomingMessageIds::SecurityDefinitionOptionParameter
        | IncomingMessageIds::SecurityDefinitionOptionParameterEnd
        | IncomingMessageIds::SymbolSamples => true,
        _ => false,
    }
}

/// Later fields change nothing in these messages.
proof fn lemma_lookup_stays(
    id: IncomingMessageIds,
    server_version: i32,
    f: Seq<String>,
    more: Seq<String>,
    events: Seq<Event>,
)
    requires
        is_lookup_message(id),
        message_complete(id, server_version, f),
        settled(id, server_version, f),
    ensures
        stays(id, server_version, f, more, events),
{
    let g = f + more;
    assert(forall|i: int| 0 <= i < f.len() ==> f[i] == g[i]);
    match id {
        IncomingMessageIds::SecurityDefinitionOptionParameter => {
            let s = strike_count_field(f);
            let n = count_at(f, s);
            assert(f.subrange(7, s) =~= g.subrange(7, s));
            assert(strikes(f, s + 1, n) =~= strikes(g, s + 1, n));
        },
        IncomingMessageIds::SymbolSamples => {
            lemma_samples_stay(f, more, count_at(f, 2));
        },
        _ => {},
    }
}

/// Fields after those of a message on a contract leave the details as they are.
proof fn lemma_contract_details_stay(server_version: i32, f: Seq<String>, more: Seq<String>)
    requires
        contract_details_complete(server_version, f),
    ensures
        contract_details_complete(server_version, f + more),
        contract_details_req_id(f + more) == contract_details_req_id(f),
        contract_details_of(server_version, f + more) == contract_details_of(server_version, f),
{
    let g = f + more;
    assert(forall|i: int| 0 <= i < f.len() ==> f[i] == g[i]);
    let l = contract_details_layout(server_version, f);
    assert(l == contract_details_layout(server_version, g));
    if int_at(f, 1) >= 7 {
        lemma_tag_values_stay(f, more, l.sec_id_count + 1, count_at(f, l.sec_id_count));
    }
}

/// Fields after those of a message on a bond leave what comes of it as it is.
proof fn lemma_bond_stays(server_version: i32, f: Seq<String>, more: Seq<String>)
    requires
        bond_complete(server_version, f),
    ensures
        bond_complete(server_version, f + more),
        bond_bad_flag(server_version, f + more) == bond_bad_flag(server_version, f),
        bond_bad_flag(server_version, f) is None ==> contract_details_req_id(f + more)
            == contract_details_req_id(f) && bond_details_of(server_version, f + more)
            == bond_details_of(server_version, f),
{
    let g = f + more;
    assert(forall|i: int| 0 <= i < f.len() ==> f[i] == g[i]);
    let l = bond_layout(server_version, f);
    if bond_bad_flag(server_version, f) is None {
        assert(l == bond_layout(server_version, g));
        if int_at(f, 1) >= 5 {
            lemma_tag_values_stay(f, more, l.sec_id_count + 1, count_at(f, l.sec_id_count));
        }
    }
}

/// Fields after those of a list leave the list as it is.
proof fn lemma_tag_values_stay(f: Seq<String>, more: Seq<String>, start: int, n: nat)
    requires
        0 <= start,
        start + 2 * n <= f.len(),
    ensures
        tag_values(f + more, start, n) == tag_values(f, start, n),
{
    assert(tag_values(f + more, start, n) =~= tag_values(f, start, n));
}

/// Fields after the first `n` samples of a symbol search leave these as they are.
proof fn lemma_samples_stay(f: Seq<String>, more: Seq<String>, n: nat)
    requires
        sample_start(f, n) <= f.len(),
    ensures
        sample_start(f + more, n) == sample_start(f, n),
        forall|k: nat|
            k < n ==> #[trigger] sample_start(f + more, k) == sample_start(f, k) && sample_at(
                f + more,
                sample_start(f, k),
            ) == sample_at(f, sample_start(f, k)),
    decreases n,
{
    let g = f + more;
    assert(forall|i: int| 0 <= i < f.len() ==> f[i] == g[i]);
    if n > 0 {
        let k = (n - 1) as nat;
        let p = sample_start(f, k);
        lemma_sample_start_grows(f, 0, k);
        lemma_samples_stay(f, more, k);
        assert(f.subrange(p + 6, p + 6 + count_at(f, p + 5)) =~= g.subrange(
            p + 6,
            p + 6 + count_at(g, p + 5),
        ));
    }
}

} // verus!
