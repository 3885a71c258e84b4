//! Messages on accounts, positions, and profit and loss.
use crate::codes::FaDataType;
use crate::decoder::Decoder;
use crate::event::Event;
use crate::fields::{count_at, double_at, double_if, fields_if, int_at, text_if, Reader};
use crate::number::Double;
use crate::server_versions::{
    MIN_SERVER_VER_FRACTIONAL_POSITIONS, MIN_SERVER_VER_REALIZED_PNL, MIN_SERVER_VER_UNREALIZED_PNL,
};
use crate::types::{Contract, ContractView, FamilyCode, SoftDollarTier};
use vstd::prelude::*;

verus! {

/// A quantity, which older servers give as an integer.
pub open spec fn quantity_at(server_version: i32, f: Seq<String>, i: int) -> Double {
    if server_version >= MIN_SERVER_VER_FRACTIONAL_POSITIONS {
        double_at(f, i)
    } else {
        Double::Whole(int_at(f, i))
    }
}

/// Reads a quantity.
pub(crate) fn next_quantity(reader: &mut Reader, server_version: i32) -> (r: Option<Double>)
    requires
        old(reader).wf(),
    ensures
        old(reader).moved(*final(reader)),
        r is Some <==> old(reader).at() < old(reader).all().len(),
        r is Some ==> r->0 == quantity_at(server_version, old(reader).all(), old(reader).at()),
{
    if server_version >= MIN_SERVER_VER_FRACTIONAL_POSITIONS {
        reader.next_double()
    } else {
        let whole: i32 = reader.next_i32()?;
        Some(Double::Whole(whole))
    }
}

/// What an account summary message tells.
pub open spec fn account_summary_event(f: Seq<String>) -> Option<Event> {
    if f.len() >= 7 {
        Some(
            Event::AccountSummary {
                req_id: int_at(f, 2),
                account: f[3],
                tag: f[4],
                value: f[5],
                currency: f[6],
            },
        )
    } else {
        None
    }
}

/// What the end of an account summary tells.
pub open spec fn account_summary_end_event(f: Seq<String>) -> Option<Event> {
    if f.len() >= 3 {
        Some(Event::AccountSummaryEnd { req_id: int_at(f, 2) })
    } else {
        None
    }
}

/// What a message tells that brings one of several accounts up to date.
pub open spec fn account_update_multi_event(f: Seq<String>) -> Option<Event> {
    if f.len() >= 8 {
        Some(
            Event::AccountUpdateMulti {
                req_id: int_at(f, 2),
                account: f[3],
                model_code: f[4],
                key: f[5],
                value: f[6],
                currency: f[7],
            },
        )
    } else {
        None
    }
}

/// What the end of an update of several accounts tells.
pub open spec fn account_update_multi_end_event(f: Seq<String>) -> Option<Event> {
    if f.len() >= 3 {
        Some(Event::AccountUpdateMultiEnd { req_id: int_at(f, 2) })
    } else {
        None
    }
}

/// What the end of an account download tells.
pub open spec fn account_download_end_event(f: Seq<String>) -> Option<Event> {
    if f.len() >= 3 {
        Some(Event::AccountDownloadEnd { account: f[2] })
    } else {
        None
    }
}

/// What a message on the time of an account tells.
pub open spec fn account_update_time_event(f: Seq<String>) -> Option<Event> {
    if f.len() >= 3 {
        Some(Event::UpdateAccountTime { time_stamp: f[2] })
    } else {
        None
    }
}

/// What a message on a value of an account tells.
pub open spec fn account_value_event(f: Seq<String>) -> Option<Event> {
    if f.len() >= 6 {
        Some(
            Event::UpdateAccountValue { key: f[2], value: f[3], currency: f[4], account: f[5] },
        )
    } else {
        None
    }
}

/// What a message on the managed accounts tells.
pub open spec fn managed_accounts_event(f: Seq<String>) -> Option<Event> {
    if f.len() >= 3 {
        Some(Event::ManagedAccounts { accounts: f[2] })
    } else {
        None
    }
}

/// The family codes in fields `start` and on.
pub open spec fn family_codes(f: Seq<String>, start: int, n: nat) -> Seq<FamilyCode> {
    Seq::new(
        n,
        |i: int|
            FamilyCode { account_id: f[start + 2 * i], family_code_str: f[start + 2 * i + 1] },
    )
}

/// Whether a message on family codes has all its fields.
pub open spec fn family_codes_complete(f: Seq<String>) -> bool {
    f.len() >= 2 + 2 * count_at(f, 1)
}

/// Whether `e` is the event of a message on family codes.
pub open spec fn is_family_codes(f: Seq<String>, e: Event) -> bool {
    e matches Event::FamilyCodes { family_codes: codes } && codes@ == family_codes(
        f,
        2,
        count_at(f, 1),
    )
}

/// What a message with an advisor configuration tells.
pub open spec fn receive_fa_event(f: Seq<String>) -> Option<Event> {
    match FaDataType::of(int_at(f, 2)) {
        Some(data_type) => if f.len() >= 4 {
            Some(Event::ReceiveFa { data_type, xml: f[3] })
        } else {
            None
        },
        None => None,
    }
}

/// The soft dollar tiers in fields `start` and on.
pub open spec fn soft_dollar_tiers(f: Seq<String>, start: int, n: nat) -> Seq<SoftDollarTier> {
    Seq::new(
        n,
        |i: int|
            SoftDollarTier {
                name: f[start + 3 * i],
                val: f[start + 3 * i + 1],
                display_name: f[start + 3 * i + 2],
            },
    )
}

/// Whether a message on soft dollar tiers has all its fields.
pub open spec fn soft_dollar_tiers_complete(f: Seq<String>) -> bool {
    f.len() >= 3 + 3 * count_at(f, 2)
}

/// Whether `e` is the event of a message on soft dollar tiers.
pub open spec fn is_soft_dollar_tiers(f: Seq<String>, e: Event) -> bool {
    e matches Event::SoftDollarTiers { req_id, tiers } && {
        &&& req_id == int_at(f, 1)
        &&& tiers@ == soft_dollar_tiers(f, 3, count_at(f, 2))
    }
}

/// How many fields the unrealized and the realized profit and loss take up.
pub open spec fn pnl_fields(server_version: i32) -> int {
    fields_if(server_version >= MIN_SERVER_VER_UNREALIZED_PNL, 1) + fields_if(
        server_version >= MIN_SERVER_VER_REALIZED_PNL,
        1,
    )
}

/// What a message on the profit and loss of an account tells.
pub open spec fn pnl_event(server_version: i32, f: Seq<String>) -> Option<Event> {
    if f.len() >= 3 + pnl_fields(server_version) {
        let unrealized = server_version >= MIN_SERVER_VER_UNREALIZED_PNL;
        Some(
            Event::Pnl {
                req_id: int_at(f, 1),
                daily_pnl: double_at(f, 2),
                unrealized_pnl: double_if(unrealized, f, 3),
                realized_pnl: double_if(
                    server_version >= MIN_SERVER_VER_REALIZED_PNL,
                    f,
                    3 + fields_if(unrealized, 1),
                ),
            },
        )
    } else {
        None
    }
}

/// What a message on the profit and loss of a position tells.
pub open spec fn pnl_single_event(server_version: i32, f: Seq<String>) -> Option<Event> {
    if f.len() >= 5 + pnl_fields(server_version) {
        let unrealized = server_version >= MIN_SERVER_VER_UNREALIZED_PNL;
        Some(
            Event::PnlSingle {
                req_id: int_at(f, 1),
                pos: int_at(f, 2),
                daily_pnl: double_at(f, 3),
                unrealized_pnl: double_if(unrealized, f, 4),
                realized_pnl: double_if(
                    server_version >= MIN_SERVER_VER_REALIZED_PNL,
                    f,
                    4 + fields_if(unrealized, 1),
                ),
                value: double_at(f, 4 + pnl_fields(server_version)),
            },
        )
    } else {
        None
    }
}

/// Where the parts of a portfolio message begin: those that come after an optional one.
pub struct PortfolioLayout {
    pub currency: int,
    pub position: int,
    pub end: int,
}

/// The layout of a portfolio message.
pub open spec fn portfolio_layout(server_version: i32, f: Seq<String>) -> PortfolioLayout {
    let version = int_at(f, 1);
    let currency = 8 + fields_if(version >= 7, 2);
    let position = currency + 2 + fields_if(version >= 8, 1);
    let end = position + 7 + fields_if(version == 6 && server_version == 39, 1);
    PortfolioLayout { currency, position, end }
}

/// The contract of a portfolio message.
pub open spec fn portfolio_contract(server_version: i32, f: Seq<String>) -> ContractView {
    let version = int_at(f, 1);
    let l = portfolio_layout(server_version, f);
    ContractView {
        con_id: int_at(f, 2),
        symbol: f[3]@,
        sec_type: f[4]@,
        last_trade_date_or_contract_month: f[5]@,
        strike: double_at(f, 6),
        right: f[7]@,
        multiplier: text_if(version >= 7, f, 8),
        primary_exchange: if version == 6 && server_version == 39 {
            f[l.position + 7]@
        } else {
            text_if(version >= 7, f, 9)
        },
        currency: f[l.currency]@,
        local_symbol: f[l.currency + 1]@,
        trading_class: text_if(version >= 8, f, l.currency + 2),
        ..ContractView::blank()
    }
}

/// Whether a portfolio message has all its fields.
pub open spec fn portfolio_value_complete(server_version: i32, f: Seq<String>) -> bool {
    f.len() >= portfolio_layout(server_version, f).end
}

/// Whether `e` is the event of a portfolio message.
pub open spec fn is_portfolio_value(server_version: i32, f: Seq<String>, e: Event) -> bool {
    let p = portfolio_layout(server_version, f).position;
    e matches Event::UpdatePortfolio {
        contract,
        position,
        market_price,
        market_value,
        average_cost,
        unrealized_pnl,
        realized_pnl,
        account_name,
    } && {
        &&& contract@ == portfolio_contract(server_version, f)
        &&& position == quantity_at(server_version, f, p)
        &&& market_price == double_at(f, p + 1)
        &&& market_value == double_at(f, p + 2)
        &&& average_cost == double_at(f, p + 3)
        &&& unrealized_pnl == double_at(f, p + 4)
        &&& realized_pnl == double_at(f, p + 5)
        &&& account_name == f[p + 6]
    }
}

/// The contract of a position message: eleven fields from `p` on, of which the last may be left
/// out.
pub open spec fn position_contract(f: Seq<String>, p: int, has_class: bool) -> ContractView {
    ContractView {
        con_id: int_at(f, p),
        symbol: f[p + 1]@,
        sec_type: f[p + 2]@,
        last_trade_date_or_contract_month: f[p + 3]@,
        strike: double_at(f, p + 4),
        right: f[p + 5]@,
        multiplier: f[p + 6]@,
        exchange: f[p + 7]@,
        currency: f[p + 8]@,
        local_symbol: f[p + 9]@,
        trading_class: text_if(has_class, f, p + 10),
        ..ContractView::blank()
    }
}

/// Reads the contract of a position message.
fn next_position_contract(reader: &mut Reader, has_class: bool) -> (r: Option<Contract>)
    requires
        old(reader).wf(),
    ensures
        final(reader).wf(),
        final(reader).all() == old(reader).all(),
        r is Some <==> old(reader).at() + 10 + fields_if(has_class, 1) <= old(reader).all().len(),
        r is Some ==> {
            &&& final(reader).at() == old(reader).at() + 10 + fields_if(has_class, 1)
            &&& r->0@ == position_contract(old(reader).all(), old(reader).at(), has_class)
        },
{
    let con_id: i32 = reader.next_i32()?;
    let symbol = reader.next_text()?;
    let sec_type = reader.next_text()?;
    let last_trade_date_or_contract_month = reader.next_text()?;
    let strike = reader.next_double()?;
    let right = reader.next_text()?;
    let multiplier = reader.next_text()?;
    let exchange = reader.next_text()?;
    let currency = reader.next_text()?;
    let local_symbol = reader.next_text()?;
    let trading_class = reader.next_text_if(has_class)?;
    Some(
        Contract {
            con_id,
            symbol,
            sec_type,
            last_trade_date_or_contract_month,
            strike,
            right,
            multiplier,
            exchange,
            currency,
            local_symbol,
            trading_class,
            ..Contract::default()
        },
    )
}

/// Where the position stands in a position message.
pub open spec fn position_field(f: Seq<String>) -> int {
    13 + fields_if(int_at(f, 1) >= 2, 1)
}

/// Whether a position message has all its fields.
pub open spec fn position_data_complete(f: Seq<String>) -> bool {
    f.len() >= position_field(f) + 1 + fields_if(int_at(f, 1) >= 3, 1)
}

/// Whether `e` is the event of a position message.
pub open spec fn is_position_data(server_version: i32, f: Seq<String>, e: Event) -> bool {
    let version = int_at(f, 1);
    e matches Event::Position { account, contract, position, avg_cost } && {
        &&& account == f[2]
        &&& contract@ == position_contract(f, 3, version >= 2)
        &&& position == quantity_at(server_version, f, position_field(f))
        &&& avg_cost == double_if(version >= 3, f, position_field(f) + 1)
    }
}

/// Whether a message on a position in one of several accounts has all its fields.
pub open spec fn position_multi_complete(f: Seq<String>) -> bool {
    f.len() >= 18
}

/// Whether `e` is the event of a message on a position in one of several accounts.
pub open spec fn is_position_multi(f: Seq<String>, e: Event) -> bool {
    e matches Event::PositionMulti {
        req_id,
        account,
        model_code,
        contract,
        position,
        avg_cost,
    } && {
        &&& req_id == int_at(f, 2)
        &&& account == f[3]
        &&& model_code == f[17]
        &&& contract@ == position_contract(f, 4, true)
        &&& position == double_at(f, 15)
        &&& avg_cost == double_at(f, 16)
    }
}

/// What the end of the positions in several accounts tells.
pub open spec fn position_multi_end_event(f: Seq<String>) -> Option<Event> {
    if f.len() >= 3 {
        Some(Event::PositionMultiEnd { req_id: int_at(f, 2) })
    } else {
        None
    }
}

impl Decoder {
    /// Reads an account summary message.
    pub fn process_account_summary(fields: &[String]) -> (r: Option<Event>)
        ensures
            r == account_summary_event(fields@),
    {
        let mut reader = Reader::new(fields);
        reader.skip();
        reader.skip();
        let req_id: i32 = reader.next_i32()?;
        let account = reader.next_text()?;
        let tag = reader.next_text()?;
        let value = reader.next_text()?;
        let currency = reader.next_text()?;
        Some(Event::AccountSummary { req_id, account, tag, value, currency })
    }

    /// Reads the end of an account summary.
    pub fn process_account_summary_end(fields: &[String]) -> (r: Option<Event>)
        ensures
            r == account_summary_end_event(fields@),
    {
        let mut reader = Reader::new(fields);
        reader.skip();
        reader.skip();
        let req_id: i32 = reader.next_i32()?;
        Some(Event::AccountSummaryEnd { req_id })
    }

    /// Reads a message that brings one of several accounts up to date.
    pub fn process_account_update_multi(fields: &[String]) -> (r: Option<Event>)
        ensures
            r == account_update_multi_event(fields@),
    {
        let mut reader = Reader::new(fields);
        reader.skip();
        reader.skip();
        let req_id: i32 = reader.next_i32()?;
        let account = reader.next_text()?;
        let model_code = reader.next_text()?;
        let key = reader.next_text()?;
        let value = reader.next_text()?;
        let currency = reader.next_text()?;
        Some(Event::AccountUpdateMulti { req_id, account, model_code, key, value, currency })
    }

    /// Reads the end of an update of several accounts.
    pub fn process_account_update_multi_end(fields: &[String]) -> (r: Option<Event>)
        ensures
            r == account_update_multi_end_event(fields@),
    {
        let mut reader = Reader::new(fields);
        reader.skip();
        reader.skip();
        let req_id: i32 = reader.next_i32()?;
        Some(Event::AccountUpdateMultiEnd { req_id })
    }

    /// Reads the end of an account download.
    pub fn process_account_download_end(fields: &[String]) -> (r: Option<Event>)
        ensures
            r == account_download_end_event(fields@),
    {
        let mut reader = Reader::new(fields);
        reader.skip();
        reader.skip();
        let account = reader.next_text()?;
        Some(Event::AccountDownloadEnd { account })
    }

    /// Reads a message on the time of an account.
    pub fn process_account_update_time(fields: &[String]) -> (r: Option<Event>)
        ensures
            r == account_update_time_event(fields@),
    {
        let mut reader = Reader::new(fields);
        reader.skip();
        reader.skip();
        let time_stamp = reader.next_text()?;
        Some(Event::UpdateAccountTime { time_stamp })
    }

    /// Reads a message on a value of an account.
    pub fn process_account_value(fields: &[String]) -> (r: Option<Event>)
        ensures
            r == account_value_event(fields@),
    {
        let mut reader = Reader::new(fields);
        reader.skip();
        reader.skip();
        let key = reader.next_text()?;
        let value = reader.next_text()?;
        let currency = reader.next_text()?;
        let account = reader.next_text()?;
        Some(Event::UpdateAccountValue { key, value, currency, account })
    }

    /// Reads a message on the managed accounts.
    pub fn process_managed_accounts(fields: &[String]) -> (r: Option<Event>)
        ensures
            r == managed_accounts_event(fields@),
    {
        let mut reader = Reader::new(fields);
        reader.skip();
        reader.skip();
        let accounts = reader.next_text()?;
        Some(Event::ManagedAccounts { accounts })
    }

    /// Reads a message on family codes.
    pub fn process_family_codes(fields: &[String]) -> (r: Option<Event>)
        ensures
            r is Some <==> family_codes_complete(fields@),
            r is Some ==> is_family_codes(fields@, r->0),
    {
        let mut reader = Reader::new(fields);
        reader.skip();
        let count: i32 = reader.next_i32()?;
        let mut codes: Vec<FamilyCode> = Vec::new();
        let mut i: i32 = 0;
        while i < count
            invariant
                reader.wf(),
                reader.all() == fields@,
                fields@.len() >= 2,
                count == int_at(fields@, 1),
                0 <= i,
                i <= count || i == 0,
                reader.at() == 2 + 2 * i,
                codes@ == family_codes(fields@, 2, i as nat),
            decreases count - i,
        {
            let account_id = reader.next_text()?;
            let family_code_str = reader.next_text()?;
            codes.push(FamilyCode { account_id, family_code_str });
            i = i + 1;
        }
        Some(Event::FamilyCodes { family_codes: codes })
    }

    /// Reads a message with an advisor configuration.
    pub fn process_receive_fa(fields: &[String]) -> (r: Option<Event>)
        ensures
            r == receive_fa_event(fields@),
    {
        let mut reader = Reader::new(fields);
        reader.skip();
        reader.skip();
        let code: i32 = reader.next_i32()?;
        let xml = reader.next_text()?;
        let data_type = FaDataType::from_i32(code)?;
        Some(Event::ReceiveFa { data_type, xml })
    }

    /// Reads a message on soft dollar tiers.
    pub fn process_soft_dollar_tiers(fields: &[String]) -> (r: Option<Event>)
        ensures
            r is Some <==> soft_dollar_tiers_complete(fields@),
            r is Some ==> is_soft_dollar_tiers(fields@, r->0),
    {
        let mut reader = Reader::new(fields);
        reader.skip();
        let req_id: i32 = reader.next_i32()?;
        let count: i32 = reader.next_i32()?;
        let mut tiers: Vec<SoftDollarTier> = Vec::new();
        let mut i: i32 = 0;
        while i < count
            invariant
                reader.wf(),
                reader.all() == fields@,
                fields@.len() >= 3,
                count == int_at(fields@, 2),
                0 <= i,
                i <= count || i == 0,
                reader.at() == 3 + 3 * i,
                tiers@ == soft_dollar_tiers(fields@, 3, i as nat),
            decreases count - i,
        {
            let name = reader.next_text()?;
            let val = reader.next_text()?;
            let display_name = reader.next_text()?;
            tiers.push(SoftDollarTier { name, val, display_name });
            i = i + 1;
        }
        Some(Event::SoftDollarTiers { req_id, tiers })
    }

    /// Reads a message on the profit and loss of an account.
    pub fn process_pnl(server_version: i32, fields: &[String]) -> (r: Option<Event>)
        ensures
            r == pnl_event(server_version, fields@),
    {
        let mut reader = Reader::new(fields);
        reader.skip();
        let req_id: i32 = reader.next_i32()?;
        let daily_pnl = reader.next_double()?;
        let unrealized_pnl = reader.next_double_if(
            server_version >= MIN_SERVER_VER_UNREALIZED_PNL,
        )?;
        let realized_pnl = reader.next_double_if(server_version >= MIN_SERVER_VER_REALIZED_PNL)?;
        Some(Event::Pnl { req_id, daily_pnl, unrealized_pnl, realized_pnl })
    }

    /// Reads a message on the profit and loss of a position.
    pub fn process_pnl_single(server_version: i32, fields: &[String]) -> (r: Option<Event>)
        ensures
            r == pnl_single_event(server_version, fields@),
    {
        let mut reader = Reader::new(fields);
        reader.skip();
        let req_id: i32 = reader.next_i32()?;
        let pos: i32 = reader.next_i32()?;
        let daily_pnl = reader.next_double()?;
        let unrealized_pnl = reader.next_double_if(
            server_version >= MIN_SERVER_VER_UNREALIZED_PNL,
        )?;
        let realized_pnl = reader.next_double_if(server_version >= MIN_SERVER_VER_REALIZED_PNL)?;
        let value = reader.next_double()?;
        Some(Event::PnlSingle { req_id, pos, daily_pnl, unrealized_pnl, realized_pnl, value })
    }

    /// Reads a portfolio message.
    pub fn process_portfolio_value(server_version: i32, fields: &[String]) -> (r: Option<Event>)
        ensures
            r is Some <==> portfolio_value_complete(server_version, fields@),
            r is Some ==> is_portfolio_value(server_version, fields@, r->0),
    {
        let mut reader = Reader::new(fields);
        reader.skip();
        let version: i32 = reader.next_i32()?;
        let con_id: i32 = reader.next_i32()?;
        let symbol = reader.next_text()?;
        let sec_type = reader.next_text()?;
        let last_trade_date_or_contract_month = reader.next_text()?;
        let strike = reader.next_double()?;
        let right = reader.next_text()?;
        let multiplier = reader.next_text_if(version >= 7)?;
        let mut primary_exchange = reader.next_text_if(version >= 7)?;
        let currency = reader.next_text()?;
        let local_symbol = reader.next_text()?;
        let trading_class = reader.next_text_if(version >= 8)?;
        let position = next_quantity(&mut reader, server_version)?;
        let market_price = reader.next_double()?;
        let market_value = reader.next_double()?;
        let average_cost = reader.next_double()?;
        let unrealized_pnl = reader.next_double()?;
        let realized_pnl = reader.next_double()?;
        let account_name = reader.next_text()?;
        if version == 6 && server_version == 39 {
            primary_exchange = reader.next_text()?;
        }
        let contract = Contract {
            con_id,
            symbol,
            sec_type,
            last_trade_date_or_contract_month,
            strike,
            right,
            multiplier,
            primary_exchange,
            currency,
            local_symbol,
            trading_class,
            ..Contract::default()
        };
        Some(
            Event::UpdatePortfolio {
                contract,
                position,
                market_price,
                market_value,
                average_cost,
                unrealized_pnl,
                realized_pnl,
                account_name,
            },
        )
    }

    /// Reads a position message.
    pub fn process_position_data(server_version: i32, fields: &[String]) -> (r: Option<Event>)
        ensures
            r is Some <==> position_data_complete(fields@),
            r is Some ==> is_position_data(server_version, fields@, r->0),
    {
        let mut reader = Reader::new(fields);
        reader.skip();
        let version: i32 = reader.next_i32()?;
        let account = reader.next_text()?;
        let contract = next_position_contract(&mut reader, version >= 2)?;
        let position = next_quantity(&mut reader, server_version)?;
        let avg_cost = reader.next_double_if(version >= 3)?;
        Some(Event::Position { account, contract, position, avg_cost })
    }

    /// Reads the end of the positions.
    pub fn process_position_end(_fields: &[String]) -> (r: Option<Event>)
        ensures
            r == Some(Event::PositionEnd),
    {
        Some(Event::PositionEnd)
    }

    /// Reads a message on a position in one of several accounts.
    pub fn process_position_multi(fields: &[String]) -> (r: Option<Event>)
        ensures
            r is Some <==> position_multi_complete(fields@),
            r is Some ==> is_position_multi(fields@, r->0),
    {
        let mut reader = Reader::new(fields);
        reader.skip();
        reader.skip();
        let req_id: i32 = reader.next_i32()?;
        let account = reader.next_text()?;
        let contract = next_position_contract(&mut reader, true)?;
        let position = reader.next_double()?;
        let avg_cost = reader.next_double()?;
        let model_code = reader.next_text()?;
        Some(Event::PositionMulti { req_id, account, model_code, contract, position, avg_cost })
    }

    /// Reads the end of the positions in several accounts.
    pub fn process_position_multi_end(fields: &[String]) -> (r: Option<Event>)
        ensures
            r == position_multi_end_event(fields@),
    {
        let mut reader = Reader::new(fields);
        reader.skip();
        reader.skip();
        let req_id: i32 = reader.next_i32()?;
        Some(Event::PositionMultiEnd { req_id })
    }
}

} // verus!
