//! Messages on accounts, positions and portfolios.
use crate::account::{family_codes, soft_dollar_tiers};
use crate::codes::{FaDataType, IncomingMessageIds};
use crate::decoder::{is_any_interpretation, Interpretation};
use crate::event::Event;
use crate::number::Double;
use crate::server_versions::{
    MIN_SERVER_VER_FRACTIONAL_POSITIONS, MIN_SERVER_VER_REALIZED_PNL, MIN_SERVER_VER_UNREALIZED_PNL,
};
use crate::types::{FamilyCode, SoftDollarTier};
use crate::wire::{
    begins, counts, double_sent, lemma_all, lemma_beginning, lemma_kind, lemma_one_by_one,
    lemma_part, number, one_by_one, sent_if, stands, text_sent, writes,
};
use vstd::prelude::*;

verus! {

/// An account summary is told as it was written.
pub proof fn lemma_account_summary(
    server_version: i32,
    id: String,
    version: String,
    req_id: String,
    account: String,
    tag: String,
    value: String,
    currency: String,
    r: Interpretation,
)
    requires
        writes(id, 63),
        is_any_interpretation(
            server_version,
            seq![id, version, req_id, account, tag, value, currency],
            r,
        ),
    ensures
        r.ending is Done,
        r.events@ == seq![
            Event::AccountSummary {
                req_id: number(req_id),
                account,
                tag,
                value,
                currency,
            },
        ],
{
    let f = seq![id, version, req_id, account, tag, value, currency];
    lemma_kind(server_version, f, IncomingMessageIds::AccountSummary, r);
}

/// The end of the account summaries is told as it was written.
pub proof fn lemma_account_summary_end(
    server_version: i32,
    id: String,
    version: String,
    req_id: String,
    r: Interpretation,
)
    requires
        writes(id, 64),
        is_any_interpretation(server_version, seq![id, version, req_id], r),
    ensures
        r.ending is Done,
        r.events@ == seq![Event::AccountSummaryEnd { req_id: number(req_id) }],
{
    lemma_kind(server_version, seq![id, version, req_id], IncomingMessageIds::AccountSummaryEnd, r);
}

/// A value of one of several accounts is told as it was written.
pub proof fn lemma_account_update_multi(
    server_version: i32,
    id: String,
    version: String,
    req_id: String,
    account: String,
    model_code: String,
    key: String,
    value: String,
    currency: String,
    r: Interpretation,
)
    requires
        writes(id, 73),
        is_any_interpretation(
            server_version,
            seq![id, version, req_id, account, model_code, key, value, currency],
            r,
        ),
    ensures
        r.ending is Done,
        r.events@ == seq![
            Event::AccountUpdateMulti {
                req_id: number(req_id),
                account,
                model_code,
                key,
                value,
                currency,
            },
        ],
{
    let f = seq![id, version, req_id, account, model_code, key, value, currency];
    lemma_kind(server_version, f, IncomingMessageIds::AccountUpdateMulti, r);
}

/// The end of the values of several accounts is told as it was written.
pub proof fn lemma_account_update_multi_end(
    server_version: i32,
    id: String,
    version: String,
    req_id: String,
    r: Interpretation,
)
    requires
        writes(id, 74),
        is_any_interpretation(server_version, seq![id, version, req_id], r),
    ensures
        r.ending is Done,
        r.events@ == seq![Event::AccountUpdateMultiEnd { req_id: number(req_id) }],
{
    let f = seq![id, version, req_id];
    lemma_kind(server_version, f, IncomingMessageIds::AccountUpdateMultiEnd, r);
}

/// The end of an account is told as it was written.
pub proof fn lemma_account_download_end(
    server_version: i32,
    id: String,
    version: String,
    account: String,
    r: Interpretation,
)
    requires
        writes(id, 54),
        is_any_interpretation(server_version, seq![id, version, account], r),
    ensures
        r.ending is Done,
        r.events@ == seq![Event::AccountDownloadEnd { account }],
{
    lemma_kind(server_version, seq![id, version, account], IncomingMessageIds::AcctDownloadEnd, r);
}

/// The time of an account is told as it was written.
pub proof fn lemma_account_update_time(
    server_version: i32,
    id: String,
    version: String,
    time_stamp: String,
    r: Interpretation,
)
    requires
        writes(id, 8),
        is_any_interpretation(server_version, seq![id, version, time_stamp], r),
    ensures
        r.ending is Done,
        r.events@ == seq![Event::UpdateAccountTime { time_stamp }],
{
    let f = seq![id, version, time_stamp];
    lemma_kind(server_version, f, IncomingMessageIds::AcctUpdateTime, r);
}

/// A value of an account is told as it was written.
pub proof fn lemma_account_value(
    server_version: i32,
    id: String,
    version: String,
    key: String,
    value: String,
    currency: String,
    account: String,
    r: Interpretation,
)
    requires
        writes(id, 6),
        is_any_interpretation(server_version, seq![id, version, key, value, currency, account], r),
    ensures
        r.ending is Done,
        r.events@ == seq![Event::UpdateAccountValue { key, value, currency, account }],
{
    let f = seq![id, version, key, value, currency, account];
    lemma_kind(server_version, f, IncomingMessageIds::AcctValue, r);
}

/// The accounts are told as they were written.
pub proof fn lemma_managed_accounts(
    server_version: i32,
    id: String,
    version: String,
    accounts: String,
    r: Interpretation,
)
    requires
        writes(id, 15),
        is_any_interpretation(server_version, seq![id, version, accounts], r),
    ensures
        r.ending is Done,
        r.events@ == seq![Event::ManagedAccounts { accounts }],
{
    lemma_kind(server_version, seq![id, version, accounts], IncomingMessageIds::ManagedAccts, r);
}

/// An advisor configuration is told as it was written.
pub proof fn lemma_receive_fa(
    server_version: i32,
    id: String,
    version: String,
    data_type: String,
    xml: String,
    kind: FaDataType,
    r: Interpretation,
)
    requires
        writes(id, 16),
        number(data_type) == kind.code(),
        is_any_interpretation(server_version, seq![id, version, data_type, xml], r),
    ensures
        r.ending is Done,
        r.events@ == seq![Event::ReceiveFa { data_type: kind, xml }],
{
    kind.lemma_code(kind.code());
    lemma_kind(server_version, seq![id, version, data_type, xml], IncomingMessageIds::ReceiveFa, r);
}

/// The end of the positions is told.
pub proof fn lemma_position_end(server_version: i32, id: String, r: Interpretation)
    requires
        writes(id, 62),
        is_any_interpretation(server_version, seq![id], r),
    ensures
        r.ending is Done,
        r.events@ == seq![Event::PositionEnd],
{
    lemma_kind(server_version, seq![id], IncomingMessageIds::PositionEnd, r);
}

/// The end of the positions in several accounts is told as it was written.
pub proof fn lemma_position_multi_end(
    server_version: i32,
    id: String,
    version: String,
    req_id: String,
    r: Interpretation,
)
    requires
        writes(id, 72),
        is_any_interpretation(server_version, seq![id, version, req_id], r),
    ensures
        r.ending is Done,
        r.events@ == seq![Event::PositionMultiEnd { req_id: number(req_id) }],
{
    lemma_kind(server_version, seq![id, version, req_id], IncomingMessageIds::PositionMultiEnd, r);
}

/// A family code, field by field.
pub struct FamilyCodeFields {
    pub account_id: String,
    pub family_code_str: String,
}

impl FamilyCodeFields {
    /// The entry as a server sends it.
    pub open spec fn written(self) -> Seq<String> {
        seq![self.account_id, self.family_code_str]
    }

    /// The entry that is meant.
    pub open spec fn meant(self) -> FamilyCode {
        FamilyCode {
            account_id: self.account_id,
            family_code_str: self.family_code_str,
        }
    }
}

/// Family codes are told as they were written.
#[verifier::spinoff_prover]
pub proof fn lemma_family_codes(
    server_version: i32,
    id: String,
    count: String,
    entries: Seq<FamilyCodeFields>,
    r: Interpretation,
)
    requires
        writes(id, 78),
        counts(count, entries.len()),
        is_any_interpretation(
            server_version,
            seq![id, count] + one_by_one(
                entries.map_values(|e: FamilyCodeFields| e.written()),
            ),
            r,
        ),
    ensures
        r.ending is Done,
        r.events@.len() == 1,
        r.events@[0] matches Event::FamilyCodes { family_codes: items } && {
            &&& items@ == entries.map_values(|e: FamilyCodeFields| e.meant())
        },
{
    let parts = entries.map_values(|e: FamilyCodeFields| e.written());
    let meant = entries.map_values(|e: FamilyCodeFields| e.meant());
    let f = seq![id, count] + one_by_one(parts);
    assert(one_by_one(parts).len() == 2 * entries.len()) by {
        lemma_one_by_one(parts, 2);
    }
    assert(f[0] == id && f[1] == count);
    assert(family_codes(f, 2, entries.len()) == meant) by {
        lemma_one_by_one(parts, 2);
        let read = family_codes(f, 2, entries.len());
        assert forall|i: int| 0 <= i < entries.len() implies read[i] == #[trigger] meant[i] by {
            let part = parts[i];
            assert(part[0] == entries[i].account_id);
            assert(part[1] == entries[i].family_code_str);
        }
        assert(read =~= meant);
    }
    lemma_kind(server_version, f, IncomingMessageIds::FamilyCodes, r);
}

/// A soft dollar tier, field by field.
pub struct SoftDollarTierFields {
    pub name: String,
    pub val: String,
    pub display_name: String,
}

impl SoftDollarTierFields {
    /// The entry as a server sends it.
    pub open spec fn written(self) -> Seq<String> {
        seq![self.name, self.val, self.display_name]
    }

    /// The entry that is meant.
    pub open spec fn meant(self) -> SoftDollarTier {
        SoftDollarTier {
            name: self.name,
            val: self.val,
            display_name: self.display_name,
        }
    }
}

/// Soft dollar tiers are told as they were written.
#[verifier::spinoff_prover]
pub proof fn lemma_soft_dollar_tiers(
    server_version: i32,
    id: String,
    req_id: String,
    count: String,
    entries: Seq<SoftDollarTierFields>,
    r: Interpretation,
)
    requires
        writes(id, 77),
        counts(count, entries.len()),
        is_any_interpretation(
            server_version,
            seq![id, req_id, count] + one_by_one(
                entries.map_values(|e: SoftDollarTierFields| e.written()),
            ),
            r,
        ),
    ensures
        r.ending is Done,
        r.events@.len() == 1,
        r.events@[0] matches Event::SoftDollarTiers { req_id: request, tiers: items } && {
            &&& request == number(req_id)
            &&& items@ == entries.map_values(|e: SoftDollarTierFields| e.meant())
        },
{
    let parts = entries.map_values(|e: SoftDollarTierFields| e.written());
    let meant = entries.map_values(|e: SoftDollarTierFields| e.meant());
    let f = seq![id, req_id, count] + one_by_one(parts);
    assert(one_by_one(parts).len() == 3 * entries.len()) by {
        lemma_one_by_one(parts, 3);
    }
    assert(f[0] == id && f[1] == req_id && f[2] == count);
    assert(soft_dollar_tiers(f, 3, entries.len()) == meant) by {
        lemma_one_by_one(parts, 3);
        let read = soft_dollar_tiers(f, 3, entries.len());
        assert forall|i: int| 0 <= i < entries.len() implies read[i] == #[trigger] meant[i] by {
            let part = parts[i];
            assert(part[0] == entries[i].name);
            assert(part[1] == entries[i].val);
            assert(part[2] == entries[i].display_name);
        }
        assert(read =~= meant);
    }
    lemma_kind(server_version, f, IncomingMessageIds::SoftDollarTiers, r);
}

/// Profit and loss, field by field.
pub struct PnlFields {
    pub id: String,
    pub req_id: String,
    pub daily_pnl: String,
    pub unrealized_pnl: String,
    pub realized_pnl: String,
}

impl PnlFields {
    /// The message as a server sends it.
    pub open spec fn written(self, server_version: i32) -> Seq<String> {
        seq![self.id, self.req_id, self.daily_pnl]
            + sent_if(server_version >= MIN_SERVER_VER_UNREALIZED_PNL, seq![self.unrealized_pnl])
            + sent_if(server_version >= MIN_SERVER_VER_REALIZED_PNL, seq![self.realized_pnl])
    }

    /// Whether `e` tells profit and loss.
    pub open spec fn told(self, server_version: i32, e: Event) -> bool {
        e == (Event::Pnl {
            req_id: number(self.req_id),
            daily_pnl: Double::Parsed(self.daily_pnl),
            unrealized_pnl: double_sent(
                server_version >= MIN_SERVER_VER_UNREALIZED_PNL,
                self.unrealized_pnl,
            ),
            realized_pnl: double_sent(
                server_version >= MIN_SERVER_VER_REALIZED_PNL,
                self.realized_pnl,
            ),
        })
    }
}

/// Profit and loss is told as it was written.
pub proof fn lemma_pnl(
    server_version: i32,
    m: PnlFields,
    r: Interpretation,
)
    requires
        writes(m.id, 94),
        is_any_interpretation(server_version, m.written(server_version), r),
    ensures
        r.ending is Done,
        r.events@.len() == 1,
        m.told(server_version, r.events@[0]),
{
    let f = m.written(server_version);
    lemma_all(f);
    lemma_pnl_read(server_version, m, f, r);
}

/// What is read of the fields of such a message.
#[verifier::spinoff_prover]
#[verifier::rlimit(40)]
proof fn lemma_pnl_read(
    server_version: i32,
    m: PnlFields,
    f: Seq<String>,
    r: Interpretation,
)
    requires
        writes(m.id, 94),
        begins(f, m.written(server_version)),
        f.len() == m.written(server_version).len(),
        is_any_interpretation(server_version, f, r),
    ensures
        r.ending is Done,
        r.events@.len() == 1,
        m.told(server_version, r.events@[0]),
{
    let a0 = seq![m.id, m.req_id, m.daily_pnl];
    let p1 = sent_if(server_version >= MIN_SERVER_VER_UNREALIZED_PNL, seq![m.unrealized_pnl]);
    let a1 = a0 + p1;
    let p2 = sent_if(server_version >= MIN_SERVER_VER_REALIZED_PNL, seq![m.realized_pnl]);
    let a2 = a1 + p2;
    lemma_part(f, a1, p2);
    lemma_part(f, a0, p1);
    let n0 = a0.len() as int;
    let n1 = a1.len() as int;
    let n2 = a2.len() as int;
    assert(f[0] == m.id && f[1] == m.req_id && f[2] == m.daily_pnl) by {
        lemma_beginning(f, a0);
    }
    assert(server_version >= MIN_SERVER_VER_UNREALIZED_PNL ==> f[n0] == m.unrealized_pnl) by {
        reveal(stands);
        if server_version >= MIN_SERVER_VER_UNREALIZED_PNL {
            assert(p1[0] == m.unrealized_pnl);
        }
    }
    assert(server_version >= MIN_SERVER_VER_REALIZED_PNL ==> f[n1] == m.realized_pnl) by {
        reveal(stands);
        if server_version >= MIN_SERVER_VER_REALIZED_PNL {
            assert(p2[0] == m.realized_pnl);
        }
    }
    lemma_kind(server_version, f, IncomingMessageIds::Pnl, r);
}

/// Profit and loss of a position, field by field.
pub struct PnlSingleFields {
    pub id: String,
    pub req_id: String,
    pub pos: String,
    pub daily_pnl: String,
    pub unrealized_pnl: String,
    pub realized_pnl: String,
    pub value: String,
}

impl PnlSingleFields {
    /// The message as a server sends it.
    pub open spec fn written(self, server_version: i32) -> Seq<String> {
        seq![self.id, self.req_id, self.pos, self.daily_pnl]
            + sent_if(server_version >= MIN_SERVER_VER_UNREALIZED_PNL, seq![self.unrealized_pnl])
            + sent_if(server_version >= MIN_SERVER_VER_REALIZED_PNL, seq![self.realized_pnl])
            + seq![self.value]
    }

    /// Whether `e` tells profit and loss of the position.
    pub open spec fn told(self, server_version: i32, e: Event) -> bool {
        e == (Event::PnlSingle {
            req_id: number(self.req_id),
            pos: number(self.pos),
            daily_pnl: Double::Parsed(self.daily_pnl),
            unrealized_pnl: double_sent(
                server_version >= MIN_SERVER_VER_UNREALIZED_PNL,
                self.unrealized_pnl,
            ),
            realized_pnl: double_sent(
                server_version >= MIN_SERVER_VER_REALIZED_PNL,
                self.realized_pnl,
            ),
            value: Double::Parsed(self.value),
        })
    }
}

/// Profit and loss of a position is told as it was written.
pub proof fn lemma_pnl_single(
    server_version: i32,
    m: PnlSingleFields,
    r: Interpretation,
)
    requires
        writes(m.id, 95),
        is_any_interpretation(server_version, m.written(server_version), r),
    ensures
        r.ending is Done,
        r.events@.len() == 1,
        m.told(server_version, r.events@[0]),
{
    let f = m.written(server_version);
    lemma_all(f);
    lemma_pnl_single_read(server_version, m, f, r);
}

/// What is read of the fields of such a message.
#[verifier::spinoff_prover]
#[verifier::rlimit(40)]
proof fn lemma_pnl_single_read(
    server_version: i32,
    m: PnlSingleFields,
    f: Seq<String>,
    r: Interpretation,
)
    requires
        writes(m.id, 95),
        begins(f, m.written(server_version)),
        f.len() == m.written(server_version).len(),
        is_any_interpretation(server_version, f, r),
    ensures
        r.ending is Done,
        r.events@.len() == 1,
        m.told(server_version, r.events@[0]),
{
    let a0 = seq![m.id, m.req_id, m.pos, m.daily_pnl];
    let p1 = sent_if(server_version >= MIN_SERVER_VER_UNREALIZED_PNL, seq![m.unrealized_pnl]);
    let a1 = a0 + p1;
    let p2 = sent_if(server_version >= MIN_SERVER_VER_REALIZED_PNL, seq![m.realized_pnl]);
    let a2 = a1 + p2;
    let p3 = seq![m.value];
    let a3 = a2 + p3;
    lemma_part(f, a2, p3);
    lemma_part(f, a1, p2);
    lemma_part(f, a0, p1);
    let n0 = a0.len() as int;
    let n1 = a1.len() as int;
    let n2 = a2.len() as int;
    let n3 = a3.len() as int;
    assert(f[0] == m.id && f[1] == m.req_id && f[2] == m.pos && f[3] == m.daily_pnl) by {
        lemma_beginning(f, a0);
    }
    assert(server_version >= MIN_SERVER_VER_UNREALIZED_PNL ==> f[n0] == m.unrealized_pnl) by {
        reveal(stands);
        if server_version >= MIN_SERVER_VER_UNREALIZED_PNL {
            assert(p1[0] == m.unrealized_pnl);
        }
    }
    assert(server_version >= MIN_SERVER_VER_REALIZED_PNL ==> f[n1] == m.realized_pnl) by {
        reveal(stands);
        if server_version >= MIN_SERVER_VER_REALIZED_PNL {
            assert(p2[0] == m.realized_pnl);
        }
    }
    assert(f[n2] == m.value) by {
        reveal(stands);
        assert(p3[0] == m.value);
    }
    lemma_kind(server_version, f, IncomingMessageIds::PnlSingle, r);
}

/// An entry of a portfolio, field by field.
pub struct PortfolioFields {
    pub id: String,
    pub version: String,
    pub con_id: String,
    pub symbol: String,
    pub sec_type: String,
    pub last_trade_date_or_contract_month: String,
    pub strike: String,
    pub right: String,
    pub multiplier: String,
    pub primary_exchange: String,
    pub currency: String,
    pub local_symbol: String,
    pub trading_class: String,
    pub position: String,
    pub market_price: String,
    pub market_value: String,
    pub average_cost: String,
    pub unrealized_pnl: String,
    pub realized_pnl: String,
    pub account_name: String,
    pub late_primary_exchange: String,
}

impl PortfolioFields {
    /// The message as a server sends it.
    pub open spec fn written(self, server_version: i32) -> Seq<String> {
        seq![
                self.id,
                self.version,
                self.con_id,
                self.symbol,
                self.sec_type,
                self.last_trade_date_or_contract_month,
                self.strike,
                self.right,
            ]
            + sent_if(number(self.version) >= 7, seq![self.multiplier, self.primary_exchange])
            + seq![self.currency, self.local_symbol]
            + sent_if(number(self.version) >= 8, seq![self.trading_class])
            + seq![
                self.position,
                self.market_price,
                self.market_value,
                self.average_cost,
                self.unrealized_pnl,
                self.realized_pnl,
                self.account_name,
            ]
            + sent_if(
                number(self.version) == 6 && server_version == 39,
                seq![self.late_primary_exchange],
            )
    }

    /// Whether `e` tells of the entry each value under its own name.
    pub open spec fn told(self, server_version: i32, e: Event) -> bool {
        e matches Event::UpdatePortfolio {
            contract,
            position,
            market_price,
            market_value,
            average_cost,
            unrealized_pnl,
            realized_pnl,
            account_name,
        } && {
            &&& contract.con_id == number(self.con_id)
            &&& contract.symbol@ == self.symbol@
            &&& contract.sec_type@ == self.sec_type@
            &&& contract.last_trade_date_or_contract_month@
                == self.last_trade_date_or_contract_month@
            &&& contract.strike == Double::Parsed(self.strike)
            &&& contract.right@ == self.right@
            &&& contract.multiplier@ == text_sent(number(self.version) >= 7, self.multiplier)
            &&& contract.exchange@ == Seq::<char>::empty()
            &&& contract.primary_exchange@ == if number(self.version) >= 7 {
                self.primary_exchange@
            } else {
                text_sent(
                    number(self.version) == 6 && server_version == 39,
                    self.late_primary_exchange,
                )
            }
            &&& contract.currency@ == self.currency@
            &&& contract.local_symbol@ == self.local_symbol@
            &&& contract.trading_class@ == text_sent(number(self.version) >= 8, self.trading_class)
            &&& position == if server_version >= MIN_SERVER_VER_FRACTIONAL_POSITIONS {
                Double::Parsed(self.position)
            } else {
                Double::Whole(number(self.position))
            }
            &&& market_price == Double::Parsed(self.market_price)
            &&& market_value == Double::Parsed(self.market_value)
            &&& average_cost == Double::Parsed(self.average_cost)
            &&& unrealized_pnl == Double::Parsed(self.unrealized_pnl)
            &&& realized_pnl == Double::Parsed(self.realized_pnl)
            &&& account_name == self.account_name
        }
    }
}

/// An entry of a portfolio is told as it was written.
pub proof fn lemma_portfolio_value(
    server_version: i32,
    m: PortfolioFields,
    r: Interpretation,
)
    requires
        writes(m.id, 7),
        is_any_interpretation(server_version, m.written(server_version), r),
    ensures
        r.ending is Done,
        r.events@.len() == 1,
        m.told(server_version, r.events@[0]),
{
    let f = m.written(server_version);
    lemma_all(f);
    lemma_portfolio_value_read(server_version, m, f, r);
}

/// What is read of the fields of such a message.
#[verifier::spinoff_prover]
#[verifier::rlimit(40)]
proof fn lemma_portfolio_value_read(
    server_version: i32,
    m: PortfolioFields,
    f: Seq<String>,
    r: Interpretation,
)
    requires
        writes(m.id, 7),
        begins(f, m.written(server_version)),
        f.len() == m.written(server_version).len(),
        is_any_interpretation(server_version, f, r),
    ensures
        r.ending is Done,
        r.events@.len() == 1,
        m.told(server_version, r.events@[0]),
{
    let a0 = seq![
            m.id,
            m.version,
            m.con_id,
            m.symbol,
            m.sec_type,
            m.last_trade_date_or_contract_month,
            m.strike,
            m.right,
        ];
    let p1 = sent_if(number(m.version) >= 7, seq![m.multiplier, m.primary_exchange]);
    let a1 = a0 + p1;
    let p2 = seq![m.currency, m.local_symbol];
    let a2 = a1 + p2;
    let p3 = sent_if(number(m.version) >= 8, seq![m.trading_class]);
    let a3 = a2 + p3;
    let p4 = seq![
            m.position,
            m.market_price,
            m.market_value,
            m.average_cost,
            m.unrealized_pnl,
            m.realized_pnl,
            m.account_name,
        ];
    let a4 = a3 + p4;
    let p5 = sent_if(number(m.version) == 6 && server_version == 39, seq![m.late_primary_exchange]);
    let a5 = a4 + p5;
    lemma_part(f, a4, p5);
    lemma_part(f, a3, p4);
    lemma_part(f, a2, p3);
    lemma_part(f, a1, p2);
    lemma_part(f, a0, p1);
    let n0 = a0.len() as int;
    let n1 = a1.len() as int;
    let n2 = a2.len() as int;
    let n3 = a3.len() as int;
    let n4 = a4.len() as int;
    let n5 = a5.len() as int;
    assert({
        &&& f[0] == m.id
        &&& f[1] == m.version
        &&& f[2] == m.con_id
        &&& f[3] == m.symbol
        &&& f[4] == m.sec_type
        &&& f[5] == m.last_trade_date_or_contract_month
        &&& f[6] == m.strike
        &&& f[7] == m.right
    }) by {
        lemma_beginning(f, a0);
    }
    assert(number(m.version) >= 7 ==> f[n0] == m.multiplier && f[n0 + 1] == m.primary_exchange) by {
        reveal(stands);
        if number(m.version) >= 7 {
            assert(p1[0] == m.multiplier);
            assert(p1[1] == m.primary_exchange);
        }
    }
    assert(f[n1] == m.currency && f[n1 + 1] == m.local_symbol) by {
        reveal(stands);
        assert(p2[0] == m.currency);
        assert(p2[1] == m.local_symbol);
    }
    assert(number(m.version) >= 8 ==> f[n2] == m.trading_class) by {
        reveal(stands);
        if number(m.version) >= 8 {
            assert(p3[0] == m.trading_class);
        }
    }
    assert({
        &&& f[n3] == m.position
        &&& f[n3 + 1] == m.market_price
        &&& f[n3 + 2] == m.market_value
        &&& f[n3 + 3] == m.average_cost
        &&& f[n3 + 4] == m.unrealized_pnl
        &&& f[n3 + 5] == m.realized_pnl
        &&& f[n3 + 6] == m.account_name
    }) by {
        reveal(stands);
        assert(p4[0] == m.position);
        assert(p4[1] == m.market_price);
        assert(p4[2] == m.market_value);
        assert(p4[3] == m.average_cost);
        assert(p4[4] == m.unrealized_pnl);
        assert(p4[5] == m.realized_pnl);
        assert(p4[6] == m.account_name);
    }
    assert(number(m.version) == 6 && server_version == 39 ==> f[n4] == m.late_primary_exchange) by {
        reveal(stands);
        if number(m.version) == 6 && server_version == 39 {
            assert(p5[0] == m.late_primary_exchange);
        }
    }
    lemma_kind(server_version, f, IncomingMessageIds::PortfolioValue, r);
}

/// The symbol that an entry of a portfolio is told with is the one that was written, in whatever
/// version: two messages with the same symbol tell the same, also where one of them has a trading
/// class and the other one has none.
pub proof fn lemma_portfolio_symbol(
    server_version: i32,
    a: PortfolioFields,
    b: PortfolioFields,
    r: Interpretation,
    s: Interpretation,
)
    requires
        writes(a.id, 7),
        writes(b.id, 7),
        a.symbol == b.symbol,
        is_any_interpretation(server_version, a.written(server_version), r),
        is_any_interpretation(server_version, b.written(server_version), s),
    ensures
        r.events@[0]->UpdatePortfolio_contract.symbol@
            == s.events@[0]->UpdatePortfolio_contract.symbol@,
{
    lemma_portfolio_value(server_version, a, r);
    lemma_portfolio_value(server_version, b, s);
}

/// A position, field by field.
pub struct PositionFields {
    pub id: String,
    pub version: String,
    pub account: String,
    pub con_id: String,
    pub symbol: String,
    pub sec_type: String,
    pub last_trade_date_or_contract_month: String,
    pub strike: String,
    pub right: String,
    pub multiplier: String,
    pub exchange: String,
    pub currency: String,
    pub local_symbol: String,
    pub trading_class: String,
    pub position: String,
    pub avg_cost: String,
}

impl PositionFields {
    /// The message as a server sends it.
    pub open spec fn written(self, server_version: i32) -> Seq<String> {
        seq![
                self.id,
                self.version,
                self.account,
                self.con_id,
                self.symbol,
                self.sec_type,
                self.last_trade_date_or_contract_month,
                self.strike,
                self.right,
                self.multiplier,
                self.exchange,
                self.currency,
                self.local_symbol,
            ]
            + sent_if(number(self.version) >= 2, seq![self.trading_class])
            + seq![self.position]
            + sent_if(number(self.version) >= 3, seq![self.avg_cost])
    }

    /// Whether `e` tells of the position each value under its own name.
    pub open spec fn told(self, server_version: i32, e: Event) -> bool {
        e matches Event::Position { account, contract, position, avg_cost } && {
            &&& account == self.account
            &&& contract.con_id == number(self.con_id)
            &&& contract.symbol@ == self.symbol@
            &&& contract.sec_type@ == self.sec_type@
            &&& contract.last_trade_date_or_contract_month@
                == self.last_trade_date_or_contract_month@
            &&& contract.strike == Double::Parsed(self.strike)
            &&& contract.right@ == self.right@
            &&& contract.multiplier@ == self.multiplier@
            &&& contract.exchange@ == self.exchange@
            &&& contract.primary_exchange@ == Seq::<char>::empty()
            &&& contract.currency@ == self.currency@
            &&& contract.local_symbol@ == self.local_symbol@
            &&& contract.trading_class@ == text_sent(number(self.version) >= 2, self.trading_class)
            &&& position == if server_version >= MIN_SERVER_VER_FRACTIONAL_POSITIONS {
                Double::Parsed(self.position)
            } else {
                Double::Whole(number(self.position))
            }
            &&& avg_cost == double_sent(number(self.version) >= 3, self.avg_cost)
        }
    }
}

/// A position is told as it was written.
pub proof fn lemma_position_data(
    server_version: i32,
    m: PositionFields,
    r: Interpretation,
)
    requires
        writes(m.id, 61),
        is_any_interpretation(server_version, m.written(server_version), r),
    ensures
        r.ending is Done,
        r.events@.len() == 1,
        m.told(server_version, r.events@[0]),
{
    let f = m.written(server_version);
    lemma_all(f);
    lemma_position_data_read(server_version, m, f, r);
}

/// What is read of the fields of such a message.
#[verifier::spinoff_prover]
#[verifier::rlimit(40)]
proof fn lemma_position_data_read(
    server_version: i32,
    m: PositionFields,
    f: Seq<String>,
    r: Interpretation,
)
    requires
        writes(m.id, 61),
        begins(f, m.written(server_version)),
        f.len() == m.written(server_version).len(),
        is_any_interpretation(server_version, f, r),
    ensures
        r.ending is Done,
        r.events@.len() == 1,
        m.told(server_version, r.events@[0]),
{
    let a0 = seq![
            m.id,
            m.version,
            m.account,
            m.con_id,
            m.symbol,
            m.sec_type,
            m.last_trade_date_or_contract_month,
            m.strike,
            m.right,
            m.multiplier,
            m.exchange,
            m.currency,
            m.local_symbol,
        ];
    let p1 = sent_if(number(m.version) >= 2, seq![m.trading_class]);
    let a1 = a0 + p1;
    let p2 = seq![m.position];
    let a2 = a1 + p2;
    let p3 = sent_if(number(m.version) >= 3, seq![m.avg_cost]);
    let a3 = a2 + p3;
    lemma_part(f, a2, p3);
    lemma_part(f, a1, p2);
    lemma_part(f, a0, p1);
    let n0 = a0.len() as int;
    let n1 = a1.len() as int;
    let n2 = a2.len() as int;
    let n3 = a3.len() as int;
    assert({
        &&& f[0] == m.id
        &&& f[1] == m.version
        &&& f[2] == m.account
        &&& f[3] == m.con_id
        &&& f[4] == m.symbol
        &&& f[5] == m.sec_type
        &&& f[6] == m.last_trade_date_or_contract_month
        &&& f[7] == m.strike
        &&& f[8] == m.right
        &&& f[9] == m.multiplier
        &&& f[10] == m.exchange
        &&& f[11] == m.currency
        &&& f[12] == m.local_symbol
    }) by {
        lemma_beginning(f, a0);
    }
    assert(number(m.version) >= 2 ==> f[n0] == m.trading_class) by {
        reveal(stands);
        if number(m.version) >= 2 {
            assert(p1[0] == m.trading_class);
        }
    }
    assert(f[n1] == m.position) by {
        reveal(stands);
        assert(p2[0] == m.position);
    }
    assert(number(m.version) >= 3 ==> f[n2] == m.avg_cost) by {
        reveal(stands);
        if number(m.version) >= 3 {
            assert(p3[0] == m.avg_cost);
        }
    }
    lemma_kind(server_version, f, IncomingMessageIds::PositionData, r);
}

/// A position in one of several accounts, field by field.
pub struct PositionMultiFields {
    pub id: String,
    pub version: String,
    pub req_id: String,
    pub account: String,
    pub con_id: String,
    pub symbol: String,
    pub sec_type: String,
    pub last_trade_date_or_contract_month: String,
    pub strike: String,
    pub right: String,
    pub multiplier: String,
    pub exchange: String,
    pub currency: String,
    pub local_symbol: String,
    pub trading_class: String,
    pub position: String,
    pub avg_cost: String,
    pub model_code: String,
}

impl PositionMultiFields {
    /// The message as a server sends it.
    pub open spec fn written(self, server_version: i32) -> Seq<String> {
        seq![
                self.id,
                self.version,
                self.req_id,
                self.account,
                self.con_id,
                self.symbol,
                self.sec_type,
                self.last_trade_date_or_contract_month,
                self.strike,
                self.right,
                self.multiplier,
                self.exchange,
                self.currency,
                self.local_symbol,
                self.trading_class,
                self.position,
                self.avg_cost,
                self.model_code,
            ]
    }

    /// Whether `e` tells of the position each value under its own name.
    pub open spec fn told(self, server_version: i32, e: Event) -> bool {
        e matches Event::PositionMulti {
            req_id,
            account,
            model_code,
            contract,
            position,
            avg_cost,
        } && {
            &&& req_id == number(self.req_id)
            &&& account == self.account
            &&& model_code == self.model_code
            &&& contract.con_id == number(self.con_id)
            &&& contract.symbol@ == self.symbol@
            &&& contract.sec_type@ == self.sec_type@
            &&& contract.last_trade_date_or_contract_month@
                == self.last_trade_date_or_contract_month@
            &&& contract.strike == Double::Parsed(self.strike)
            &&& contract.right@ == self.right@
            &&& contract.multiplier@ == self.multiplier@
            &&& contract.exchange@ == self.exchange@
            &&& contract.primary_exchange@ == Seq::<char>::empty()
            &&& contract.currency@ == self.currency@
            &&& contract.local_symbol@ == self.local_symbol@
            &&& contract.trading_class@ == self.trading_class@
            &&& position == Double::Parsed(self.position)
            &&& avg_cost == Double::Parsed(self.avg_cost)
        }
    }
}

/// A position in one of several accounts is told as it was written.
pub proof fn lemma_position_multi(
    server_version: i32,
    m: PositionMultiFields,
    r: Interpretation,
)
    requires
        writes(m.id, 71),
        is_any_interpretation(server_version, m.written(server_version), r),
    ensures
        r.ending is Done,
        r.events@.len() == 1,
        m.told(server_version, r.events@[0]),
{
    let f = m.written(server_version);
    lemma_all(f);
    lemma_position_multi_read(server_version, m, f, r);
}

/// What is read of the fields of such a message.
#[verifier::spinoff_prover]
#[verifier::rlimit(40)]
proof fn lemma_position_multi_read(
    server_version: i32,
    m: PositionMultiFields,
    f: Seq<String>,
    r: Interpretation,
)
    requires
        writes(m.id, 71),
        begins(f, m.written(server_version)),
        f.len() == m.written(server_version).len(),
        is_any_interpretation(server_version, f, r),
    ensures
        r.ending is Done,
        r.events@.len() == 1,
        m.told(server_version, r.events@[0]),
{
    let a0 = seq![
            m.id,
            m.version,
            m.req_id,
            m.account,
            m.con_id,
            m.symbol,
            m.sec_type,
            m.last_trade_date_or_contract_month,
            m.strike,
            m.right,
            m.multiplier,
            m.exchange,
            m.currency,
            m.local_symbol,
            m.trading_class,
            m.position,
            m.avg_cost,
            m.model_code,
        ];
    let n0 = a0.len() as int;
    assert({
        &&& f[0] == m.id
        &&& f[1] == m.version
        &&& f[2] == m.req_id
        &&& f[3] == m.account
        &&& f[4] == m.con_id
        &&& f[5] == m.symbol
        &&& f[6] == m.sec_type
        &&& f[7] == m.last_trade_date_or_contract_month
        &&& f[8] == m.strike
        &&& f[9] == m.right
        &&& f[10] == m.multiplier
        &&& f[11] == m.exchange
        &&& f[12] == m.currency
        &&& f[13] == m.local_symbol
        &&& f[14] == m.trading_class
        &&& f[15] == m.position
        &&& f[16] == m.avg_cost
        &&& f[17] == m.model_code
    }) by {
        lemma_beginning(f, a0);
    }
    lemma_kind(server_version, f, IncomingMessageIds::PositionMulti, r);
}

} // verus!
