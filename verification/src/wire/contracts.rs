//! Messages on contracts.
use crate::codes::IncomingMessageIds;
use crate::contracts::{bond_layout, contract_details_layout, tag_values};
use crate::decoder::{is_any_interpretation, Ending, Interpretation};
use crate::errors::IBKRApiLibError;
use crate::event::Event;
use crate::number::Double;
use crate::server_versions::{
    MIN_SERVER_VER_AGG_GROUP, MIN_SERVER_VER_MARKET_RULES, MIN_SERVER_VER_MD_SIZE_MULTIPLIER,
    MIN_SERVER_VER_REAL_EXPIRATION_DATE, MIN_SERVER_VER_UNDERLYING_INFO,
};
use crate::text::{integer_i32, words};
use crate::types::{DeltaNeutralContract, TagValue};
use crate::wire::{
    begins, counts, double_sent, lemma_all, lemma_beginning, lemma_kind, lemma_one_by_one,
    lemma_part, number, number_sent, one_by_one, sent_if, stands, text_sent, writes,
};
use vstd::prelude::*;

verus! {

/// Word `i` of a text, or nothing where there is none.
pub open spec fn word(text: Seq<char>, i: int) -> Seq<char> {
    if i < words(text).len() {
        words(text)[i]
    } else {
        seq![]
    }
}

/// A list of names and values, each name before its value.
pub open spec fn tags_written(tags: Seq<TagValue>) -> Seq<String> {
    one_by_one(tags.map_values(|t: TagValue| seq![t.tag, t.value]))
}

/// Where a list of names and values is in a message.
proof fn lemma_tags(before: Seq<String>, tags: Seq<TagValue>, after: Seq<String>)
    ensures
        tags_written(tags).len() == 2 * tags.len(),
        tag_values(before + tags_written(tags) + after, before.len() as int, tags.len()) == tags,
{
    let entries = tags.map_values(|t: TagValue| seq![t.tag, t.value]);
    lemma_one_by_one(entries, 2);
    let f = before + tags_written(tags) + after;
    assert forall|i: int| 0 <= i < tags.len() implies tag_values(
        f,
        before.len() as int,
        tags.len(),
    )[i] == #[trigger] tags[i] by {
        assert(entries[i][0] == tags[i].tag);
        assert(entries[i][1] == tags[i].value);
    }
    assert(tag_values(f, before.len() as int, tags.len()) =~= tags);
}

/// A message on a contract, field by field.
pub struct ContractDetailsFields {
    pub id: String,
    pub version: String,
    pub req_id: String,
    pub symbol: String,
    pub sec_type: String,
    pub date: String,
    pub strike: String,
    pub right: String,
    pub exchange: String,
    pub currency: String,
    pub local_symbol: String,
    pub market_name: String,
    pub trading_class: String,
    pub con_id: String,
    pub min_tick: String,
    pub md_size_multiplier: String,
    pub multiplier: String,
    pub order_types: String,
    pub valid_exchanges: String,
    pub price_magnifier: String,
    pub under_con_id: String,
    pub long_name: String,
    pub primary_exchange: String,
    pub contract_month: String,
    pub industry: String,
    pub category: String,
    pub subcategory: String,
    pub time_zone_id: String,
    pub trading_hours: String,
    pub liquid_hours: String,
    pub ev_rule: String,
    pub ev_multiplier: String,
    pub sec_id_count: String,
    pub agg_group: String,
    pub under_symbol: String,
    pub under_sec_type: String,
    pub market_rule_ids: String,
    pub real_expiration_date: String,
    pub sec_ids: Seq<TagValue>,
}

impl ContractDetailsFields {
    /// The message as a server sends it: the later a field was introduced, the newer the message or
    /// the server has to be for it.
    pub open spec fn written(self, server_version: i32) -> Seq<String> {
        seq![self.id, self.version]
            + sent_if(number(self.version) >= 3, seq![self.req_id])
            + seq![
                self.symbol,
                self.sec_type,
                self.date,
                self.strike,
                self.right,
                self.exchange,
                self.currency,
                self.local_symbol,
                self.market_name,
                self.trading_class,
                self.con_id,
                self.min_tick,
            ]
            + sent_if(
                server_version >= MIN_SERVER_VER_MD_SIZE_MULTIPLIER,
                seq![self.md_size_multiplier],
            )
            + seq![
                self.multiplier,
                self.order_types,
                self.valid_exchanges,
                self.price_magnifier,
            ]
            + sent_if(number(self.version) >= 4, seq![self.under_con_id])
            + sent_if(number(self.version) >= 5, seq![self.long_name, self.primary_exchange])
            + sent_if(number(self.version) >= 6, seq![
                self.contract_month,
                self.industry,
                self.category,
                self.subcategory,
                self.time_zone_id,
                self.trading_hours,
                self.liquid_hours,
            ])
            + sent_if(number(self.version) >= 8, seq![self.ev_rule, self.ev_multiplier])
            + sent_if(number(self.version) >= 7, seq![self.sec_id_count])
            + sent_if(number(self.version) >= 7, tags_written(self.sec_ids))
            + sent_if(server_version >= MIN_SERVER_VER_AGG_GROUP, seq![self.agg_group])
            + sent_if(
                server_version >= MIN_SERVER_VER_UNDERLYING_INFO,
                seq![self.under_symbol, self.under_sec_type],
            )
            + sent_if(server_version >= MIN_SERVER_VER_MARKET_RULES, seq![self.market_rule_ids])
            + sent_if(
                server_version >= MIN_SERVER_VER_REAL_EXPIRATION_DATE,
                seq![self.real_expiration_date],
            )
    }

    /// Whether `e` tells of the contract each value under its own name, and nothing that was not
    /// sent.
    pub open spec fn told(self, server_version: i32, e: Event) -> bool {
        e matches Event::ContractDetails { req_id, details } && {
            &&& req_id == if number(self.version) >= 3 {
                number(self.req_id)
            } else {
                (-1) as i32
            }
            &&& details.contract.con_id == number(self.con_id)
            &&& details.contract.symbol@ == self.symbol@
            &&& details.contract.sec_type@ == self.sec_type@
            &&& details.contract.strike == Double::Parsed(self.strike)
            &&& details.contract.right@ == self.right@
            &&& details.contract.multiplier@ == self.multiplier@
            &&& details.contract.exchange@ == self.exchange@
            &&& details.contract.primary_exchange@ == text_sent(
                number(self.version) >= 5,
                self.primary_exchange,
            )
            &&& details.contract.currency@ == self.currency@
            &&& details.contract.local_symbol@ == self.local_symbol@
            &&& details.contract.trading_class@ == self.trading_class@
            &&& details.market_name@ == self.market_name@
            &&& details.min_tick == Double::Parsed(self.min_tick)
            &&& details.order_types@ == self.order_types@
            &&& details.valid_exchanges@ == self.valid_exchanges@
            &&& details.price_magnifier == number(self.price_magnifier)
            &&& details.under_con_id == number_sent(number(self.version) >= 4, self.under_con_id)
            &&& details.long_name@ == text_sent(number(self.version) >= 5, self.long_name)
            &&& details.contract_month@ == text_sent(number(self.version) >= 6, self.contract_month)
            &&& details.industry@ == text_sent(number(self.version) >= 6, self.industry)
            &&& details.category@ == text_sent(number(self.version) >= 6, self.category)
            &&& details.subcategory@ == text_sent(number(self.version) >= 6, self.subcategory)
            &&& details.time_zone_id@ == text_sent(number(self.version) >= 6, self.time_zone_id)
            &&& details.trading_hours@ == text_sent(number(self.version) >= 6, self.trading_hours)
            &&& details.liquid_hours@ == text_sent(number(self.version) >= 6, self.liquid_hours)
            &&& details.ev_rule@ == text_sent(number(self.version) >= 8, self.ev_rule)
            &&& details.ev_multiplier == double_sent(number(self.version) >= 8, self.ev_multiplier)
            &&& details.md_size_multiplier == number_sent(
                server_version >= MIN_SERVER_VER_MD_SIZE_MULTIPLIER,
                self.md_size_multiplier,
            )
            &&& details.agg_group == number_sent(
                server_version >= MIN_SERVER_VER_AGG_GROUP,
                self.agg_group,
            )
            &&& details.under_symbol@ == text_sent(
                server_version >= MIN_SERVER_VER_UNDERLYING_INFO,
                self.under_symbol,
            )
            &&& details.under_sec_type@ == text_sent(
                server_version >= MIN_SERVER_VER_UNDERLYING_INFO,
                self.under_sec_type,
            )
            &&& details.market_rule_ids@ == text_sent(
                server_version >= MIN_SERVER_VER_MARKET_RULES,
                self.market_rule_ids,
            )
            &&& details.real_expiration_date@ == text_sent(
                server_version >= MIN_SERVER_VER_REAL_EXPIRATION_DATE,
                self.real_expiration_date,
            )
            &&& details.cusip@ == Seq::<char>::empty()
            &&& details.ratings@ == Seq::<char>::empty()
            &&& details.desc_append@ == Seq::<char>::empty()
            &&& details.bond_type@ == Seq::<char>::empty()
            &&& details.coupon_type@ == Seq::<char>::empty()
            &&& details.callable == false
            &&& details.putable == false
            &&& details.coupon == Double::Whole(0)
            &&& details.convertible == false
            &&& details.issue_date@ == Seq::<char>::empty()
            &&& details.next_option_date@ == Seq::<char>::empty()
            &&& details.next_option_type@ == Seq::<char>::empty()
            &&& details.next_option_partial == false
            &&& details.notes@ == Seq::<char>::empty()
            &&& details.contract.last_trade_date_or_contract_month@ == word(self.date@, 0)
            &&& details.maturity@ == Seq::<char>::empty()
            &&& details.last_trade_time@ == word(self.date@, 1)
            &&& details.sec_id_list@ == if number(self.version) >= 7 {
                self.sec_ids
            } else {
                seq![]
            }
        }
    }
}

/// A contract is told as it was written.
pub proof fn lemma_contract_details(
    server_version: i32,
    m: ContractDetailsFields,
    r: Interpretation,
)
    requires
        writes(m.id, 10),
        number(m.version) >= 7 ==> counts(m.sec_id_count, m.sec_ids.len()),
        is_any_interpretation(server_version, m.written(server_version), r),
    ensures
        r.ending is Done,
        r.events@.len() == 1,
        m.told(server_version, r.events@[0]),
{
    let f = m.written(server_version);
    lemma_all(f);
    lemma_contract_details_read(server_version, m, f, r);
}

/// What is read of the fields of such a message.
#[verifier::spinoff_prover]
#[verifier::rlimit(60)]
proof fn lemma_contract_details_read(
    server_version: i32,
    m: ContractDetailsFields,
    f: Seq<String>,
    r: Interpretation,
)
    requires
        writes(m.id, 10),
        number(m.version) >= 7 ==> counts(m.sec_id_count, m.sec_ids.len()),
        begins(f, m.written(server_version)),
        f.len() == m.written(server_version).len(),
        is_any_interpretation(server_version, f, r),
    ensures
        r.ending is Done,
        r.events@.len() == 1,
        m.told(server_version, r.events@[0]),
{
    lemma_tags(seq![], m.sec_ids, seq![]);
    let a0 = seq![m.id, m.version];
    let p1 = sent_if(number(m.version) >= 3, seq![m.req_id]);
    let a1 = a0 + p1;
    let p2 = seq![
            m.symbol,
            m.sec_type,
            m.date,
            m.strike,
            m.right,
            m.exchange,
            m.currency,
            m.local_symbol,
            m.market_name,
            m.trading_class,
            m.con_id,
            m.min_tick,
        ];
    let a2 = a1 + p2;
    let p3 = sent_if(
        server_version >= MIN_SERVER_VER_MD_SIZE_MULTIPLIER,
        seq![m.md_size_multiplier],
    );
    let a3 = a2 + p3;
    let p4 = seq![m.multiplier, m.order_types, m.valid_exchanges, m.price_magnifier];
    let a4 = a3 + p4;
    let p5 = sent_if(number(m.version) >= 4, seq![m.under_con_id]);
    let a5 = a4 + p5;
    let p6 = sent_if(number(m.version) >= 5, seq![m.long_name, m.primary_exchange]);
    let a6 = a5 + p6;
    let p7 = sent_if(number(m.version) >= 6, seq![
            m.contract_month,
            m.industry,
            m.category,
            m.subcategory,
            m.time_zone_id,
            m.trading_hours,
            m.liquid_hours,
        ]);
    let a7 = a6 + p7;
    let p8 = sent_if(number(m.version) >= 8, seq![m.ev_rule, m.ev_multiplier]);
    let a8 = a7 + p8;
    let p9 = sent_if(number(m.version) >= 7, seq![m.sec_id_count]);
    let a9 = a8 + p9;
    let p10 = sent_if(number(m.version) >= 7, tags_written(m.sec_ids));
    let a10 = a9 + p10;
    let p11 = sent_if(server_version >= MIN_SERVER_VER_AGG_GROUP, seq![m.agg_group]);
    let a11 = a10 + p11;
    let p12 = sent_if(
        server_version >= MIN_SERVER_VER_UNDERLYING_INFO,
        seq![m.under_symbol, m.under_sec_type],
    );
    let a12 = a11 + p12;
    let p13 = sent_if(server_version >= MIN_SERVER_VER_MARKET_RULES, seq![m.market_rule_ids]);
    let a13 = a12 + p13;
    let p14 = sent_if(
        server_version >= MIN_SERVER_VER_REAL_EXPIRATION_DATE,
        seq![m.real_expiration_date],
    );
    let a14 = a13 + p14;
    lemma_part(f, a13, p14);
    lemma_part(f, a12, p13);
    lemma_part(f, a11, p12);
    lemma_part(f, a10, p11);
    lemma_part(f, a9, p10);
    lemma_part(f, a8, p9);
    lemma_part(f, a7, p8);
    lemma_part(f, a6, p7);
    lemma_part(f, a5, p6);
    lemma_part(f, a4, p5);
    lemma_part(f, a3, p4);
    lemma_part(f, a2, p3);
    lemma_part(f, a1, p2);
    lemma_part(f, a0, p1);
    let n0 = a0.len() as int;
    let n1 = a1.len() as int;
    let n2 = a2.len() as int;
    let n3 = a3.len() as int;
    let n4 = a4.len() as int;
    let n5 = a5.len() as int;
    let n6 = a6.len() as int;
    let n7 = a7.len() as int;
    let n8 = a8.len() as int;
    let n9 = a9.len() as int;
    let n10 = a10.len() as int;
    let n11 = a11.len() as int;
    let n12 = a12.len() as int;
    let n13 = a13.len() as int;
    let n14 = a14.len() as int;
    assert(f[0] == m.id && f[1] == m.version) by {
        lemma_beginning(f, a0);
    }
    assert(number(m.version) >= 3 ==> f[n0] == m.req_id) by {
        reveal(stands);
        if number(m.version) >= 3 {
            assert(p1[0] == m.req_id);
        }
    }
    assert({
        &&& f[n1] == m.symbol
        &&& f[n1 + 1] == m.sec_type
        &&& f[n1 + 2] == m.date
        &&& f[n1 + 3] == m.strike
        &&& f[n1 + 4] == m.right
        &&& f[n1 + 5] == m.exchange
        &&& f[n1 + 6] == m.currency
        &&& f[n1 + 7] == m.local_symbol
        &&& f[n1 + 8] == m.market_name
        &&& f[n1 + 9] == m.trading_class
        &&& f[n1 + 10] == m.con_id
        &&& f[n1 + 11] == m.min_tick
    }) by {
        reveal(stands);
        assert(p2[0] == m.symbol);
        assert(p2[1] == m.sec_type);
        assert(p2[2] == m.date);
        assert(p2[3] == m.strike);
        assert(p2[4] == m.right);
        assert(p2[5] == m.exchange);
        assert(p2[6] == m.currency);
        assert(p2[7] == m.local_symbol);
        assert(p2[8] == m.market_name);
        assert(p2[9] == m.trading_class);
        assert(p2[10] == m.con_id);
        assert(p2[11] == m.min_tick);
    }
    assert(server_version >= MIN_SERVER_VER_MD_SIZE_MULTIPLIER ==> {
        &&& f[n2] == m.md_size_multiplier
    }) by {
        reveal(stands);
        if server_version >= MIN_SERVER_VER_MD_SIZE_MULTIPLIER {
            assert(p3[0] == m.md_size_multiplier);
        }
    }
    assert({
        &&& f[n3] == m.multiplier
        &&& f[n3 + 1] == m.order_types
        &&& f[n3 + 2] == m.valid_exchanges
        &&& f[n3 + 3] == m.price_magnifier
    }) by {
        reveal(stands);
        assert(p4[0] == m.multiplier);
        assert(p4[1] == m.order_types);
        assert(p4[2] == m.valid_exchanges);
        assert(p4[3] == m.price_magnifier);
    }
    assert(number(m.version) >= 4 ==> f[n4] == m.under_con_id) by {
        reveal(stands);
        if number(m.version) >= 4 {
            assert(p5[0] == m.under_con_id);
        }
    }
    assert(number(m.version) >= 5 ==> f[n5] == m.long_name && f[n5 + 1] == m.primary_exchange) by {
        reveal(stands);
        if number(m.version) >= 5 {
            assert(p6[0] == m.long_name);
            assert(p6[1] == m.primary_exchange);
        }
    }
    assert(number(m.version) >= 6 ==> {
        &&& f[n6] == m.contract_month
        &&& f[n6 + 1] == m.industry
        &&& f[n6 + 2] == m.category
        &&& f[n6 + 3] == m.subcategory
        &&& f[n6 + 4] == m.time_zone_id
        &&& f[n6 + 5] == m.trading_hours
        &&& f[n6 + 6] == m.liquid_hours
    }) by {
        reveal(stands);
        if number(m.version) >= 6 {
            assert(p7[0] == m.contract_month);
            assert(p7[1] == m.industry);
            assert(p7[2] == m.category);
            assert(p7[3] == m.subcategory);
            assert(p7[4] == m.time_zone_id);
            assert(p7[5] == m.trading_hours);
            assert(p7[6] == m.liquid_hours);
        }
    }
    assert(number(m.version) >= 8 ==> f[n7] == m.ev_rule && f[n7 + 1] == m.ev_multiplier) by {
        reveal(stands);
        if number(m.version) >= 8 {
            assert(p8[0] == m.ev_rule);
            assert(p8[1] == m.ev_multiplier);
        }
    }
    assert(number(m.version) >= 7 ==> f[n8] == m.sec_id_count) by {
        reveal(stands);
        if number(m.version) >= 7 {
            assert(p9[0] == m.sec_id_count);
        }
    }
    assert(server_version >= MIN_SERVER_VER_AGG_GROUP ==> f[n10] == m.agg_group) by {
        reveal(stands);
        if server_version >= MIN_SERVER_VER_AGG_GROUP {
            assert(p11[0] == m.agg_group);
        }
    }
    assert(server_version >= MIN_SERVER_VER_UNDERLYING_INFO ==> {
        &&& f[n11] == m.under_symbol
        &&& f[n11 + 1] == m.under_sec_type
    }) by {
        reveal(stands);
        if server_version >= MIN_SERVER_VER_UNDERLYING_INFO {
            assert(p12[0] == m.under_symbol);
            assert(p12[1] == m.under_sec_type);
        }
    }
    assert(server_version >= MIN_SERVER_VER_MARKET_RULES ==> f[n12] == m.market_rule_ids) by {
        reveal(stands);
        if server_version >= MIN_SERVER_VER_MARKET_RULES {
            assert(p13[0] == m.market_rule_ids);
        }
    }
    assert(server_version >= MIN_SERVER_VER_REAL_EXPIRATION_DATE ==> {
        &&& f[n13] == m.real_expiration_date
    }) by {
        reveal(stands);
        if server_version >= MIN_SERVER_VER_REAL_EXPIRATION_DATE {
            assert(p14[0] == m.real_expiration_date);
        }
    }
    let l = contract_details_layout(server_version, f);
    assert(l.symbol == n1);
    assert(l.multiplier == n3);
    assert(l.long_name == n5);
    assert(l.contract_month == n6);
    assert(l.ev_rule == n7);
    assert(l.sec_id_count == n8);
    assert(l.agg_group == n10);
    assert(l.under_symbol == n11);
    assert(l.market_rule_ids == n12);
    assert(l.real_expiration_date == n13);
    assert(l.end == n14);
    if number(m.version) >= 7 {
        assert(tag_values(f, l.sec_id_count + 1, m.sec_ids.len()) == m.sec_ids) by {
            reveal(stands);
            let before = f.take(l.sec_id_count + 1);
            let after = f.skip(l.sec_id_count + 1 + 2 * m.sec_ids.len());
            assert(f =~= before + tags_written(m.sec_ids) + after);
            lemma_tags(before, m.sec_ids, after);
        }
    }
    lemma_kind(server_version, f, IncomingMessageIds::ContractData, r);
}

/// A message on a bond, field by field.
pub struct BondFields {
    pub id: String,
    pub version: String,
    pub req_id: String,
    pub symbol: String,
    pub sec_type: String,
    pub cusip: String,
    pub coupon: String,
    pub date: String,
    pub issue_date: String,
    pub ratings: String,
    pub bond_type: String,
    pub coupon_type: String,
    pub convertible: String,
    pub callable: String,
    pub putable: String,
    pub desc_append: String,
    pub exchange: String,
    pub currency: String,
    pub market_name: String,
    pub trading_class: String,
    pub con_id: String,
    pub min_tick: String,
    pub md_size_multiplier: String,
    pub order_types: String,
    pub valid_exchanges: String,
    pub next_option_date: String,
    pub next_option_type: String,
    pub next_option_partial: String,
    pub notes: String,
    pub long_name: String,
    pub ev_rule: String,
    pub ev_multiplier: String,
    pub sec_id_count: String,
    pub agg_group: String,
    pub market_rule_ids: String,
    pub sec_ids: Seq<TagValue>,
}

impl BondFields {
    /// The message as a server sends it: the later a field was introduced, the newer the message or
    /// the server has to be for it.
    pub open spec fn written(self, server_version: i32) -> Seq<String> {
        seq![self.id, self.version]
            + sent_if(number(self.version) >= 3, seq![self.req_id])
            + seq![
                self.symbol,
                self.sec_type,
                self.cusip,
                self.coupon,
                self.date,
                self.issue_date,
                self.ratings,
                self.bond_type,
                self.coupon_type,
                self.convertible,
                self.callable,
                self.putable,
                self.desc_append,
                self.exchange,
                self.currency,
                self.market_name,
                self.trading_class,
                self.con_id,
                self.min_tick,
            ]
            + sent_if(
                server_version >= MIN_SERVER_VER_MD_SIZE_MULTIPLIER,
                seq![self.md_size_multiplier],
            )
            + seq![self.order_types, self.valid_exchanges]
            + sent_if(number(self.version) >= 2, seq![
                self.next_option_date,
                self.next_option_type,
                self.next_option_partial,
                self.notes,
            ])
            + sent_if(number(self.version) >= 4, seq![self.long_name])
            + sent_if(number(self.version) >= 6, seq![self.ev_rule, self.ev_multiplier])
            + sent_if(number(self.version) >= 5, seq![self.sec_id_count])
            + sent_if(number(self.version) >= 5, tags_written(self.sec_ids))
            + sent_if(server_version >= MIN_SERVER_VER_AGG_GROUP, seq![self.agg_group])
            + sent_if(server_version >= MIN_SERVER_VER_MARKET_RULES, seq![self.market_rule_ids])
    }

    /// Whether `e` tells of the bond each value under its own name, and nothing that was not sent.
    pub open spec fn told(self, server_version: i32, e: Event) -> bool {
        e matches Event::BondContractDetails { req_id, details } && {
            &&& req_id == if number(self.version) >= 3 {
                number(self.req_id)
            } else {
                (-1) as i32
            }
            &&& details.contract.con_id == number(self.con_id)
            &&& details.contract.symbol@ == self.symbol@
            &&& details.contract.sec_type@ == self.sec_type@
            &&& details.contract.strike == Double::Whole(0)
            &&& details.contract.right@ == Seq::<char>::empty()
            &&& details.contract.multiplier@ == Seq::<char>::empty()
            &&& details.contract.exchange@ == self.exchange@
            &&& details.contract.primary_exchange@ == Seq::<char>::empty()
            &&& details.contract.currency@ == self.currency@
            &&& details.contract.local_symbol@ == Seq::<char>::empty()
            &&& details.contract.trading_class@ == self.trading_class@
            &&& details.market_name@ == self.market_name@
            &&& details.min_tick == Double::Parsed(self.min_tick)
            &&& details.order_types@ == self.order_types@
            &&& details.valid_exchanges@ == self.valid_exchanges@
            &&& details.price_magnifier == 0
            &&& details.under_con_id == 0
            &&& details.long_name@ == text_sent(number(self.version) >= 4, self.long_name)
            &&& details.contract_month@ == Seq::<char>::empty()
            &&& details.industry@ == Seq::<char>::empty()
            &&& details.category@ == Seq::<char>::empty()
            &&& details.subcategory@ == Seq::<char>::empty()
            &&& details.trading_hours@ == Seq::<char>::empty()
            &&& details.liquid_hours@ == Seq::<char>::empty()
            &&& details.ev_rule@ == text_sent(number(self.version) >= 6, self.ev_rule)
            &&& details.ev_multiplier == double_sent(number(self.version) >= 6, self.ev_multiplier)
            &&& details.md_size_multiplier == number_sent(
                server_version >= MIN_SERVER_VER_MD_SIZE_MULTIPLIER,
                self.md_size_multiplier,
            )
            &&& details.agg_group == number_sent(
                server_version >= MIN_SERVER_VER_AGG_GROUP,
                self.agg_group,
            )
            &&& details.under_symbol@ == Seq::<char>::empty()
            &&& details.under_sec_type@ == Seq::<char>::empty()
            &&& details.market_rule_ids@ == text_sent(
                server_version >= MIN_SERVER_VER_MARKET_RULES,
                self.market_rule_ids,
            )
            &&& details.real_expiration_date@ == Seq::<char>::empty()
            &&& details.cusip@ == self.cusip@
            &&& details.ratings@ == self.ratings@
            &&& details.desc_append@ == self.desc_append@
            &&& details.bond_type@ == self.bond_type@
            &&& details.coupon_type@ == self.coupon_type@
            &&& details.callable == (number(self.callable) != 0)
            &&& details.putable == (number(self.putable) != 0)
            &&& details.coupon == Double::Parsed(self.coupon)
            &&& details.convertible == (number(self.convertible) != 0)
            &&& details.issue_date@ == self.issue_date@
            &&& details.next_option_date@ == text_sent(
                number(self.version) >= 2,
                self.next_option_date,
            )
            &&& details.next_option_type@ == text_sent(
                number(self.version) >= 2,
                self.next_option_type,
            )
            &&& details.next_option_partial == (number(self.version) >= 2
                && number(self.next_option_partial) != 0)
            &&& details.notes@ == text_sent(number(self.version) >= 2, self.notes)
            &&& details.contract.last_trade_date_or_contract_month@ == Seq::<char>::empty()
            &&& details.maturity@ == word(self.date@, 0)
            &&& details.last_trade_time@ == word(self.date@, 1)
            &&& details.time_zone_id@ == word(self.date@, 2)
            &&& details.sec_id_list@ == if number(self.version) >= 5 {
                self.sec_ids
            } else {
                seq![]
            }
        }
    }
}

/// A bond whose flags are integers is told as it was written.
pub proof fn lemma_bond(server_version: i32, m: BondFields, r: Interpretation)
    requires
        writes(m.id, 18),
        integer_i32(m.convertible@) is Some,
        integer_i32(m.callable@) is Some,
        integer_i32(m.putable@) is Some,
        number(m.version) >= 5 ==> counts(m.sec_id_count, m.sec_ids.len()),
        is_any_interpretation(server_version, m.written(server_version), r),
    ensures
        r.ending is Done,
        r.events@.len() == 1,
        m.told(server_version, r.events@[0]),
{
    let f = m.written(server_version);
    lemma_all(f);
    lemma_bond_read(server_version, m, f, r);
}

/// What is read of the fields of such a message.
#[verifier::spinoff_prover]
#[verifier::rlimit(60)]
proof fn lemma_bond_read(
    server_version: i32,
    m: BondFields,
    f: Seq<String>,
    r: Interpretation,
)
    requires
        writes(m.id, 18),
        integer_i32(m.convertible@) is Some,
        integer_i32(m.callable@) is Some,
        integer_i32(m.putable@) is Some,
        number(m.version) >= 5 ==> counts(m.sec_id_count, m.sec_ids.len()),
        begins(f, m.written(server_version)),
        f.len() == m.written(server_version).len(),
        is_any_interpretation(server_version, f, r),
    ensures
        r.ending is Done,
        r.events@.len() == 1,
        m.told(server_version, r.events@[0]),
{
    lemma_tags(seq![], m.sec_ids, seq![]);
    let a0 = seq![m.id, m.version];
    let p1 = sent_if(number(m.version) >= 3, seq![m.req_id]);
    let a1 = a0 + p1;
    let p2 = seq![
            m.symbol,
            m.sec_type,
            m.cusip,
            m.coupon,
            m.date,
            m.issue_date,
            m.ratings,
            m.bond_type,
            m.coupon_type,
            m.convertible,
            m.callable,
            m.putable,
            m.desc_append,
            m.exchange,
            m.currency,
            m.market_name,
            m.trading_class,
            m.con_id,
            m.min_tick,
        ];
    let a2 = a1 + p2;
    let p3 = sent_if(
        server_version >= MIN_SERVER_VER_MD_SIZE_MULTIPLIER,
        seq![m.md_size_multiplier],
    );
    let a3 = a2 + p3;
    let p4 = seq![m.order_types, m.valid_exchanges];
    let a4 = a3 + p4;
    let p5 = sent_if(number(m.version) >= 2, seq![
            m.next_option_date,
            m.next_option_type,
            m.next_option_partial,
            m.notes,
        ]);
    let a5 = a4 + p5;
    let p6 = sent_if(number(m.version) >= 4, seq![m.long_name]);
    let a6 = a5 + p6;
    let p7 = sent_if(number(m.version) >= 6, seq![m.ev_rule, m.ev_multiplier]);
    let a7 = a6 + p7;
    let p8 = sent_if(number(m.version) >= 5, seq![m.sec_id_count]);
    let a8 = a7 + p8;
    let p9 = sent_if(number(m.version) >= 5, tags_written(m.sec_ids));
    let a9 = a8 + p9;
    let p10 = sent_if(server_version >= MIN_SERVER_VER_AGG_GROUP, seq![m.agg_group]);
    let a10 = a9 + p10;
    let p11 = sent_if(server_version >= MIN_SERVER_VER_MARKET_RULES, seq![m.market_rule_ids]);
    let a11 = a10 + p11;
    lemma_part(f, a10, p11);
    lemma_part(f, a9, p10);
    lemma_part(f, a8, p9);
    lemma_part(f, a7, p8);
    lemma_part(f, a6, p7);
    lemma_part(f, a5, p6);
    lemma_part(f, a4, p5);
    lemma_part(f, a3, p4);
    lemma_part(f, a2, p3);
    lemma_part(f, a1, p2);
    lemma_part(f, a0, p1);
    let n0 = a0.len() as int;
    let n1 = a1.len() as int;
    let n2 = a2.len() as int;
    let n3 = a3.len() as int;
    let n4 = a4.len() as int;
    let n5 = a5.len() as int;
    let n6 = a6.len() as int;
    let n7 = a7.len() as int;
    let n8 = a8.len() as int;
    let n9 = a9.len() as int;
    let n10 = a10.len() as int;
    let n11 = a11.len() as int;
    assert(f[0] == m.id && f[1] == m.version) by {
        lemma_beginning(f, a0);
    }
    assert(number(m.version) >= 3 ==> f[n0] == m.req_id) by {
        reveal(stands);
        if number(m.version) >= 3 {
            assert(p1[0] == m.req_id);
        }
    }
    assert({
        &&& f[n1] == m.symbol
        &&& f[n1 + 1] == m.sec_type
        &&& f[n1 + 2] == m.cusip
        &&& f[n1 + 3] == m.coupon
        &&& f[n1 + 4] == m.date
        &&& f[n1 + 5] == m.issue_date
        &&& f[n1 + 6] == m.ratings
        &&& f[n1 + 7] == m.bond_type
        &&& f[n1 + 8] == m.coupon_type
        &&& f[n1 + 9] == m.convertible
        &&& f[n1 + 10] == m.callable
        &&& f[n1 + 11] == m.putable
        &&& f[n1 + 12] == m.desc_append
        &&& f[n1 + 13] == m.exchange
        &&& f[n1 + 14] == m.currency
        &&& f[n1 + 15] == m.market_name
        &&& f[n1 + 16] == m.trading_class
        &&& f[n1 + 17] == m.con_id
        &&& f[n1 + 18] == m.min_tick
    }) by {
        reveal(stands);
        assert(p2[0] == m.symbol);
        assert(p2[1] == m.sec_type);
        assert(p2[2] == m.cusip);
        assert(p2[3] == m.coupon);
        assert(p2[4] == m.date);
        assert(p2[5] == m.issue_date);
        assert(p2[6] == m.ratings);
        assert(p2[7] == m.bond_type);
        assert(p2[8] == m.coupon_type);
        assert(p2[9] == m.convertible);
        assert(p2[10] == m.callable);
        assert(p2[11] == m.putable);
        assert(p2[12] == m.desc_append);
        assert(p2[13] == m.exchange);
        assert(p2[14] == m.currency);
        assert(p2[15] == m.market_name);
        assert(p2[16] == m.trading_class);
        assert(p2[17] == m.con_id);
        assert(p2[18] == m.min_tick);
    }
    assert(server_version >= MIN_SERVER_VER_MD_SIZE_MULTIPLIER ==> {
        &&& f[n2] == m.md_size_multiplier
    }) by {
        reveal(stands);
        if server_version >= MIN_SERVER_VER_MD_SIZE_MULTIPLIER {
            assert(p3[0] == m.md_size_multiplier);
        }
    }
    assert(f[n3] == m.order_types && f[n3 + 1] == m.valid_exchanges) by {
        reveal(stands);
        assert(p4[0] == m.order_types);
        assert(p4[1] == m.valid_exchanges);
    }
    assert(number(m.version) >= 2 ==> {
        &&& f[n4] == m.next_option_date
        &&& f[n4 + 1] == m.next_option_type
        &&& f[n4 + 2] == m.next_option_partial
        &&& f[n4 + 3] == m.notes
    }) by {
        reveal(stands);
        if number(m.version) >= 2 {
            assert(p5[0] == m.next_option_date);
            assert(p5[1] == m.next_option_type);
            assert(p5[2] == m.next_option_partial);
            assert(p5[3] == m.notes);
        }
    }
    assert(number(m.version) >= 4 ==> f[n5] == m.long_name) by {
        reveal(stands);
        if number(m.version) >= 4 {
            assert(p6[0] == m.long_name);
        }
    }
    assert(number(m.version) >= 6 ==> f[n6] == m.ev_rule && f[n6 + 1] == m.ev_multiplier) by {
        reveal(stands);
        if number(m.version) >= 6 {
            assert(p7[0] == m.ev_rule);
            assert(p7[1] == m.ev_multiplier);
        }
    }
    assert(number(m.version) >= 5 ==> f[n7] == m.sec_id_count) by {
        reveal(stands);
        if number(m.version) >= 5 {
            assert(p8[0] == m.sec_id_count);
        }
    }
    assert(server_version >= MIN_SERVER_VER_AGG_GROUP ==> f[n9] == m.agg_group) by {
        reveal(stands);
        if server_version >= MIN_SERVER_VER_AGG_GROUP {
            assert(p10[0] == m.agg_group);
        }
    }
    assert(server_version >= MIN_SERVER_VER_MARKET_RULES ==> f[n10] == m.market_rule_ids) by {
        reveal(stands);
        if server_version >= MIN_SERVER_VER_MARKET_RULES {
            assert(p11[0] == m.market_rule_ids);
        }
    }
    let l = bond_layout(server_version, f);
    assert(l.symbol == n1);
    assert(l.order_types == n3);
    assert(l.long_name == n5);
    assert(l.ev_rule == n6);
    assert(l.sec_id_count == n7);
    assert(l.agg_group == n9);
    assert(l.market_rule_ids == n10);
    assert(l.end == n11);
    if number(m.version) >= 5 {
        assert(tag_values(f, l.sec_id_count + 1, m.sec_ids.len()) == m.sec_ids) by {
            reveal(stands);
            let before = f.take(l.sec_id_count + 1);
            let after = f.skip(l.sec_id_count + 1 + 2 * m.sec_ids.len());
            assert(f =~= before + tags_written(m.sec_ids) + after);
            lemma_tags(before, m.sec_ids, after);
        }
    }
    lemma_kind(server_version, f, IncomingMessageIds::BondContractData, r);
}

/// Where a flag of a bond is no integer, the first such flag is the error.
pub proof fn lemma_bond_wrong_flag(server_version: i32, m: BondFields, r: Interpretation)
    requires
        writes(m.id, 18),
        is_any_interpretation(server_version, m.written(server_version), r),
        integer_i32(m.convertible@) is None || integer_i32(m.callable@) is None || integer_i32(
            m.putable@,
        ) is None,
    ensures
        r.events@.len() == 0,
        r.ending == Ending::Failed(
            IBKRApiLibError::ParseInt(
                if integer_i32(m.convertible@) is None {
                    m.convertible
                } else if integer_i32(m.callable@) is None {
                    m.callable
                } else {
                    m.putable
                },
            ),
        ),
{
    let f = m.written(server_version);
    lemma_all(f);
    lemma_bond_wrong_flag_read(server_version, m, f, r);
}

/// What is read of the fields of such a message.
#[verifier::spinoff_prover]
#[verifier::rlimit(40)]
proof fn lemma_bond_wrong_flag_read(
    server_version: i32,
    m: BondFields,
    f: Seq<String>,
    r: Interpretation,
)
    requires
        writes(m.id, 18),
        begins(f, m.written(server_version)),
        is_any_interpretation(server_version, f, r),
        integer_i32(m.convertible@) is None || integer_i32(m.callable@) is None || integer_i32(
            m.putable@,
        ) is None,
    ensures
        r.events@.len() == 0,
        r.ending == Ending::Failed(
            IBKRApiLibError::ParseInt(
                if integer_i32(m.convertible@) is None {
                    m.convertible
                } else if integer_i32(m.callable@) is None {
                    m.callable
                } else {
                    m.putable
                },
            ),
        ),
{
    let a0 = seq![m.id, m.version];
    let p1 = sent_if(number(m.version) >= 3, seq![m.req_id]);
    let a1 = a0 + p1;
    let p2 = seq![
            m.symbol,
            m.sec_type,
            m.cusip,
            m.coupon,
            m.date,
            m.issue_date,
            m.ratings,
            m.bond_type,
            m.coupon_type,
            m.convertible,
            m.callable,
            m.putable,
            m.desc_append,
            m.exchange,
            m.currency,
            m.market_name,
            m.trading_class,
            m.con_id,
            m.min_tick,
        ];
    let a2 = a1 + p2;
    let p3 = sent_if(
        server_version >= MIN_SERVER_VER_MD_SIZE_MULTIPLIER,
        seq![m.md_size_multiplier],
    );
    let a3 = a2 + p3;
    let p4 = seq![m.order_types, m.valid_exchanges];
    let a4 = a3 + p4;
    let p5 = sent_if(number(m.version) >= 2, seq![
            m.next_option_date,
            m.next_option_type,
            m.next_option_partial,
            m.notes,
        ]);
    let a5 = a4 + p5;
    let p6 = sent_if(number(m.version) >= 4, seq![m.long_name]);
    let a6 = a5 + p6;
    let p7 = sent_if(number(m.version) >= 6, seq![m.ev_rule, m.ev_multiplier]);
    let a7 = a6 + p7;
    let p8 = sent_if(number(m.version) >= 5, seq![m.sec_id_count]);
    let a8 = a7 + p8;
    let p9 = sent_if(number(m.version) >= 5, tags_written(m.sec_ids));
    let a9 = a8 + p9;
    let p10 = sent_if(server_version >= MIN_SERVER_VER_AGG_GROUP, seq![m.agg_group]);
    let a10 = a9 + p10;
    let p11 = sent_if(server_version >= MIN_SERVER_VER_MARKET_RULES, seq![m.market_rule_ids]);
    let a11 = a10 + p11;
    lemma_part(f, a10, p11);
    lemma_part(f, a9, p10);
    lemma_part(f, a8, p9);
    lemma_part(f, a7, p8);
    lemma_part(f, a6, p7);
    lemma_part(f, a5, p6);
    lemma_part(f, a4, p5);
    lemma_part(f, a3, p4);
    lemma_part(f, a2, p3);
    lemma_part(f, a1, p2);
    lemma_part(f, a0, p1);
    let n0 = a0.len() as int;
    let n1 = a1.len() as int;
    let n2 = a2.len() as int;
    let n3 = a3.len() as int;
    let n4 = a4.len() as int;
    let n5 = a5.len() as int;
    let n6 = a6.len() as int;
    let n7 = a7.len() as int;
    let n8 = a8.len() as int;
    let n9 = a9.len() as int;
    let n10 = a10.len() as int;
    let n11 = a11.len() as int;
    assert(f[0] == m.id && f[1] == m.version) by {
        lemma_beginning(f, a0);
    }
    assert(number(m.version) >= 3 ==> f[n0] == m.req_id) by {
        reveal(stands);
        if number(m.version) >= 3 {
            assert(p1[0] == m.req_id);
        }
    }
    assert({
        &&& f[n1] == m.symbol
        &&& f[n1 + 1] == m.sec_type
        &&& f[n1 + 2] == m.cusip
        &&& f[n1 + 3] == m.coupon
        &&& f[n1 + 4] == m.date
        &&& f[n1 + 5] == m.issue_date
        &&& f[n1 + 6] == m.ratings
        &&& f[n1 + 7] == m.bond_type
        &&& f[n1 + 8] == m.coupon_type
        &&& f[n1 + 9] == m.convertible
        &&& f[n1 + 10] == m.callable
        &&& f[n1 + 11] == m.putable
        &&& f[n1 + 12] == m.desc_append
        &&& f[n1 + 13] == m.exchange
        &&& f[n1 + 14] == m.currency
        &&& f[n1 + 15] == m.market_name
        &&& f[n1 + 16] == m.trading_class
        &&& f[n1 + 17] == m.con_id
        &&& f[n1 + 18] == m.min_tick
    }) by {
        reveal(stands);
        assert(p2[0] == m.symbol);
        assert(p2[1] == m.sec_type);
        assert(p2[2] == m.cusip);
        assert(p2[3] == m.coupon);
        assert(p2[4] == m.date);
        assert(p2[5] == m.issue_date);
        assert(p2[6] == m.ratings);
        assert(p2[7] == m.bond_type);
        assert(p2[8] == m.coupon_type);
        assert(p2[9] == m.convertible);
        assert(p2[10] == m.callable);
        assert(p2[11] == m.putable);
        assert(p2[12] == m.desc_append);
        assert(p2[13] == m.exchange);
        assert(p2[14] == m.currency);
        assert(p2[15] == m.market_name);
        assert(p2[16] == m.trading_class);
        assert(p2[17] == m.con_id);
        assert(p2[18] == m.min_tick);
    }
    assert(server_version >= MIN_SERVER_VER_MD_SIZE_MULTIPLIER ==> {
        &&& f[n2] == m.md_size_multiplier
    }) by {
        reveal(stands);
        if server_version >= MIN_SERVER_VER_MD_SIZE_MULTIPLIER {
            assert(p3[0] == m.md_size_multiplier);
        }
    }
    assert(f[n3] == m.order_types && f[n3 + 1] == m.valid_exchanges) by {
        reveal(stands);
        assert(p4[0] == m.order_types);
        assert(p4[1] == m.valid_exchanges);
    }
    assert(number(m.version) >= 2 ==> {
        &&& f[n4] == m.next_option_date
        &&& f[n4 + 1] == m.next_option_type
        &&& f[n4 + 2] == m.next_option_partial
        &&& f[n4 + 3] == m.notes
    }) by {
        reveal(stands);
        if number(m.version) >= 2 {
            assert(p5[0] == m.next_option_date);
            assert(p5[1] == m.next_option_type);
            assert(p5[2] == m.next_option_partial);
            assert(p5[3] == m.notes);
        }
    }
    assert(number(m.version) >= 4 ==> f[n5] == m.long_name) by {
        reveal(stands);
        if number(m.version) >= 4 {
            assert(p6[0] == m.long_name);
        }
    }
    assert(number(m.version) >= 6 ==> f[n6] == m.ev_rule && f[n6 + 1] == m.ev_multiplier) by {
        reveal(stands);
        if number(m.version) >= 6 {
            assert(p7[0] == m.ev_rule);
            assert(p7[1] == m.ev_multiplier);
        }
    }
    assert(number(m.version) >= 5 ==> f[n7] == m.sec_id_count) by {
        reveal(stands);
        if number(m.version) >= 5 {
            assert(p8[0] == m.sec_id_count);
        }
    }
    assert(server_version >= MIN_SERVER_VER_AGG_GROUP ==> f[n9] == m.agg_group) by {
        reveal(stands);
        if server_version >= MIN_SERVER_VER_AGG_GROUP {
            assert(p10[0] == m.agg_group);
        }
    }
    assert(server_version >= MIN_SERVER_VER_MARKET_RULES ==> f[n10] == m.market_rule_ids) by {
        reveal(stands);
        if server_version >= MIN_SERVER_VER_MARKET_RULES {
            assert(p11[0] == m.market_rule_ids);
        }
    }
    IncomingMessageIds::BondContractData.lemma_code(18);
    assert(bond_layout(server_version, f).symbol == n1);
}

/// The end of the contracts is told as it was written.
pub proof fn lemma_contract_details_end(
    server_version: i32,
    id: String,
    version: String,
    req_id: String,
    r: Interpretation,
)
    requires
        writes(id, 52),
        is_any_interpretation(server_version, seq![id, version, req_id], r),
    ensures
        r.ending is Done,
        r.events@ == seq![Event::ContractDetailsEnd { req_id: number(req_id) }],
{
    lemma_kind(server_version, seq![id, version, req_id], IncomingMessageIds::ContractDataEnd, r);
}

/// A delta neutral contract is told as it was written.
pub proof fn lemma_delta_neutral_validation(
    server_version: i32,
    id: String,
    version: String,
    req_id: String,
    con_id: String,
    delta: String,
    price: String,
    r: Interpretation,
)
    requires
        writes(id, 56),
        is_any_interpretation(
            server_version,
            seq![id, version, req_id, con_id, delta, price],
            r,
        ),
    ensures
        r.ending is Done,
        r.events@ == seq![
            Event::DeltaNeutralValidation {
                req_id: number(req_id),
                delta_neutral_contract: DeltaNeutralContract {
                    con_id: number(con_id),
                    delta: Double::Parsed(delta),
                    price: Double::Parsed(price),
                },
            },
        ],
{
    let f = seq![id, version, req_id, con_id, delta, price];
    lemma_kind(server_version, f, IncomingMessageIds::DeltaNeutralValidation, r);
}

} // verus!
