//! Messages on contracts.
use crate::decoder::Decoder;
use crate::errors::IBKRApiLibError;
use crate::event::Event;
use crate::fields::{count_at, double_at, double_if, fields_if, int_at, int_if, text_if, Reader};
use crate::server_versions::{
    MIN_SERVER_VER_AGG_GROUP, MIN_SERVER_VER_MARKET_RULES, MIN_SERVER_VER_MD_SIZE_MULTIPLIER,
    MIN_SERVER_VER_REAL_EXPIRATION_DATE, MIN_SERVER_VER_UNDERLYING_INFO,
};
use crate::text::{integer_i32, split_words, texts, words};
use crate::types::{
    Contract, ContractDetails, ContractDetailsView, ContractView,
    DeltaNeutralContract, TagValue,
};
use vstd::prelude::*;

verus! {

/// `details` with a date that was read as `words`: the day, which is the maturity of a bond and
/// the last trading day of any other contract, then the time of day, and for a bond its zone.
/// What is missing stays as it is.
pub open spec fn dated(
    details: ContractDetailsView,
    is_bond: bool,
    words: Seq<Seq<char>>,
) -> ContractDetailsView {
    ContractDetailsView {
        maturity: if is_bond && words.len() > 0 {
            words[0]
        } else {
            details.maturity
        },
        contract: ContractView {
            last_trade_date_or_contract_month: if !is_bond && words.len() > 0 {
                words[0]
            } else {
                details.contract.last_trade_date_or_contract_month
            },
            ..details.contract
        },
        last_trade_time: if words.len() > 1 {
            words[1]
        } else {
            details.last_trade_time
        },
        time_zone_id: if is_bond && words.len() > 2 {
            words[2]
        } else {
            details.time_zone_id
        },
        ..details
    }
}

/// A date enters its words in their places: the day of a bond as its maturity, that of any other
/// contract as its last trading day, the second word as the time of day, and for a bond the third
/// one as the zone. What there is no word for stays, and so does all the rest. A date without words
/// changes nothing, and a date that is entered twice is entered once.
pub proof fn lemma_dated(details: ContractDetailsView, is_bond: bool, words: Seq<Seq<char>>)
    ensures
        ({
            let after = dated(details, is_bond, words);
            let day = details.contract.last_trade_date_or_contract_month;
            &&& after.maturity == if is_bond && words.len() > 0 {
                words[0]
            } else {
                details.maturity
            }
            &&& after.contract.last_trade_date_or_contract_month == if !is_bond && words.len() > 0 {
                words[0]
            } else {
                day
            }
            &&& after.last_trade_time == if words.len() > 1 {
                words[1]
            } else {
                details.last_trade_time
            }
            &&& after.time_zone_id == if is_bond && words.len() > 2 {
                words[2]
            } else {
                details.time_zone_id
            }
            &&& ContractDetailsView {
                maturity: details.maturity,
                contract: ContractView {
                    last_trade_date_or_contract_month: day,
                    ..after.contract
                },
                last_trade_time: details.last_trade_time,
                time_zone_id: details.time_zone_id,
                ..after
            } == details
        }),
        words.len() == 0 ==> dated(details, is_bond, words) == details,
        dated(dated(details, is_bond, words), is_bond, words) == dated(details, is_bond, words),
{
}

/// The list of names and values that starts at field `start`.
pub open spec fn tag_values(f: Seq<String>, start: int, n: nat) -> Seq<TagValue> {
    Seq::new(n, |i: int| TagValue { tag: f[start + 2 * i], value: f[start + 2 * i + 1] })
}

/// Reads a list of `n` names and values.
fn read_tag_values(reader: &mut Reader, n: i32) -> (r: Option<Vec<TagValue>>)
    requires
        old(reader).wf(),
    ensures
        final(reader).wf(),
        final(reader).all() == old(reader).all(),
        ({
            let count = if n > 0 {
                n as nat
            } else {
                0
            };
            let end = old(reader).at() + 2 * count;
            &&& end <= old(reader).all().len() ==> {
                &&& r is Some
                &&& r->0@ == tag_values(old(reader).all(), old(reader).at(), count)
                &&& final(reader).at() == end
            }
            &&& end > old(reader).all().len() ==> r is None
        }),
{
    let mut list: Vec<TagValue> = Vec::new();
    let mut i: i32 = 0;
    let ghost f = reader.all();
    let ghost start = reader.at();
    while i < n
        invariant
            reader.wf(),
            reader.all() == f,
            0 <= i,
            i <= n || i == 0,
            reader.at() == start + 2 * i,
            start == old(reader).at(),
            f == old(reader).all(),
            list@ == tag_values(f, start, i as nat),
        decreases n - i,
    {
        let tag = reader.next_text()?;
        let value = reader.next_text()?;
        list.push(TagValue { tag, value });
        i = i + 1;
    }
    Some(list)
}

/// Where the parts of a message on a contract begin: those that come after an optional one.
pub struct ContractDetailsLayout {
    pub symbol: int,
    pub multiplier: int,
    pub long_name: int,
    pub contract_month: int,
    pub ev_rule: int,
    pub sec_id_count: int,
    pub agg_group: int,
    pub under_symbol: int,
    pub market_rule_ids: int,
    pub real_expiration_date: int,
    pub end: int,
}

/// The layout of a message on a contract.
pub open spec fn contract_details_layout(
    server_version: i32,
    f: Seq<String>,
) -> ContractDetailsLayout {
    let version = int_at(f, 1);
    let symbol = 2 + fields_if(version >= 3, 1);
    let multiplier = symbol + 12 + fields_if(
        server_version >= MIN_SERVER_VER_MD_SIZE_MULTIPLIER,
        1,
    );
    let long_name = multiplier + 4 + fields_if(version >= 4, 1);
    let contract_month = long_name + fields_if(version >= 5, 2);
    let ev_rule = contract_month + fields_if(version >= 6, 7);
    let sec_id_count = ev_rule + fields_if(version >= 8, 2);
    let agg_group = sec_id_count + fields_if(version >= 7, 1 + 2 * count_at(f, sec_id_count));
    let under_symbol = agg_group + fields_if(server_version >= MIN_SERVER_VER_AGG_GROUP, 1);
    let market_rule_ids = under_symbol + fields_if(
        server_version >= MIN_SERVER_VER_UNDERLYING_INFO,
        2,
    );
    let real_expiration_date = market_rule_ids + fields_if(
        server_version >= MIN_SERVER_VER_MARKET_RULES,
        1,
    );
    let end = real_expiration_date + fields_if(
        server_version >= MIN_SERVER_VER_REAL_EXPIRATION_DATE,
        1,
    );
    ContractDetailsLayout {
        symbol,
        multiplier,
        long_name,
        contract_month,
        ev_rule,
        sec_id_count,
        agg_group,
        under_symbol,
        market_rule_ids,
        real_expiration_date,
        end,
    }
}

/// Whether a message on a contract has all its fields.
pub open spec fn contract_details_complete(server_version: i32, f: Seq<String>) -> bool {
    f.len() >= contract_details_layout(server_version, f).end
}

/// The details that a message on a contract gives.
pub open spec fn contract_details_of(server_version: i32, f: Seq<String>) -> ContractDetailsView {
    let version = int_at(f, 1);
    let l = contract_details_layout(server_version, f);
    let p = l.symbol;
    let m = l.multiplier;
    let month = l.contract_month;
    dated(
        ContractDetailsView {
            contract: ContractView {
                symbol: f[p]@,
                sec_type: f[p + 1]@,
                strike: double_at(f, p + 3),
                right: f[p + 4]@,
                exchange: f[p + 5]@,
                currency: f[p + 6]@,
                local_symbol: f[p + 7]@,
                trading_class: f[p + 9]@,
                con_id: int_at(f, p + 10),
                multiplier: f[m]@,
                primary_exchange: text_if(version >= 5, f, l.long_name + 1),
                ..ContractView::blank()
            },
            market_name: f[p + 8]@,
            min_tick: double_at(f, p + 11),
            md_size_multiplier: int_if(
                server_version >= MIN_SERVER_VER_MD_SIZE_MULTIPLIER,
                f,
                p + 12,
            ),
            order_types: f[m + 1]@,
            valid_exchanges: f[m + 2]@,
            price_magnifier: int_at(f, m + 3),
            under_con_id: int_if(version >= 4, f, m + 4),
            long_name: text_if(version >= 5, f, l.long_name),
            contract_month: text_if(version >= 6, f, month),
            industry: text_if(version >= 6, f, month + 1),
            category: text_if(version >= 6, f, month + 2),
            subcategory: text_if(version >= 6, f, month + 3),
            time_zone_id: text_if(version >= 6, f, month + 4),
            trading_hours: text_if(version >= 6, f, month + 5),
            liquid_hours: text_if(version >= 6, f, month + 6),
            ev_rule: text_if(version >= 8, f, l.ev_rule),
            ev_multiplier: double_if(version >= 8, f, l.ev_rule + 1),
            sec_id_list: if version >= 7 {
                tag_values(f, l.sec_id_count + 1, count_at(f, l.sec_id_count))
            } else {
                seq![]
            },
            agg_group: int_if(server_version >= MIN_SERVER_VER_AGG_GROUP, f, l.agg_group),
            under_symbol: text_if(
                server_version >= MIN_SERVER_VER_UNDERLYING_INFO,
                f,
                l.under_symbol,
            ),
            under_sec_type: text_if(
                server_version >= MIN_SERVER_VER_UNDERLYING_INFO,
                f,
                l.under_symbol + 1,
            ),
            market_rule_ids: text_if(
                server_version >= MIN_SERVER_VER_MARKET_RULES,
                f,
                l.market_rule_ids,
            ),
            real_expiration_date: text_if(
                server_version >= MIN_SERVER_VER_REAL_EXPIRATION_DATE,
                f,
                l.real_expiration_date,
            ),
            ..ContractDetailsView::blank()
        },
        false,
        words(f[p + 2]@),
    )
}

/// The request that a message on a contract answers.
pub open spec fn contract_details_req_id(f: Seq<String>) -> i32 {
    if int_at(f, 1) >= 3 {
        int_at(f, 2)
    } else {
        (-1) as i32
    }
}

/// Whether `e` is the event of a message on a contract.
pub open spec fn is_contract_details(server_version: i32, f: Seq<String>, e: Event) -> bool {
    e matches Event::ContractDetails { req_id, details } && {
        &&& req_id == contract_details_req_id(f)
        &&& details@ == contract_details_of(server_version, f)
    }
}

/// Where the parts of a message on a bond begin: those that come after an optional one.
pub struct BondLayout {
    pub symbol: int,
    pub order_types: int,
    pub long_name: int,
    pub ev_rule: int,
    pub sec_id_count: int,
    pub agg_group: int,
    pub market_rule_ids: int,
    pub end: int,
}

/// The layout of a message on a bond.
pub open spec fn bond_layout(server_version: i32, f: Seq<String>) -> BondLayout {
    let version = int_at(f, 1);
    let symbol = 2 + fields_if(version >= 3, 1);
    let order_types = symbol + 19 + fields_if(
        server_version >= MIN_SERVER_VER_MD_SIZE_MULTIPLIER,
        1,
    );
    let long_name = order_types + 2 + fields_if(version >= 2, 4);
    let ev_rule = long_name + fields_if(version >= 4, 1);
    let sec_id_count = ev_rule + fields_if(version >= 6, 2);
    let agg_group = sec_id_count + fields_if(version >= 5, 1 + 2 * count_at(f, sec_id_count));
    let market_rule_ids = agg_group + fields_if(server_version >= MIN_SERVER_VER_AGG_GROUP, 1);
    let end = market_rule_ids + fields_if(server_version >= MIN_SERVER_VER_MARKET_RULES, 1);
    BondLayout {
        symbol,
        order_types,
        long_name,
        ev_rule,
        sec_id_count,
        agg_group,
        market_rule_ids,
        end,
    }
}

/// The first of the three flags of a bond that is no integer, if the message reaches that far.
pub open spec fn bond_bad_flag(server_version: i32, f: Seq<String>) -> Option<String> {
    let p = bond_layout(server_version, f).symbol + 9;
    if f.len() > p && integer_i32(f[p]@) is None {
        Some(f[p])
    } else if f.len() > p + 1 && integer_i32(f[p + 1]@) is None {
        Some(f[p + 1])
    } else if f.len() > p + 2 && integer_i32(f[p + 2]@) is None {
        Some(f[p + 2])
    } else {
        None
    }
}

/// Whether a message on a bond has all its fields, or those up to a flag that is no integer.
pub open spec fn bond_complete(server_version: i32, f: Seq<String>) -> bool {
    ||| bond_bad_flag(server_version, f) is Some
    ||| f.len() >= bond_layout(server_version, f).end
}

/// The details that a message on a bond gives.
pub open spec fn bond_details_of(server_version: i32, f: Seq<String>) -> ContractDetailsView {
    let version = int_at(f, 1);
    let l = bond_layout(server_version, f);
    let p = l.symbol;
    let o = l.order_types;
    dated(
        ContractDetailsView {
            contract: ContractView {
                symbol: f[p]@,
                sec_type: f[p + 1]@,
                exchange: f[p + 13]@,
                currency: f[p + 14]@,
                trading_class: f[p + 16]@,
                con_id: int_at(f, p + 17),
                ..ContractView::blank()
            },
            cusip: f[p + 2]@,
            coupon: double_at(f, p + 3),
            issue_date: f[p + 5]@,
            ratings: f[p + 6]@,
            bond_type: f[p + 7]@,
            coupon_type: f[p + 8]@,
            convertible: int_at(f, p + 9) != 0,
            callable: int_at(f, p + 10) != 0,
            putable: int_at(f, p + 11) != 0,
            desc_append: f[p + 12]@,
            market_name: f[p + 15]@,
            min_tick: double_at(f, p + 18),
            md_size_multiplier: int_if(
                server_version >= MIN_SERVER_VER_MD_SIZE_MULTIPLIER,
                f,
                p + 19,
            ),
            order_types: f[o]@,
            valid_exchanges: f[o + 1]@,
            next_option_date: text_if(version >= 2, f, o + 2),
            next_option_type: text_if(version >= 2, f, o + 3),
            next_option_partial: version >= 2 && int_at(f, o + 4) != 0,
            notes: text_if(version >= 2, f, o + 5),
            long_name: text_if(version >= 4, f, l.long_name),
            ev_rule: text_if(version >= 6, f, l.ev_rule),
            ev_multiplier: double_if(version >= 6, f, l.ev_rule + 1),
            sec_id_list: if version >= 5 {
                tag_values(f, l.sec_id_count + 1, count_at(f, l.sec_id_count))
            } else {
                seq![]
            },
            agg_group: int_if(server_version >= MIN_SERVER_VER_AGG_GROUP, f, l.agg_group),
            market_rule_ids: text_if(
                server_version >= MIN_SERVER_VER_MARKET_RULES,
                f,
                l.market_rule_ids,
            ),
            ..ContractDetailsView::blank()
        },
        true,
        words(f[p + 4]@),
    )
}

/// Whether `r` is what comes of a message on a bond: its event, or a flag as the error.
pub open spec fn is_bond_outcome(
    server_version: i32,
    f: Seq<String>,
    r: Result<Event, IBKRApiLibError>,
) -> bool {
    match bond_bad_flag(server_version, f) {
        Some(flag) => r == Err::<Event, IBKRApiLibError>(IBKRApiLibError::ParseInt(flag)),
        None => r matches Ok(Event::BondContractDetails { req_id, details }) && {
            &&& req_id == contract_details_req_id(f)
            &&& details@ == bond_details_of(server_version, f)
        },
    }
}

/// What the end of the messages on contracts tells.
pub open spec fn contract_details_end_event(f: Seq<String>) -> Option<Event> {
    if f.len() >= 3 {
        Some(Event::ContractDetailsEnd { req_id: int_at(f, 2) })
    } else {
        None
    }
}

/// What a message on a delta neutral contract tells.
pub open spec fn delta_neutral_validation_event(f: Seq<String>) -> Option<Event> {
    if f.len() >= 6 {
        Some(
            Event::DeltaNeutralValidation {
                req_id: int_at(f, 2),
                delta_neutral_contract: DeltaNeutralContract {
                    con_id: int_at(f, 3),
                    delta: double_at(f, 4),
                    price: double_at(f, 5),
                },
            },
        )
    } else {
        None
    }
}

impl Decoder {
    /// Enters a date that a message gives as day, time of day and zone.
    pub fn read_last_trade_date(details: &mut ContractDetails, is_bond: bool, read_date: &str)
        ensures
            final(details)@ == dated(old(details)@, is_bond, words(read_date@)),
    {
        if !read_date.is_empty() {
            let split: Vec<String> = split_words(read_date);
            let ghost w = words(read_date@);
            assert(texts(split@).len() == split@.len());
            assert(forall|i: int| 0 <= i < split@.len() ==> texts(split@)[i] == split@[i]@);
            if split.len() > 0 {
                if is_bond {
                    details.maturity = split[0].clone();
                } else {
                    details.contract.last_trade_date_or_contract_month = split[0].clone();
                }
            }
            if split.len() > 1 {
                details.last_trade_time = split[1].clone();
            }
            if is_bond && split.len() > 2 {
                details.time_zone_id = split[2].clone();
            }
        }
    }

    /// Reads a message on a contract.
    #[verifier::spinoff_prover]
    #[verifier::rlimit(60)]
    pub fn process_contract_details(server_version: i32, fields: &[String]) -> (r: Option<Event>)
        ensures
            r is Some <==> contract_details_complete(server_version, fields@),
            r is Some ==> is_contract_details(server_version, fields@, r->0),
    {
        let mut reader = Reader::new(fields);
        reader.skip();
        let version: i32 = reader.next_i32()?;
        let mut req_id: i32 = -1;
        if version >= 3 {
            req_id = reader.next_i32()?;
        }
        let symbol = reader.next_text()?;
        let sec_type = reader.next_text()?;
        let date = reader.next_text()?;
        let strike = reader.next_double()?;
        let right = reader.next_text()?;
        let exchange = reader.next_text()?;
        let currency = reader.next_text()?;
        let local_symbol = reader.next_text()?;
        let market_name = reader.next_text()?;
        let trading_class = reader.next_text()?;
        let con_id: i32 = reader.next_i32()?;
        let min_tick = reader.next_double()?;
        let md_size_multiplier: i32 = reader.next_i32_if(
            server_version >= MIN_SERVER_VER_MD_SIZE_MULTIPLIER,
        )?;
        let multiplier = reader.next_text()?;
        let order_types = reader.next_text()?;
        let valid_exchanges = reader.next_text()?;
        let price_magnifier: i32 = reader.next_i32()?;
        let under_con_id: i32 = reader.next_i32_if(version >= 4)?;
        let long_name = reader.next_text_if(version >= 5)?;
        let primary_exchange = reader.next_text_if(version >= 5)?;
        let contract_month = reader.next_text_if(version >= 6)?;
        let industry = reader.next_text_if(version >= 6)?;
        let category = reader.next_text_if(version >= 6)?;
        let subcategory = reader.next_text_if(version >= 6)?;
        let time_zone_id = reader.next_text_if(version >= 6)?;
        let trading_hours = reader.next_text_if(version >= 6)?;
        let liquid_hours = reader.next_text_if(version >= 6)?;
        let ev_rule = reader.next_text_if(version >= 8)?;
        let ev_multiplier = reader.next_double_if(version >= 8)?;
        let sec_id_list_count: i32 = reader.next_i32_if(version >= 7)?;
        let sec_id_list = read_tag_values(&mut reader, sec_id_list_count)?;
        let agg_group: i32 = reader.next_i32_if(server_version >= MIN_SERVER_VER_AGG_GROUP)?;
        let under_symbol = reader.next_text_if(server_version >= MIN_SERVER_VER_UNDERLYING_INFO)?;
        let under_sec_type = reader.next_text_if(
            server_version >= MIN_SERVER_VER_UNDERLYING_INFO,
        )?;
        let market_rule_ids = reader.next_text_if(server_version >= MIN_SERVER_VER_MARKET_RULES)?;
        let real_expiration_date = reader.next_text_if(
            server_version >= MIN_SERVER_VER_REAL_EXPIRATION_DATE,
        )?;
        let mut details = ContractDetails {
            contract: Contract {
                con_id,
                symbol,
                sec_type,
                strike,
                right,
                multiplier,
                exchange,
                primary_exchange,
                currency,
                local_symbol,
                trading_class,
                ..Contract::default()
            },
            market_name,
            min_tick,
            order_types,
            valid_exchanges,
            price_magnifier,
            under_con_id,
            long_name,
            contract_month,
            industry,
            category,
            subcategory,
            time_zone_id,
            trading_hours,
            liquid_hours,
            ev_rule,
            ev_multiplier,
            md_size_multiplier,
            agg_group,
            under_symbol,
            under_sec_type,
            market_rule_ids,
            sec_id_list,
            real_expiration_date,
            ..ContractDetails::default()
        };
        Self::read_last_trade_date(&mut details, false, date.as_str());
        assert(details.sec_id_list@ == contract_details_of(server_version, fields@).sec_id_list);
        Some(Event::ContractDetails { req_id, details })
    }

    /// Reads a message on a bond.
    #[verifier::spinoff_prover]
    #[verifier::rlimit(60)]
    pub fn process_bond_contract_data(server_version: i32, fields: &[String]) -> (r: Option<
        Result<Event, IBKRApiLibError>,
    >)
        ensures
            r is Some <==> bond_complete(server_version, fields@),
            r is Some ==> is_bond_outcome(server_version, fields@, r->0),
    {
        let mut reader = Reader::new(fields);
        reader.skip();
        let version: i32 = reader.next_i32()?;
        let mut req_id: i32 = -1;
        if version >= 3 {
            req_id = reader.next_i32()?;
        }
        let symbol = reader.next_text()?;
        let sec_type = reader.next_text()?;
        let cusip = reader.next_text()?;
        let coupon = reader.next_double()?;
        let date = reader.next_text()?;
        let issue_date = reader.next_text()?;
        let ratings = reader.next_text()?;
        let bond_type = reader.next_text()?;
        let coupon_type = reader.next_text()?;
        let convertible = match reader.next_integer_flag()? {
            Ok(set) => set,
            Err(e) => {
                return Some(Err(e));
            },
        };
        let callable = match reader.next_integer_flag()? {
            Ok(set) => set,
            Err(e) => {
                return Some(Err(e));
            },
        };
        let putable = match reader.next_integer_flag()? {
            Ok(set) => set,
            Err(e) => {
                return Some(Err(e));
            },
        };
        let desc_append = reader.next_text()?;
        let exchange = reader.next_text()?;
        let currency = reader.next_text()?;
        let market_name = reader.next_text()?;
        let trading_class = reader.next_text()?;
        let con_id: i32 = reader.next_i32()?;
        let min_tick = reader.next_double()?;
        let md_size_multiplier: i32 = reader.next_i32_if(
            server_version >= MIN_SERVER_VER_MD_SIZE_MULTIPLIER,
        )?;
        let order_types = reader.next_text()?;
        let valid_exchanges = reader.next_text()?;
        let next_option_date = reader.next_text_if(version >= 2)?;
        let next_option_type = reader.next_text_if(version >= 2)?;
        let next_option_partial = if version >= 2 {
            reader.next_flag()
        } else {
            false
        };
        let notes = reader.next_text_if(version >= 2)?;
        let long_name = reader.next_text_if(version >= 4)?;
        let ev_rule = reader.next_text_if(version >= 6)?;
        let ev_multiplier = reader.next_double_if(version >= 6)?;
        let sec_id_list_count: i32 = reader.next_i32_if(version >= 5)?;
        let sec_id_list = read_tag_values(&mut reader, sec_id_list_count)?;
        let agg_group: i32 = reader.next_i32_if(server_version >= MIN_SERVER_VER_AGG_GROUP)?;
        let market_rule_ids = reader.next_text_if(server_version >= MIN_SERVER_VER_MARKET_RULES)?;
        let mut details = ContractDetails {
            contract: Contract {
                con_id,
                symbol,
                sec_type,
                exchange,
                currency,
                trading_class,
                ..Contract::default()
            },
            market_name,
            min_tick,
            order_types,
            valid_exchanges,
            long_name,
            ev_rule,
            ev_multiplier,
            md_size_multiplier,
            agg_group,
            market_rule_ids,
            sec_id_list,
            cusip,
            ratings,
            desc_append,
            bond_type,
            coupon_type,
            callable,
            putable,
            coupon,
            convertible,
            issue_date,
            next_option_date,
            next_option_type,
            next_option_partial,
            notes,
            ..ContractDetails::default()
        };
        Self::read_last_trade_date(&mut details, true, date.as_str());
        assert(details.sec_id_list@ == bond_details_of(server_version, fields@).sec_id_list);
        Some(Ok(Event::BondContractDetails { req_id, details }))
    }

    /// Reads the end of the messages on contracts.
    pub fn process_contract_details_end(fields: &[String]) -> (r: Option<Event>)
        ensures
            r == contract_details_end_event(fields@),
    {
        let mut reader = Reader::new(fields);
        reader.skip();
        reader.skip();
        let req_id: i32 = reader.next_i32()?;
        Some(Event::ContractDetailsEnd { req_id })
    }

    /// Reads a message on a delta neutral contract.
    pub fn process_delta_neutral_validation(fields: &[String]) -> (r: Option<Event>)
        ensures
            r == delta_neutral_validation_event(fields@),
    {
        let mut reader = Reader::new(fields);
        reader.skip();
        reader.skip();
        let req_id: i32 = reader.next_i32()?;
        let con_id: i32 = reader.next_i32()?;
        let delta = reader.next_double()?;
        let price = reader.next_double()?;
        let delta_neutral_contract = DeltaNeutralContract { con_id, delta, price };
        Some(Event::DeltaNeutralValidation { req_id, delta_neutral_contract })
    }
}

} // verus!
