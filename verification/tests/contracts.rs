//! Messages on contracts.
use twsapi::decoder::Decoder;
use twsapi::errors::IBKRApiLibError;
use twsapi::event::Event;
use twsapi::number::Double;
use twsapi::types::{Contract, ContractDetails, DeltaNeutralContract, TagValue};

fn fields(items: &[&str]) -> Vec<String> {
    items.iter().map(|s| s.to_string()).collect()
}

fn told(server_version: i32, items: &[&str]) -> Vec<Event> {
    match Decoder::try_interpret(server_version, &fields(items)) {
        Some(Ok(events)) => events,
        _ => panic!("not interpreted"),
    }
}

fn refused(server_version: i32, items: &[&str]) -> bool {
    Decoder::try_interpret(server_version, &fields(items)).is_none()
}

fn parsed(text: &str) -> Double {
    Double::Parsed(text.to_string())
}

fn text(t: &str) -> String {
    t.to_string()
}

fn bad_field(server_version: i32, items: &[&str]) -> Option<String> {
    match Decoder::try_interpret(server_version, &fields(items)) {
        Some(Err(IBKRApiLibError::ParseInt(field))) => Some(field),
        _ => None,
    }
}

fn details_items() -> Vec<&'static str> {
    vec![
        "10", "8", "31", "ES", "FUT", "20201218 08:30", "0", "", "GLOBEX", "USD", "ESZ0", "ES", "ES",
        "495512", "0.25", "1", "50", "LMT,MKT", "GLOBEX", "1", "11004968", "E-mini", "CME", "202012",
        "Indices", "Broad", "*", "CST", "0830-1500", "0900-1500", "aggGroup", "1.5", "1", "ISIN", "US1",
        "7", "ES", "IND", "67", "20201219",
    ]
}

fn details() -> ContractDetails {
    ContractDetails {
        contract: Contract {
            con_id: 495512,
            symbol: text("ES"),
            sec_type: text("FUT"),
            last_trade_date_or_contract_month: text("20201218"),
            strike: parsed("0"),
            multiplier: text("50"),
            exchange: text("GLOBEX"),
            primary_exchange: text("CME"),
            currency: text("USD"),
            local_symbol: text("ESZ0"),
            trading_class: text("ES"),
            ..Contract::default()
        },
        market_name: text("ES"),
        min_tick: parsed("0.25"),
        md_size_multiplier: 1,
        order_types: text("LMT,MKT"),
        valid_exchanges: text("GLOBEX"),
        price_magnifier: 1,
        under_con_id: 11004968,
        long_name: text("E-mini"),
        contract_month: text("202012"),
        industry: text("Indices"),
        category: text("Broad"),
        subcategory: text("*"),
        time_zone_id: text("CST"),
        trading_hours: text("0830-1500"),
        liquid_hours: text("0900-1500"),
        ev_rule: text("aggGroup"),
        ev_multiplier: parsed("1.5"),
        sec_id_list: vec![TagValue { tag: text("ISIN"), value: text("US1") }],
        agg_group: 7,
        under_symbol: text("ES"),
        under_sec_type: text("IND"),
        market_rule_ids: text("67"),
        real_expiration_date: text("20201219"),
        last_trade_time: text("08:30"),
        ..ContractDetails::default()
    }
}

#[test]
fn a_contract_in_full() {
    let items = details_items();
    assert_eq!(told(134, &items), vec![Event::ContractDetails { req_id: 31, details: details() }]);
    assert!(refused(134, &items[..items.len() - 1]));
}

#[test]
fn a_contract_of_an_old_server() {
    let items = [
        "10", "2", "ES", "FUT", "20201218", "0", "", "GLOBEX", "USD", "ESZ0", "ES", "ES", "495512", "0.25",
        "50", "LMT,MKT", "GLOBEX", "1",
    ];
    let full = details();
    let expected = ContractDetails {
        contract: Contract { primary_exchange: text(""), ..full.contract },
        market_name: full.market_name,
        min_tick: full.min_tick,
        order_types: full.order_types,
        valid_exchanges: full.valid_exchanges,
        price_magnifier: 1,
        ..ContractDetails::default()
    };
    assert_eq!(told(100, &items), vec![Event::ContractDetails { req_id: -1, details: expected }]);
    assert!(refused(100, &items[..17]));
}

#[test]
fn a_contract_as_the_server_version_grows() {
    // each version adds fields at its place; the others stay
    let items = details_items();
    let mut without_date = details();
    without_date.real_expiration_date = text("");
    assert_eq!(
        told(133, &items[..items.len() - 1]),
        vec![Event::ContractDetails { req_id: 31, details: without_date.clone() }]
    );
    without_date.market_rule_ids = text("");
    assert_eq!(
        told(125, &items[..items.len() - 2]),
        vec![Event::ContractDetails { req_id: 31, details: without_date.clone() }]
    );
    without_date.under_symbol = text("");
    without_date.under_sec_type = text("");
    assert_eq!(
        told(121, &items[..items.len() - 4]),
        vec![Event::ContractDetails { req_id: 31, details: without_date.clone() }]
    );
    without_date.agg_group = 0;
    assert_eq!(
        told(120, &items[..items.len() - 5]),
        vec![Event::ContractDetails { req_id: 31, details: without_date }]
    );
}

#[test]
fn dates_are_split() {
    let mut d = ContractDetails::default();
    Decoder::read_last_trade_date(&mut d, true, "20301115 12:00 EST extra");
    assert_eq!(d.maturity, "20301115");
    assert_eq!(d.last_trade_time, "12:00");
    assert_eq!(d.time_zone_id, "EST");
    assert_eq!(d.contract.last_trade_date_or_contract_month, "");
    let mut d = ContractDetails::default();
    Decoder::read_last_trade_date(&mut d, false, "20301115 12:00 EST");
    assert_eq!(d.maturity, "");
    assert_eq!(d.last_trade_time, "12:00");
    assert_eq!(d.time_zone_id, "");
    assert_eq!(d.contract.last_trade_date_or_contract_month, "20301115");
}

#[test]
fn a_blank_date_changes_nothing() {
    let before = details();
    let mut after = details();
    Decoder::read_last_trade_date(&mut after, true, "");
    assert_eq!(after, before);
    Decoder::read_last_trade_date(&mut after, false, "  \t");
    assert_eq!(after, before);
}

#[test]
fn a_date_entered_twice_is_entered_once() {
    let mut once = ContractDetails::default();
    Decoder::read_last_trade_date(&mut once, true, "20301115 12:00 EST");
    let mut twice = once.clone();
    Decoder::read_last_trade_date(&mut twice, true, "20301115 12:00 EST");
    assert_eq!(once, twice);
}

fn bond_items() -> Vec<&'static str> {
    vec![
        "18", "6", "31", "IBM", "BOND", "459200", "3.3", "20301115 12:00 EST", "20101115", "A1", "CORP",
        "FIXED", "1", "0", "-1", "append", "SMART", "USD", "BondMkt", "IBM", "88", "0.001", "2", "LMT",
        "NYSE", "20250101", "call", "1", "some notes", "IBM 3.3", "rule", "2.5", "2", "CUSIP", "459200",
        "ISIN", "US4592", "9", "24",
    ]
}

fn bond() -> ContractDetails {
    ContractDetails {
        contract: Contract {
            con_id: 88,
            symbol: text("IBM"),
            sec_type: text("BOND"),
            exchange: text("SMART"),
            currency: text("USD"),
            trading_class: text("IBM"),
            ..Contract::default()
        },
        cusip: text("459200"),
        coupon: parsed("3.3"),
        maturity: text("20301115"),
        last_trade_time: text("12:00"),
        time_zone_id: text("EST"),
        issue_date: text("20101115"),
        ratings: text("A1"),
        bond_type: text("CORP"),
        coupon_type: text("FIXED"),
        convertible: true,
        callable: false,
        putable: true,
        desc_append: text("append"),
        market_name: text("BondMkt"),
        min_tick: parsed("0.001"),
        md_size_multiplier: 2,
        order_types: text("LMT"),
        valid_exchanges: text("NYSE"),
        next_option_date: text("20250101"),
        next_option_type: text("call"),
        next_option_partial: true,
        notes: text("some notes"),
        long_name: text("IBM 3.3"),
        ev_rule: text("rule"),
        ev_multiplier: parsed("2.5"),
        sec_id_list: vec![
            TagValue { tag: text("CUSIP"), value: text("459200") },
            TagValue { tag: text("ISIN"), value: text("US4592") },
        ],
        agg_group: 9,
        market_rule_ids: text("24"),
        ..ContractDetails::default()
    }
}

#[test]
fn a_bond_in_full() {
    let items = bond_items();
    assert_eq!(told(126, &items), vec![Event::BondContractDetails { req_id: 31, details: bond() }]);
    assert!(refused(126, &items[..items.len() - 1]));
}

#[test]
fn a_bond_whose_flag_is_no_integer_is_an_error() {
    for (place, wrong) in [(12, "yes"), (13, ""), (14, "99999999999")] {
        let mut items = bond_items();
        items[place] = wrong;
        assert_eq!(bad_field(126, &items), Some(text(wrong)));
        // what comes after it is not looked at
        assert_eq!(bad_field(126, &items[..place + 1]), Some(text(wrong)));
        assert!(refused(126, &items[..place]));
    }
}

#[test]
fn the_first_wrong_flag_of_a_bond_is_the_error() {
    let mut items = bond_items();
    items[13] = "b";
    items[14] = "c";
    assert_eq!(bad_field(126, &items), Some(text("b")));
    items[12] = "a";
    assert_eq!(bad_field(126, &items), Some(text("a")));
}

#[test]
fn the_end_of_the_contracts() {
    assert_eq!(told(100, &["52", "1", "31"]), vec![Event::ContractDetailsEnd { req_id: 31 }]);
    assert!(refused(100, &["52", "1"]));
}

#[test]
fn a_delta_neutral_contract() {
    assert_eq!(
        told(100, &["56", "1", "31", "88", "0.5", "101.25"]),
        vec![Event::DeltaNeutralValidation {
            req_id: 31,
            delta_neutral_contract: DeltaNeutralContract {
                con_id: 88,
                delta: parsed("0.5"),
                price: parsed("101.25"),
            },
        }]
    );
}
