//! Messages with ticks.
use twsapi::codes::{TickByTickType, TickType};
use twsapi::decoder::Decoder;
use twsapi::event::Event;
use twsapi::number::{AbsentMark, Double};
use twsapi::types::{TickAttrib, TickAttribBidAsk, TickAttribLast};

fn fields(items: &[&str]) -> Vec<String> {
    items.iter().map(|s| s.to_string()).collect()
}

fn told(server_version: i32, items: &[&str]) -> Vec<Event> {
    match Decoder::try_interpret(server_version, &fields(items)) {
        Some(Ok(events)) => events,
        _ => panic!("not interpreted"),
    }
}

fn refused(server_version: i32, items: &[&str]) -> bool {
    Decoder::try_interpret(server_version, &fields(items)).is_none()
}

fn parsed(text: &str) -> Double {
    Double::Parsed(text.to_string())
}

fn attrib(can_auto_execute: bool, past_limit: bool, pre_open: bool) -> TickAttrib {
    TickAttrib { can_auto_execute, past_limit, pre_open }
}

fn price_attrib(server_version: i32, mask: &str) -> TickAttrib {
    match &told(server_version, &["1", "6", "9", "14", "1.5", "0", mask])[0] {
        Event::TickPrice { attrib, .. } => *attrib,
        _ => panic!("no price"),
    }
}

#[test]
fn a_bid_comes_with_its_size() {
    assert_eq!(
        told(132, &["1", "6", "1001", "1", "101.5", "300", "1"]),
        vec![
            Event::TickPrice {
                req_id: 1001,
                tick_type: TickType::Bid,
                price: parsed("101.5"),
                attrib: attrib(true, false, false),
            },
            Event::TickSize { req_id: 1001, tick_type: TickType::BidSize, size: 300 },
        ]
    );
}

#[test]
fn six_types_of_price_come_with_a_size() {
    let pairs = [
        (TickType::Bid, TickType::BidSize),
        (TickType::Ask, TickType::AskSize),
        (TickType::Last, TickType::LastSize),
        (TickType::DelayedBid, TickType::DelayedBidSize),
        (TickType::DelayedAsk, TickType::DelayedAskSize),
        (TickType::DelayedLast, TickType::DelayedLastSize),
    ];
    let mut with_size = 0;
    for code in 0..=90 {
        let Some(tick_type) = TickType::from_i32(code) else {
            panic!("unknown code");
        };
        let events = told(100, &["1", "6", "7", &code.to_string(), "2.5", "40", "0"]);
        match pairs.iter().find(|p| p.0 == tick_type) {
            Some((_, size_type)) => {
                with_size += 1;
                assert_eq!(events.len(), 2);
                assert_eq!(
                    events[1],
                    Event::TickSize { req_id: 7, tick_type: *size_type, size: 40 }
                );
            }
            None => assert_eq!(events.len(), 1),
        }
    }
    assert_eq!(with_size, 6);
}

#[test]
fn the_mask_of_a_price_is_read_as_the_server_version_says() {
    // an old server: the whole mask is one flag
    assert_eq!(price_attrib(108, "1"), attrib(true, false, false));
    assert_eq!(price_attrib(108, "3"), attrib(false, false, false));
    // bits, of which the third is known only to a newer server
    assert_eq!(price_attrib(109, "3"), attrib(true, true, false));
    assert_eq!(price_attrib(109, "7"), attrib(true, true, false));
    assert_eq!(price_attrib(131, "6"), attrib(false, true, false));
    assert_eq!(price_attrib(132, "7"), attrib(true, true, true));
    assert_eq!(price_attrib(132, "4"), attrib(false, false, true));
    assert_eq!(price_attrib(132, "8"), attrib(false, false, false));
    assert_eq!(price_attrib(132, "-1"), attrib(true, true, true));
}

#[test]
fn a_price_that_cannot_be_read_is_refused() {
    assert!(refused(132, &["1", "6", "1001", "1", "101.5", "300"]));
    assert!(refused(132, &["1", "6", "1001", "91", "101.5", "300", "1"]));
    assert!(refused(132, &["1", "6", "1001", "-1", "101.5", "300", "1"]));
}

#[test]
fn sizes_strings_and_generic_ticks() {
    assert_eq!(
        told(100, &["2", "6", "5", "3", "700"]),
        vec![Event::TickSize { req_id: 5, tick_type: TickType::AskSize, size: 700 }]
    );
    assert_eq!(
        told(100, &["46", "6", "5", "45", "1573000000"]),
        vec![Event::TickString {
            req_id: 5,
            tick_type: TickType::LastTimestamp,
            value: "1573000000".to_string(),
        }]
    );
    assert_eq!(
        told(100, &["45", "6", "5", "49", "0.0"]),
        vec![Event::TickGeneric { req_id: 5, tick_type: TickType::Halted, value: parsed("0.0") }]
    );
    assert!(refused(100, &["2", "6", "5", "999", "700"]));
    assert!(refused(100, &["46", "6", "5", "45"]));
    assert!(refused(100, &["45", "6", "5", "-7", "1"]));
}

#[test]
fn exchange_for_physical() {
    let f = fields(&["47", "1", "6", "38", "1.5", "1.5%", "99.5", "30", "20201218", "0.25", "0.5"]);
    assert_eq!(
        Decoder::process_tick_efp(&f),
        Some(Event::TickEfp {
            req_id: 6,
            tick_type: TickType::BidEfpComputation,
            basis_points: parsed("1.5"),
            formatted_basis_points: "1.5%".to_string(),
            implied_futures_price: parsed("99.5"),
            hold_days: 30,
            future_last_trade_date: "20201218".to_string(),
            dividend_impact: parsed("0.25"),
            dividends_to_last_trade_date: parsed("0.5"),
        })
    );
    assert_eq!(Decoder::process_tick_efp(&f[..10]), None);
}

#[test]
fn an_option_computation_in_full() {
    let minus_one = |t: &str| Double::Marked(t.to_string(), AbsentMark::MinusOne);
    let minus_two = |t: &str| Double::Marked(t.to_string(), AbsentMark::MinusTwo);
    assert_eq!(
        told(100, &["21", "6", "8", "10", "0.3", "0.5", "2.5", "0.1", "0.02", "0.2", "-0.05", "100"]),
        vec![Event::TickOptionComputation {
            req_id: 8,
            tick_type: TickType::BidOptionComputation,
            implied_vol: minus_one("0.3"),
            delta: minus_two("0.5"),
            opt_price: minus_one("2.5"),
            pv_dividend: minus_one("0.1"),
            gamma: minus_two("0.02"),
            vega: minus_two("0.2"),
            theta: minus_two("-0.05"),
            und_price: minus_one("100"),
        }]
    );
}

#[test]
fn an_option_computation_in_part() {
    // an old message gives the price for model ticks only
    let short = told(100, &["21", "5", "8", "10", "0.3", "0.5"]);
    match &short[0] {
        Event::TickOptionComputation { opt_price, pv_dividend, gamma, und_price, .. } => {
            assert_eq!(*opt_price, Double::Max);
            assert_eq!(*pv_dividend, Double::Max);
            assert_eq!(*gamma, Double::Max);
            assert_eq!(*und_price, Double::Max);
        }
        _ => panic!("no computation"),
    }
    for code in ["13", "83"] {
        let model = told(100, &["21", "5", "8", code, "0.3", "0.5", "2.5", "0.1"]);
        match &model[0] {
            Event::TickOptionComputation { opt_price, pv_dividend, vega, .. } => {
                assert_eq!(*opt_price, Double::Marked("2.5".to_string(), AbsentMark::MinusOne));
                assert_eq!(*pv_dividend, Double::Marked("0.1".to_string(), AbsentMark::MinusOne));
                assert_eq!(*vega, Double::Max);
            }
            _ => panic!("no computation"),
        }
        assert!(refused(100, &["21", "5", "8", code, "0.3", "0.5"]));
    }
    assert!(refused(100, &["21", "6", "8", "10", "0.3", "0.5", "2.5", "0.1", "0.02", "0.2", "-0.05"]));
}

#[test]
fn terms_snapshots_and_kinds_of_data() {
    assert_eq!(
        told(100, &["81", "4", "0.01", "9c0001", "3"]),
        vec![Event::TickReqParams {
            req_id: 4,
            min_tick: parsed("0.01"),
            bbo_exchange: "9c0001".to_string(),
            snapshot_permissions: 3,
        }]
    );
    assert_eq!(told(100, &["57", "1", "4"]), vec![Event::TickSnapshotEnd { req_id: 4 }]);
    assert_eq!(
        told(100, &["58", "1", "4", "3"]),
        vec![Event::MarketDataType { req_id: 4, market_data_type: 3 }]
    );
}

#[test]
fn tick_by_tick_trades_quotes_and_midpoints() {
    assert_eq!(
        told(100, &["99", "3", "1", "1573000000", "10.5", "20", "3", "ARCA", "FT"]),
        vec![Event::TickByTickAllLast {
            req_id: 3,
            tick_type: TickByTickType::Last,
            time: 1573000000,
            price: parsed("10.5"),
            size: 20,
            attrib: TickAttribLast { past_limit: true, unreported: true },
            exchange: "ARCA".to_string(),
            special_conditions: "FT".to_string(),
        }]
    );
    assert_eq!(
        told(100, &["99", "3", "3", "1573000000", "10.5", "10.6", "20", "30", "1"]),
        vec![Event::TickByTickBidAsk {
            req_id: 3,
            time: 1573000000,
            bid_price: parsed("10.5"),
            ask_price: parsed("10.6"),
            bid_size: 20,
            ask_size: 30,
            attrib: TickAttribBidAsk { bid_past_low: true, ask_past_high: false },
        }]
    );
    assert_eq!(
        told(100, &["99", "3", "4", "1573000000", "10.55"]),
        vec![Event::TickByTickMidPoint { req_id: 3, time: 1573000000, mid_point: parsed("10.55") }]
    );
}

#[test]
fn tick_by_tick_of_another_type_tells_nothing() {
    for kind in ["0", "5", "-1", "x"] {
        assert_eq!(told(100, &["99", "3", kind, "1573000000"]), vec![]);
    }
    assert!(refused(100, &["99", "3", "0"]));
    assert!(refused(100, &["99", "3", "4", "1573000000"]));
    assert!(refused(100, &["99", "3", "2", "1573000000", "10.5", "20", "3", "ARCA"]));
}

#[test]
fn an_exchange_for_physical_message_is_read_tick_by_tick() {
    assert_eq!(
        told(100, &["47", "3", "4", "12", "10.55"]),
        told(100, &["99", "3", "4", "12", "10.55"])
    );
}
