//! Messages on orders and executions.
use twsapi::decoder::Decoder;
use twsapi::event::Event;
use twsapi::fields::UNSET_INTEGER;
use twsapi::number::Double;
use twsapi::types::{CommissionReport, Contract, Execution};

fn fields(items: &[&str]) -> Vec<String> {
    items.iter().map(|s| s.to_string()).collect()
}

fn told(server_version: i32, items: &[&str]) -> Vec<Event> {
    match Decoder::try_interpret(server_version, &fields(items)) {
        Some(Ok(events)) => events,
        _ => panic!("not interpreted"),
    }
}

fn refused(server_version: i32, items: &[&str]) -> bool {
    Decoder::try_interpret(server_version, &fields(items)).is_none()
}

fn parsed(text: &str) -> Double {
    Double::Parsed(text.to_string())
}

fn text(t: &str) -> String {
    t.to_string()
}

#[test]
fn open_orders() {
    assert_eq!(
        told(144, &["5", "34", "7", "BUY"]),
        vec![Event::OpenOrder { version: 34, server_version: 144, fields: fields(&["7", "BUY"]) }]
    );
    assert_eq!(
        told(145, &["5", "7", "BUY"]),
        vec![Event::OpenOrder { version: 145, server_version: 145, fields: fields(&["7", "BUY"]) }]
    );
    assert!(refused(144, &["5"]));
    assert_eq!(told(100, &["53", "1"]), vec![Event::OpenOrderEnd]);
}

#[test]
fn completed_orders() {
    assert_eq!(
        told(151, &["101", "7", "BUY"]),
        vec![Event::CompletedOrder {
            version: UNSET_INTEGER,
            server_version: 151,
            fields: fields(&["7", "BUY"]),
        }]
    );
    assert_eq!(told(151, &["102"]), vec![Event::CompletedOrdersEnd]);
}

#[test]
fn numbers_of_orders() {
    assert_eq!(
        told(100, &["100", "1", "2", "3"]),
        vec![Event::OrderBound { req_id: 1, api_client_id: 2, api_order_id: 3 }]
    );
    assert_eq!(told(100, &["9", "1", "55"]), vec![Event::NextValidId { order_id: 55 }]);
}

#[test]
fn the_status_of_an_order() {
    let status = |filled: Double, remaining: Double, mkt_cap_price: Double| {
        vec![Event::OrderStatus {
            order_id: 7,
            status: text("Submitted"),
            filled,
            remaining,
            avg_fill_price: parsed("1.5"),
            perm_id: 8,
            parent_id: 9,
            last_fill_price: parsed("1.6"),
            client_id: 10,
            why_held: text("locate"),
            mkt_cap_price,
        }]
    };
    let items = ["3", "7", "Submitted", "5", "6", "1.5", "8", "9", "1.6", "10", "locate", "2.5"];
    assert_eq!(told(131, &items), status(parsed("5"), parsed("6"), parsed("2.5")));
    assert!(refused(131, &items[..11]));
    let old = ["3", "6", "7", "Submitted", "5", "6", "1.5", "8", "9", "1.6", "10", "locate"];
    assert_eq!(told(130, &old), status(parsed("5"), parsed("6"), Double::Whole(0)));
    assert_eq!(told(100, &old), status(Double::Whole(5), Double::Whole(6), Double::Whole(0)));
}

fn contract() -> Contract {
    Contract {
        con_id: 42,
        symbol: text("SPY"),
        sec_type: text("OPT"),
        last_trade_date_or_contract_month: text("20201218"),
        strike: parsed("330"),
        right: text("C"),
        multiplier: text("100"),
        exchange: text("SMART"),
        currency: text("USD"),
        local_symbol: text("SPY C330"),
        trading_class: text("SPY"),
        ..Contract::default()
    }
}

fn execution() -> Execution {
    Execution {
        exec_id: text("e1"),
        time: text("t1"),
        acct_number: text("DU1"),
        exchange: text("CBOE"),
        side: text("BOT"),
        shares: parsed("2"),
        price: parsed("1.5"),
        perm_id: 11,
        client_id: 12,
        order_id: 7,
        liquidation: 13,
        cum_qty: parsed("2"),
        avg_price: parsed("1.5"),
        order_ref: text("ref"),
        ev_rule: text("rule"),
        ev_multiplier: Double::Whole(1),
        model_code: text("M"),
        last_liquidity: 3,
    }
}

const EXECUTION: [&str; 28] = [
    "11", "31", "7", "42", "SPY", "OPT", "20201218", "330", "C", "100", "SMART", "USD", "SPY C330", "SPY",
    "e1", "t1", "DU1", "CBOE", "BOT", "2", "1.5", "11", "12", "13", "2", "1.5", "ref", "rule",
];

#[test]
fn an_execution_without_a_multiplier() {
    let mut items = EXECUTION.to_vec();
    items.extend(["", "M", "3"]);
    assert_eq!(
        told(136, &items),
        vec![Event::ExecDetails { req_id: 31, contract: contract(), execution: execution() }]
    );
    assert!(refused(136, &items[..30]));
}

#[test]
fn an_execution_with_a_multiplier() {
    // the field after the one that says that there is a multiplier holds it
    let mut items = EXECUTION.to_vec();
    items.extend(["yes", "2.5", "M", "3"]);
    assert_eq!(
        told(136, &items),
        vec![Event::ExecDetails {
            req_id: 31,
            contract: contract(),
            execution: Execution { ev_multiplier: parsed("2.5"), ..execution() },
        }]
    );
    assert!(refused(136, &items[..31]));
}

#[test]
fn an_execution_of_an_old_server() {
    let items = [
        "11", "5", "7", "42", "SPY", "OPT", "20201218", "330", "C", "SMART", "USD", "SPY C330", "e1", "t1",
        "DU1", "CBOE", "BOT", "2", "1.5", "11", "12", "13",
    ];
    let expected = Execution {
        shares: Double::Whole(2),
        cum_qty: Double::Whole(0),
        avg_price: Double::Whole(0),
        order_ref: text(""),
        ev_rule: text(""),
        ev_multiplier: Double::Whole(0),
        model_code: text(""),
        last_liquidity: 0,
        ..execution()
    };
    assert_eq!(
        told(100, &items),
        vec![Event::ExecDetails {
            req_id: -1,
            contract: Contract { multiplier: text(""), trading_class: text(""), ..contract() },
            execution: expected,
        }]
    );
    assert!(refused(100, &items[..21]));
}

#[test]
fn the_end_of_the_executions() {
    assert_eq!(told(100, &["55", "1", "31"]), vec![Event::ExecDetailsEnd { req_id: 31 }]);
}

#[test]
fn a_commission() {
    assert_eq!(
        told(100, &["59", "1", "e1", "1.05", "USD", "7.5", "0", "20301115"]),
        vec![Event::CommissionReport {
            report: CommissionReport {
                exec_id: text("e1"),
                commission: parsed("1.05"),
                currency: text("USD"),
                realized_pnl: parsed("7.5"),
                yield_: parsed("0"),
                yield_redemption_date: text("20301115"),
            },
        }]
    );
}
