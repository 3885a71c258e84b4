//! Messages on accounts, positions and portfolios.
use twsapi::codes::FaDataType;
use twsapi::decoder::Decoder;
use twsapi::event::Event;
use twsapi::number::Double;
use twsapi::types::{Contract, FamilyCode, SoftDollarTier};

fn fields(items: &[&str]) -> Vec<String> {
    items.iter().map(|s| s.to_string()).collect()
}

fn told(server_version: i32, items: &[&str]) -> Vec<Event> {
    match Decoder::try_interpret(server_version, &fields(items)) {
        Some(Ok(events)) => events,
        _ => panic!("not interpreted"),
    }
}

fn refused(server_version: i32, items: &[&str]) -> bool {
    Decoder::try_interpret(server_version, &fields(items)).is_none()
}

fn parsed(text: &str) -> Double {
    Double::Parsed(text.to_string())
}

fn text(t: &str) -> String {
    t.to_string()
}

fn option_contract(trading_class: &str) -> Contract {
    Contract {
        con_id: 42,
        symbol: text("SPY"),
        sec_type: text("OPT"),
        last_trade_date_or_contract_month: text("20201218"),
        strike: parsed("330"),
        right: text("C"),
        multiplier: text("100"),
        exchange: text("SMART"),
        currency: text("USD"),
        local_symbol: text("SPY C330"),
        trading_class: text(trading_class),
        ..Contract::default()
    }
}

#[test]
fn account_summaries() {
    assert_eq!(
        told(100, &["63", "1", "9", "DU1", "Cash", "12.5", "USD"]),
        vec![Event::AccountSummary {
            req_id: 9,
            account: text("DU1"),
            tag: text("Cash"),
            value: text("12.5"),
            currency: text("USD"),
        }]
    );
    assert_eq!(told(100, &["64", "1", "9"]), vec![Event::AccountSummaryEnd { req_id: 9 }]);
    assert!(refused(100, &["63", "1", "9", "DU1", "Cash", "12.5"]));
    assert!(refused(100, &["64", "1"]));
}

#[test]
fn account_updates() {
    assert_eq!(
        told(100, &["73", "1", "9", "DU1", "M", "Cash", "12.5", "USD"]),
        vec![Event::AccountUpdateMulti {
            req_id: 9,
            account: text("DU1"),
            model_code: text("M"),
            key: text("Cash"),
            value: text("12.5"),
            currency: text("USD"),
        }]
    );
    assert_eq!(told(100, &["74", "1", "9"]), vec![Event::AccountUpdateMultiEnd { req_id: 9 }]);
    assert_eq!(
        told(100, &["54", "1", "DU1"]),
        vec![Event::AccountDownloadEnd { account: text("DU1") }]
    );
    assert_eq!(
        told(100, &["8", "1", "12:30"]),
        vec![Event::UpdateAccountTime { time_stamp: text("12:30") }]
    );
    assert_eq!(
        told(100, &["6", "2", "Cash", "12.5", "USD", "DU1"]),
        vec![Event::UpdateAccountValue {
            key: text("Cash"),
            value: text("12.5"),
            currency: text("USD"),
            account: text("DU1"),
        }]
    );
    assert_eq!(
        told(100, &["15", "1", "DU1,DU2"]),
        vec![Event::ManagedAccounts { accounts: text("DU1,DU2") }]
    );
}

#[test]
fn families_and_advisors() {
    assert_eq!(
        told(100, &["78", "1", "DU1", "F"]),
        vec![Event::FamilyCodes {
            family_codes: vec![FamilyCode { account_id: text("DU1"), family_code_str: text("F") }],
        }]
    );
    assert_eq!(
        told(100, &["16", "1", "2", "<xml/>"]),
        vec![Event::ReceiveFa { data_type: FaDataType::Profiles, xml: text("<xml/>") }]
    );
    assert!(refused(100, &["16", "1", "4", "<xml/>"]));
    assert_eq!(
        told(100, &["77", "3", "1", "n", "v", "d"]),
        vec![Event::SoftDollarTiers {
            req_id: 3,
            tiers: vec![SoftDollarTier { name: text("n"), val: text("v"), display_name: text("d") }],
        }]
    );
}

#[test]
fn profit_and_loss() {
    let pnl = |unrealized_pnl: Double, realized_pnl: Double| {
        vec![Event::Pnl { req_id: 3, daily_pnl: parsed("1.5"), unrealized_pnl, realized_pnl }]
    };
    let items = ["94", "3", "1.5", "2.5", "3.5"];
    assert_eq!(told(128, &items), pnl(Double::Whole(0), Double::Whole(0)));
    assert_eq!(told(129, &items), pnl(parsed("2.5"), Double::Whole(0)));
    assert_eq!(told(135, &items), pnl(parsed("2.5"), parsed("3.5")));
    assert!(refused(135, &items[..4]));
    assert_eq!(
        told(135, &["95", "3", "10", "1.5", "2.5", "3.5", "4.5"]),
        vec![Event::PnlSingle {
            req_id: 3,
            pos: 10,
            daily_pnl: parsed("1.5"),
            unrealized_pnl: parsed("2.5"),
            realized_pnl: parsed("3.5"),
            value: parsed("4.5"),
        }]
    );
    assert_eq!(
        told(100, &["95", "3", "10", "1.5", "4.5"]),
        vec![Event::PnlSingle {
            req_id: 3,
            pos: 10,
            daily_pnl: parsed("1.5"),
            unrealized_pnl: Double::Whole(0),
            realized_pnl: Double::Whole(0),
            value: parsed("4.5"),
        }]
    );
}

#[test]
fn an_entry_of_a_portfolio() {
    let entry = |contract: Contract, position: Double| {
        vec![Event::UpdatePortfolio {
            contract,
            position,
            market_price: parsed("1.5"),
            market_value: parsed("15"),
            average_cost: parsed("1.25"),
            unrealized_pnl: parsed("2.5"),
            realized_pnl: parsed("0"),
            account_name: text("DU1"),
        }]
    };
    let newest = Contract { primary_exchange: text("AMEX"), exchange: text(""), ..option_contract("SPY") };
    let items = [
        "7", "8", "42", "SPY", "OPT", "20201218", "330", "C", "100", "AMEX", "USD", "SPY C330", "SPY", "10",
        "1.5", "15", "1.25", "2.5", "0", "DU1",
    ];
    assert_eq!(told(101, &items), entry(newest.clone(), parsed("10")));
    assert_eq!(told(100, &items), entry(newest.clone(), Double::Whole(10)));
    assert!(refused(100, &items[..19]));
    let oldest = [
        "7", "6", "42", "SPY", "OPT", "20201218", "330", "C", "USD", "SPY C330", "10", "1.5", "15", "1.25",
        "2.5", "0", "DU1", "AMEX",
    ];
    let plain = Contract {
        multiplier: text(""),
        trading_class: text(""),
        primary_exchange: text(""),
        ..newest.clone()
    };
    assert_eq!(told(40, &oldest), entry(plain.clone(), Double::Whole(10)));
    assert_eq!(
        told(39, &oldest),
        entry(Contract { primary_exchange: text("AMEX"), ..plain }, Double::Whole(10))
    );
}

#[test]
fn positions() {
    let items = [
        "61", "3", "DU1", "42", "SPY", "OPT", "20201218", "330", "C", "100", "SMART", "USD", "SPY C330",
        "SPY", "10", "1.25",
    ];
    assert_eq!(
        told(101, &items),
        vec![Event::Position {
            account: text("DU1"),
            contract: option_contract("SPY"),
            position: parsed("10"),
            avg_cost: parsed("1.25"),
        }]
    );
    assert_eq!(
        told(
            100,
            &[
                "61", "1", "DU1", "42", "SPY", "OPT", "20201218", "330", "C", "100", "SMART", "USD",
                "SPY C330", "10",
            ]
        ),
        vec![Event::Position {
            account: text("DU1"),
            contract: option_contract(""),
            position: Double::Whole(10),
            avg_cost: Double::Whole(0),
        }]
    );
    assert_eq!(told(100, &["62"]), vec![Event::PositionEnd]);
}

#[test]
fn positions_in_several_accounts() {
    let items = [
        "71", "1", "3", "DU1", "42", "SPY", "OPT", "20201218", "330", "C", "100", "SMART", "USD",
        "SPY C330", "SPY", "10", "1.25", "M",
    ];
    assert_eq!(
        told(100, &items),
        vec![Event::PositionMulti {
            req_id: 3,
            account: text("DU1"),
            model_code: text("M"),
            contract: option_contract("SPY"),
            position: parsed("10"),
            avg_cost: parsed("1.25"),
        }]
    );
    assert!(refused(100, &items[..17]));
    assert_eq!(told(100, &["72", "1", "3"]), vec![Event::PositionMultiEnd { req_id: 3 }]);
}
