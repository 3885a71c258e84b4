//! Messages with what a search found.
use twsapi::decoder::Decoder;
use twsapi::event::Event;
use twsapi::number::Double;
use twsapi::types::{Contract, ContractDescription, ContractDetails};

fn fields(items: &[&str]) -> Vec<String> {
    items.iter().map(|s| s.to_string()).collect()
}

fn told(server_version: i32, items: &[&str]) -> Vec<Event> {
    match Decoder::try_interpret(server_version, &fields(items)) {
        Some(Ok(events)) => events,
        _ => panic!("not interpreted"),
    }
}

fn refused(server_version: i32, items: &[&str]) -> bool {
    Decoder::try_interpret(server_version, &fields(items)).is_none()
}

fn parsed(text: &str) -> Double {
    Double::Parsed(text.to_string())
}

fn text(t: &str) -> String {
    t.to_string()
}

fn sample(con_id: i32, symbol: &str, derivatives: &[&str]) -> ContractDescription {
    ContractDescription {
        contract: Contract {
            con_id,
            symbol: text(symbol),
            sec_type: text("STK"),
            primary_exchange: text("NYSE"),
            currency: text("USD"),
            ..Contract::default()
        },
        derivative_sec_types: fields(derivatives),
    }
}

#[test]
fn symbols_with_lists_of_different_length() {
    let items = [
        "79", "4", "3", "1", "A", "STK", "NYSE", "USD", "2", "OPT", "WAR", "2", "B", "STK", "NYSE", "USD",
        "0", "3", "C", "STK", "NYSE", "USD", "1", "CFD",
    ];
    assert_eq!(
        told(100, &items),
        vec![Event::SymbolSamples {
            req_id: 4,
            contract_descriptions: vec![
                sample(1, "A", &["OPT", "WAR"]),
                sample(2, "B", &[]),
                sample(3, "C", &["CFD"]),
            ],
        }]
    );
    assert!(refused(100, &items[..23]));
    assert!(refused(100, &items[..10]));
}

#[test]
fn an_option_chain_lists_no_expiration_twice() {
    let items = [
        "75", "4", "SMART", "756733", "SPY", "100", "4", "20201218", "20210115", "20201218", "20200619",
        "3", "330", "335", "330",
    ];
    let events = told(100, &items);
    assert_eq!(events.len(), 1);
    match &events[0] {
        Event::SecurityDefinitionOptionParameter {
            req_id,
            exchange,
            underlying_con_id,
            trading_class,
            multiplier,
            expirations,
            strikes,
        } => {
            assert_eq!(*req_id, 4);
            assert_eq!(exchange, "SMART");
            assert_eq!(*underlying_con_id, 756733);
            assert_eq!(trading_class, "SPY");
            assert_eq!(multiplier, "100");
            let mut sorted = expirations.clone();
            sorted.sort();
            assert_eq!(sorted, fields(&["20200619", "20201218", "20210115"]));
            assert_eq!(*strikes, vec![parsed("330"), parsed("335"), parsed("330")]);
        }
        _ => panic!("no option chain"),
    }
    assert!(refused(100, &items[..14]));
    assert!(refused(100, &items[..11]));
}

#[test]
fn the_end_of_an_option_chain() {
    assert_eq!(
        told(100, &["76", "4"]),
        vec![Event::SecurityDefinitionOptionParameterEnd { req_id: 4 }]
    );
}

fn found(rank: i32, symbol: &str) -> Event {
    Event::ScannerData {
        req_id: 4,
        rank,
        details: ContractDetails {
            contract: Contract {
                con_id: 77,
                symbol: text(symbol),
                sec_type: text("STK"),
                last_trade_date_or_contract_month: text("d"),
                strike: parsed("0"),
                right: text("r"),
                exchange: text("SMART"),
                currency: text("USD"),
                local_symbol: text("loc"),
                trading_class: text("cls"),
                ..Contract::default()
            },
            market_name: text("mkt"),
            ..ContractDetails::default()
        },
        distance: text("dist"),
        benchmark: text("bench"),
        projection: text("proj"),
        legs: text("legs"),
    }
}

#[test]
fn a_market_scan() {
    let mut items = vec!["20", "3", "4", "2"];
    for (rank, symbol) in [("0", "A"), ("1", "B")] {
        items.extend([
            rank, "77", symbol, "STK", "d", "0", "r", "SMART", "USD", "loc", "mkt", "cls", "dist", "bench",
            "proj", "legs",
        ]);
    }
    assert_eq!(
        told(100, &items),
        vec![found(0, "A"), found(1, "B"), Event::ScannerDataEnd { req_id: 4 }]
    );
    assert!(refused(100, &items[..items.len() - 1]));
    let broken = |len: usize| Decoder::process_scanner_data(&fields(&items[..len]));
    assert_eq!(broken(items.len() - 1), Err(vec![found(0, "A")]));
    assert_eq!(broken(20), Err(vec![found(0, "A")]));
    assert_eq!(broken(19), Err(vec![]));
    assert_eq!(broken(3), Err(vec![]));
}

#[test]
fn a_market_scan_without_entries() {
    assert_eq!(told(100, &["20", "3", "4", "0"]), vec![Event::ScannerDataEnd { req_id: 4 }]);
}

#[test]
fn the_parameters_of_market_scans() {
    assert_eq!(
        told(100, &["19", "1", "<xml/>"]),
        vec![Event::ScannerParameters { xml: text("<xml/>") }]
    );
}
