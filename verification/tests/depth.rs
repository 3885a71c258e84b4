//! Messages with market depth and market structure.
use twsapi::decoder::Decoder;
use twsapi::event::Event;
use twsapi::number::Double;
use twsapi::types::{DepthMktDataDescription, PriceIncrement, SmartComponent};

fn fields(items: &[&str]) -> Vec<String> {
    items.iter().map(|s| s.to_string()).collect()
}

fn told(server_version: i32, items: &[&str]) -> Vec<Event> {
    match Decoder::try_interpret(server_version, &fields(items)) {
        Some(Ok(events)) => events,
        _ => panic!("not interpreted"),
    }
}

fn refused(server_version: i32, items: &[&str]) -> bool {
    Decoder::try_interpret(server_version, &fields(items)).is_none()
}

fn parsed(text: &str) -> Double {
    Double::Parsed(text.to_string())
}

#[test]
fn a_row_of_the_book() {
    assert_eq!(
        told(100, &["12", "1", "7", "2", "1", "0", "99.5", "400"]),
        vec![Event::UpdateMktDepth {
            req_id: 7,
            position: 2,
            operation: 1,
            side: 0,
            price: parsed("99.5"),
            size: 400,
        }]
    );
    assert!(refused(100, &["12", "1", "7", "2", "1", "0", "99.5"]));
}

#[test]
fn a_row_of_the_book_with_its_maker() {
    let row = |is_smart_depth: bool| {
        vec![Event::UpdateMktDepthL2 {
            req_id: 7,
            position: 2,
            market_maker: "NSDQ".to_string(),
            operation: 1,
            side: 0,
            price: parsed("99.5"),
            size: 400,
            is_smart_depth,
        }]
    };
    let items = ["13", "1", "7", "2", "NSDQ", "1", "0", "99.5", "400", "1"];
    assert_eq!(told(146, &items), row(true));
    assert_eq!(told(145, &items), row(false));
    assert_eq!(told(146, &items[..9]), row(false));
    assert!(refused(146, &items[..8]));
}

#[test]
fn exchanges_with_depth() {
    let described = |listing_exch: &str, service_data_type: &str, agg_group: i32| {
        DepthMktDataDescription {
            exchange: "ISLAND".to_string(),
            sec_type: "STK".to_string(),
            listing_exch: listing_exch.to_string(),
            service_data_type: service_data_type.to_string(),
            agg_group,
        }
    };
    assert_eq!(
        told(120, &["80", "1", "ISLAND", "STK", "NASDAQ", "Deep2", "4"]),
        vec![Event::MktDepthExchanges { descriptions: vec![described("NASDAQ", "Deep2", 4)] }]
    );
    assert_eq!(
        told(119, &["80", "2", "ISLAND", "STK", "1", "ISLAND", "STK", "0"]),
        vec![Event::MktDepthExchanges { descriptions: vec![described("", "", 0), described("", "", 0)] }]
    );
    assert!(refused(120, &["80", "1", "ISLAND", "STK", "NASDAQ", "Deep2"]));
}

#[test]
fn price_steps() {
    assert_eq!(
        told(100, &["93", "26", "2", "0", "0.01", "100", "0.05"]),
        vec![Event::MarketRule {
            market_rule_id: 26,
            price_increments: vec![
                PriceIncrement { low_edge: parsed("0"), increment: parsed("0.01") },
                PriceIncrement { low_edge: parsed("100"), increment: parsed("0.05") },
            ],
        }]
    );
}

#[test]
fn a_negative_count_is_an_empty_list() {
    assert_eq!(
        told(100, &["93", "26", "-2"]),
        vec![Event::MarketRule { market_rule_id: 26, price_increments: vec![] }]
    );
}

#[test]
fn exchanges_behind_smart_routing() {
    assert_eq!(
        told(100, &["82", "3", "1", "5", "ARCA", "P"]),
        vec![Event::SmartComponents {
            req_id: 3,
            components: vec![SmartComponent {
                bit_number: 5,
                exchange: "ARCA".to_string(),
                exchange_letter: "P".to_string(),
            }],
        }]
    );
    assert!(refused(100, &["82", "3", "2", "5", "ARCA", "P"]));
}

#[test]
fn requests_sent_elsewhere() {
    assert_eq!(
        told(100, &["91", "3", "265598", "SMART"]),
        vec![Event::RerouteMktDataReq { req_id: 3, con_id: 265598, exchange: "SMART".to_string() }]
    );
    assert_eq!(
        told(100, &["92", "3", "265598", "SMART"]),
        vec![Event::RerouteMktDepthReq { req_id: 3, con_id: 265598, exchange: "SMART".to_string() }]
    );
}
