//! Messages with historical prices.
use twsapi::decoder::Decoder;
use twsapi::event::Event;
use twsapi::number::Double;
use twsapi::types::{
    BarData, HistogramData, HistoricalTick, HistoricalTickBidAsk, HistoricalTickLast, RealTimeBar,
    TickAttribBidAsk, TickAttribLast,
};

fn fields(items: &[&str]) -> Vec<String> {
    items.iter().map(|s| s.to_string()).collect()
}

fn told(server_version: i32, items: &[&str]) -> Vec<Event> {
    match Decoder::try_interpret(server_version, &fields(items)) {
        Some(Ok(events)) => events,
        _ => panic!("not interpreted"),
    }
}

fn refused(server_version: i32, items: &[&str]) -> bool {
    Decoder::try_interpret(server_version, &fields(items)).is_none()
}

fn parsed(text: &str) -> Double {
    Double::Parsed(text.to_string())
}

fn bar(date: &str, volume: i64, bar_count: i32) -> BarData {
    BarData {
        date: date.to_string(),
        open: parsed("1.0"),
        high: parsed("1.4"),
        low: parsed("0.9"),
        close: parsed("1.2"),
        volume,
        bar_count,
        average: parsed("1.1"),
    }
}

fn end(req_id: i32) -> Event {
    Event::HistoricalDataEnd { req_id, start: "20200101".to_string(), end: "20200103".to_string() }
}

#[test]
fn bars_and_their_end() {
    let items = [
        "17", "5", "20200101", "20200103", "2", "d1", "1.0", "1.4", "0.9", "1.2", "5000000000", "1.1",
        "12", "d2", "1.0", "1.4", "0.9", "1.2", "7", "1.1", "3",
    ];
    assert_eq!(
        told(124, &items),
        vec![
            Event::HistoricalData { req_id: 5, bar: bar("d1", 5000000000, 12) },
            Event::HistoricalData { req_id: 5, bar: bar("d2", 7, 3) },
            end(5),
        ]
    );
    assert!(refused(124, &items[..20]));
}

#[test]
fn bars_of_an_old_server() {
    // a version, a volume of 32 bits, and a mark for gaps
    let items = [
        "17", "3", "5", "20200101", "20200103", "2", "d1", "1.0", "1.4", "0.9", "1.2", "5000000000",
        "1.1", "false", "12", "d2", "1.0", "1.4", "0.9", "1.2", "7", "1.1", "true", "3",
    ];
    assert_eq!(
        told(123, &items),
        vec![
            Event::HistoricalData { req_id: 5, bar: bar("d1", 0, 12) },
            Event::HistoricalData { req_id: 5, bar: bar("d2", 7, 3) },
            end(5),
        ]
    );
    assert!(refused(123, &items[..23]));
}

#[test]
fn bars_that_break_off() {
    let f = fields(&[
        "17", "3", "5", "20200101", "20200103", "2", "d1", "1.0", "1.4", "0.9", "1.2", "5", "1.1",
        "false", "12", "d2", "1.0", "1.4", "0.9", "1.2", "7", "1.1", "true", "3",
    ]);
    let first = vec![Event::HistoricalData { req_id: 5, bar: bar("d1", 5, 12) }];
    assert_eq!(Decoder::process_historical_data(123, &f[..23]), Err(first.clone()));
    assert_eq!(Decoder::process_historical_data(123, &f[..15]), Err(first));
    assert_eq!(Decoder::process_historical_data(123, &f[..14]), Err(vec![]));
    assert_eq!(Decoder::process_historical_data(123, &f[..5]), Err(vec![]));
    assert_eq!(Decoder::process_historical_data(123, &f).map(|events| events.len()), Ok(3));
}

#[test]
fn no_bars_but_their_end() {
    assert_eq!(told(124, &["17", "5", "20200101", "20200103", "0"]), vec![end(5)]);
    assert!(refused(124, &["17", "5", "20200101", "20200103"]));
}

#[test]
fn a_bar_brought_up_to_date() {
    assert_eq!(
        told(124, &["90", "5", "12", "d1", "1.0", "1.2", "1.4", "0.9", "1.1", "80"]),
        vec![Event::HistoricalDataUpdate { req_id: 5, bar: bar("d1", 80, 12) }]
    );
}

#[test]
fn a_bar_of_current_prices() {
    assert_eq!(
        told(100, &["50", "3", "5", "1573000000", "1.0", "1.4", "0.9", "1.2", "80", "1.1", "12"]),
        vec![Event::RealtimeBar {
            req_id: 5,
            bar: RealTimeBar {
                date_time: "1573000000".to_string(),
                open: parsed("1.0"),
                high: parsed("1.4"),
                low: parsed("0.9"),
                close: parsed("1.2"),
                volume: 80,
                wap: parsed("1.1"),
                count: 12,
            },
        }]
    );
}

#[test]
fn a_histogram() {
    assert_eq!(
        told(100, &["89", "5", "2", "10.1", "3", "10.2", "4"]),
        vec![Event::HistogramData {
            req_id: 5,
            items: vec![
                HistogramData { price: parsed("10.1"), count: 3 },
                HistogramData { price: parsed("10.2"), count: 4 },
            ],
        }]
    );
}

#[test]
fn historical_midpoints() {
    let ticks = vec![HistoricalTick { time: 1573000000, price: parsed("10.5"), size: 0 }];
    assert_eq!(
        told(100, &["96", "5", "1", "1573000000", "ignored", "10.5", "0", "1"]),
        vec![Event::HistoricalTicks { req_id: 5, ticks: ticks.clone(), done: true }]
    );
    assert_eq!(
        told(100, &["96", "5", "1", "1573000000", "ignored", "10.5", "0"]),
        vec![Event::HistoricalTicks { req_id: 5, ticks, done: false }]
    );
    assert!(refused(100, &["96", "5", "1", "1573000000", "ignored", "10.5"]));
}

#[test]
fn historical_quotes() {
    assert_eq!(
        told(100, &["97", "5", "1", "1573000000", "1", "10.5", "10.6", "20", "30", "1"]),
        vec![Event::HistoricalTicksBidAsk {
            req_id: 5,
            ticks: vec![HistoricalTickBidAsk {
                time: 1573000000,
                tick_attrib_bid_ask: TickAttribBidAsk { bid_past_low: false, ask_past_high: true },
                price_bid: parsed("10.5"),
                price_ask: parsed("10.6"),
                size_bid: 20,
                size_ask: 30,
            }],
            done: true,
        }]
    );
}

#[test]
fn historical_trades() {
    assert_eq!(
        told(100, &["98", "5", "1", "1573000000", "2", "10.5", "20", "ARCA", "FT", "0"]),
        vec![Event::HistoricalTicksLast {
            req_id: 5,
            ticks: vec![HistoricalTickLast {
                time: 1573000000,
                tick_attrib_last: TickAttribLast { past_limit: false, unreported: true },
                price: parsed("10.5"),
                size: 20,
                exchange: "ARCA".to_string(),
                special_conditions: "FT".to_string(),
            }],
            done: false,
        }]
    );
}
