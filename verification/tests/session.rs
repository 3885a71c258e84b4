//! Messages with news, and on the session.
use twsapi::decoder::Decoder;
use twsapi::event::Event;
use twsapi::types::NewsProvider;

fn fields(items: &[&str]) -> Vec<String> {
    items.iter().map(|s| s.to_string()).collect()
}

fn told(server_version: i32, items: &[&str]) -> Vec<Event> {
    match Decoder::try_interpret(server_version, &fields(items)) {
        Some(Ok(events)) => events,
        _ => panic!("not interpreted"),
    }
}

fn refused(server_version: i32, items: &[&str]) -> bool {
    Decoder::try_interpret(server_version, &fields(items)).is_none()
}

fn text(t: &str) -> String {
    t.to_string()
}

#[test]
fn articles_and_bulletins() {
    assert_eq!(
        told(100, &["83", "2", "0", "story"]),
        vec![Event::NewsArticle { req_id: 2, article_type: 0, article_text: text("story") }]
    );
    assert_eq!(
        told(100, &["14", "1", "2", "3", "halted", "NYSE"]),
        vec![Event::UpdateNewsBulletin {
            msg_id: 2,
            msg_type: 3,
            message: text("halted"),
            originating_exch: text("NYSE"),
        }]
    );
    assert_eq!(
        told(100, &["85", "1", "BRFG", "Briefing"]),
        vec![Event::NewsProviders {
            news_providers: vec![NewsProvider { code: text("BRFG"), name: text("Briefing") }],
        }]
    );
    assert!(refused(100, &["85", "2", "BRFG", "Briefing"]));
}

#[test]
fn headlines() {
    assert_eq!(
        told(100, &["86", "2", "t", "BRFG", "id", "head"]),
        vec![Event::HistoricalNews {
            req_id: 2,
            time: text("t"),
            provider_code: text("BRFG"),
            article_id: text("id"),
            headline: text("head"),
        }]
    );
    assert_eq!(
        told(100, &["87", "2", "1"]),
        vec![Event::HistoricalNewsEnd { req_id: 2, has_more: true }]
    );
    assert_eq!(
        told(100, &["87", "2"]),
        vec![Event::HistoricalNewsEnd { req_id: 2, has_more: false }]
    );
    assert!(refused(100, &["87"]));
    assert_eq!(
        told(100, &["84", "2", "1573000000", "BRFG", "id", "head", "K:1"]),
        vec![Event::TickNews {
            req_id: 2,
            time_stamp: 1573000000,
            provider_code: text("BRFG"),
            article_id: text("id"),
            headline: text("head"),
            extra_data: text("K:1"),
        }]
    );
}

#[test]
fn errors_and_the_time() {
    assert_eq!(
        told(100, &["4", "2", "-1", "2104", "Market data farm is OK"]),
        vec![Event::Error { req_id: -1, code: 2104, text: text("Market data farm is OK") }]
    );
    assert_eq!(
        told(100, &["49", "1", "4102444800000"]),
        vec![Event::CurrentTime { time: 4102444800000 }]
    );
    assert!(refused(100, &["4", "2", "-1", "2104"]));
}

#[test]
fn fundamental_data_and_the_earliest_data() {
    assert_eq!(
        told(100, &["51", "1", "2", "<xml/>"]),
        vec![Event::FundamentalData { req_id: 2, data: text("<xml/>") }]
    );
    assert_eq!(
        told(100, &["88", "2", "20000103"]),
        vec![Event::FundamentalData { req_id: 2, data: text("20000103") }]
    );
}

#[test]
fn display_groups() {
    assert_eq!(
        told(100, &["67", "1", "2", "1|2"]),
        vec![Event::DisplayGroupList { req_id: 2, groups: text("1|2") }]
    );
    assert_eq!(
        told(100, &["68", "1", "2", "8314@SMART"]),
        vec![Event::DisplayGroupUpdated { req_id: 2, contract_info: text("8314@SMART") }]
    );
}

#[test]
fn a_verification_ends() {
    assert_eq!(
        told(100, &["66", "1", "false", "true", ""]),
        vec![Event::VerifyCompleted { is_successful: true, error_text: text("") }]
    );
    assert_eq!(
        told(100, &["66", "1", "true", "TRUE", "why"]),
        vec![Event::VerifyCompleted { is_successful: false, error_text: text("why") }]
    );
    assert_eq!(
        told(100, &["70", "1", "x", "true", "e"]),
        vec![Event::VerifyAndAuthCompleted { is_successful: true, error_text: text("e") }]
    );
    assert!(refused(100, &["66", "1", "true", "true"]));
}

#[test]
fn verification_messages() {
    assert_eq!(
        told(100, &["69", "1", "data", "challenge"]),
        vec![Event::VerifyAndAuthMessageApi {
            api_data: text("data"),
            xyz_challenge: text("challenge"),
        }]
    );
    assert_eq!(
        Decoder::process_verify_message_api(&fields(&["65", "1", "data"])),
        Some(Event::VerifyMessageApi { api_data: text("data") })
    );
    // such a message is interpreted as the end of a verification
    assert_eq!(
        told(100, &["65", "1", "a", "true", "b"]),
        told(100, &["66", "1", "a", "true", "b"])
    );
    assert!(refused(100, &["65", "1", "data"]));
}
