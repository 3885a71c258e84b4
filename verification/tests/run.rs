//! Whole messages: their fields, what comes of them, and the run that they belong to.
use twsapi::codes::ConnStatus;
use twsapi::decoder::{Decoder, Ending};
use twsapi::errors::{IBKRApiLibError, TwsError};
use twsapi::event::Event;
use twsapi::messages::read_fields;
use twsapi::run::{Run, Verdict, MAX_MSG_LEN, NO_VALID_ID};

fn fields(items: &[&str]) -> Vec<String> {
    items.iter().map(|s| s.to_string()).collect()
}

fn framed(items: &[&str]) -> String {
    items.iter().map(|s| format!("{}\0", s)).collect()
}

#[test]
fn a_message_is_split_into_its_fields() {
    assert_eq!(read_fields("4\02\0-1\0"), fields(&["4", "2", "-1"]));
    assert_eq!(read_fields("\0\0"), fields(&["", ""]));
    assert_eq!(read_fields(""), fields(&[]));
}

#[test]
fn a_field_that_is_not_ended_is_no_field() {
    assert_eq!(read_fields("4\02"), fields(&["4"]));
    assert_eq!(read_fields("42"), fields(&[]));
}

#[test]
fn a_message_is_read_as_the_fields_it_was_made_of() {
    let items = ["84", "", "Zürich ", "\u{1F600}", "x\ny"];
    assert_eq!(read_fields(&framed(&items)), fields(&items));
}

#[test]
fn no_fields_tell_nothing() {
    assert_eq!(Decoder::interpret(100, &[]).ok(), Some(vec![]));
    assert!(matches!(Decoder::try_interpret(100, &[]), Some(Ok(events)) if events.is_empty()));
}

#[test]
fn a_kind_that_is_no_integer_is_an_error() {
    for kind in ["x", "", "1.0", "99999999999", " 4"] {
        match Decoder::try_interpret(100, &fields(&[kind, "2"])) {
            Some(Err(IBKRApiLibError::ParseInt(field))) => assert_eq!(field, kind),
            _ => panic!("no error"),
        }
    }
}

#[test]
fn an_unknown_kind_is_not_interpreted() {
    for kind in ["0", "22", "103", "-1"] {
        assert!(Decoder::try_interpret(100, &fields(&[kind, "1", "2", "3", "4", "5", "6"])).is_none());
    }
}

#[test]
fn a_message_that_can_be_interpreted_is() {
    let f = fields(&["49", "1", "77"]);
    assert_eq!(Decoder::interpret(100, &f).ok(), Some(vec![Event::CurrentTime { time: 77 }]));
}

#[test]
fn later_fields_are_ignored() {
    let short = fields(&["9", "1", "55"]);
    let long = fields(&["9", "1", "55", "56", "x"]);
    assert_eq!(
        Decoder::interpret(100, &short).ok(),
        Decoder::interpret(100, &long).ok()
    );
    assert_eq!(Decoder::interpret(100, &long).ok(), Some(vec![Event::NextValidId { order_id: 55 }]));
}

#[test]
fn a_decoder_knows_the_version_of_its_server() {
    assert_eq!(Decoder::new(151).server_version, 151);
}

#[test]
fn a_message_tells_its_events() {
    let decoder = Decoder::new(132);
    let reception = decoder.receive(&framed(&["9", "1", "55"]));
    assert_eq!(reception.verdict, Verdict::Continue);
    assert_eq!(reception.events, vec![Event::NextValidId { order_id: 55 }]);
}

#[test]
fn a_message_comes_to_what_its_fields_come_to() {
    let items = ["1", "6", "7", "1", "2.5", "40", "0"];
    let events = Decoder::interpret(132, &fields(&items)).ok();
    assert_eq!(Some(Decoder::new(132).receive(&framed(&items)).events), events);
    assert_eq!(events.map(|e| e.len()), Some(2));
}

#[test]
fn the_same_texts_are_interpreted_alike() {
    for items in [vec!["9", "1", "55"], vec!["9", "1"], vec!["79", "4", "1", "1", "A"]] {
        let f = fields(&items);
        let g: Vec<String> = items.iter().map(|s| s.chars().collect()).collect();
        assert_eq!(
            Decoder::try_interpret(100, &f).is_some(),
            Decoder::try_interpret(100, &g).is_some()
        );
    }
}

#[test]
fn the_version_decides_how_a_message_is_read() {
    let message = framed(&["94", "3", "1.5"]);
    assert_eq!(Decoder::new(128).receive(&message).verdict, Verdict::Continue);
    assert_eq!(Decoder::new(129).receive(&message).verdict, Verdict::Broken);
}

#[test]
fn a_message_in_error_fails_the_run() {
    let reception = Decoder::new(132).receive("x\0");
    assert_eq!(reception.verdict, Verdict::Fail);
    assert!(reception.events.is_empty());
}

#[test]
fn a_message_that_breaks_off_breaks_its_thread_but_not_the_run() {
    for message in ["1\0", "0\0", "9\01\0"] {
        let reception = Decoder::new(132).receive(message);
        assert_eq!(reception.verdict, Verdict::Broken);
        assert!(reception.events.is_empty());
        let mut run = Run::start();
        run.note(reception.verdict);
        assert!(run.is_running());
        assert!(run.succeeded());
    }
}

#[test]
fn a_list_that_breaks_off_tells_its_leading_entries() {
    let bar = ["d", "1.0", "1.4", "0.9", "1.2", "7", "1.1", "3"];
    let mut items = vec!["17", "5", "20200101", "20200103", "3"];
    for _ in 0..3 {
        items.extend(bar);
    }
    let decoder = Decoder::new(124);
    let whole = decoder.receive(&framed(&items));
    assert_eq!(whole.verdict, Verdict::Continue);
    assert_eq!(whole.events.len(), 4);
    for len in 1..items.len() {
        let reception = decoder.receive(&framed(&items[..len]));
        let bars = if len < 5 { 0 } else { (len - 5) / 8 };
        assert_eq!(reception.verdict, Verdict::Broken);
        assert_eq!(reception.events, whole.events[..bars].to_vec());
    }
    // a complete list tells its end, too
    assert_eq!(whole.events[3], Event::HistoricalDataEnd {
        req_id: 5,
        start: "20200101".to_string(),
        end: "20200103".to_string(),
    });
}

#[test]
fn any_fields_are_interpreted_as_far_as_they_go() {
    let done = Decoder::interpret_any(100, &fields(&["9", "1", "55"]));
    assert!(matches!(done.ending, Ending::Done));
    assert_eq!(done.events, vec![Event::NextValidId { order_id: 55 }]);
    let failed = Decoder::interpret_any(100, &fields(&["x", "1"]));
    assert!(matches!(failed.ending, Ending::Failed(IBKRApiLibError::ParseInt(f)) if f == "x"));
    assert!(failed.events.is_empty());
    let broken = Decoder::interpret_any(100, &fields(&["9", "1"]));
    assert!(matches!(broken.ending, Ending::BrokenOff));
    assert!(broken.events.is_empty());
    let unknown = Decoder::interpret_any(100, &fields(&["0", "1"]));
    assert!(matches!(unknown.ending, Ending::BrokenOff));
    assert!(unknown.events.is_empty());
    let none = Decoder::interpret_any(100, &[]);
    assert!(matches!(none.ending, Ending::Done));
    assert!(none.events.is_empty());
}

#[test]
fn a_message_that_is_too_long_ends_the_connection() {
    let message = "y".repeat(MAX_MSG_LEN + 1);
    let reception = Decoder::new(132).receive(&message);
    assert_eq!(reception.verdict, Verdict::Disconnect);
    assert_eq!(
        reception.events,
        vec![
            Event::Error {
                req_id: NO_VALID_ID,
                code: TwsError::NotConnected.code(),
                text: format!("Not connected:16777216:{}", message),
            },
            Event::ConnectionClosed,
        ]
    );
}

#[test]
fn the_length_is_counted_in_bytes() {
    let decoder = Decoder::new(132);
    let longest = "y".repeat(MAX_MSG_LEN);
    assert_eq!(decoder.receive(&longest).verdict, Verdict::Continue);
    let wide = "\u{e9}".repeat(MAX_MSG_LEN / 2 + 1);
    assert_eq!(wide.chars().count(), 8388608);
    assert_eq!(decoder.receive(&wide).verdict, Verdict::Disconnect);
}

#[test]
fn the_error_that_is_reported() {
    assert_eq!(TwsError::NotConnected.code(), 504);
    assert_eq!(TwsError::NotConnected.message(), "Not connected");
}

#[test]
fn a_run_goes_on_until_it_is_told_to_stop() {
    let mut run = Run::start();
    assert!(run.is_running());
    assert!(run.succeeded());
    run.note(Verdict::Continue);
    assert!(run.is_running());
    run.note(Verdict::Disconnect);
    assert!(!run.is_running());
    assert!(run.succeeded());
    run.note(Verdict::Continue);
    assert!(!run.is_running());
}

#[test]
fn a_failed_run_stays_failed() {
    let mut run = Run::start();
    run.note(Verdict::Fail);
    assert!(!run.is_running());
    assert!(!run.succeeded());
    run.note(Verdict::Disconnect);
    run.note(Verdict::Continue);
    assert!(!run.succeeded());
}

#[test]
fn verdicts_may_come_in_any_order() {
    let orders = [
        [Verdict::Continue, Verdict::Disconnect, Verdict::Fail],
        [Verdict::Fail, Verdict::Continue, Verdict::Disconnect],
        [Verdict::Disconnect, Verdict::Fail, Verdict::Continue],
    ];
    for verdicts in orders {
        let mut run = Run::start();
        for verdict in verdicts {
            run.note(verdict);
        }
        assert!(!run.is_running());
        assert!(!run.succeeded());
    }
}

#[test]
fn a_message_that_cannot_be_delivered_fails_the_run() {
    for verdict in [Verdict::Continue, Verdict::Broken, Verdict::Disconnect, Verdict::Fail] {
        assert_eq!(verdict.after_delivery(true), verdict);
        assert_eq!(verdict.after_delivery(false), Verdict::Fail);
    }
}

#[test]
fn every_message_is_fed_once_and_the_run_succeeds() {
    let decoder = Decoder::new(132);
    // the last but one breaks off, which is no harm to the others
    let messages = [
        framed(&["9", "1", "55"]),
        framed(&[]),
        framed(&["1", "6", "7", "1", "2.5", "40", "0"]),
        framed(&["20", "3", "4", "1", "0", "77"]),
        framed(&["9", "1", "55"]),
    ];
    // the threads come to their end in different orders
    for order in [[0, 1, 2, 3, 4], [3, 1, 0, 4, 2], [2, 3, 4, 1, 0]] {
        let mut run = Run::start();
        let mut fed = vec![0; messages.len()];
        for i in order {
            let reception = decoder.receive(&messages[i]);
            match Decoder::try_interpret(132, &read_fields(&messages[i])) {
                Some(told) => {
                    assert_eq!(reception.verdict, Verdict::Continue);
                    assert_eq!(Some(reception.events), told.ok());
                }
                None => {
                    assert_eq!(reception.verdict, Verdict::Broken);
                    assert!(reception.events.is_empty());
                }
            }
            fed[i] += 1;
            assert!(run.is_running());
            run.note(reception.verdict.after_delivery(true));
        }
        assert_eq!(fed, vec![1; messages.len()]);
        assert!(run.is_running());
        let (events, state) = run.queue_closed(ConnStatus::CONNECTED);
        assert_eq!(events, vec![Event::ConnectionClosed]);
        assert_eq!(state, ConnStatus::DISCONNECTED);
        assert!(!run.is_running());
        assert!(run.succeeded());
    }
}

#[test]
fn the_same_texts_agree_on_error_and_on_the_number_of_events() {
    let decoder = Decoder::new(132);
    for items in [vec!["x", "1"], vec!["1", "6", "7", "1", "2.5", "40", "0"], vec!["20", "3", "4", "0"]] {
        let reception = decoder.receive(&framed(&items));
        match Decoder::try_interpret(132, &fields(&items)) {
            Some(Ok(events)) => {
                assert_eq!(reception.verdict, Verdict::Continue);
                assert_eq!(reception.events.len(), events.len());
            }
            Some(Err(_)) => {
                assert_eq!(reception.verdict, Verdict::Fail);
                assert!(reception.events.is_empty());
            }
            None => panic!("not interpreted"),
        }
    }
}

#[test]
fn a_closed_queue_ends_the_run() {
    for state in [ConnStatus::CONNECTED, ConnStatus::CONNECTING, ConnStatus::REDIRECT] {
        let mut run = Run::start();
        let (events, after) = run.queue_closed(state);
        assert_eq!(events, vec![Event::ConnectionClosed]);
        assert_eq!(after, ConnStatus::DISCONNECTED);
        assert!(!run.is_running());
        assert!(run.succeeded());
    }
}

#[test]
fn a_connection_is_closed_once() {
    let mut run = Run::start();
    run.note(Verdict::Fail);
    let (events, after) = run.queue_closed(ConnStatus::DISCONNECTED);
    assert!(events.is_empty());
    assert_eq!(after, ConnStatus::DISCONNECTED);
    assert!(!run.is_running());
    assert!(!run.succeeded());
}
