//! The numbers of message kinds, tick types and other enumerations.
use twsapi::codes::{FaDataType, IncomingMessageIds, TickByTickType, TickType};

#[test]
fn message_kinds_have_their_numbers() {
    assert_eq!(IncomingMessageIds::from_i32(1), Some(IncomingMessageIds::TickPrice));
    assert_eq!(IncomingMessageIds::from_i32(4), Some(IncomingMessageIds::ErrMsg));
    assert_eq!(IncomingMessageIds::from_i32(49), Some(IncomingMessageIds::CurrentTime));
    assert_eq!(IncomingMessageIds::from_i32(102), Some(IncomingMessageIds::CompletedOrdersEnd));
    assert_eq!(IncomingMessageIds::from_i32(0), None);
    assert_eq!(IncomingMessageIds::from_i32(48), None);
    assert_eq!(IncomingMessageIds::from_i32(-1), None);
    assert_eq!(IncomingMessageIds::from_i32(103), None);
}

#[test]
fn tick_types_have_their_numbers() {
    assert_eq!(TickType::from_i32(0), Some(TickType::BidSize));
    assert_eq!(TickType::from_i32(1), Some(TickType::Bid));
    assert_eq!(TickType::from_i32(4), Some(TickType::Last));
    assert_eq!(TickType::from_i32(-1), None);
    assert_eq!(TickType::from_i32(1000), None);
}

#[test]
fn other_codes_have_their_numbers() {
    assert_eq!(FaDataType::from_i32(1), Some(FaDataType::Groups));
    assert_eq!(FaDataType::from_i32(3), Some(FaDataType::Aliases));
    assert_eq!(FaDataType::from_i32(0), None);
    assert_eq!(TickByTickType::from_i32(1), Some(TickByTickType::Last));
    assert_eq!(TickByTickType::from_i32(4), Some(TickByTickType::MidPoint));
    assert_eq!(TickByTickType::from_i32(5), None);
}

#[test]
fn no_two_numbers_stand_for_one_kind() {
    let mut seen: Vec<IncomingMessageIds> = Vec::new();
    for code in -10..300 {
        if let Some(id) = IncomingMessageIds::from_i32(code) {
            assert!(!seen.contains(&id));
            seen.push(id);
        }
    }
    assert_eq!(seen.len(), 77);
}
