//! Messages on the session: errors, time, verification, display groups, fundamental data.
use crate::decoder::Decoder;
use crate::event::Event;
use crate::fields::{int_at, long_at, Reader};
use vstd::prelude::*;

verus! {

/// What an error message tells.
pub open spec fn error_message_event(f: Seq<String>) -> Option<Event> {
    if f.len() >= 5 {
        Some(Event::Error { req_id: int_at(f, 2), code: int_at(f, 3), text: f[4] })
    } else {
        None
    }
}

/// What a message on the time of the server tells.
pub open spec fn current_time_event(f: Seq<String>) -> Option<Event> {
    if f.len() >= 3 {
        Some(Event::CurrentTime { time: long_at(f, 2) })
    } else {
        None
    }
}

/// What a message on the display groups tells.
pub open spec fn display_group_list_event(f: Seq<String>) -> Option<Event> {
    if f.len() >= 4 {
        Some(Event::DisplayGroupList { req_id: int_at(f, 2), groups: f[3] })
    } else {
        None
    }
}

/// What a message on a change of a display group tells.
pub open spec fn display_group_updated_event(f: Seq<String>) -> Option<Event> {
    if f.len() >= 4 {
        Some(Event::DisplayGroupUpdated { req_id: int_at(f, 2), contract_info: f[3] })
    } else {
        None
    }
}

/// What a message with fundamental data tells.
pub open spec fn fundamental_data_event(f: Seq<String>) -> Option<Event> {
    if f.len() >= 4 {
        Some(Event::FundamentalData { req_id: int_at(f, 2), data: f[3] })
    } else {
        None
    }
}

/// What a message on the earliest data tells; it is handed on as fundamental data.
pub open spec fn head_timestamp_event(f: Seq<String>) -> Option<Event> {
    if f.len() >= 3 {
        Some(Event::FundamentalData { req_id: int_at(f, 1), data: f[2] })
    } else {
        None
    }
}

/// What a verification message tells.
pub open spec fn verify_message_api_event(f: Seq<String>) -> Option<Event> {
    if f.len() >= 3 {
        Some(Event::VerifyMessageApi { api_data: f[2] })
    } else {
        None
    }
}

/// What the end of a verification tells. Whether it succeeded stands in the fourth field.
pub open spec fn verify_completed_event(f: Seq<String>) -> Option<Event> {
    if f.len() >= 5 {
        Some(Event::VerifyCompleted { is_successful: f[3]@ == "true"@, error_text: f[4] })
    } else {
        None
    }
}

/// What a verification and authorization message tells.
pub open spec fn verify_and_auth_message_api_event(f: Seq<String>) -> Option<Event> {
    if f.len() >= 4 {
        Some(Event::VerifyAndAuthMessageApi { api_data: f[2], xyz_challenge: f[3] })
    } else {
        None
    }
}

/// What the end of a verification and authorization tells. Whether it succeeded stands in the
/// fourth field.
pub open spec fn verify_and_auth_completed_event(f: Seq<String>) -> Option<Event> {
    if f.len() >= 5 {
        Some(Event::VerifyAndAuthCompleted { is_successful: f[3]@ == "true"@, error_text: f[4] })
    } else {
        None
    }
}

/// Whether a field says `true`.
fn says_true(field: &String) -> (r: bool)
    ensures
        r == (field@ == "true"@),
{
    let wanted: String = "true".to_owned();
    *field == wanted
}

impl Decoder {
    /// Reads an error message.
    pub fn process_error_message(fields: &[String]) -> (r: Option<Event>)
        ensures
            r == error_message_event(fields@),
    {
        let mut reader = Reader::new(fields);
        reader.skip();
        reader.skip();
        let req_id: i32 = reader.next_i32()?;
        let code: i32 = reader.next_i32()?;
        let text = reader.next_text()?;
        Some(Event::Error { req_id, code, text })
    }

    /// Reads a message on the time of the server.
    pub fn process_current_time(fields: &[String]) -> (r: Option<Event>)
        ensures
            r == current_time_event(fields@),
    {
        let mut reader = Reader::new(fields);
        reader.skip();
        reader.skip();
        let time: i64 = reader.next_i64()?;
        Some(Event::CurrentTime { time })
    }

    /// Reads a message on the display groups.
    pub fn process_display_group_list(fields: &[String]) -> (r: Option<Event>)
        ensures
            r == display_group_list_event(fields@),
    {
        let mut reader = Reader::new(fields);
        reader.skip();
        reader.skip();
        let req_id: i32 = reader.next_i32()?;
        let groups = reader.next_text()?;
        Some(Event::DisplayGroupList { req_id, groups })
    }

    /// Reads a message on a change of a display group.
    pub fn process_display_group_updated(fields: &[String]) -> (r: Option<Event>)
        ensures
            r == display_group_updated_event(fields@),
    {
        let mut reader = Reader::new(fields);
        reader.skip();
        reader.skip();
        let req_id: i32 = reader.next_i32()?;
        let contract_info = reader.next_text()?;
        Some(Event::DisplayGroupUpdated { req_id, contract_info })
    }

    /// Reads a message with fundamental data.
    pub fn process_fundamental_data(fields: &[String]) -> (r: Option<Event>)
        ensures
            r == fundamental_data_event(fields@),
    {
        let mut reader = Reader::new(fields);
        reader.skip();
        reader.skip();
        let req_id: i32 = reader.next_i32()?;
        let data = reader.next_text()?;
        Some(Event::FundamentalData { req_id, data })
    }

    /// Reads a message on the earliest data.
    pub fn process_head_timestamp(fields: &[String]) -> (r: Option<Event>)
        ensures
            r == head_timestamp_event(fields@),
    {
        let mut reader = Reader::new(fields);
        reader.skip();
        let req_id: i32 = reader.next_i32()?;
        let data = reader.next_text()?;
        Some(Event::FundamentalData { req_id, data })
    }

    /// Reads a verification message.
    pub fn process_verify_message_api(fields: &[String]) -> (r: Option<Event>)
        ensures
            r == verify_message_api_event(fields@),
    {
        let mut reader = Reader::new(fields);
        reader.skip();
        reader.skip();
        let api_data = reader.next_text()?;
        Some(Event::VerifyMessageApi { api_data })
    }

    /// Reads the end of a verification.
    pub fn process_verify_completed(fields: &[String]) -> (r: Option<Event>)
        ensures
            r == verify_completed_event(fields@),
    {
        let mut reader = Reader::new(fields);
        reader.skip();
        reader.skip();
        reader.next_text()?;
        let outcome = reader.next_text()?;
        let is_successful = says_true(&outcome);
        let error_text = reader.next_text()?;
        Some(Event::VerifyCompleted { is_successful, error_text })
    }

    /// Reads a verification and authorization message.
    pub fn process_verify_and_auth_message_api(fields: &[String]) -> (r: Option<Event>)
        ensures
            r == verify_and_auth_message_api_event(fields@),
    {
        let mut reader = Reader::new(fields);
        reader.skip();
        reader.skip();
        let api_data = reader.next_text()?;
        let xyz_challenge = reader.next_text()?;
        Some(Event::VerifyAndAuthMessageApi { api_data, xyz_challenge })
    }

    /// Reads the end of a verification and authorization.
    pub fn process_verify_and_auth_completed(fields: &[String]) -> (r: Option<Event>)
        ensures
            r == verify_and_auth_completed_event(fields@),
    {
        let mut reader = Reader::new(fields);
        reader.skip();
        reader.skip();
        reader.next_text()?;
        let outcome = reader.next_text()?;
        let is_successful = says_true(&outcome);
        let error_text = reader.next_text()?;
        Some(Event::VerifyAndAuthCompleted { is_successful, error_text })
    }
}

} // verus!
