//! Messages on the session.
use crate::codes::IncomingMessageIds;
use crate::decoder::{is_any_interpretation, Interpretation};
use crate::event::Event;
use crate::session::verify_message_api_event;
use crate::wire::{lemma_kind, long, number, stands, writes};
use vstd::prelude::*;

verus! {

/// An error is told as it was written.
pub proof fn lemma_error_message(
    server_version: i32,
    id: String,
    version: String,
    req_id: String,
    code: String,
    text: String,
    r: Interpretation,
)
    requires
        writes(id, 4),
        is_any_interpretation(server_version, seq![id, version, req_id, code, text], r),
    ensures
        r.ending is Done,
        r.events@ == seq![Event::Error { req_id: number(req_id), code: number(code), text }],
{
    let f = seq![id, version, req_id, code, text];
    lemma_kind(server_version, f, IncomingMessageIds::ErrMsg, r);
}

/// The time of the server is told as it was written.
pub proof fn lemma_current_time(
    server_version: i32,
    id: String,
    version: String,
    time: String,
    r: Interpretation,
)
    requires
        writes(id, 49),
        is_any_interpretation(server_version, seq![id, version, time], r),
    ensures
        r.ending is Done,
        r.events@ == seq![Event::CurrentTime { time: long(time) }],
{
    lemma_kind(server_version, seq![id, version, time], IncomingMessageIds::CurrentTime, r);
}

/// Fundamental data are told as they were written.
pub proof fn lemma_fundamental_data(
    server_version: i32,
    id: String,
    version: String,
    req_id: String,
    data: String,
    r: Interpretation,
)
    requires
        writes(id, 51),
        is_any_interpretation(server_version, seq![id, version, req_id, data], r),
    ensures
        r.ending is Done,
        r.events@ == seq![Event::FundamentalData { req_id: number(req_id), data }],
{
    let f = seq![id, version, req_id, data];
    lemma_kind(server_version, f, IncomingMessageIds::FundamentalData, r);
}

/// The time of the earliest data is told as it was written, as fundamental data.
pub proof fn lemma_head_timestamp(
    server_version: i32,
    id: String,
    req_id: String,
    data: String,
    r: Interpretation,
)
    requires
        writes(id, 88),
        is_any_interpretation(server_version, seq![id, req_id, data], r),
    ensures
        r.ending is Done,
        r.events@ == seq![Event::FundamentalData { req_id: number(req_id), data }],
{
    lemma_kind(server_version, seq![id, req_id, data], IncomingMessageIds::HeadTimestamp, r);
}

/// Display groups are told as they were written.
pub proof fn lemma_display_group_list(
    server_version: i32,
    id: String,
    version: String,
    req_id: String,
    groups: String,
    r: Interpretation,
)
    requires
        writes(id, 67),
        is_any_interpretation(server_version, seq![id, version, req_id, groups], r),
    ensures
        r.ending is Done,
        r.events@ == seq![Event::DisplayGroupList { req_id: number(req_id), groups }],
{
    let f = seq![id, version, req_id, groups];
    lemma_kind(server_version, f, IncomingMessageIds::DisplayGroupList, r);
}

/// A change of a display group is told as it was written.
pub proof fn lemma_display_group_updated(
    server_version: i32,
    id: String,
    version: String,
    req_id: String,
    contract_info: String,
    r: Interpretation,
)
    requires
        writes(id, 68),
        is_any_interpretation(server_version, seq![id, version, req_id, contract_info], r),
    ensures
        r.ending is Done,
        r.events@ == seq![Event::DisplayGroupUpdated { req_id: number(req_id), contract_info }],
{
    let f = seq![id, version, req_id, contract_info];
    lemma_kind(server_version, f, IncomingMessageIds::DisplayGroupUpdated, r);
}

/// The end of a verification is told as it was written; what stands before the outcome is ignored.
pub proof fn lemma_verify_completed(
    server_version: i32,
    id: String,
    version: String,
    ignored: String,
    is_successful: String,
    error_text: String,
    r: Interpretation,
)
    requires
        writes(id, 66),
        is_any_interpretation(
            server_version,
            seq![id, version, ignored, is_successful, error_text],
            r,
        ),
    ensures
        r.ending is Done,
        r.events@ == seq![
            Event::VerifyCompleted {
                is_successful: is_successful@ == "true"@,
                error_text,
            },
        ],
{
    let f = seq![id, version, ignored, is_successful, error_text];
    lemma_kind(server_version, f, IncomingMessageIds::VerifyCompleted, r);
}

/// A verification message is read as the end of a verification.
pub proof fn lemma_verify_message(
    server_version: i32,
    id: String,
    version: String,
    ignored: String,
    is_successful: String,
    error_text: String,
    r: Interpretation,
)
    requires
        writes(id, 65),
        is_any_interpretation(
            server_version,
            seq![id, version, ignored, is_successful, error_text],
            r,
        ),
    ensures
        r.ending is Done,
        r.events@ == seq![
            Event::VerifyCompleted {
                is_successful: is_successful@ == "true"@,
                error_text,
            },
        ],
{
    let f = seq![id, version, ignored, is_successful, error_text];
    lemma_kind(server_version, f, IncomingMessageIds::VerifyMessageApi, r);
}

/// The end of a verification and authorization is told as it was written; what stands before the
/// outcome is ignored.
pub proof fn lemma_verify_and_auth_completed(
    server_version: i32,
    id: String,
    version: String,
    ignored: String,
    is_successful: String,
    error_text: String,
    r: Interpretation,
)
    requires
        writes(id, 70),
        is_any_interpretation(
            server_version,
            seq![id, version, ignored, is_successful, error_text],
            r,
        ),
    ensures
        r.ending is Done,
        r.events@ == seq![
            Event::VerifyAndAuthCompleted {
                is_successful: is_successful@ == "true"@,
                error_text,
            },
        ],
{
    let f = seq![id, version, ignored, is_successful, error_text];
    lemma_kind(server_version, f, IncomingMessageIds::VerifyAndAuthCompleted, r);
}

/// A verification and authorization message is told as it was written.
pub proof fn lemma_verify_and_auth_message_api(
    server_version: i32,
    id: String,
    version: String,
    api_data: String,
    xyz_challenge: String,
    r: Interpretation,
)
    requires
        writes(id, 69),
        is_any_interpretation(server_version, seq![id, version, api_data, xyz_challenge], r),
    ensures
        r.ending is Done,
        r.events@ == seq![Event::VerifyAndAuthMessageApi { api_data, xyz_challenge }],
{
    let f = seq![id, version, api_data, xyz_challenge];
    lemma_kind(server_version, f, IncomingMessageIds::VerifyAndAuthMessageApi, r);
}

/// A verification message on its own is told as it was written.
pub proof fn lemma_verify_message_api(id: String, version: String, api_data: String)
    ensures
        verify_message_api_event(
            seq![id, version, api_data],
        ) == Some(
            Event::VerifyMessageApi { api_data },
        ),
{
}

} // verus!
