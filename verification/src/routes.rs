//! How each operation's outcome is answered over HTTP: the status code and
//! the record sent as the body.
use vstd::prelude::*;
use crate::status::{Status, status_text};
use crate::models::{ErrorStatus, CreateGroupResp, SignupResp, LoginResp, LogoffResp, JoinGroupResp, SetAdminResp, StopAdminResp, LeaveGroupResp, DeleteGroupResp, ChristmasResp, GetGiftRecipientIdResp, GetUserNameByIdResp};

verus! {

/// The body of a reply: a record to be sent as JSON, or a text sent as it is.
#[derive(Debug)]
pub enum Body {
    Error(ErrorStatus),
    CreateGroup(CreateGroupResp),
    Signup(SignupResp),
    Login(LoginResp),
    Logoff(LogoffResp),
    JoinGroup(JoinGroupResp),
    SetAdmin(SetAdminResp),
    StopAdmin(StopAdminResp),
    LeaveGroup(LeaveGroupResp),
    DeleteGroup(DeleteGroupResp),
    Christmas(ChristmasResp),
    GiftRecipient(GetGiftRecipientIdResp),
    UserName(GetUserNameByIdResp),
    Text(String),
}

/// An HTTP reply.
#[derive(Debug)]
pub struct Reply {
    pub code: u16,
    pub body: Body,
}

/// The reply is a refusal with this code and reason.
pub open spec fn is_error_reply(r: Reply, code: u16, reason: Seq<char>) -> bool {
    &&& r.code == code
    &&& r.body matches Body::Error(e) && e.reason@ == reason
}

/// The reply to a request whose body is not the JSON the operation takes.
pub fn wrong_syntax() -> (r: Reply)
    ensures
        r.code == 422,
        r.body matches Body::Text(t) && t@ == "{\"reason\": \"Wrong syntax\"}"@,
{
    Reply { code: 422, body: Body::Text(String::from_str("{\"reason\": \"Wrong syntax\"}")) }
}

fn refusal(code: u16, status: Status) -> (r: Reply)
    ensures
        is_error_reply(r, code, status_text(status)),
{
    Reply { code, body: Body::Error(ErrorStatus { reason: status.text() }) }
}

/// Answers a request for one's gift recipient.
pub fn get_gift_recipient_id(status: Status, gift_recipient_id: u32) -> (r: Reply)
    ensures
        status == Status::Success ==> r.code == 201 && (r.body matches Body::GiftRecipient(b)
            && b.gift_recipient_id == gift_recipient_id),
        status != Status::Success ==> is_error_reply(r, 422, status_text(status)),
{
    if status.is_success() {
        Reply { code: 201, body: Body::GiftRecipient(GetGiftRecipientIdResp { gift_recipient_id }) }
    } else {
        refusal(422, status)
    }
}

/// Answers a group creation.
pub fn create_group(status: Status, group_id: u32) -> (r: Reply)
    ensures
        status == Status::Success ==> r.code == 201 && (r.body matches Body::CreateGroup(b)
            && b.group_id == group_id),
        status != Status::Success ==> is_error_reply(r, 422, status_text(status)),
{
    if status.is_success() {
        Reply { code: 201, body: Body::CreateGroup(CreateGroupResp { group_id }) }
    } else {
        refusal(422, status)
    }
}

/// Answers joining a group.
pub fn join_group(status: Status) -> (r: Reply)
    ensures
        status == Status::Success ==> r.code == 201 && (r.body matches Body::JoinGroup(b)
            && b.status@ == status_text(status)),
        status != Status::Success ==> is_error_reply(r, 422, status_text(status)),
{
    if status.is_success() {
        Reply { code: 201, body: Body::JoinGroup(JoinGroupResp { status: status.text() }) }
    } else {
        refusal(422, status)
    }
}

/// Answers a registration from the triple it ended with: an empty first
/// text is a refusal, anything else is sent back as the token.
pub fn signup(token: String, status: String, user_id: u32) -> (r: Reply)
    ensures
        token@.len() == 0 ==> is_error_reply(r, 422, status@),
        token@.len() != 0 ==> r.code == 201 && (r.body matches Body::Signup(b) && b.token == token
            && b.user_id == user_id),
{
    if token.as_str().is_empty() {
        Reply { code: 422, body: Body::Error(ErrorStatus { reason: status }) }
    } else {
        Reply { code: 201, body: Body::Signup(SignupResp { token, user_id }) }
    }
}

/// Answers a login from the token it ended with (empty when refused).
pub fn login(token: String, status: Status) -> (r: Reply)
    ensures
        token@.len() == 0 ==> is_error_reply(r, 403, status_text(status)),
        token@.len() != 0 ==> r.code == 201 && (r.body matches Body::Login(b) && b.token == token),
{
    if token.as_str().is_empty() {
        refusal(403, status)
    } else {
        Reply { code: 201, body: Body::Login(LoginResp { token }) }
    }
}

/// Answers a logoff.
pub fn logoff(status: Status) -> (r: Reply)
    ensures
        status == Status::Success ==> r.code == 201 && (r.body matches Body::Logoff(b)
            && b.status@ == status_text(status)),
        status != Status::Success ==> is_error_reply(r, 403, status_text(status)),
{
    if status.is_success() {
        Reply { code: 201, body: Body::Logoff(LogoffResp { status: status.text() }) }
    } else {
        refusal(403, status)
    }
}

/// Answers making an admin.
pub fn set_admin(status: Status) -> (r: Reply)
    ensures
        status == Status::Success ==> r.code == 201 && (r.body matches Body::SetAdmin(b)
            && b.status@ == status_text(status)),
        status != Status::Success ==> is_error_reply(r, 403, status_text(status)),
{
    if status.is_success() {
        Reply { code: 201, body: Body::SetAdmin(SetAdminResp { status: status.text() }) }
    } else {
        refusal(403, status)
    }
}

/// Answers giving up being an admin.
pub fn stop_admin(status: Status) -> (r: Reply)
    ensures
        status == Status::Success ==> r.code == 201 && (r.body matches Body::StopAdmin(b)
            && b.status@ == status_text(status)),
        status != Status::Success ==> is_error_reply(r, 403, status_text(status)),
{
    if status.is_success() {
        Reply { code: 201, body: Body::StopAdmin(StopAdminResp { status: status.text() }) }
    } else {
        refusal(403, status)
    }
}

/// Answers leaving a group.
pub fn leave_group(status: Status) -> (r: Reply)
    ensures
        status == Status::Success ==> r.code == 201 && (r.body matches Body::LeaveGroup(b)
            && b.status@ == status_text(status)),
        status != Status::Success ==> is_error_reply(r, 403, status_text(status)),
{
    if status.is_success() {
        Reply { code: 201, body: Body::LeaveGroup(LeaveGroupResp { status: status.text() }) }
    } else {
        refusal(403, status)
    }
}

/// Answers deleting a group.
pub fn delete_group(status: Status) -> (r: Reply)
    ensures
        status == Status::Success ==> r.code == 201 && (r.body matches Body::DeleteGroup(b)
            && b.status@ == status_text(status)),
        status != Status::Success ==> is_error_reply(r, 403, status_text(status)),
{
    if status.is_success() {
        Reply { code: 201, body: Body::DeleteGroup(DeleteGroupResp { status: status.text() }) }
    } else {
        refusal(403, status)
    }
}

/// Answers the draw.
pub fn christmas(status: Status) -> (r: Reply)
    ensures
        status == Status::Success ==> r.code == 201 && (r.body matches Body::Christmas(b)
            && b.status@ == status_text(status)),
        status != Status::Success ==> is_error_reply(r, 403, status_text(status)),
{
    if status.is_success() {
        Reply { code: 201, body: Body::Christmas(ChristmasResp { status: status.text() }) }
    } else {
        refusal(403, status)
    }
}

/// Answers a request for a user's name.
pub fn get_user_name_by_id(status: Status, name: String) -> (r: Reply)
    ensures
        status == Status::Success ==> r.code == 201 && (r.body matches Body::UserName(b) && b.name == name),
        status != Status::Success ==> is_error_reply(r, 403, status_text(status)),
{
    if status.is_success() {
        Reply { code: 201, body: Body::UserName(GetUserNameByIdResp { name }) }
    } else {
        refusal(403, status)
    }
}

} // verus!
