//! The request and response records of the service.
use vstd::prelude::*;

verus! {

/// A new user's name.
#[derive(Debug)]
pub struct CreateUser {
    pub name: String,
}

/// The user that creates a group.
#[derive(Debug)]
pub struct CreateGroup {
    pub user_id: u32,
}

/// A logged-in user creating a group, of which they become the admin.
#[derive(Debug)]
pub struct CreateGroupData {
    pub user_id: u32,
    pub token: String,
}

/// The id of a newly created group.
#[derive(Debug)]
pub struct CreateGroupResp {
    pub group_id: u32,
}

/// A registration: name and password.
#[derive(Debug)]
pub struct SignupData {
    pub name: String,
    pub password: String,
}

/// The answer to a registration.
#[derive(Debug)]
pub struct SignupResp {
    pub token: String,
    pub user_id: u32,
}

/// A login: user id and password.
#[derive(Debug)]
pub struct LoginData {
    pub user_id: u32,
    pub password: String,
}

/// A refusal, with its reason.
#[derive(Debug)]
pub struct ErrorStatus {
    pub reason: String,
}

/// The token of a successful login.
#[derive(Debug)]
pub struct LoginResp {
    pub token: String,
}

/// A logoff: the user and their current token.
#[derive(Debug)]
pub struct LogoffData {
    pub token: String,
    pub user_id: u32,
}

/// The answer to a logoff.
#[derive(Debug)]
pub struct LogoffResp {
    pub status: String,
}

/// A logged-in user joining a group.
#[derive(Debug)]
pub struct JoinGroupData {
    pub user_id: u32,
    pub token: String,
    pub group_id: u32,
}

/// The answer to joining a group.
#[derive(Debug)]
pub struct JoinGroupResp {
    pub status: String,
}

/// An admin of a group making another member an admin.
#[derive(Debug)]
pub struct SetAdminData {
    pub user_id: u32,
    pub token: String,
    pub group_id: u32,
    pub new_admin_id: u32,
}

/// The answer to making an admin.
#[derive(Debug)]
pub struct SetAdminResp {
    pub status: String,
}

/// An admin of a group giving up being an admin.
#[derive(Debug)]
pub struct StopAdminData {
    pub user_id: u32,
    pub token: String,
    pub group_id: u32,
}

/// The answer to giving up being an admin.
#[derive(Debug)]
pub struct StopAdminResp {
    pub status: String,
}

/// A member leaving a group.
#[derive(Debug)]
pub struct LeaveGroupData {
    pub user_id: u32,
    pub token: String,
    pub group_id: u32,
}

/// The answer to leaving a group.
#[derive(Debug)]
pub struct LeaveGroupResp {
    pub status: String,
}

/// An admin deleting a group.
#[derive(Debug)]
pub struct DeleteGroupData {
    pub user_id: u32,
    pub token: String,
    pub group_id: u32,
}

/// The answer to deleting a group.
#[derive(Debug)]
pub struct DeleteGroupResp {
    pub status: String,
}

/// An admin drawing the Secret Santas of a group, which closes it.
#[derive(Debug)]
pub struct ChristmasData {
    pub user_id: u32,
    pub token: String,
    pub group_id: u32,
}

/// The answer to the draw.
#[derive(Debug)]
pub struct ChristmasResp {
    pub status: String,
}

/// A member asking whom they give a gift to.
#[derive(Debug)]
pub struct GetGiftRecipientIdData {
    pub user_id: u32,
    pub token: String,
    pub group_id: u32,
}

/// The member's gift recipient.
#[derive(Debug)]
pub struct GetGiftRecipientIdResp {
    pub gift_recipient_id: u32,
}

/// Asking for a user's name.
#[derive(Debug)]
pub struct GetUserNameByIdData {
    pub user_id: u32,
}

/// A user's name.
#[derive(Debug)]
pub struct GetUserNameByIdResp {
    pub name: String,
}

} // verus!
