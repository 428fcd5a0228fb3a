//! The status messages that the service answers with.
use vstd::prelude::*;

verus! {

/// Every status message that an operation of the service can end with.
#[derive(Clone, Copy, Debug, PartialEq, Eq, Structural)]
pub enum Status {
    Success,
    WrongData,
    WrongDataNoPeriod,
    UserDoesNotExist,
    WrongToken,
    GroupDoesNotExist,
    NotInGroup,
    NewAdminDoesNotExist,
    NewAdminNotInGroup,
    NotAnAdmin,
    NewAdminAlreadyAdmin,
    AlreadyNotInGroup,
    CannotLeaveClosedGroup,
    AdminCannotLeave,
    OnlyAdmin,
    TooFewUsers,
    AlreadyChristmas,
    AlreadyInGroup,
    PasswordTooShort,
    PasswordTooBig,
    UsernameTooShort,
    UsernameTooBig,
    PasswordNotAlphanumeric,
    UsernameNotAlphanumeric,
    WrongPassword,
    UserNotInGroup,
    GroupNotClosed,
}

/// The text that a status is sent as.
pub open spec fn status_text(s: Status) -> Seq<char> {
    match s {
        Status::Success => "Success!"@,
        Status::WrongData => "Wrong data."@,
        Status::WrongDataNoPeriod => "Wrong data"@,
        Status::UserDoesNotExist => "User does not exist."@,
        Status::WrongToken => "Wrong token."@,
        Status::GroupDoesNotExist => "Group does not exist."@,
        Status::NotInGroup => "You are not in this group."@,
        Status::NewAdminDoesNotExist => "New admin does not exist."@,
        Status::NewAdminNotInGroup => "New admin not in this group."@,
        Status::NotAnAdmin => "You are not an admin."@,
        Status::NewAdminAlreadyAdmin => "New admin is already an admin."@,
        Status::AlreadyNotInGroup => "You are already not in this group."@,
        Status::CannotLeaveClosedGroup => "You can't leave closed group."@,
        Status::AdminCannotLeave => "Admin can't leave its group."@,
        Status::OnlyAdmin => "You are the only admin."@,
        Status::TooFewUsers => "There are less than 2 users in this group."@,
        Status::AlreadyChristmas => "It's already been christmas here"@,
        Status::AlreadyInGroup => "User is already in this group."@,
        Status::PasswordTooShort => "Password is too short."@,
        Status::PasswordTooBig => "Password is too big."@,
        Status::UsernameTooShort => "Username is too short."@,
        Status::UsernameTooBig => "Username is too big."@,
        Status::PasswordNotAlphanumeric => "Password is not alphanumeric ascii-only."@,
        Status::UsernameNotAlphanumeric => "Username is not alphanumeric ascii-only."@,
        Status::WrongPassword => "Wrong password."@,
        Status::UserNotInGroup => "User is not in this group."@,
        Status::GroupNotClosed => "Group is not closed. Secret Santas are not defined."@,
    }
}

impl Status {
    /// The message text of this status.
    pub fn text(&self) -> (res: String)
        ensures
            res@ == status_text(*self),
    {
        match self {
            Status::Success => String::from_str("Success!"),
            Status::WrongData => String::from_str("Wrong data."),
            Status::WrongDataNoPeriod => String::from_str("Wrong data"),
            Status::UserDoesNotExist => String::from_str("User does not exist."),
            Status::WrongToken => String::from_str("Wrong token."),
            Status::GroupDoesNotExist => String::from_str("Group does not exist."),
            Status::NotInGroup => String::from_str("You are not in this group."),
            Status::NewAdminDoesNotExist => String::from_str("New admin does not exist."),
            Status::NewAdminNotInGroup => String::from_str("New admin not in this group."),
            Status::NotAnAdmin => String::from_str("You are not an admin."),
            Status::NewAdminAlreadyAdmin => String::from_str("New admin is already an admin."),
            Status::AlreadyNotInGroup => String::from_str("You are already not in this group."),
            Status::CannotLeaveClosedGroup => String::from_str("You can't leave closed group."),
            Status::AdminCannotLeave => String::from_str("Admin can't leave its group."),
            Status::OnlyAdmin => String::from_str("You are the only admin."),
            Status::TooFewUsers => String::from_str("There are less than 2 users in this group."),
            Status::AlreadyChristmas => String::from_str("It's already been christmas here"),
            Status::AlreadyInGroup => String::from_str("User is already in this group."),
            Status::PasswordTooShort => String::from_str("Password is too short."),
            Status::PasswordTooBig => String::from_str("Password is too big."),
            Status::UsernameTooShort => String::from_str("Username is too short."),
            Status::UsernameTooBig => String::from_str("Username is too big."),
            Status::PasswordNotAlphanumeric => String::from_str(
                "Password is not alphanumeric ascii-only.",
            ),
            Status::UsernameNotAlphanumeric => String::from_str(
                "Username is not alphanumeric ascii-only.",
            ),
            Status::WrongPassword => String::from_str("Wrong password."),
            Status::UserNotInGroup => String::from_str("User is not in this group."),
            Status::GroupNotClosed => String::from_str(
                "Group is not closed. Secret Santas are not defined.",
            ),
        }
    }

    /// Whether this status reports success.
    pub fn is_success(&self) -> (res: bool)
        ensures
            res <==> *self == Status::Success,
    {
        match self {
            Status::Success => true,
            _ => false,
        }
    }
}

} // verus!
