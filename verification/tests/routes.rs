use secret_santa::routes::{
    christmas, create_group, delete_group, get_gift_recipient_id, get_user_name_by_id, join_group,
    leave_group, login, logoff, set_admin, signup, stop_admin, wrong_syntax, Body, Reply,
};
use secret_santa::status::Status;

fn error_of(r: &Reply) -> &str {
    match &r.body {
        Body::Error(e) => &e.reason,
        other => panic!("not an error: {:?}", other),
    }
}

#[test]
fn wrong_syntax_reply() {
    let r = wrong_syntax();
    assert_eq!(r.code, 422);
    assert!(matches!(&r.body, Body::Text(t) if t == "{\"reason\": \"Wrong syntax\"}"));
}

#[test]
fn create_group_reply() {
    let r = create_group(Status::Success, 4);
    assert_eq!(r.code, 201);
    assert!(matches!(r.body, Body::CreateGroup(ref b) if b.group_id == 4));
    let r = create_group(Status::WrongToken, 0);
    assert_eq!(r.code, 422);
    assert_eq!(error_of(&r), "Wrong token.");
}

#[test]
fn join_group_reply() {
    let r = join_group(Status::Success);
    assert_eq!(r.code, 201);
    assert!(matches!(r.body, Body::JoinGroup(ref b) if b.status == "Success!"));
    let r = join_group(Status::AlreadyInGroup);
    assert_eq!(r.code, 422);
    assert_eq!(error_of(&r), "User is already in this group.");
}

#[test]
fn gift_recipient_reply() {
    let r = get_gift_recipient_id(Status::Success, 77);
    assert_eq!(r.code, 201);
    assert!(matches!(r.body, Body::GiftRecipient(ref b) if b.gift_recipient_id == 77));
    let r = get_gift_recipient_id(Status::GroupNotClosed, 0);
    assert_eq!(r.code, 422);
    assert_eq!(error_of(&r), "Group is not closed. Secret Santas are not defined.");
}

#[test]
fn signup_reply() {
    let r = signup("abc".to_string(), "Success!".to_string(), 3);
    assert_eq!(r.code, 201);
    assert!(matches!(r.body, Body::Signup(ref b) if b.token == "abc" && b.user_id == 3));
    let r = signup(String::new(), "Bad".to_string(), 0);
    assert_eq!(r.code, 422);
    assert_eq!(error_of(&r), "Bad");
}

#[test]
fn refused_signup_is_answered_with_its_status_as_token() {
    let (token, status, user_id) = secret_santa::crud::signup_refused(Status::PasswordTooShort);
    let r = signup(token, status, user_id);
    assert_eq!(r.code, 201);
    assert!(matches!(r.body, Body::Signup(ref b) if b.token == "Password is too short." && b.user_id == 0));
}

#[test]
fn login_reply() {
    let r = login("tok".to_string(), Status::Success);
    assert_eq!(r.code, 201);
    assert!(matches!(r.body, Body::Login(ref b) if b.token == "tok"));
    let r = login(String::new(), Status::WrongPassword);
    assert_eq!(r.code, 403);
    assert_eq!(error_of(&r), "Wrong password.");
}

#[test]
fn status_replies() {
    let cases: Vec<(fn(Status) -> Reply, Status)> = vec![
        (logoff, Status::WrongPassword),
        (set_admin, Status::NotAnAdmin),
        (stop_admin, Status::OnlyAdmin),
        (leave_group, Status::AdminCannotLeave),
        (delete_group, Status::NotAnAdmin),
        (christmas, Status::TooFewUsers),
    ];
    for (route, refusal) in cases {
        let ok = route(Status::Success);
        assert_eq!(ok.code, 201);
        let status = match &ok.body {
            Body::Logoff(b) => b.status.clone(),
            Body::SetAdmin(b) => b.status.clone(),
            Body::StopAdmin(b) => b.status.clone(),
            Body::LeaveGroup(b) => b.status.clone(),
            Body::DeleteGroup(b) => b.status.clone(),
            Body::Christmas(b) => b.status.clone(),
            other => panic!("{:?}", other),
        };
        assert_eq!(status, "Success!");
        let no = route(refusal);
        assert_eq!(no.code, 403);
        assert_eq!(error_of(&no), refusal.text());
    }
}

#[test]
fn user_name_reply() {
    let r = get_user_name_by_id(Status::Success, "alice".to_string());
    assert_eq!(r.code, 201);
    assert!(matches!(r.body, Body::UserName(ref b) if b.name == "alice"));
    let r = get_user_name_by_id(Status::UserDoesNotExist, String::new());
    assert_eq!(r.code, 403);
    assert_eq!(error_of(&r), "User does not exist.");
}

#[test]
fn status_texts() {
    let all = [
        (Status::Success, "Success!"),
        (Status::WrongData, "Wrong data."),
        (Status::WrongDataNoPeriod, "Wrong data"),
        (Status::UserDoesNotExist, "User does not exist."),
        (Status::WrongToken, "Wrong token."),
        (Status::GroupDoesNotExist, "Group does not exist."),
        (Status::NotInGroup, "You are not in this group."),
        (Status::NewAdminDoesNotExist, "New admin does not exist."),
        (Status::NewAdminNotInGroup, "New admin not in this group."),
        (Status::NotAnAdmin, "You are not an admin."),
        (Status::NewAdminAlreadyAdmin, "New admin is already an admin."),
        (Status::AlreadyNotInGroup, "You are already not in this group."),
        (Status::CannotLeaveClosedGroup, "You can't leave closed group."),
        (Status::AdminCannotLeave, "Admin can't leave its group."),
        (Status::OnlyAdmin, "You are the only admin."),
        (Status::TooFewUsers, "There are less than 2 users in this group."),
        (Status::AlreadyChristmas, "It's already been christmas here"),
        (Status::AlreadyInGroup, "User is already in this group."),
        (Status::PasswordTooShort, "Password is too short."),
        (Status::PasswordTooBig, "Password is too big."),
        (Status::UsernameTooShort, "Username is too short."),
        (Status::UsernameTooBig, "Username is too big."),
        (Status::PasswordNotAlphanumeric, "Password is not alphanumeric ascii-only."),
        (Status::UsernameNotAlphanumeric, "Username is not alphanumeric ascii-only."),
        (Status::WrongPassword, "Wrong password."),
        (Status::UserNotInGroup, "User is not in this group."),
        (Status::GroupNotClosed, "Group is not closed. Secret Santas are not defined."),
    ];
    for (status, text) in all {
        assert_eq!(status.text(), text);
        assert_eq!(status.is_success(), status == Status::Success);
    }
}
