use secret_santa::crud::{
    christmas_result, create_group_result, delete_group_result, gift_recipient_result,
    join_group_result, sqlx_christmas, sqlx_create_group, sqlx_delete_group,
    sqlx_get_gift_recipient_id, sqlx_join_group, sqlx_leave_group, sqlx_logoff, sqlx_set_admin,
    sqlx_stop_admin, sqlx_user_name_by_id, user_name_result, write_status,
};
use secret_santa::crud::{Action, Step};
use secret_santa::guard::{admin_answer, closed_answer, count_answer, found_answer, Answer, Query};
use secret_santa::models::{
    ChristmasData, CreateGroupData, DeleteGroupData, GetGiftRecipientIdData, GetUserNameByIdData,
    JoinGroupData, LeaveGroupData, LogoffData, SetAdminData, StopAdminData,
};
use secret_santa::status::Status;

const T: Answer = Answer::Flag(true);
const F: Answer = Answer::Flag(false);

fn refused(v: Step) -> Status {
    match v {
        Step::Refuse(s) => s,
        other => panic!("not a refusal: {:?}", other),
    }
}

fn set_admin_data() -> SetAdminData {
    SetAdminData { user_id: 1, token: "tok".to_string(), group_id: 5, new_admin_id: 2 }
}

#[test]
fn set_admin_asks_in_order() {
    let d = set_admin_data();
    assert!(matches!(sqlx_set_admin(&d, &vec![]), Step::Ask(Query::UserReal { user_id: 1 })));
    match sqlx_set_admin(&d, &vec![T]) {
        Step::Ask(Query::Logged { token, user_id: 1 }) => assert_eq!(token, "tok"),
        other => panic!("{:?}", other),
    }
    assert!(matches!(sqlx_set_admin(&d, &vec![T, T]), Step::Ask(Query::GroupReal { group_id: 5 })));
    assert!(matches!(
        sqlx_set_admin(&d, &vec![T, T, T]),
        Step::Ask(Query::InGroup { user_id: 1, group_id: 5 })
    ));
    assert!(matches!(sqlx_set_admin(&d, &vec![T, T, T, T]), Step::Ask(Query::UserReal { user_id: 2 })));
    assert!(matches!(
        sqlx_set_admin(&d, &vec![T, T, T, T, T]),
        Step::Ask(Query::InGroup { user_id: 2, group_id: 5 })
    ));
    assert!(matches!(
        sqlx_set_admin(&d, &vec![T, T, T, T, T, T]),
        Step::Ask(Query::AdminInGroup { user_id: 1, group_id: 5 })
    ));
    assert!(matches!(
        sqlx_set_admin(&d, &vec![T, T, T, T, T, T, T]),
        Step::Ask(Query::AdminInGroup { user_id: 2, group_id: 5 })
    ));
    assert!(matches!(sqlx_set_admin(&d, &vec![T, T, T, T, T, T, T, F]), Step::Perform(Action::SetAdmin { user_id: 2, group_id: 5, is_admin: true })));
}

#[test]
fn set_admin_refusals() {
    let d = set_admin_data();
    assert_eq!(refused(sqlx_set_admin(&d, &vec![F])), Status::UserDoesNotExist);
    assert_eq!(refused(sqlx_set_admin(&d, &vec![T, F])), Status::WrongToken);
    assert_eq!(refused(sqlx_set_admin(&d, &vec![T, T, F])), Status::GroupDoesNotExist);
    assert_eq!(refused(sqlx_set_admin(&d, &vec![T, T, T, F])), Status::NotInGroup);
    assert_eq!(refused(sqlx_set_admin(&d, &vec![T, T, T, T, F])), Status::NewAdminDoesNotExist);
    assert_eq!(refused(sqlx_set_admin(&d, &vec![T, T, T, T, T, F])), Status::NewAdminNotInGroup);
    assert_eq!(refused(sqlx_set_admin(&d, &vec![T, T, T, T, T, T, F])), Status::NotAnAdmin);
    assert_eq!(refused(sqlx_set_admin(&d, &vec![T, T, T, T, T, T, T, T])), Status::NewAdminAlreadyAdmin);
}

#[test]
fn answers_of_the_wrong_kind_never_hold() {
    let d = set_admin_data();
    assert_eq!(refused(sqlx_set_admin(&d, &vec![Answer::Count(1)])), Status::UserDoesNotExist);
}

#[test]
fn create_group_flow() {
    let d = CreateGroupData { user_id: 3, token: "t".to_string() };
    assert_eq!(refused(sqlx_create_group(&d, &vec![F])), Status::UserDoesNotExist);
    assert_eq!(refused(sqlx_create_group(&d, &vec![T, F])), Status::WrongToken);
    assert!(matches!(sqlx_create_group(&d, &vec![T, T]), Step::Perform(Action::CreateGroup { user_id: 3 })));
    assert_eq!(create_group_result(1, 17), (Status::Success, 17));
    assert_eq!(create_group_result(0, 17), (Status::WrongDataNoPeriod, 0));
}

#[test]
fn delete_group_flow() {
    let d = DeleteGroupData { user_id: 3, token: "t".to_string(), group_id: 9 };
    assert_eq!(refused(sqlx_delete_group(&d, &vec![T, T, F])), Status::GroupDoesNotExist);
    assert_eq!(refused(sqlx_delete_group(&d, &vec![T, T, T, F])), Status::NotAnAdmin);
    assert!(matches!(sqlx_delete_group(&d, &vec![T, T, T, T]), Step::Perform(Action::DeleteGroup { group_id: 9 })));
    assert_eq!(delete_group_result(2, 1), Status::Success);
    assert_eq!(delete_group_result(0, 1), Status::WrongData);
    assert_eq!(delete_group_result(2, 0), Status::WrongData);
}

#[test]
fn leave_group_flow() {
    let d = LeaveGroupData { user_id: 3, token: "t".to_string(), group_id: 9 };
    assert_eq!(refused(sqlx_leave_group(&d, &vec![T, T, T, F])), Status::AlreadyNotInGroup);
    assert!(matches!(sqlx_leave_group(&d, &vec![T, T, T, T]), Step::Ask(Query::GroupClosed { group_id: 9 })));
    assert_eq!(refused(sqlx_leave_group(&d, &vec![T, T, T, T, T])), Status::CannotLeaveClosedGroup);
    assert!(matches!(sqlx_leave_group(&d, &vec![T, T, T, T, F]), Step::Ask(Query::AdminInGroup { user_id: 3, group_id: 9 })));
    // an admin is asked how many admins the group has
    assert!(matches!(sqlx_leave_group(&d, &vec![T, T, T, T, F, T]), Step::Ask(Query::AdminCount { group_id: 9 })));
    assert_eq!(refused(sqlx_leave_group(&d, &vec![T, T, T, T, F, T, Answer::Count(1)])), Status::AdminCannotLeave);
    assert!(matches!(sqlx_leave_group(&d, &vec![T, T, T, T, F, T, Answer::Count(2)]), Step::Perform(Action::RemoveMember { user_id: 3, group_id: 9 })));
    assert_eq!(refused(sqlx_leave_group(&d, &vec![T, T, T, T, F, Answer::Count(0)])), Status::AdminCannotLeave);
    assert!(matches!(sqlx_leave_group(&d, &vec![T, T, T, T, F, F]), Step::Perform(Action::RemoveMember { user_id: 3, group_id: 9 })));
    assert_eq!(write_status(1), Status::Success);
    assert_eq!(write_status(0), Status::WrongData);
}

#[test]
fn stop_admin_keeps_the_last_admin() {
    let d = StopAdminData { user_id: 3, token: "t".to_string(), group_id: 9 };
    assert_eq!(refused(sqlx_stop_admin(&d, &vec![T, T, T, F])), Status::NotInGroup);
    assert_eq!(refused(sqlx_stop_admin(&d, &vec![T, T, T, T, F])), Status::NotAnAdmin);
    assert!(matches!(sqlx_stop_admin(&d, &vec![T, T, T, T, T]), Step::Ask(Query::AdminCount { group_id: 9 })));
    assert_eq!(refused(sqlx_stop_admin(&d, &vec![T, T, T, T, T, Answer::Count(1)])), Status::OnlyAdmin);
    assert!(matches!(sqlx_stop_admin(&d, &vec![T, T, T, T, T, Answer::Count(2)]), Step::Perform(Action::SetAdmin { user_id: 3, group_id: 9, is_admin: false })));
}

#[test]
fn christmas_flow() {
    let d = ChristmasData { user_id: 3, token: "t".to_string(), group_id: 9 };
    assert_eq!(refused(sqlx_christmas(&d, &vec![T, T, T, F])), Status::NotInGroup);
    assert_eq!(refused(sqlx_christmas(&d, &vec![T, T, T, T, F])), Status::NotAnAdmin);
    assert!(matches!(sqlx_christmas(&d, &vec![T, T, T, T, T]), Step::Ask(Query::UserCount { group_id: 9 })));
    assert_eq!(refused(sqlx_christmas(&d, &vec![T, T, T, T, T, Answer::Count(1)])), Status::TooFewUsers);
    assert_eq!(
        refused(sqlx_christmas(&d, &vec![T, T, T, T, T, Answer::Count(2), T])),
        Status::AlreadyChristmas
    );
    assert!(matches!(sqlx_christmas(&d, &vec![T, T, T, T, T, Answer::Count(3), F]), Step::Perform(Action::Draw { group_id: 9 })));
    assert_eq!(christmas_result(3), Status::Success);
    assert_eq!(christmas_result(0), Status::WrongData);
}

#[test]
fn join_group_flow() {
    let d = JoinGroupData { user_id: 3, token: "t".to_string(), group_id: 9 };
    assert_eq!(refused(sqlx_join_group(&d, &vec![T, T, T, T])), Status::AlreadyInGroup);
    assert!(matches!(sqlx_join_group(&d, &vec![T, T, T, F]), Step::Perform(Action::AddMember { user_id: 3, group_id: 9 })));
    assert_eq!(join_group_result(1), Status::Success);
    assert_eq!(join_group_result(0), Status::WrongDataNoPeriod);
}

#[test]
fn logoff_flow() {
    let d = LogoffData { token: "t".to_string(), user_id: 3 };
    assert!(matches!(sqlx_logoff(&d, &vec![]), Step::Ask(Query::Logged { user_id: 3, .. })));
    assert_eq!(refused(sqlx_logoff(&d, &vec![F])), Status::WrongPassword);
    assert!(matches!(sqlx_logoff(&d, &vec![T]), Step::Perform(Action::LogOff { user_id: 3 })));
}

#[test]
fn gift_recipient_flow() {
    let d = GetGiftRecipientIdData { user_id: 3, token: "t".to_string(), group_id: 9 };
    assert_eq!(refused(sqlx_get_gift_recipient_id(&d, &vec![T, T, T, F])), Status::UserNotInGroup);
    assert_eq!(refused(sqlx_get_gift_recipient_id(&d, &vec![T, T, T, T, F])), Status::GroupNotClosed);
    assert!(matches!(sqlx_get_gift_recipient_id(&d, &vec![T, T, T, T, T]), Step::Perform(Action::ReadRecipient { user_id: 3, group_id: 9 })));
    assert_eq!(gift_recipient_result(&vec![8]), (Status::Success, 8));
    assert_eq!(gift_recipient_result(&vec![]), (Status::WrongData, 0));
    assert_eq!(gift_recipient_result(&vec![8, 9]), (Status::WrongData, 0));
}

#[test]
fn user_name_flow() {
    let d = GetUserNameByIdData { user_id: 4 };
    assert!(matches!(sqlx_user_name_by_id(&d, &vec![]), Step::Ask(Query::UserReal { user_id: 4 })));
    assert_eq!(refused(sqlx_user_name_by_id(&d, &vec![F])), Status::UserDoesNotExist);
    assert!(matches!(sqlx_user_name_by_id(&d, &vec![T]), Step::Perform(Action::ReadName { user_id: 4 })));
    assert_eq!(user_name_result(vec!["alice".to_string()]), (Status::Success, "alice".to_string()));
    assert_eq!(user_name_result(vec![]), (Status::WrongData, String::new()));
}

#[test]
fn answers_from_rows() {
    assert_eq!(found_answer(0), F);
    assert_eq!(found_answer(3), T);
    assert_eq!(count_answer(3), Answer::Count(3));
    assert_eq!(admin_answer(&vec![]), F);
    assert_eq!(admin_answer(&vec![0]), F);
    assert_eq!(admin_answer(&vec![1, 0]), T);
    assert_eq!(closed_answer(&vec![0]), F);
    assert_eq!(closed_answer(&vec![1]), T);
}
