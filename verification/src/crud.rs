//! The operations on users and groups. Each group operation is a list
//! of checks (see `guard`) followed by one write; its function takes the
//! answers gathered so far and says what to do next. The functions named
//! `*_result` turn what the write reports into the operation's status.
use vstd::prelude::*;
use crate::status::{Status, status_text};
use crate::guard::{Query, Answer, Expect, Check, Verdict, guard_outcome, run_checks};
use crate::models::{CreateGroupData, SetAdminData, DeleteGroupData, LeaveGroupData, StopAdminData, ChristmasData, JoinGroupData, LogoffData, GetGiftRecipientIdData, GetUserNameByIdData, SignupData, LoginData};
use crate::credentials::{check_signup, signup_refusal, hash_password, password_hash, new_token, is_token};

verus! {

/// The user must exist.
pub open spec fn user_check(user_id: u32) -> Check {
    Check { query: Query::UserReal { user_id }, expect: Expect::Yes, refusal: Status::UserDoesNotExist }
}

/// The user must be logged in with this token.
pub open spec fn token_check(token: String, user_id: u32) -> Check {
    Check { query: Query::Logged { token, user_id }, expect: Expect::Yes, refusal: Status::WrongToken }
}

/// The group must exist.
pub open spec fn group_check(group_id: u32) -> Check {
    Check { query: Query::GroupReal { group_id }, expect: Expect::Yes, refusal: Status::GroupDoesNotExist }
}

/// A check on a membership question with the given expectation.
pub open spec fn membership_check(user_id: u32, group_id: u32, expect: Expect, refusal: Status) -> Check {
    Check { query: Query::InGroup { user_id, group_id }, expect, refusal }
}

/// A check on an admin question with the given expectation.
pub open spec fn admin_check(user_id: u32, group_id: u32, expect: Expect, refusal: Status) -> Check {
    Check { query: Query::AdminInGroup { user_id, group_id }, expect, refusal }
}

/// A check on whether the group is closed, with the given expectation.
pub open spec fn closed_check(group_id: u32, expect: Expect, refusal: Status) -> Check {
    Check { query: Query::GroupClosed { group_id }, expect, refusal }
}

/// What an operation does to the store, or reads from it, once its checks
/// all held.
#[derive(Clone, Copy, Debug, PartialEq, Eq, Structural)]
pub enum Action {
    /// Insert an open group and make this user its only member, an admin,
    /// with no recipient.
    CreateGroup { user_id: u32 },
    /// Set the admin flag of this membership.
    SetAdmin { user_id: u32, group_id: u32, is_admin: bool },
    /// Delete the group and all its memberships.
    DeleteGroup { group_id: u32 },
    /// Add this user to the group, not an admin, with no recipient.
    AddMember { user_id: u32, group_id: u32 },
    /// Delete this membership.
    RemoveMember { user_id: u32, group_id: u32 },
    /// Close the group, read its members, draw their recipients (see
    /// `draw`) and store them.
    Draw { group_id: u32 },
    /// Mark the user logged off.
    LogOff { user_id: u32 },
    /// Read the recipient stored for this membership.
    ReadRecipient { user_id: u32, group_id: u32 },
    /// Read the user's name.
    ReadName { user_id: u32 },
}

/// What an operation does next: ask the store, answer with a refusal, or
/// perform its action.
#[derive(Debug)]
pub enum Step {
    Ask(Query),
    Refuse(Status),
    Perform(Action),
}

/// The step that a verdict of the checks leads to, for an operation whose
/// action is `action`.
pub open spec fn step_from(v: Verdict, action: Action) -> Step {
    match v {
        Verdict::Ask(q) => Step::Ask(q),
        Verdict::Refuse(s) => Step::Refuse(s),
        Verdict::Proceed => Step::Perform(action),
    }
}

/// A step performs exactly the operation's own action, and only when every
/// check held; it refuses exactly as the checks refuse, and asks exactly
/// what they ask.
pub proof fn lemma_step_from(v: Verdict, action: Action)
    ensures
        (step_from(v, action) is Perform) <==> (v is Proceed),
        step_from(v, action) matches Step::Perform(a) ==> a == action,
        forall|st: Status| (step_from(v, action) == Step::Refuse(st)) <==> (v == Verdict::Refuse(st)),
        forall|q: Query| (step_from(v, action) == Step::Ask(q)) <==> (v == Verdict::Ask(q)),
{
}

/// The step that a verdict of the checks leads to.
pub fn decide(v: Verdict, action: Action) -> (res: Step)
    ensures
        res == step_from(v, action),
{
    match v {
        Verdict::Ask(q) => Step::Ask(q),
        Verdict::Refuse(s) => Step::Refuse(s),
        Verdict::Proceed => Step::Perform(action),
    }
}

fn make_user_check(user_id: u32, refusal: Status) -> (c: Check)
    ensures
        c == (Check { query: Query::UserReal { user_id }, expect: Expect::Yes, refusal }),
{
    Check { query: Query::UserReal { user_id }, expect: Expect::Yes, refusal }
}

fn make_token_check(token: &String, user_id: u32, refusal: Status) -> (c: Check)
    ensures
        c == (Check { query: Query::Logged { token: *token, user_id }, expect: Expect::Yes, refusal }),
{
    Check { query: Query::Logged { token: token.clone(), user_id }, expect: Expect::Yes, refusal }
}

fn make_group_check(group_id: u32) -> (c: Check)
    ensures
        c == group_check(group_id),
{
    Check { query: Query::GroupReal { group_id }, expect: Expect::Yes, refusal: Status::GroupDoesNotExist }
}

fn make_membership_check(user_id: u32, group_id: u32, expect: Expect, refusal: Status) -> (c: Check)
    ensures
        c == membership_check(user_id, group_id, expect, refusal),
{
    Check { query: Query::InGroup { user_id, group_id }, expect, refusal }
}

fn make_admin_check(user_id: u32, group_id: u32, expect: Expect, refusal: Status) -> (c: Check)
    ensures
        c == admin_check(user_id, group_id, expect, refusal),
{
    Check { query: Query::AdminInGroup { user_id, group_id }, expect, refusal }
}

fn make_closed_check(group_id: u32, expect: Expect, refusal: Status) -> (c: Check)
    ensures
        c == closed_check(group_id, expect, refusal),
{
    Check { query: Query::GroupClosed { group_id }, expect, refusal }
}

/// The first two checks of every operation of a logged-in user.
fn make_login_checks(user_id: u32, token: &String) -> (v: Vec<Check>)
    ensures
        v@ == seq![user_check(user_id), token_check(*token, user_id)],
{
    let mut v: Vec<Check> = Vec::new();
    v.push(make_user_check(user_id, Status::UserDoesNotExist));
    v.push(make_token_check(token, user_id, Status::WrongToken));
    proof {
        assert(v@ =~= seq![user_check(user_id), token_check(*token, user_id)]);
    }
    v
}

// ---------------------------------------------------------------- create group

/// Creating a group: the user exists and is logged in.
pub open spec fn create_group_checks(d: CreateGroupData) -> Seq<Check> {
    seq![user_check(d.user_id), token_check(d.token, d.user_id)]
}

/// Creating a group: insert it, with the caller as its admin.
pub open spec fn create_group_action(d: CreateGroupData) -> Action {
    Action::CreateGroup { user_id: d.user_id }
}

/// The next step of creating a group. When every check holds, it performs its action, and the group is inserted,
/// open, with its creator as its only member and admin.
pub fn sqlx_create_group(data: &CreateGroupData, answers: &Vec<Answer>) -> (res: Step)
    ensures
        res == step_from(guard_outcome(create_group_checks(*data), answers@), create_group_action(*data)),
{
    let checks = make_login_checks(data.user_id, &data.token);
    decide(run_checks(&checks, answers), Action::CreateGroup { user_id: data.user_id })
}

/// The status and group id of a group creation whose membership insert
/// touched `rows_affected` rows; `group_id` is the id the store gave the
/// new group.
pub fn create_group_result(rows_affected: u64, group_id: i64) -> (res: (Status, u32))
    requires
        rows_affected != 0 ==> 0 <= group_id <= u32::MAX,
    ensures
        rows_affected != 0 ==> res == (Status::Success, group_id as u32),
        rows_affected == 0 ==> res == (Status::WrongDataNoPeriod, 0u32),
{
    if rows_affected != 0 {
        (Status::Success, group_id as u32)
    } else {
        (Status::WrongDataNoPeriod, 0)
    }
}

// ---------------------------------------------------------------- set admin

/// Making a member an admin: the caller is a logged-in admin of the group,
/// the new admin is a member and not yet an admin.
pub open spec fn set_admin_checks(d: SetAdminData) -> Seq<Check> {
    seq![
        user_check(d.user_id),
        token_check(d.token, d.user_id),
        group_check(d.group_id),
        membership_check(d.user_id, d.group_id, Expect::Yes, Status::NotInGroup),
        Check { query: Query::UserReal { user_id: d.new_admin_id }, expect: Expect::Yes, refusal: Status::NewAdminDoesNotExist },
        membership_check(d.new_admin_id, d.group_id, Expect::Yes, Status::NewAdminNotInGroup),
        admin_check(d.user_id, d.group_id, Expect::Yes, Status::NotAnAdmin),
        admin_check(d.new_admin_id, d.group_id, Expect::No, Status::NewAdminAlreadyAdmin),
    ]
}

/// Making an admin: set the new admin's membership to admin.
pub open spec fn set_admin_action(d: SetAdminData) -> Action {
    Action::SetAdmin { user_id: d.new_admin_id, group_id: d.group_id, is_admin: true }
}

/// The next step of making a member an admin. When every check holds, it performs its action, and the new admin's
/// membership is marked admin.
pub fn sqlx_set_admin(data: &SetAdminData, answers: &Vec<Answer>) -> (res: Step)
    ensures
        res == step_from(guard_outcome(set_admin_checks(*data), answers@), set_admin_action(*data)),
{
    let mut checks = make_login_checks(data.user_id, &data.token);
    checks.push(make_group_check(data.group_id));
    checks.push(make_membership_check(data.user_id, data.group_id, Expect::Yes, Status::NotInGroup));
    checks.push(make_user_check(data.new_admin_id, Status::NewAdminDoesNotExist));
    checks.push(make_membership_check(data.new_admin_id, data.group_id, Expect::Yes, Status::NewAdminNotInGroup));
    checks.push(make_admin_check(data.user_id, data.group_id, Expect::Yes, Status::NotAnAdmin));
    checks.push(make_admin_check(data.new_admin_id, data.group_id, Expect::No, Status::NewAdminAlreadyAdmin));
    proof {
        assert(checks@ =~= set_admin_checks(*data));
    }
    decide(run_checks(&checks, answers), Action::SetAdmin { user_id: data.new_admin_id, group_id: data.group_id, is_admin: true })
}

/// The status of an update that touched `rows` rows: success when it
/// touched any.
pub open spec fn status_for_rows(rows: int) -> Status {
    if rows != 0 { Status::Success } else { Status::WrongData }
}

/// The status of an update that touched `rows_affected` rows.
pub fn write_status(rows_affected: u64) -> (res: Status)
    ensures
        res == status_for_rows(rows_affected as int),
{
    if rows_affected != 0 {
        Status::Success
    } else {
        Status::WrongData
    }
}

// ---------------------------------------------------------------- delete group

/// Deleting a group: the caller is a logged-in admin of it.
pub open spec fn delete_group_checks(d: DeleteGroupData) -> Seq<Check> {
    seq![
        user_check(d.user_id),
        token_check(d.token, d.user_id),
        group_check(d.group_id),
        admin_check(d.user_id, d.group_id, Expect::Yes, Status::NotAnAdmin),
    ]
}

/// Deleting a group: remove it and its memberships.
pub open spec fn delete_group_action(d: DeleteGroupData) -> Action {
    Action::DeleteGroup { group_id: d.group_id }
}

/// The next step of deleting a group. When every check holds, it performs its action, and its memberships and the
/// group itself are deleted.
pub fn sqlx_delete_group(data: &DeleteGroupData, answers: &Vec<Answer>) -> (res: Step)
    ensures
        res == step_from(guard_outcome(delete_group_checks(*data), answers@), delete_group_action(*data)),
{
    let mut checks = make_login_checks(data.user_id, &data.token);
    checks.push(make_group_check(data.group_id));
    checks.push(make_admin_check(data.user_id, data.group_id, Expect::Yes, Status::NotAnAdmin));
    proof {
        assert(checks@ =~= delete_group_checks(*data));
    }
    decide(run_checks(&checks, answers), Action::DeleteGroup { group_id: data.group_id })
}

/// The status of a deletion that removed `memberships` membership rows and
/// `groups` group rows: success only when both removed some.
pub fn delete_group_result(memberships: u64, groups: u64) -> (res: Status)
    ensures
        res == (if memberships != 0 && groups != 0 { Status::Success } else { Status::WrongData }),
{
    if memberships != 0 && groups != 0 {
        Status::Success
    } else {
        Status::WrongData
    }
}

// ---------------------------------------------------------------- leave group

/// Whether the answers so far say that the caller is an admin of the group
/// they leave (the answer to the sixth question).
pub open spec fn leaving_admin(answers: Seq<Answer>) -> bool {
    answers.len() > 5 && answers[5] == Answer::Flag(true)
}

/// Leaving a group: the caller is a logged-in member and the group is still
/// open; an admin may leave only when the group has another admin, that is
/// at least two admins with the caller.
pub open spec fn leave_group_checks(d: LeaveGroupData, admin: bool) -> Seq<Check> {
    let common = seq![
        user_check(d.user_id),
        token_check(d.token, d.user_id),
        group_check(d.group_id),
        membership_check(d.user_id, d.group_id, Expect::Yes, Status::AlreadyNotInGroup),
        closed_check(d.group_id, Expect::No, Status::CannotLeaveClosedGroup),
    ];
    if admin {
        common + seq![
            admin_check(d.user_id, d.group_id, Expect::Yes, Status::AdminCannotLeave),
            Check { query: Query::AdminCount { group_id: d.group_id }, expect: Expect::AtLeastTwo, refusal: Status::AdminCannotLeave },
        ]
    } else {
        common.push(admin_check(d.user_id, d.group_id, Expect::No, Status::AdminCannotLeave))
    }
}

/// Leaving a group: remove the caller's membership.
pub open spec fn leave_group_action(d: LeaveGroupData) -> Action {
    Action::RemoveMember { user_id: d.user_id, group_id: d.group_id }
}

/// The next step of leaving a group. When every check holds, it performs its action, and the caller's membership
/// is deleted.
pub fn sqlx_leave_group(data: &LeaveGroupData, answers: &Vec<Answer>) -> (res: Step)
    ensures
        res == step_from(guard_outcome(leave_group_checks(*data, leaving_admin(answers@)), answers@), leave_group_action(*data)),
{
    let admin = answers.len() > 5 && answers[5] == Answer::Flag(true);
    let mut checks = make_login_checks(data.user_id, &data.token);
    checks.push(make_group_check(data.group_id));
    checks.push(make_membership_check(data.user_id, data.group_id, Expect::Yes, Status::AlreadyNotInGroup));
    checks.push(make_closed_check(data.group_id, Expect::No, Status::CannotLeaveClosedGroup));
    if admin {
        checks.push(make_admin_check(data.user_id, data.group_id, Expect::Yes, Status::AdminCannotLeave));
        checks.push(Check { query: Query::AdminCount { group_id: data.group_id }, expect: Expect::AtLeastTwo, refusal: Status::AdminCannotLeave });
    } else {
        checks.push(make_admin_check(data.user_id, data.group_id, Expect::No, Status::AdminCannotLeave));
    }
    proof {
        assert(checks@ =~= leave_group_checks(*data, leaving_admin(answers@)));
    }
    decide(run_checks(&checks, answers), Action::RemoveMember { user_id: data.user_id, group_id: data.group_id })
}

// ---------------------------------------------------------------- stop admin

/// Giving up being an admin: the caller is a logged-in member and admin,
/// and the group's admin count is not 1.
pub open spec fn stop_admin_checks(d: StopAdminData) -> Seq<Check> {
    seq![
        user_check(d.user_id),
        token_check(d.token, d.user_id),
        group_check(d.group_id),
        membership_check(d.user_id, d.group_id, Expect::Yes, Status::NotInGroup),
        admin_check(d.user_id, d.group_id, Expect::Yes, Status::NotAnAdmin),
        Check { query: Query::AdminCount { group_id: d.group_id }, expect: Expect::NotOne, refusal: Status::OnlyAdmin },
    ]
}

/// Giving up being an admin: clear the caller's admin flag.
pub open spec fn stop_admin_action(d: StopAdminData) -> Action {
    Action::SetAdmin { user_id: d.user_id, group_id: d.group_id, is_admin: false }
}

/// The next step of giving up being an admin. When every check holds, it performs its action, and the caller's
/// membership is marked not admin.
pub fn sqlx_stop_admin(data: &StopAdminData, answers: &Vec<Answer>) -> (res: Step)
    ensures
        res == step_from(guard_outcome(stop_admin_checks(*data), answers@), stop_admin_action(*data)),
{
    let mut checks = make_login_checks(data.user_id, &data.token);
    checks.push(make_group_check(data.group_id));
    checks.push(make_membership_check(data.user_id, data.group_id, Expect::Yes, Status::NotInGroup));
    checks.push(make_admin_check(data.user_id, data.group_id, Expect::Yes, Status::NotAnAdmin));
    checks.push(Check { query: Query::AdminCount { group_id: data.group_id }, expect: Expect::NotOne, refusal: Status::OnlyAdmin });
    proof {
        assert(checks@ =~= stop_admin_checks(*data));
    }
    decide(run_checks(&checks, answers), Action::SetAdmin { user_id: data.user_id, group_id: data.group_id, is_admin: false })
}

// ---------------------------------------------------------------- christmas

/// The draw: the caller is a logged-in member and admin, the group has at
/// least two members, and it is not closed yet.
pub open spec fn christmas_checks(d: ChristmasData) -> Seq<Check> {
    seq![
        user_check(d.user_id),
        token_check(d.token, d.user_id),
        group_check(d.group_id),
        membership_check(d.user_id, d.group_id, Expect::Yes, Status::NotInGroup),
        admin_check(d.user_id, d.group_id, Expect::Yes, Status::NotAnAdmin),
        Check { query: Query::UserCount { group_id: d.group_id }, expect: Expect::AtLeastTwo, refusal: Status::TooFewUsers },
        closed_check(d.group_id, Expect::No, Status::AlreadyChristmas),
    ]
}

/// The draw: close the group and store drawn recipients.
pub open spec fn christmas_action(d: ChristmasData) -> Action {
    Action::Draw { group_id: d.group_id }
}

/// The next step of the draw. When every check holds, it performs its action, and the group is closed, its members
/// are read, their recipients drawn (see `draw`) and stored.
pub fn sqlx_christmas(data: &ChristmasData, answers: &Vec<Answer>) -> (res: Step)
    ensures
        res == step_from(guard_outcome(christmas_checks(*data), answers@), christmas_action(*data)),
{
    let mut checks = make_login_checks(data.user_id, &data.token);
    checks.push(make_group_check(data.group_id));
    checks.push(make_membership_check(data.user_id, data.group_id, Expect::Yes, Status::NotInGroup));
    checks.push(make_admin_check(data.user_id, data.group_id, Expect::Yes, Status::NotAnAdmin));
    checks.push(Check { query: Query::UserCount { group_id: data.group_id }, expect: Expect::AtLeastTwo, refusal: Status::TooFewUsers });
    checks.push(make_closed_check(data.group_id, Expect::No, Status::AlreadyChristmas));
    proof {
        assert(checks@ =~= christmas_checks(*data));
    }
    decide(run_checks(&checks, answers), Action::Draw { group_id: data.group_id })
}

/// The status of a draw that read `members` members: success when it read
/// any.
pub fn christmas_result(members: usize) -> (res: Status)
    ensures
        res == status_for_rows(members as int),
{
    if members != 0 {
        Status::Success
    } else {
        Status::WrongData
    }
}

// ---------------------------------------------------------------- join group

/// Joining a group: the caller is logged in, the group exists, and the
/// caller is not a member yet.
pub open spec fn join_group_checks(d: JoinGroupData) -> Seq<Check> {
    seq![
        user_check(d.user_id),
        token_check(d.token, d.user_id),
        group_check(d.group_id),
        membership_check(d.user_id, d.group_id, Expect::No, Status::AlreadyInGroup),
    ]
}

/// Joining a group: add the caller as a plain member.
pub open spec fn join_group_action(d: JoinGroupData) -> Action {
    Action::AddMember { user_id: d.user_id, group_id: d.group_id }
}

/// The next step of joining a group. When every check holds, it performs its action, and the caller becomes a
/// member, not an admin, with no recipient yet.
pub fn sqlx_join_group(data: &JoinGroupData, answers: &Vec<Answer>) -> (res: Step)
    ensures
        res == step_from(guard_outcome(join_group_checks(*data), answers@), join_group_action(*data)),
{
    let mut checks = make_login_checks(data.user_id, &data.token);
    checks.push(make_group_check(data.group_id));
    checks.push(make_membership_check(data.user_id, data.group_id, Expect::No, Status::AlreadyInGroup));
    proof {
        assert(checks@ =~= join_group_checks(*data));
    }
    decide(run_checks(&checks, answers), Action::AddMember { user_id: data.user_id, group_id: data.group_id })
}

/// The status of a membership insert that touched `rows` rows.
pub open spec fn join_status_for_rows(rows: int) -> Status {
    if rows != 0 { Status::Success } else { Status::WrongDataNoPeriod }
}

/// The status of a membership insert that touched `rows_affected` rows.
pub fn join_group_result(rows_affected: u64) -> (res: Status)
    ensures
        res == join_status_for_rows(rows_affected as int),
{
    if rows_affected != 0 {
        Status::Success
    } else {
        Status::WrongDataNoPeriod
    }
}

// ---------------------------------------------------------------- logoff

/// Logging off: the user is logged in with this token.
pub open spec fn logoff_checks(d: LogoffData) -> Seq<Check> {
    seq![Check { query: Query::Logged { token: d.token, user_id: d.user_id }, expect: Expect::Yes, refusal: Status::WrongPassword }]
}

/// Logging off: mark the user logged off.
pub open spec fn logoff_action(d: LogoffData) -> Action {
    Action::LogOff { user_id: d.user_id }
}

/// The next step of logging off. When every check holds, it performs its action, and the user is marked logged
/// off, and the operation ends with `Success`.
pub fn sqlx_logoff(data: &LogoffData, answers: &Vec<Answer>) -> (res: Step)
    ensures
        res == step_from(guard_outcome(logoff_checks(*data), answers@), logoff_action(*data)),
{
    let mut checks: Vec<Check> = Vec::new();
    checks.push(make_token_check(&data.token, data.user_id, Status::WrongPassword));
    proof {
        assert(checks@ =~= logoff_checks(*data));
    }
    decide(run_checks(&checks, answers), Action::LogOff { user_id: data.user_id })
}

// ---------------------------------------------------------------- gift recipient

/// Asking for one's recipient: the caller is a logged-in member of the
/// group, and the group is closed.
pub open spec fn gift_recipient_checks(d: GetGiftRecipientIdData) -> Seq<Check> {
    seq![
        user_check(d.user_id),
        token_check(d.token, d.user_id),
        group_check(d.group_id),
        membership_check(d.user_id, d.group_id, Expect::Yes, Status::UserNotInGroup),
        closed_check(d.group_id, Expect::Yes, Status::GroupNotClosed),
    ]
}

/// Asking for one's recipient: read it from the caller's membership.
pub open spec fn gift_recipient_action(d: GetGiftRecipientIdData) -> Action {
    Action::ReadRecipient { user_id: d.user_id, group_id: d.group_id }
}

/// The next step of asking for one's recipient. When every check holds, it performs its action, and the caller's
/// recipient in the group is read.
pub fn sqlx_get_gift_recipient_id(data: &GetGiftRecipientIdData, answers: &Vec<Answer>) -> (res: Step)
    ensures
        res == step_from(guard_outcome(gift_recipient_checks(*data), answers@), gift_recipient_action(*data)),
{
    let mut checks = make_login_checks(data.user_id, &data.token);
    checks.push(make_group_check(data.group_id));
    checks.push(make_membership_check(data.user_id, data.group_id, Expect::Yes, Status::UserNotInGroup));
    checks.push(make_closed_check(data.group_id, Expect::Yes, Status::GroupNotClosed));
    proof {
        assert(checks@ =~= gift_recipient_checks(*data));
    }
    decide(run_checks(&checks, answers), Action::ReadRecipient { user_id: data.user_id, group_id: data.group_id })
}

/// The answer from the recipient ids read for the caller: exactly one is a
/// success, anything else is wrong data.
pub fn gift_recipient_result(recipients: &Vec<u32>) -> (res: (Status, u32))
    ensures
        recipients.len() == 1 ==> res == (Status::Success, recipients[0]),
        recipients.len() != 1 ==> res == (Status::WrongData, 0u32),
{
    if recipients.len() != 1 {
        (Status::WrongData, 0)
    } else {
        (Status::Success, recipients[0])
    }
}

// ---------------------------------------------------------------- user name

/// Asking for a user's name: the user exists.
pub open spec fn user_name_checks(d: GetUserNameByIdData) -> Seq<Check> {
    seq![user_check(d.user_id)]
}

/// Asking for a name: read the user's name.
pub open spec fn user_name_action(d: GetUserNameByIdData) -> Action {
    Action::ReadName { user_id: d.user_id }
}

/// The next step of asking for a user's name. When every check holds, it performs its action, and the name is read.
pub fn sqlx_user_name_by_id(data: &GetUserNameByIdData, answers: &Vec<Answer>) -> (res: Step)
    ensures
        res == step_from(guard_outcome(user_name_checks(*data), answers@), user_name_action(*data)),
{
    let mut checks: Vec<Check> = Vec::new();
    checks.push(make_user_check(data.user_id, Status::UserDoesNotExist));
    proof {
        assert(checks@ =~= user_name_checks(*data));
    }
    decide(run_checks(&checks, answers), Action::ReadName { user_id: data.user_id })
}

/// The answer from the names read for the user: exactly one is a success,
/// anything else is wrong data with an empty name.
pub fn user_name_result(names: Vec<String>) -> (res: (Status, String))
    ensures
        names.len() == 1 ==> res.0 == Status::Success && res.1 == names[0],
        names.len() != 1 ==> res.0 == Status::WrongData && res.1@ == Seq::<char>::empty(),
{
    if names.len() != 1 {
        (Status::WrongData, String::new())
    } else {
        let mut names = names;
        let name = names.pop();
        match name {
            Some(n) => (Status::Success, n),
            None => (Status::WrongData, String::new()),
        }
    }
}

// ---------------------------------------------------------------- signup

/// A user to be inserted, logged in: name, fresh token, password hash.
#[derive(Debug)]
pub struct NewUser {
    pub name: String,
    pub token: String,
    pub hash_psw: String,
}

/// What a registration does.
#[derive(Debug)]
pub enum SignupStep {
    /// The name or password is refused with this status.
    Refuse(Status),
    /// Insert this user.
    Insert(NewUser),
}

/// A registration: refused as `signup_refusal` says, or else a new user with
/// the given name, the hash of the password, and a fresh 32-digit token.
pub fn sqlx_signup(data: &SignupData) -> (res: SignupStep)
    ensures
        signup_refusal(data.name@, data.password@) matches Some(s) ==> res == SignupStep::Refuse(s),
        signup_refusal(data.name@, data.password@) is None ==> (res matches SignupStep::Insert(u)
            && u.name@ == data.name@
            && u.hash_psw@ == password_hash(data.password@)
            && is_token(u.token@)
            && u.token@.len() == 32),
{
    match check_signup(&data.name, &data.password) {
        Some(s) => SignupStep::Refuse(s),
        None => {
            let hash_psw = hash_password(data.password.as_str());
            let token = new_token();
            SignupStep::Insert(NewUser { name: data.name.clone(), token, hash_psw })
        },
    }
}

/// The triple that a refused registration ends with: the status text comes
/// first, where a success puts its token, then an empty text, then 0.
pub fn signup_refused(status: Status) -> (res: (String, String, u32))
    ensures
        res.0@ == status_text(status),
        res.1@ == Seq::<char>::empty(),
        res.2 == 0,
{
    (status.text(), String::new(), 0)
}

/// The triple that a registration ends with once the user was inserted with
/// this token and got this id.
pub fn signup_inserted(token: String, user_id: i64) -> (res: (String, String, u32))
    requires
        0 <= user_id <= u32::MAX,
    ensures
        res.0 == token,
        res.1@ == status_text(Status::Success),
        res.2 == user_id,
{
    (token, Status::Success.text(), user_id as u32)
}

// ---------------------------------------------------------------- login

/// What a login does next.
#[derive(Debug)]
pub enum LoginStep {
    /// Look for the user with this id and password hash.
    Lookup { user_id: u32, hash_psw: String },
    /// The user was found: store this fresh token and mark them logged in.
    Renew { token: String },
    /// The user was not found.
    Refuse(Status),
}

/// The next step of a login, given whether the lookup found the user (`None`
/// before it was made).
pub fn sqlx_login(data: &LoginData, found: Option<bool>) -> (res: LoginStep)
    ensures
        found is None ==> (res matches LoginStep::Lookup { user_id, hash_psw }
            && user_id == data.user_id
            && hash_psw@ == password_hash(data.password@)),
        found == Some(true) ==> (res matches LoginStep::Renew { token }
            && is_token(token@)
            && token@.len() == 32),
        found == Some(false) ==> res == LoginStep::Refuse(Status::WrongPassword),
{
    match found {
        None => LoginStep::Lookup {
            user_id: data.user_id,
            hash_psw: hash_password(data.password.as_str()),
        },
        Some(true) => LoginStep::Renew { token: new_token() },
        Some(false) => LoginStep::Refuse(Status::WrongPassword),
    }
}

} // verus!
