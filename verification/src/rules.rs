//! What each operation does against the store, stated over the store itself:
//! exactly when it goes ahead, which refusal answers each way it can fail,
//! and that no refusal is ever reported as a success.
use vstd::prelude::*;
use crate::status::Status;
use crate::guard::{Answer, Check, Verdict, guard_outcome, holds, all_hold_upto, lemma_guard_outcome};
use crate::crud::{
    create_group_checks, set_admin_checks, delete_group_checks, delete_group_action,
    stop_admin_checks, join_group_checks, christmas_checks, logoff_checks, gift_recipient_checks,
    user_name_checks,
};
use crate::models::{
    CreateGroupData, SetAdminData, DeleteGroupData, LeaveGroupData, StopAdminData, ChristmasData,
    JoinGroupData, LogoffData, GetGiftRecipientIdData, GetUserNameByIdData,
};
use crate::store::{
    Store, store_wf, settle, answer_in, truthful, logged_in, is_admin_of, admin_rows, group_rows,
    leave_checks_in, lemma_rows_fit, christmas_run, delete_group_run, join_group_run, apply,
};

verus! {

/// Check `j` holds as the store answers it.
pub open spec fn holds_in(s: Store, c: Seq<Check>, j: int) -> bool {
    holds(c[j].expect, answer_in(s, c[j].query))
}

/// The first `i` checks hold as the store answers them.
pub open spec fn prefix_holds(s: Store, c: Seq<Check>, i: nat) -> bool
    decreases i,
{
    if i == 0 {
        true
    } else {
        prefix_holds(s, c, (i - 1) as nat) && holds_in(s, c, i - 1)
    }
}

/// No check of the list refuses with `Success`.
pub open spec fn refusals_not_success(c: Seq<Check>, n: nat) -> bool
    decreases n,
{
    if n == 0 {
        true
    } else {
        refusals_not_success(c, (n - 1) as nat) && c[n - 1].refusal != Status::Success
    }
}

proof fn lemma_prefix_holds_all(s: Store, c: Seq<Check>, i: nat)
    ensures
        prefix_holds(s, c, i) <==> forall|j: int| 0 <= j < i ==> #[trigger] holds_in(s, c, j),
    decreases i,
{
    if i > 0 {
        lemma_prefix_holds_all(s, c, (i - 1) as nat);
    }
}

proof fn lemma_refusals_all(c: Seq<Check>, n: nat)
    ensures
        refusals_not_success(c, n) <==> forall|j: int| 0 <= j < n ==> #[trigger] c[j].refusal != Status::Success,
    decreases n,
{
    if n > 0 {
        lemma_refusals_all(c, (n - 1) as nat);
    }
}

/// The operation goes ahead exactly when every check holds in the store.
proof fn lemma_settle_proceeds_iff(s: Store, c: Seq<Check>)
    ensures
        (settle(s, c) is Proceed) <==> prefix_holds(s, c, c.len()),
{
    let a = truthful(s, c);
    lemma_guard_outcome(c, a);
    lemma_prefix_holds_all(s, c, c.len());
    assert(forall|j: int| 0 <= j < c.len() ==> a[j] == answer_in(s, c[j].query));
    if prefix_holds(s, c, c.len()) {
        assert forall|j: int| 0 <= j < c.len() implies #[trigger] holds(c[j].expect, a[j]) by {
            assert(holds_in(s, c, j));
        }
    }
    if settle(s, c) is Proceed {
        assert forall|j: int| 0 <= j < c.len() implies #[trigger] holds_in(s, c, j) by {
            assert(holds(c[j].expect, a[j]));
        }
    }
}

/// The first check that fails in the store gives the refusal.
proof fn lemma_settle_refuses_at(s: Store, c: Seq<Check>, i: nat)
    requires
        i < c.len(),
        prefix_holds(s, c, i),
        !holds_in(s, c, i as int),
    ensures
        settle(s, c) == Verdict::Refuse(c[i as int].refusal),
{
    let a = truthful(s, c);
    lemma_guard_outcome(c, a);
    lemma_prefix_holds_all(s, c, i);
    assert(all_hold_upto(c, a, i as int)) by {
        assert forall|j: int| 0 <= j < i implies #[trigger] holds(c[j].expect, a[j]) by {
            assert(holds_in(s, c, j));
        }
    }
    assert(!holds(c[i as int].expect, a[i as int]));
}

/// A refusal is always one of the checks' refusals.
proof fn lemma_refusal_never_success(c: Seq<Check>, answers: Seq<Answer>)
    requires
        refusals_not_success(c, c.len()),
    ensures
        guard_outcome(c, answers) matches Verdict::Refuse(st) ==> st != Status::Success,
{
    lemma_guard_outcome(c, answers);
    lemma_refusals_all(c, c.len());
    if guard_outcome(c, answers) is Refuse {
        let i = choose|i: int|
            0 <= i < c.len() && all_hold_upto(c, answers, i) && i < answers.len()
                && !#[trigger] holds(c[i].expect, answers[i]);
        assert(c[i].refusal != Status::Success);
    }
}

/// Creating a group goes ahead exactly for a user logged in with the token
/// given; an unknown user and a wrong token are refused as such, and no
/// answers ever make it refuse with a success.
pub proof fn lemma_create_group_rules(s: Store, d: CreateGroupData, answers: Seq<Answer>)
    ensures
        (settle(s, create_group_checks(d)) is Proceed) <==> logged_in(s, d.user_id, d.token@),
        !s.users.contains_key(d.user_id) ==> settle(s, create_group_checks(d)) == Verdict::Refuse(Status::UserDoesNotExist),
        s.users.contains_key(d.user_id) && !logged_in(s, d.user_id, d.token@)
            ==> settle(s, create_group_checks(d)) == Verdict::Refuse(Status::WrongToken),
        guard_outcome(create_group_checks(d), answers) matches Verdict::Refuse(st) ==> st != Status::Success,
{
    let c = create_group_checks(d);
    reveal_with_fuel(prefix_holds, 3);
    reveal_with_fuel(refusals_not_success, 3);
    lemma_settle_proceeds_iff(s, c);
    if !s.users.contains_key(d.user_id) { lemma_settle_refuses_at(s, c, 0); }
    if s.users.contains_key(d.user_id) && !logged_in(s, d.user_id, d.token@) { lemma_settle_refuses_at(s, c, 1); }
    lemma_refusal_never_success(c, answers);
}

/// Making an admin goes ahead exactly when the caller is a logged-in admin
/// of an existing group and the new admin is an existing member who is not
/// an admin yet; each failure gets its own refusal, never a success.
pub proof fn lemma_set_admin_rules(s: Store, d: SetAdminData, answers: Seq<Answer>)
    ensures
        ({
            let (u, g, n) = (d.user_id, d.group_id, d.new_admin_id);
            let v = settle(s, set_admin_checks(d));
            &&& (v is Proceed) <==> (logged_in(s, u, d.token@) && s.groups.contains_key(g)
                && s.members.contains_key((g, u)) && s.users.contains_key(n)
                && s.members.contains_key((g, n)) && is_admin_of(s, u, g) && !is_admin_of(s, n, g))
            &&& !s.users.contains_key(u) ==> v == Verdict::Refuse(Status::UserDoesNotExist)
            &&& s.users.contains_key(u) && !logged_in(s, u, d.token@) ==> v == Verdict::Refuse(Status::WrongToken)
            &&& logged_in(s, u, d.token@) && !s.groups.contains_key(g) ==> v == Verdict::Refuse(Status::GroupDoesNotExist)
            &&& logged_in(s, u, d.token@) && s.groups.contains_key(g) && !s.members.contains_key((g, u))
                ==> v == Verdict::Refuse(Status::NotInGroup)
            &&& logged_in(s, u, d.token@) && s.groups.contains_key(g) && s.members.contains_key((g, u))
                && !s.users.contains_key(n) ==> v == Verdict::Refuse(Status::NewAdminDoesNotExist)
            &&& logged_in(s, u, d.token@) && s.groups.contains_key(g) && s.members.contains_key((g, u))
                && s.users.contains_key(n) && !s.members.contains_key((g, n))
                ==> v == Verdict::Refuse(Status::NewAdminNotInGroup)
            &&& logged_in(s, u, d.token@) && s.groups.contains_key(g) && s.members.contains_key((g, u))
                && s.users.contains_key(n) && s.members.contains_key((g, n)) && !is_admin_of(s, u, g)
                ==> v == Verdict::Refuse(Status::NotAnAdmin)
            &&& logged_in(s, u, d.token@) && s.groups.contains_key(g) && s.members.contains_key((g, u))
                && s.users.contains_key(n) && s.members.contains_key((g, n)) && is_admin_of(s, u, g)
                && is_admin_of(s, n, g) ==> v == Verdict::Refuse(Status::NewAdminAlreadyAdmin)
        }),
        guard_outcome(set_admin_checks(d), answers) matches Verdict::Refuse(st) ==> st != Status::Success,
{
    let c = set_admin_checks(d);
    let (u, g, n) = (d.user_id, d.group_id, d.new_admin_id);
    reveal_with_fuel(prefix_holds, 9);
    reveal_with_fuel(refusals_not_success, 9);
    lemma_settle_proceeds_iff(s, c);
    if !s.users.contains_key(u) { lemma_settle_refuses_at(s, c, 0); }
    if s.users.contains_key(u) && !logged_in(s, u, d.token@) { lemma_settle_refuses_at(s, c, 1); }
    if logged_in(s, u, d.token@) {
        if !s.groups.contains_key(g) { lemma_settle_refuses_at(s, c, 2); }
        else if !s.members.contains_key((g, u)) { lemma_settle_refuses_at(s, c, 3); }
        else if !s.users.contains_key(n) { lemma_settle_refuses_at(s, c, 4); }
        else if !s.members.contains_key((g, n)) { lemma_settle_refuses_at(s, c, 5); }
        else if !is_admin_of(s, u, g) { lemma_settle_refuses_at(s, c, 6); }
        else if is_admin_of(s, n, g) { lemma_settle_refuses_at(s, c, 7); }
    }
    lemma_refusal_never_success(c, answers);
}

/// Deleting a group goes ahead exactly when the caller is a logged-in admin
/// of that existing group, and then the group is gone; otherwise the store
/// is as it was and the answer is a refusal, never a success.
pub proof fn lemma_delete_group_rules(s: Store, d: DeleteGroupData, answers: Seq<Answer>)
    ensures
        ({
            let (u, g) = (d.user_id, d.group_id);
            let v = settle(s, delete_group_checks(d));
            &&& (v is Proceed) <==> (logged_in(s, u, d.token@) && s.groups.contains_key(g) && is_admin_of(s, u, g))
            &&& !s.users.contains_key(u) ==> v == Verdict::Refuse(Status::UserDoesNotExist)
            &&& s.users.contains_key(u) && !logged_in(s, u, d.token@) ==> v == Verdict::Refuse(Status::WrongToken)
            &&& logged_in(s, u, d.token@) && !s.groups.contains_key(g) ==> v == Verdict::Refuse(Status::GroupDoesNotExist)
            &&& logged_in(s, u, d.token@) && s.groups.contains_key(g) && !is_admin_of(s, u, g)
                ==> v == Verdict::Refuse(Status::NotAnAdmin)
            &&& v is Proceed ==> !delete_group_run(s, d).1.groups.contains_key(g)
                && delete_group_run(s, d).1.groups == s.groups.remove(g)
            &&& !(v is Proceed) ==> delete_group_run(s, d).1 == s && delete_group_run(s, d).0 != Status::Success
        }),
        guard_outcome(delete_group_checks(d), answers) matches Verdict::Refuse(st) ==> st != Status::Success,
{
    let c = delete_group_checks(d);
    let (u, g) = (d.user_id, d.group_id);
    reveal_with_fuel(prefix_holds, 5);
    reveal_with_fuel(refusals_not_success, 5);
    lemma_settle_proceeds_iff(s, c);
    lemma_guard_outcome(c, truthful(s, c));
    if !s.users.contains_key(u) { lemma_settle_refuses_at(s, c, 0); }
    if s.users.contains_key(u) && !logged_in(s, u, d.token@) { lemma_settle_refuses_at(s, c, 1); }
    if logged_in(s, u, d.token@) {
        if !s.groups.contains_key(g) { lemma_settle_refuses_at(s, c, 2); }
        else if !is_admin_of(s, u, g) { lemma_settle_refuses_at(s, c, 3); }
    }
    lemma_refusal_never_success(c, answers);
    lemma_refusal_never_success(c, truthful(s, c));
    if settle(s, c) is Proceed {
        assert(delete_group_run(s, d).1 == apply(s, delete_group_action(d)));
    }
}

/// Leaving goes ahead exactly for a logged-in member of an existing open
/// group who is not an admin, or is an admin beside at least one other;
/// each failure gets its own refusal, never a success.
pub proof fn lemma_leave_group_rules(s: Store, d: LeaveGroupData)
    requires
        store_wf(s),
    ensures
        ({
            let (u, g) = (d.user_id, d.group_id);
            let v = settle(s, leave_checks_in(s, d));
            &&& (v is Proceed) <==> (logged_in(s, u, d.token@) && s.groups.contains_key(g)
                && s.members.contains_key((g, u)) && !s.groups[g]
                && (!is_admin_of(s, u, g) || admin_rows(s, g).len() >= 2))
            &&& !s.users.contains_key(u) ==> v == Verdict::Refuse(Status::UserDoesNotExist)
            &&& s.users.contains_key(u) && !logged_in(s, u, d.token@) ==> v == Verdict::Refuse(Status::WrongToken)
            &&& logged_in(s, u, d.token@) && !s.groups.contains_key(g) ==> v == Verdict::Refuse(Status::GroupDoesNotExist)
            &&& logged_in(s, u, d.token@) && s.groups.contains_key(g) && !s.members.contains_key((g, u))
                ==> v == Verdict::Refuse(Status::AlreadyNotInGroup)
            &&& logged_in(s, u, d.token@) && s.groups.contains_key(g) && s.members.contains_key((g, u))
                && s.groups[g] ==> v == Verdict::Refuse(Status::CannotLeaveClosedGroup)
            &&& logged_in(s, u, d.token@) && s.groups.contains_key(g) && s.members.contains_key((g, u))
                && !s.groups[g] && is_admin_of(s, u, g) && admin_rows(s, g).len() < 2
                ==> v == Verdict::Refuse(Status::AdminCannotLeave)
            &&& v matches Verdict::Refuse(st) ==> st != Status::Success
        }),
{
    let c = leave_checks_in(s, d);
    let (u, g) = (d.user_id, d.group_id);
    lemma_rows_fit(s, g);
    reveal_with_fuel(prefix_holds, 8);
    reveal_with_fuel(refusals_not_success, 8);
    lemma_settle_proceeds_iff(s, c);
    if !s.users.contains_key(u) { lemma_settle_refuses_at(s, c, 0); }
    if s.users.contains_key(u) && !logged_in(s, u, d.token@) { lemma_settle_refuses_at(s, c, 1); }
    if logged_in(s, u, d.token@) {
        if !s.groups.contains_key(g) { lemma_settle_refuses_at(s, c, 2); }
        else if !s.members.contains_key((g, u)) { lemma_settle_refuses_at(s, c, 3); }
        else if s.groups[g] { lemma_settle_refuses_at(s, c, 4); }
        else if is_admin_of(s, u, g) && admin_rows(s, g).len() < 2 { lemma_settle_refuses_at(s, c, 6); }
    }
    lemma_refusal_never_success(c, truthful(s, c));
}

/// Giving up being an admin goes ahead exactly for a logged-in admin of an
/// existing group whose admin count is not 1; each failure gets its own
/// refusal, never a success.
pub proof fn lemma_stop_admin_rules(s: Store, d: StopAdminData, answers: Seq<Answer>)
    requires
        store_wf(s),
    ensures
        ({
            let (u, g) = (d.user_id, d.group_id);
            let v = settle(s, stop_admin_checks(d));
            &&& (v is Proceed) <==> (logged_in(s, u, d.token@) && s.groups.contains_key(g)
                && s.members.contains_key((g, u)) && is_admin_of(s, u, g) && admin_rows(s, g).len() != 1)
            &&& !s.users.contains_key(u) ==> v == Verdict::Refuse(Status::UserDoesNotExist)
            &&& s.users.contains_key(u) && !logged_in(s, u, d.token@) ==> v == Verdict::Refuse(Status::WrongToken)
            &&& logged_in(s, u, d.token@) && !s.groups.contains_key(g) ==> v == Verdict::Refuse(Status::GroupDoesNotExist)
            &&& logged_in(s, u, d.token@) && s.groups.contains_key(g) && !s.members.contains_key((g, u))
                ==> v == Verdict::Refuse(Status::NotInGroup)
            &&& logged_in(s, u, d.token@) && s.groups.contains_key(g) && s.members.contains_key((g, u))
                && !is_admin_of(s, u, g) ==> v == Verdict::Refuse(Status::NotAnAdmin)
            &&& logged_in(s, u, d.token@) && s.groups.contains_key(g) && is_admin_of(s, u, g)
                && admin_rows(s, g).len() == 1 ==> v == Verdict::Refuse(Status::OnlyAdmin)
        }),
        guard_outcome(stop_admin_checks(d), answers) matches Verdict::Refuse(st) ==> st != Status::Success,
{
    let c = stop_admin_checks(d);
    let (u, g) = (d.user_id, d.group_id);
    lemma_rows_fit(s, g);
    reveal_with_fuel(prefix_holds, 7);
    reveal_with_fuel(refusals_not_success, 7);
    lemma_settle_proceeds_iff(s, c);
    if !s.users.contains_key(u) { lemma_settle_refuses_at(s, c, 0); }
    if s.users.contains_key(u) && !logged_in(s, u, d.token@) { lemma_settle_refuses_at(s, c, 1); }
    if logged_in(s, u, d.token@) {
        if !s.groups.contains_key(g) { lemma_settle_refuses_at(s, c, 2); }
        else if !s.members.contains_key((g, u)) { lemma_settle_refuses_at(s, c, 3); }
        else if !is_admin_of(s, u, g) { lemma_settle_refuses_at(s, c, 4); }
        else if admin_rows(s, g).len() == 1 { lemma_settle_refuses_at(s, c, 5); }
    }
    lemma_refusal_never_success(c, answers);
}

/// The draw goes ahead exactly when the caller is a logged-in admin of an
/// existing open group with at least two members; a member who is not an
/// admin is refused as such; a successful draw was always run by an admin;
/// no refusal is ever a success.
pub proof fn lemma_christmas_rules(s: Store, d: ChristmasData, order: Seq<u32>, rec: Seq<u32>, answers: Seq<Answer>)
    requires
        store_wf(s),
    ensures
        ({
            let (u, g) = (d.user_id, d.group_id);
            let v = settle(s, christmas_checks(d));
            &&& (v is Proceed) <==> (logged_in(s, u, d.token@) && s.groups.contains_key(g)
                && s.members.contains_key((g, u)) && is_admin_of(s, u, g)
                && group_rows(s, g).len() >= 2 && !s.groups[g])
            &&& !s.users.contains_key(u) ==> v == Verdict::Refuse(Status::UserDoesNotExist)
            &&& s.users.contains_key(u) && !logged_in(s, u, d.token@) ==> v == Verdict::Refuse(Status::WrongToken)
            &&& logged_in(s, u, d.token@) && !s.groups.contains_key(g) ==> v == Verdict::Refuse(Status::GroupDoesNotExist)
            &&& logged_in(s, u, d.token@) && s.groups.contains_key(g) && !s.members.contains_key((g, u))
                ==> v == Verdict::Refuse(Status::NotInGroup)
            &&& logged_in(s, u, d.token@) && s.groups.contains_key(g) && s.members.contains_key((g, u))
                && !is_admin_of(s, u, g) ==> v == Verdict::Refuse(Status::NotAnAdmin)
            &&& logged_in(s, u, d.token@) && s.groups.contains_key(g) && is_admin_of(s, u, g)
                && group_rows(s, g).len() < 2 ==> v == Verdict::Refuse(Status::TooFewUsers)
            &&& logged_in(s, u, d.token@) && s.groups.contains_key(g) && is_admin_of(s, u, g)
                && group_rows(s, g).len() >= 2 && s.groups[g] ==> v == Verdict::Refuse(Status::AlreadyChristmas)
            &&& christmas_run(s, d, order, rec).0 == Status::Success ==> is_admin_of(s, u, g)
            &&& !(v is Proceed) ==> christmas_run(s, d, order, rec).1 == s
        }),
        guard_outcome(christmas_checks(d), answers) matches Verdict::Refuse(st) ==> st != Status::Success,
{
    let c = christmas_checks(d);
    let (u, g) = (d.user_id, d.group_id);
    lemma_rows_fit(s, g);
    reveal_with_fuel(prefix_holds, 8);
    reveal_with_fuel(refusals_not_success, 8);
    lemma_settle_proceeds_iff(s, c);
    lemma_guard_outcome(c, truthful(s, c));
    if !s.users.contains_key(u) { lemma_settle_refuses_at(s, c, 0); }
    if s.users.contains_key(u) && !logged_in(s, u, d.token@) { lemma_settle_refuses_at(s, c, 1); }
    if logged_in(s, u, d.token@) {
        if !s.groups.contains_key(g) { lemma_settle_refuses_at(s, c, 2); }
        else if !s.members.contains_key((g, u)) { lemma_settle_refuses_at(s, c, 3); }
        else if !is_admin_of(s, u, g) { lemma_settle_refuses_at(s, c, 4); }
        else if group_rows(s, g).len() < 2 { lemma_settle_refuses_at(s, c, 5); }
        else if s.groups[g] { lemma_settle_refuses_at(s, c, 6); }
    }
    lemma_refusal_never_success(c, answers);
    lemma_refusal_never_success(c, truthful(s, c));
}

/// Joining goes ahead exactly for a logged-in user who is not yet a member
/// of an existing group; joining a group that does not exist is refused as
/// such and changes nothing; no refusal is ever a success.
pub proof fn lemma_join_group_rules(s: Store, d: JoinGroupData, answers: Seq<Answer>)
    ensures
        ({
            let (u, g) = (d.user_id, d.group_id);
            let v = settle(s, join_group_checks(d));
            &&& (v is Proceed) <==> (logged_in(s, u, d.token@) && s.groups.contains_key(g)
                && !s.members.contains_key((g, u)))
            &&& !s.users.contains_key(u) ==> v == Verdict::Refuse(Status::UserDoesNotExist)
            &&& s.users.contains_key(u) && !logged_in(s, u, d.token@) ==> v == Verdict::Refuse(Status::WrongToken)
            &&& logged_in(s, u, d.token@) && !s.groups.contains_key(g) ==> v == Verdict::Refuse(Status::GroupDoesNotExist)
            &&& logged_in(s, u, d.token@) && s.groups.contains_key(g) && s.members.contains_key((g, u))
                ==> v == Verdict::Refuse(Status::AlreadyInGroup)
            &&& !s.groups.contains_key(g) ==> join_group_run(s, d).1 == s
                && join_group_run(s, d).0 != Status::Success
        }),
        guard_outcome(join_group_checks(d), answers) matches Verdict::Refuse(st) ==> st != Status::Success,
{
    let c = join_group_checks(d);
    let (u, g) = (d.user_id, d.group_id);
    reveal_with_fuel(prefix_holds, 5);
    reveal_with_fuel(refusals_not_success, 5);
    lemma_settle_proceeds_iff(s, c);
    lemma_guard_outcome(c, truthful(s, c));
    if !s.users.contains_key(u) { lemma_settle_refuses_at(s, c, 0); }
    if s.users.contains_key(u) && !logged_in(s, u, d.token@) { lemma_settle_refuses_at(s, c, 1); }
    if logged_in(s, u, d.token@) {
        if !s.groups.contains_key(g) { lemma_settle_refuses_at(s, c, 2); }
        else if s.members.contains_key((g, u)) { lemma_settle_refuses_at(s, c, 3); }
    }
    lemma_refusal_never_success(c, answers);
    lemma_refusal_never_success(c, truthful(s, c));
}

/// Logging off goes ahead exactly with the user's current token, and is
/// otherwise refused as a wrong password, never as a success.
pub proof fn lemma_logoff_rules(s: Store, d: LogoffData, answers: Seq<Answer>)
    ensures
        (settle(s, logoff_checks(d)) is Proceed) <==> logged_in(s, d.user_id, d.token@),
        !logged_in(s, d.user_id, d.token@) ==> settle(s, logoff_checks(d)) == Verdict::Refuse(Status::WrongPassword),
        guard_outcome(logoff_checks(d), answers) matches Verdict::Refuse(st) ==> st != Status::Success,
{
    let c = logoff_checks(d);
    reveal_with_fuel(prefix_holds, 2);
    reveal_with_fuel(refusals_not_success, 2);
    lemma_settle_proceeds_iff(s, c);
    if !logged_in(s, d.user_id, d.token@) { lemma_settle_refuses_at(s, c, 0); }
    lemma_refusal_never_success(c, answers);
}

/// Asking for one's recipient goes ahead exactly for a logged-in member of
/// an existing closed group; each failure gets its own refusal, and no
/// answers ever make it refuse with a success.
pub proof fn lemma_gift_recipient_rules(s: Store, d: GetGiftRecipientIdData, answers: Seq<Answer>)
    ensures
        ({
            let (u, g) = (d.user_id, d.group_id);
            let v = settle(s, gift_recipient_checks(d));
            &&& (v is Proceed) <==> (logged_in(s, u, d.token@) && s.groups.contains_key(g)
                && s.members.contains_key((g, u)) && s.groups[g])
            &&& !s.users.contains_key(u) ==> v == Verdict::Refuse(Status::UserDoesNotExist)
            &&& s.users.contains_key(u) && !logged_in(s, u, d.token@) ==> v == Verdict::Refuse(Status::WrongToken)
            &&& logged_in(s, u, d.token@) && !s.groups.contains_key(g) ==> v == Verdict::Refuse(Status::GroupDoesNotExist)
            &&& logged_in(s, u, d.token@) && s.groups.contains_key(g) && !s.members.contains_key((g, u))
                ==> v == Verdict::Refuse(Status::UserNotInGroup)
            &&& logged_in(s, u, d.token@) && s.groups.contains_key(g) && s.members.contains_key((g, u))
                && !s.groups[g] ==> v == Verdict::Refuse(Status::GroupNotClosed)
        }),
        guard_outcome(gift_recipient_checks(d), answers) matches Verdict::Refuse(st) ==> st != Status::Success,
{
    let c = gift_recipient_checks(d);
    let (u, g) = (d.user_id, d.group_id);
    reveal_with_fuel(prefix_holds, 6);
    reveal_with_fuel(refusals_not_success, 6);
    lemma_settle_proceeds_iff(s, c);
    if !s.users.contains_key(u) { lemma_settle_refuses_at(s, c, 0); }
    if s.users.contains_key(u) && !logged_in(s, u, d.token@) { lemma_settle_refuses_at(s, c, 1); }
    if logged_in(s, u, d.token@) {
        if !s.groups.contains_key(g) { lemma_settle_refuses_at(s, c, 2); }
        else if !s.members.contains_key((g, u)) { lemma_settle_refuses_at(s, c, 3); }
        else if !s.groups[g] { lemma_settle_refuses_at(s, c, 4); }
    }
    lemma_refusal_never_success(c, answers);
}

/// Asking for a name goes ahead exactly for an existing user, and is
/// otherwise refused as an unknown user, never as a success.
pub proof fn lemma_user_name_rules(s: Store, d: GetUserNameByIdData, answers: Seq<Answer>)
    ensures
        (settle(s, user_name_checks(d)) is Proceed) <==> s.users.contains_key(d.user_id),
        !s.users.contains_key(d.user_id) ==> settle(s, user_name_checks(d)) == Verdict::Refuse(Status::UserDoesNotExist),
        guard_outcome(user_name_checks(d), answers) matches Verdict::Refuse(st) ==> st != Status::Success,
{
    let c = user_name_checks(d);
    reveal_with_fuel(prefix_holds, 2);
    reveal_with_fuel(refusals_not_success, 2);
    lemma_settle_proceeds_iff(s, c);
    if !s.users.contains_key(d.user_id) { lemma_settle_refuses_at(s, c, 0); }
    lemma_refusal_never_success(c, answers);
}

} // verus!
