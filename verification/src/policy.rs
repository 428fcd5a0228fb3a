//! What each group operation demands of the store before it writes, stated
//! over the answers to its questions, in the order they are asked.
use vstd::prelude::*;
use crate::guard::{Answer, guard_outcome, holds, lemma_guard_outcome, Check};
use crate::crud::{leaving_admin, create_group_checks, set_admin_checks, delete_group_checks, leave_group_checks, stop_admin_checks, christmas_checks, join_group_checks, logoff_checks, gift_recipient_checks, user_name_checks};
use crate::models::{CreateGroupData, SetAdminData, DeleteGroupData, LeaveGroupData, StopAdminData, ChristmasData, JoinGroupData, LogoffData, GetGiftRecipientIdData, GetUserNameByIdData};

verus! {

/// The answer is yes.
pub open spec fn yes(a: Answer) -> bool {
    a == Answer::Flag(true)
}

/// The answer is no.
pub open spec fn no(a: Answer) -> bool {
    a == Answer::Flag(false)
}

/// The operation proceeds exactly when every one of its checks held.
proof fn lemma_proceeds_iff_all_hold(checks: Seq<Check>, answers: Seq<Answer>)
    ensures
        (guard_outcome(checks, answers) is Proceed) <==> (answers.len() >= checks.len()
            && forall|j: int| 0 <= j < checks.len() ==> #[trigger] holds(checks[j].expect, answers[j])),
{
    lemma_guard_outcome(checks, answers);
}

/// A group is created only by an existing user logged in with the token
/// given.
pub proof fn lemma_create_group_needs(d: CreateGroupData, answers: Seq<Answer>)
    ensures
        (guard_outcome(create_group_checks(d), answers) is Proceed) <==> (answers.len() >= 2
            && yes(answers[0]) && yes(answers[1])),
{
    let c = create_group_checks(d);
    lemma_proceeds_iff_all_hold(c, answers);
    if answers.len() >= 2 && yes(answers[0]) && yes(answers[1]) {
        assert forall|j: int| 0 <= j < c.len() implies #[trigger] holds(c[j].expect, answers[j]) by {
            if j == 0 {} else {}
        }
    }
    if guard_outcome(c, answers) is Proceed {
        assert(holds(c[0].expect, answers[0]));
        assert(holds(c[1].expect, answers[1]));
    }
}

/// An admin is made only by a logged-in member who is an admin of the
/// group, of a member who exists and is not an admin yet.
pub proof fn lemma_set_admin_needs(d: SetAdminData, answers: Seq<Answer>)
    ensures
        (guard_outcome(set_admin_checks(d), answers) is Proceed) <==> (answers.len() >= 8
            && yes(answers[0]) && yes(answers[1]) && yes(answers[2]) && yes(answers[3])
            && yes(answers[4]) && yes(answers[5]) && yes(answers[6]) && no(answers[7])),
{
    let c = set_admin_checks(d);
    lemma_proceeds_iff_all_hold(c, answers);
    if answers.len() >= 8 && yes(answers[0]) && yes(answers[1]) && yes(answers[2]) && yes(answers[3])
        && yes(answers[4]) && yes(answers[5]) && yes(answers[6]) && no(answers[7]) {
        assert forall|j: int| 0 <= j < c.len() implies #[trigger] holds(c[j].expect, answers[j]) by {
            if j == 0 {} else if j == 1 {} else if j == 2 {} else if j == 3 {}
            else if j == 4 {} else if j == 5 {} else if j == 6 {} else {}
        }
    }
    if guard_outcome(c, answers) is Proceed {
        assert(holds(c[0].expect, answers[0]));
        assert(holds(c[1].expect, answers[1]));
        assert(holds(c[2].expect, answers[2]));
        assert(holds(c[3].expect, answers[3]));
        assert(holds(c[4].expect, answers[4]));
        assert(holds(c[5].expect, answers[5]));
        assert(holds(c[6].expect, answers[6]));
        assert(holds(c[7].expect, answers[7]));
    }
}

/// A group is deleted only by a logged-in admin of it.
pub proof fn lemma_delete_group_needs(d: DeleteGroupData, answers: Seq<Answer>)
    ensures
        (guard_outcome(delete_group_checks(d), answers) is Proceed) <==> (answers.len() >= 4
            && yes(answers[0]) && yes(answers[1]) && yes(answers[2]) && yes(answers[3])),
{
    let c = delete_group_checks(d);
    lemma_proceeds_iff_all_hold(c, answers);
    if answers.len() >= 4 && yes(answers[0]) && yes(answers[1]) && yes(answers[2]) && yes(answers[3]) {
        assert forall|j: int| 0 <= j < c.len() implies #[trigger] holds(c[j].expect, answers[j]) by {
            if j == 0 {} else if j == 1 {} else if j == 2 {} else {}
        }
    }
    if guard_outcome(c, answers) is Proceed {
        assert(holds(c[0].expect, answers[0]));
        assert(holds(c[1].expect, answers[1]));
        assert(holds(c[2].expect, answers[2]));
        assert(holds(c[3].expect, answers[3]));
    }
}

/// A member leaves a group only while it is open; an admin leaves only when
/// the group has at least two admins, so it keeps one.
pub proof fn lemma_leave_group_needs(d: LeaveGroupData, answers: Seq<Answer>)
    ensures
        (guard_outcome(leave_group_checks(d, leaving_admin(answers)), answers) is Proceed) <==> (
        answers.len() >= 6 && yes(answers[0]) && yes(answers[1]) && yes(answers[2]) && yes(answers[3])
            && no(answers[4]) && (no(answers[5]) || (yes(answers[5]) && answers.len() >= 7
            && (answers[6] matches Answer::Count(n) && n >= 2)))),
{
    let c = leave_group_checks(d, leaving_admin(answers));
    lemma_proceeds_iff_all_hold(c, answers);
    if answers.len() >= 6 && yes(answers[0]) && yes(answers[1]) && yes(answers[2]) && yes(answers[3])
        && no(answers[4]) && (no(answers[5]) || (yes(answers[5]) && answers.len() >= 7
        && (answers[6] matches Answer::Count(n) && n >= 2))) {
        assert forall|j: int| 0 <= j < c.len() implies #[trigger] holds(c[j].expect, answers[j]) by {
            if j == 0 {} else if j == 1 {} else if j == 2 {} else if j == 3 {} else if j == 4 {}
            else if j == 5 {} else {}
        }
    }
    if guard_outcome(c, answers) is Proceed {
        assert(holds(c[0].expect, answers[0]));
        assert(holds(c[1].expect, answers[1]));
        assert(holds(c[2].expect, answers[2]));
        assert(holds(c[3].expect, answers[3]));
        assert(holds(c[4].expect, answers[4]));
        assert(holds(c[5].expect, answers[5]));
        if leaving_admin(answers) {
            assert(holds(c[6].expect, answers[6]));
        }
    }
}

/// An admin gives up being an admin only when the group's admin count is
/// not 1: a group is never left without an admin this way.
pub proof fn lemma_stop_admin_needs(d: StopAdminData, answers: Seq<Answer>)
    ensures
        (guard_outcome(stop_admin_checks(d), answers) is Proceed) <==> (answers.len() >= 6
            && yes(answers[0]) && yes(answers[1]) && yes(answers[2]) && yes(answers[3])
            && yes(answers[4]) && (answers[5] matches Answer::Count(n) && n != 1)),
{
    let c = stop_admin_checks(d);
    lemma_proceeds_iff_all_hold(c, answers);
    if answers.len() >= 6 && yes(answers[0]) && yes(answers[1]) && yes(answers[2]) && yes(answers[3])
        && yes(answers[4]) && (answers[5] matches Answer::Count(n) && n != 1) {
        assert forall|j: int| 0 <= j < c.len() implies #[trigger] holds(c[j].expect, answers[j]) by {
            if j == 0 {} else if j == 1 {} else if j == 2 {} else if j == 3 {} else if j == 4 {} else {}
        }
    }
    if guard_outcome(c, answers) is Proceed {
        assert(holds(c[0].expect, answers[0]));
        assert(holds(c[1].expect, answers[1]));
        assert(holds(c[2].expect, answers[2]));
        assert(holds(c[3].expect, answers[3]));
        assert(holds(c[4].expect, answers[4]));
        assert(holds(c[5].expect, answers[5]));
    }
}

/// The draw is run only by a logged-in admin of an open group with at least
/// two members.
pub proof fn lemma_christmas_needs(d: ChristmasData, answers: Seq<Answer>)
    ensures
        (guard_outcome(christmas_checks(d), answers) is Proceed) <==> (answers.len() >= 7
            && yes(answers[0]) && yes(answers[1]) && yes(answers[2]) && yes(answers[3])
            && yes(answers[4]) && (answers[5] matches Answer::Count(n) && n >= 2) && no(answers[6])),
{
    let c = christmas_checks(d);
    lemma_proceeds_iff_all_hold(c, answers);
    if answers.len() >= 7 && yes(answers[0]) && yes(answers[1]) && yes(answers[2]) && yes(answers[3])
        && yes(answers[4]) && (answers[5] matches Answer::Count(n) && n >= 2) && no(answers[6]) {
        assert forall|j: int| 0 <= j < c.len() implies #[trigger] holds(c[j].expect, answers[j]) by {
            if j == 0 {} else if j == 1 {} else if j == 2 {} else if j == 3 {}
            else if j == 4 {} else if j == 5 {} else {}
        }
    }
    if guard_outcome(c, answers) is Proceed {
        assert(holds(c[0].expect, answers[0]));
        assert(holds(c[1].expect, answers[1]));
        assert(holds(c[2].expect, answers[2]));
        assert(holds(c[3].expect, answers[3]));
        assert(holds(c[4].expect, answers[4]));
        assert(holds(c[5].expect, answers[5]));
        assert(holds(c[6].expect, answers[6]));
    }
}

/// A user joins a group only when logged in and not a member yet.
pub proof fn lemma_join_group_needs(d: JoinGroupData, answers: Seq<Answer>)
    ensures
        (guard_outcome(join_group_checks(d), answers) is Proceed) <==> (answers.len() >= 4
            && yes(answers[0]) && yes(answers[1]) && yes(answers[2]) && no(answers[3])),
{
    let c = join_group_checks(d);
    lemma_proceeds_iff_all_hold(c, answers);
    if answers.len() >= 4 && yes(answers[0]) && yes(answers[1]) && yes(answers[2]) && no(answers[3]) {
        assert forall|j: int| 0 <= j < c.len() implies #[trigger] holds(c[j].expect, answers[j]) by {
            if j == 0 {} else if j == 1 {} else if j == 2 {} else {}
        }
    }
    if guard_outcome(c, answers) is Proceed {
        assert(holds(c[0].expect, answers[0]));
        assert(holds(c[1].expect, answers[1]));
        assert(holds(c[2].expect, answers[2]));
        assert(holds(c[3].expect, answers[3]));
    }
}

/// A user is logged off only with their current token.
pub proof fn lemma_logoff_needs(d: LogoffData, answers: Seq<Answer>)
    ensures
        (guard_outcome(logoff_checks(d), answers) is Proceed) <==> (answers.len() >= 1 && yes(answers[0])),
{
    let c = logoff_checks(d);
    lemma_proceeds_iff_all_hold(c, answers);
    if guard_outcome(c, answers) is Proceed {
        assert(holds(c[0].expect, answers[0]));
    }
}

/// A recipient is told only to a logged-in member of a closed group.
pub proof fn lemma_gift_recipient_needs(d: GetGiftRecipientIdData, answers: Seq<Answer>)
    ensures
        (guard_outcome(gift_recipient_checks(d), answers) is Proceed) <==> (answers.len() >= 5
            && yes(answers[0]) && yes(answers[1]) && yes(answers[2]) && yes(answers[3])
            && yes(answers[4])),
{
    let c = gift_recipient_checks(d);
    lemma_proceeds_iff_all_hold(c, answers);
    if answers.len() >= 5 && yes(answers[0]) && yes(answers[1]) && yes(answers[2]) && yes(answers[3])
        && yes(answers[4]) {
        assert forall|j: int| 0 <= j < c.len() implies #[trigger] holds(c[j].expect, answers[j]) by {
            if j == 0 {} else if j == 1 {} else if j == 2 {} else if j == 3 {} else {}
        }
    }
    if guard_outcome(c, answers) is Proceed {
        assert(holds(c[0].expect, answers[0]));
        assert(holds(c[1].expect, answers[1]));
        assert(holds(c[2].expect, answers[2]));
        assert(holds(c[3].expect, answers[3]));
        assert(holds(c[4].expect, answers[4]));
    }
}

/// A name is read only for a user who exists.
pub proof fn lemma_user_name_needs(d: GetUserNameByIdData, answers: Seq<Answer>)
    ensures
        (guard_outcome(user_name_checks(d), answers) is Proceed) <==> (answers.len() >= 1 && yes(answers[0])),
{
    let c = user_name_checks(d);
    lemma_proceeds_iff_all_hold(c, answers);
    if guard_outcome(c, answers) is Proceed {
        assert(holds(c[0].expect, answers[0]));
    }
}

} // verus!
