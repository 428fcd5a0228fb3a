//! The checks that stand before every write to the group store. An
//! operation asks its questions about the store one at a time, in a fixed
//! order; the first answer that does not hold ends it with that check's
//! status, and when every answer holds the operation may write.
use vstd::prelude::*;
use crate::status::Status;

verus! {

/// A question about the stored users and groups.
#[derive(Debug)]
pub enum Query {
    /// Is there a user with this id?
    UserReal { user_id: u32 },
    /// Is this user logged in with exactly this token?
    Logged { token: String, user_id: u32 },
    /// Is there a group with this id?
    GroupReal { group_id: u32 },
    /// Is this user a member of this group?
    InGroup { user_id: u32, group_id: u32 },
    /// Is this user a member and an admin of this group?
    AdminInGroup { user_id: u32, group_id: u32 },
    /// How many admins does this group have?
    AdminCount { group_id: u32 },
    /// How many members does this group have?
    UserCount { group_id: u32 },
    /// Is this (existing) group closed, its gifts drawn?
    GroupClosed { group_id: u32 },
}

impl Query {
    /// A copy of this query.
    pub fn duplicate(&self) -> (res: Query)
        ensures
            res == *self,
    {
        match self {
            Query::UserReal { user_id } => Query::UserReal { user_id: *user_id },
            Query::Logged { token, user_id } => Query::Logged {
                token: token.clone(),
                user_id: *user_id,
            },
            Query::GroupReal { group_id } => Query::GroupReal { group_id: *group_id },
            Query::InGroup { user_id, group_id } => Query::InGroup {
                user_id: *user_id,
                group_id: *group_id,
            },
            Query::AdminInGroup { user_id, group_id } => Query::AdminInGroup {
                user_id: *user_id,
                group_id: *group_id,
            },
            Query::AdminCount { group_id } => Query::AdminCount { group_id: *group_id },
            Query::UserCount { group_id } => Query::UserCount { group_id: *group_id },
            Query::GroupClosed { group_id } => Query::GroupClosed { group_id: *group_id },
        }
    }
}

/// The answer to a query: a yes or no, or a number of rows.
#[derive(Clone, Copy, Debug, PartialEq, Eq, Structural)]
pub enum Answer {
    Flag(bool),
    Count(usize),
}

/// What an answer must be for the operation to go on.
#[derive(Clone, Copy, Debug, PartialEq, Eq, Structural)]
pub enum Expect {
    Yes,
    No,
    NotOne,
    AtLeastTwo,
}

/// One check: a question, the answer it needs, and the status the
/// operation ends with when the answer is otherwise.
#[derive(Debug)]
pub struct Check {
    pub query: Query,
    pub expect: Expect,
    pub refusal: Status,
}

/// What an operation does next.
#[derive(Debug)]
pub enum Verdict {
    /// Ask this question of the store and come back with the answer.
    Ask(Query),
    /// Stop here and answer with this status.
    Refuse(Status),
    /// Every check held: perform the operation's write.
    Proceed,
}

/// Whether `answer` is what `expect` needs. An answer of the wrong kind
/// never holds.
pub open spec fn holds(expect: Expect, answer: Answer) -> bool {
    match (expect, answer) {
        (Expect::Yes, Answer::Flag(b)) => b,
        (Expect::No, Answer::Flag(b)) => !b,
        (Expect::NotOne, Answer::Count(n)) => n != 1,
        (Expect::AtLeastTwo, Answer::Count(n)) => n >= 2,
        _ => false,
    }
}

/// The next step of an operation whose checks are `checks`, given the
/// answers to its first questions, in order.
pub open spec fn guard_outcome(checks: Seq<Check>, answers: Seq<Answer>) -> Verdict
    decreases checks.len(),
{
    if checks.len() == 0 {
        Verdict::Proceed
    } else if answers.len() == 0 {
        Verdict::Ask(checks[0].query)
    } else if !holds(checks[0].expect, answers[0]) {
        Verdict::Refuse(checks[0].refusal)
    } else {
        guard_outcome(checks.drop_first(), answers.drop_first())
    }
}

/// The first `k` checks all held on the answers.
pub open spec fn all_hold_upto(checks: Seq<Check>, answers: Seq<Answer>, k: int) -> bool {
    &&& k <= answers.len()
    &&& forall|j: int| 0 <= j < k ==> #[trigger] holds(checks[j].expect, answers[j])
}

/// The law of the checks: an operation proceeds exactly when every check
/// was answered and held; it asks the first unanswered question when every
/// answer so far held; and it refuses with the status of the first check
/// whose answer did not hold.
pub proof fn lemma_guard_outcome(checks: Seq<Check>, answers: Seq<Answer>)
    ensures
        (guard_outcome(checks, answers) is Proceed) <==> all_hold_upto(
            checks,
            answers,
            checks.len() as int,
        ),
        (guard_outcome(checks, answers) is Ask) <==> (answers.len() < checks.len()
            && all_hold_upto(checks, answers, answers.len() as int)),
        (guard_outcome(checks, answers) is Ask) ==> guard_outcome(checks, answers)->Ask_0
            == checks[answers.len() as int].query,
        (guard_outcome(checks, answers) is Refuse) <==> (exists|i: int|
            0 <= i < checks.len() && all_hold_upto(checks, answers, i) && i < answers.len()
                && !#[trigger] holds(checks[i].expect, answers[i])),
        forall|i: int|
            0 <= i < checks.len() && all_hold_upto(checks, answers, i) && i < answers.len()
                && !#[trigger] holds(checks[i].expect, answers[i]) ==> guard_outcome(
                checks,
                answers,
            ) == Verdict::Refuse(checks[i].refusal),
    decreases checks.len(),
{
    if checks.len() == 0 {
    } else if answers.len() == 0 {
    } else if !holds(checks[0].expect, answers[0]) {
        assert(all_hold_upto(checks, answers, 0));
    } else {
        let c = checks.drop_first();
        let a = answers.drop_first();
        lemma_guard_outcome(c, a);
        assert forall|k: int| 0 <= k < checks.len() implies
            #[trigger] all_hold_upto(checks, answers, k + 1) == all_hold_upto(c, a, k) by {
            if all_hold_upto(c, a, k) {
                assert forall|j: int| 0 <= j < k + 1 implies #[trigger] holds(
                    checks[j].expect,
                    answers[j],
                ) by {
                    if j > 0 {
                        assert(c[j - 1] == checks[j]);
                        assert(holds(c[j - 1].expect, a[j - 1]));
                    }
                }
            }
            if all_hold_upto(checks, answers, k + 1) {
                assert forall|j: int| 0 <= j < k implies #[trigger] holds(c[j].expect, a[j]) by {
                    assert(holds(checks[j + 1].expect, answers[j + 1]));
                }
            }
        }
        assert(all_hold_upto(checks, answers, c.len() as int + 1) == all_hold_upto(
            c,
            a,
            c.len() as int,
        ));
        if answers.len() < checks.len() {
            assert(all_hold_upto(checks, answers, a.len() as int + 1) == all_hold_upto(
                c,
                a,
                a.len() as int,
            ));
        }
        if exists|i: int|
            0 <= i < checks.len() && all_hold_upto(checks, answers, i) && i < answers.len()
                && !#[trigger] holds(checks[i].expect, answers[i]) {
            let i = choose|i: int|
                0 <= i < checks.len() && all_hold_upto(checks, answers, i) && i < answers.len()
                    && !#[trigger] holds(checks[i].expect, answers[i]);
            assert(i > 0);
            assert(all_hold_upto(c, a, i - 1));
            assert(holds(c[i - 1].expect, a[i - 1]) == holds(checks[i].expect, answers[i]));
        }
        if exists|i: int|
            0 <= i < c.len() && all_hold_upto(c, a, i) && i < a.len() && !#[trigger] holds(
                c[i].expect,
                a[i],
            ) {
            let i = choose|i: int|
                0 <= i < c.len() && all_hold_upto(c, a, i) && i < a.len() && !#[trigger] holds(
                    c[i].expect,
                    a[i],
                );
            assert(all_hold_upto(checks, answers, i + 1));
            assert(!holds(checks[i + 1].expect, answers[i + 1]));
        }
        assert forall|i: int|
            0 <= i < checks.len() && all_hold_upto(checks, answers, i) && i < answers.len()
                && !#[trigger] holds(checks[i].expect, answers[i]) implies guard_outcome(
            checks,
            answers,
        ) == Verdict::Refuse(checks[i].refusal) by {
            assert(i > 0);
            assert(all_hold_upto(c, a, i - 1));
            assert(!holds(c[i - 1].expect, a[i - 1]));
            assert(c[i - 1] == checks[i]);
        }
    }
}

/// Whether `answer` is what `expect` needs.
pub fn answer_holds(expect: Expect, answer: Answer) -> (res: bool)
    ensures
        res == holds(expect, answer),
{
    match (expect, answer) {
        (Expect::Yes, Answer::Flag(b)) => b,
        (Expect::No, Answer::Flag(b)) => !b,
        (Expect::NotOne, Answer::Count(n)) => n != 1,
        (Expect::AtLeastTwo, Answer::Count(n)) => n >= 2,
        _ => false,
    }
}

/// The next step of an operation with these checks, given the answers to its
/// first questions.
pub fn run_checks(checks: &Vec<Check>, answers: &Vec<Answer>) -> (res: Verdict)
    ensures
        res == guard_outcome(checks@, answers@),
{
    let mut i: usize = 0;
    assert(checks@.skip(0) =~= checks@);
    assert(answers@.skip(0) =~= answers@);
    while i < checks.len()
        invariant
            i <= checks.len(),
            i <= answers.len(),
            guard_outcome(checks@, answers@) == guard_outcome(
                checks@.skip(i as int),
                answers@.skip(i as int),
            ),
        decreases checks.len() - i,
    {
        if i >= answers.len() {
            return Verdict::Ask(checks[i].query.duplicate());
        }
        if !answer_holds(checks[i].expect, answers[i]) {
            return Verdict::Refuse(checks[i].refusal);
        }
        proof {
            assert(checks@.skip(i as int).drop_first() =~= checks@.skip(i + 1));
            assert(answers@.skip(i as int).drop_first() =~= answers@.skip(i + 1));
        }
        i = i + 1;
    }
    Verdict::Proceed
}

/// The answer to a yes-or-no query from the number of rows the store found
/// for it: yes when it found any.
pub fn found_answer(rows: usize) -> (res: Answer)
    ensures
        res == Answer::Flag(rows != 0),
{
    Answer::Flag(rows != 0)
}

/// The answer to a counting query from the number of rows the store found.
pub fn count_answer(rows: usize) -> (res: Answer)
    ensures
        res == Answer::Count(rows),
{
    Answer::Count(rows)
}

/// The answer to `AdminInGroup` from the `is_admin` values of the
/// membership rows found: yes when there is one and the first is not 0.
pub fn admin_answer(is_admin: &Vec<u32>) -> (res: Answer)
    ensures
        res == Answer::Flag(is_admin.len() > 0 && is_admin[0] != 0),
{
    if is_admin.len() == 0 {
        Answer::Flag(false)
    } else {
        Answer::Flag(is_admin[0] != 0)
    }
}

/// The answer to `GroupClosed` from the `is_closed` values of the group rows
/// found, of which there must be one: yes when the first is not 0.
pub fn closed_answer(is_closed: &Vec<u32>) -> (res: Answer)
    requires
        is_closed.len() > 0,
    ensures
        res == Answer::Flag(is_closed[0] != 0),
{
    Answer::Flag(is_closed[0] != 0)
}

} // verus!
