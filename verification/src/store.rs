//! A model of the store that the operations run against: users, groups and
//! memberships, how the store answers each question, and what each action
//! does to it. Over this model the laws that span calls are proved: what a
//! refusal leaves, what one operation undoes of another, and what every
//! operation keeps.
use vstd::prelude::*;
use crate::status::Status;
use crate::guard::{Query, Answer, Check, Verdict, guard_outcome, holds, all_hold_upto, lemma_guard_outcome};
use crate::crud::{
    create_group_action, christmas_action, gift_recipient_action, logoff_checks, logoff_action,
    user_name_checks, user_name_action,
    create_group_checks, delete_group_checks, delete_group_action,
    Action, status_for_rows, join_status_for_rows, set_admin_checks, set_admin_action,
    stop_admin_checks, stop_admin_action, leave_group_checks, leave_group_action, join_group_checks,
    join_group_action, christmas_checks, gift_recipient_checks,
};
use crate::models::{LogoffData, GetUserNameByIdData, CreateGroupData, DeleteGroupData, SetAdminData, StopAdminData, LeaveGroupData, JoinGroupData, ChristmasData, GetGiftRecipientIdData};
use crate::draw::{is_permutation_of, no_self_assignment, lemma_permutation_no_duplicates};
use crate::policy::{yes, lemma_create_group_needs, lemma_set_admin_needs, lemma_stop_admin_needs, lemma_leave_group_needs, lemma_join_group_needs, lemma_christmas_needs, lemma_gift_recipient_needs};

verus! {

/// A stored user: their current token and whether they are logged in.
pub struct UserRecord {
    pub name: Seq<char>,
    pub token: Seq<char>,
    pub logged: bool,
}

/// A stored membership: the admin flag and the drawn recipient, if any.
pub struct MemberRecord {
    pub is_admin: bool,
    pub recipient: Option<u32>,
}

/// The store: users by id, groups by id with their closed flag, and
/// memberships by (group id, user id).
pub struct Store {
    pub users: Map<u32, UserRecord>,
    pub groups: Map<u32, bool>,
    pub members: Map<(u32, u32), MemberRecord>,
}

/// The membership table is finite and its size fits a `usize`.
pub open spec fn store_wf(s: Store) -> bool {
    &&& s.members.dom().finite()
    &&& s.members.dom().len() <= usize::MAX
}

/// The membership key belongs to group `g`.
pub open spec fn in_group_key(g: u32) -> spec_fn((u32, u32)) -> bool {
    |k: (u32, u32)| k.0 == g
}

/// The membership key is that of an admin of group `g`.
pub open spec fn admin_key(s: Store, g: u32) -> spec_fn((u32, u32)) -> bool {
    |k: (u32, u32)| k.0 == g && s.members[k].is_admin
}

/// The membership keys of group `g`.
pub open spec fn group_rows(s: Store, g: u32) -> Set<(u32, u32)> {
    s.members.dom().filter(in_group_key(g))
}

/// The membership keys of the admins of group `g`.
pub open spec fn admin_rows(s: Store, g: u32) -> Set<(u32, u32)> {
    s.members.dom().filter(admin_key(s, g))
}

/// User `u` is a member and an admin of group `g`.
pub open spec fn is_admin_of(s: Store, u: u32, g: u32) -> bool {
    s.members.contains_key((g, u)) && s.members[(g, u)].is_admin
}

/// User `u` exists and is logged in with this token.
pub open spec fn logged_in(s: Store, u: u32, token: Seq<char>) -> bool {
    &&& s.users.contains_key(u)
    &&& s.users[u].logged
    &&& s.users[u].token == token
}

/// How the store answers a question.
pub open spec fn answer_in(s: Store, q: Query) -> Answer {
    match q {
        Query::UserReal { user_id } => Answer::Flag(s.users.contains_key(user_id)),
        Query::Logged { token, user_id } => Answer::Flag(logged_in(s, user_id, token@)),
        Query::GroupReal { group_id } => Answer::Flag(s.groups.contains_key(group_id)),
        Query::InGroup { user_id, group_id } => Answer::Flag(s.members.contains_key((group_id, user_id))),
        Query::AdminInGroup { user_id, group_id } => Answer::Flag(is_admin_of(s, user_id, group_id)),
        Query::AdminCount { group_id } => Answer::Count(admin_rows(s, group_id).len() as usize),
        Query::UserCount { group_id } => Answer::Count(group_rows(s, group_id).len() as usize),
        Query::GroupClosed { group_id } => Answer::Flag(s.groups[group_id]),
    }
}

/// The store's answers to all the checks' questions.
pub open spec fn truthful(s: Store, checks: Seq<Check>) -> Seq<Answer> {
    Seq::new(checks.len(), |i: int| answer_in(s, checks[i].query))
}

/// Where the checks end when every question is put to the store. (An
/// operation stops asking at its first refusal; the later answers do not
/// change where it ends.)
pub open spec fn settle(s: Store, checks: Seq<Check>) -> Verdict {
    guard_outcome(checks, truthful(s, checks))
}

/// What an action does to the store. Creating a group and the draw need
/// more than the action (the new id; the members read and the recipients
/// drawn) and are modelled on their own.
pub open spec fn apply(s: Store, a: Action) -> Store {
    match a {
        Action::SetAdmin { user_id, group_id, is_admin } => if s.members.contains_key((group_id, user_id)) {
            Store {
                members: s.members.insert(
                    (group_id, user_id),
                    MemberRecord { is_admin, recipient: s.members[(group_id, user_id)].recipient },
                ),
                ..s
            }
        } else {
            s
        },
        Action::DeleteGroup { group_id } => Store {
            groups: s.groups.remove(group_id),
            members: s.members.restrict(s.members.dom().filter(|k: (u32, u32)| k.0 != group_id)),
            ..s
        },
        Action::AddMember { user_id, group_id } => Store {
            members: s.members.insert((group_id, user_id), MemberRecord { is_admin: false, recipient: None }),
            ..s
        },
        Action::RemoveMember { user_id, group_id } => Store {
            members: s.members.remove((group_id, user_id)),
            ..s
        },
        Action::LogOff { user_id } => if s.users.contains_key(user_id) {
            Store { users: s.users.insert(user_id, UserRecord { logged: false, ..s.users[user_id] }), ..s }
        } else {
            s
        },
        _ => s,
    }
}

/// How many rows an action touches.
pub open spec fn rows_touched(s: Store, a: Action) -> int {
    match a {
        Action::SetAdmin { user_id, group_id, .. } => if s.members.contains_key((group_id, user_id)) { 1 } else { 0 },
        Action::RemoveMember { user_id, group_id } => if s.members.contains_key((group_id, user_id)) { 1 } else { 0 },
        Action::AddMember { .. } => 1,
        _ => 0,
    }
}

/// Making an admin, run against the store: its status and the store after.
pub open spec fn set_admin_run(s: Store, d: SetAdminData) -> (Status, Store) {
    match settle(s, set_admin_checks(d)) {
        Verdict::Refuse(st) => (st, s),
        _ => (status_for_rows(rows_touched(s, set_admin_action(d))), apply(s, set_admin_action(d))),
    }
}

/// Giving up being an admin, run against the store.
pub open spec fn stop_admin_run(s: Store, d: StopAdminData) -> (Status, Store) {
    match settle(s, stop_admin_checks(d)) {
        Verdict::Refuse(st) => (st, s),
        _ => (status_for_rows(rows_touched(s, stop_admin_action(d))), apply(s, stop_admin_action(d))),
    }
}

/// The checks of leaving a group as the store answers them: the admin
/// branch is taken when the store says the caller is an admin.
pub open spec fn leave_checks_in(s: Store, d: LeaveGroupData) -> Seq<Check> {
    leave_group_checks(d, is_admin_of(s, d.user_id, d.group_id))
}

/// Leaving a group, run against the store.
pub open spec fn leave_group_run(s: Store, d: LeaveGroupData) -> (Status, Store) {
    match settle(s, leave_checks_in(s, d)) {
        Verdict::Refuse(st) => (st, s),
        _ => (status_for_rows(rows_touched(s, leave_group_action(d))), apply(s, leave_group_action(d))),
    }
}

/// Joining a group, run against the store.
pub open spec fn join_group_run(s: Store, d: JoinGroupData) -> (Status, Store) {
    match settle(s, join_group_checks(d)) {
        Verdict::Refuse(st) => (st, s),
        _ => (join_status_for_rows(rows_touched(s, join_group_action(d))), apply(s, join_group_action(d))),
    }
}

/// Every group has an admin.
pub open spec fn every_group_has_admin(s: Store) -> bool {
    forall|g: u32| s.groups.contains_key(g) ==> exists|u: u32| is_admin_of(s, u, g)
}

/// A refused request to make an admin changes nothing: whenever the answer
/// is not a success, the store is as it was.
pub proof fn lemma_set_admin_refusal_keeps_store(s: Store, d: SetAdminData)
    ensures
        set_admin_run(s, d).0 != Status::Success ==> set_admin_run(s, d).1 == s,
{
    let c = set_admin_checks(d);
    let a = truthful(s, c);
    lemma_guard_outcome(c, a);
    lemma_set_admin_needs(d, a);
    if settle(s, c) is Proceed {
        assert(yes(a[5]));
        assert(a[5] == answer_in(s, c[5].query));
        assert(s.members.contains_key((d.group_id, d.new_admin_id)));
    }
}

/// Joining a group one is already a member of is refused, and changes
/// nothing.
pub proof fn lemma_join_refuses_member(s: Store, d: JoinGroupData)
    requires
        logged_in(s, d.user_id, d.token@),
        s.groups.contains_key(d.group_id),
        s.members.contains_key((d.group_id, d.user_id)),
    ensures
        join_group_run(s, d) == (Status::AlreadyInGroup, s),
{
    let c = join_group_checks(d);
    let a = truthful(s, c);
    lemma_guard_outcome(c, a);
    assert(holds(c[0].expect, a[0]));
    assert(holds(c[1].expect, a[1]));
    assert(holds(c[2].expect, a[2]));
    assert(all_hold_upto(c, a, 3));
    assert(!holds(c[3].expect, a[3]));
}

/// Leaving a group undoes joining it: a logged-in user who is not a member
/// of an open group joins it and leaves it, and the store is as before.
pub proof fn lemma_leave_undoes_join(s0: Store, user_id: u32, token: String, group_id: u32)
    requires
        logged_in(s0, user_id, token@),
        s0.groups.contains_key(group_id),
        !s0.groups[group_id],
        !s0.members.contains_key((group_id, user_id)),
    ensures
        join_group_run(s0, JoinGroupData { user_id, token, group_id }).0 == Status::Success,
        leave_group_run(
            join_group_run(s0, JoinGroupData { user_id, token, group_id }).1,
            LeaveGroupData { user_id, token, group_id },
        ) == (Status::Success, s0),
{
    let dj = JoinGroupData { user_id, token, group_id };
    let dl = LeaveGroupData { user_id, token, group_id };
    let cj = join_group_checks(dj);
    let aj = truthful(s0, cj);
    lemma_join_group_needs(dj, aj);
    assert(settle(s0, cj) is Proceed);
    let s1 = apply(s0, join_group_action(dj));
    assert(join_group_run(s0, dj) == (Status::Success, s1));
    let k = (group_id, user_id);
    assert(!is_admin_of(s1, user_id, group_id));
    let cl = leave_checks_in(s1, dl);
    let al = truthful(s1, cl);
    lemma_leave_group_needs(dl, al);
    assert(al[5] == Answer::Flag(false));
    assert(settle(s1, cl) is Proceed);
    let s2 = apply(s1, leave_group_action(dl));
    assert(s2.members =~= s0.members);
    assert(s2 == s0);
}

/// The store answers the sixth question of leaving a group exactly as the
/// branch of the checks assumes: the library's choice of checks
/// (`leaving_admin` of the answers) agrees with the model's.
pub proof fn lemma_leave_checks_agree(s: Store, d: LeaveGroupData)
    ensures
        crate::crud::leaving_admin(truthful(s, leave_checks_in(s, d))) == is_admin_of(s, d.user_id, d.group_id),
{
    let c = leave_checks_in(s, d);
    assert(truthful(s, c)[5] == answer_in(s, c[5].query));
}

/// The counts the store gives are exact: the admin and member key sets of a
/// group are finite and no larger than the membership table.
pub proof fn lemma_rows_fit(s: Store, g: u32)
    requires
        store_wf(s),
    ensures
        admin_rows(s, g).finite(),
        group_rows(s, g).finite(),
        admin_rows(s, g).len() <= usize::MAX,
        group_rows(s, g).len() <= usize::MAX,
{
    s.members.dom().lemma_len_filter(admin_key(s, g));
    s.members.dom().lemma_len_filter(in_group_key(g));
}

/// An admin of a group whose admin count is not 1 has a fellow admin.
proof fn lemma_fellow_admin(s: Store, u: u32, g: u32)
    requires
        store_wf(s),
        is_admin_of(s, u, g),
        admin_rows(s, g).len() != 1,
    ensures
        exists|w: u32| w != u && is_admin_of(s, w, g),
{
    broadcast use vstd::set::group_set_axioms;

    lemma_rows_fit(s, g);
    let rows = admin_rows(s, g);
    assert(rows.contains((g, u)));
    assert(rows.len() >= 2);
    let rest = rows.remove((g, u));
    assert(rest.len() >= 1);
    let k = rest.choose();
    assert(rest.contains(k)) by {
        vstd::set_lib::lemma_set_empty_equivalency_len(rest);
    }
    assert(is_admin_of(s, k.1, g));
}

/// Two admins of a group make its admin count at least 2.
proof fn lemma_two_admins(s: Store, a: u32, b: u32, g: u32)
    requires
        store_wf(s),
        a != b,
        is_admin_of(s, a, g),
        is_admin_of(s, b, g),
    ensures
        admin_rows(s, g).len() >= 2,
{
    broadcast use vstd::set::group_set_axioms;

    lemma_rows_fit(s, g);
    let rows = admin_rows(s, g);
    assert(rows.contains((g, a)));
    assert(rows.remove((g, a)).contains((g, b)));
}

/// Giving up being an admin never leaves a group without an admin.
pub proof fn lemma_stop_admin_keeps_an_admin(s: Store, d: StopAdminData)
    requires
        store_wf(s),
        every_group_has_admin(s),
    ensures
        every_group_has_admin(stop_admin_run(s, d).1),
{
    let c = stop_admin_checks(d);
    let a = truthful(s, c);
    lemma_guard_outcome(c, a);
    lemma_stop_admin_needs(d, a);
    if settle(s, c) is Proceed {
        let (u, g) = (d.user_id, d.group_id);
        assert(a[4] == answer_in(s, c[4].query));
        assert(a[5] == answer_in(s, c[5].query));
        assert(is_admin_of(s, u, g));
        lemma_rows_fit(s, g);
        lemma_fellow_admin(s, u, g);
        let w = choose|w: u32| w != u && is_admin_of(s, w, g);
        let s1 = apply(s, stop_admin_action(d));
        assert forall|h: u32| s1.groups.contains_key(h) implies exists|v: u32| is_admin_of(s1, v, h) by {
            if h == g {
                assert(is_admin_of(s1, w, h));
            } else {
                let v = choose|v: u32| is_admin_of(s, v, h);
                assert(is_admin_of(s1, v, h));
            }
        }
    }
}

/// Leaving a group never leaves it without an admin: an admin leaves only
/// when another admin stays.
pub proof fn lemma_leave_group_keeps_an_admin(s: Store, d: LeaveGroupData)
    requires
        store_wf(s),
        every_group_has_admin(s),
    ensures
        every_group_has_admin(leave_group_run(s, d).1),
{
    let c = leave_checks_in(s, d);
    let a = truthful(s, c);
    lemma_guard_outcome(c, a);
    lemma_leave_checks_agree(s, d);
    lemma_leave_group_needs(d, a);
    if settle(s, c) is Proceed {
        let (u, g) = (d.user_id, d.group_id);
        let s1 = apply(s, leave_group_action(d));
        if is_admin_of(s, u, g) {
            assert(a[6] == answer_in(s, c[6].query));
            lemma_rows_fit(s, g);
            lemma_fellow_admin(s, u, g);
            let w = choose|w: u32| w != u && is_admin_of(s, w, g);
            assert forall|h: u32| s1.groups.contains_key(h) implies exists|v: u32| is_admin_of(s1, v, h) by {
                if h == g {
                    assert(is_admin_of(s1, w, h));
                } else {
                    let v = choose|v: u32| is_admin_of(s, v, h);
                    assert(is_admin_of(s1, v, h));
                }
            }
        } else {
            assert forall|h: u32| s1.groups.contains_key(h) implies exists|v: u32| is_admin_of(s1, v, h) by {
                let v = choose|v: u32| is_admin_of(s, v, h);
                assert(is_admin_of(s1, v, h));
            }
        }
    }
}

/// Making an admin never takes an admin away.
pub proof fn lemma_set_admin_keeps_an_admin(s: Store, d: SetAdminData)
    requires
        every_group_has_admin(s),
    ensures
        every_group_has_admin(set_admin_run(s, d).1),
{
    let s1 = set_admin_run(s, d).1;
    assert forall|h: u32| s1.groups.contains_key(h) implies exists|v: u32| is_admin_of(s1, v, h) by {
        let v = choose|v: u32| is_admin_of(s, v, h);
        assert(is_admin_of(s1, v, h));
    }
}

/// Joining a group never takes an admin away.
pub proof fn lemma_join_group_keeps_an_admin(s: Store, d: JoinGroupData)
    requires
        every_group_has_admin(s),
    ensures
        every_group_has_admin(join_group_run(s, d).1),
{
    let c = join_group_checks(d);
    let a = truthful(s, c);
    lemma_guard_outcome(c, a);
    lemma_join_group_needs(d, a);
    let s1 = join_group_run(s, d).1;
    if settle(s, c) is Proceed {
        assert(a[3] == answer_in(s, c[3].query));
        assert(!s.members.contains_key((d.group_id, d.user_id)));
        assert(s1 == apply(s, join_group_action(d)));
        assert forall|h: u32| s1.groups.contains_key(h) implies exists|v: u32| is_admin_of(s1, v, h) by {
            let v = choose|v: u32| is_admin_of(s, v, h);
            assert((h, v) != (d.group_id, d.user_id));
            assert(is_admin_of(s1, v, h));
        }
    } else {
        assert(s1 == s);
    }
}

/// Giving up being an admin undoes being made one: when an admin of a group
/// makes a plain member an admin and that member steps down again, the
/// store is as before.
pub proof fn lemma_stop_admin_undoes_set_admin(
    s0: Store,
    admin: u32,
    admin_token: String,
    member: u32,
    member_token: String,
    group_id: u32,
)
    requires
        store_wf(s0),
        logged_in(s0, admin, admin_token@),
        logged_in(s0, member, member_token@),
        s0.groups.contains_key(group_id),
        is_admin_of(s0, admin, group_id),
        s0.members.contains_key((group_id, member)),
        !s0.members[(group_id, member)].is_admin,
    ensures
        set_admin_run(
            s0,
            SetAdminData { user_id: admin, token: admin_token, group_id, new_admin_id: member },
        ).0 == Status::Success,
        stop_admin_run(
            set_admin_run(
                s0,
                SetAdminData { user_id: admin, token: admin_token, group_id, new_admin_id: member },
            ).1,
            StopAdminData { user_id: member, token: member_token, group_id },
        ) == (Status::Success, s0),
{
    let ds = SetAdminData { user_id: admin, token: admin_token, group_id, new_admin_id: member };
    let dt = StopAdminData { user_id: member, token: member_token, group_id };
    let cs = set_admin_checks(ds);
    let a_s = truthful(s0, cs);
    lemma_set_admin_needs(ds, a_s);
    assert(settle(s0, cs) is Proceed);
    let s1 = apply(s0, set_admin_action(ds));
    assert(set_admin_run(s0, ds) == (Status::Success, s1));
    assert(s1.members.dom() =~= s0.members.dom());
    assert(store_wf(s1));
    assert(admin != member);
    assert(is_admin_of(s1, admin, group_id));
    assert(is_admin_of(s1, member, group_id));
    lemma_two_admins(s1, admin, member, group_id);
    lemma_rows_fit(s1, group_id);
    let ct = stop_admin_checks(dt);
    let a_t = truthful(s1, ct);
    lemma_stop_admin_needs(dt, a_t);
    assert(a_t[5] == answer_in(s1, ct[5].query));
    assert(settle(s1, ct) is Proceed);
    let s2 = apply(s1, stop_admin_action(dt));
    assert(s2.members =~= s0.members);
    assert(s2 == s0);
}

/// `order` lists the members of group `g`, each once, as the draw reads them.
pub open spec fn lists_group(s: Store, g: u32, order: Seq<u32>) -> bool {
    &&& order.no_duplicates()
    &&& forall|u: u32| order.contains(u) <==> s.members.contains_key((g, u))
}

/// What `draw::draw_gift_recipients` promises of the recipients it draws for
/// `order`.
pub open spec fn drawn_for(order: Seq<u32>, rec: Seq<u32>) -> bool {
    &&& rec.len() == order.len()
    &&& is_permutation_of(rec, order)
    &&& order.no_duplicates() && order.len() >= 2 ==> no_self_assignment(order, rec)
}

/// The recipient drawn for member `u`: the one at `u`'s position.
pub open spec fn drawn_recipient(order: Seq<u32>, rec: Seq<u32>, u: u32) -> u32 {
    rec[order.index_of(u)]
}

/// The store after the draw of group `g`: the group is closed and every
/// member read in `order` has the recipient drawn at their position.
pub open spec fn after_draw(s: Store, g: u32, order: Seq<u32>, rec: Seq<u32>) -> Store {
    Store {
        users: s.users,
        groups: s.groups.insert(g, true),
        members: Map::new(
            |k: (u32, u32)| s.members.contains_key(k),
            |k: (u32, u32)|
                if k.0 == g && order.contains(k.1) {
                    MemberRecord { is_admin: s.members[k].is_admin, recipient: Some(drawn_recipient(order, rec, k.1)) }
                } else {
                    s.members[k]
                },
        ),
    }
}

/// The draw, run against the store, with the members it reads in `order`
/// and the recipients it draws `rec`.
pub open spec fn christmas_run(s: Store, d: ChristmasData, order: Seq<u32>, rec: Seq<u32>) -> (Status, Store) {
    match settle(s, christmas_checks(d)) {
        Verdict::Refuse(st) => (st, s),
        _ => match christmas_action(d) {
            Action::Draw { group_id } => (status_for_rows(order.len() as int), after_draw(s, group_id, order, rec)),
            _ => (Status::WrongData, s),
        },
    }
}

/// Asking for one's recipient, run against the store: status, recipient,
/// and the store after (a read leaves it as it is). A membership with no
/// recipient gives no row.
pub open spec fn gift_recipient_run(s: Store, d: GetGiftRecipientIdData) -> (Status, u32, Store) {
    match settle(s, gift_recipient_checks(d)) {
        Verdict::Refuse(st) => (st, 0, s),
        _ => match gift_recipient_action(d) {
            Action::ReadRecipient { user_id, group_id } => match s.members[(group_id, user_id)].recipient {
                Some(r) => (Status::Success, r, s),
                None => (Status::WrongData, 0, s),
            },
            _ => (Status::WrongData, 0, s),
        },
    }
}

/// A draw that succeeded went through all its checks.
proof fn lemma_christmas_success_proceeds(s: Store, d: ChristmasData, order: Seq<u32>, rec: Seq<u32>)
    requires
        christmas_run(s, d, order, rec).0 == Status::Success,
    ensures
        settle(s, christmas_checks(d)) is Proceed,
{
    let c = christmas_checks(d);
    let a = truthful(s, c);
    lemma_guard_outcome(c, a);
    if settle(s, c) is Refuse {
        let i = choose|i: int|
            0 <= i < c.len() && all_hold_upto(c, a, i) && i < a.len() && !#[trigger] holds(c[i].expect, a[i]);
        assert(settle(s, c) == Verdict::Refuse(c[i].refusal));
        if i == 0 {} else if i == 1 {} else if i == 2 {} else if i == 3 {} else if i == 4 {} else if i == 5 {} else {}
    }
}

/// The draw happens once: after a draw succeeded, the same request is
/// refused as already drawn, and the store stays as the draw left it.
pub proof fn lemma_christmas_draws_once(
    s: Store,
    d: ChristmasData,
    order: Seq<u32>,
    rec: Seq<u32>,
    order2: Seq<u32>,
    rec2: Seq<u32>,
)
    requires
        christmas_run(s, d, order, rec).0 == Status::Success,
    ensures
        christmas_run(christmas_run(s, d, order, rec).1, d, order2, rec2) == (
            Status::AlreadyChristmas,
            christmas_run(s, d, order, rec).1,
        ),
{
    lemma_christmas_success_proceeds(s, d, order, rec);
    let c = christmas_checks(d);
    let a = truthful(s, c);
    lemma_christmas_needs(d, a);
    let g = d.group_id;
    let s1 = after_draw(s, g, order, rec);
    assert(christmas_run(s, d, order, rec).1 == s1);
    assert(s1.members.dom() =~= s.members.dom());
    let a1 = truthful(s1, c);
    lemma_guard_outcome(c, a1);
    assert forall|j: int| 0 <= j < 6 implies a1[j] == a[j] by {
        if j == 0 {} else if j == 1 {} else if j == 2 {} else if j == 3 {} else if j == 4 {
            assert(s1.members[(g, d.user_id)].is_admin == s.members[(g, d.user_id)].is_admin);
        } else {
            assert(group_rows(s1, g) == group_rows(s, g));
        }
    }
    assert(all_hold_upto(c, a1, 6)) by {
        assert forall|j: int| 0 <= j < 6 implies #[trigger] holds(c[j].expect, a1[j]) by {
            assert(holds(c[j].expect, a[j]));
        }
    }
    assert(a1[6] == Answer::Flag(true));
    assert(!holds(c[6].expect, a1[6]));
}

/// After a successful draw, two different members who ask are each told a
/// recipient: a member of the group, not themselves, and not the same
/// person; asking changes nothing.
pub proof fn lemma_drawn_recipients_distinct(
    s: Store,
    dc: ChristmasData,
    order: Seq<u32>,
    rec: Seq<u32>,
    d1: GetGiftRecipientIdData,
    d2: GetGiftRecipientIdData,
)
    requires
        christmas_run(s, dc, order, rec).0 == Status::Success,
        lists_group(s, dc.group_id, order),
        drawn_for(order, rec),
        d1.group_id == dc.group_id,
        d2.group_id == dc.group_id,
        d1.user_id != d2.user_id,
        logged_in(s, d1.user_id, d1.token@),
        logged_in(s, d2.user_id, d2.token@),
        s.members.contains_key((dc.group_id, d1.user_id)),
        s.members.contains_key((dc.group_id, d2.user_id)),
    ensures
        ({
            let s1 = christmas_run(s, dc, order, rec).1;
            let (st1, r1, t1) = gift_recipient_run(s1, d1);
            let (st2, r2, t2) = gift_recipient_run(s1, d2);
            &&& st1 == Status::Success && st2 == Status::Success
            &&& t1 == s1 && t2 == s1
            &&& r1 != d1.user_id && r2 != d2.user_id
            &&& r1 != r2
            &&& s1.members.contains_key((dc.group_id, r1))
            &&& s1.members.contains_key((dc.group_id, r2))
        }),
{
    broadcast use vstd::seq_lib::to_multiset_contains;

    lemma_christmas_success_proceeds(s, dc, order, rec);
    let g = dc.group_id;
    let s1 = after_draw(s, g, order, rec);
    assert(christmas_run(s, dc, order, rec).1 == s1);
    assert(s1.members.dom() =~= s.members.dom());
    let (u1, u2) = (d1.user_id, d2.user_id);
    assert(order.contains(u1));
    assert(order.contains(u2));
    let i1 = order.index_of(u1);
    let i2 = order.index_of(u2);
    assert(0 <= i1 < order.len() && order[i1] == u1);
    assert(0 <= i2 < order.len() && order[i2] == u2);
    assert(order.len() >= 2);
    assert(no_self_assignment(order, rec));
    lemma_permutation_no_duplicates(order, rec);
    let r1 = rec[i1];
    let r2 = rec[i2];
    assert(r1 != r2);
    assert(rec.contains(r1));
    assert(rec.contains(r2));
    assert(order.to_multiset().count(r1) > 0);
    assert(order.to_multiset().count(r2) > 0);
    assert(order.contains(r1));
    assert(order.contains(r2));
    assert(s1.members.contains_key((g, r1)));
    assert(s1.members.contains_key((g, r2)));
    let c1 = gift_recipient_checks(d1);
    let a1 = truthful(s1, c1);
    lemma_gift_recipient_needs(d1, a1);
    assert(settle(s1, c1) is Proceed);
    assert(s1.members[(g, u1)].recipient == Some(r1));
    let c2 = gift_recipient_checks(d2);
    let a2 = truthful(s1, c2);
    lemma_gift_recipient_needs(d2, a2);
    assert(settle(s1, c2) is Proceed);
    assert(s1.members[(g, u2)].recipient == Some(r2));
}

/// Deleting a group, run against the store: the memberships and the group
/// are removed, success when both removals touched rows.
pub open spec fn delete_group_run(s: Store, d: DeleteGroupData) -> (Status, Store) {
    match settle(s, delete_group_checks(d)) {
        Verdict::Refuse(st) => (st, s),
        _ => (
            if !group_rows(s, d.group_id).is_empty() { Status::Success } else { Status::WrongData },
            apply(s, delete_group_action(d)),
        ),
    }
}

/// Deleting a group leaves every other group its admins.
pub proof fn lemma_delete_group_keeps_an_admin(s: Store, d: DeleteGroupData)
    requires
        every_group_has_admin(s),
    ensures
        every_group_has_admin(delete_group_run(s, d).1),
{
    let c = delete_group_checks(d);
    let a = truthful(s, c);
    lemma_guard_outcome(c, a);
    let s1 = delete_group_run(s, d).1;
    if settle(s, c) is Proceed {
        assert(s1 == apply(s, delete_group_action(d)));
        assert forall|h: u32| s1.groups.contains_key(h) implies exists|v: u32| is_admin_of(s1, v, h) by {
            let v = choose|v: u32| is_admin_of(s, v, h);
            assert(h != d.group_id);
            assert(s.members.dom().filter(|k: (u32, u32)| k.0 != d.group_id).contains((h, v)));
            assert(is_admin_of(s1, v, h));
        }
    } else {
        assert(s1 == s);
    }
}

/// The draw leaves every group its admins.
pub proof fn lemma_christmas_keeps_an_admin(s: Store, d: ChristmasData, order: Seq<u32>, rec: Seq<u32>)
    requires
        every_group_has_admin(s),
    ensures
        every_group_has_admin(christmas_run(s, d, order, rec).1),
{
    let c = christmas_checks(d);
    let a = truthful(s, c);
    lemma_guard_outcome(c, a);
    let s1 = christmas_run(s, d, order, rec).1;
    if settle(s, c) is Proceed {
        lemma_christmas_needs(d, a);
        assert(a[2] == answer_in(s, c[2].query));
        assert(s1 == after_draw(s, d.group_id, order, rec));
        assert forall|h: u32| s1.groups.contains_key(h) implies exists|v: u32| is_admin_of(s1, v, h) by {
            let v = choose|v: u32| is_admin_of(s, v, h);
            assert(is_admin_of(s1, v, h));
        }
    } else {
        assert(s1 == s);
    }
}

/// The store after creating group `g` for `user_id`: the group is open and
/// the creator is its member, an admin, with no recipient.
pub open spec fn after_create(s: Store, user_id: u32, g: u32) -> Store {
    Store {
        groups: s.groups.insert(g, false),
        members: s.members.insert((g, user_id), MemberRecord { is_admin: true, recipient: None }),
        ..s
    }
}

/// A fresh group id: no group and no membership has it yet.
pub open spec fn fresh_group_id(s: Store, g: u32) -> bool {
    &&& !s.groups.contains_key(g)
    &&& forall|u: u32| !s.members.contains_key((g, u))
}

/// Creating a group, run against the store, where `g` is the id the store
/// gives the new group: the status, the id answered, and the store after.
pub open spec fn create_group_run(s: Store, d: CreateGroupData, g: u32) -> (Status, u32, Store) {
    match settle(s, create_group_checks(d)) {
        Verdict::Refuse(st) => (st, 0, s),
        _ => match create_group_action(d) {
            Action::CreateGroup { user_id } => (Status::Success, g, after_create(s, user_id, g)),
            _ => (Status::WrongDataNoPeriod, 0, s),
        },
    }
}

/// A logged-in user who creates a group gets its fresh id back, and the new
/// group is open with its creator as its only member, an admin; nothing
/// else in the store changes. Anyone else is refused and nothing changes.
pub proof fn lemma_create_group_effect(s: Store, d: CreateGroupData, g: u32)
    requires
        fresh_group_id(s, g),
    ensures
        logged_in(s, d.user_id, d.token@) ==> ({
            let (st, id, s1) = create_group_run(s, d, g);
            &&& st == Status::Success && id == g
            &&& s1.groups.contains_key(g) && !s1.groups[g]
            &&& is_admin_of(s1, d.user_id, g)
            &&& forall|v: u32| s1.members.contains_key((g, v)) <==> v == d.user_id
            &&& s1.users == s.users
            &&& s1.groups.remove(g) == s.groups
            &&& s1.members.remove((g, d.user_id)) == s.members
        }),
        !logged_in(s, d.user_id, d.token@) ==> create_group_run(s, d, g).2 == s
            && create_group_run(s, d, g).0 != Status::Success,
{
    let c = create_group_checks(d);
    let a = truthful(s, c);
    lemma_guard_outcome(c, a);
    lemma_create_group_needs(d, a);
    assert(a[0] == answer_in(s, c[0].query));
    assert(a[1] == answer_in(s, c[1].query));
    if logged_in(s, d.user_id, d.token@) {
        assert(settle(s, c) is Proceed);
        let s1 = after_create(s, d.user_id, g);
        assert(s1.groups.remove(g) =~= s.groups);
        assert(s1.members.remove((g, d.user_id)) =~= s.members);
    } else {
        assert(!(settle(s, c) is Proceed));
        let i = choose|i: int|
            0 <= i < c.len() && all_hold_upto(c, a, i) && i < a.len() && !#[trigger] holds(c[i].expect, a[i]);
        assert(settle(s, c) == Verdict::Refuse(c[i].refusal));
        if i == 0 {} else {}
    }
}

/// Creating a group keeps every group with an admin: the new group's
/// creator is its admin.
pub proof fn lemma_create_group_keeps_an_admin(s: Store, d: CreateGroupData, g: u32)
    requires
        fresh_group_id(s, g),
        every_group_has_admin(s),
    ensures
        every_group_has_admin(create_group_run(s, d, g).2),
{
    let c = create_group_checks(d);
    let a = truthful(s, c);
    lemma_guard_outcome(c, a);
    let s1 = create_group_run(s, d, g).2;
    if settle(s, c) is Refuse {
        assert(s1 == s);
    } else {
        assert(s1 == after_create(s, d.user_id, g));
        assert forall|h: u32| s1.groups.contains_key(h) implies exists|v: u32| is_admin_of(s1, v, h) by {
            if h == g {
                assert(is_admin_of(s1, d.user_id, h));
            } else {
                let v = choose|v: u32| is_admin_of(s, v, h);
                assert(is_admin_of(s1, v, h));
            }
        }
    }
}

/// Logging off, run against the store.
pub open spec fn logoff_run(s: Store, d: LogoffData) -> (Status, Store) {
    match settle(s, logoff_checks(d)) {
        Verdict::Refuse(st) => (st, s),
        _ => (Status::Success, apply(s, logoff_action(d))),
    }
}

/// Asking for a user's name, run against the store: the status and the name.
pub open spec fn user_name_run(s: Store, d: GetUserNameByIdData) -> (Status, Seq<char>) {
    match settle(s, user_name_checks(d)) {
        Verdict::Refuse(st) => (st, Seq::empty()),
        _ => match user_name_action(d) {
            Action::ReadName { user_id } => if s.users.contains_key(user_id) {
                (Status::Success, s.users[user_id].name)
            } else {
                (Status::WrongData, Seq::empty())
            },
            _ => (Status::WrongData, Seq::empty()),
        },
    }
}

/// Logging off with one's current token succeeds and logs exactly that user
/// off: no token works for them afterwards, and every other user is as
/// before. Any other token is refused and changes nothing.
pub proof fn lemma_logoff_effect(s: Store, d: LogoffData)
    ensures
        logged_in(s, d.user_id, d.token@) ==> ({
            let (st, s1) = logoff_run(s, d);
            &&& st == Status::Success
            &&& forall|t: Seq<char>| !logged_in(s1, d.user_id, t)
            &&& s1.users.contains_key(d.user_id)
            &&& s1.users[d.user_id].token == s.users[d.user_id].token
            &&& forall|v: u32| v != d.user_id ==> s1.users.contains_key(v) == s.users.contains_key(v)
                && s1.users[v] == s.users[v]
            &&& s1.groups == s.groups && s1.members == s.members
        }),
        !logged_in(s, d.user_id, d.token@) ==> logoff_run(s, d) == (Status::WrongPassword, s),
{
    let c = logoff_checks(d);
    let a = truthful(s, c);
    lemma_guard_outcome(c, a);
    assert(a[0] == answer_in(s, c[0].query));
    if !logged_in(s, d.user_id, d.token@) {
        assert(all_hold_upto(c, a, 0));
        assert(!holds(c[0].expect, a[0]));
    } else {
        assert(all_hold_upto(c, a, 1));
    }
}

/// Asking for a user's name gives that user's stored name exactly when the
/// user exists, and is refused as an unknown user otherwise.
pub proof fn lemma_user_name_effect(s: Store, d: GetUserNameByIdData)
    ensures
        s.users.contains_key(d.user_id) ==> user_name_run(s, d) == (Status::Success, s.users[d.user_id].name),
        !s.users.contains_key(d.user_id) ==> user_name_run(s, d).0 == Status::UserDoesNotExist,
{
    let c = user_name_checks(d);
    let a = truthful(s, c);
    lemma_guard_outcome(c, a);
    assert(a[0] == answer_in(s, c[0].query));
    if !s.users.contains_key(d.user_id) {
        assert(all_hold_upto(c, a, 0));
        assert(!holds(c[0].expect, a[0]));
    } else {
        assert(all_hold_upto(c, a, 1));
    }
}

} // verus!
