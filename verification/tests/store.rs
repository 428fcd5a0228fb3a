use std::collections::HashMap;

use secret_santa::crud::{
    create_group_result, sqlx_create_group, christmas_result, join_group_result, sqlx_christmas, sqlx_get_gift_recipient_id, sqlx_join_group,
    sqlx_leave_group, sqlx_set_admin, sqlx_stop_admin, write_status, Action, Step,
};
use secret_santa::draw::draw_gift_recipients;
use secret_santa::guard::{Answer, Query};
use secret_santa::models::{CreateGroupData, ChristmasData, GetGiftRecipientIdData, JoinGroupData, LeaveGroupData, SetAdminData, StopAdminData};
use secret_santa::status::Status;

#[derive(Clone, Debug, PartialEq)]
struct TestStore {
    users: HashMap<u32, (String, bool)>,
    groups: HashMap<u32, bool>,
    members: HashMap<(u32, u32), (bool, Option<u32>)>,
}

impl TestStore {
    fn new() -> Self {
        TestStore { users: HashMap::new(), groups: HashMap::new(), members: HashMap::new() }
    }

    fn user(mut self, id: u32, token: &str) -> Self {
        self.users.insert(id, (token.to_string(), true));
        self
    }

    fn group(mut self, id: u32, closed: bool) -> Self {
        self.groups.insert(id, closed);
        self
    }

    fn member(mut self, g: u32, u: u32, admin: bool) -> Self {
        self.members.insert((g, u), (admin, None));
        self
    }

    fn answer(&self, q: &Query) -> Answer {
        match q {
            Query::UserReal { user_id } => Answer::Flag(self.users.contains_key(user_id)),
            Query::Logged { token, user_id } => {
                Answer::Flag(matches!(self.users.get(user_id), Some((t, true)) if t == token))
            }
            Query::GroupReal { group_id } => Answer::Flag(self.groups.contains_key(group_id)),
            Query::InGroup { user_id, group_id } => Answer::Flag(self.members.contains_key(&(*group_id, *user_id))),
            Query::AdminInGroup { user_id, group_id } => {
                Answer::Flag(matches!(self.members.get(&(*group_id, *user_id)), Some((true, _))))
            }
            Query::AdminCount { group_id } => {
                Answer::Count(self.members.iter().filter(|(k, v)| k.0 == *group_id && v.0).count())
            }
            Query::UserCount { group_id } => Answer::Count(self.members.keys().filter(|k| k.0 == *group_id).count()),
            Query::GroupClosed { group_id } => Answer::Flag(self.groups[group_id]),
        }
    }

    fn settle(&self, step: impl Fn(&Vec<Answer>) -> Step) -> Result<Action, Status> {
        let mut answers = Vec::new();
        loop {
            match step(&answers) {
                Step::Ask(q) => answers.push(self.answer(&q)),
                Step::Refuse(s) => return Err(s),
                Step::Perform(a) => return Ok(a),
            }
        }
    }

    fn perform(&mut self, action: Action) -> Status {
        match action {
            Action::SetAdmin { user_id, group_id, is_admin } => match self.members.get_mut(&(group_id, user_id)) {
                Some(row) => {
                    row.0 = is_admin;
                    write_status(1)
                }
                None => write_status(0),
            },
            Action::AddMember { user_id, group_id } => {
                self.members.insert((group_id, user_id), (false, None));
                join_group_result(1)
            }
            Action::RemoveMember { user_id, group_id } => {
                write_status(if self.members.remove(&(group_id, user_id)).is_some() { 1 } else { 0 })
            }
            Action::Draw { group_id } => {
                self.groups.insert(group_id, true);
                let mut users: Vec<u32> = self.members.keys().filter(|k| k.0 == group_id).map(|k| k.1).collect();
                users.sort();
                let recipients = draw_gift_recipients(&users);
                for (u, r) in users.iter().zip(recipients.iter()) {
                    self.members.get_mut(&(group_id, *u)).unwrap().1 = Some(*r);
                }
                christmas_result(users.len())
            }
            Action::CreateGroup { user_id } => {
                let id = self.groups.keys().copied().max().unwrap_or(0) + 1;
                self.groups.insert(id, false);
                self.members.insert((id, user_id), (true, None));
                let (status, group_id) = create_group_result(1, i64::from(id));
                assert_eq!(group_id, id);
                status
            }
            other => panic!("not used here: {:?}", other),
        }
    }

    fn run(&mut self, step: impl Fn(&Vec<Answer>) -> Step) -> Status {
        match self.settle(step) {
            Ok(action) => self.perform(action),
            Err(status) => status,
        }
    }
}

fn s(x: &str) -> String {
    x.to_string()
}

#[test]
fn leave_undoes_join() {
    let s0 = TestStore::new().user(1, "a").user(2, "b").group(7, false).member(7, 1, true);
    let mut st = s0.clone();
    let j = JoinGroupData { user_id: 2, token: s("b"), group_id: 7 };
    assert_eq!(st.run(|a| sqlx_join_group(&j, a)), Status::Success);
    let l = LeaveGroupData { user_id: 2, token: s("b"), group_id: 7 };
    assert_eq!(st.run(|a| sqlx_leave_group(&l, a)), Status::Success);
    assert_eq!(st, s0);
}

#[test]
fn join_refuses_member() {
    let s0 = TestStore::new().user(1, "a").group(7, false).member(7, 1, true);
    let mut st = s0.clone();
    let j = JoinGroupData { user_id: 1, token: s("a"), group_id: 7 };
    assert_eq!(st.run(|a| sqlx_join_group(&j, a)), Status::AlreadyInGroup);
    assert_eq!(st, s0);
}

#[test]
fn stop_admin_undoes_set_admin() {
    let s0 = TestStore::new().user(1, "a").user(2, "b").group(7, false).member(7, 1, true).member(7, 2, false);
    let mut st = s0.clone();
    let d = SetAdminData { user_id: 1, token: s("a"), group_id: 7, new_admin_id: 2 };
    assert_eq!(st.run(|a| sqlx_set_admin(&d, a)), Status::Success);
    let t = StopAdminData { user_id: 2, token: s("b"), group_id: 7 };
    assert_eq!(st.run(|a| sqlx_stop_admin(&t, a)), Status::Success);
    assert_eq!(st, s0);
}

#[test]
fn refused_set_admin_keeps_store() {
    let s0 = TestStore::new().user(1, "a").user(2, "b").group(7, false).member(7, 1, false).member(7, 2, false);
    let mut st = s0.clone();
    let d = SetAdminData { user_id: 1, token: s("a"), group_id: 7, new_admin_id: 2 };
    assert_eq!(st.run(|a| sqlx_set_admin(&d, a)), Status::NotAnAdmin);
    assert_eq!(st, s0);
}

#[test]
fn last_admin_stays() {
    let s0 = TestStore::new().user(1, "a").user(2, "b").group(7, false).member(7, 1, true).member(7, 2, false);
    let mut st = s0.clone();
    let t = StopAdminData { user_id: 1, token: s("a"), group_id: 7 };
    assert_eq!(st.run(|a| sqlx_stop_admin(&t, a)), Status::OnlyAdmin);
    let l = LeaveGroupData { user_id: 1, token: s("a"), group_id: 7 };
    assert_eq!(st.run(|a| sqlx_leave_group(&l, a)), Status::AdminCannotLeave);
    assert_eq!(st, s0);
}

#[test]
fn christmas_draws_once_and_recipients_differ() {
    let mut st = TestStore::new()
        .user(1, "a")
        .user(2, "b")
        .user(3, "c")
        .group(7, false)
        .member(7, 1, true)
        .member(7, 2, false)
        .member(7, 3, false);
    let d = ChristmasData { user_id: 1, token: s("a"), group_id: 7 };
    assert_eq!(st.run(|a| sqlx_christmas(&d, a)), Status::Success);
    let after = st.clone();
    assert_eq!(st.run(|a| sqlx_christmas(&d, a)), Status::AlreadyChristmas);
    assert_eq!(st, after);
    let mut seen = Vec::new();
    for (u, t) in [(1, "a"), (2, "b"), (3, "c")] {
        let q = GetGiftRecipientIdData { user_id: u, token: s(t), group_id: 7 };
        let action = st.settle(|a| sqlx_get_gift_recipient_id(&q, a)).unwrap();
        assert_eq!(action, Action::ReadRecipient { user_id: u, group_id: 7 });
        let r = st.members[&(7, u)].1.unwrap();
        assert_ne!(r, u);
        assert!(st.members.contains_key(&(7, r)));
        assert!(!seen.contains(&r));
        seen.push(r);
    }
}

#[test]
fn create_group_makes_creator_admin() {
    let s0 = TestStore::new().user(1, "a").group(7, false).member(7, 1, true);
    let mut st = s0.clone();
    let d = CreateGroupData { user_id: 1, token: s("a") };
    assert_eq!(st.run(|a| sqlx_create_group(&d, a)), Status::Success);
    assert_eq!(st.groups.get(&8), Some(&false));
    assert_eq!(st.members.get(&(8, 1)), Some(&(true, None)));
    assert_eq!(st.members.keys().filter(|k| k.0 == 8).count(), 1);
    let bad = CreateGroupData { user_id: 1, token: s("wrong") };
    let before = st.clone();
    assert_eq!(st.run(|a| sqlx_create_group(&bad, a)), Status::WrongToken);
    assert_eq!(st, before);
}
