use secret_santa::draw::{draw_gift_recipients, fix_self_assignments};

fn is_derangement_of(members: &[u32], recipients: &[u32]) -> bool {
    let mut a = members.to_vec();
    let mut b = recipients.to_vec();
    a.sort();
    b.sort();
    a == b && members.iter().zip(recipients.iter()).all(|(m, r)| m != r)
}

#[test]
fn repair_of_identity_of_three() {
    let members = vec![1, 2, 3];
    // position 0 swaps with 1, position 2 (the last) swaps with 0
    assert_eq!(fix_self_assignments(&members, vec![1, 2, 3]), vec![3, 1, 2]);
}

#[test]
fn repair_keeps_a_derangement() {
    let members = vec![10, 20, 30];
    assert_eq!(fix_self_assignments(&members, vec![30, 10, 20]), vec![30, 10, 20]);
}

#[test]
fn repair_of_last_position_only() {
    let members = vec![4, 5, 6, 7];
    assert_eq!(fix_self_assignments(&members, vec![5, 6, 4, 7]), vec![7, 6, 4, 5]);
}

#[test]
fn repair_cascades_forward() {
    let members = vec![1, 2, 3, 4];
    // 0 swaps with 1 -> [2,1,3,4]; 2 swaps with 3 -> [2,1,4,3]
    assert_eq!(fix_self_assignments(&members, vec![1, 2, 3, 4]), vec![2, 1, 4, 3]);
}

#[test]
fn repair_of_single_member_cannot_help() {
    let members = vec![7];
    assert_eq!(fix_self_assignments(&members, vec![7]), vec![7]);
}

#[test]
fn repair_of_empty_group() {
    let members: Vec<u32> = vec![];
    assert_eq!(fix_self_assignments(&members, vec![]), Vec::<u32>::new());
}

#[test]
fn draw_of_two_is_a_swap() {
    for _ in 0..20 {
        assert_eq!(draw_gift_recipients(&vec![11, 22]), vec![22, 11]);
    }
}

#[test]
fn draw_is_a_derangement() {
    let members: Vec<u32> = (1..=12).collect();
    for _ in 0..200 {
        let r = draw_gift_recipients(&members);
        assert!(is_derangement_of(&members, &r), "{:?}", r);
    }
}

#[test]
fn draw_of_unordered_ids() {
    let members: Vec<u32> = vec![42, 7, 1000, 3, 99];
    for _ in 0..200 {
        let r = draw_gift_recipients(&members);
        assert!(is_derangement_of(&members, &r), "{:?}", r);
    }
}

#[test]
fn draw_shuffles() {
    let members: Vec<u32> = (1..=8).collect();
    let first = draw_gift_recipients(&members);
    let mut differs = false;
    for _ in 0..100 {
        if draw_gift_recipients(&members) != first {
            differs = true;
        }
    }
    assert!(differs);
}
