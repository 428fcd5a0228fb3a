//! Drawing the Secret Santas of a group: every member gets one recipient
//! among the members, and nobody draws themselves.
use vstd::prelude::*;
use rand::seq::SliceRandom;

verus! {

broadcast use vstd::seq_lib::group_seq_properties;

/// `recipients` holds the same ids as `members`, each as often.
pub open spec fn is_permutation_of(recipients: Seq<u32>, members: Seq<u32>) -> bool {
    recipients.to_multiset() == members.to_multiset()
}

/// Position by position, nobody is their own recipient.
pub open spec fn no_self_assignment(members: Seq<u32>, recipients: Seq<u32>) -> bool {
    &&& recipients.len() == members.len()
    &&& forall|i: int| 0 <= i < members.len() ==> recipients[i] != members[i]
}

/// `g` with the entries at `a` and `b` exchanged.
pub open spec fn swap_entries(g: Seq<u32>, a: int, b: int) -> Seq<u32> {
    g.update(a, g[b]).update(b, g[a])
}

/// The repair made at position `i`: a member who drew themselves swaps
/// recipients with the next member, the last member with the first.
pub open spec fn repair_at(members: Seq<u32>, g: Seq<u32>, i: int) -> Seq<u32> {
    if g[i] == members[i] {
        if i != members.len() - 1 {
            swap_entries(g, i, i + 1)
        } else {
            swap_entries(g, 0, members.len() - 1)
        }
    } else {
        g
    }
}

/// The recipients after the repairs at positions `0 .. k`, in that order.
pub open spec fn repaired_upto(members: Seq<u32>, g: Seq<u32>, k: nat) -> Seq<u32>
    decreases k,
{
    if k == 0 {
        g
    } else {
        repair_at(members, repaired_upto(members, g, (k - 1) as nat), k - 1)
    }
}

proof fn lemma_swap_len_and_multiset(g: Seq<u32>, a: int, b: int)
    requires
        0 <= a < g.len(),
        0 <= b < g.len(),
    ensures
        swap_entries(g, a, b).len() == g.len(),
        swap_entries(g, a, b).to_multiset() == g.to_multiset(),
{
    broadcast use vstd::multiset::group_multiset_axioms;
    broadcast use vstd::seq_lib::to_multiset_update;
    broadcast use vstd::seq_lib::to_multiset_contains;

    if a == b {
        assert(swap_entries(g, a, b) =~= g);
    } else {
        let g1 = g.update(a, g[b]);
        assert(g1.to_multiset() == g.to_multiset().insert(g[b]).remove(g[a]));
        assert(g1[b] == g[b]);
        assert(swap_entries(g, a, b).to_multiset() == g1.to_multiset().insert(g[a]).remove(g[b]));
        assert(g.to_multiset().count(g[a]) > 0);
        assert(g.to_multiset().count(g[b]) > 0);
        assert(g.to_multiset().insert(g[b]).remove(g[a]).insert(g[a]).remove(g[b])
            =~= g.to_multiset());
    }
}

proof fn lemma_repair_len_and_multiset(members: Seq<u32>, g: Seq<u32>, i: int)
    requires
        g.len() == members.len(),
        0 <= i < g.len(),
    ensures
        repair_at(members, g, i).len() == g.len(),
        repair_at(members, g, i).to_multiset() == g.to_multiset(),
{
    if g[i] == members[i] {
        if i != members.len() - 1 {
            lemma_swap_len_and_multiset(g, i, i + 1);
        } else {
            lemma_swap_len_and_multiset(g, 0, members.len() - 1);
        }
    }
}

/// Repairing never changes which ids are handed out, nor how often.
proof fn lemma_repaired_len_and_multiset(members: Seq<u32>, g: Seq<u32>, k: nat)
    requires
        g.len() == members.len(),
        k <= members.len(),
    ensures
        repaired_upto(members, g, k).len() == g.len(),
        repaired_upto(members, g, k).to_multiset() == g.to_multiset(),
    decreases k,
{
    if k > 0 {
        lemma_repaired_len_and_multiset(members, g, (k - 1) as nat);
        lemma_repair_len_and_multiset(members, repaired_upto(members, g, (k - 1) as nat), k - 1);
    }
}

/// A sequence with the same multiset as one without duplicates has none either.
pub proof fn lemma_permutation_no_duplicates(a: Seq<u32>, b: Seq<u32>)
    requires
        a.no_duplicates(),
        b.to_multiset() == a.to_multiset(),
    ensures
        b.no_duplicates(),
{
    a.lemma_multiset_has_no_duplicates();
    b.lemma_multiset_has_no_duplicates_conv();
}

/// Before the last position is repaired, every earlier member has a
/// recipient other than themselves.
proof fn lemma_prefix_repaired(members: Seq<u32>, g: Seq<u32>, k: nat)
    requires
        members.no_duplicates(),
        is_permutation_of(g, members),
        g.len() == members.len(),
        k < members.len(),
    ensures
        forall|j: int| 0 <= j < k ==> #[trigger] repaired_upto(members, g, k)[j] != members[j],
    decreases k,
{
    if k > 0 {
        let prev = repaired_upto(members, g, (k - 1) as nat);
        let i = k - 1;
        lemma_prefix_repaired(members, g, (k - 1) as nat);
        lemma_repaired_len_and_multiset(members, g, (k - 1) as nat);
        lemma_permutation_no_duplicates(members, prev);
        let cur = repaired_upto(members, g, k);
        assert(cur == repair_at(members, prev, i));
        if prev[i] == members[i] {
            assert(i != members.len() - 1);
            assert(prev[i + 1] != prev[i]);
            assert forall|j: int| 0 <= j < k implies #[trigger] cur[j] != members[j] by {
                if j < i {
                    assert(cur[j] == prev[j]);
                }
            }
        }
    }
}

/// The drawing law: when the members are distinct, at least two, and the
/// shuffled recipients are a permutation of them, the repaired recipients
/// are again a permutation of the members and nobody is their own recipient.
pub proof fn lemma_repair_gives_derangement(members: Seq<u32>, shuffled: Seq<u32>)
    requires
        members.no_duplicates(),
        members.len() >= 2,
        is_permutation_of(shuffled, members),
    ensures
        is_permutation_of(repaired_upto(members, shuffled, members.len()), members),
        no_self_assignment(members, repaired_upto(members, shuffled, members.len())),
{
    broadcast use vstd::seq_lib::to_multiset_len;

    let n = members.len();
    assert(shuffled.len() == shuffled.to_multiset().len());
    assert(shuffled.len() == n);
    let last = (n - 1) as nat;
    lemma_prefix_repaired(members, shuffled, last);
    lemma_repaired_len_and_multiset(members, shuffled, last);
    lemma_repaired_len_and_multiset(members, shuffled, n);
    let prev = repaired_upto(members, shuffled, last);
    lemma_permutation_no_duplicates(members, prev);
    let cur = repaired_upto(members, shuffled, n);
    assert(cur == repair_at(members, prev, n - 1));
    if prev[n - 1] == members[n - 1] {
        assert(prev[0] != prev[n - 1]);
        assert(members[0] != members[n - 1]);
        assert forall|j: int| 0 <= j < n implies #[trigger] cur[j] != members[j] by {
            if 0 < j < n - 1 {
                assert(cur[j] == prev[j]);
            }
        }
    } else {
        assert forall|j: int| 0 <= j < n implies #[trigger] cur[j] != members[j] by {
            if j < n - 1 {
                assert(cur[j] == prev[j]);
            }
        }
    }
}

/// Repairs the shuffled recipients of a group in one pass over the members:
/// where a member drew themselves, they swap with the next member, and the
/// last member with the first.
pub fn fix_self_assignments(members: &Vec<u32>, recipients: Vec<u32>) -> (res: Vec<u32>)
    requires
        recipients.len() == members.len(),
    ensures
        res@ == repaired_upto(members@, recipients@, members.len() as nat),
        res.len() == members.len(),
        res@.to_multiset() == recipients@.to_multiset(),
        members@.no_duplicates() && members.len() >= 2 && is_permutation_of(recipients@, members@)
            ==> no_self_assignment(members@, res@),
{
    let n = members.len();
    let mut g = recipients;
    let mut i: usize = 0;
    while i < n
        invariant
            n == members.len(),
            g.len() == n,
            i <= n,
            g@ == repaired_upto(members@, recipients@, i as nat),
        decreases n - i,
    {
        if g[i] == members[i] {
            if i != n - 1 {
                let a = g[i];
                let b = g[i + 1];
                g.set(i, b);
                g.set(i + 1, a);
            } else {
                let a = g[0];
                let b = g[n - 1];
                g.set(0, b);
                g.set(n - 1, a);
            }
        }
        proof {
            assert(g@ =~= repair_at(members@, repaired_upto(members@, recipients@, i as nat), i as int));
        }
        i = i + 1;
    }
    proof {
        lemma_repaired_len_and_multiset(members@, recipients@, n as nat);
        if members@.no_duplicates() && members.len() >= 2 && is_permutation_of(recipients@, members@) {
            lemma_repair_gives_derangement(members@, recipients@);
        }
    }
    g
}

/// Shuffles the ids in place with `rand`'s `SliceRandom::shuffle`, driven by
/// the thread-local generator. The outcome is left to chance; the contract
/// claims only what every outcome of that Fisher-Yates shuffle keeps: the
/// same ids, each as often.
#[verifier::external_body]
fn shuffle_ids(v: &mut Vec<u32>)
    ensures
        final(v)@.to_multiset() == old(v)@.to_multiset(),
{
    v.shuffle(&mut rand::thread_rng());
}

/// Draws the gift recipients of a group's members: `res[i]` is the recipient
/// of `members[i]`. The members are shuffled at random, then repaired so that
/// nobody draws themselves.
pub fn draw_gift_recipients(members: &Vec<u32>) -> (res: Vec<u32>)
    ensures
        res.len() == members.len(),
        is_permutation_of(res@, members@),
        exists|shuffled: Seq<u32>|
            #[trigger] is_permutation_of(shuffled, members@)
            && res@ == repaired_upto(members@, shuffled, members.len() as nat),
        members@.no_duplicates() && members.len() >= 2 ==> no_self_assignment(members@, res@),
{
    broadcast use vstd::seq_lib::to_multiset_len;

    let mut shuffled = vstd::slice::slice_to_vec(members.as_slice());
    shuffle_ids(&mut shuffled);
    proof {
        assert(shuffled@.len() == shuffled@.to_multiset().len());
        assert(members@.len() == members@.to_multiset().len());
    }
    let ghost s = shuffled@;
    let res = fix_self_assignments(members, shuffled);
    proof {
        assert(is_permutation_of(s, members@));
    }
    res
}

} // verus!
