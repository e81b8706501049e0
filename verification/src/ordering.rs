use vstd::prelude::*;

use crate::status::{rank, Status};
use crate::user::User;

verus! {

/// The users of `s` whose status is `st`, in the order of `s`.
pub open spec fn with_status(s: Seq<User>, st: Status) -> Seq<User>
    decreases s.len(),
{
    if s.len() == 0 {
        Seq::empty()
    } else {
        with_status(s.drop_last(), st) + if s.last().status == st {
            seq![s.last()]
        } else {
            Seq::empty()
        }
    }
}

/// `s` ordered by status, users of equal status kept in their order in `s`:
/// what a stable sort by status gives.
pub open spec fn sorted_by_status(s: Seq<User>) -> Seq<User> {
    with_status(s, Status::JoinMe) + with_status(s, Status::Active) + with_status(s, Status::AskMe)
        + with_status(s, Status::Busy) + with_status(s, Status::Offline)
}

/// No user of `s` comes after one of a later status.
pub open spec fn is_sorted_by_status(s: Seq<User>) -> bool {
    forall|i: int, j: int| 0 <= i <= j < s.len() ==> rank(#[trigger] s[i].status) <= rank(
        #[trigger] s[j].status,
    )
}

/// Every user of `s` has a status of rank at most `r`.
pub open spec fn ranks_at_most(s: Seq<User>, r: nat) -> bool {
    forall|i: int| 0 <= i < s.len() ==> rank(#[trigger] s[i].status) <= r
}

proof fn lemma_with_status_all(s: Seq<User>, st: Status)
    ensures
        forall|i: int|
            0 <= i < with_status(s, st).len() ==> (#[trigger] with_status(s, st)[i]).status == st,
        with_status(s, st).len() <= s.len(),
    decreases s.len(),
{
    if s.len() > 0 {
        lemma_with_status_all(s.drop_last(), st);
    }
}

proof fn lemma_with_status_empty_above(s: Seq<User>, r: nat, st: Status)
    requires
        ranks_at_most(s, r),
        rank(st) > r,
    ensures
        with_status(s, st) =~= Seq::<User>::empty(),
    decreases s.len(),
{
    if s.len() > 0 {
        assert(ranks_at_most(s.drop_last(), r)) by {
            assert forall|i: int| 0 <= i < s.drop_last().len() implies rank(
                #[trigger] s.drop_last()[i].status,
            ) <= r by {
                assert(s.drop_last()[i] == s[i]);
            }
        }
        lemma_with_status_empty_above(s.drop_last(), r, st);
        assert(rank(s.last().status) <= r);
    }
}

/// A sequence already ordered by status is left as it is.
pub proof fn lemma_sorted_fixed(s: Seq<User>)
    requires
        is_sorted_by_status(s),
    ensures
        sorted_by_status(s) == s,
    decreases s.len(),
{
    if s.len() > 0 {
        let p = s.drop_last();
        let last = s.last();
        let r = rank(last.status);
        assert(is_sorted_by_status(p)) by {
            assert forall|i: int, j: int| 0 <= i <= j < p.len() implies rank(
                #[trigger] p[i].status,
            ) <= rank(#[trigger] p[j].status) by {
                assert(p[i] == s[i]);
                assert(p[j] == s[j]);
            }
        }
        lemma_sorted_fixed(p);
        assert(ranks_at_most(p, r)) by {
            assert forall|i: int| 0 <= i < p.len() implies rank(#[trigger] p[i].status) <= r by {
                assert(p[i] == s[i]);
                assert(s[s.len() - 1] == last);
            }
        }
        if rank(Status::JoinMe) > r {
            lemma_with_status_empty_above(p, r, Status::JoinMe);
        }
        if rank(Status::Active) > r {
            lemma_with_status_empty_above(p, r, Status::Active);
        }
        if rank(Status::AskMe) > r {
            lemma_with_status_empty_above(p, r, Status::AskMe);
        }
        if rank(Status::Busy) > r {
            lemma_with_status_empty_above(p, r, Status::Busy);
        }
        if rank(Status::Offline) > r {
            lemma_with_status_empty_above(p, r, Status::Offline);
        }
        assert(s == p.push(last));
        assert(sorted_by_status(s) =~= s);
    }
}

/// Every user of `s` has the status `st`.
spec fn all_of_status(s: Seq<User>, st: Status) -> bool {
    forall|i: int| 0 <= i < s.len() ==> (#[trigger] s[i]).status == st
}

proof fn lemma_concat_sorted(a: Seq<User>, b: Seq<User>)
    requires
        is_sorted_by_status(a),
        is_sorted_by_status(b),
        forall|i: int, j: int|
            0 <= i < a.len() && 0 <= j < b.len() ==> rank(#[trigger] a[i].status) <= rank(
                #[trigger] b[j].status,
            ),
    ensures
        is_sorted_by_status(a + b),
{
    let c = a + b;
    assert forall|i: int, j: int| 0 <= i <= j < c.len() implies rank(#[trigger] c[i].status) <= rank(
        #[trigger] c[j].status,
    ) by {
        if j < a.len() {
            assert(c[i] == a[i] && c[j] == a[j]);
        } else if i >= a.len() {
            assert(c[i] == b[i - a.len()] && c[j] == b[j - a.len()]);
        } else {
            assert(c[i] == a[i] && c[j] == b[j - a.len()]);
        }
    }
}

proof fn lemma_with_status_sorted(s: Seq<User>, st: Status)
    ensures
        is_sorted_by_status(with_status(s, st)),
        all_of_status(with_status(s, st), st),
{
    lemma_with_status_all(s, st);
}

/// What `sorted_by_status` gives is ordered by status.
pub proof fn lemma_sorted_is_sorted(s: Seq<User>)
    ensures
        is_sorted_by_status(sorted_by_status(s)),
{
    let b0 = with_status(s, Status::JoinMe);
    let b1 = with_status(s, Status::Active);
    let b2 = with_status(s, Status::AskMe);
    let b3 = with_status(s, Status::Busy);
    let b4 = with_status(s, Status::Offline);
    lemma_with_status_sorted(s, Status::JoinMe);
    lemma_with_status_sorted(s, Status::Active);
    lemma_with_status_sorted(s, Status::AskMe);
    lemma_with_status_sorted(s, Status::Busy);
    lemma_with_status_sorted(s, Status::Offline);
    lemma_concat_sorted(b0, b1);
    assert(ranks_at_most(b0 + b1, 1)) by {
        assert forall|i: int| 0 <= i < (b0 + b1).len() implies rank(#[trigger] (b0 + b1)[i].status)
            <= 1 by {
            if i < b0.len() {
                assert((b0 + b1)[i] == b0[i]);
            } else {
                assert((b0 + b1)[i] == b1[i - b0.len()]);
            }
        }
    }
    lemma_concat_sorted(b0 + b1, b2);
    assert(ranks_at_most(b0 + b1 + b2, 2)) by {
        assert forall|i: int| 0 <= i < (b0 + b1 + b2).len() implies rank(
            #[trigger] (b0 + b1 + b2)[i].status,
        ) <= 2 by {
            if i < (b0 + b1).len() {
                assert((b0 + b1 + b2)[i] == (b0 + b1)[i]);
            } else {
                assert((b0 + b1 + b2)[i] == b2[i - (b0 + b1).len()]);
            }
        }
    }
    lemma_concat_sorted(b0 + b1 + b2, b3);
    assert(ranks_at_most(b0 + b1 + b2 + b3, 3)) by {
        assert forall|i: int| 0 <= i < (b0 + b1 + b2 + b3).len() implies rank(
            #[trigger] (b0 + b1 + b2 + b3)[i].status,
        ) <= 3 by {
            if i < (b0 + b1 + b2).len() {
                assert((b0 + b1 + b2 + b3)[i] == (b0 + b1 + b2)[i]);
            } else {
                assert((b0 + b1 + b2 + b3)[i] == b3[i - (b0 + b1 + b2).len()]);
            }
        }
    }
    lemma_concat_sorted(b0 + b1 + b2 + b3, b4);
}

/// Ordering by status moves users, and neither adds nor drops one.
pub proof fn lemma_sorted_is_permutation(s: Seq<User>)
    ensures
        sorted_by_status(s).to_multiset() == s.to_multiset(),
        sorted_by_status(s).len() == s.len(),
    decreases s.len(),
{
    broadcast use vstd::seq_lib::group_to_multiset_ensures;
    broadcast use vstd::seq_lib::lemma_multiset_commutative;

    if s.len() == 0 {
        assert(sorted_by_status(s) =~= s);
    } else {
        let p = s.drop_last();
        let x = s.last();
        lemma_sorted_is_permutation(p);
        assert(s == p.push(x));
        let b0 = with_status(p, Status::JoinMe);
        let b1 = with_status(p, Status::Active);
        let b2 = with_status(p, Status::AskMe);
        let b3 = with_status(p, Status::Busy);
        let b4 = with_status(p, Status::Offline);
        let e = Seq::<User>::empty();
        let one = seq![x];
        assert(one.to_multiset() =~= e.to_multiset().insert(x)) by {
            assert(one == e.push(x));
        }
        let m0 = b0.to_multiset();
        let m1 = b1.to_multiset();
        let m2 = b2.to_multiset();
        let m3 = b3.to_multiset();
        let m4 = b4.to_multiset();
        let mx = one.to_multiset();
        assert(sorted_by_status(p).to_multiset() =~= m0.add(m1).add(m2).add(m3).add(m4));
        match x.status {
            Status::JoinMe => {
                assert(sorted_by_status(s) =~= (b0 + one) + b1 + b2 + b3 + b4);
                assert(sorted_by_status(s).to_multiset() =~= m0.add(mx).add(m1).add(m2).add(m3).add(m4));
            },
            Status::Active => {
                assert(sorted_by_status(s) =~= b0 + (b1 + one) + b2 + b3 + b4);
                assert(sorted_by_status(s).to_multiset() =~= m0.add(m1.add(mx)).add(m2).add(m3).add(m4));
            },
            Status::AskMe => {
                assert(sorted_by_status(s) =~= b0 + b1 + (b2 + one) + b3 + b4);
                assert(sorted_by_status(s).to_multiset() =~= m0.add(m1).add(m2.add(mx)).add(m3).add(m4));
            },
            Status::Busy => {
                assert(sorted_by_status(s) =~= b0 + b1 + b2 + (b3 + one) + b4);
                assert(sorted_by_status(s).to_multiset() =~= m0.add(m1).add(m2).add(m3.add(mx)).add(m4));
            },
            Status::Offline => {
                assert(sorted_by_status(s) =~= b0 + b1 + b2 + b3 + (b4 + one));
                assert(sorted_by_status(s).to_multiset() =~= m0.add(m1).add(m2).add(m3).add(m4.add(mx)));
            },
        }
        assert(s.to_multiset() =~= p.to_multiset().insert(x));
    }
}

/// Ordering by status twice gives what ordering once gives.
pub proof fn lemma_sorted_idempotent(s: Seq<User>)
    ensures
        sorted_by_status(sorted_by_status(s)) == sorted_by_status(s),
{
    lemma_sorted_is_sorted(s);
    lemma_sorted_fixed(sorted_by_status(s));
}

/// Orders the users of `v` by status, keeping users of equal status in their
/// order (a stable sort by status).
pub fn sort_by_status(v: &mut Vec<User>)
    ensures
        final(v)@ == sorted_by_status(old(v)@),
{
    let ghost orig = v@;
    let mut b0: Vec<User> = Vec::new();
    let mut b1: Vec<User> = Vec::new();
    let mut b2: Vec<User> = Vec::new();
    let mut b3: Vec<User> = Vec::new();
    let mut b4: Vec<User> = Vec::new();
    let ghost mut k: int = 0;
    while v.len() > 0
        invariant
            0 <= k <= orig.len(),
            v@ == orig.skip(k),
            b0@ == with_status(orig.take(k), Status::JoinMe),
            b1@ == with_status(orig.take(k), Status::Active),
            b2@ == with_status(orig.take(k), Status::AskMe),
            b3@ == with_status(orig.take(k), Status::Busy),
            b4@ == with_status(orig.take(k), Status::Offline),
        decreases v.len(),
    {
        let u = v.remove(0);
        proof {
            assert(u == orig[k]);
            assert(orig.take(k + 1).drop_last() == orig.take(k));
            assert(orig.take(k + 1).last() == orig[k]);
            assert(orig.skip(k).remove(0) == orig.skip(k + 1));
        }
        match u.status {
            Status::JoinMe => b0.push(u),
            Status::Active => b1.push(u),
            Status::AskMe => b2.push(u),
            Status::Busy => b3.push(u),
            Status::Offline => b4.push(u),
        }
        proof {
            k = k + 1;
        }
    }
    proof {
        assert(orig.take(k) == orig);
    }
    b0.append(&mut b1);
    b0.append(&mut b2);
    b0.append(&mut b3);
    b0.append(&mut b4);
    *v = b0;
}

} // verus!
