//! The member directory: members are listed owners first, then by name.
use vstd::prelude::*;

use crate::models::member::{Member, MemberRole};
use crate::text::{lemma_text_order_from, text_less, text_lt};

verus! {

broadcast use vstd::seq_lib::group_to_multiset_ensures;

/// Owners come before other members.
pub open spec fn role_rank(r: MemberRole) -> int {
    match r {
        MemberRole::Owner => 0,
        MemberRole::Member => 1,
    }
}

/// `a` may be listed before `b`: a lower role rank, or the same rank and a
/// name that does not come after `b`'s.
pub open spec fn listed_before(a: Member, b: Member) -> bool {
    ||| role_rank(a.role) < role_rank(b.role)
    ||| role_rank(a.role) == role_rank(b.role) && !text_lt(b.full_name@, a.full_name@)
}

/// Every member of `s` may be listed before every later one.
pub open spec fn in_listing_order(s: Seq<Member>) -> bool {
    forall|i: int, j: int| 0 <= i < j < s.len() ==> listed_before(#[trigger] s[i], #[trigger] s[j])
}

/// `s` with `x` inserted after the last member that may be listed before it.
pub open spec fn insert_member(s: Seq<Member>, x: Member) -> Seq<Member>
    decreases s.len(),
{
    if s.len() == 0 {
        seq![x]
    } else if listed_before(s.last(), x) {
        s.push(x)
    } else {
        insert_member(s.drop_last(), x).push(s.last())
    }
}

/// The members in listing order: owners first, then by name; members that
/// compare equal keep their order (a stable insertion sort).
pub open spec fn sort_members(s: Seq<Member>) -> Seq<Member>
    decreases s.len(),
{
    if s.len() == 0 {
        s
    } else {
        insert_member(sort_members(s.drop_last()), s.last())
    }
}

/// Listing order is total and transitive.
pub proof fn lemma_listed_before(a: Member, b: Member, c: Member)
    ensures
        listed_before(a, b) || listed_before(b, a),
        listed_before(a, b) && listed_before(b, c) ==> listed_before(a, c),
{
    lemma_text_order_from(a.full_name@, b.full_name@, c.full_name@, 0);
    lemma_text_order_from(c.full_name@, b.full_name@, a.full_name@, 0);
    lemma_text_order_from(c.full_name@, a.full_name@, b.full_name@, 0);
    lemma_text_order_from(b.full_name@, a.full_name@, c.full_name@, 0);
    lemma_text_order_from(b.full_name@, c.full_name@, a.full_name@, 0);
    lemma_text_order_from(a.full_name@, c.full_name@, b.full_name@, 0);
    if listed_before(a, b) && listed_before(b, c) && role_rank(a.role) == role_rank(c.role) {
        if text_lt(c.full_name@, a.full_name@) {
            if !text_lt(c.full_name@, b.full_name@) && !text_lt(b.full_name@, c.full_name@) {
                assert(c.full_name@ =~= b.full_name@);
            }
        }
    }
}

/// Every member of `insert_member(s, x)` may be listed before `y` when every
/// member of `s`, and `x`, may be.
proof fn lemma_insert_bounded(s: Seq<Member>, x: Member, y: Member)
    requires
        forall|i: int| 0 <= i < s.len() ==> listed_before(#[trigger] s[i], y),
        listed_before(x, y),
    ensures
        insert_member(s, x).len() == s.len() + 1,
        forall|i: int|
            0 <= i < insert_member(s, x).len() ==> listed_before(#[trigger] insert_member(s, x)[i], y),
    decreases s.len(),
{
    if s.len() > 0 && !listed_before(s.last(), x) {
        lemma_insert_bounded(s.drop_last(), x, y);
        let r = insert_member(s.drop_last(), x);
        assert forall|i: int| 0 <= i < r.push(s.last()).len() implies listed_before(
            #[trigger] r.push(s.last())[i],
            y,
        ) by {
            if i == r.len() {
                assert(s[s.len() - 1] == s.last());
            }
        }
    }
}

/// Inserting into a list in listing order keeps it in listing order and adds
/// exactly the inserted member.
pub proof fn lemma_insert_member(s: Seq<Member>, x: Member)
    requires
        in_listing_order(s),
    ensures
        in_listing_order(insert_member(s, x)),
        insert_member(s, x).to_multiset() == s.to_multiset().insert(x),
    decreases s.len(),
{
    if s.len() == 0 {
        assert(seq![x] =~= Seq::<Member>::empty().push(x));
        assert(s =~= Seq::<Member>::empty());
    } else if listed_before(s.last(), x) {
        let r = s.push(x);
        assert forall|i: int, j: int| 0 <= i < j < r.len() implies listed_before(
            #[trigger] r[i],
            #[trigger] r[j],
        ) by {
            if j == s.len() && i < s.len() - 1 {
                lemma_listed_before(s[i], s.last(), x);
                assert(listed_before(s[i], s[s.len() - 1]));
            }
        }
    } else {
        let d = s.drop_last();
        let last = s.last();
        assert(in_listing_order(d)) by {
            assert forall|i: int, j: int| 0 <= i < j < d.len() implies listed_before(
                #[trigger] d[i],
                #[trigger] d[j],
            ) by {
                assert(d[i] == s[i] && d[j] == s[j]);
            }
        }
        lemma_insert_member(d, x);
        lemma_listed_before(last, x, x);
        assert forall|i: int| 0 <= i < d.len() implies listed_before(#[trigger] d[i], last) by {
            assert(d[i] == s[i]);
            assert(s[s.len() - 1] == last);
        }
        lemma_insert_bounded(d, x, last);
        let r = insert_member(d, x);
        assert forall|i: int, j: int| 0 <= i < j < r.push(last).len() implies listed_before(
            #[trigger] r.push(last)[i],
            #[trigger] r.push(last)[j],
        ) by {
            if j < r.len() {
                assert(r.push(last)[i] == r[i] && r.push(last)[j] == r[j]);
            } else {
                assert(r.push(last)[i] == r[i]);
            }
        }
        assert(s =~= d.push(last));
        assert(r.push(last).to_multiset() =~= s.to_multiset().insert(x));
    }
}

/// The listing is in listing order and holds exactly the given members.
pub proof fn lemma_sort_members(s: Seq<Member>)
    ensures
        in_listing_order(sort_members(s)),
        sort_members(s).to_multiset() == s.to_multiset(),
    decreases s.len(),
{
    if s.len() == 0 {
    } else {
        lemma_sort_members(s.drop_last());
        lemma_insert_member(sort_members(s.drop_last()), s.last());
        assert(s =~= s.drop_last().push(s.last()));
    }
}

/// Whether `a` may be listed before `b`.
fn precedes(a: &Member, b: &Member) -> (r: bool)
    ensures
        r == listed_before(*a, *b),
{
    match (a.role, b.role) {
        (MemberRole::Owner, MemberRole::Member) => true,
        (MemberRole::Member, MemberRole::Owner) => false,
        _ => !text_less(b.full_name.as_str(), a.full_name.as_str()),
    }
}

/// Inserts `x` into `v` after the last member that may be listed before it.
fn insert_in_order(v: &mut Vec<Member>, x: Member)
    ensures
        final(v)@ == insert_member(old(v)@, x),
{
    let ghost s = v@;
    let mut j = v.len();
    assert(s.subrange(0, s.len() as int) =~= s);
    assert(insert_member(s, x) =~= insert_member(s.subrange(0, j as int), x) + s.subrange(
        j as int,
        s.len() as int,
    ));
    while j > 0 && !precedes(&v[j - 1], &x)
        invariant
            j <= v.len(),
            v@ == s,
            insert_member(s, x) == insert_member(s.subrange(0, j as int), x) + s.subrange(
                j as int,
                s.len() as int,
            ),
        decreases j,
    {
        let ghost t = s.subrange(0, j as int);
        assert(t.drop_last() =~= s.subrange(0, j - 1));
        assert(t.last() == s[j - 1]);
        assert(insert_member(t, x) == insert_member(t.drop_last(), x).push(t.last()));
        assert(insert_member(s.subrange(0, j - 1), x) + s.subrange(j - 1, s.len() as int)
            =~= insert_member(t.drop_last(), x).push(t.last()) + s.subrange(
            j as int,
            s.len() as int,
        ));
        j = j - 1;
    }
    let ghost t = s.subrange(0, j as int);
    if j > 0 {
        assert(t.last() == s[j - 1]);
    }
    assert(insert_member(t, x) =~= t.push(x));
    v.insert(j, x);
    assert(v@ =~= t.push(x) + s.subrange(j as int, s.len() as int));
}

/// Lists the household's members.
pub struct MemberService;

impl MemberService {
    /// The members in listing order: owners first, then alphabetically by
    /// full name; members with the same role and name keep their order.
    pub fn list(members: Vec<Member>) -> (r: Vec<Member>)
        ensures
            r@ == sort_members(members@),
    {
        let ghost all = members@;
        let mut rest = members;
        let mut out: Vec<Member> = Vec::new();
        let mut i: usize = 0;
        let n = rest.len();
        while i < n
            invariant
                n == all.len(),
                i <= n,
                rest@ == all.subrange(i as int, n as int),
                out@ == sort_members(all.subrange(0, i as int)),
            decreases n - i,
        {
            let x = rest.remove(0);
            let ghost before = all.subrange(0, i as int);
            let ghost after = all.subrange(0, i + 1);
            assert(after.drop_last() =~= before);
            assert(x == all[i as int]);
            insert_in_order(&mut out, x);
            i = i + 1;
            assert(rest@ =~= all.subrange(i as int, n as int));
        }
        assert(all.subrange(0, n as int) =~= all);
        out
    }
}

} // verus!
