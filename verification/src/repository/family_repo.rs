//! Families and their members.
use vstd::prelude::*;

use crate::models::family::Family;
use crate::models::member::Member;
use crate::text::{opt_string_eq, opt_text};

verus! {

/// Groups members by family.
pub struct FamilyRepo;

/// The members whose family is `family_id`, in order.
pub open spec fn members_of(ms: Seq<Member>, family_id: Seq<char>) -> Seq<Member>
    decreases ms.len(),
{
    if ms.len() == 0 {
        Seq::empty()
    } else if opt_text(ms.last().family_id) == Some(family_id) {
        members_of(ms.drop_last(), family_id).push(ms.last())
    } else {
        members_of(ms.drop_last(), family_id)
    }
}

fn members_of_family(members: &Vec<Member>, family_id: &String) -> (r: Vec<Member>)
    ensures
        r@ == members_of(members@, family_id@),
{
    let key = Some(family_id.clone());
    let mut out: Vec<Member> = Vec::new();
    let mut i: usize = 0;
    while i < members.len()
        invariant
            i <= members.len(),
            opt_text(key) == Some(family_id@),
            out@ == members_of(members@.subrange(0, i as int), family_id@),
        decreases members.len() - i,
    {
        assert(members@.subrange(0, i + 1).drop_last() =~= members@.subrange(0, i as int));
        if opt_string_eq(&members[i].family_id, &key) {
            out.push(members[i].duplicate());
        }
        i = i + 1;
    }
    assert(members@.subrange(0, members.len() as int) =~= members@);
    out
}

impl FamilyRepo {
    /// Each family, in order, with its members (in the order given).
    pub fn list_with_members(families: Vec<Family>, members: &Vec<Member>) -> (r: Vec<
        (Family, Vec<Member>),
    >)
        ensures
            r.len() == families.len(),
            forall|i: int|
                0 <= i < r.len() ==> (#[trigger] r[i]).0 == families[i] && r[i].1@ == members_of(
                    members@,
                    families[i].id@,
                ),
    {
        let ghost fs = families@;
        let mut result: Vec<(Family, Vec<Member>)> = Vec::new();
        let mut rest = families;
        let mut pending: Vec<Family> = Vec::new();
        while rest.len() > 0
            invariant
                pending.len() + rest.len() == fs.len(),
                rest@ == fs.subrange(0, rest.len() as int),
                forall|k: int| 0 <= k < pending.len() ==> #[trigger] pending[k] == fs[fs.len() - 1 - k],
            decreases rest.len(),
        {
            let f = rest.pop().unwrap();
            pending.push(f);
        }
        while pending.len() > 0
            invariant
                result.len() + pending.len() == fs.len(),
                forall|k: int| 0 <= k < pending.len() ==> #[trigger] pending[k] == fs[fs.len() - 1 - k],
                forall|k: int|
                    0 <= k < result.len() ==> (#[trigger] result[k]).0 == fs[k] && result[k].1@
                        == members_of(members@, fs[k].id@),
            decreases pending.len(),
        {
            let family = pending.pop().unwrap();
            let family_members = members_of_family(members, &family.id);
            result.push((family, family_members));
        }
        result
    }
}

} // verus!
