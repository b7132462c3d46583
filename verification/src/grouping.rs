//! Partitioning a flat list of group indices into bind groups.
//!
//! A shader's bindings carry arbitrary group indices. Execution builds one
//! bind group per distinct index, containing exactly the bindings declared
//! for it, in their bound order. The functions here do that partition on
//! the plain index list and carry its exact characterization; the lemma at
//! the end states that the partition is one: every position lands in the
//! group of its own index and in no other.

use vstd::prelude::*;

verus! {

/// The positions `i` of `groups` with `groups[i] == g`, in increasing
/// order.
pub open spec fn spec_positions_of(groups: Seq<u32>, g: u32) -> Seq<int>
    decreases groups.len(),
{
    if groups.len() == 0 {
        Seq::empty()
    } else {
        let front = spec_positions_of(groups.drop_last(), g);
        if groups.last() == g {
            front.push(groups.len() - 1)
        } else {
            front
        }
    }
}

/// A position is listed for `g` exactly when it carries `g`.
pub proof fn lemma_positions_membership(groups: Seq<u32>, g: u32)
    ensures
        forall|i: int|
            #[trigger] spec_positions_of(groups, g).contains(i) <==> (0 <= i < groups.len()
                && groups[i] == g),
    decreases groups.len(),
{
    if groups.len() > 0 {
        let rest = groups.drop_last();
        let front = spec_positions_of(rest, g);
        lemma_positions_membership(rest, g);
        assert forall|i: int|
            #[trigger] spec_positions_of(groups, g).contains(i) <==> (0 <= i < groups.len()
                && groups[i] == g) by {
            lemma_push_contains(front, groups.len() - 1, i);
            if 0 <= i < rest.len() {
                assert(rest[i] == groups[i]);
            }
            if front.contains(i) {
                assert(0 <= i < rest.len() && rest[i] == g);
            }
        }
    }
}

/// The distinct group indices of `groups`, in first-occurrence order.
pub open spec fn spec_distinct_groups(groups: Seq<u32>) -> Seq<u32>
    decreases groups.len(),
{
    if groups.len() == 0 {
        Seq::empty()
    } else {
        let prefix = spec_distinct_groups(groups.drop_last());
        if prefix.contains(groups.last()) {
            prefix
        } else {
            prefix.push(groups.last())
        }
    }
}

/// A pushed sequence contains exactly the old members and the new element.
proof fn lemma_push_contains<T>(s: Seq<T>, x: T, y: T)
    ensures
        s.push(x).contains(y) <==> (s.contains(y) || y == x),
{
    if s.contains(y) {
        let i = choose|i: int| 0 <= i < s.len() && s[i] == y;
        assert(s.push(x)[i] == y);
    }
    if y == x {
        assert(s.push(x)[s.len() as int] == y);
    }
    if s.push(x).contains(y) && y != x {
        let i = choose|i: int| 0 <= i < s.push(x).len() && s.push(x)[i] == y;
        assert(s[i] == y);
    }
}

/// A non-empty sequence contains exactly its last element and the members
/// of its front.
proof fn lemma_drop_last_contains<T>(s: Seq<T>, y: T)
    requires
        s.len() > 0,
    ensures
        s.contains(y) <==> (s.drop_last().contains(y) || y == s.last()),
{
    if s.drop_last().contains(y) {
        let i = choose|i: int| 0 <= i < s.drop_last().len() && s.drop_last()[i] == y;
        assert(s[i] == y);
    }
    if y == s.last() {
        assert(s[s.len() - 1] == y);
    }
    if s.contains(y) && y != s.last() {
        let i = choose|i: int| 0 <= i < s.len() && s[i] == y;
        assert(s.drop_last()[i] == y);
    }
}

/// Membership in the distinct list is exactly membership in the original.
pub proof fn lemma_distinct_groups_members(groups: Seq<u32>)
    ensures
        forall|g: u32| #[trigger] spec_distinct_groups(groups).contains(g) <==> groups.contains(g),
    decreases groups.len(),
{
    if groups.len() > 0 {
        let rest = groups.drop_last();
        let last = groups.last();
        let prefix = spec_distinct_groups(rest);
        lemma_distinct_groups_members(rest);
        assert forall|g: u32|
            #[trigger] spec_distinct_groups(groups).contains(g) <==> groups.contains(g) by {
            lemma_push_contains(prefix, last, g);
            lemma_drop_last_contains(groups, g);
            assert(prefix.contains(g) <==> rest.contains(g));
            if prefix.contains(last) {
                if g == last {
                    assert(prefix.contains(g));
                }
            }
        }
    }
}

/// The distinct list never repeats an index.
pub proof fn lemma_distinct_groups_no_repeat(groups: Seq<u32>)
    ensures
        forall|i: int, j: int|
            0 <= i < j < spec_distinct_groups(groups).len() ==> spec_distinct_groups(groups)[i]
                != spec_distinct_groups(groups)[j],
    decreases groups.len(),
{
    if groups.len() > 0 {
        let rest = groups.drop_last();
        let last = groups.last();
        let prefix = spec_distinct_groups(rest);
        lemma_distinct_groups_no_repeat(rest);
        lemma_distinct_groups_members(rest);
        if !prefix.contains(last) {
            assert forall|i: int, j: int|
                0 <= i < j < prefix.push(last).len() implies prefix.push(last)[i] != prefix.push(
                last,
            )[j] by {
                if j == prefix.len() {
                    assert(prefix.push(last)[i] == prefix[i]);
                    if prefix[i] == last {
                        assert(prefix.contains(last));
                    }
                }
            }
        }
    }
}

/// The distinct group indices, in first-occurrence order, without repeats;
/// an index is listed if and only if some position carries it.
pub fn distinct_groups(groups: &Vec<u32>) -> (r: Vec<u32>)
    ensures
        r@ == spec_distinct_groups(groups@),
        forall|g: u32| #[trigger] r@.contains(g) <==> groups@.contains(g),
        forall|i: int, j: int| 0 <= i < j < r@.len() ==> r@[i] != r@[j],
{
    let mut out: Vec<u32> = Vec::new();
    let mut i: usize = 0;
    proof {
        assert(groups@.take(0) =~= Seq::<u32>::empty());
    }
    while i < groups.len()
        invariant
            i <= groups@.len(),
            out@ == spec_distinct_groups(groups@.take(i as int)),
        decreases groups@.len() - i,
    {
        let g = groups[i];
        let mut seen = false;
        let mut j: usize = 0;
        while j < out.len()
            invariant
                j <= out@.len(),
                seen <==> exists|k: int| 0 <= k < j && out@[k] == g,
            decreases out@.len() - j,
        {
            if out[j] == g {
                seen = true;
            }
            j = j + 1;
        }
        proof {
            assert(seen <==> out@.contains(g));
            assert(groups@.take(i + 1).drop_last() =~= groups@.take(i as int));
            assert(groups@.take(i + 1).last() == g);
        }
        if !seen {
            out.push(g);
        }
        i = i + 1;
    }
    proof {
        assert(groups@.take(groups@.len() as int) =~= groups@);
        lemma_distinct_groups_members(groups@);
        lemma_distinct_groups_no_repeat(groups@);
    }
    out
}

/// The positions of `groups` whose index equals `g`: exactly
/// `spec_positions_of(groups, g)`, in increasing order — every listed
/// position carries `g`, every position carrying `g` is listed, and a
/// position with a different group index is never listed.
pub fn positions_of_group(groups: &Vec<u32>, g: u32) -> (r: Vec<usize>)
    ensures
        r@.map_values(|u: usize| u as int) == spec_positions_of(groups@, g),
        forall|k: int| 0 <= k < r@.len() ==> r@[k] < groups@.len() && groups@[r@[k] as int] == g,
        forall|i: int| 0 <= i < groups@.len() && groups@[i] == g ==> r@.contains(i as usize),
        forall|k1: int, k2: int| 0 <= k1 < k2 < r@.len() ==> r@[k1] < r@[k2],
{
    let mut out: Vec<usize> = Vec::new();
    let mut i: usize = 0;
    proof {
        assert(groups@.take(0) =~= Seq::<u32>::empty());
        assert(out@.map_values(|u: usize| u as int) =~= spec_positions_of(groups@.take(0), g));
    }
    while i < groups.len()
        invariant
            i <= groups@.len(),
            out@.map_values(|u: usize| u as int) == spec_positions_of(groups@.take(i as int), g),
            forall|k: int| 0 <= k < out@.len() ==> out@[k] < i && groups@[out@[k] as int] == g,
            forall|j: int| 0 <= j < i && groups@[j] == g ==> out@.contains(j as usize),
            forall|k1: int, k2: int| 0 <= k1 < k2 < out@.len() ==> out@[k1] < out@[k2],
        decreases groups@.len() - i,
    {
        proof {
            assert(groups@.take(i + 1).drop_last() =~= groups@.take(i as int));
            assert(groups@.take(i + 1).last() == groups@[i as int]);
        }
        if groups[i] == g {
            let ghost pre = out@;
            out.push(i);
            proof {
                assert(out@[out@.len() - 1] == i);
                assert(out@.map_values(|u: usize| u as int) =~= pre.map_values(
                    |u: usize| u as int,
                ).push(i as int));
                assert forall|j: int| 0 <= j < i + 1 && groups@[j] == g implies out@.contains(
                    j as usize,
                ) by {
                    if j < i {
                        let k = choose|k: int| 0 <= k < pre.len() && pre[k] == j as usize;
                        assert(out@[k] == j as usize);
                    } else {
                        assert(out@[out@.len() - 1] == j as usize);
                    }
                }
            }
        }
        i = i + 1;
    }
    proof {
        assert(groups@.take(groups@.len() as int) =~= groups@);
    }
    out
}

/// The partition law: for any list of group indices, each position belongs
/// to the position set of its own group index, and a position carrying one
/// index never appears among the positions of another.
pub proof fn lemma_group_partition(groups: Seq<u32>, g1: u32, g2: u32)
    requires
        g1 != g2,
    ensures
        forall|i: int|
            #[trigger] spec_positions_of(groups, g1).contains(i) ==> !spec_positions_of(
                groups,
                g2,
            ).contains(i),
        forall|i: int| 0 <= i < groups.len() ==> spec_positions_of(groups, groups[i]).contains(i),
{
    lemma_positions_membership(groups, g1);
    lemma_positions_membership(groups, g2);
    assert forall|i: int| 0 <= i < groups.len() implies spec_positions_of(
        groups,
        groups[i],
    ).contains(i) by {
        lemma_positions_membership(groups, groups[i]);
    }
}

} // verus!
