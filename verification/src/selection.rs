//! Positions of an ordered collection: naming them by index or by flag, dropping the elements
//! that stand at them, and picking the elements that stand at them.

use vstd::prelude::*;

verus! {

/// The positions that a list of indices names. Order and repetition play no part.
pub open spec fn index_set(indices: Seq<usize>) -> Set<int> {
    Set::new(|j: int| exists|k: int| 0 <= k < indices.len() && indices[k] as int == j)
}

/// The positions that a list of flags marks.
pub open spec fn flagged(flags: Seq<bool>) -> Set<int> {
    Set::new(|j: int| 0 <= j < flags.len() && flags[j])
}

/// The positions of `positions` that lie below `bound`.
pub open spec fn below(positions: Set<int>, bound: int) -> Set<int> {
    Set::new(|j: int| positions.contains(j) && j < bound)
}

/// How many positions of `positions` lie in `0..bound`.
pub open spec fn count_below(positions: Set<int>, bound: int) -> nat
    decreases bound,
{
    if bound <= 0 {
        0
    } else if positions.contains(bound - 1) {
        count_below(positions, bound - 1) + 1
    } else {
        count_below(positions, bound - 1)
    }
}

/// `s` without the elements that stand at the positions in `removed`. The elements that stay
/// keep their order.
pub open spec fn without_positions<T>(s: Seq<T>, removed: Set<int>) -> Seq<T>
    decreases s.len(),
{
    if s.len() == 0 {
        Seq::empty()
    } else if removed.contains(s.len() - 1) {
        without_positions(s.drop_last(), removed)
    } else {
        without_positions(s.drop_last(), removed).push(s.last())
    }
}

/// The elements of `s` that stand at `indices`, in the order of `indices`. An index beyond the
/// end of `s` contributes nothing.
pub open spec fn at_positions<T>(s: Seq<T>, indices: Seq<usize>) -> Seq<T>
    decreases indices.len(),
{
    if indices.len() == 0 {
        Seq::empty()
    } else if indices.last() < s.len() {
        at_positions(s, indices.drop_last()).push(s[indices.last() as int])
    } else {
        at_positions(s, indices.drop_last())
    }
}

/// The flagged positions in ascending order.
pub open spec fn flagged_positions(flags: Seq<bool>) -> Seq<usize>
    decreases flags.len(),
{
    if flags.len() == 0 {
        Seq::empty()
    } else if flags.last() {
        flagged_positions(flags.drop_last()).push((flags.len() - 1) as usize)
    } else {
        flagged_positions(flags.drop_last())
    }
}

/// Only the positions inside the sequence matter: two sets that agree on `0..s.len()` remove
/// the same elements.
pub proof fn positions_outside_are_ignored<T>(s: Seq<T>, a: Set<int>, b: Set<int>)
    requires
        forall|j: int| 0 <= j < s.len() ==> (a.contains(j) <==> b.contains(j)),
    ensures
        without_positions(s, a) == without_positions(s, b),
    decreases s.len(),
{
    if s.len() > 0 {
        positions_outside_are_ignored(s.drop_last(), a, b);
    }
}

/// Removing at no position of the sequence leaves it as it is.
pub proof fn removing_nothing_changes_nothing<T>(s: Seq<T>, removed: Set<int>)
    requires
        forall|j: int| 0 <= j < s.len() ==> !removed.contains(j),
    ensures
        without_positions(s, removed) == s,
    decreases s.len(),
{
    if s.len() > 0 {
        removing_nothing_changes_nothing(s.drop_last(), removed);
        assert(s.drop_last().push(s.last()) =~= s);
    }
}

/// The result is shorter than the sequence by the number of removed positions inside it.
pub proof fn length_after_removal<T>(s: Seq<T>, removed: Set<int>)
    ensures
        without_positions(s, removed).len() == s.len() - count_below(removed, s.len() as int),
    decreases s.len(),
{
    if s.len() > 0 {
        length_after_removal(s.drop_last(), removed);
    }
    count_below_grows_slowly(removed, 0, s.len() as int);
}

/// What stays, and where: the element at a position `i` that is not removed stays, and moves
/// down by the number of removed positions before it. So exactly the elements at the other
/// positions stay, in the order in which they stood.
pub proof fn kept_elements_keep_their_order<T>(s: Seq<T>, removed: Set<int>, i: int)
    requires
        0 <= i < s.len(),
        !removed.contains(i),
    ensures
        0 <= i - count_below(removed, i) < without_positions(s, removed).len(),
        without_positions(s, removed)[i - count_below(removed, i)] == s[i],
    decreases s.len(),
{
    let front = s.drop_last();
    length_after_removal(front, removed);
    length_after_removal(s, removed);
    count_below_grows_slowly(removed, 0, i);
    count_below_grows_slowly(removed, i, s.len() as int);
    if i < s.len() - 1 {
        kept_elements_keep_their_order(front, removed, i);
    }
}

/// Counting positions up to a larger bound counts no fewer, and no more than the bound
/// grew by.
pub proof fn count_below_grows_slowly(positions: Set<int>, low: int, high: int)
    requires
        0 <= low <= high,
    ensures
        count_below(positions, low) <= count_below(positions, high),
        count_below(positions, high) - count_below(positions, low) <= high - low,
        count_below(positions, low) <= low,
    decreases high,
{
    if low < high {
        count_below_grows_slowly(positions, low, high - 1);
    } else if low > 0 {
        count_below_grows_slowly(positions, low - 1, low - 1);
    }
}

/// Taking out the element at the highest removed position first, and the others after, gives
/// the same as removing all at once.
pub proof fn highest_position_first<T>(s: Seq<T>, removed: Set<int>, top: int)
    requires
        0 <= top < s.len(),
        removed.contains(top),
        forall|j: int| removed.contains(j) ==> j <= top,
    ensures
        without_positions(s, removed) == without_positions(s.remove(top), removed.remove(top)),
    decreases s.len(),
{
    let rest = removed.remove(top);
    if top == s.len() - 1 {
        assert(s.remove(top) =~= s.drop_last());
        positions_outside_are_ignored(s.drop_last(), removed, rest);
    } else {
        let shorter = s.remove(top);
        assert(shorter.drop_last() =~= s.drop_last().remove(top));
        assert(shorter.last() == s.last());
        highest_position_first(s.drop_last(), removed, top);
    }
}

/// Every entry of the list of flagged positions is a position that is flagged.
pub proof fn listed_positions_are_flagged(flags: Seq<bool>, k: int)
    requires
        flags.len() <= usize::MAX,
        0 <= k < flagged_positions(flags).len(),
    ensures
        flagged_positions(flags)[k] < flags.len(),
        flags[flagged_positions(flags)[k] as int],
    decreases flags.len(),
{
    let front = flags.drop_last();
    if k < flagged_positions(front).len() {
        listed_positions_are_flagged(front, k);
        assert(front[flagged_positions(front)[k] as int] == flags[flagged_positions(front)[k] as int]);
    }
}

/// The list of flagged positions ascends strictly, so no position is listed twice.
pub proof fn listed_positions_ascend(flags: Seq<bool>, k: int, l: int)
    requires
        flags.len() <= usize::MAX,
        0 <= k < l < flagged_positions(flags).len(),
    ensures
        flagged_positions(flags)[k] < flagged_positions(flags)[l],
    decreases flags.len(),
{
    let front = flags.drop_last();
    if l < flagged_positions(front).len() {
        listed_positions_ascend(front, k, l);
    } else {
        listed_positions_are_flagged(front, k);
    }
}

/// The list of flagged positions has one entry for each flagged position.
pub proof fn every_flagged_position_is_listed(flags: Seq<bool>)
    requires
        flags.len() <= usize::MAX,
    ensures
        flagged_positions(flags).len() == count_below(flagged(flags), flags.len() as int),
    decreases flags.len(),
{
    if flags.len() > 0 {
        let front = flags.drop_last();
        every_flagged_position_is_listed(front);
        positions_counted_alike(flagged(flags), flagged(front), front.len() as int);
    }
}

/// Two sets that agree below `bound` have equally many positions below it.
pub proof fn positions_counted_alike(a: Set<int>, b: Set<int>, bound: int)
    requires
        forall|j: int| 0 <= j < bound ==> (a.contains(j) <==> b.contains(j)),
    ensures
        count_below(a, bound) == count_below(b, bound),
    decreases bound,
{
    if bound > 0 {
        positions_counted_alike(a, b, bound - 1);
    }
}

/// When every index lies inside the sequence, every index picks an element.
pub proof fn picking_inside_keeps_length<T>(s: Seq<T>, indices: Seq<usize>)
    requires
        forall|j: int| 0 <= j < indices.len() ==> indices[j] < s.len(),
    ensures
        at_positions(s, indices).len() == indices.len(),
    decreases indices.len(),
{
    if indices.len() > 0 {
        let front = indices.drop_last();
        assert forall|j: int| 0 <= j < front.len() implies front[j] < s.len() by {
            assert(front[j] == indices[j]);
        }
        picking_inside_keeps_length(s, front);
        assert(indices.last() == indices[indices.len() - 1]);
    }
}

/// When every index lies inside the sequence, picking is reading position by position.
pub proof fn picking_inside_reads_each_position<T>(s: Seq<T>, indices: Seq<usize>, k: int)
    requires
        forall|j: int| 0 <= j < indices.len() ==> indices[j] < s.len(),
        0 <= k < indices.len(),
    ensures
        0 <= k < at_positions(s, indices).len(),
        at_positions(s, indices)[k] == s[indices[k] as int],
    decreases indices.len(),
{
    let front = indices.drop_last();
    assert forall|j: int| 0 <= j < front.len() implies front[j] < s.len() by {
        assert(front[j] == indices[j]);
    }
    picking_inside_keeps_length(s, indices);
    picking_inside_keeps_length(s, front);
    assert(indices.last() == indices[indices.len() - 1]);
    if k < front.len() {
        picking_inside_reads_each_position(s, front, k);
    }
}

/// An index beyond the end of the sequence picks nothing: with or without it the result is
/// the same.
pub proof fn picking_outside_adds_nothing<T>(s: Seq<T>, indices: Seq<usize>, beyond: usize)
    requires
        beyond >= s.len(),
    ensures
        at_positions(s, indices.push(beyond)) == at_positions(s, indices),
{
    assert(indices.push(beyond).drop_last() =~= indices);
}

/// Lists the flagged positions in ascending order.
pub fn selected_indices(flags: &Vec<bool>) -> (indices: Vec<usize>)
    ensures
        indices@ == flagged_positions(flags@),
{
    let mut indices: Vec<usize> = Vec::new();
    let mut i: usize = 0;
    while i < flags.len()
        invariant
            i <= flags.len(),
            indices@ == flagged_positions(flags@.take(i as int)),
        decreases flags.len() - i,
    {
        proof {
            assert(flags@.take(i + 1).drop_last() == flags@.take(i as int));
        }
        if flags[i] {
            indices.push(i);
        }
        i += 1;
    }
    proof {
        assert(flags@.take(flags.len() as int) == flags@);
    }
    indices
}

/// Turns a list of indices into flags over `len` positions: a position is flagged exactly when
/// the list names it. Indices of `len` or more are skipped.
pub fn flags_of(indices: &Vec<usize>, len: usize) -> (flags: Vec<bool>)
    ensures
        flags.len() == len,
        forall|j: int| 0 <= j < len ==> (flags[j] <==> index_set(indices@).contains(j)),
{
    let mut flags: Vec<bool> = Vec::new();
    let mut n: usize = 0;
    while n < len
        invariant
            n <= len,
            flags.len() == n,
            forall|j: int| 0 <= j < n ==> !flags[j],
        decreases len - n,
    {
        flags.push(false);
        n += 1;
    }
    let mut k: usize = 0;
    while k < indices.len()
        invariant
            k <= indices.len(),
            flags.len() == len,
            forall|j: int| 0 <= j < len ==> (flags[j] <==> index_set(indices@.take(k as int)).contains(j)),
        decreases indices.len() - k,
    {
        let index: usize = indices[k];
        let ghost before = flags@;
        if index < len {
            flags.set(index, true);
        }
        proof {
            let seen = indices@.take(k as int);
            let now = indices@.take(k + 1);
            assert forall|j: int| 0 <= j < len implies (flags[j] <==> index_set(now).contains(j)) by {
                if index_set(now).contains(j) {
                    let w = choose|w: int| 0 <= w < now.len() && now[w] as int == j;
                    if w < k {
                        assert(seen[w] as int == j);
                        assert(index_set(seen).contains(j));
                    }
                }
                if before[j] {
                    let w = choose|w: int| 0 <= w < seen.len() && seen[w] as int == j;
                    assert(now[w] as int == j);
                }
                if j == index {
                    assert(now[k as int] as int == j);
                }
            }
        }
        k += 1;
    }
    proof {
        assert(indices@.take(indices.len() as int) == indices@);
    }
    flags
}

} // verus!
