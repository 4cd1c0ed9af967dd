//! Removing the marked members of a collection in one pass, keeping the order of the rest.
use vstd::prelude::*;

verus! {

/// The members of `items` whose mark in `marked` is false, in the order they had.
pub open spec fn kept<T>(items: Seq<T>, marked: Seq<bool>) -> Seq<T>
    decreases items.len(),
{
    if items.len() == 0 {
        Seq::empty()
    } else {
        let rest = kept(items.drop_first(), marked.drop_first());
        if marked[0] {
            rest
        } else {
            seq![items[0]] + rest
        }
    }
}

/// Number of marks in `marked` that are false.
pub open spec fn unmarked_count(marked: Seq<bool>) -> nat
    decreases marked.len(),
{
    if marked.len() == 0 {
        0
    } else {
        unmarked_count(marked.drop_first()) + if marked[0] {
            0nat
        } else {
            1nat
        }
    }
}

/// Removes every member whose mark is set; the others keep their order.
pub fn retain_unmarked<T>(items: &mut Vec<T>, marked: &Vec<bool>)
    requires
        old(items)@.len() == marked@.len(),
    ensures
        final(items)@ == kept(old(items)@, marked@),
{
    let ghost initial = items@;
    let n = items.len();
    let mut i = n;
    assert(initial.subrange(n as int, n as int) =~= Seq::<T>::empty());
    assert(initial.subrange(0, n as int) =~= initial);
    while i > 0
        invariant
            i <= n,
            n == initial.len(),
            marked@.len() == n,
            items@ == initial.subrange(0, i as int) + kept(
                initial.subrange(i as int, n as int),
                marked@.subrange(i as int, n as int),
            ),
        decreases i,
    {
        i = i - 1;
        let ghost before = items@;
        let ghost tail = kept(
            initial.subrange(i + 1, n as int),
            marked@.subrange(i + 1, n as int),
        );
        assert(initial.subrange(i as int, n as int).drop_first() =~= initial.subrange(
            i + 1,
            n as int,
        ));
        assert(marked@.subrange(i as int, n as int).drop_first() =~= marked@.subrange(
            i + 1,
            n as int,
        ));
        assert(initial.subrange(i as int, n as int)[0] == initial[i as int]);
        assert(marked@.subrange(i as int, n as int)[0] == marked@[i as int]);
        if marked[i] {
            items.remove(i);
            assert(items@ =~= initial.subrange(0, i as int) + tail);
        } else {
            assert(before =~= initial.subrange(0, i as int) + (seq![initial[i as int]] + tail));
        }
    }
    assert(initial.subrange(0, 0) =~= Seq::<T>::empty());
    assert(items@ =~= kept(initial, marked@)) by {
        assert(initial.subrange(0, n as int) =~= initial);
        assert(marked@.subrange(0, n as int) =~= marked@);
    }
}

/// Exactly the unmarked members survive: the length of what is kept is the number of false marks.
pub proof fn kept_length<T>(items: Seq<T>, marked: Seq<bool>)
    requires
        items.len() == marked.len(),
    ensures
        kept(items, marked).len() == unmarked_count(marked),
    decreases items.len(),
{
    if items.len() > 0 {
        kept_length(items.drop_first(), marked.drop_first());
    }
}

/// How many of the indices `0, 1, .., n - 1` satisfy `pred`.
pub open spec fn count_indices(n: nat, pred: spec_fn(int) -> bool) -> nat {
    indices(n).filter(pred).len()
}

/// The indices `0, 1, .., n - 1`, in increasing order.
pub open spec fn indices(n: nat) -> Seq<int> {
    Seq::new(n, |i: int| i)
}

/// The indices below `n` whose mark in `marked` is false, in increasing order.
pub open spec fn unmarked_indices(n: nat, marked: Seq<bool>) -> Seq<int> {
    indices(n).filter(|i: int| !marked[i])
}

/// Counting indices one at a time: none below zero, and index `n` adds one exactly when it
/// satisfies the predicate.
pub proof fn count_indices_step(n: nat, pred: spec_fn(int) -> bool)
    ensures
        count_indices(0, pred) == 0,
        count_indices(n + 1, pred) == count_indices(n, pred) + if pred(n as int) {
            1nat
        } else {
            0nat
        },
{
    reveal(Seq::filter);
    let s = indices(n + 1);
    assert(s.drop_last() =~= indices(n));
    assert(s.last() == n);
    assert(indices(0).len() == 0);
}

/// Appending one more member with its mark appends it to what is kept exactly when it is
/// unmarked.
pub proof fn kept_of_push<T>(items: Seq<T>, marked: Seq<bool>, x: T, m: bool)
    requires
        items.len() == marked.len(),
    ensures
        kept(items.push(x), marked.push(m)) == kept(items, marked) + if m {
            Seq::<T>::empty()
        } else {
            seq![x]
        },
    decreases items.len(),
{
    if items.len() == 0 {
        assert(items.push(x).drop_first() =~= Seq::<T>::empty());
        assert(marked.push(m).drop_first() =~= Seq::<bool>::empty());
        assert(kept(Seq::<T>::empty(), Seq::<bool>::empty()) == Seq::<T>::empty());
        assert(kept(items, marked) == Seq::<T>::empty());
        assert(Seq::<T>::empty() + Seq::<T>::empty() =~= Seq::<T>::empty());
        assert(Seq::<T>::empty() + seq![x] =~= seq![x]);
        assert(seq![x] + Seq::<T>::empty() =~= seq![x]);
    } else {
        assert(items.push(x).drop_first() =~= items.drop_first().push(x));
        assert(marked.push(m).drop_first() =~= marked.drop_first().push(m));
        kept_of_push(items.drop_first(), marked.drop_first(), x, m);
        let tail = if m {
            Seq::<T>::empty()
        } else {
            seq![x]
        };
        let rest = kept(items.drop_first(), marked.drop_first());
        assert(seq![items[0]] + (rest + tail) =~= (seq![items[0]] + rest) + tail);
        assert(rest + tail =~= rest + tail);
    }
}

/// What is kept is exactly the unmarked members, in the order they had: the members at the
/// unmarked indices, taken in increasing order.
pub proof fn kept_is_the_unmarked_in_order<T>(items: Seq<T>, marked: Seq<bool>)
    requires
        items.len() == marked.len(),
    ensures
        kept(items, marked) == unmarked_indices(items.len(), marked).map_values(
            |i: int| items[i],
        ),
    decreases items.len(),
{
    reveal(Seq::filter);
    let n = items.len();
    if n == 0 {
        assert(unmarked_indices(0, marked).len() == 0);
        assert(kept(items, marked) =~= Seq::<T>::empty());
        assert(unmarked_indices(n, marked).map_values(|i: int| items[i])
            =~= Seq::<T>::empty());
    } else {
        let items0 = items.drop_last();
        let marked0 = marked.drop_last();
        kept_is_the_unmarked_in_order(items0, marked0);
        assert(items0.push(items.last()) =~= items);
        assert(marked0.push(marked.last()) =~= marked);
        kept_of_push(items0, marked0, items.last(), marked.last());
        let idx = indices(n);
        assert(idx.drop_last() =~= indices((n - 1) as nat));
        let f0 = unmarked_indices((n - 1) as nat, marked0);
        let f = unmarked_indices((n - 1) as nat, marked);
        filter_same_below((n - 1) as nat, marked0, marked);
        assert(f == f0);
        filter_indices_below((n - 1) as nat, marked);
        assert(f0.map_values(|i: int| items0[i]) =~= f.map_values(|i: int| items[i]));
        let whole = unmarked_indices(n, marked);
        if marked.last() {
            assert(whole == f);
            assert(kept(items, marked) =~= kept(items0, marked0));
        } else {
            assert(whole == f.push(n - 1));
            assert(whole.map_values(|i: int| items[i]) =~= f.map_values(|i: int| items[i]).push(
                items.last(),
            ));
            assert(kept(items0, marked0) + seq![items.last()] =~= kept(items0, marked0).push(
                items.last(),
            ));
        }
    }
}

proof fn filter_same_below(n: nat, a: Seq<bool>, b: Seq<bool>)
    requires
        n <= a.len(),
        n <= b.len(),
        forall|i: int| 0 <= i < n ==> a[i] == b[i],
    ensures
        unmarked_indices(n, a) == unmarked_indices(n, b),
    decreases n,
{
    reveal(Seq::filter);
    if n > 0 {
        filter_same_below((n - 1) as nat, a, b);
        assert(indices(n).drop_last() =~= indices((n - 1) as nat));
    }
}

proof fn filter_indices_below(n: nat, a: Seq<bool>)
    ensures
        forall|k: int|
            0 <= k < unmarked_indices(n, a).len() ==> 0 <= #[trigger] unmarked_indices(n, a)[k] < n,
    decreases n,
{
    reveal(Seq::filter);
    if n > 0 {
        filter_indices_below((n - 1) as nat, a);
        assert(indices(n).drop_last() =~= indices((n - 1) as nat));
        let sub = unmarked_indices((n - 1) as nat, a);
        assert(indices(n).last() == n - 1);
        assert(unmarked_indices(n, a) == if !a[n - 1] {
            sub.push(n - 1)
        } else {
            sub
        });
        assert forall|k: int|
            0 <= k < unmarked_indices(n, a).len() implies 0 <= #[trigger] unmarked_indices(n, a)[k]
            < n by {
            if k < sub.len() {
                assert(unmarked_indices(n, a)[k] == sub[k]);
            }
        }
    }
}

} // verus!
