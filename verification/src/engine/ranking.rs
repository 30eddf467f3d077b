//! Ranking: a stable sort, highest first.

use vstd::prelude::*;

verus! {

/// Values that an order ranks: any two compare, and the comparison is
/// transitive.
pub trait Ranked: Sized {
    /// `self` ranks at least as high as `other`.
    spec fn outranks_or_ties(&self, other: &Self) -> bool;

    fn at_least(&self, other: &Self) -> (holds: bool)
        ensures
            holds == self.outranks_or_ties(other),
    ;

    proof fn lemma_total(a: &Self, b: &Self)
        ensures
            a.outranks_or_ties(b) || b.outranks_or_ties(a),
    ;

    proof fn lemma_transitive(a: &Self, b: &Self, c: &Self)
        requires
            a.outranks_or_ties(b),
            b.outranks_or_ties(c),
        ensures
            a.outranks_or_ties(c),
    ;
}

/// `a` and `b` rank alike.
pub open spec fn ties<T: Ranked>(a: T, b: T) -> bool {
    a.outranks_or_ties(&b) && b.outranks_or_ties(&a)
}

/// The values that rank like `t`.
pub open spec fn tied_with<T: Ranked>(t: T) -> spec_fn(T) -> bool {
    |x: T| ties(x, t)
}

/// No element ranks below a later one.
pub open spec fn is_descending<T: Ranked>(s: Seq<T>) -> bool {
    forall|i: int, j: int|
        #![trigger s[i], s[j]]
        0 <= i < j < s.len() ==> s[i].outranks_or_ties(&s[j])
}

/// `out` is `items` ranked: the same elements, highest first, and those that
/// rank alike in the order in which `items` has them.
pub open spec fn is_ranking_of<T: Ranked>(out: Seq<T>, items: Seq<T>) -> bool {
    &&& is_descending(out)
    &&& out.to_multiset() == items.to_multiset()
    &&& forall|t: T| #[trigger] out.filter(tied_with(t)) == items.filter(tied_with(t))
}

/// `items[i]` is the first of the highest-ranking elements of `items`.
pub open spec fn is_first_highest<T: Ranked>(items: Seq<T>, i: int) -> bool {
    &&& 0 <= i < items.len()
    &&& forall|j: int|
        #![trigger items[j]]
        0 <= j < items.len() ==> items[i].outranks_or_ties(&items[j])
    &&& forall|j: int| #![trigger items[j]] 0 <= j < i ==> !items[j].outranks_or_ties(&items[i])
}

/// Ranks `items`, highest first; elements that rank alike keep their order.
pub fn rank_descending<T: Ranked>(items: Vec<T>) -> (out: Vec<T>)
    ensures
        is_ranking_of(out@, items@),
{
    let ghost given = items@;
    let mut rest = items;
    let mut out: Vec<T> = Vec::new();
    proof {
        assert(given.skip(given.len() as int) =~= Seq::<T>::empty());
    }
    while rest.len() > 0
        invariant
            rest@.len() <= given.len(),
            rest@ == given.take(rest@.len() as int),
            is_ranking_of(out@, given.skip(rest@.len() as int)),
        decreases rest@.len(),
    {
        let ghost n = rest@.len() as int;
        let item = rest.pop().unwrap();
        let mut place: usize = 0;
        while place < out.len() && !item.at_least(&out[place])
            invariant
                place <= out@.len(),
                forall|k: int| #![trigger out@[k]] 0 <= k < place ==> !item.outranks_or_ties(&out@[k]),
            decreases out@.len() - place,
        {
            place += 1;
        }
        proof {
            assert(item == given[n - 1]);
            assert(given.skip(n - 1) =~= seq![item] + given.skip(n));
            assert(rest@ =~= given.take(n - 1));
            lemma_insert_keeps_ranking(out@, given.skip(n), item, place as int);
        }
        out.insert(place, item);
    }
    proof {
        assert(given.skip(0) =~= given);
    }
    out
}

/// The place of the first of the highest-ranking elements, where there is
/// an element at all.
pub fn first_highest<T: Ranked>(items: &Vec<T>) -> (place: Option<usize>)
    ensures
        place is None <==> items@.len() == 0,
        place matches Some(i) ==> is_first_highest(items@, i as int),
{
    if items.len() == 0 {
        return None;
    }
    let mut best: usize = 0;
    let mut i: usize = 1;
    proof {
        T::lemma_total(&items@[0], &items@[0]);
    }
    while i < items.len()
        invariant
            1 <= i <= items@.len(),
            best < i,
            forall|j: int|
                #![trigger items@[j]]
                0 <= j < i ==> items@[best as int].outranks_or_ties(&items@[j]),
            forall|j: int|
                #![trigger items@[j]]
                0 <= j < best ==> !items@[j].outranks_or_ties(&items@[best as int]),
        decreases items@.len() - i,
    {
        if !items[best].at_least(&items[i]) {
            proof {
                let old_best = items@[best as int];
                let new_best = items@[i as int];
                T::lemma_total(&old_best, &new_best);
                assert forall|j: int| #![trigger items@[j]] 0 <= j < i + 1 implies new_best.outranks_or_ties(
                    &items@[j],
                ) by {
                    if j < i {
                        T::lemma_transitive(&new_best, &old_best, &items@[j]);
                    } else {
                        T::lemma_total(&new_best, &new_best);
                    }
                }
                assert forall|j: int| #![trigger items@[j]] 0 <= j < i implies !items@[j].outranks_or_ties(
                    &new_best,
                ) by {
                    if items@[j].outranks_or_ties(&new_best) {
                        T::lemma_transitive(&old_best, &items@[j], &new_best);
                    }
                }
            }
            best = i;
        }
        i += 1;
    }
    Some(best)
}

/// A sequence none of whose elements is kept filters to nothing.
pub proof fn lemma_filter_none<T>(s: Seq<T>, keep: spec_fn(T) -> bool)
    requires
        forall|i: int| 0 <= i < s.len() ==> !keep(#[trigger] s[i]),
    ensures
        s.filter(keep) == Seq::<T>::empty(),
    decreases s.len(),
{
    reveal(Seq::filter);
    if s.len() > 0 {
        lemma_filter_none(s.drop_last(), keep);
    }
}

/// Putting `item` before everything it does not rank below keeps a ranking a
/// ranking, of the items with `item` in front.
pub proof fn lemma_insert_keeps_ranking<T: Ranked>(out: Seq<T>, items: Seq<T>, item: T, place: int)
    requires
        is_ranking_of(out, items),
        0 <= place <= out.len(),
        forall|k: int| #![trigger out[k]] 0 <= k < place ==> !item.outranks_or_ties(&out[k]),
        place < out.len() ==> item.outranks_or_ties(&out[place]),
    ensures
        is_ranking_of(out.insert(place, item), seq![item] + items),
{
    let grown = out.insert(place, item);
    let longer = seq![item] + items;
    out.insert_ensures(place, item);
    assert forall|i: int, j: int| #![trigger grown[i], grown[j]] 0 <= i < j < grown.len() implies grown[i].outranks_or_ties(
        &grown[j],
    ) by {
        if j < place {
            assert(grown[i] == out[i] && grown[j] == out[j]);
        } else if j == place {
            assert(grown[i] == out[i]);
            T::lemma_total(&item, &out[i]);
        } else if i < place {
            assert(grown[i] == out[i] && grown[j] == out[j - 1]);
        } else if i == place {
            assert(grown[j] == out[j - 1]);
            if j - 1 > place {
                T::lemma_transitive(&item, &out[place], &out[j - 1]);
            }
        } else {
            assert(grown[i] == out[i - 1] && grown[j] == out[j - 1]);
        }
    }
    assert(grown.to_multiset() == longer.to_multiset()) by {
        broadcast use vstd::seq_lib::group_to_multiset_ensures;

        assert(longer =~= items.insert(0, item));
    }
    assert forall|t: T| #[trigger] grown.filter(tied_with(t)) == longer.filter(tied_with(t)) by {
        let keep = tied_with(t);
        let before = out.subrange(0, place);
        let after = out.subrange(place, out.len() as int);
        assert(out =~= before + after);
        assert(grown =~= before.push(item) + after);
        Seq::filter_distributes_over_add(before, after, keep);
        Seq::filter_distributes_over_add(before.push(item), after, keep);
        before.lemma_filter_push(item, keep);
        items.lemma_filter_prepend(item, keep);
        assert(out.filter(keep) == items.filter(keep));
        if keep(item) {
            assert forall|k: int| 0 <= k < before.len() implies !keep(#[trigger] before[k]) by {
                if keep(before[k]) {
                    assert(before[k] == out[k]);
                    T::lemma_transitive(&item, &t, &out[k]);
                }
            }
            lemma_filter_none(before, keep);
            assert(grown.filter(keep) =~= seq![item] + out.filter(keep));
        }
    }
}

/// A ranking is as long as what it ranks: of nothing, it is nothing.
pub proof fn lemma_ranking_length<T: Ranked>(out: Seq<T>, items: Seq<T>)
    requires
        is_ranking_of(out, items),
    ensures
        out.len() == items.len(),
{
    broadcast use vstd::seq_lib::group_to_multiset_ensures;

    assert(out.to_multiset().len() == items.to_multiset().len());
}

/// The head of a ranking is the first of the highest-ranking items.
pub proof fn lemma_head_of_ranking<T: Ranked>(out: Seq<T>, items: Seq<T>) -> (i: int)
    requires
        is_ranking_of(out, items),
        items.len() > 0,
    ensures
        out.len() == items.len(),
        is_first_highest(items, i),
        items[i] == out[0],
{
    broadcast use vstd::seq_lib::group_to_multiset_ensures;

    lemma_ranking_length(out, items);
    let head = out[0];
    let keep = tied_with(head);
    T::lemma_total(&head, &head);
    // The head is the first of the elements of `out` that tie with it.
    let rest = out.subrange(1, out.len() as int);
    assert(out =~= seq![head] + rest);
    rest.lemma_filter_prepend(head, keep);
    assert(out.filter(keep)[0] == head);
    assert(items.filter(keep) == out.filter(keep));
    // So it is the first of the elements of `items` that tie with it.
    let i = lemma_first_kept(items, keep);
    assert forall|j: int| #![trigger items[j]] 0 <= j < items.len() implies items[i].outranks_or_ties(
        &items[j],
    ) by {
        assert(items.to_multiset().count(items[j]) > 0) by {
            assert(items.contains(items[j]));
        }
        assert(out.contains(items[j]));
        let k = choose|k: int| 0 <= k < out.len() && out[k] == items[j];
        if k > 0 {
            assert(out[0].outranks_or_ties(&out[k]));
        }
    }
    assert forall|j: int| #![trigger items[j]] 0 <= j < i implies !items[j].outranks_or_ties(&items[i]) by {
        assert(!keep(items[j]));
    }
    i
}

/// The first element that a filter keeps is the first kept element of the
/// sequence.
pub proof fn lemma_first_kept<T>(s: Seq<T>, keep: spec_fn(T) -> bool) -> (i: int)
    requires
        s.filter(keep).len() > 0,
    ensures
        0 <= i < s.len(),
        keep(s[i]),
        s[i] == s.filter(keep)[0],
        forall|j: int| 0 <= j < i ==> !keep(#[trigger] s[j]),
    decreases s.len(),
{
    reveal(Seq::filter);
    if s.len() == 0 {
        0
    } else {
        let shorter = s.drop_last();
        if shorter.filter(keep).len() > 0 {
            let i = lemma_first_kept(shorter, keep);
            assert(s[i] == shorter[i]);
            assert forall|j: int| 0 <= j < i implies !keep(#[trigger] s[j]) by {
                assert(s[j] == shorter[j]);
            }
            i
        } else {
            assert forall|j: int| 0 <= j < s.len() - 1 implies !keep(#[trigger] s[j]) by {
                if keep(s[j]) {
                    assert(shorter[j] == s[j]);
                    shorter.lemma_filter_contains(keep, j);
                }
            }
            s.len() - 1
        }
    }
}

} // verus!
