//! Lists of children: taking an identifier out, and entering one once.

use crate::models::lemma_filter_step;
use vstd::prelude::*;

verus! {

/// The identifiers other than `id`.
pub open spec fn is_not(id: u128) -> spec_fn(u128) -> bool {
    |x: u128| x != id
}

/// `ids` without `id`: the others, in their order.
pub open spec fn without(ids: Seq<u128>, id: u128) -> Seq<u128> {
    ids.filter(is_not(id))
}

/// Whether `f` is the place of the first `id` in `ids`.
pub open spec fn is_first_place(ids: Seq<u128>, id: u128, f: int) -> bool {
    &&& 0 <= f < ids.len()
    &&& ids[f] == id
    &&& forall|j: int| 0 <= j < f ==> ids[j] != id
}

/// The place of the first `id` in `ids`, and the length of `ids` where `id`
/// is not among them.
pub open spec fn first_place(ids: Seq<u128>, id: u128) -> int {
    if ids.contains(id) {
        choose|f: int| is_first_place(ids, id, f)
    } else {
        ids.len() as int
    }
}

/// `children` with `child` entered once: where `child` is among them, its
/// first entry stays where it is and every later one goes; else `child`
/// comes at the end. The others stay in their order.
pub open spec fn with_child(children: Seq<u128>, child: u128) -> Seq<u128> {
    let f = first_place(children, child);
    children.take(f) + seq![child] + without(children.skip(f), child)
}

/// Takes `id` out of `ids`.
pub fn without_id(ids: &Vec<u128>, id: u128) -> (rest: Vec<u128>)
    ensures
        rest@ == without(ids@, id),
{
    let mut rest: Vec<u128> = Vec::new();
    let mut i: usize = 0;
    while i < ids.len()
        invariant
            i <= ids@.len(),
            rest@ == without(ids@.take(i as int), id),
        decreases ids@.len() - i,
    {
        proof {
            lemma_filter_step(ids@, is_not(id), i as int);
        }
        if ids[i] != id {
            rest.push(ids[i]);
        }
        i += 1;
    }
    proof {
        assert(ids@.take(i as int) == ids@);
    }
    rest
}

/// Enters `id` once in `ids`.
pub fn enter_once(ids: &Vec<u128>, id: u128) -> (entered: Vec<u128>)
    ensures
        entered@ == with_child(ids@, id),
{
    let mut entered: Vec<u128> = Vec::new();
    let mut seen = false;
    let ghost mut first: int = 0;
    let mut i: usize = 0;
    proof {
        assert(ids@.take(0) =~= Seq::<u128>::empty());
    }
    while i < ids.len()
        invariant
            i <= ids@.len(),
            !seen ==> entered@ == ids@.take(i as int) && forall|j: int|
                0 <= j < i ==> ids@[j] != id,
            seen ==> is_first_place(ids@, id, first) && first < i && entered@ == ids@.take(first)
                + seq![id] + without(ids@.subrange(first, i as int), id),
        decreases ids@.len() - i,
    {
        let x = ids[i];
        if x != id {
            proof {
                if seen {
                    let part = ids@.subrange(first, i as int);
                    assert(ids@.subrange(first, i + 1) =~= part.push(x));
                    part.lemma_filter_push(x, is_not(id));
                } else {
                    assert(ids@.take(i + 1) =~= ids@.take(i as int).push(x));
                }
            }
            entered.push(x);
        } else if !seen {
            proof {
                first = i as int;
                let part = ids@.subrange(first, i + 1);
                assert(part =~= seq![id]);
                lemma_without_membership(part, id, id);
                assert(without(part, id) =~= Seq::<u128>::empty()) by {
                    if without(part, id).len() > 0 {
                        assert(without(part, id).contains(without(part, id)[0]));
                        lemma_without_membership(part, id, without(part, id)[0]);
                    }
                }
            }
            entered.push(x);
            seen = true;
        } else {
            proof {
                let part = ids@.subrange(first, i as int);
                assert(ids@.subrange(first, i + 1) =~= part.push(x));
                part.lemma_filter_push(x, is_not(id));
            }
        }
        i += 1;
    }
    if !seen {
        proof {
            assert(ids@.take(i as int) =~= ids@);
            assert(!ids@.contains(id));
            assert(ids@.skip(ids@.len() as int) =~= Seq::<u128>::empty());
            assert(without(Seq::<u128>::empty(), id) =~= Seq::<u128>::empty()) by {
                reveal(Seq::filter);
            }
        }
        entered.push(id);
    } else {
        proof {
            lemma_first_place_is(ids@, id, first);
            assert(ids@.subrange(first, i as int) =~= ids@.skip(first));
        }
    }
    entered
}

/// Where `f` is the place of the first `id`, it is `first_place`.
pub proof fn lemma_first_place_is(ids: Seq<u128>, id: u128, f: int)
    requires
        is_first_place(ids, id, f),
    ensures
        ids.contains(id),
        first_place(ids, id) == f,
{
    assert(ids[f] == id);
    let chosen = choose|g: int| is_first_place(ids, id, g);
    if chosen < f {
        assert(ids[chosen] != id);
    } else if f < chosen {
        assert(ids[f] != id);
    }
}

/// Where `id` is among `ids`, `first_place` is the place of its first entry.
pub proof fn lemma_first_place_exists(ids: Seq<u128>, id: u128)
    requires
        ids.contains(id),
    ensures
        is_first_place(ids, id, first_place(ids, id)),
    decreases ids.len(),
{
    let k = choose|k: int| 0 <= k < ids.len() && ids[k] == id;
    let shorter = ids.take(k);
    if shorter.contains(id) {
        lemma_first_place_exists(shorter, id);
        let f = first_place(shorter, id);
        assert(is_first_place(ids, id, f)) by {
            assert(shorter[f] == ids[f]);
            assert forall|j: int| 0 <= j < f implies ids[j] != id by {
                assert(shorter[j] == ids[j]);
            }
        }
        lemma_first_place_is(ids, id, f);
    } else {
        assert(is_first_place(ids, id, k)) by {
            assert forall|j: int| 0 <= j < k implies ids[j] != id by {
                if ids[j] == id {
                    assert(shorter[j] == id);
                }
            }
        }
        lemma_first_place_is(ids, id, k);
    }
}

/// What is among `ids` without `id`: all that is among `ids`, but `id`.
pub proof fn lemma_without_membership(ids: Seq<u128>, id: u128, x: u128)
    ensures
        without(ids, id).contains(x) <==> (ids.contains(x) && x != id),
{
    let kept = without(ids, id);
    if kept.contains(x) {
        let m = choose|m: int| 0 <= m < kept.len() && kept[m] == x;
        ids.lemma_filter_pred(is_not(id), m);
        ids.lemma_filter_contains_rev(is_not(id), x);
    }
    if ids.contains(x) && x != id {
        let k = choose|k: int| 0 <= k < ids.len() && ids[k] == x;
        ids.lemma_filter_contains(is_not(id), k);
    }
}

/// What is among `children` with `child` entered once: all that was among
/// them, and `child`, which is there exactly once.
pub proof fn lemma_with_child_membership(children: Seq<u128>, child: u128, x: u128)
    ensures
        with_child(children, child).contains(x) <==> (children.contains(x) || x == child),
        forall|i: int, j: int|
            0 <= i < with_child(children, child).len() && 0 <= j < with_child(
                children,
                child,
            ).len() && with_child(children, child)[i] == child && with_child(children, child)[j]
                == child ==> i == j,
{
    let f = first_place(children, child);
    if children.contains(child) {
        lemma_first_place_exists(children, child);
    }
    let head = children.take(f);
    let tail = without(children.skip(f), child);
    let whole = with_child(children, child);
    assert(whole.len() == f + 1 + tail.len());
    assert(whole[f] == child);
    assert forall|t: int| 0 <= t < f implies whole[t] == children[t] && whole[t] != child by {
        assert(head[t] == children[t]);
    }
    assert forall|t: int| f < t < whole.len() implies whole[t] == tail[t - f - 1] && whole[t]
        != child && children.contains(whole[t]) by {
        assert(tail.contains(tail[t - f - 1]));
        lemma_without_membership(children.skip(f), child, tail[t - f - 1]);
        let k = choose|k: int|
            0 <= k < children.skip(f).len() && children.skip(f)[k] == tail[t - f - 1];
        assert(children[f + k] == tail[t - f - 1]);
    }
    if whole.contains(x) {
        let t = choose|t: int| 0 <= t < whole.len() && whole[t] == x;
        if t < f {
            assert(children[t] == x);
        }
    }
    if children.contains(x) && x != child {
        let k = choose|k: int| 0 <= k < children.len() && children[k] == x;
        if k < f {
            assert(whole[k] == x);
        } else {
            assert(children.skip(f)[k - f] == x);
            assert(children.skip(f).contains(x));
            lemma_without_membership(children.skip(f), child, x);
            let m = choose|m: int| 0 <= m < tail.len() && tail[m] == x;
            assert(whole[f + 1 + m] == x);
        }
    }
}

} // verus!
