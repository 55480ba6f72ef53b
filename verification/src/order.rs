use vstd::prelude::*;

verus! {

/// `at` places the items of `part` in `whole`, one after the other: item `i`
/// of `part` is item `at[i]` of `whole`, and the places grow with `i`.
pub open spec fn embeds<T>(at: Seq<int>, part: Seq<T>, whole: Seq<T>) -> bool {
    &&& at.len() == part.len()
    &&& forall|i: int|
        0 <= i < at.len() ==> 0 <= #[trigger] at[i] < whole.len() && part[i] == whole[at[i]]
    &&& forall|i: int, j: int| 0 <= i < j < at.len() ==> #[trigger] at[i] < #[trigger] at[j]
}

/// `part` is what is left of `whole` when some of its items are taken out:
/// the items that stay keep their relative order.
pub open spec fn is_subsequence<T>(part: Seq<T>, whole: Seq<T>) -> bool {
    exists|at: Seq<int>| embeds(at, part, whole)
}

/// Nothing is left of anything.
pub proof fn lemma_empty_is_subsequence<T>(whole: Seq<T>)
    ensures
        is_subsequence(Seq::<T>::empty(), whole),
{
    assert(embeds(Seq::<int>::empty(), Seq::<T>::empty(), whole));
}

/// An item that comes last in both stays last.
pub proof fn lemma_push_both<T>(part: Seq<T>, whole: Seq<T>, item: T)
    requires
        is_subsequence(part, whole),
    ensures
        is_subsequence(part.push(item), whole.push(item)),
{
    let at = choose|at: Seq<int>| embeds(at, part, whole);
    let longer = at.push(whole.len() as int);
    assert(embeds(longer, part.push(item), whole.push(item))) by {
        assert forall|i: int| 0 <= i < longer.len() implies 0 <= #[trigger] longer[i]
            < whole.push(item).len() && part.push(item)[i] == whole.push(item)[longer[i]] by {
            if i < at.len() {
                assert(longer[i] == at[i]);
            }
        }
        assert forall|i: int, j: int| 0 <= i < j < longer.len() implies #[trigger] longer[i]
            < #[trigger] longer[j] by {
            if j < at.len() {
                assert(longer[i] == at[i] && longer[j] == at[j]);
            } else {
                assert(longer[i] == at[i]);
            }
        }
    }
}

/// An item that leaves the part leaves the others in their order.
pub proof fn lemma_remove<T>(part: Seq<T>, whole: Seq<T>, index: int)
    requires
        is_subsequence(part, whole),
        0 <= index < part.len(),
    ensures
        is_subsequence(part.remove(index), whole),
{
    let at = choose|at: Seq<int>| embeds(at, part, whole);
    let fewer = at.remove(index);
    assert(embeds(fewer, part.remove(index), whole)) by {
        assert forall|i: int| 0 <= i < fewer.len() implies 0 <= #[trigger] fewer[i] < whole.len()
            && part.remove(index)[i] == whole[fewer[i]] by {
            if i < index {
                assert(fewer[i] == at[i]);
            } else {
                assert(fewer[i] == at[i + 1]);
            }
        }
        assert forall|i: int, j: int| 0 <= i < j < fewer.len() implies #[trigger] fewer[i]
            < #[trigger] fewer[j] by {
            let from = if i < index { i } else { i + 1 };
            let to = if j < index { j } else { j + 1 };
            assert(fewer[i] == at[from] && fewer[j] == at[to]);
        }
    }
}

/// The first items of the part are left of the whole too.
pub proof fn lemma_take<T>(part: Seq<T>, whole: Seq<T>, count: int)
    requires
        is_subsequence(part, whole),
        0 <= count <= part.len(),
    ensures
        is_subsequence(part.take(count), whole),
{
    let at = choose|at: Seq<int>| embeds(at, part, whole);
    let first = at.take(count);
    assert(embeds(first, part.take(count), whole)) by {
        assert forall|i: int| 0 <= i < first.len() implies 0 <= #[trigger] first[i] < whole.len()
            && part.take(count)[i] == whole[first[i]] by {
            assert(first[i] == at[i]);
        }
        assert forall|i: int, j: int| 0 <= i < j < first.len() implies #[trigger] first[i]
            < #[trigger] first[j] by {
            assert(first[i] == at[i] && first[j] == at[j]);
        }
    }
}

/// Where the keys of the whole grow from each item to the next, so do the
/// keys of what is left of it.
pub proof fn lemma_keys_grow<T>(part: Seq<T>, whole: Seq<T>, key: spec_fn(T) -> int)
    requires
        is_subsequence(part, whole),
        forall|i: int, j: int| 0 <= i < j < whole.len() ==> key(whole[i]) < key(whole[j]),
    ensures
        forall|i: int, j: int| 0 <= i < j < part.len() ==> key(part[i]) < key(part[j]),
{
    let at = choose|at: Seq<int>| embeds(at, part, whole);
    assert forall|i: int, j: int| 0 <= i < j < part.len() implies key(part[i]) < key(part[j]) by {
        assert(at[i] < at[j]);
        assert(part[i] == whole[at[i]] && part[j] == whole[at[j]]);
    }
}

} // verus!
