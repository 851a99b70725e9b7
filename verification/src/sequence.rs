//! Run-time sized sequences: a `Vec` built from its length and a generator.
use vstd::prelude::*;
use crate::init::Init;

verus! {

/// Calls `elem` on `0, 1, .., length - 1` in this order and collects what
/// it returns, in the same order.
pub fn collect<T, F: FnMut(usize) -> T>(length: usize, elem: &mut F) -> (res: Vec<T>)
    requires
        forall|index: usize| index < length ==> call_requires(*old(elem), (index,)),
    ensures
        *final(elem) == *old(elem),
        res@.len() == length,
        forall|index: usize|
            index < length ==> call_ensures(*old(elem), (index,), #[trigger] res@[index as int]),
{
    let mut items: Vec<T> = Vec::with_capacity(length);
    let mut next: usize = 0;
    while next < length
        invariant
            next <= length,
            *elem == *old(elem),
            items@.len() == next,
            forall|index: usize| index < length ==> call_requires(*elem, (index,)),
            forall|index: usize|
                index < next ==> call_ensures(*elem, (index,), #[trigger] items@[index as int]),
        decreases length - next,
    {
        let item = elem(next);
        items.push(item);
        next += 1;
    }
    items
}

impl<T> Init<T, usize, usize> for Vec<T> {
    /// Every position below the length asked for.
    open spec fn valid_index(value: usize, index: usize) -> bool {
        index < value
    }

    /// The vector has the length asked for.
    open spec fn shaped_by(&self, value: usize) -> bool {
        self@.len() == value
    }

    /// The element at position `index`.
    open spec fn item_at(&self, index: usize) -> T {
        self@[index as int]
    }

    /// Appends `elem(0)`, `elem(1)`, .. up to `length` elements.
    fn init_with<F: FnMut(usize) -> T>(length: usize, elem: F) -> (res: Self) {
        let mut generator = elem;
        collect(length, &mut generator)
    }
}

/// A vector built from a generator that can return only `expected(index)`
/// at each index below `length` is the sequence of those values.
pub proof fn lemma_vec_is_sequence_of<T, F: FnMut(usize) -> T>(
    length: usize,
    elem: F,
    res: Vec<T>,
    expected: spec_fn(usize) -> T,
)
    requires
        res.shaped_by(length),
        forall|index: usize|
            index < length ==> call_ensures(elem, (index,), #[trigger] res.item_at(index)),
        forall|index: usize, item: T|
            index < length && #[trigger] call_ensures(elem, (index,), item) ==> item == expected(
                index,
            ),
    ensures
        res@ == Seq::new(length as nat, |at: int| expected(at as usize)),
{
    assert forall|at: int| 0 <= at < length implies res@[at] == expected(at as usize) by {
        assert(res.item_at(at as usize) == res@[at]);
    }
    assert(res@ =~= Seq::new(length as nat, |at: int| expected(at as usize)));
}

/// A vector of length zero asks nothing of its generator: `init_with` can be
/// handed one that accepts no index at all, and so cannot call it.
pub proof fn lemma_empty_vec_asks_nothing<T, F: FnMut(usize) -> T>(elem: F)
    ensures
        forall|index: usize|
            <Vec<T> as Init<T, usize, usize>>::valid_index(0, index) ==> #[trigger] call_requires(
                elem,
                (index,),
            ),
{
}

} // verus!
