//! Fixed-size arrays of one dimension.
use vstd::prelude::*;
use crate::init::Init;
use crate::sequence::collect;

verus! {

/// Calls the conversion of a `Vec<T>` into a `[T; N]` (`TryFrom<Vec<T>>` for
/// arrays, reached through `try_into`). Trusted: a vector of exactly `N`
/// elements comes back as the array of those elements in the same order,
/// and any other vector comes back unchanged as the error.
#[verifier::external_body]
fn vec_into_array<T, const N: usize>(items: Vec<T>) -> (res: Result<[T; N], Vec<T>>)
    ensures
        items@.len() == N ==> res is Ok && res->Ok_0@ == items@,
        items@.len() != N ==> res is Err && res->Err_0@ == items@,
{
    items.try_into()
}

/// Turns a vector that is known to hold `N` elements into the array of
/// those elements.
pub fn array_of<T, const N: usize>(items: Vec<T>) -> (res: [T; N])
    requires
        items@.len() == N,
    ensures
        res@ == items@,
{
    match vec_into_array(items) {
        Ok(array) => array,
        Err(_) => vstd::pervasive::unreached(),
    }
}

impl<T, const N: usize> Init<T, usize> for [T; N] {
    /// Every position below `N`.
    open spec fn valid_index(value: (), index: usize) -> bool {
        index < N
    }

    /// The type fixes the shape.
    open spec fn shaped_by(&self, value: ()) -> bool {
        true
    }

    /// The element at position `index`.
    open spec fn item_at(&self, index: usize) -> T {
        self@[index as int]
    }

    /// Collects the `N` elements in ascending order of their index, then
    /// turns the full buffer into the array. No slot of the array exists
    /// before every element has been made.
    fn init_with<F: FnMut(usize) -> T>(value: (), elem: F) -> (res: Self) {
        let mut generator = elem;
        array_of(collect(N, &mut generator))
    }
}

/// An array built from a generator that can return only `expected(index)`
/// at each index below `N` is the sequence of those values.
pub proof fn lemma_array_is_sequence_of<T, F: FnMut(usize) -> T, const N: usize>(
    elem: F,
    res: [T; N],
    expected: spec_fn(usize) -> T,
)
    requires
        forall|index: usize|
            index < N ==> call_ensures(elem, (index,), #[trigger] res.item_at(index)),
        forall|index: usize, item: T|
            index < N && #[trigger] call_ensures(elem, (index,), item) ==> item == expected(index),
    ensures
        res@ == Seq::new(N as nat, |at: int| expected(at as usize)),
{
    assert forall|at: int| 0 <= at < N implies res@[at] == expected(at as usize) by {
        assert(res.item_at(at as usize) == res@[at]);
    }
    assert(res@ =~= Seq::new(N as nat, |at: int| expected(at as usize)));
}

/// An array of length zero asks nothing of its generator: `init_with` can be
/// handed one that accepts no index at all, and so cannot call it.
pub proof fn lemma_empty_array_asks_nothing<T, F: FnMut(usize) -> T>(elem: F)
    ensures
        forall|index: usize|
            <[T; 0] as Init<T, usize>>::valid_index((), index) ==> #[trigger] call_requires(
                elem,
                (index,),
            ),
{
}

} // verus!
