//! Fixed-size arrays of two to six dimensions, each built as an array of
//! arrays of one dimension less.
//!
//! An index is an array of `D` positions, the innermost dimension first.
//! The builder of `k` dimensions sets the first `k` positions of a `base`
//! index and leaves the others as they are, so that a builder of more
//! dimensions can fix an outer position and hand the rest to the one below.
//! A generator is borrowed all the way down: a closure cannot lend it on to
//! a closure inside, so each level is a loop of its own.
use vstd::prelude::*;
use vstd::array::spec_array_update;
use crate::array::array_of;
use crate::init::Init;

verus! {

/// `base` with `i1` in its first position.
pub open spec fn at_1<const D: usize>(base: [usize; D], i1: usize) -> [usize; D] {
    spec_array_update(base, 0, i1)
}

/// `base` with `i1` and `i2` in its first two positions.
pub open spec fn at_2<const D: usize>(base: [usize; D], i1: usize, i2: usize) -> [usize; D] {
    at_1(spec_array_update(base, 1, i2), i1)
}

/// `base` with `i1` to `i3` in its first three positions.
pub open spec fn at_3<const D: usize>(
    base: [usize; D],
    i1: usize,
    i2: usize,
    i3: usize,
) -> [usize; D] {
    at_2(spec_array_update(base, 2, i3), i1, i2)
}

/// `base` with `i1` to `i4` in its first four positions.
pub open spec fn at_4<const D: usize>(
    base: [usize; D],
    i1: usize,
    i2: usize,
    i3: usize,
    i4: usize,
) -> [usize; D] {
    at_3(spec_array_update(base, 3, i4), i1, i2, i3)
}

/// `base` with `i1` to `i5` in its first five positions.
pub open spec fn at_5<const D: usize>(
    base: [usize; D],
    i1: usize,
    i2: usize,
    i3: usize,
    i4: usize,
    i5: usize,
) -> [usize; D] {
    at_4(spec_array_update(base, 4, i5), i1, i2, i3, i4)
}

/// `base` with `i1` to `i6` in its first six positions.
pub open spec fn at_6<const D: usize>(
    base: [usize; D],
    i1: usize,
    i2: usize,
    i3: usize,
    i4: usize,
    i5: usize,
    i6: usize,
) -> [usize; D] {
    at_5(spec_array_update(base, 5, i6), i1, i2, i3, i4, i5)
}

/// Builds one row: slot `i1` holds what `elem` returns for `base` with
/// `i1` as its first position.
pub fn fill_1<T, F: FnMut([usize; D]) -> T, const D: usize, const N1: usize>(
    elem: &mut F,
    base: [usize; D],
) -> (res: [T; N1])
    requires
        1 <= D,
        forall|i1: usize| i1 < N1 ==> call_requires(*old(elem), (#[trigger] at_1(base, i1),)),
    ensures
        *final(elem) == *old(elem),
        forall|i1: usize|
            i1 < N1 ==> call_ensures(*old(elem), (at_1(base, i1),), #[trigger] res@[i1 as int]),
{
    let mut items: Vec<T> = Vec::with_capacity(N1);
    let mut next: usize = 0;
    while next < N1
        invariant
            1 <= D,
            next <= N1,
            *elem == *old(elem),
            items@.len() == next,
            forall|i1: usize| i1 < N1 ==> call_requires(*elem, (#[trigger] at_1(base, i1),)),
            forall|i1: usize|
                i1 < next ==> call_ensures(*elem, (at_1(base, i1),), #[trigger] items@[i1 as int]),
        decreases N1 - next,
    {
        let mut index = base;
        index[0] = next;
        assert(index =~= at_1(base, next));
        let item = elem(index);
        items.push(item);
        next += 1;
    }
    array_of(items)
}

/// Builds a grid of two dimensions, row by row.
pub fn fill_2<T, F: FnMut([usize; D]) -> T, const D: usize, const N1: usize, const N2: usize>(
    elem: &mut F,
    base: [usize; D],
) -> (res: [[T; N1]; N2])
    requires
        2 <= D,
        forall|i1: usize, i2: usize|
            i1 < N1 && i2 < N2 ==> call_requires(*old(elem), (#[trigger] at_2(base, i1, i2),)),
    ensures
        *final(elem) == *old(elem),
        forall|i1: usize, i2: usize|
            i1 < N1 && i2 < N2 ==> call_ensures(
                *old(elem),
                (at_2(base, i1, i2),),
                #[trigger] res@[i2 as int]@[i1 as int],
            ),
{
    let mut items: Vec<[T; N1]> = Vec::with_capacity(N2);
    let mut next: usize = 0;
    while next < N2
        invariant
            2 <= D,
            next <= N2,
            *elem == *old(elem),
            items@.len() == next,
            forall|i1: usize, i2: usize|
                i1 < N1 && i2 < N2 ==> call_requires(*elem, (#[trigger] at_2(base, i1, i2),)),
            forall|i1: usize, i2: usize|
                i1 < N1 && i2 < next ==> call_ensures(
                    *elem,
                    (at_2(base, i1, i2),),
                    #[trigger] items@[i2 as int]@[i1 as int],
                ),
        decreases N2 - next,
    {
        let mut inner = base;
        inner[1] = next;
        assert(inner =~= spec_array_update(base, 1, next));
        assert forall|i1: usize| i1 < N1 implies call_requires(
            *elem,
            (#[trigger] at_1(inner, i1),),
        ) by {
            assert(at_1(inner, i1) == at_2(base, i1, next));
        }
        let item = fill_1::<T, F, D, N1>(elem, inner);
        items.push(item);
        next += 1;
    }
    array_of(items)
}

/// Builds a grid of three dimensions as `N3` grids of two, in ascending
/// order of the third position.
pub fn fill_3<
    T,
    F: FnMut([usize; D]) -> T,
    const D: usize,
    const N1: usize,
    const N2: usize,
    const N3: usize,
>(elem: &mut F, base: [usize; D]) -> (res: [[[T; N1]; N2]; N3])
    requires
        3 <= D,
        forall|i1: usize, i2: usize, i3: usize|
            i1 < N1 && i2 < N2 && i3 < N3 ==> call_requires(
                *old(elem),
                (#[trigger] at_3(base, i1, i2, i3),),
            ),
    ensures
        *final(elem) == *old(elem),
        forall|i1: usize, i2: usize, i3: usize|
            i1 < N1 && i2 < N2 && i3 < N3 ==> call_ensures(
                *old(elem),
                (at_3(base, i1, i2, i3),),
                #[trigger] res@[i3 as int]@[i2 as int]@[i1 as int],
            ),
{
    let mut items: Vec<[[T; N1]; N2]> = Vec::with_capacity(N3);
    let mut next: usize = 0;
    while next < N3
        invariant
            3 <= D,
            next <= N3,
            *elem == *old(elem),
            items@.len() == next,
            forall|i1: usize, i2: usize, i3: usize|
                i1 < N1 && i2 < N2 && i3 < N3 ==> call_requires(
                    *elem,
                    (#[trigger] at_3(base, i1, i2, i3),),
                ),
            forall|i1: usize, i2: usize, i3: usize|
                i1 < N1 && i2 < N2 && i3 < next ==> call_ensures(
                    *elem,
                    (at_3(base, i1, i2, i3),),
                    #[trigger] items@[i3 as int]@[i2 as int]@[i1 as int],
                ),
        decreases N3 - next,
    {
        let mut inner = base;
        inner[2] = next;
        assert(inner =~= spec_array_update(base, 2, next));
        assert forall|i1: usize, i2: usize|
            i1 < N1 && i2 < N2 implies call_requires(
            *elem,
            (#[trigger] at_2(inner, i1, i2),),
        ) by {
            assert(at_2(inner, i1, i2) == at_3(base, i1, i2, next));
        }
        let item = fill_2::<T, F, D, N1, N2>(elem, inner);
        items.push(item);
        next += 1;
    }
    array_of(items)
}

/// Builds a grid of four dimensions as `N4` grids of three, in ascending
/// order of the fourth position.
pub fn fill_4<
    T,
    F: FnMut([usize; D]) -> T,
    const D: usize,
    const N1: usize,
    const N2: usize,
    const N3: usize,
    const N4: usize,
>(elem: &mut F, base: [usize; D]) -> (res: [[[[T; N1]; N2]; N3]; N4])
    requires
        4 <= D,
        forall|i1: usize, i2: usize, i3: usize, i4: usize|
            i1 < N1 && i2 < N2 && i3 < N3 && i4 < N4 ==> call_requires(
                *old(elem),
                (#[trigger] at_4(base, i1, i2, i3, i4),),
            ),
    ensures
        *final(elem) == *old(elem),
        forall|i1: usize, i2: usize, i3: usize, i4: usize|
            i1 < N1 && i2 < N2 && i3 < N3 && i4 < N4 ==> call_ensures(
                *old(elem),
                (at_4(base, i1, i2, i3, i4),),
                #[trigger] res@[i4 as int]@[i3 as int]@[i2 as int]@[i1 as int],
            ),
{
    let mut items: Vec<[[[T; N1]; N2]; N3]> = Vec::with_capacity(N4);
    let mut next: usize = 0;
    while next < N4
        invariant
            4 <= D,
            next <= N4,
            *elem == *old(elem),
            items@.len() == next,
            forall|i1: usize, i2: usize, i3: usize, i4: usize|
                i1 < N1 && i2 < N2 && i3 < N3 && i4 < N4 ==> call_requires(
                    *elem,
                    (#[trigger] at_4(base, i1, i2, i3, i4),),
                ),
            forall|i1: usize, i2: usize, i3: usize, i4: usize|
                i1 < N1 && i2 < N2 && i3 < N3 && i4 < next ==> call_ensures(
                    *elem,
                    (at_4(base, i1, i2, i3, i4),),
                    #[trigger] items@[i4 as int]@[i3 as int]@[i2 as int]@[i1 as int],
                ),
        decreases N4 - next,
    {
        let mut inner = base;
        inner[3] = next;
        assert(inner =~= spec_array_update(base, 3, next));
        assert forall|i1: usize, i2: usize, i3: usize|
            i1 < N1 && i2 < N2 && i3 < N3 implies call_requires(
            *elem,
            (#[trigger] at_3(inner, i1, i2, i3),),
        ) by {
            assert(at_3(inner, i1, i2, i3) == at_4(base, i1, i2, i3, next));
        }
        let item = fill_3::<T, F, D, N1, N2, N3>(elem, inner);
        items.push(item);
        next += 1;
    }
    array_of(items)
}

/// Builds a grid of five dimensions as `N5` grids of four, in ascending
/// order of the fifth position.
pub fn fill_5<
    T,
    F: FnMut([usize; D]) -> T,
    const D: usize,
    const N1: usize,
    const N2: usize,
    const N3: usize,
    const N4: usize,
    const N5: usize,
>(elem: &mut F, base: [usize; D]) -> (res: [[[[[T; N1]; N2]; N3]; N4]; N5])
    requires
        5 <= D,
        forall|i1: usize, i2: usize, i3: usize, i4: usize, i5: usize|
            i1 < N1 && i2 < N2 && i3 < N3 && i4 < N4 && i5 < N5 ==> call_requires(
                *old(elem),
                (#[trigger] at_5(base, i1, i2, i3, i4, i5),),
            ),
    ensures
        *final(elem) == *old(elem),
        forall|i1: usize, i2: usize, i3: usize, i4: usize, i5: usize|
            i1 < N1 && i2 < N2 && i3 < N3 && i4 < N4 && i5 < N5 ==> call_ensures(
                *old(elem),
                (at_5(base, i1, i2, i3, i4, i5),),
                #[trigger] res@[i5 as int]@[i4 as int]@[i3 as int]@[i2 as int]@[i1 as int],
            ),
{
    let mut items: Vec<[[[[T; N1]; N2]; N3]; N4]> = Vec::with_capacity(N5);
    let mut next: usize = 0;
    while next < N5
        invariant
            5 <= D,
            next <= N5,
            *elem == *old(elem),
            items@.len() == next,
            forall|i1: usize, i2: usize, i3: usize, i4: usize, i5: usize|
                i1 < N1 && i2 < N2 && i3 < N3 && i4 < N4 && i5 < N5 ==> call_requires(
                    *elem,
                    (#[trigger] at_5(base, i1, i2, i3, i4, i5),),
                ),
            forall|i1: usize, i2: usize, i3: usize, i4: usize, i5: usize|
                i1 < N1 && i2 < N2 && i3 < N3 && i4 < N4 && i5 < next ==> call_ensures(
                    *elem,
                    (at_5(base, i1, i2, i3, i4, i5),),
                    #[trigger] items@[i5 as int]@[i4 as int]@[i3 as int]@[i2 as int]@[i1 as int],
                ),
        decreases N5 - next,
    {
        let mut inner = base;
        inner[4] = next;
        assert(inner =~= spec_array_update(base, 4, next));
        assert forall|i1: usize, i2: usize, i3: usize, i4: usize|
            i1 < N1 && i2 < N2 && i3 < N3 && i4 < N4 implies call_requires(
            *elem,
            (#[trigger] at_4(inner, i1, i2, i3, i4),),
        ) by {
            assert(at_4(inner, i1, i2, i3, i4) == at_5(base, i1, i2, i3, i4, next));
        }
        let item = fill_4::<T, F, D, N1, N2, N3, N4>(elem, inner);
        items.push(item);
        next += 1;
    }
    array_of(items)
}

/// Builds a grid of six dimensions as `N6` grids of five, in ascending
/// order of the sixth position.
pub fn fill_6<
    T,
    F: FnMut([usize; D]) -> T,
    const D: usize,
    const N1: usize,
    const N2: usize,
    const N3: usize,
    const N4: usize,
    const N5: usize,
    const N6: usize,
>(elem: &mut F, base: [usize; D]) -> (res: [[[[[[T; N1]; N2]; N3]; N4]; N5]; N6])
    requires
        6 <= D,
        forall|i1: usize, i2: usize, i3: usize, i4: usize, i5: usize, i6: usize|
            i1 < N1 && i2 < N2 && i3 < N3 && i4 < N4 && i5 < N5 && i6 < N6 ==> call_requires(
                *old(elem),
                (#[trigger] at_6(base, i1, i2, i3, i4, i5, i6),),
            ),
    ensures
        *final(elem) == *old(elem),
        forall|i1: usize, i2: usize, i3: usize, i4: usize, i5: usize, i6: usize|
            i1 < N1 && i2 < N2 && i3 < N3 && i4 < N4 && i5 < N5 && i6 < N6 ==> call_ensures(
                *old(elem),
                (at_6(base, i1, i2, i3, i4, i5, i6),),
                #[trigger] res@[i6 as int]@[i5 as int]@[i4 as int]
                    @[i3 as int]@[i2 as int]@[i1 as int],
            ),
{
    let mut items: Vec<[[[[[T; N1]; N2]; N3]; N4]; N5]> = Vec::with_capacity(N6);
    let mut next: usize = 0;
    while next < N6
        invariant
            6 <= D,
            next <= N6,
            *elem == *old(elem),
            items@.len() == next,
            forall|i1: usize, i2: usize, i3: usize, i4: usize, i5: usize, i6: usize|
                i1 < N1 && i2 < N2 && i3 < N3 && i4 < N4 && i5 < N5 && i6 < N6 ==> call_requires(
                    *elem,
                    (#[trigger] at_6(base, i1, i2, i3, i4, i5, i6),),
                ),
            forall|i1: usize, i2: usize, i3: usize, i4: usize, i5: usize, i6: usize|
                i1 < N1 && i2 < N2 && i3 < N3 && i4 < N4 && i5 < N5 && i6 < next ==> call_ensures(
                    *elem,
                    (at_6(base, i1, i2, i3, i4, i5, i6),),
                    #[trigger] items@[i6 as int]@[i5 as int]@[i4 as int]
                        @[i3 as int]@[i2 as int]@[i1 as int],
                ),
        decreases N6 - next,
    {
        let mut inner = base;
        inner[5] = next;
        assert(inner =~= spec_array_update(base, 5, next));
        assert forall|i1: usize, i2: usize, i3: usize, i4: usize, i5: usize|
            i1 < N1 && i2 < N2 && i3 < N3 && i4 < N4 && i5 < N5 implies call_requires(
            *elem,
            (#[trigger] at_5(inner, i1, i2, i3, i4, i5),),
        ) by {
            assert(at_5(inner, i1, i2, i3, i4, i5) == at_6(base, i1, i2, i3, i4, i5, next));
        }
        let item = fill_5::<T, F, D, N1, N2, N3, N4, N5>(elem, inner);
        items.push(item);
        next += 1;
    }
    array_of(items)
}

impl<T, const N1: usize, const N2: usize> Init<T, [usize; 2]> for [[T; N1]; N2] {
    /// Each position lies below the length of its dimension, the innermost
    /// dimension first.
    open spec fn valid_index(value: (), index: [usize; 2]) -> bool {
        index@[0] < N1 && index@[1] < N2
    }

    /// The type fixes the shape.
    open spec fn shaped_by(&self, value: ()) -> bool {
        true
    }

    /// The last position of `index` picks among the outermost arrays, the
    /// first among the elements of an innermost one.
    open spec fn item_at(&self, index: [usize; 2]) -> T {
        self@[index@[1] as int]@[index@[0] as int]
    }

    /// Builds the outermost array slot by slot, each slot a grid of one
    /// dimension less, and hands `elem` the positions of all two dimensions.
    fn init_with<F: FnMut([usize; 2]) -> T>(value: (), elem: F) -> (res: Self) {
        let mut generator = elem;
        let base: [usize; 2] = [0, 0];
        assert forall|i1: usize, i2: usize| i1 < N1 && i2 < N2 implies call_requires(
            generator,
            (#[trigger] at_2(base, i1, i2),),
        ) by {
            assert(Self::valid_index((), at_2(base, i1, i2)));
        }
        let res = fill_2::<T, F, 2, N1, N2>(&mut generator, base);
        assert forall|index: [usize; 2]| Self::valid_index((), index) implies call_ensures(
            elem,
            (index,),
            #[trigger] res.item_at(index),
        ) by {
            assert(index =~= at_2(base, index@[0], index@[1]));
        }
        res
    }
}

impl<
    T,
    const N1: usize,
    const N2: usize,
    const N3: usize,
> Init<T, [usize; 3]> for [[[T; N1]; N2]; N3] {
    /// Each position lies below the length of its dimension, the innermost
    /// dimension first.
    open spec fn valid_index(value: (), index: [usize; 3]) -> bool {
        index@[0] < N1 && index@[1] < N2 && index@[2] < N3
    }

    /// The type fixes the shape.
    open spec fn shaped_by(&self, value: ()) -> bool {
        true
    }

    /// The last position of `index` picks among the outermost arrays, the
    /// first among the elements of an innermost one.
    open spec fn item_at(&self, index: [usize; 3]) -> T {
        self@[index@[2] as int]@[index@[1] as int]@[index@[0] as int]
    }

    /// Builds the outermost array slot by slot, each slot a grid of one
    /// dimension less, and hands `elem` the positions of all three dimensions.
    fn init_with<F: FnMut([usize; 3]) -> T>(value: (), elem: F) -> (res: Self) {
        let mut generator = elem;
        let base: [usize; 3] = [0, 0, 0];
        assert forall|i1: usize, i2: usize, i3: usize|
            i1 < N1 && i2 < N2 && i3 < N3 implies call_requires(
            generator,
            (#[trigger] at_3(base, i1, i2, i3),),
        ) by {
            assert(Self::valid_index((), at_3(base, i1, i2, i3)));
        }
        let res = fill_3::<T, F, 3, N1, N2, N3>(&mut generator, base);
        assert forall|index: [usize; 3]| Self::valid_index((), index) implies call_ensures(
            elem,
            (index,),
            #[trigger] res.item_at(index),
        ) by {
            assert(index =~= at_3(base, index@[0], index@[1], index@[2]));
        }
        res
    }
}

impl<
    T,
    const N1: usize,
    const N2: usize,
    const N3: usize,
    const N4: usize,
> Init<T, [usize; 4]> for [[[[T; N1]; N2]; N3]; N4] {
    /// Each position lies below the length of its dimension, the innermost
    /// dimension first.
    open spec fn valid_index(value: (), index: [usize; 4]) -> bool {
        index@[0] < N1 && index@[1] < N2 && index@[2] < N3 && index@[3] < N4
    }

    /// The type fixes the shape.
    open spec fn shaped_by(&self, value: ()) -> bool {
        true
    }

    /// The last position of `index` picks among the outermost arrays, the
    /// first among the elements of an innermost one.
    open spec fn item_at(&self, index: [usize; 4]) -> T {
        self@[index@[3] as int]@[index@[2] as int]@[index@[1] as int]@[index@[0] as int]
    }

    /// Builds the outermost array slot by slot, each slot a grid of one
    /// dimension less, and hands `elem` the positions of all four dimensions.
    fn init_with<F: FnMut([usize; 4]) -> T>(value: (), elem: F) -> (res: Self) {
        let mut generator = elem;
        let base: [usize; 4] = [0, 0, 0, 0];
        assert forall|i1: usize, i2: usize, i3: usize, i4: usize|
            i1 < N1 && i2 < N2 && i3 < N3 && i4 < N4 implies call_requires(
            generator,
            (#[trigger] at_4(base, i1, i2, i3, i4),),
        ) by {
            assert(Self::valid_index((), at_4(base, i1, i2, i3, i4)));
        }
        let res = fill_4::<T, F, 4, N1, N2, N3, N4>(&mut generator, base);
        assert forall|index: [usize; 4]| Self::valid_index((), index) implies call_ensures(
            elem,
            (index,),
            #[trigger] res.item_at(index),
        ) by {
            assert(index =~= at_4(base, index@[0], index@[1], index@[2], index@[3]));
        }
        res
    }
}

impl<
    T,
    const N1: usize,
    const N2: usize,
    const N3: usize,
    const N4: usize,
    const N5: usize,
> Init<T, [usize; 5]> for [[[[[T; N1]; N2]; N3]; N4]; N5] {
    /// Each position lies below the length of its dimension, the innermost
    /// dimension first.
    open spec fn valid_index(value: (), index: [usize; 5]) -> bool {
        index@[0] < N1 && index@[1] < N2 && index@[2] < N3 && index@[3] < N4 && index@[4] < N5
    }

    /// The type fixes the shape.
    open spec fn shaped_by(&self, value: ()) -> bool {
        true
    }

    /// The last position of `index` picks among the outermost arrays, the
    /// first among the elements of an innermost one.
    open spec fn item_at(&self, index: [usize; 5]) -> T {
        self@[index@[4] as int]@[index@[3] as int]@[index@[2] as int]
            @[index@[1] as int]@[index@[0] as int]
    }

    /// Builds the outermost array slot by slot, each slot a grid of one
    /// dimension less, and hands `elem` the positions of all five dimensions.
    fn init_with<F: FnMut([usize; 5]) -> T>(value: (), elem: F) -> (res: Self) {
        let mut generator = elem;
        let base: [usize; 5] = [0, 0, 0, 0, 0];
        assert forall|i1: usize, i2: usize, i3: usize, i4: usize, i5: usize|
            i1 < N1 && i2 < N2 && i3 < N3 && i4 < N4 && i5 < N5 implies call_requires(
            generator,
            (#[trigger] at_5(base, i1, i2, i3, i4, i5),),
        ) by {
            assert(Self::valid_index((), at_5(base, i1, i2, i3, i4, i5)));
        }
        let res = fill_5::<T, F, 5, N1, N2, N3, N4, N5>(&mut generator, base);
        assert forall|index: [usize; 5]| Self::valid_index((), index) implies call_ensures(
            elem,
            (index,),
            #[trigger] res.item_at(index),
        ) by {
            assert(index =~= at_5(base, index@[0], index@[1], index@[2], index@[3], index@[4]));
        }
        res
    }
}

impl<
    T,
    const N1: usize,
    const N2: usize,
    const N3: usize,
    const N4: usize,
    const N5: usize,
    const N6: usize,
> Init<T, [usize; 6]> for [[[[[[T; N1]; N2]; N3]; N4]; N5]; N6] {
    /// Each position lies below the length of its dimension, the innermost
    /// dimension first.
    open spec fn valid_index(value: (), index: [usize; 6]) -> bool {
        index@[0] < N1 && index@[1] < N2 && index@[2] < N3
            && index@[3] < N4 && index@[4] < N5 && index@[5] < N6
    }

    /// The type fixes the shape.
    open spec fn shaped_by(&self, value: ()) -> bool {
        true
    }

    /// The last position of `index` picks among the outermost arrays, the
    /// first among the elements of an innermost one.
    open spec fn item_at(&self, index: [usize; 6]) -> T {
        self@[index@[5] as int]@[index@[4] as int]@[index@[3] as int]
            @[index@[2] as int]@[index@[1] as int]@[index@[0] as int]
    }

    /// Builds the outermost array slot by slot, each slot a grid of one
    /// dimension less, and hands `elem` the positions of all six dimensions.
    fn init_with<F: FnMut([usize; 6]) -> T>(value: (), elem: F) -> (res: Self) {
        let mut generator = elem;
        let base: [usize; 6] = [0, 0, 0, 0, 0, 0];
        assert forall|i1: usize, i2: usize, i3: usize, i4: usize, i5: usize, i6: usize|
            i1 < N1 && i2 < N2 && i3 < N3 && i4 < N4 && i5 < N5 && i6 < N6 implies call_requires(
            generator,
            (#[trigger] at_6(base, i1, i2, i3, i4, i5, i6),),
        ) by {
            assert(Self::valid_index((), at_6(base, i1, i2, i3, i4, i5, i6)));
        }
        let res = fill_6::<T, F, 6, N1, N2, N3, N4, N5, N6>(&mut generator, base);
        assert forall|index: [usize; 6]| Self::valid_index((), index) implies call_ensures(
            elem,
            (index,),
            #[trigger] res.item_at(index),
        ) by {
            assert(index =~= at_6(
                base,
                index@[0],
                index@[1],
                index@[2],
                index@[3],
                index@[4],
                index@[5],
            ));
        }
        res
    }
}

} // verus!
