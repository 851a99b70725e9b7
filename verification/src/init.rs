//! The `Init` trait and what holds of every container built through it.
use vstd::prelude::*;
use crate::type_equals::TypeEquals;

verus! {

/// Types which can be initialised by applying a function to each 'index' of the type.
///
/// `T` is the element type, `I` the index type and `V` the further value
/// that a construction needs (`()` where the type alone fixes the shape).
pub trait Init<T, I, V = ()>: Sized {
    /// Whether `index` names a slot of a container built from `value`.
    spec fn valid_index(value: V, index: I) -> bool;

    /// Whether this container has the shape that `value` asks for.
    spec fn shaped_by(&self, value: V) -> bool;

    /// The element that this container holds at `index`.
    spec fn item_at(&self, index: I) -> T;

    /// Initialise an instance of this type using `value` by applying `elem` to each 'index' of the type.
    ///
    /// `elem` is only ever called on valid indices, so it needs to accept
    /// no others. Every slot of the result holds a value that `elem` may
    /// return for that slot's index.
    fn init_with<F: FnMut(I) -> T>(value: V, elem: F) -> (res: Self)
        requires
            forall|index: I|
                Self::valid_index(value, index) ==> #[trigger] call_requires(elem, (index,)),
        ensures
            res.shaped_by(value),
            forall|index: I|
                #![trigger Self::valid_index(value, index)]
                #![trigger res.item_at(index)]
                Self::valid_index(value, index) ==> call_ensures(
                    elem,
                    (index,),
                    res.item_at(index),
                ),
    ;

    /// Initialise an instance of this type by applying `elem` to each 'index' of the type.
    ///
    /// This is syntax sugar for `init_with((), elem)`.
    fn init<F: FnMut(I) -> T>(elem: F) -> (res: Self) where V: TypeEquals<()>
        requires
            forall|index: I|
                Self::valid_index(V::cast_spec(()), index) ==> #[trigger] call_requires(
                    elem,
                    (index,),
                ),
        ensures
            res.shaped_by(V::cast_spec(())),
            forall|index: I|
                #![trigger Self::valid_index(V::cast_spec(()), index)]
                #![trigger res.item_at(index)]
                Self::valid_index(V::cast_spec(()), index) ==> call_ensures(
                    elem,
                    (index,),
                    res.item_at(index),
                ),
    {
        Self::init_with(V::cast(()), elem)
    }
}

/// A generator that can return only one value for each valid index fixes
/// the container: whatever was built from it by `init_with` holds
/// `expected(index)` at every valid index.
pub proof fn lemma_deterministic_generator<T, I, V, C: Init<T, I, V>, F: FnMut(I) -> T>(
    value: V,
    elem: F,
    res: C,
    expected: spec_fn(I) -> T,
)
    requires
        forall|index: I|
            C::valid_index(value, index) ==> call_ensures(
                elem,
                (index,),
                #[trigger] res.item_at(index),
            ),
        forall|index: I, item: T|
            C::valid_index(value, index) && #[trigger] call_ensures(elem, (index,), item)
                ==> item == expected(index),
    ensures
        forall|index: I|
            C::valid_index(value, index) ==> #[trigger] res.item_at(index) == expected(index),
{
}

/// Two containers built by `init_with` from the same value and the same
/// generator hold the same element at each valid index, where the generator
/// can return only one value for each.
pub proof fn lemma_same_generator_same_items<T, I, V, C: Init<T, I, V>, F: FnMut(I) -> T>(
    value: V,
    elem: F,
    first: C,
    second: C,
)
    requires
        forall|index: I|
            C::valid_index(value, index) ==> call_ensures(
                elem,
                (index,),
                #[trigger] first.item_at(index),
            ),
        forall|index: I|
            C::valid_index(value, index) ==> call_ensures(
                elem,
                (index,),
                #[trigger] second.item_at(index),
            ),
        forall|index: I, one: T, other: T|
            C::valid_index(value, index) && #[trigger] call_ensures(elem, (index,), one)
                && #[trigger] call_ensures(elem, (index,), other) ==> one == other,
    ensures
        forall|index: I|
            #![trigger first.item_at(index)]
            #![trigger second.item_at(index)]
            C::valid_index(value, index) ==> first.item_at(index) == second.item_at(index),
{
}

/// Reading back is a function of the container and the index alone: two
/// reads of one index of one container give one value.
pub proof fn lemma_read_back_is_stable<T, I, V, C: Init<T, I, V>>(
    container: C,
    first: I,
    second: I,
)
    requires
        first == second,
    ensures
        container.item_at(first) == container.item_at(second),
{
}

} // verus!
