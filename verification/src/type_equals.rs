//! A bound that holds of a type parameter exactly when it is a given type.
use vstd::prelude::*;

verus! {

/// `V: TypeEquals<T>` holds only where `V` is `T`, and lets a value of `T`
/// be used as a `V`. The one impl is the one below: the module is private,
/// so no other crate can add to it.
pub trait TypeEquals<T>: Sized {
    /// The value of `Self` that `value` is.
    spec fn cast_spec(value: T) -> Self;

    /// Hands `value` back under the type `Self`.
    fn cast(value: T) -> (res: Self)
        ensures
            res == Self::cast_spec(value),
    ;
}

impl<T> TypeEquals<T> for T {
    open spec fn cast_spec(value: T) -> T {
        value
    }

    fn cast(value: T) -> (res: T) {
        value
    }
}

} // verus!
