pub mod tuples;

use vstd::prelude::*;

verus! {

/// A type whose values can be taken out of a `Registry`.
///
/// A registry is any container from which data is picked by its type. A type
/// says here when a registry holds what it needs and which values may come
/// out of it.
pub trait FromRegistry<Registry>: Sized {
    /// `registry` holds what a value of this type is made from. Unless a type
    /// says otherwise, every registry does.
    open spec fn available(registry: &Registry) -> bool {
        true
    }

    /// `value` is what `registry` holds for this type. Unless a type says
    /// otherwise, nothing is known of the value.
    open spec fn extracted(registry: &Registry, value: Self) -> bool {
        true
    }

    /// Takes the value of this type out of `registry`.
    fn from(registry: &Registry) -> (value: Self)
        requires
            Self::available(registry),
        ensures
            Self::extracted(registry, value),
    ;
}

impl<Registry> FromRegistry<Registry> for () {
    open spec fn available(registry: &Registry) -> bool {
        true
    }

    open spec fn extracted(registry: &Registry, value: ()) -> bool {
        true
    }

    fn from(_registry: &Registry) -> Self {
        ()
    }
}

impl<A: FromRegistry<Registry>, Registry> FromRegistry<Registry> for (A,) {
    open spec fn available(registry: &Registry) -> bool {
        A::available(registry)
    }

    open spec fn extracted(registry: &Registry, value: (A,)) -> bool {
        A::extracted(registry, value.0)
    }

    fn from(registry: &Registry) -> Self {
        (A::from(registry),)
    }
}

} // verus!
