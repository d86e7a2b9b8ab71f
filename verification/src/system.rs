//! Functions that are called with a registry alone.
//!
//! A registry is a container from which data is picked by its type. A system
//! is any function whose arguments can each be taken out of a registry: given
//! the registry, the arguments are found and the function is called with
//! them.
pub mod functions;
pub mod tuples;

use vstd::prelude::*;

verus! {

/// A type whose values can be taken out of a `Registry`.
pub trait FromRegistry<Registry>: Sized {
    /// `registry` holds what a value of this type is made from. Unless a type
    /// says otherwise, every registry does.
    open spec fn available(registry: &Registry) -> bool {
        true
    }

    /// `value` is what `registry` holds for this type. Unless a type says
    /// otherwise, nothing is known of the value.
    open spec fn extracted(registry: &Registry, value: Self) -> bool {
        true
    }

    /// Takes the value of this type out of `registry`.
    fn from_registry(registry: &Registry) -> (value: Self)
        requires
            Self::available(registry),
        ensures
            Self::extracted(registry, value),
    ;
}

/// The function can be applied to what `registry` holds: its arguments are
/// available there, and it may be called with whatever comes out.
pub open spec fn applicable<
    Registry,
    Args: FromRegistry<Registry>,
    Return,
    Func: FnWithRequiresEnsures<Args, Return>,
>(func: Func, registry: &Registry) -> bool {
    &&& Args::available(registry)
    &&& forall|args: Args| #[trigger] Args::extracted(registry, args) ==> func.requires(args)
}

/// `ret` is a result of the function on arguments taken out of `registry`.
pub open spec fn applied<
    Registry,
    Args: FromRegistry<Registry>,
    Return,
    Func: FnWithRequiresEnsures<Args, Return>,
>(func: Func, registry: &Registry, ret: Return) -> bool {
    exists|args: Args| #[trigger] Args::extracted(registry, args) && func.ensures(args, ret)
}

/// A function that can be called with a registry in place of its arguments.
///
/// Every function and closure of up to 15 arguments is a system, provided
/// that each argument type can be taken out of the registry.
pub trait System<Registry, Args: FromRegistry<Registry>> {
    type Return;

    /// The system may be applied to `registry`. Unless a system says
    /// otherwise, it takes any registry.
    open spec fn applies_to(&self, registry: &Registry) -> bool {
        true
    }

    /// `ret` is a result that applying the system to `registry` may give.
    /// Unless a system says otherwise, nothing is known of its results.
    open spec fn results_in(&self, registry: &Registry, ret: Self::Return) -> bool {
        true
    }

    /// Takes each argument out of `registry` and calls the function.
    fn apply(&self, registry: &Registry) -> (ret: Self::Return)
        requires
            self.applies_to(registry),
        ensures
            self.results_in(registry, ret),
    ;
}

impl<Registry> FromRegistry<Registry> for () {
    open spec fn available(registry: &Registry) -> bool {
        true
    }

    open spec fn extracted(registry: &Registry, value: ()) -> bool {
        true
    }

    fn from_registry(_registry: &Registry) -> Self {
        ()
    }
}

impl<Registry, Func, FnReturnType> System<Registry, ()> for Func where Func: Fn() -> FnReturnType {
    type Return = FnReturnType;

    open spec fn applies_to(&self, registry: &Registry) -> bool {
        applicable::<Registry, (), FnReturnType, Func>(*self, registry)
    }

    open spec fn results_in(&self, registry: &Registry, ret: FnReturnType) -> bool {
        applied::<Registry, (), FnReturnType, Func>(*self, registry, ret)
    }

    fn apply(&self, registry: &Registry) -> FnReturnType {
        assert(<() as FromRegistry<Registry>>::extracted(registry, ()));
        (self)()
    }
}

impl<A: FromRegistry<Registry>, Registry> FromRegistry<Registry> for (A,) {
    open spec fn available(registry: &Registry) -> bool {
        A::available(registry)
    }

    open spec fn extracted(registry: &Registry, value: (A,)) -> bool {
        A::extracted(registry, value.0)
    }

    fn from_registry(registry: &Registry) -> Self {
        (A::from_registry(registry),)
    }
}

impl<Registry, Func, A: FromRegistry<Registry>, FnReturnType> System<Registry, (A,)> for Func where
    Func: Fn(A) -> FnReturnType,
 {
    type Return = FnReturnType;

    open spec fn applies_to(&self, registry: &Registry) -> bool {
        applicable::<Registry, (A,), FnReturnType, Func>(*self, registry)
    }

    open spec fn results_in(&self, registry: &Registry, ret: FnReturnType) -> bool {
        applied::<Registry, (A,), FnReturnType, Func>(*self, registry, ret)
    }

    fn apply(&self, registry: &Registry) -> FnReturnType {
        let a = A::from_registry(registry);
        assert(<(A,) as FromRegistry<Registry>>::extracted(registry, (a,)));
        (self)(a)
    }
}

} // verus!
