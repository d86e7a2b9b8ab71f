//! Functions and closures of 2 to 15 arguments as systems.
use super::{applicable, applied, FromRegistry, System};
use vstd::prelude::*;

verus! {

impl<
    Registry,
    Func,
    FnReturnType,
    A: FromRegistry<Registry>,
    B: FromRegistry<Registry>,
> System<Registry, (A, B)> for Func where
    Func: Fn(A, B) -> FnReturnType,
 {
    type Return = FnReturnType;

    open spec fn applies_to(&self, registry: &Registry) -> bool {
        applicable::<Registry, (A, B), FnReturnType, Func>(*self, registry)
    }

    open spec fn results_in(&self, registry: &Registry, ret: FnReturnType) -> bool {
        applied::<Registry, (A, B), FnReturnType, Func>(*self, registry, ret)
    }

    fn apply(&self, registry: &Registry) -> FnReturnType {
        let args: (A, B) = FromRegistry::from_registry(registry);
        (self)(args.0, args.1)
    }
}

impl<
    Registry,
    Func,
    FnReturnType,
    A: FromRegistry<Registry>,
    B: FromRegistry<Registry>,
    C: FromRegistry<Registry>,
> System<Registry, (A, B, C)> for Func where
    Func: Fn(A, B, C) -> FnReturnType,
 {
    type Return = FnReturnType;

    open spec fn applies_to(&self, registry: &Registry) -> bool {
        applicable::<Registry, (A, B, C), FnReturnType, Func>(*self, registry)
    }

    open spec fn results_in(&self, registry: &Registry, ret: FnReturnType) -> bool {
        applied::<Registry, (A, B, C), FnReturnType, Func>(*self, registry, ret)
    }

    fn apply(&self, registry: &Registry) -> FnReturnType {
        let args: (A, B, C) = FromRegistry::from_registry(registry);
        (self)(args.0, args.1, args.2)
    }
}

impl<
    Registry,
    Func,
    FnReturnType,
    A: FromRegistry<Registry>,
    B: FromRegistry<Registry>,
    C: FromRegistry<Registry>,
    D: FromRegistry<Registry>,
> System<Registry, (A, B, C, D)> for Func where
    Func: Fn(A, B, C, D) -> FnReturnType,
 {
    type Return = FnReturnType;

    open spec fn applies_to(&self, registry: &Registry) -> bool {
        applicable::<Registry, (A, B, C, D), FnReturnType, Func>(*self, registry)
    }

    open spec fn results_in(&self, registry: &Registry, ret: FnReturnType) -> bool {
        applied::<Registry, (A, B, C, D), FnReturnType, Func>(*self, registry, ret)
    }

    fn apply(&self, registry: &Registry) -> FnReturnType {
        let args: (A, B, C, D) = FromRegistry::from_registry(registry);
        (self)(args.0, args.1, args.2, args.3)
    }
}

impl<
    Registry,
    Func,
    FnReturnType,
    A: FromRegistry<Registry>,
    B: FromRegistry<Registry>,
    C: FromRegistry<Registry>,
    D: FromRegistry<Registry>,
    E: FromRegistry<Registry>,
> System<Registry, (A, B, C, D, E)> for Func where
    Func: Fn(A, B, C, D, E) -> FnReturnType,
 {
    type Return = FnReturnType;

    open spec fn applies_to(&self, registry: &Registry) -> bool {
        applicable::<Registry, (A, B, C, D, E), FnReturnType, Func>(*self, registry)
    }

    open spec fn results_in(&self, registry: &Registry, ret: FnReturnType) -> bool {
        applied::<Registry, (A, B, C, D, E), FnReturnType, Func>(*self, registry, ret)
    }

    fn apply(&self, registry: &Registry) -> FnReturnType {
        let args: (A, B, C, D, E) = FromRegistry::from_registry(registry);
        (self)(args.0, args.1, args.2, args.3, args.4)
    }
}

impl<
    Registry,
    Func,
    FnReturnType,
    A: FromRegistry<Registry>,
    B: FromRegistry<Registry>,
    C: FromRegistry<Registry>,
    D: FromRegistry<Registry>,
    E: FromRegistry<Registry>,
    F: FromRegistry<Registry>,
> System<Registry, (A, B, C, D, E, F)> for Func where
    Func: Fn(A, B, C, D, E, F) -> FnReturnType,
 {
    type Return = FnReturnType;

    open spec fn applies_to(&self, registry: &Registry) -> bool {
        applicable::<Registry, (A, B, C, D, E, F), FnReturnType, Func>(*self, registry)
    }

    open spec fn results_in(&self, registry: &Registry, ret: FnReturnType) -> bool {
        applied::<Registry, (A, B, C, D, E, F), FnReturnType, Func>(*self, registry, ret)
    }

    fn apply(&self, registry: &Registry) -> FnReturnType {
        let args: (A, B, C, D, E, F) = FromRegistry::from_registry(registry);
        (self)(args.0, args.1, args.2, args.3, args.4, args.5)
    }
}

impl<
    Registry,
    Func,
    FnReturnType,
    A: FromRegistry<Registry>,
    B: FromRegistry<Registry>,
    C: FromRegistry<Registry>,
    D: FromRegistry<Registry>,
    E: FromRegistry<Registry>,
    F: FromRegistry<Registry>,
    G: FromRegistry<Registry>,
> System<Registry, (A, B, C, D, E, F, G)> for Func where
    Func: Fn(A, B, C, D, E, F, G) -> FnReturnType,
 {
    type Return = FnReturnType;

    open spec fn applies_to(&self, registry: &Registry) -> bool {
        applicable::<Registry, (A, B, C, D, E, F, G), FnReturnType, Func>(*self, registry)
    }

    open spec fn results_in(&self, registry: &Registry, ret: FnReturnType) -> bool {
        applied::<Registry, (A, B, C, D, E, F, G), FnReturnType, Func>(*self, registry, ret)
    }

    fn apply(&self, registry: &Registry) -> FnReturnType {
        let args: (A, B, C, D, E, F, G) = FromRegistry::from_registry(registry);
        (self)(args.0, args.1, args.2, args.3, args.4, args.5, args.6)
    }
}

impl<
    Registry,
    Func,
    FnReturnType,
    A: FromRegistry<Registry>,
    B: FromRegistry<Registry>,
    C: FromRegistry<Registry>,
    D: FromRegistry<Registry>,
    E: FromRegistry<Registry>,
    F: FromRegistry<Registry>,
    G: FromRegistry<Registry>,
    H: FromRegistry<Registry>,
> System<Registry, (A, B, C, D, E, F, G, H)> for Func where
    Func: Fn(A, B, C, D, E, F, G, H) -> FnReturnType,
 {
    type Return = FnReturnType;

    open spec fn applies_to(&self, registry: &Registry) -> bool {
        applicable::<Registry, (A, B, C, D, E, F, G, H), FnReturnType, Func>(*self, registry)
    }

    open spec fn results_in(&self, registry: &Registry, ret: FnReturnType) -> bool {
        applied::<Registry, (A, B, C, D, E, F, G, H), FnReturnType, Func>(*self, registry, ret)
    }

    fn apply(&self, registry: &Registry) -> FnReturnType {
        let args: (A, B, C, D, E, F, G, H) = FromRegistry::from_registry(registry);
        (self)(args.0, args.1, args.2, args.3, args.4, args.5, args.6, args.7)
    }
}

impl<
    Registry,
    Func,
    FnReturnType,
    A: FromRegistry<Registry>,
    B: FromRegistry<Registry>,
    C: FromRegistry<Registry>,
    D: FromRegistry<Registry>,
    E: FromRegistry<Registry>,
    F: FromRegistry<Registry>,
    G: FromRegistry<Registry>,
    H: FromRegistry<Registry>,
    I: FromRegistry<Registry>,
> System<Registry, (A, B, C, D, E, F, G, H, I)> for Func where
    Func: Fn(A, B, C, D, E, F, G, H, I) -> FnReturnType,
 {
    type Return = FnReturnType;

    open spec fn applies_to(&self, registry: &Registry) -> bool {
        applicable::<Registry, (A, B, C, D, E, F, G, H, I), FnReturnType, Func>(*self, registry)
    }

    open spec fn results_in(&self, registry: &Registry, ret: FnReturnType) -> bool {
        applied::<Registry, (A, B, C, D, E, F, G, H, I), FnReturnType, Func>(*self, registry, ret)
    }

    fn apply(&self, registry: &Registry) -> FnReturnType {
        let args: (A, B, C, D, E, F, G, H, I) = FromRegistry::from_registry(registry);
        (self)(args.0, args.1, args.2, args.3, args.4, args.5, args.6, args.7, args.8)
    }
}

impl<
    Registry,
    Func,
    FnReturnType,
    A: FromRegistry<Registry>,
    B: FromRegistry<Registry>,
    C: FromRegistry<Registry>,
    D: FromRegistry<Registry>,
    E: FromRegistry<Registry>,
    F: FromRegistry<Registry>,
    G: FromRegistry<Registry>,
    H: FromRegistry<Registry>,
    I: FromRegistry<Registry>,
    J: FromRegistry<Registry>,
> System<Registry, (A, B, C, D, E, F, G, H, I, J)> for Func where
    Func: Fn(A, B, C, D, E, F, G, H, I, J) -> FnReturnType,
 {
    type Return = FnReturnType;

    open spec fn applies_to(&self, registry: &Registry) -> bool {
        applicable::<Registry, (A, B, C, D, E, F, G, H, I, J), FnReturnType, Func>(*self, registry)
    }

    open spec fn results_in(&self, registry: &Registry, ret: FnReturnType) -> bool {
        applied::<
            Registry,
            (A, B, C, D, E, F, G, H, I, J),
            FnReturnType,
            Func,
        >(*self, registry, ret)
    }

    fn apply(&self, registry: &Registry) -> FnReturnType {
        let args: (A, B, C, D, E, F, G, H, I, J) = FromRegistry::from_registry(registry);
        (self)(args.0, args.1, args.2, args.3, args.4, args.5, args.6, args.7, args.8, args.9)
    }
}

impl<
    Registry,
    Func,
    FnReturnType,
    A: FromRegistry<Registry>,
    B: FromRegistry<Registry>,
    C: FromRegistry<Registry>,
    D: FromRegistry<Registry>,
    E: FromRegistry<Registry>,
    F: FromRegistry<Registry>,
    G: FromRegistry<Registry>,
    H: FromRegistry<Registry>,
    I: FromRegistry<Registry>,
    J: FromRegistry<Registry>,
    K: FromRegistry<Registry>,
> System<Registry, (A, B, C, D, E, F, G, H, I, J, K)> for Func where
    Func: Fn(A, B, C, D, E, F, G, H, I, J, K) -> FnReturnType,
 {
    type Return = FnReturnType;

    open spec fn applies_to(&self, registry: &Registry) -> bool {
        applicable::<
            Registry,
            (A, B, C, D, E, F, G, H, I, J, K),
            FnReturnType,
            Func,
        >(*self, registry)
    }

    open spec fn results_in(&self, registry: &Registry, ret: FnReturnType) -> bool {
        applied::<
            Registry,
            (A, B, C, D, E, F, G, H, I, J, K),
            FnReturnType,
            Func,
        >(*self, registry, ret)
    }

    fn apply(&self, registry: &Registry) -> FnReturnType {
        let args: (A, B, C, D, E, F, G, H, I, J, K) = FromRegistry::from_registry(registry);
        (self)(
            args.0,
            args.1,
            args.2,
            args.3,
            args.4,
            args.5,
            args.6,
            args.7,
            args.8,
            args.9,
            args.10,
        )
    }
}

impl<
    Registry,
    Func,
    FnReturnType,
    A: FromRegistry<Registry>,
    B: FromRegistry<Registry>,
    C: FromRegistry<Registry>,
    D: FromRegistry<Registry>,
    E: FromRegistry<Registry>,
    F: FromRegistry<Registry>,
    G: FromRegistry<Registry>,
    H: FromRegistry<Registry>,
    I: FromRegistry<Registry>,
    J: FromRegistry<Registry>,
    K: FromRegistry<Registry>,
    L: FromRegistry<Registry>,
> System<Registry, (A, B, C, D, E, F, G, H, I, J, K, L)> for Func where
    Func: Fn(A, B, C, D, E, F, G, H, I, J, K, L) -> FnReturnType,
 {
    type Return = FnReturnType;

    open spec fn applies_to(&self, registry: &Registry) -> bool {
        applicable::<
            Registry,
            (A, B, C, D, E, F, G, H, I, J, K, L),
            FnReturnType,
            Func,
        >(*self, registry)
    }

    open spec fn results_in(&self, registry: &Registry, ret: FnReturnType) -> bool {
        applied::<
            Registry,
            (A, B, C, D, E, F, G, H, I, J, K, L),
            FnReturnType,
            Func,
        >(*self, registry, ret)
    }

    fn apply(&self, registry: &Registry) -> FnReturnType {
        let args: (A, B, C, D, E, F, G, H, I, J, K, L) = FromRegistry::from_registry(registry);
        (self)(
            args.0,
            args.1,
            args.2,
            args.3,
            args.4,
            args.5,
            args.6,
            args.7,
            args.8,
            args.9,
            args.10,
            args.11,
        )
    }
}

impl<
    Registry,
    Func,
    FnReturnType,
    A: FromRegistry<Registry>,
    B: FromRegistry<Registry>,
    C: FromRegistry<Registry>,
    D: FromRegistry<Registry>,
    E: FromRegistry<Registry>,
    F: FromRegistry<Registry>,
    G: FromRegistry<Registry>,
    H: FromRegistry<Registry>,
    I: FromRegistry<Registry>,
    J: FromRegistry<Registry>,
    K: FromRegistry<Registry>,
    L: FromRegistry<Registry>,
    M: FromRegistry<Registry>,
> System<Registry, (A, B, C, D, E, F, G, H, I, J, K, L, M)> for Func where
    Func: Fn(A, B, C, D, E, F, G, H, I, J, K, L, M) -> FnReturnType,
 {
    type Return = FnReturnType;

    open spec fn applies_to(&self, registry: &Registry) -> bool {
        applicable::<
            Registry,
            (A, B, C, D, E, F, G, H, I, J, K, L, M),
            FnReturnType,
            Func,
        >(*self, registry)
    }

    open spec fn results_in(&self, registry: &Registry, ret: FnReturnType) -> bool {
        applied::<
            Registry,
            (A, B, C, D, E, F, G, H, I, J, K, L, M),
            FnReturnType,
            Func,
        >(*self, registry, ret)
    }

    fn apply(&self, registry: &Registry) -> FnReturnType {
        let args: (A, B, C, D, E, F, G, H, I, J, K, L, M) = FromRegistry::from_registry(registry);
        (self)(
            args.0,
            args.1,
            args.2,
            args.3,
            args.4,
            args.5,
            args.6,
            args.7,
            args.8,
            args.9,
            args.10,
            args.11,
            args.12,
        )
    }
}

impl<
    Registry,
    Func,
    FnReturnType,
    A: FromRegistry<Registry>,
    B: FromRegistry<Registry>,
    C: FromRegistry<Registry>,
    D: FromRegistry<Registry>,
    E: FromRegistry<Registry>,
    F: FromRegistry<Registry>,
    G: FromRegistry<Registry>,
    H: FromRegistry<Registry>,
    I: FromRegistry<Registry>,
    J: FromRegistry<Registry>,
    K: FromRegistry<Registry>,
    L: FromRegistry<Registry>,
    M: FromRegistry<Registry>,
    N: FromRegistry<Registry>,
> System<Registry, (A, B, C, D, E, F, G, H, I, J, K, L, M, N)> for Func where
    Func: Fn(A, B, C, D, E, F, G, H, I, J, K, L, M, N) -> FnReturnType,
 {
    type Return = FnReturnType;

    open spec fn applies_to(&self, registry: &Registry) -> bool {
        applicable::<
            Registry,
            (A, B, C, D, E, F, G, H, I, J, K, L, M, N),
            FnReturnType,
            Func,
        >(*self, registry)
    }

    open spec fn results_in(&self, registry: &Registry, ret: FnReturnType) -> bool {
        applied::<
            Registry,
            (A, B, C, D, E, F, G, H, I, J, K, L, M, N),
            FnReturnType,
            Func,
        >(*self, registry, ret)
    }

    fn apply(&self, registry: &Registry) -> FnReturnType {
        let args: (A, B, C, D, E, F, G, H, I, J, K, L, M, N) =
            FromRegistry::from_registry(registry);
        (self)(
            args.0,
            args.1,
            args.2,
            args.3,
            args.4,
            args.5,
            args.6,
            args.7,
            args.8,
            args.9,
            args.10,
            args.11,
            args.12,
            args.13,
        )
    }
}

impl<
    Registry,
    Func,
    FnReturnType,
    A: FromRegistry<Registry>,
    B: FromRegistry<Registry>,
    C: FromRegistry<Registry>,
    D: FromRegistry<Registry>,
    E: FromRegistry<Registry>,
    F: FromRegistry<Registry>,
    G: FromRegistry<Registry>,
    H: FromRegistry<Registry>,
    I: FromRegistry<Registry>,
    J: FromRegistry<Registry>,
    K: FromRegistry<Registry>,
    L: FromRegistry<Registry>,
    M: FromRegistry<Registry>,
    N: FromRegistry<Registry>,
    O: FromRegistry<Registry>,
> System<Registry, (A, B, C, D, E, F, G, H, I, J, K, L, M, N, O)> for Func where
    Func: Fn(A, B, C, D, E, F, G, H, I, J, K, L, M, N, O) -> FnReturnType,
 {
    type Return = FnReturnType;

    open spec fn applies_to(&self, registry: &Registry) -> bool {
        applicable::<
            Registry,
            (A, B, C, D, E, F, G, H, I, J, K, L, M, N, O),
            FnReturnType,
            Func,
        >(*self, registry)
    }

    open spec fn results_in(&self, registry: &Registry, ret: FnReturnType) -> bool {
        applied::<
            Registry,
            (A, B, C, D, E, F, G, H, I, J, K, L, M, N, O),
            FnReturnType,
            Func,
        >(*self, registry, ret)
    }

    fn apply(&self, registry: &Registry) -> FnReturnType {
        let args: (A, B, C, D, E, F, G, H, I, J, K, L, M, N, O) =
            FromRegistry::from_registry(registry);
        (self)(
            args.0,
            args.1,
            args.2,
            args.3,
            args.4,
            args.5,
            args.6,
            args.7,
            args.8,
            args.9,
            args.10,
            args.11,
            args.12,
            args.13,
            args.14,
        )
    }
}

} // verus!
