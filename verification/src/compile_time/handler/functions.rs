//! Functions and closures of 2 to 15 arguments as handlers.
use super::Handler;
use vstd::prelude::*;

verus! {

impl<Func, FnReturnType, A, B> Handler<(A, B)> for Func where
    Func: Fn(A, B) -> FnReturnType,
 {
    type Return = FnReturnType;

    open spec fn accepts(&self, args: (A, B)) -> bool {
        self.requires(args)
    }

    open spec fn yields(&self, args: (A, B), ret: FnReturnType) -> bool {
        self.ensures(args, ret)
    }

    fn call_with(&self, args: (A, B)) -> FnReturnType {
        (self)(args.0, args.1)
    }
}

impl<Func, FnReturnType, A, B, C> Handler<(A, B, C)> for Func where
    Func: Fn(A, B, C) -> FnReturnType,
 {
    type Return = FnReturnType;

    open spec fn accepts(&self, args: (A, B, C)) -> bool {
        self.requires(args)
    }

    open spec fn yields(&self, args: (A, B, C), ret: FnReturnType) -> bool {
        self.ensures(args, ret)
    }

    fn call_with(&self, args: (A, B, C)) -> FnReturnType {
        (self)(args.0, args.1, args.2)
    }
}

impl<Func, FnReturnType, A, B, C, D> Handler<(A, B, C, D)> for Func where
    Func: Fn(A, B, C, D) -> FnReturnType,
 {
    type Return = FnReturnType;

    open spec fn accepts(&self, args: (A, B, C, D)) -> bool {
        self.requires(args)
    }

    open spec fn yields(&self, args: (A, B, C, D), ret: FnReturnType) -> bool {
        self.ensures(args, ret)
    }

    fn call_with(&self, args: (A, B, C, D)) -> FnReturnType {
        (self)(args.0, args.1, args.2, args.3)
    }
}

impl<Func, FnReturnType, A, B, C, D, E> Handler<(A, B, C, D, E)> for Func where
    Func: Fn(A, B, C, D, E) -> FnReturnType,
 {
    type Return = FnReturnType;

    open spec fn accepts(&self, args: (A, B, C, D, E)) -> bool {
        self.requires(args)
    }

    open spec fn yields(&self, args: (A, B, C, D, E), ret: FnReturnType) -> bool {
        self.ensures(args, ret)
    }

    fn call_with(&self, args: (A, B, C, D, E)) -> FnReturnType {
        (self)(args.0, args.1, args.2, args.3, args.4)
    }
}

impl<Func, FnReturnType, A, B, C, D, E, F> Handler<(A, B, C, D, E, F)> for Func where
    Func: Fn(A, B, C, D, E, F) -> FnReturnType,
 {
    type Return = FnReturnType;

    open spec fn accepts(&self, args: (A, B, C, D, E, F)) -> bool {
        self.requires(args)
    }

    open spec fn yields(&self, args: (A, B, C, D, E, F), ret: FnReturnType) -> bool {
        self.ensures(args, ret)
    }

    fn call_with(&self, args: (A, B, C, D, E, F)) -> FnReturnType {
        (self)(args.0, args.1, args.2, args.3, args.4, args.5)
    }
}

impl<Func, FnReturnType, A, B, C, D, E, F, G> Handler<(A, B, C, D, E, F, G)> for Func where
    Func: Fn(A, B, C, D, E, F, G) -> FnReturnType,
 {
    type Return = FnReturnType;

    open spec fn accepts(&self, args: (A, B, C, D, E, F, G)) -> bool {
        self.requires(args)
    }

    open spec fn yields(&self, args: (A, B, C, D, E, F, G), ret: FnReturnType) -> bool {
        self.ensures(args, ret)
    }

    fn call_with(&self, args: (A, B, C, D, E, F, G)) -> FnReturnType {
        (self)(args.0, args.1, args.2, args.3, args.4, args.5, args.6)
    }
}

impl<Func, FnReturnType, A, B, C, D, E, F, G, H> Handler<(A, B, C, D, E, F, G, H)> for Func where
    Func: Fn(A, B, C, D, E, F, G, H) -> FnReturnType,
 {
    type Return = FnReturnType;

    open spec fn accepts(&self, args: (A, B, C, D, E, F, G, H)) -> bool {
        self.requires(args)
    }

    open spec fn yields(&self, args: (A, B, C, D, E, F, G, H), ret: FnReturnType) -> bool {
        self.ensures(args, ret)
    }

    fn call_with(&self, args: (A, B, C, D, E, F, G, H)) -> FnReturnType {
        (self)(args.0, args.1, args.2, args.3, args.4, args.5, args.6, args.7)
    }
}

impl<Func, FnReturnType, A, B, C, D, E, F, G, H, I> Handler<
    (A, B, C, D, E, F, G, H, I),
> for Func where
    Func: Fn(A, B, C, D, E, F, G, H, I) -> FnReturnType,
 {
    type Return = FnReturnType;

    open spec fn accepts(&self, args: (A, B, C, D, E, F, G, H, I)) -> bool {
        self.requires(args)
    }

    open spec fn yields(&self, args: (A, B, C, D, E, F, G, H, I), ret: FnReturnType) -> bool {
        self.ensures(args, ret)
    }

    fn call_with(&self, args: (A, B, C, D, E, F, G, H, I)) -> FnReturnType {
        (self)(args.0, args.1, args.2, args.3, args.4, args.5, args.6, args.7, args.8)
    }
}

impl<Func, FnReturnType, A, B, C, D, E, F, G, H, I, J> Handler<
    (A, B, C, D, E, F, G, H, I, J),
> for Func where
    Func: Fn(A, B, C, D, E, F, G, H, I, J) -> FnReturnType,
 {
    type Return = FnReturnType;

    open spec fn accepts(&self, args: (A, B, C, D, E, F, G, H, I, J)) -> bool {
        self.requires(args)
    }

    open spec fn yields(&self, args: (A, B, C, D, E, F, G, H, I, J), ret: FnReturnType) -> bool {
        self.ensures(args, ret)
    }

    fn call_with(&self, args: (A, B, C, D, E, F, G, H, I, J)) -> FnReturnType {
        (self)(args.0, args.1, args.2, args.3, args.4, args.5, args.6, args.7, args.8, args.9)
    }
}

impl<Func, FnReturnType, A, B, C, D, E, F, G, H, I, J, K> Handler<
    (A, B, C, D, E, F, G, H, I, J, K),
> for Func where
    Func: Fn(A, B, C, D, E, F, G, H, I, J, K) -> FnReturnType,
 {
    type Return = FnReturnType;

    open spec fn accepts(&self, args: (A, B, C, D, E, F, G, H, I, J, K)) -> bool {
        self.requires(args)
    }

    open spec fn yields(&self, args: (A, B, C, D, E, F, G, H, I, J, K), ret: FnReturnType) -> bool {
        self.ensures(args, ret)
    }

    fn call_with(&self, args: (A, B, C, D, E, F, G, H, I, J, K)) -> FnReturnType {
        (self)(
            args.0,
            args.1,
            args.2,
            args.3,
            args.4,
            args.5,
            args.6,
            args.7,
            args.8,
            args.9,
            args.10,
        )
    }
}

impl<Func, FnReturnType, A, B, C, D, E, F, G, H, I, J, K, L> Handler<
    (A, B, C, D, E, F, G, H, I, J, K, L),
> for Func where
    Func: Fn(A, B, C, D, E, F, G, H, I, J, K, L) -> FnReturnType,
 {
    type Return = FnReturnType;

    open spec fn accepts(&self, args: (A, B, C, D, E, F, G, H, I, J, K, L)) -> bool {
        self.requires(args)
    }

    open spec fn yields(
        &self,
        args: (A, B, C, D, E, F, G, H, I, J, K, L),
        ret: FnReturnType,
    ) -> bool {
        self.ensures(args, ret)
    }

    fn call_with(&self, args: (A, B, C, D, E, F, G, H, I, J, K, L)) -> FnReturnType {
        (self)(
            args.0,
            args.1,
            args.2,
            args.3,
            args.4,
            args.5,
            args.6,
            args.7,
            args.8,
            args.9,
            args.10,
            args.11,
        )
    }
}

impl<Func, FnReturnType, A, B, C, D, E, F, G, H, I, J, K, L, M> Handler<
    (A, B, C, D, E, F, G, H, I, J, K, L, M),
> for Func where
    Func: Fn(A, B, C, D, E, F, G, H, I, J, K, L, M) -> FnReturnType,
 {
    type Return = FnReturnType;

    open spec fn accepts(&self, args: (A, B, C, D, E, F, G, H, I, J, K, L, M)) -> bool {
        self.requires(args)
    }

    open spec fn yields(
        &self,
        args: (A, B, C, D, E, F, G, H, I, J, K, L, M),
        ret: FnReturnType,
    ) -> bool {
        self.ensures(args, ret)
    }

    fn call_with(&self, args: (A, B, C, D, E, F, G, H, I, J, K, L, M)) -> FnReturnType {
        (self)(
            args.0,
            args.1,
            args.2,
            args.3,
            args.4,
            args.5,
            args.6,
            args.7,
            args.8,
            args.9,
            args.10,
            args.11,
            args.12,
        )
    }
}

impl<Func, FnReturnType, A, B, C, D, E, F, G, H, I, J, K, L, M, N> Handler<
    (A, B, C, D, E, F, G, H, I, J, K, L, M, N),
> for Func where
    Func: Fn(A, B, C, D, E, F, G, H, I, J, K, L, M, N) -> FnReturnType,
 {
    type Return = FnReturnType;

    open spec fn accepts(&self, args: (A, B, C, D, E, F, G, H, I, J, K, L, M, N)) -> bool {
        self.requires(args)
    }

    open spec fn yields(
        &self,
        args: (A, B, C, D, E, F, G, H, I, J, K, L, M, N),
        ret: FnReturnType,
    ) -> bool {
        self.ensures(args, ret)
    }

    fn call_with(&self, args: (A, B, C, D, E, F, G, H, I, J, K, L, M, N)) -> FnReturnType {
        (self)(
            args.0,
            args.1,
            args.2,
            args.3,
            args.4,
            args.5,
            args.6,
            args.7,
            args.8,
            args.9,
            args.10,
            args.11,
            args.12,
            args.13,
        )
    }
}

impl<Func, FnReturnType, A, B, C, D, E, F, G, H, I, J, K, L, M, N, O> Handler<
    (A, B, C, D, E, F, G, H, I, J, K, L, M, N, O),
> for Func where
    Func: Fn(A, B, C, D, E, F, G, H, I, J, K, L, M, N, O) -> FnReturnType,
 {
    type Return = FnReturnType;

    open spec fn accepts(&self, args: (A, B, C, D, E, F, G, H, I, J, K, L, M, N, O)) -> bool {
        self.requires(args)
    }

    open spec fn yields(
        &self,
        args: (A, B, C, D, E, F, G, H, I, J, K, L, M, N, O),
        ret: FnReturnType,
    ) -> bool {
        self.ensures(args, ret)
    }

    fn call_with(&self, args: (A, B, C, D, E, F, G, H, I, J, K, L, M, N, O)) -> FnReturnType {
        (self)(
            args.0,
            args.1,
            args.2,
            args.3,
            args.4,
            args.5,
            args.6,
            args.7,
            args.8,
            args.9,
            args.10,
            args.11,
            args.12,
            args.13,
            args.14,
        )
    }
}

} // verus!
