pub mod functions;

use vstd::prelude::*;

verus! {

/// A function that takes its arguments as one tuple.
///
/// Every function and closure of up to 15 arguments is a handler for the tuple
/// of its arguments: `call_with` spreads the tuple over the parameters.
pub trait Handler<Args> {
    type Return;

    /// The handler may be called with `args`. Unless a handler says
    /// otherwise, it takes any arguments.
    open spec fn accepts(&self, args: Args) -> bool {
        true
    }

    /// `ret` is a result that a call with `args` may give. Unless a handler
    /// says otherwise, nothing is known of its results.
    open spec fn yields(&self, args: Args, ret: Self::Return) -> bool {
        true
    }

    /// Calls the function with the members of `args` as its arguments.
    fn call_with(&self, args: Args) -> (ret: Self::Return)
        requires
            self.accepts(args),
        ensures
            self.yields(args, ret),
    ;
}

impl<Func, FnReturnType> Handler<()> for Func where Func: Fn() -> FnReturnType {
    type Return = FnReturnType;

    open spec fn accepts(&self, args: ()) -> bool {
        self.requires(args)
    }

    open spec fn yields(&self, args: (), ret: FnReturnType) -> bool {
        self.ensures(args, ret)
    }

    fn call_with(&self, _args: ()) -> FnReturnType {
        (self)()
    }
}

impl<Func, A, FnReturnType> Handler<(A,)> for Func where Func: Fn(A) -> FnReturnType {
    type Return = FnReturnType;

    open spec fn accepts(&self, args: (A,)) -> bool {
        self.requires(args)
    }

    open spec fn yields(&self, args: (A,), ret: FnReturnType) -> bool {
        self.ensures(args, ret)
    }

    fn call_with(&self, args: (A,)) -> FnReturnType {
        (self)(args.0)
    }
}

} // verus!
