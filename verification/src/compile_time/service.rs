use super::{FromRegistry, Handler};
use std::marker::PhantomData;
use vstd::prelude::*;

verus! {

/// The handler can be run on what `registry` holds: its arguments are
/// available there, and it accepts whatever comes out.
pub open spec fn runs_on<Registry, Args: FromRegistry<Registry>, H: Handler<Args>>(
    handler: H,
    registry: &Registry,
) -> bool {
    &&& Args::available(registry)
    &&& forall|args: Args| #[trigger] Args::extracted(registry, args) ==> handler.accepts(args)
}

/// `ret` is a result of the handler on arguments taken out of `registry`.
pub open spec fn results_in<Registry, Args: FromRegistry<Registry>, H: Handler<Args>>(
    handler: H,
    registry: &Registry,
    ret: H::Return,
) -> bool {
    exists|args: Args| #[trigger] Args::extracted(registry, args) && handler.yields(args, ret)
}

/// A call that needs nothing but a registry.
trait Dispatch<Registry, Return> {
    spec fn ready(&self, registry: &Registry) -> bool;

    spec fn gives(&self, registry: &Registry, ret: Return) -> bool;

    fn dispatch(&self, registry: &Registry) -> (ret: Return)
        requires
            self.ready(registry),
        ensures
            self.gives(registry, ret),
    ;
}

/// A handler together with the type of the arguments it is to be given.
struct Extracting<Args, H> {
    handler: Box<H>,
    args: PhantomData<Args>,
}

impl<Registry, Args: FromRegistry<Registry>, H: Handler<Args>> Dispatch<
    Registry,
    H::Return,
> for Extracting<Args, H> {
    closed spec fn ready(&self, registry: &Registry) -> bool {
        runs_on::<Registry, Args, H>(*self.handler, registry)
    }

    closed spec fn gives(&self, registry: &Registry, ret: H::Return) -> bool {
        results_in::<Registry, Args, H>(*self.handler, registry, ret)
    }

    fn dispatch(&self, registry: &Registry) -> (ret: H::Return) {
        let args = Args::from(registry);
        self.handler.call_with(args)
    }
}

/// A function turned into a call on a registry.
///
/// A service holds a handler and knows the types of its arguments. When it is
/// called, it takes a value of each type out of the registry and calls the
/// handler with them.
#[verifier::reject_recursive_types(Registry)]
#[verifier::reject_recursive_types(Return)]
pub struct Service<Registry, Return> {
    handler: Box<dyn Dispatch<Registry, Return>>,
}

impl<Registry: 'static, Return: 'static> Service<Registry, Return> {
    /// The service may be called on `registry`.
    pub closed spec fn accepts(&self, registry: &Registry) -> bool {
        self.handler.ready(registry)
    }

    /// `ret` is a result that a call on `registry` may give.
    pub closed spec fn yields(&self, registry: &Registry, ret: Return) -> bool {
        self.handler.gives(registry, ret)
    }

    /// A service that runs `handler` on arguments of type `Args`.
    pub fn new<Args: FromRegistry<Registry> + 'static, H: Handler<Args, Return = Return> + 'static>(
        handler: Box<H>,
    ) -> (service: Self)
        ensures
            forall|registry: &Registry| #[trigger]
                service.accepts(registry) == runs_on::<Registry, Args, H>(*handler, registry),
            forall|registry: &Registry, ret: Return| #[trigger]
                service.yields(registry, ret) == results_in::<Registry, Args, H>(
                    *handler,
                    registry,
                    ret,
                ),
    {
        Service { handler: Box::new(Extracting { handler, args: PhantomData }) }
    }

    /// Puts `handler` in the place of the handler that the service held.
    pub fn set_handler<
        Args: FromRegistry<Registry> + 'static,
        H: Handler<Args, Return = Return> + 'static,
    >(&mut self, handler: Box<H>)
        ensures
            forall|registry: &Registry| #[trigger]
                final(self).accepts(registry) == runs_on::<Registry, Args, H>(*handler, registry),
            forall|registry: &Registry, ret: Return| #[trigger]
                final(self).yields(registry, ret) == results_in::<Registry, Args, H>(
                    *handler,
                    registry,
                    ret,
                ),
    {
        self.handler = Box::new(Extracting { handler, args: PhantomData });
    }

    /// Takes the handler's arguments out of `registry` and calls the handler
    /// with them.
    pub fn call(&self, registry: &Registry) -> (ret: Return)
        requires
            self.accepts(registry),
        ensures
            self.yields(registry, ret),
    {
        self.handler.dispatch(registry)
    }
}

} // verus!
