pub mod functions_registry;
pub mod guarantees;
pub mod registrar;

pub use functions_registry::{FunctionsRegistry, LoadAction, LoadError, LoadEvent};
pub use registrar::PluginRegistrar;

use libloading::Library;
use std::ops::Deref;
use std::rc::Rc;
use vstd::prelude::*;

verus! {

/// `libloading::Library`, the handle of one opened dynamic binary. Verus sees
/// nothing inside it: the crate only carries handles around and keeps them
/// alive, it never looks into one.
#[verifier::external_type_specification]
#[verifier::external_body]
pub struct ExLibrary(Library);

/// One callable exported by a plugin, together with a share of the binary it
/// lives in.
///
/// The proxy owns a strong reference to the library handle, so the code behind
/// the callable stays mapped for as long as the proxy exists.
pub struct FunctionProxy<Prototype: ?Sized> {
    function: Box<Prototype>,
    _lib: Rc<Library>,
}

impl<Prototype: ?Sized> FunctionProxy<Prototype> {
    /// The callable that the plugin registered.
    pub closed spec fn callable(&self) -> Box<Prototype> {
        self.function
    }

    /// The handle of the binary that the callable comes from.
    pub closed spec fn library(&self) -> Rc<Library> {
        self._lib
    }

    /// Couples `function` to a share of `lib`.
    pub(crate) fn new(function: Box<Prototype>, lib: &Rc<Library>) -> (proxy: Self)
        ensures
            proxy.callable() == function,
            proxy.library() == *lib,
    {
        FunctionProxy { function, _lib: Rc::clone(lib) }
    }
}

impl<Prototype: ?Sized> Deref for FunctionProxy<Prototype> {
    type Target = Box<Prototype>;

    /// A proxy is used as if it were the callable itself.
    fn deref(&self) -> (target: &Box<Prototype>)
        ensures
            *target == self.callable(),
    {
        &self.function
    }
}

} // verus!
