//! Runtime-loaded extensibility for a host process.
//!
//! A host loads shared binaries ("plugins") while it runs, checks that each one
//! was built against the same loading protocol and the same compiler runtime,
//! and registers the callables the plugin hands over under string names.
//!
//! The crate holds the rules of that protocol and proves them with Verus. The
//! platform work (opening a binary, resolving its declaration record, calling
//! into its registration entry point) is done by the embedding program, which
//! reports each step to [`runtime::FunctionsRegistry::load`] and carries out
//! what it answers.
use vstd::prelude::*;

/// Turning functions into calls on a registry of typed values.
pub mod compile_time;
/// The traits of a host system.
pub mod host;
/// Loading plugins at runtime and looking up what they registered.
pub mod runtime;
/// Calling functions with a registry in place of their arguments.
pub mod system;

verus! {

/// The version of the loading protocol spoken by this crate. A plugin must
/// carry the very same text in its declaration record.
pub const CORE_VERSION: &'static str = "0.1.0";

} // verus!
