use vstd::prelude::*;

verus! {

/// The name of the symbol under which a plugin binary exports its declaration
/// record.
pub const DECLARATION_SYMBOL: &'static str = "plugin_declaration";

/// The compatibility record that every plugin binary exports.
///
/// It names the loading protocol and the compiler runtime the binary was built
/// with. The host holds a record of its own; a plugin may register only if the
/// two agree in both texts. The texts are owned copies, so a record stays valid
/// after the binary it was read from has been released.
#[derive(Debug)]
pub struct PluginDeclaration {
    /// Version of the loading protocol.
    pub core_version: String,
    /// Version of the compiler runtime, which fixes the binary interface.
    pub host_runtime_version: String,
}

impl PluginDeclaration {
    /// Both version texts are the same, character for character.
    pub open spec fn agrees_with(&self, host: &PluginDeclaration) -> bool {
        &&& self.core_version@ == host.core_version@
        &&& self.host_runtime_version@ == host.host_runtime_version@
    }

    /// Compares this record with the host's own.
    pub fn is_compatible_with(&self, host: &PluginDeclaration) -> (compatible: bool)
        ensures
            compatible == self.agrees_with(host),
    {
        self.core_version == host.core_version && self.host_runtime_version
            == host.host_runtime_version
    }
}

impl Clone for PluginDeclaration {
    /// A record with the same two texts.
    fn clone(&self) -> (copy: Self)
        ensures
            copy.core_version@ == self.core_version@,
            copy.host_runtime_version@ == self.host_runtime_version@,
    {
        PluginDeclaration {
            core_version: self.core_version.clone(),
            host_runtime_version: self.host_runtime_version.clone(),
        }
    }
}

/// The one capability handed to a plugin's registration entry point.
///
/// A plugin can declare names and callables through it and nothing else.
/// Registering a name twice keeps the later callable.
pub trait PluginRegistrar<Prototype: ?Sized = dyn std::any::Any> {
    /// The callables recorded so far, by name.
    spec fn recorded(&self) -> Map<Seq<char>, Box<Prototype>>;

    /// Records `function` under `name`.
    fn register_function(&mut self, name: &str, function: Box<Prototype>)
        ensures
            final(self).recorded() == old(self).recorded().insert(name@, function),
    ;
}

} // verus!
