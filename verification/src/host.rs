//! What a host system offers: the part of an application that loads, keeps
//! and hands out plugins.
//!
//! The traits say nothing of how a plugin is found or called, so they fit
//! plugins loaded at runtime as well as plugins compiled in. A manager
//! implements the ones it wants to offer: one that implements no loading
//! trait can be filled once and then only read.
use vstd::prelude::*;

verus! {

/// Something that can be turned into a plugin and the id it goes by.
pub trait PluginLoader<PluginId, PluginType> {
    /// Loads the plugin.
    fn into_plugin(self) -> (PluginId, PluginType);
}

/// A manager that can take in new plugins.
pub trait PluginManagerLoad<PluginId, PluginType, ManagerLoadError> {
    /// Loads `new_plugin` and keeps it under its id.
    fn load(&mut self, new_plugin: impl PluginLoader<PluginId, PluginType>) -> Result<
        (),
        ManagerLoadError,
    >;
}

/// A manager that hands out the plugins it keeps.
pub trait PluginManagerGet<PluginId, PluginType> {
    /// The plugin kept under `plugin`, if there is one.
    fn get(&self, plugin: &PluginId) -> Option<&PluginType>;
}

/// A manager that can let go of a plugin.
pub trait PluginManagerUnload<PluginId, PluginType, ManagerUnloadError> {
    /// Removes the plugin kept under `old_plugin`.
    fn unload(&mut self, old_plugin: &PluginId) -> Result<(), ManagerUnloadError>;
}

/// A manager that can put another version of a plugin in its place.
pub trait PluginManagerReload<PluginId, PluginType, ManagerReloadError> {
    /// `after` and `result` are what reloading `plugin` may make of `before`.
    /// Unless a manager says otherwise, nothing is known of them.
    open spec fn reloaded(
        before: &Self,
        plugin: &PluginId,
        after: &Self,
        result: Result<(), ManagerReloadError>,
    ) -> bool {
        true
    }

    /// Replaces the plugin kept under `plugin` with another version, which the
    /// manager finds by the id.
    fn reload(&mut self, plugin: &PluginId) -> (result: Result<(), ManagerReloadError>)
        ensures
            Self::reloaded(old(self), plugin, final(self), result),
    ;

    /// Replaces the plugin kept under `old_plugin` with `new_plugin`.
    ///
    /// Unless a manager says otherwise, the new version is not looked at: the
    /// manager reloads by the id, as `reload` does.
    fn reload_as_new(
        &mut self,
        _new_plugin: impl PluginLoader<PluginId, PluginType>,
        old_plugin: &PluginId,
    ) -> (result: Result<(), ManagerReloadError>)
        default_ensures
            Self::reloaded(old(self), old_plugin, final(self), result),
    {
        self.reload(old_plugin)
    }
}

} // verus!
