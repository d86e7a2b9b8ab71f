pub mod app;
pub mod plugin;

pub use app::{FunctionProxy, FunctionsRegistry, LoadAction, LoadError, LoadEvent};
pub use plugin::{PluginDeclaration, PluginRegistrar, DECLARATION_SYMBOL};
