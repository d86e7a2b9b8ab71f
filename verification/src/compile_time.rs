pub mod from_registry;
pub mod handler;
pub mod service;

pub use from_registry::FromRegistry;
pub use handler::Handler;
pub use service::Service;
