pub mod actor;
pub mod client;
pub mod entity;
pub mod error;
pub mod health;
pub mod mailbox;
pub mod model;
pub mod order;
pub mod product;
pub mod services;
pub mod store;
pub mod text;
pub mod user;
pub mod workflow;

pub use vstd::view::View;
