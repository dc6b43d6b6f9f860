pub mod context;
pub mod error;
pub mod bus;
pub mod cache;
pub mod bot;
pub mod laws;
pub mod listener;
pub mod payload;
pub mod puppet;
pub mod puppet_mock;
pub mod query;
pub mod schemas;
pub mod service_endpoint;
pub mod store;
pub mod user;
pub mod wechaty;
pub mod util;
