//! A live "breaks" queue: the ordered list of pending orders, the store that
//! guards it, and the state machines that keep dashboards in step with it.

pub mod auth;
pub mod broadcast;
pub mod client;
pub mod dashboard;
pub mod endpoint;
pub mod models;
pub mod queue;
pub mod routes;
pub mod text;
pub mod widget;
pub mod wix;
pub mod wix_models;
