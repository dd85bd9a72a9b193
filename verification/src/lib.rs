//! The endpoint layer of a small asynchronous HTTP toolkit: it turns a
//! handler of any signature into one uniform request processor, and proves
//! what that processor answers.
pub mod endpoint;
pub mod handler;
pub mod laws;
pub mod request;
pub mod response;
pub mod task;
pub mod wire;

pub use endpoint::Endpoint;
