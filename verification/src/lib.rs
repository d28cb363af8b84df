//! In-process dispatch harness: builds one request, follows it through a
//! service, and captures status and body as plain values.
//!
//! The service itself is called by the user of this library, which is told
//! what to do next by [`dispatch::begin`] and [`dispatch::step`] and reports
//! back what happened.

pub mod dispatch;
pub mod error;
pub mod request;
pub mod response;
pub mod text;

pub use dispatch::{begin, step, Action, Event, Stage};
pub use error::DispatchError;
pub use request::{Method, Request};
pub use response::RespBody;
