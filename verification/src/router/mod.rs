//! Request and response shapes of the HTTP surface and their validation.

pub mod handlers;
