//! A web-content reader centred on a hybrid fetch decision engine: a pure
//! JavaScript-heaviness classifier decides whether a page fetched over plain
//! HTTP needs a second, browser-rendered fetch, and a fallback policy
//! guarantees that a successful static fetch is never turned into a failure
//! by an unavailable renderer.

pub mod model;
pub mod text;
pub mod detector;
pub mod errors;
pub mod html;
pub mod ports;
pub mod parser;
pub mod hybrid;
pub mod browser;
pub mod static_fetch;
pub mod service;
pub mod usecase;
pub mod server;
