//! Core of a small message-board HTTP service: routing by method and path,
//! decoding of URL-encoded form bodies and query strings, a stubbed message
//! store, HTML and JSON rendering, and the request pipeline that ties them
//! together. Everything here is verified; the surrounding server only moves
//! bytes between a connection and `service::handle_request`.

pub mod domain;
pub mod form;
pub mod htmlenc;
pub mod jsonenc;
pub mod numfmt;
pub mod numparse;
pub mod response;
pub mod router;
pub mod service;
pub mod store;
pub mod strutil;
