//! Requests to the Shodan REST and streaming services, built and not sent.
//!
//! Each operation of the services is a function in [`shodan`] that returns the
//! [`request::Request`] to send: method, URL, body and timeout, with every parameter
//! percent-encoded. A transport sends it and reports how that ended as a
//! [`response::Exchange`]. [`helpers`] holds the steps that load the API key from a
//! file and what to print of a result.

pub mod encoding;
pub mod error;
pub mod helpers;
pub mod json;
pub mod request;
pub mod response;
pub mod shodan;
pub mod text;
pub mod url;
