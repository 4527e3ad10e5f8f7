//! Verified core of a contact-form submission service.
//!
//! The library validates raw form input, shapes the submission response and
//! the error bodies, and decides the HTTP status code for each outcome. The
//! surrounding server owns the sockets and the persistence engine; it hands
//! their results to these functions as plain values and sends back whatever
//! they return.

pub mod form;
pub mod respond;
pub mod submit;
pub mod validate;
