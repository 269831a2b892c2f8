//! A namespace-scoped write-authorization gate for a shared blob server.
//!
//! Reads are open to everyone; mutating requests must carry a signed token
//! that grants access to the namespace they target. [`gate::verify_edit_access`]
//! takes the request's headers, the target [`namespace::Namespace`] and the
//! optional process-wide [`token::SigningKey`], and answers allow or deny,
//! classifying every denial as one of the three [`errors::AuthError`] kinds.

pub mod codec;
pub mod errors;
pub mod gate;
pub mod headers;
pub mod namespace;
pub mod token;
pub mod transport;
