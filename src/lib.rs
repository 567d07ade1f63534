//! Identity bootstrap, identity document construction and idempotent
//! protocol registration for a world registry server.

pub mod certificate;
pub mod document;
pub mod identity;
pub mod registrar;
pub mod schema;
