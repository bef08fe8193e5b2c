//! Typed identifiers of a multi-tenant catalog and the error taxonomy of its
//! relationship-based authorization layer, with their projection onto REST
//! error responses.

pub mod client;
pub mod error_model;
pub mod ident;
pub mod namespace;
pub mod openfga;
pub mod projection;
pub mod state;
pub mod text;
