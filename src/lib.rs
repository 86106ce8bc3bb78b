//! Request helpers for handlers of the sapper web framework: typed access to
//! a request's parameter bags, and builders for the usual responses.

pub mod access;
pub mod decimal;
pub mod fields;
pub mod guard;
pub mod json;
pub mod laws;
pub mod params;
pub mod response;
