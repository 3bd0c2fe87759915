//! Verified core of a PostgreSQL foreign data wrapper for the RevenueCat REST API (v2).

pub mod text;
pub mod json;
pub mod cell;
pub mod body;
pub mod fdw;
pub mod laws;
