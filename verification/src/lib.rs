//! Verified core of a Blaze (Fire2) game server: frame codec, packet
//! construction, request routing, session state and the tagged (TDF)
//! response bodies.
pub mod buffer;
pub mod packet;
pub mod tdf_out;
pub mod session;
pub mod models;
pub mod tdf_in;
pub mod router;
pub mod routes;
pub mod oauth;
pub mod socket;
pub mod config;
pub mod login;
