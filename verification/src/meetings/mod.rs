//! The meeting service: meetings joined by a numeric code, with
//! hosts and invitations, a chat per meeting and the media sessions (CCUs) of sockets.
pub mod models;
pub mod errors;
pub mod responses;
pub mod repositories;
pub mod assembly;
pub mod service;
pub mod chat;
pub mod sfu;
pub mod jwt;
