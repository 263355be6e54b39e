//! The socket side of calls: the events clients send, the notices sent back, and what each
//! handler decides before the media manager and the socket do their work.
pub mod dtos;
pub mod responses;
pub mod events;
