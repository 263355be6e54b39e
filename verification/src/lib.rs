use vstd::prelude::*;

pub mod dtos;
pub mod entities;
pub mod errors;
pub mod responses;
pub mod outside;
pub mod strings;
pub mod repositories;
pub mod utils;
pub mod room_service;
pub mod chat_service;
pub mod parsing;
pub mod user_service;
pub mod auth;
pub mod grouping;
pub mod room_repository;
pub mod meetings;
pub mod socket;
pub mod config;
pub mod search;
pub mod storage;

verus! {

} // verus!
