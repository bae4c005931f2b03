//! Request handling for a small quote service, written so that every decision
//! a handler takes is a verified function of plain values.

pub mod handler;
pub mod laws;
pub mod model;
pub mod response;
pub mod schema;
pub mod storage;
pub mod table;
pub mod text;
