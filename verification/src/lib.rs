//! Identity and authorization core of a personal bookmark archive.

pub mod api;
pub mod crypto;
pub mod database;
pub mod decimal;
pub mod error;
pub mod form;
pub mod gate;
pub mod identity;
pub mod links;
pub mod models;
pub mod route;
pub mod session;
pub mod text;
pub mod time_utils;

pub use error::Error;
pub use error::MuxFailure;
