//! Core logic of a real-time parcel tracking service: the Redis key layout,
//! the decisions of the driver and customer sessions, the location history
//! batching, one-time-password checks, account validation and session tokens.

pub mod keys;
pub mod otp;
pub mod text;
pub mod location;
pub mod driver;
pub mod subscriber;
pub mod history;
pub mod status;
pub mod auth;
pub mod error;
pub mod clock;
pub mod password;
pub mod token;
pub mod account;
pub mod channels;
pub mod bus;
