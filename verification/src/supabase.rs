//! The identity proxy: what is sent to the upstream identity provider and how
//! its replies are read.

pub mod auth;
pub mod client;
pub mod realtime;
pub mod storage;
