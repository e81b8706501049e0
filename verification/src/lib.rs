//! The verified core of a proxy for the VRChat REST and WebSocket APIs:
//! friend lists kept up to date from stream events, request parsing,
//! the shaping of API replies, and the stored credentials.
#![allow(non_snake_case)]

pub mod status;
pub mod user;
pub mod ordering;
pub mod text;
pub mod friends;
pub mod friend_laws;
pub mod unsanitize;
pub mod res_user;
pub mod listing;
pub mod instance;
pub mod world;
pub mod request;
pub mod store;
pub mod config;
pub mod connection;
pub mod auth;
pub mod endpoint;
pub mod response;
pub mod cors;
pub mod profile;
pub mod order;
pub mod combinator;
pub mod paging;
