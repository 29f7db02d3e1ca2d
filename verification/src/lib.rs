//! The verified core of a diamond-priced item market and its bank bridge.
//!
//! `data` holds the market's items and the store that keeps them,
//! `bank` the users and accounts that purchases move funds between,
//! `routes` the decisions behind each request the market answers,
//! `store` the concurrent map that both keep their contents in, and
//! `text` the number formatting and message building they share, and
//! `catchers` the answers to requests that went wrong.
pub mod bank;
pub mod catchers;
pub mod data;
pub mod routes;
pub mod store;
pub mod text;
