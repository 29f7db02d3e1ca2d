//! The decisions behind each request the market answers.
pub mod instance;
pub mod products;
pub mod transactions;
