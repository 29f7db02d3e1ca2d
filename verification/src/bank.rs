//! Users, their accounts, and the local side of moving funds between them.
pub mod data;
