//! Registration and login of users against a relational store: the decisions
//! of the upsert-and-verify flow, password hashing, and the table records.
pub mod password;
pub mod tables;
pub mod account;
pub mod laws;
