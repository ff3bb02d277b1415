//! The core of a link-sharing discussion board: accounts, sessions, posts and
//! threaded comments, with every rule of the content model stated as a contract.

pub mod errors;
pub mod config;
pub mod models;
pub mod tables;
pub mod store;
pub mod session;
pub mod auth;
pub mod pages;
