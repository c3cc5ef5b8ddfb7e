//! A small user-account service: sign-up, login and user listing over one
//! table of users, with every decision of the service stated as a contract
//! and proved.

pub mod credential;
pub mod handlers;
pub mod laws;
pub mod models;
pub mod repo;
pub mod text;
