//! Decision logic of a Secret Santa group service: who may do what to a
//! group, how a refused request is answered, how credentials are made, and
//! how the gift recipients are drawn.
pub mod status;
pub mod draw;
pub mod guard;
pub mod models;
pub mod credentials;
pub mod crud;
pub mod policy;
pub mod routes;
pub mod store;
pub mod rules;
