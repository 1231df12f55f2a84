//! Bookkeeping for tabletop game sessions: games, players, plays and the
//! participants of each play, with the integrity rules of the four tables and
//! the uniform reply that every operation gives.

pub mod envelope;
pub mod failure;
pub mod handlers;
pub mod ident;
pub mod integrity;
pub mod laws;
pub mod model;
pub mod ordering;
pub mod route;
pub mod schema;
pub mod service;
pub mod state;
pub mod store;
pub mod tables;
pub mod text;

pub use state::AppState;
