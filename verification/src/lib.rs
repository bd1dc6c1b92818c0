//! The verified core of the event signup service: request validation, the decisions
//! around the WebAuthn ceremonies and the two-phase signup, bearer-token checks,
//! configuration, error answers, static asset policy and the export.

pub mod assets;
pub mod authn;
pub mod config;
pub mod db;
pub mod error;
pub mod models;
pub mod routes;
pub mod session;
pub mod text;
