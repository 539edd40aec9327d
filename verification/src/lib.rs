//! Face-unlock core: the decisions of a privacy-first face unlock tool,
//! with their contracts. Camera frames, floating-point embedding maths,
//! storage and the desktop front end live in the application around it.

pub mod auth;
pub mod text;
pub mod liveness;
pub mod model;
pub mod pipeline;
pub mod crypto;
pub mod config;
pub mod passphrase;
pub mod gui;
