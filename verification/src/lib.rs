//! Verified core of a visual-inspection workstation: decoding scanned codes,
//! driving the camera acquisition ladder, and ordering the stages of an
//! inspection session.

pub mod auth;
pub mod camera;
pub mod codes;
pub mod database;
pub mod devices;
pub mod error;
pub mod imaging;
pub mod inspection_api;
pub mod json;
pub mod pipeline;
pub mod retry;
pub mod session;
pub mod text;
pub mod verdict;
pub mod workflow;
