//! The verified core of a small HTTP service: a greeting at `GET /` and a
//! user-creation endpoint at `POST /users`.

pub mod config;
pub mod model;
pub mod response;
pub mod text;
pub mod handlers;
pub mod router;
pub mod service;
