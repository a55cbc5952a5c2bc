//! A small QR-code service: a shared-secret check in front of a QR renderer,
//! with permissive cross-origin headers on every response.

pub mod auth;
pub mod config;
pub mod cors;
pub mod http;
pub mod render;
pub mod service;

pub use http::{ContentType, Header, Method, Request, Response, Status};
