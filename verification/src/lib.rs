//! A facade before an identity provider: logins, users and roles as use cases
//! that validate their input, say which requests the provider is to get, and
//! read what it answers.
//!
//! The use cases make no request themselves. Each adapter in [`keycloak`] is a
//! function from what came of the requests so far to the next request or the
//! outcome, so that whoever runs the exchange stays in charge of it; the
//! services in [`services`] stand before any provider that has the capabilities
//! of [`interfaces`].

pub mod bodies;
pub mod dtos;
pub mod error;
pub mod http;
pub mod interfaces;
pub mod json;
pub mod keycloak;
pub mod laws;
pub mod mapping;
pub mod pattern;
pub mod services;
pub mod text;
pub mod validators;
pub mod web;
