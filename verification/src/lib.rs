//! A single-endpoint greeting service. The handler composes a response
//! from two configuration values resolved per request, draws a fresh
//! correlation identifier, and emits one informational record for it;
//! when either value is absent it answers with a fixed failure template
//! that discloses nothing but that identifier.

pub mod binding;
pub mod handler;
pub mod ident;
pub mod laws;
