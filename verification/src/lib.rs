//! A minimal live-shader runtime: it owns one linked graphics program
//! (vertex + fragment stage), accepts hot-swapped shader source while a
//! frame loop keeps running, tracks a virtual clock with play / pause /
//! restart semantics and a pointer with a sign-encoded press origin, and
//! issues one draw call per frame with a fixed set of uniforms.
//!
//! The graphics device itself is reached through the [`backend::GraphicsBackend`]
//! trait, which the host implements over its GL bindings; everything above
//! that trait is verified.

pub mod backend;
pub mod clock;
pub mod error;
pub mod input;
pub mod runtime;
pub mod swapper;
