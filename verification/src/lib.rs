//! Compile-time planning for simulated single-parent inheritance, plus the
//! runtime class-info registry that the planned code relies on.
//!
//! The crate models a struct declaration as plain data (`model`), computes the
//! two transformations — the plain class deriver and the inherit transformer —
//! as verified functions on that model (`expand`), and verifies the runtime
//! registry of per-type class records (`registry`).

pub mod expand;
pub mod model;
pub mod registry;
