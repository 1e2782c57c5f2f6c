//! Core logic of a menu-bar wallpaper utility: validation and per-platform
//! dispatch for applying a wallpaper image, and the ordered, de-duplicated
//! history and queue kept by the load-mutate-save stores, together with the
//! request-shaping decisions of the remote catalog client.
//!
//! File and network access, and the OS calls themselves, live with the host
//! program; this crate computes every decision on plain values and states
//! each one as a verified contract.

pub mod catalog;
pub mod guard;
pub mod history;
pub mod queue;
pub mod setter;
pub mod settings;
pub mod strutil;
