//! View state machine and refresh coordinator for a terminal browser of
//! sports fixtures.
//!
//! The crate holds the application state (`estado::App`), the pure predicate
//! engine that derives the visible fixture list from the full one (`motor`),
//! and the bounded polling logic that adopts a freshly produced fixture list
//! or gives up after a fixed ceiling.  Terminal rendering, key decoding and
//! all file or network traffic live outside this crate; they hand in plain
//! values (loaded fixtures, loaded filters, key commands) and read the state
//! back.

pub mod apoyo;
pub mod estado;
pub mod leyes;
pub mod modelos;
pub mod motor;
pub mod vistas;
