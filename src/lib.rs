//! Cursor-state synchronization: cheap change detection over the system's
//! cursor generation counter, a content-derived cursor identity, and a
//! race-guarded extraction of the cursor bitmap as RGBA bytes.
//!
//! The operating-system queries themselves live outside this library: callers
//! hand in the counter they read and a plain snapshot of the current cursor.
pub mod image;
pub mod fingerprint;
pub mod extract;
pub mod tracker;
pub mod laws;
