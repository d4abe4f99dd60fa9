//! Board-support layer for a family of embedded controllers whose
//! physical slots accept pluggable I/O expansion modules on a shared
//! synchronous serial bus.
//!
//! The crate resolves the hardware revision from identity text, tracks
//! slot occupancy, builds and validates the framed message envelope every
//! module shares, packs each module type's configuration payload, and
//! drives the bootloader-escape handshake as a pure state machine with
//! bounded per-slot retries.  All device I/O — bus transfers, reset-line
//! writes, settle delays — is left to the embedding application, which
//! feeds bytes in and carries finished frames out.

pub mod bootstrap;
pub mod error;
pub mod frame;
pub mod inputmodule10ch;
pub mod inputmodule6ch;
pub mod mainboard;
pub mod module;
pub mod outputmodule6ch;
pub mod peripherals;
pub mod text;
