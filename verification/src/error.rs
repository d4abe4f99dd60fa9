//! The failure taxonomy of the board-support layer.

use vstd::prelude::*;

verus! {

/// Every way that bring-up or a single transfer can fail.  All variants but
/// `DataIntegrityError` are fatal: they abort initialization rather than
/// leave the board partially configured.
#[derive(Clone, Copy, Debug, PartialEq, Eq, Structural)]
pub enum PlatformError {
    /// The board-identity text matches no known hardware revision.
    ConfigurationError,
    /// A bus or reset-line device could not be opened.
    ResourceError,
    /// A module claims a slot that another module already occupies.
    SlotConflict,
    /// A module claims a slot at or beyond the resolved slot capacity.
    SlotOutOfRange,
    /// A received frame's checksum does not match its contents.
    DataIntegrityError,
    /// A slot's fault counter reached its ceiling during bring-up.
    BootstrapExhausted,
}

impl PlatformError {
    /// A short description of the failure.
    pub fn description(&self) -> &'static str {
        match self {
            PlatformError::ConfigurationError => "unrecognized board identity",
            PlatformError::ResourceError => "a bus or reset-line device could not be opened",
            PlatformError::SlotConflict => "two modules claim the same slot",
            PlatformError::SlotOutOfRange => "a module claims a slot beyond the slot capacity",
            PlatformError::DataIntegrityError => "checksum mismatch on a received frame",
            PlatformError::BootstrapExhausted => "a module could not escape its bootloader",
        }
    }
}

} // verus!
