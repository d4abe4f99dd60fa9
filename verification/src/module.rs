//! The shared module vocabulary: slots, envelope header codes, and the
//! capability contract that every expansion-module type implements.

use vstd::prelude::*;
use crate::frame::frame_valid;

verus! {

/// All potentially available module slots.  A board revision exposes only
/// the first `capacity` of them; registering a module on a later slot is
/// rejected with `SlotOutOfRange`.
#[derive(Clone, Copy, Debug, PartialEq, Eq, Structural)]
pub enum ModuleSlot {
    Moduleslot1,
    Moduleslot2,
    Moduleslot3,
    Moduleslot4,
    Moduleslot5,
    Moduleslot6,
    Moduleslot7,
    Moduleslot8,
}

impl ModuleSlot {
    /// The slot's ordinal, used as the array index throughout the crate.
    pub open spec fn code_spec(self) -> u8 {
        match self {
            ModuleSlot::Moduleslot1 => 0,
            ModuleSlot::Moduleslot2 => 1,
            ModuleSlot::Moduleslot3 => 2,
            ModuleSlot::Moduleslot4 => 3,
            ModuleSlot::Moduleslot5 => 4,
            ModuleSlot::Moduleslot6 => 5,
            ModuleSlot::Moduleslot7 => 6,
            ModuleSlot::Moduleslot8 => 7,
        }
    }

    #[verifier::when_used_as_spec(code_spec)]
    pub fn code(self) -> (r: u8)
        ensures
            r == self.code_spec(),
    {
        match self {
            ModuleSlot::Moduleslot1 => 0,
            ModuleSlot::Moduleslot2 => 1,
            ModuleSlot::Moduleslot3 => 2,
            ModuleSlot::Moduleslot4 => 3,
            ModuleSlot::Moduleslot5 => 4,
            ModuleSlot::Moduleslot6 => 5,
            ModuleSlot::Moduleslot7 => 6,
            ModuleSlot::Moduleslot8 => 7,
        }
    }

    /// The slot's name as shown to a user.
    pub fn description(self) -> &'static str {
        match self {
            ModuleSlot::Moduleslot1 => "Module slot 1",
            ModuleSlot::Moduleslot2 => "Module slot 2",
            ModuleSlot::Moduleslot3 => "Module slot 3",
            ModuleSlot::Moduleslot4 => "Module slot 4",
            ModuleSlot::Moduleslot5 => "Module slot 5",
            ModuleSlot::Moduleslot6 => "Module slot 6",
            ModuleSlot::Moduleslot7 => "Module slot 7",
            ModuleSlot::Moduleslot8 => "Module slot 8",
        }
    }
}

/// The direction byte of the envelope header.
#[derive(Clone, Copy, Debug, PartialEq, Eq, Structural)]
pub enum CommunicationDirection {
    ToModule,
    FromModule,
}

impl CommunicationDirection {
    /// The wire code carried in header byte 2.
    pub open spec fn code_spec(self) -> u8 {
        match self {
            CommunicationDirection::ToModule => 1,
            CommunicationDirection::FromModule => 2,
        }
    }

    #[verifier::when_used_as_spec(code_spec)]
    pub fn code(self) -> (r: u8)
        ensures
            r == self.code_spec(),
    {
        match self {
            CommunicationDirection::ToModule => 1,
            CommunicationDirection::FromModule => 2,
        }
    }
}

/// The message-type byte of the envelope header.
#[derive(Clone, Copy, Debug, PartialEq, Eq, Structural)]
pub enum MessageType {
    ModuleId,
    Configuration,
    Data,
    Feedback,
}

impl MessageType {
    /// The wire code carried in header byte 4.
    pub open spec fn code_spec(self) -> u8 {
        match self {
            MessageType::ModuleId => 1,
            MessageType::Configuration => 2,
            MessageType::Data => 3,
            MessageType::Feedback => 4,
        }
    }

    #[verifier::when_used_as_spec(code_spec)]
    pub fn code(self) -> (r: u8)
        ensures
            r == self.code_spec(),
    {
        match self {
            MessageType::ModuleId => 1,
            MessageType::Configuration => 2,
            MessageType::Data => 3,
            MessageType::Feedback => 4,
        }
    }
}

/// The capability contract of an expansion module, consumed by the registry
/// and the bootstrap sequencer and never by concrete type.  A user-designed
/// module becomes usable by implementing this trait.
pub trait GOcontrollModule {
    /// The slot this module is declared on.
    spec fn slot_spec(&self) -> ModuleSlot;

    /// The message length of this module's envelope: the checksum sits at
    /// index `message_length - 1` of the transfer buffer.
    spec fn message_length_spec(&self) -> usize;

    /// The fully framed configuration messages pushed once after bring-up.
    spec fn config_frames_spec(&self) -> Seq<Seq<u8>>;

    fn get_slot(&self) -> (s: ModuleSlot)
        ensures
            s == self.slot_spec(),
    ;

    fn message_length(&self) -> (l: usize)
        ensures
            l == self.message_length_spec(),
    ;

    /// The configuration messages, every one a valid envelope of this
    /// module's message length, carried in a buffer at least that long.
    fn configuration_frames(&self) -> (frames: Vec<Vec<u8>>)
        ensures
            frames@.map_values(|f: Vec<u8>| f@) == self.config_frames_spec(),
            7 <= self.message_length_spec(),
            forall|k: int|
                0 <= k < frames@.len() ==> (frames@[k]@.len() >= self.message_length_spec()
                    && frame_valid(frames@[k]@, self.message_length_spec() as int)),
    ;
}

} // verus!
