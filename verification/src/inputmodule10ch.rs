//! The ten-channel input module: channel configuration packing, the
//! configuration push frame, and the decoders for its data exchanges.

use vstd::prelude::*;
use crate::frame::{build_frame, copy_frame_buffer, enveloped, i32_le_byte, i32_byte,
    le_i32_at, le_i32, zero_payload};
use crate::inputmodule6ch::InputModuleSupply;
use crate::module::{CommunicationDirection, GOcontrollModule, MessageType, ModuleSlot};

verus! {

/// Wire code of this module type, carried in the envelope header.
pub const MODULEID: u8 = 12;

/// Message length of this module's envelope: the checksum sits at index 49
/// of the 56-byte transfer buffer.
pub const MESSAGELENGTH: usize = 50;

/// Size of this module's transfer buffer.
pub const BUFFER_LENGTH: usize = 56;

/// Input channel functions; `Unused` leaves the channel unconfigured.
#[derive(Clone, Copy, Debug, PartialEq, Eq, Structural)]
pub enum InputModule10ChFunction {
    Unused,
    Adc12Bit,
    AnalogmV,
    DigitalIn,
    FrequencyIn,
    DutyCycleLow,
    DutyCycleHigh,
    Rpm,
    PulseCounter,
}

impl InputModule10ChFunction {
    /// The function's wire code.
    pub open spec fn code_spec(self) -> u8 {
        match self {
            InputModule10ChFunction::Unused => 0,
            InputModule10ChFunction::Adc12Bit => 1,
            InputModule10ChFunction::AnalogmV => 2,
            InputModule10ChFunction::DigitalIn => 3,
            InputModule10ChFunction::FrequencyIn => 4,
            InputModule10ChFunction::DutyCycleLow => 5,
            InputModule10ChFunction::DutyCycleHigh => 6,
            InputModule10ChFunction::Rpm => 7,
            InputModule10ChFunction::PulseCounter => 8,
        }
    }

    #[verifier::when_used_as_spec(code_spec)]
    pub fn code(self) -> (r: u8)
        ensures
            r == self.code_spec(),
    {
        match self {
            InputModule10ChFunction::Unused => 0,
            InputModule10ChFunction::Adc12Bit => 1,
            InputModule10ChFunction::AnalogmV => 2,
            InputModule10ChFunction::DigitalIn => 3,
            InputModule10ChFunction::FrequencyIn => 4,
            InputModule10ChFunction::DutyCycleLow => 5,
            InputModule10ChFunction::DutyCycleHigh => 6,
            InputModule10ChFunction::Rpm => 7,
            InputModule10ChFunction::PulseCounter => 8,
        }
    }
}

/// Pull-down resistor selection of one input channel.
#[derive(Clone, Copy, Debug, PartialEq, Eq, Structural)]
pub enum InputModule10ChPullDown {
    PullDownNone,
    PullDown3_3k,
}

impl InputModule10ChPullDown {
    /// The selection's wire code.
    pub open spec fn code_spec(self) -> u8 {
        match self {
            InputModule10ChPullDown::PullDownNone => 0,
            InputModule10ChPullDown::PullDown3_3k => 3,
        }
    }

    #[verifier::when_used_as_spec(code_spec)]
    pub fn code(self) -> (r: u8)
        ensures
            r == self.code_spec(),
    {
        match self {
            InputModule10ChPullDown::PullDownNone => 0,
            InputModule10ChPullDown::PullDown3_3k => 3,
        }
    }
}

/// Pull-up resistor selection of one input channel.
#[derive(Clone, Copy, Debug, PartialEq, Eq, Structural)]
pub enum InputModule10ChPullUp {
    PulUpnNone,
    PullUp3_3k,
}

impl InputModule10ChPullUp {
    /// The selection's wire code.
    pub open spec fn code_spec(self) -> u8 {
        match self {
            InputModule10ChPullUp::PulUpnNone => 0,
            InputModule10ChPullUp::PullUp3_3k => 3,
        }
    }

    #[verifier::when_used_as_spec(code_spec)]
    pub fn code(self) -> (r: u8)
        ensures
            r == self.code_spec(),
    {
        match self {
            InputModule10ChPullUp::PulUpnNone => 0,
            InputModule10ChPullUp::PullUp3_3k => 3,
        }
    }
}

/// The ten input channels.
#[derive(Clone, Copy, Debug, PartialEq, Eq, Structural)]
pub enum InputModuleChannel {
    Channel1,
    Channel2,
    Channel3,
    Channel4,
    Channel5,
    Channel6,
    Channel7,
    Channel8,
    Channel9,
    Channel10,
}

impl InputModuleChannel {
    /// The channel's ordinal.
    pub open spec fn code_spec(self) -> u8 {
        match self {
            InputModuleChannel::Channel1 => 0,
            InputModuleChannel::Channel2 => 1,
            InputModuleChannel::Channel3 => 2,
            InputModuleChannel::Channel4 => 3,
            InputModuleChannel::Channel5 => 4,
            InputModuleChannel::Channel6 => 5,
            InputModuleChannel::Channel7 => 6,
            InputModuleChannel::Channel8 => 7,
            InputModuleChannel::Channel9 => 8,
            InputModuleChannel::Channel10 => 9,
        }
    }

    #[verifier::when_used_as_spec(code_spec)]
    pub fn code(self) -> (r: u8)
        ensures
            r == self.code_spec(),
    {
        match self {
            InputModuleChannel::Channel1 => 0,
            InputModuleChannel::Channel2 => 1,
            InputModuleChannel::Channel3 => 2,
            InputModuleChannel::Channel4 => 3,
            InputModuleChannel::Channel5 => 4,
            InputModuleChannel::Channel6 => 5,
            InputModuleChannel::Channel7 => 6,
            InputModuleChannel::Channel8 => 7,
            InputModuleChannel::Channel9 => 8,
            InputModuleChannel::Channel10 => 9,
        }
    }
}

/// The configuration of one input channel.
#[derive(Clone, Copy, Debug, PartialEq, Eq, Structural)]
pub struct InputModule10ChConfig {
    pub function: InputModule10ChFunction,
    pub pull_down: InputModule10ChPullDown,
    pub pull_up: InputModule10ChPullUp,
}

impl InputModule10ChConfig {
    /// Bundles one channel's function and pull resistors.
    pub fn new(
        function: InputModule10ChFunction,
        pull_down: InputModule10ChPullDown,
        pull_up: InputModule10ChPullUp,
    ) -> (r: InputModule10ChConfig)
        ensures
            r == (InputModule10ChConfig { function, pull_down, pull_up }),
    {
        InputModule10ChConfig { function, pull_down, pull_up }
    }
}

/// Byte `j` of the 56-byte configuration payload: four bytes per channel
/// (the function code, then the pull resistors packed into one byte, two
/// bytes spare), the sensor supply code at byte 46, and zero elsewhere.
/// An unconfigured channel leaves its four bytes zero.
pub open spec fn input10_config_byte(
    channels: Seq<Option<InputModule10ChConfig>>,
    sensor_supply: InputModuleSupply,
    j: int,
) -> u8 {
    if 0 <= j < 40 {
        match channels[j / 4] {
            Option::None => 0,
            Option::Some(c) => {
                let o = j % 4;
                if o == 0 {
                    c.function.code_spec()
                } else if o == 1 {
                    c.pull_up.code_spec() | (c.pull_down.code_spec() << 2)
                } else {
                    0
                }
            },
        }
    } else if j == 46 {
        sensor_supply.code_spec()
    } else {
        0
    }
}

/// A ten-channel input module: its slot and the configuration payload
/// built at construction.  The bus handle that carries its transfers
/// lives with the embedding application.
pub struct InputModule10Ch {
    slot: ModuleSlot,
    tx: Vec<u8>,
}

impl InputModule10Ch {
    #[verifier::type_invariant]
    spec fn type_wf(self) -> bool {
        self.tx@.len() == BUFFER_LENGTH
    }

    /// The configuration payload bytes as built at construction.
    pub closed spec fn config_bytes(self) -> Seq<u8> {
        self.tx@
    }

    /// Builds a ten-channel input module for `slot` from the per-channel
    /// configurations and the sensor supply state, packing the
    /// configuration payload byte by byte.
    pub fn new(
        slot: ModuleSlot,
        channels: [Option<InputModule10ChConfig>; 10],
        sensor_supply: InputModuleSupply,
    ) -> (r: InputModule10Ch)
        ensures
            r.slot_spec() == slot,
            r.config_bytes().len() == BUFFER_LENGTH,
            forall|j: int|
                0 <= j < BUFFER_LENGTH ==> r.config_bytes()[j] == input10_config_byte(
                    channels@,
                    sensor_supply,
                    j,
                ),
    {
        let mut tx: Vec<u8> = Vec::new();
        let mut i: usize = 0;
        while i < BUFFER_LENGTH
            invariant
                i == tx@.len(),
                i <= BUFFER_LENGTH,
                forall|j: int| 0 <= j < i ==> tx@[j] == 0,
            decreases BUFFER_LENGTH - i,
        {
            tx.push(0);
            i += 1;
        }
        let mut index: usize = 0;
        while index < 10
            invariant
                index <= 10,
                tx@.len() == BUFFER_LENGTH,
                forall|j: int|
                    0 <= j < index * 4 ==> tx@[j] == input10_config_byte(
                        channels@,
                        sensor_supply,
                        j,
                    ),
                forall|j: int| index * 4 <= j < BUFFER_LENGTH ==> tx@[j] == 0,
            decreases 10 - index,
        {
            match channels[index] {
                Some(config) => {
                    tx.set(index * 4, config.function.code());
                    tx.set(index * 4 + 1, config.pull_up.code() | (config.pull_down.code() << 2));
                },
                None => {},
            }
            index += 1;
        }
        tx.set(46, sensor_supply.code());
        InputModule10Ch { slot, tx }
    }

    /// Builds the all-zero-payload request frame of the module's data
    /// exchange, asking the module for its channel values.
    pub fn values_request_frame(&self) -> (r: Vec<u8>)
        ensures
            r@ == enveloped(
                zero_payload(BUFFER_LENGTH as int),
                1,
                CommunicationDirection::FromModule.code_spec(),
                MODULEID,
                MessageType::Data.code_spec(),
                1,
                MESSAGELENGTH as int,
            ),
            r@.len() == BUFFER_LENGTH,
    {
        let mut tx: Vec<u8> = Vec::new();
        let mut i: usize = 0;
        while i < BUFFER_LENGTH
            invariant
                i == tx@.len(),
                i <= BUFFER_LENGTH,
                forall|j: int| 0 <= j < i ==> tx@[j] == 0,
            decreases BUFFER_LENGTH - i,
        {
            tx.push(0);
            i += 1;
        }
        proof {
            assert(tx@ =~= zero_payload(BUFFER_LENGTH as int));
        }
        build_frame(
            &mut tx,
            1,
            CommunicationDirection::FromModule,
            MODULEID,
            MessageType::Data,
            1,
            MESSAGELENGTH,
        );
        tx
    }

    /// Decodes the channel values out of a validated response to the data
    /// request: the first nine entries carry the little-endian words at
    /// their channel offsets; the tenth entry stays zero.
    pub fn decode_values(rx: &[u8]) -> (r: [i32; 10])
        requires
            rx@.len() >= 42,
        ensures
            r@.len() == 10,
            forall|i: int| 0 <= i < 9 ==> r@[i] == le_i32_at(rx@, i * 4 + 6),
            r@[9] == 0,
    {
        let values = [
            le_i32(rx, 6),
            le_i32(rx, 10),
            le_i32(rx, 14),
            le_i32(rx, 18),
            le_i32(rx, 22),
            le_i32(rx, 26),
            le_i32(rx, 30),
            le_i32(rx, 34),
            le_i32(rx, 38),
            0i32,
        ];
        values
    }

    /// Byte `j` of the payload that resets one channel's pulse counter:
    /// the channel ordinal at byte 6, the little-endian counter value at
    /// bytes 7..10, zero elsewhere.
    pub open spec fn pulse_reset_payload(channel: InputModuleChannel, value: i32) -> Seq<u8> {
        Seq::new(
            BUFFER_LENGTH as nat,
            |j: int|
                if j == 6 {
                    channel.code_spec()
                } else if 7 <= j <= 10 {
                    i32_le_byte(value, j - 7)
                } else {
                    0u8
                },
        )
    }

    /// Builds the frame that resets `channel`'s pulse counter to `value`.
    pub fn reset_pulse_counter_frame(&self, channel: InputModuleChannel, value: i32) -> (r: Vec<
        u8,
    >)
        ensures
            r@ == enveloped(
                Self::pulse_reset_payload(channel, value),
                1,
                CommunicationDirection::ToModule.code_spec(),
                MODULEID,
                MessageType::Data.code_spec(),
                2,
                MESSAGELENGTH as int,
            ),
            r@.len() == BUFFER_LENGTH,
    {
        let mut tx: Vec<u8> = Vec::new();
        let mut i: usize = 0;
        while i < BUFFER_LENGTH
            invariant
                i == tx@.len(),
                i <= BUFFER_LENGTH,
                forall|j: int| 0 <= j < i ==> tx@[j] == 0,
            decreases BUFFER_LENGTH - i,
        {
            tx.push(0);
            i += 1;
        }
        tx.set(6, channel.code());
        tx.set(7, i32_byte(value, 0));
        tx.set(8, i32_byte(value, 1));
        tx.set(9, i32_byte(value, 2));
        tx.set(10, i32_byte(value, 3));
        proof {
            assert(tx@ =~= Self::pulse_reset_payload(channel, value));
        }
        build_frame(
            &mut tx,
            1,
            CommunicationDirection::ToModule,
            MODULEID,
            MessageType::Data,
            2,
            MESSAGELENGTH,
        );
        tx
    }
}

impl GOcontrollModule for InputModule10Ch {
    closed spec fn slot_spec(&self) -> ModuleSlot {
        self.slot
    }

    closed spec fn message_length_spec(&self) -> usize {
        MESSAGELENGTH
    }

    open spec fn config_frames_spec(&self) -> Seq<Seq<u8>> {
        seq![
            enveloped(
                self.config_bytes(),
                1,
                CommunicationDirection::ToModule.code_spec(),
                MODULEID,
                MessageType::Configuration.code_spec(),
                1,
                MESSAGELENGTH as int,
            ),
        ]
    }

    fn get_slot(&self) -> (s: ModuleSlot) {
        self.slot
    }

    fn message_length(&self) -> (l: usize) {
        MESSAGELENGTH
    }

    fn configuration_frames(&self) -> (frames: Vec<Vec<u8>>) {
        proof {
            use_type_invariant(self);
        }
        let mut tx = copy_frame_buffer(&self.tx);
        build_frame(
            &mut tx,
            1,
            CommunicationDirection::ToModule,
            MODULEID,
            MessageType::Configuration,
            1,
            MESSAGELENGTH,
        );
        let mut frames: Vec<Vec<u8>> = Vec::new();
        frames.push(tx);
        proof {
            assert(frames@.map_values(|f: Vec<u8>| f@) =~= self.config_frames_spec());
        }
        frames
    }
}

} // verus!
