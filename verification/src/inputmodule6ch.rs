//! The six-channel input module: channel configuration packing, the
//! configuration push frame, and the decoders for its data exchanges.

use vstd::prelude::*;
use crate::frame::{build_frame, copy_frame_buffer, enveloped, i32_le_byte, i32_byte,
    le_i32_at, le_i32, zero_payload};
use crate::module::{CommunicationDirection, GOcontrollModule, MessageType, ModuleSlot};

verus! {

/// Wire code of this module type, carried in the envelope header.
pub const MODULEID: u8 = 11;

/// Message length of this module's envelope: the checksum sits at index 54
/// of the 56-byte transfer buffer.
pub const MESSAGELENGTH: usize = 55;

/// Size of this module's transfer buffer.
pub const BUFFER_LENGTH: usize = 56;

/// Input channel functions:
/// `Unused`          -> channel is unused\
/// `Adc12Bit`        -> read the raw ADC value\
/// `AnalogmV`        -> ADC converted to mV\
/// `DigitalIn`       -> read the pin as a digital input\
/// `FrequencyIn`     -> measure the frequency of the incoming signal\
/// `DutyCycleLow`    -> measure the low period duty cycle\
/// `DutyCycleHigh`   -> measure the high period duty cycle\
/// `Rpm`             -> pulse counter converted to RPM\
/// `PulseCounter`    -> count the pulses on an input
#[derive(Clone, Copy, Debug, PartialEq, Eq, Structural)]
pub enum InputModule6ChFunction {
    Unused,
    Adc12Bit,
    AnalogmV,
    DigitalIn,
    FrequencyIn,
    DutyCycleLow,
    DutyCycleHigh,
    Rpm,
    PulseCounter,
}

impl InputModule6ChFunction {
    /// The function's wire code.
    pub open spec fn code_spec(self) -> u8 {
        match self {
            InputModule6ChFunction::Unused => 0,
            InputModule6ChFunction::Adc12Bit => 1,
            InputModule6ChFunction::AnalogmV => 2,
            InputModule6ChFunction::DigitalIn => 3,
            InputModule6ChFunction::FrequencyIn => 4,
            InputModule6ChFunction::DutyCycleLow => 5,
            InputModule6ChFunction::DutyCycleHigh => 6,
            InputModule6ChFunction::Rpm => 7,
            InputModule6ChFunction::PulseCounter => 8,
        }
    }

    #[verifier::when_used_as_spec(code_spec)]
    pub fn code(self) -> (r: u8)
        ensures
            r == self.code_spec(),
    {
        match self {
            InputModule6ChFunction::Unused => 0,
            InputModule6ChFunction::Adc12Bit => 1,
            InputModule6ChFunction::AnalogmV => 2,
            InputModule6ChFunction::DigitalIn => 3,
            InputModule6ChFunction::FrequencyIn => 4,
            InputModule6ChFunction::DutyCycleLow => 5,
            InputModule6ChFunction::DutyCycleHigh => 6,
            InputModule6ChFunction::Rpm => 7,
            InputModule6ChFunction::PulseCounter => 8,
        }
    }

    /// The function uses the analog filter words of its channel
    /// configuration; other functions carry the pulses-per-rotation byte.
    pub open spec fn is_analog(self) -> bool {
        self == InputModule6ChFunction::Adc12Bit || self == InputModule6ChFunction::AnalogmV
    }
}

/// Pull-down resistor selection of one input channel.
#[derive(Clone, Copy, Debug, PartialEq, Eq, Structural)]
pub enum InputModule6ChPullDown {
    PullDownNone,
    PullDown3_3k,
    PullDown4_7k,
    PullDown10k,
}

impl InputModule6ChPullDown {
    /// The selection's wire code.
    pub open spec fn code_spec(self) -> u8 {
        match self {
            InputModule6ChPullDown::PullDownNone => 0,
            InputModule6ChPullDown::PullDown3_3k => 3,
            InputModule6ChPullDown::PullDown4_7k => 1,
            InputModule6ChPullDown::PullDown10k => 2,
        }
    }

    #[verifier::when_used_as_spec(code_spec)]
    pub fn code(self) -> (r: u8)
        ensures
            r == self.code_spec(),
    {
        match self {
            InputModule6ChPullDown::PullDownNone => 0,
            InputModule6ChPullDown::PullDown3_3k => 3,
            InputModule6ChPullDown::PullDown4_7k => 1,
            InputModule6ChPullDown::PullDown10k => 2,
        }
    }
}

/// Pull-up resistor selection of one input channel.
#[derive(Clone, Copy, Debug, PartialEq, Eq, Structural)]
pub enum InputModule6ChPullUp {
    PulUpnNone,
    PullUp3_3k,
    PullUp4_7k,
    PullUp10k,
}

impl InputModule6ChPullUp {
    /// The selection's wire code.
    pub open spec fn code_spec(self) -> u8 {
        match self {
            InputModule6ChPullUp::PulUpnNone => 0,
            InputModule6ChPullUp::PullUp3_3k => 3,
            InputModule6ChPullUp::PullUp4_7k => 1,
            InputModule6ChPullUp::PullUp10k => 2,
        }
    }

    #[verifier::when_used_as_spec(code_spec)]
    pub fn code(self) -> (r: u8)
        ensures
            r == self.code_spec(),
    {
        match self {
            InputModule6ChPullUp::PulUpnNone => 0,
            InputModule6ChPullUp::PullUp3_3k => 3,
            InputModule6ChPullUp::PullUp4_7k => 1,
            InputModule6ChPullUp::PullUp10k => 2,
        }
    }
}

/// Input voltage range of one channel.
#[derive(Clone, Copy, Debug, PartialEq, Eq, Structural)]
pub enum InputModule6ChVoltageRange {
    Voltage0_5V,
    Voltage0_12V,
    Voltage0_24V,
}

impl InputModule6ChVoltageRange {
    /// The range's wire code.
    pub open spec fn code_spec(self) -> u8 {
        match self {
            InputModule6ChVoltageRange::Voltage0_5V => 0,
            InputModule6ChVoltageRange::Voltage0_12V => 1,
            InputModule6ChVoltageRange::Voltage0_24V => 2,
        }
    }

    #[verifier::when_used_as_spec(code_spec)]
    pub fn code(self) -> (r: u8)
        ensures
            r == self.code_spec(),
    {
        match self {
            InputModule6ChVoltageRange::Voltage0_5V => 0,
            InputModule6ChVoltageRange::Voltage0_12V => 1,
            InputModule6ChVoltageRange::Voltage0_24V => 2,
        }
    }
}

/// One sensor supply's configuration.
#[derive(Clone, Copy, Debug, PartialEq, Eq, Structural)]
pub enum InputModuleSupply {
    On,
    Off,
}

impl InputModuleSupply {
    /// The supply state's wire code.
    pub open spec fn code_spec(self) -> u8 {
        match self {
            InputModuleSupply::On => 1,
            InputModuleSupply::Off => 2,
        }
    }

    #[verifier::when_used_as_spec(code_spec)]
    pub fn code(self) -> (r: u8)
        ensures
            r == self.code_spec(),
    {
        match self {
            InputModuleSupply::On => 1,
            InputModuleSupply::Off => 2,
        }
    }
}

/// The six input channels.
#[derive(Clone, Copy, Debug, PartialEq, Eq, Structural)]
pub enum InputModuleChannel {
    Channel1,
    Channel2,
    Channel3,
    Channel4,
    Channel5,
    Channel6,
}

impl InputModuleChannel {
    /// The channel's ordinal.
    pub open spec fn code_spec(self) -> u8 {
        match self {
            InputModuleChannel::Channel1 => 0,
            InputModuleChannel::Channel2 => 1,
            InputModuleChannel::Channel3 => 2,
            InputModuleChannel::Channel4 => 3,
            InputModuleChannel::Channel5 => 4,
            InputModuleChannel::Channel6 => 5,
        }
    }

    #[verifier::when_used_as_spec(code_spec)]
    pub fn code(self) -> (r: u8)
        ensures
            r == self.code_spec(),
    {
        match self {
            InputModuleChannel::Channel1 => 0,
            InputModuleChannel::Channel2 => 1,
            InputModuleChannel::Channel3 => 2,
            InputModuleChannel::Channel4 => 3,
            InputModuleChannel::Channel5 => 4,
            InputModuleChannel::Channel6 => 5,
        }
    }
}

/// The configuration of one input channel.
#[derive(Clone, Copy, Debug, PartialEq, Eq, Structural)]
pub struct InputModule6ChConfig {
    pub function: InputModule6ChFunction,
    pub pull_down: InputModule6ChPullDown,
    pub pull_up: InputModule6ChPullUp,
    pub input_voltage: InputModule6ChVoltageRange,
    pub pulses_per_rotation: u8,
    pub analog_filter_samples: u16,
}

impl InputModule6ChConfig {
    /// Bundles one channel's function, pull resistors, voltage range,
    /// pulses per rotation and analog filter length.
    pub fn new(
        function: InputModule6ChFunction,
        pull_down: InputModule6ChPullDown,
        pull_up: InputModule6ChPullUp,
        input_voltage: InputModule6ChVoltageRange,
        pulses_per_rotation: u8,
        analog_filter_samples: u16,
    ) -> (r: InputModule6ChConfig)
        ensures
            r == (InputModule6ChConfig {
                function,
                pull_down,
                pull_up,
                input_voltage,
                pulses_per_rotation,
                analog_filter_samples,
            }),
    {
        InputModule6ChConfig {
            function,
            pull_down,
            pull_up,
            input_voltage,
            pulses_per_rotation,
            analog_filter_samples,
        }
    }
}

/// The configuration of the module's three sensor supplies.
#[derive(Clone, Copy, Debug)]
pub struct Inputmodule6chSupplyConfig {
    pub sensor_supplies: [InputModuleSupply; 3],
}

impl Inputmodule6chSupplyConfig {
    /// Bundles the three sensor supply states.
    pub fn new(
        supply1: InputModuleSupply,
        supply2: InputModuleSupply,
        supply3: InputModuleSupply,
    ) -> (r: Inputmodule6chSupplyConfig)
        ensures
            r.sensor_supplies@ == seq![supply1, supply2, supply3],
    {
        let r = Inputmodule6chSupplyConfig { sensor_supplies: [supply1, supply2, supply3] };
        proof {
            assert(r.sensor_supplies@ =~= seq![supply1, supply2, supply3]);
        }
        r
    }
}

/// Byte `j` of the 56-byte configuration payload: six bytes per channel
/// (function code; pull resistors and voltage range packed into one byte;
/// then either the analog filter words or the pulses-per-rotation byte),
/// the three supply codes at bytes 42..44, and zero elsewhere.  An
/// unconfigured channel leaves its six bytes zero.
pub open spec fn input6_config_byte(
    channels: Seq<Option<InputModule6ChConfig>>,
    supply: Inputmodule6chSupplyConfig,
    j: int,
) -> u8 {
    if 0 <= j < 36 {
        match channels[j / 6] {
            Option::None => 0,
            Option::Some(c) => {
                let o = j % 6;
                if o == 0 {
                    c.function.code_spec()
                } else if o == 1 {
                    c.pull_up.code_spec() | (c.pull_down.code_spec() << 2) | (
                    c.input_voltage.code_spec() << 6)
                } else if o == 2 {
                    if c.function.is_analog() {
                        (c.analog_filter_samples >> 8) as u8
                    } else if c.function == InputModule6ChFunction::Unused {
                        0
                    } else {
                        c.pulses_per_rotation
                    }
                } else if o == 3 {
                    if c.function.is_analog() {
                        (c.analog_filter_samples & 0xff) as u8
                    } else {
                        0
                    }
                } else {
                    0
                }
            },
        }
    } else if j == 42 {
        supply.sensor_supplies[0].code_spec()
    } else if j == 43 {
        supply.sensor_supplies[1].code_spec()
    } else if j == 44 {
        supply.sensor_supplies[2].code_spec()
    } else {
        0
    }
}

/// A six-channel input module: its slot and the configuration payload
/// built at construction.  The bus handle that carries its transfers
/// lives with the embedding application.
pub struct InputModule6Ch {
    slot: ModuleSlot,
    tx: Vec<u8>,
}

impl InputModule6Ch {
    #[verifier::type_invariant]
    spec fn type_wf(self) -> bool {
        self.tx@.len() == BUFFER_LENGTH
    }

    /// The configuration payload bytes as built at construction.
    pub closed spec fn config_bytes(self) -> Seq<u8> {
        self.tx@
    }

    /// Builds a six-channel input module for `slot` from the per-channel
    /// configurations and the sensor supply configuration, packing the
    /// configuration payload byte by byte.
    pub fn new(
        slot: ModuleSlot,
        channels: [Option<InputModule6ChConfig>; 6],
        supply: Inputmodule6chSupplyConfig,
    ) -> (r: InputModule6Ch)
        ensures
            r.slot_spec() == slot,
            r.config_bytes().len() == BUFFER_LENGTH,
            forall|j: int|
                0 <= j < BUFFER_LENGTH ==> r.config_bytes()[j] == input6_config_byte(
                    channels@,
                    supply,
                    j,
                ),
    {
        let mut tx: Vec<u8> = Vec::new();
        let mut i: usize = 0;
        while i < BUFFER_LENGTH
            invariant
                i == tx@.len(),
                i <= BUFFER_LENGTH,
                forall|j: int| 0 <= j < i ==> tx@[j] == 0,
            decreases BUFFER_LENGTH - i,
        {
            tx.push(0);
            i += 1;
        }
        let mut index: usize = 0;
        while index < 6
            invariant
                index <= 6,
                tx@.len() == BUFFER_LENGTH,
                forall|j: int|
                    0 <= j < index * 6 ==> tx@[j] == input6_config_byte(channels@, supply, j),
                forall|j: int| index * 6 <= j < BUFFER_LENGTH ==> tx@[j] == 0,
            decreases 6 - index,
        {
            match channels[index] {
                Some(config) => {
                    tx.set(index * 6, config.function.code());
                    tx.set(
                        index * 6 + 1,
                        config.pull_up.code() | (config.pull_down.code() << 2) | (
                        config.input_voltage.code() << 6),
                    );
                    match config.function {
                        InputModule6ChFunction::Unused => {},
                        InputModule6ChFunction::Adc12Bit | InputModule6ChFunction::AnalogmV => {
                            tx.set(index * 6 + 2, (config.analog_filter_samples >> 8) as u8);
                            tx.set(index * 6 + 3, (config.analog_filter_samples & 0xff) as u8);
                        },
                        _ => {
                            tx.set(index * 6 + 2, config.pulses_per_rotation);
                        },
                    }
                },
                None => {},
            }
            index += 1;
        }
        tx.set(42, supply.sensor_supplies[0].code());
        tx.set(43, supply.sensor_supplies[1].code());
        tx.set(44, supply.sensor_supplies[2].code());
        InputModule6Ch { slot, tx }
    }

    /// Builds the all-zero-payload request frame of the module's data
    /// exchange, asking the module for its channel values.
    pub fn values_request_frame(&self) -> (r: Vec<u8>)
        ensures
            r@ == enveloped(
                zero_payload(BUFFER_LENGTH as int),
                1,
                CommunicationDirection::FromModule.code_spec(),
                MODULEID,
                MessageType::Data.code_spec(),
                1,
                MESSAGELENGTH as int,
            ),
            r@.len() == BUFFER_LENGTH,
    {
        let mut tx: Vec<u8> = Vec::new();
        let mut i: usize = 0;
        while i < BUFFER_LENGTH
            invariant
                i == tx@.len(),
                i <= BUFFER_LENGTH,
                forall|j: int| 0 <= j < i ==> tx@[j] == 0,
            decreases BUFFER_LENGTH - i,
        {
            tx.push(0);
            i += 1;
        }
        proof {
            assert(tx@ =~= zero_payload(BUFFER_LENGTH as int));
        }
        build_frame(
            &mut tx,
            1,
            CommunicationDirection::FromModule,
            MODULEID,
            MessageType::Data,
            1,
            MESSAGELENGTH,
        );
        tx
    }

    /// Decodes the channel values out of a validated response to the data
    /// request: the first five entries carry the little-endian words at
    /// their channel offsets; the sixth entry stays zero.
    pub fn decode_values(rx: &[u8]) -> (r: [i32; 6])
        requires
            rx@.len() >= 42,
        ensures
            r@.len() == 6,
            forall|i: int| 0 <= i < 5 ==> r@[i] == le_i32_at(rx@, i * 8 + 6),
            r@[5] == 0,
    {
        let values = [
            le_i32(rx, 6),
            le_i32(rx, 14),
            le_i32(rx, 22),
            le_i32(rx, 30),
            le_i32(rx, 38),
            0i32,
        ];
        values
    }

    /// Byte `j` of the payload that resets one channel's pulse counter:
    /// the channel ordinal at byte 6, the little-endian counter value at
    /// bytes 7..10, zero elsewhere.
    pub open spec fn pulse_reset_payload(channel: InputModuleChannel, value: i32) -> Seq<u8> {
        Seq::new(
            BUFFER_LENGTH as nat,
            |j: int|
                if j == 6 {
                    channel.code_spec()
                } else if 7 <= j <= 10 {
                    i32_le_byte(value, j - 7)
                } else {
                    0u8
                },
        )
    }

    /// Builds the frame that resets `channel`'s pulse counter to `value`.
    pub fn reset_pulse_counter_frame(&self, channel: InputModuleChannel, value: i32) -> (r: Vec<
        u8,
    >)
        ensures
            r@ == enveloped(
                Self::pulse_reset_payload(channel, value),
                1,
                CommunicationDirection::ToModule.code_spec(),
                MODULEID,
                MessageType::Data.code_spec(),
                2,
                MESSAGELENGTH as int,
            ),
            r@.len() == BUFFER_LENGTH,
    {
        let mut tx: Vec<u8> = Vec::new();
        let mut i: usize = 0;
        while i < BUFFER_LENGTH
            invariant
                i == tx@.len(),
                i <= BUFFER_LENGTH,
                forall|j: int| 0 <= j < i ==> tx@[j] == 0,
            decreases BUFFER_LENGTH - i,
        {
            tx.push(0);
            i += 1;
        }
        tx.set(6, channel.code());
        tx.set(7, i32_byte(value, 0));
        tx.set(8, i32_byte(value, 1));
        tx.set(9, i32_byte(value, 2));
        tx.set(10, i32_byte(value, 3));
        proof {
            assert(tx@ =~= Self::pulse_reset_payload(channel, value));
        }
        build_frame(
            &mut tx,
            1,
            CommunicationDirection::ToModule,
            MODULEID,
            MessageType::Data,
            2,
            MESSAGELENGTH,
        );
        tx
    }
}

impl GOcontrollModule for InputModule6Ch {
    closed spec fn slot_spec(&self) -> ModuleSlot {
        self.slot
    }

    closed spec fn message_length_spec(&self) -> usize {
        MESSAGELENGTH
    }

    open spec fn config_frames_spec(&self) -> Seq<Seq<u8>> {
        seq![
            enveloped(
                self.config_bytes(),
                1,
                CommunicationDirection::ToModule.code_spec(),
                MODULEID,
                MessageType::Configuration.code_spec(),
                1,
                MESSAGELENGTH as int,
            ),
        ]
    }

    fn get_slot(&self) -> (s: ModuleSlot) {
        self.slot
    }

    fn message_length(&self) -> (l: usize) {
        MESSAGELENGTH
    }

    fn configuration_frames(&self) -> (frames: Vec<Vec<u8>>) {
        proof {
            use_type_invariant(self);
        }
        let mut tx = copy_frame_buffer(&self.tx);
        build_frame(
            &mut tx,
            1,
            CommunicationDirection::ToModule,
            MODULEID,
            MessageType::Configuration,
            1,
            MESSAGELENGTH,
        );
        let mut frames: Vec<Vec<u8>> = Vec::new();
        frames.push(tx);
        proof {
            assert(frames@.map_values(|f: Vec<u8>| f@) =~= self.config_frames_spec());
        }
        frames
    }
}

} // verus!
