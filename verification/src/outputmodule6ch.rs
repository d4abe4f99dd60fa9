//! The six-channel output module: current-limit and frequency packing
//! across its two configuration frames, the output-setting frame, and the
//! feedback decoder.

use vstd::prelude::*;
use crate::frame::{build_frame, copy_frame_buffer, enveloped, le_i16_at, le_i16, le_u16_at,
    le_u16, le_u32_at, le_u32};
use crate::module::{CommunicationDirection, GOcontrollModule, MessageType, ModuleSlot};

verus! {

/// Wire code of this module type, carried in the envelope header.
pub const MODULEID: u8 = 22;

/// Message length of this module's envelope: the checksum sits at index 43
/// of the 50-byte transfer buffer.
pub const MESSAGELENGTH: usize = 44;

/// Size of this module's transfer buffer.
pub const BUFFER_LENGTH: usize = 50;

/// Gap, in microseconds, between the two configuration pushes.
pub const CONFIG_PUSH_GAP_US: u64 = 500;

/// Output channel functions; `Unused` leaves the channel unconfigured.
#[derive(Clone, Copy, Debug, PartialEq, Eq, Structural)]
pub enum OutputModule6ChFunction {
    Unused,
    HalfBridge,
    LowSideDutyCycle,
    HighSideDutyCycle,
    LowSideSwitch,
    HighSideSwitch,
    PeakAndHold,
    FrequencyOut,
}

impl OutputModule6ChFunction {
    /// The function's wire code.
    pub open spec fn code_spec(self) -> u8 {
        match self {
            OutputModule6ChFunction::Unused => 1,
            OutputModule6ChFunction::HalfBridge => 2,
            OutputModule6ChFunction::LowSideDutyCycle => 3,
            OutputModule6ChFunction::HighSideDutyCycle => 4,
            OutputModule6ChFunction::LowSideSwitch => 5,
            OutputModule6ChFunction::HighSideSwitch => 6,
            OutputModule6ChFunction::PeakAndHold => 7,
            OutputModule6ChFunction::FrequencyOut => 8,
        }
    }

    #[verifier::when_used_as_spec(code_spec)]
    pub fn code(self) -> (r: u8)
        ensures
            r == self.code_spec(),
    {
        match self {
            OutputModule6ChFunction::Unused => 1,
            OutputModule6ChFunction::HalfBridge => 2,
            OutputModule6ChFunction::LowSideDutyCycle => 3,
            OutputModule6ChFunction::HighSideDutyCycle => 4,
            OutputModule6ChFunction::LowSideSwitch => 5,
            OutputModule6ChFunction::HighSideSwitch => 6,
            OutputModule6ChFunction::PeakAndHold => 7,
            OutputModule6ChFunction::FrequencyOut => 8,
        }
    }
}

/// Switching frequency of one output channel pair.
#[derive(Clone, Copy, Debug, PartialEq, Eq, Structural)]
pub enum OutputModule6ChFrequency {
    Freq100Hz,
    Freq200Hz,
    Freq500Hz,
    Freq1KHz,
    Freq2KHz,
    Freq5KHz,
    Freq10KHz,
}

impl OutputModule6ChFrequency {
    /// The frequency's wire code.
    pub open spec fn code_spec(self) -> u8 {
        match self {
            OutputModule6ChFrequency::Freq100Hz => 1,
            OutputModule6ChFrequency::Freq200Hz => 2,
            OutputModule6ChFrequency::Freq500Hz => 3,
            OutputModule6ChFrequency::Freq1KHz => 4,
            OutputModule6ChFrequency::Freq2KHz => 5,
            OutputModule6ChFrequency::Freq5KHz => 6,
            OutputModule6ChFrequency::Freq10KHz => 7,
        }
    }

    #[verifier::when_used_as_spec(code_spec)]
    pub fn code(self) -> (r: u8)
        ensures
            r == self.code_spec(),
    {
        match self {
            OutputModule6ChFrequency::Freq100Hz => 1,
            OutputModule6ChFrequency::Freq200Hz => 2,
            OutputModule6ChFrequency::Freq500Hz => 3,
            OutputModule6ChFrequency::Freq1KHz => 4,
            OutputModule6ChFrequency::Freq2KHz => 5,
            OutputModule6ChFrequency::Freq5KHz => 6,
            OutputModule6ChFrequency::Freq10KHz => 7,
        }
    }
}

/// The configuration of one output channel.
#[derive(Clone, Copy, Debug)]
pub struct OutputModule6ChConfig {
    pub function: OutputModule6ChFunction,
    pub peak_current: Option<u16>,
    pub peak_time: Option<u16>,
    pub max_current: Option<u16>,
}

impl OutputModule6ChConfig {
    /// Bundles one channel's function, its current limit and its
    /// peak-and-hold parameters.
    pub fn new(
        function: OutputModule6ChFunction,
        max_current: Option<u16>,
        peak_current: Option<u16>,
        peak_time: Option<u16>,
    ) -> (r: OutputModule6ChConfig)
        ensures
            r == (OutputModule6ChConfig { function, max_current, peak_current, peak_time }),
    {
        OutputModule6ChConfig { function, max_current, peak_current, peak_time }
    }
}

/// The switching frequencies of the three output channel pairs.
#[derive(Clone, Copy, Debug)]
pub struct OutputModule6ChFrequecyConfig {
    pub frequencies: [OutputModule6ChFrequency; 3],
}

impl OutputModule6ChFrequecyConfig {
    /// Bundles the three channel-pair frequencies.
    pub fn new(
        channel1_2: OutputModule6ChFrequency,
        channel3_4: OutputModule6ChFrequency,
        channel5_6: OutputModule6ChFrequency,
    ) -> (r: OutputModule6ChFrequecyConfig)
        ensures
            r.frequencies@ == seq![channel1_2, channel3_4, channel5_6],
    {
        let r = OutputModule6ChFrequecyConfig { frequencies: [channel1_2, channel3_4, channel5_6] };
        proof {
            assert(r.frequencies@ =~= seq![channel1_2, channel3_4, channel5_6]);
        }
        r
    }
}

/// The feedback block an output module returns with every data exchange.
#[derive(Clone, Copy, Debug, PartialEq, Eq, Structural)]
pub struct OutputModule6ChFeedback {
    pub temperature: i16,
    pub groundshift: u16,
    pub channel1_current: i16,
    pub channel2_current: i16,
    pub channel3_current: i16,
    pub channel4_current: i16,
    pub channel5_current: i16,
    pub channel6_current: i16,
    pub fault_codes: u32,
}

/// Byte `j` of the first 50-byte configuration payload: one byte per
/// channel at 6..11 packing the function code (high nibble) with its
/// pair's frequency code (low nibble), and the little-endian current
/// limit at 12..23, `0xffff` when no limit is set.  An unconfigured
/// channel leaves its bytes zero.
pub open spec fn output6_config_byte_1(
    channels: Seq<Option<OutputModule6ChConfig>>,
    frequency_channels: OutputModule6ChFrequecyConfig,
    j: int,
) -> u8 {
    if 6 <= j < 12 {
        let i = j - 6;
        match channels[i] {
            Option::None => 0,
            Option::Some(c) => (c.function.code_spec() << 4) | frequency_channels.frequencies[
                i / 2
            ].code_spec(),
        }
    } else if 12 <= j < 24 {
        let i = (j - 12) / 2;
        match channels[i] {
            Option::None => 0,
            Option::Some(c) => match c.max_current {
                Option::Some(max) => if (j - 12) % 2 == 0 {
                    (max & 0xff) as u8
                } else {
                    (max >> 8) as u8
                },
                Option::None => 255,
            },
        }
    } else {
        0
    }
}

/// Byte `j` of the second 50-byte configuration payload: the little-endian
/// peak current of each channel at 6..17 and its peak time at 18..29,
/// both zero when unset.  An unconfigured channel leaves its bytes zero.
pub open spec fn output6_config_byte_2(
    channels: Seq<Option<OutputModule6ChConfig>>,
    j: int,
) -> u8 {
    if 6 <= j < 18 {
        let i = (j - 6) / 2;
        match channels[i] {
            Option::None => 0,
            Option::Some(c) => match c.peak_current {
                Option::Some(peak) => if (j - 6) % 2 == 0 {
                    (peak & 0xff) as u8
                } else {
                    (peak >> 8) as u8
                },
                Option::None => 0,
            },
        }
    } else if 18 <= j < 30 {
        let i = (j - 18) / 2;
        match channels[i] {
            Option::None => 0,
            Option::Some(c) => match c.peak_time {
                Option::Some(peak) => if (j - 18) % 2 == 0 {
                    (peak & 0xff) as u8
                } else {
                    (peak >> 8) as u8
                },
                Option::None => 0,
            },
        }
    } else {
        0
    }
}

/// A six-channel output module: its slot and the two configuration
/// payloads built at construction.  The bus handle that carries its
/// transfers lives with the embedding application.
pub struct OutputModule6Ch {
    slot: ModuleSlot,
    tx_data: Vec<u8>,
    tx_data_2: Vec<u8>,
}

impl OutputModule6Ch {
    #[verifier::type_invariant]
    spec fn type_wf(self) -> bool {
        self.tx_data@.len() == BUFFER_LENGTH && self.tx_data_2@.len() == BUFFER_LENGTH
    }

    /// The first configuration payload as built at construction.
    pub closed spec fn config_bytes_1(self) -> Seq<u8> {
        self.tx_data@
    }

    /// The second configuration payload as built at construction.
    pub closed spec fn config_bytes_2(self) -> Seq<u8> {
        self.tx_data_2@
    }

    /// Builds a six-channel output module for `slot` from the per-channel
    /// configurations and the channel-pair frequencies, packing both
    /// configuration payloads byte by byte.
    pub fn new(
        slot: ModuleSlot,
        channels: [Option<OutputModule6ChConfig>; 6],
        frequency_channels: OutputModule6ChFrequecyConfig,
    ) -> (r: OutputModule6Ch)
        ensures
            r.slot_spec() == slot,
            r.config_bytes_1().len() == BUFFER_LENGTH,
            r.config_bytes_2().len() == BUFFER_LENGTH,
            forall|j: int|
                0 <= j < BUFFER_LENGTH ==> r.config_bytes_1()[j] == output6_config_byte_1(
                    channels@,
                    frequency_channels,
                    j,
                ),
            forall|j: int|
                0 <= j < BUFFER_LENGTH ==> r.config_bytes_2()[j] == output6_config_byte_2(
                    channels@,
                    j,
                ),
    {
        let mut tx_data: Vec<u8> = Vec::new();
        let mut tx_data_2: Vec<u8> = Vec::new();
        let mut i: usize = 0;
        while i < BUFFER_LENGTH
            invariant
                i == tx_data@.len(),
                i == tx_data_2@.len(),
                i <= BUFFER_LENGTH,
                forall|j: int| 0 <= j < i ==> tx_data@[j] == 0,
                forall|j: int| 0 <= j < i ==> tx_data_2@[j] == 0,
            decreases BUFFER_LENGTH - i,
        {
            tx_data.push(0);
            tx_data_2.push(0);
            i += 1;
        }
        let mut index: usize = 0;
        while index < 6
            invariant
                index <= 6,
                tx_data@.len() == BUFFER_LENGTH,
                tx_data_2@.len() == BUFFER_LENGTH,
                forall|j: int|
                    6 <= j < 6 + index ==> tx_data@[j] == output6_config_byte_1(
                        channels@,
                        frequency_channels,
                        j,
                    ),
                forall|j: int|
                    12 <= j < 12 + 2 * index ==> tx_data@[j] == output6_config_byte_1(
                        channels@,
                        frequency_channels,
                        j,
                    ),
                forall|j: int|
                    (0 <= j < 6 || 6 + index <= j < 12 || 12 + 2 * index <= j < BUFFER_LENGTH)
                        ==> tx_data@[j] == 0,
                forall|j: int|
                    6 <= j < 6 + 2 * index ==> tx_data_2@[j] == output6_config_byte_2(
                        channels@,
                        j,
                    ),
                forall|j: int|
                    18 <= j < 18 + 2 * index ==> tx_data_2@[j] == output6_config_byte_2(
                        channels@,
                        j,
                    ),
                forall|j: int|
                    (0 <= j < 6 || 6 + 2 * index <= j < 18 || 18 + 2 * index <= j
                        < BUFFER_LENGTH) ==> tx_data_2@[j] == 0,
            decreases 6 - index,
        {
            match channels[index] {
                Some(config) => {
                    tx_data.set(
                        index + 6,
                        (config.function.code() << 4) | frequency_channels.frequencies[index
                            / 2].code(),
                    );
                    match config.max_current {
                        Some(max) => {
                            tx_data.set(index * 2 + 12, (max & 0xff) as u8);
                            tx_data.set(index * 2 + 13, (max >> 8) as u8);
                        },
                        None => {
                            tx_data.set(index * 2 + 12, 255);
                            tx_data.set(index * 2 + 13, 255);
                        },
                    }
                    match config.peak_current {
                        Some(peak_curr) => {
                            tx_data_2.set(index * 2 + 6, (peak_curr & 0xff) as u8);
                            tx_data_2.set(index * 2 + 7, (peak_curr >> 8) as u8);
                        },
                        None => {
                            tx_data_2.set(index * 2 + 6, 0);
                            tx_data_2.set(index * 2 + 7, 0);
                        },
                    }
                    match config.peak_time {
                        Some(peak_t) => {
                            tx_data_2.set(index * 2 + 18, (peak_t & 0xff) as u8);
                            tx_data_2.set(index * 2 + 19, (peak_t >> 8) as u8);
                        },
                        None => {
                            tx_data_2.set(index * 2 + 18, 0);
                            tx_data_2.set(index * 2 + 19, 0);
                        },
                    }
                },
                None => {},
            }
            index += 1;
        }
        OutputModule6Ch { slot, tx_data, tx_data_2 }
    }

    /// Byte `j` of the payload that sets the six output channel values:
    /// each channel's little-endian value sits at its channel offset,
    /// zero elsewhere.
    pub open spec fn outputs_payload(
        channel1: u16,
        channel2: u16,
        channel3: u16,
        channel4: u16,
        channel5: u16,
        channel6: u16,
    ) -> Seq<u8> {
        Seq::new(
            BUFFER_LENGTH as nat,
            |j: int|
                if j == 6 {
                    (channel1 & 0xff) as u8
                } else if j == 7 {
                    (channel1 >> 8) as u8
                } else if j == 12 {
                    (channel2 & 0xff) as u8
                } else if j == 13 {
                    (channel2 >> 8) as u8
                } else if j == 18 {
                    (channel3 & 0xff) as u8
                } else if j == 19 {
                    (channel3 >> 8) as u8
                } else if j == 24 {
                    (channel4 & 0xff) as u8
                } else if j == 25 {
                    (channel4 >> 8) as u8
                } else if j == 30 {
                    (channel5 & 0xff) as u8
                } else if j == 31 {
                    (channel5 >> 8) as u8
                } else if j == 36 {
                    (channel6 & 0xff) as u8
                } else if j == 37 {
                    (channel6 >> 8) as u8
                } else {
                    0u8
                },
        )
    }

    /// Builds the frame that hands the module its six output channel
    /// values and asks for the feedback block in exchange.
    pub fn set_outputs_frame(
        &self,
        channel1: u16,
        channel2: u16,
        channel3: u16,
        channel4: u16,
        channel5: u16,
        channel6: u16,
    ) -> (r: Vec<u8>)
        ensures
            r@ == enveloped(
                Self::outputs_payload(channel1, channel2, channel3, channel4, channel5, channel6),
                1,
                CommunicationDirection::ToModule.code_spec(),
                MODULEID,
                MessageType::Data.code_spec(),
                1,
                MESSAGELENGTH as int,
            ),
            r@.len() == BUFFER_LENGTH,
    {
        let mut tx: Vec<u8> = Vec::new();
        let mut i: usize = 0;
        while i < BUFFER_LENGTH
            invariant
                i == tx@.len(),
                i <= BUFFER_LENGTH,
                forall|j: int| 0 <= j < i ==> tx@[j] == 0,
            decreases BUFFER_LENGTH - i,
        {
            tx.push(0);
            i += 1;
        }
        tx.set(6, (channel1 & 0xff) as u8);
        tx.set(7, (channel1 >> 8) as u8);
        tx.set(12, (channel2 & 0xff) as u8);
        tx.set(13, (channel2 >> 8) as u8);
        tx.set(18, (channel3 & 0xff) as u8);
        tx.set(19, (channel3 >> 8) as u8);
        tx.set(24, (channel4 & 0xff) as u8);
        tx.set(25, (channel4 >> 8) as u8);
        tx.set(30, (channel5 & 0xff) as u8);
        tx.set(31, (channel5 >> 8) as u8);
        tx.set(36, (channel6 & 0xff) as u8);
        tx.set(37, (channel6 >> 8) as u8);
        proof {
            assert(tx@ =~= Self::outputs_payload(
                channel1,
                channel2,
                channel3,
                channel4,
                channel5,
                channel6,
            ));
        }
        build_frame(
            &mut tx,
            1,
            CommunicationDirection::ToModule,
            MODULEID,
            MessageType::Data,
            1,
            MESSAGELENGTH,
        );
        tx
    }

    /// Decodes the feedback block out of a response to the data exchange:
    /// board temperature and ground shift, the six channel currents, and
    /// the fault word.  When the exchange itself failed its checksum
    /// (`integrity_error`), the dedicated data-integrity fault bit is set
    /// on top of the reported fault word.
    pub fn decode_feedback(rx: &[u8], integrity_error: bool) -> (r: OutputModule6ChFeedback)
        requires
            rx@.len() >= 26,
        ensures
            r.temperature == le_i16_at(rx@, 6),
            r.groundshift == le_u16_at(rx@, 8),
            r.channel1_current == le_i16_at(rx@, 10),
            r.channel2_current == le_i16_at(rx@, 12),
            r.channel3_current == le_i16_at(rx@, 14),
            r.channel4_current == le_i16_at(rx@, 16),
            r.channel5_current == le_i16_at(rx@, 18),
            r.channel6_current == le_i16_at(rx@, 20),
            r.fault_codes == le_u32_at(rx@, 22) | (if integrity_error {
                0x20000000u32
            } else {
                0u32
            }),
    {
        let fault_word = le_u32(rx, 22);
        let fault_codes = if integrity_error {
            fault_word | 0x20000000
        } else {
            fault_word | 0
        };
        OutputModule6ChFeedback {
            temperature: le_i16(rx, 6),
            groundshift: le_u16(rx, 8),
            channel1_current: le_i16(rx, 10),
            channel2_current: le_i16(rx, 12),
            channel3_current: le_i16(rx, 14),
            channel4_current: le_i16(rx, 16),
            channel5_current: le_i16(rx, 18),
            channel6_current: le_i16(rx, 20),
            fault_codes,
        }
    }
}

impl GOcontrollModule for OutputModule6Ch {
    closed spec fn slot_spec(&self) -> ModuleSlot {
        self.slot
    }

    closed spec fn message_length_spec(&self) -> usize {
        MESSAGELENGTH
    }

    open spec fn config_frames_spec(&self) -> Seq<Seq<u8>> {
        seq![
            enveloped(
                self.config_bytes_1(),
                1,
                CommunicationDirection::ToModule.code_spec(),
                MODULEID,
                MessageType::Configuration.code_spec(),
                1,
                MESSAGELENGTH as int,
            ),
            enveloped(
                self.config_bytes_2(),
                1,
                CommunicationDirection::ToModule.code_spec(),
                MODULEID,
                MessageType::Configuration.code_spec(),
                2,
                MESSAGELENGTH as int,
            ),
        ]
    }

    fn get_slot(&self) -> (s: ModuleSlot) {
        self.slot
    }

    fn message_length(&self) -> (l: usize) {
        MESSAGELENGTH
    }

    fn configuration_frames(&self) -> (frames: Vec<Vec<u8>>) {
        proof {
            use_type_invariant(self);
        }
        let mut first = copy_frame_buffer(&self.tx_data);
        build_frame(
            &mut first,
            1,
            CommunicationDirection::ToModule,
            MODULEID,
            MessageType::Configuration,
            1,
            MESSAGELENGTH,
        );
        let mut second = copy_frame_buffer(&self.tx_data_2);
        build_frame(
            &mut second,
            1,
            CommunicationDirection::ToModule,
            MODULEID,
            MessageType::Configuration,
            2,
            MESSAGELENGTH,
        );
        let mut frames: Vec<Vec<u8>> = Vec::new();
        frames.push(first);
        frames.push(second);
        proof {
            assert(frames@.map_values(|f: Vec<u8>| f@) =~= self.config_frames_spec());
        }
        frames
    }
}

} // verus!
