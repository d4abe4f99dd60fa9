use gocontroll_platform::mainboard::MainBoard;
use gocontroll_platform::module::{GOcontrollModule, ModuleSlot};
use gocontroll_platform::inputmodule6ch::{self, InputModule6Ch, InputModule6ChConfig,
    InputModule6ChFunction, InputModule6ChPullDown, InputModule6ChPullUp,
    InputModule6ChVoltageRange, InputModuleSupply, Inputmodule6chSupplyConfig};
use gocontroll_platform::inputmodule10ch::{self, InputModule10Ch, InputModule10ChConfig,
    InputModule10ChFunction, InputModule10ChPullDown, InputModule10ChPullUp};
use gocontroll_platform::outputmodule6ch::{OutputModule6Ch, OutputModule6ChConfig,
    OutputModule6ChFeedback, OutputModule6ChFrequecyConfig, OutputModule6ChFrequency,
    OutputModule6ChFunction};

fn input6_with_channel_at_1() -> InputModule6Ch {
    let config = InputModule6ChConfig::new(
        InputModule6ChFunction::AnalogmV,
        InputModule6ChPullDown::PullDown10k,
        InputModule6ChPullUp::PullUp4_7k,
        InputModule6ChVoltageRange::Voltage0_24V,
        0,
        0x0102,
    );
    InputModule6Ch::new(
        ModuleSlot::Moduleslot1,
        [None, Some(config), None, None, None, None],
        Inputmodule6chSupplyConfig::new(
            InputModuleSupply::On,
            InputModuleSupply::Off,
            InputModuleSupply::On,
        ),
    )
}

#[test]
fn input6_configuration_frame_layout() {
    let module = input6_with_channel_at_1();
    assert_eq!(module.get_slot(), ModuleSlot::Moduleslot1);
    let frames = module.configuration_frames();
    assert_eq!(frames.len(), 1);
    let tx = &frames[0];
    assert_eq!(tx.len(), 56);
    // envelope header
    assert_eq!(&tx[0..6], &[1, 54, 1, 11, 2, 1]);
    // channel 1 configuration: function, packed pulls and range, filter words
    assert_eq!(tx[6], 2);
    assert_eq!(tx[7], 1 | (2 << 2) | (2 << 6));
    assert_eq!(tx[8], 1);
    assert_eq!(tx[9], 2);
    assert_eq!(&tx[10..12], &[0, 0]);
    // sensor supplies
    assert_eq!(&tx[42..45], &[1, 2, 1]);
    // the stamped frame validates
    assert!(MainBoard::module_checksum(tx, inputmodule6ch::MESSAGELENGTH).is_ok());
}

#[test]
fn input6_pulse_function_packs_rotation_byte() {
    let config = InputModule6ChConfig::new(
        InputModule6ChFunction::Rpm,
        InputModule6ChPullDown::PullDownNone,
        InputModule6ChPullUp::PulUpnNone,
        InputModule6ChVoltageRange::Voltage0_5V,
        17,
        9999,
    );
    let module = InputModule6Ch::new(
        ModuleSlot::Moduleslot1,
        [None, None, Some(config), None, None, None],
        Inputmodule6chSupplyConfig::new(
            InputModuleSupply::On,
            InputModuleSupply::On,
            InputModuleSupply::On,
        ),
    );
    let frames = module.configuration_frames();
    let tx = &frames[0];
    assert_eq!(tx[12], 7);
    assert_eq!(tx[13], 0);
    // a non-analog function carries pulses per rotation, not filter words
    assert_eq!(tx[14], 17);
    assert_eq!(tx[15], 0);
}

#[test]
fn input6_decode_values() {
    let mut rx = vec![0u8; 56];
    rx[6..10].copy_from_slice(&[100, 0, 0, 0]);
    rx[14..18].copy_from_slice(&[0xff, 0xff, 0xff, 0xff]);
    rx[38..42].copy_from_slice(&[0x00, 0x01, 0x00, 0x00]);
    let values = InputModule6Ch::decode_values(&rx);
    assert_eq!(values, [100, -1, 0, 0, 256, 0]);
}

#[test]
fn input6_reset_pulse_counter_frame() {
    let module = input6_with_channel_at_1();
    let tx = module.reset_pulse_counter_frame(
        gocontroll_platform::inputmodule6ch::InputModuleChannel::Channel3,
        -2,
    );
    assert_eq!(&tx[0..6], &[1, 54, 1, 11, 3, 2]);
    assert_eq!(tx[6], 2);
    assert_eq!(&tx[7..11], &[0xfe, 0xff, 0xff, 0xff]);
    assert!(MainBoard::module_checksum(&tx, inputmodule6ch::MESSAGELENGTH).is_ok());
}

#[test]
fn input6_values_request_frame() {
    let module = input6_with_channel_at_1();
    let tx = module.values_request_frame();
    assert_eq!(&tx[0..6], &[1, 54, 2, 11, 3, 1]);
    for i in 6..54 {
        assert_eq!(tx[i], 0);
    }
    assert!(MainBoard::module_checksum(&tx, inputmodule6ch::MESSAGELENGTH).is_ok());
}

#[test]
fn input10_configuration_frame_layout() {
    let config = InputModule10ChConfig::new(
        InputModule10ChFunction::DigitalIn,
        InputModule10ChPullDown::PullDown3_3k,
        InputModule10ChPullUp::PullUp3_3k,
    );
    let module = InputModule10Ch::new(
        ModuleSlot::Moduleslot3,
        [None, None, Some(config), None, None, None, None, None, None, None],
        InputModuleSupply::Off,
    );
    assert_eq!(module.get_slot(), ModuleSlot::Moduleslot3);
    let frames = module.configuration_frames();
    assert_eq!(frames.len(), 1);
    let tx = &frames[0];
    assert_eq!(tx.len(), 56);
    assert_eq!(&tx[0..6], &[1, 49, 1, 12, 2, 1]);
    // channel 2 configuration at its four-byte stride
    assert_eq!(tx[8], 3);
    assert_eq!(tx[9], 3 | (3 << 2));
    // sensor supply
    assert_eq!(tx[46], 2);
    assert!(MainBoard::module_checksum(tx, inputmodule10ch::MESSAGELENGTH).is_ok());
}

#[test]
fn input10_decode_values() {
    let mut rx = vec![0u8; 56];
    rx[6..10].copy_from_slice(&[1, 0, 0, 0]);
    rx[38..42].copy_from_slice(&[0x2c, 0x01, 0, 0]);
    let values = InputModule10Ch::decode_values(&rx);
    assert_eq!(values, [1, 0, 0, 0, 0, 0, 0, 0, 300, 0]);
}

#[test]
fn output6_configuration_frames_layout() {
    let config = OutputModule6ChConfig::new(
        OutputModule6ChFunction::HalfBridge,
        Some(5000),
        Some(300),
        Some(10),
    );
    let module = OutputModule6Ch::new(
        ModuleSlot::Moduleslot2,
        [Some(config), None, None, None, None, None],
        OutputModule6ChFrequecyConfig::new(
            OutputModule6ChFrequency::Freq1KHz,
            OutputModule6ChFrequency::Freq2KHz,
            OutputModule6ChFrequency::Freq5KHz,
        ),
    );
    let frames = module.configuration_frames();
    assert_eq!(frames.len(), 2);
    let first = &frames[0];
    assert_eq!(first.len(), 50);
    assert_eq!(&first[0..6], &[1, 43, 1, 22, 2, 1]);
    // function in the high nibble, the pair's frequency in the low nibble
    assert_eq!(first[6], (2 << 4) | 4);
    assert_eq!(first[7], 0);
    // current limit, little endian
    assert_eq!(&first[12..14], &[0x88, 0x13]);
    assert_eq!(&first[14..16], &[0, 0]);
    let second = &frames[1];
    assert_eq!(&second[0..6], &[1, 43, 1, 22, 2, 2]);
    assert_eq!(&second[6..8], &[0x2c, 0x01]);
    assert_eq!(&second[18..20], &[10, 0]);
}

#[test]
fn output6_unlimited_channel_writes_max_sentinel() {
    let config = OutputModule6ChConfig::new(OutputModule6ChFunction::HighSideSwitch, None, None, None);
    let module = OutputModule6Ch::new(
        ModuleSlot::Moduleslot2,
        [None, None, None, Some(config), None, None],
        OutputModule6ChFrequecyConfig::new(
            OutputModule6ChFrequency::Freq100Hz,
            OutputModule6ChFrequency::Freq100Hz,
            OutputModule6ChFrequency::Freq100Hz,
        ),
    );
    let frames = module.configuration_frames();
    let first = &frames[0];
    assert_eq!(first[9], (6 << 4) | 1);
    // no current limit: the sentinel 0xffff
    assert_eq!(&first[18..20], &[255, 255]);
    let second = &frames[1];
    assert_eq!(&second[12..14], &[0, 0]);
    assert_eq!(&second[24..26], &[0, 0]);
}

#[test]
fn output6_set_outputs_frame_layout() {
    let config = OutputModule6ChConfig::new(OutputModule6ChFunction::HalfBridge, None, None, None);
    let module = OutputModule6Ch::new(
        ModuleSlot::Moduleslot2,
        [Some(config), None, None, None, None, None],
        OutputModule6ChFrequecyConfig::new(
            OutputModule6ChFrequency::Freq1KHz,
            OutputModule6ChFrequency::Freq1KHz,
            OutputModule6ChFrequency::Freq1KHz,
        ),
    );
    let tx = module.set_outputs_frame(1000, 2000, 3000, 4000, 5000, 6000);
    assert_eq!(&tx[0..6], &[1, 43, 1, 22, 3, 1]);
    assert_eq!(&tx[6..8], &[0xe8, 0x03]);
    assert_eq!(&tx[12..14], &[0xd0, 0x07]);
    assert_eq!(&tx[18..20], &[0xb8, 0x0b]);
    assert_eq!(&tx[24..26], &[0xa0, 0x0f]);
    assert_eq!(&tx[30..32], &[0x88, 0x13]);
    assert_eq!(&tx[36..38], &[0x70, 0x17]);
    assert!(MainBoard::module_checksum(&tx, 44).is_ok());
}

#[test]
fn output6_decode_feedback() {
    let mut rx = vec![0u8; 50];
    rx[6..8].copy_from_slice(&[0xfb, 0xff]);
    rx[8..10].copy_from_slice(&[0xd2, 0x04]);
    rx[10..12].copy_from_slice(&[0x9c, 0xff]);
    rx[12..14].copy_from_slice(&[0x64, 0x00]);
    rx[22..26].copy_from_slice(&[0x10, 0, 0, 0]);
    let fb = OutputModule6Ch::decode_feedback(&rx, false);
    assert_eq!(
        fb,
        OutputModule6ChFeedback {
            temperature: -5,
            groundshift: 1234,
            channel1_current: -100,
            channel2_current: 100,
            channel3_current: 0,
            channel4_current: 0,
            channel5_current: 0,
            channel6_current: 0,
            fault_codes: 0x10,
        }
    );
    // a checksum mismatch on the exchange sets the data-integrity fault bit
    let fb_bad = OutputModule6Ch::decode_feedback(&rx, true);
    assert_eq!(fb_bad.fault_codes, 0x20000010);
}
