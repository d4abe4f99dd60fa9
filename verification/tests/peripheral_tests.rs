use gocontroll_platform::mainboard::{AdcChannel, EnclosureLed};
use gocontroll_platform::peripherals::{ads_request_bytes, convert_ads, convert_mcp,
    gpio_led_commands, gpio_led_path, is_mcp3004_name, mcp_channel_file_name, mcp_channel_index,
    rukr_init_commands, rukr_led_commands, shared_bus_path, ADS_SLAVE_ADDRESS,
    RUKR_SLAVE_ADDRESS};

#[test]
fn ads_zero_whenever_sign_bit_set() {
    // bit 7 of the first byte forces zero regardless of the remaining bits
    assert_eq!(convert_ads([0x80, 0x00]), 0);
    assert_eq!(convert_ads([0xff, 0xff]), 0);
    assert_eq!(convert_ads([0x80, 0xf0]), 0);
    assert_eq!(convert_ads([0xc3, 0x55]), 0);
}

#[test]
fn ads_scales_when_sign_bit_clear() {
    // raw 0x123 = 291; 291 * 15608 / 1000 = 4541
    assert_eq!(convert_ads([0x12, 0x34]), 4541);
    assert_eq!(convert_ads([0x00, 0x00]), 0);
    // largest non-negative raw value: 0x7ff = 2047; 2047 * 15608 / 1000 = 31949
    assert_eq!(convert_ads([0x7f, 0xff]), 31949);
}

#[test]
fn mcp_zero_for_empty_or_unreadable() {
    assert_eq!(convert_mcp(""), 0);
    assert_eq!(convert_mcp("12a4"), 0);
    assert_eq!(convert_mcp("-5"), 0);
    assert_eq!(convert_mcp(" 12"), 0);
}

#[test]
fn mcp_scales_decimal_text() {
    // 512 * 2554 / 100 = 13076
    assert_eq!(convert_mcp("512"), 13076);
    // 1023 * 2554 / 100 = 26127
    assert_eq!(convert_mcp("1023"), 26127);
    assert_eq!(convert_mcp("0"), 0);
    // values that would scale past u16::MAX saturate
    assert_eq!(convert_mcp("99999"), 65535);
    assert_eq!(convert_mcp("2567"), 65535);
    // 2566 * 2554 / 100 = 65535: the largest value still exact
    assert_eq!(convert_mcp("2566"), 65535);
}

#[test]
fn mcp_channel_mapping() {
    assert_eq!(mcp_channel_index(AdcChannel::K30), 3);
    assert_eq!(mcp_channel_index(AdcChannel::K15A), 0);
    assert_eq!(mcp_channel_index(AdcChannel::K15B), 1);
    assert_eq!(mcp_channel_index(AdcChannel::K15C), 2);
    assert_eq!(mcp_channel_file_name(0), "in_voltage0_raw");
    assert_eq!(mcp_channel_file_name(3), "in_voltage3_raw");
}

#[test]
fn mcp_device_name_matching() {
    assert!(is_mcp3004_name("mcp3004"));
    assert!(is_mcp3004_name("spi0.0: mcp3004 10-bit adc"));
    assert!(!is_mcp3004_name("ads1015"));
    assert!(!is_mcp3004_name("mcp300"));
    assert!(!is_mcp3004_name(""));
}

#[test]
fn ads_request_selects_channel() {
    assert_eq!(ads_request_bytes(AdcChannel::K30), vec![0x01, 0xf3, 0xe3]);
    assert_eq!(ads_request_bytes(AdcChannel::K15A), vec![0x01, 0xc3, 0xe3]);
    assert_eq!(shared_bus_path(), "/dev/i2c-2");
    assert_eq!(ADS_SLAVE_ADDRESS, 0x48);
    assert_eq!(RUKR_SLAVE_ADDRESS, 0x14);
}

#[test]
fn rukr_led_register_writes() {
    assert_eq!(rukr_init_commands(), vec![(23, 255), (0, 64)]);
    // LED 2 (ordinal 1): registers 0x0b + 3 onward
    assert_eq!(
        rukr_led_commands(EnclosureLed::Led2, 10, 0, 255),
        vec![(14, 10), (15, 0), (16, 255)]
    );
}

#[test]
fn gpio_led_writes_are_thresholded() {
    assert_eq!(
        gpio_led_commands(EnclosureLed::Led3, 0, 1, 0),
        vec![(6, false), (7, true), (8, false)]
    );
    assert_eq!(gpio_led_path(0), "/sys/class/leds/Status1-r/brightness");
    assert_eq!(gpio_led_path(11), "/sys/class/leds/Status4-b/brightness");
}
