//! The two interchangeable peripheral backends behind one read/write
//! surface, selected by the resolved hardware profile.
//!
//! ADC backend `Mcp3004` reads one raw text-valued channel file per
//! logical channel; backend `Ads1015` selects each logical channel by
//! writing a channel-address byte to one shared addressed bus device.
//! The LED strategies are analogous: one addressed bus device with one
//! register per colour channel, or discrete digital outputs.
//!
//! The file and bus reads themselves are I/O and live with the embedding
//! application; everything here computes from and to plain values.

use vstd::prelude::*;
use vstd::string::StrSliceExecFns;
use crate::mainboard::{AdcChannel, EnclosureLed};
use crate::text::{contains_str, str_contains};

verus! {

/// Largest decimal value a channel file may carry before the scaled
/// result saturates: anything above it scales past `u16::MAX`.
pub const MCP_RAW_CEILING: u32 = 2566;

/// Path of the shared addressed bus device that carries both the
/// `Ads1015` converter and the `Rukr` LED controller.
pub fn shared_bus_path() -> (r: &'static str)
    ensures
        r@ == "/dev/i2c-2"@,
{
    "/dev/i2c-2"
}

/// Bus address of the `Ads1015` converter on the shared bus device.
pub const ADS_SLAVE_ADDRESS: u8 = 0x48;

/// Bus address of the `Rukr` LED controller on the shared bus device.
pub const RUKR_SLAVE_ADDRESS: u8 = 0x14;

/// A character is a decimal digit.
pub open spec fn is_digit(c: char) -> bool {
    48 <= c as u32 <= 57
}

/// Every character of the sequence is a decimal digit.
pub open spec fn all_digits(s: Seq<char>) -> bool {
    forall|i: int| 0 <= i < s.len() ==> is_digit(s[i])
}

/// The value of an all-digits decimal string.
pub open spec fn decimal_value(s: Seq<char>) -> nat
    decreases s.len(),
{
    if s.len() == 0 {
        0
    } else {
        decimal_value(s.drop_last()) * 10 + (if s.last() as u32 >= 48 {
            (s.last() as u32 - 48) as nat
        } else {
            0
        })
    }
}

/// Scaled value of one raw text-valued channel read: an empty or
/// non-numeric value counts as zero rather than an error; otherwise the
/// decimal value is scaled by 2554/100, truncated, saturating at
/// `u16::MAX`.
pub open spec fn mcp_scaled_spec(s: Seq<char>) -> u16 {
    if s.len() == 0 || !all_digits(s) {
        0
    } else if decimal_value(s) > MCP_RAW_CEILING {
        0xffff
    } else {
        ((decimal_value(s) * 2554) / 100) as u16
    }
}

/// Converts the text read from one `Mcp3004` channel file to a scaled
/// value.  An empty or unreadable value yields zero rather than an error.
pub fn convert_mcp(string_val: &str) -> (r: u16)
    ensures
        r == mcp_scaled_spec(string_val@),
{
    let len = string_val.unicode_len();
    if len == 0 {
        return 0;
    }
    let mut value: u32 = 0;
    let mut i: usize = 0;
    while i < len
        invariant
            len == string_val@.len(),
            i <= len,
            all_digits(string_val@.take(i as int)),
            value <= 25669,
            decimal_value(string_val@.take(i as int)) <= MCP_RAW_CEILING ==> value
                == decimal_value(string_val@.take(i as int)),
            decimal_value(string_val@.take(i as int)) > MCP_RAW_CEILING ==> value
                > MCP_RAW_CEILING,
        decreases len - i,
    {
        let c = string_val.get_char(i);
        let u = c as u32;
        if u < 48 || u > 57 {
            proof {
                assert(!is_digit(string_val@[i as int]));
            }
            return 0;
        }
        let d = u - 48;
        proof {
            let prefix = string_val@.take(i as int);
            let grown = string_val@.take(i as int + 1);
            assert(grown.drop_last() =~= prefix);
            assert(grown.last() == string_val@[i as int]);
            assert(decimal_value(grown) == decimal_value(prefix) * 10 + d);
        }
        if value > MCP_RAW_CEILING {
            value = MCP_RAW_CEILING + 1;
        } else {
            value = value * 10 + d;
        }
        i += 1;
    }
    proof {
        assert(string_val@.take(len as int) =~= string_val@);
    }
    if value > MCP_RAW_CEILING {
        0xffff
    } else {
        ((value * 2554) / 100) as u16
    }
}

/// The 12-bit raw value of one addressed-converter read: the first byte
/// carries the high bits, the high nibble of the second byte the low
/// bits.
pub open spec fn ads_raw_spec(b0: u8, b1: u8) -> u16 {
    ((b0 as u16) << 4) | (((b1 as u16) & 0xf0) >> 4)
}

/// Scaled value of one addressed-converter read: whenever the
/// sign/overflow bit (bit 7 of the first byte) is set the result is zero,
/// regardless of the remaining bits; otherwise the 12-bit raw value is
/// scaled by 15608/1000, truncated.
pub open spec fn ads_scaled_spec(b0: u8, b1: u8) -> u16 {
    if (b0 & 0x80) >> 7 == 1 {
        0
    } else {
        (((ads_raw_spec(b0, b1) as nat) * 15608) / 1000) as u16
    }
}

/// Law: a set sign/overflow bit (bit 7 of the first byte) forces a zero
/// conversion, whatever the remaining bits hold.
pub proof fn lemma_ads_sign_bit_zero(b0: u8, b1: u8)
    requires
        b0 >= 0x80,
    ensures
        ads_scaled_spec(b0, b1) == 0,
{
    assert((b0 & 0x80) >> 7 == 1) by (bit_vector)
        requires
            b0 >= 0x80,
    ;
}

/// Law: an empty or non-numeric channel value converts to zero rather
/// than raising an error.
pub proof fn lemma_mcp_unreadable_zero(s: Seq<char>)
    requires
        s.len() == 0 || !all_digits(s),
    ensures
        mcp_scaled_spec(s) == 0,
{
}

/// Converts the two bytes read back from the `Ads1015` converter to a
/// scaled value.
pub fn convert_ads(read_buff: [u8; 2]) -> (r: u16)
    ensures
        r == ads_scaled_spec(read_buff[0], read_buff[1]),
{
    let b0 = read_buff[0];
    let b1 = read_buff[1];
    if (b0 & 0x80) >> 7 == 1 {
        0
    } else {
        proof {
            assert(((b0 as u16) << 4) | (((b1 as u16) & 0xf0) >> 4) <= 0x7ff || (b0 & 0x80) >> 7
                == 1) by (bit_vector);
        }
        let raw = ((b0 as u16) << 4) | (((b1 as u16) & 0xf0) >> 4);
        ((raw as u32 * 15608) / 1000) as u16
    }
}

/// Which of the four `Mcp3004` channel files carries an ADC channel.
pub open spec fn mcp_channel_index_spec(channel: AdcChannel) -> usize {
    match channel {
        AdcChannel::K30 => 3,
        AdcChannel::K15A => 0,
        AdcChannel::K15B => 1,
        AdcChannel::K15C => 2,
    }
}

#[verifier::when_used_as_spec(mcp_channel_index_spec)]
pub fn mcp_channel_index(channel: AdcChannel) -> (r: usize)
    ensures
        r == mcp_channel_index_spec(channel),
{
    match channel {
        AdcChannel::K30 => 3,
        AdcChannel::K15A => 0,
        AdcChannel::K15B => 1,
        AdcChannel::K15C => 2,
    }
}

/// File name of one `Mcp3004` channel inside its device directory.
pub fn mcp_channel_file_name(index: usize) -> (r: &'static str)
    requires
        index < 4,
    ensures
        index == 0 ==> r@ == "in_voltage0_raw"@,
        index == 1 ==> r@ == "in_voltage1_raw"@,
        index == 2 ==> r@ == "in_voltage2_raw"@,
        index == 3 ==> r@ == "in_voltage3_raw"@,
{
    if index == 0 {
        "in_voltage0_raw"
    } else if index == 1 {
        "in_voltage1_raw"
    } else if index == 2 {
        "in_voltage2_raw"
    } else {
        "in_voltage3_raw"
    }
}

/// Whether a device-class entry's driver name identifies the `Mcp3004`
/// converter, as checked while scanning the device directory.
pub fn is_mcp3004_name(name: &str) -> (r: bool)
    ensures
        r <==> contains_str(name@, "mcp3004"@),
{
    str_contains(name, "mcp3004")
}

/// The three bytes written to the `Ads1015` converter to select a channel
/// and start a conversion: the config-register address, the
/// channel-address byte, and the fixed mode byte.
pub fn ads_request_bytes(channel: AdcChannel) -> (r: Vec<u8>)
    ensures
        r@ == seq![0x01u8, channel.code_spec(), 0xe3u8],
{
    let mut tx: Vec<u8> = Vec::new();
    tx.push(0x01);
    tx.push(channel.code());
    tx.push(0xe3);
    proof {
        assert(tx@ =~= seq![0x01u8, channel.code_spec(), 0xe3u8]);
    }
    tx
}

/// The two register writes that bring the `Rukr` LED controller up:
/// full brightness range, then the global enable.
pub fn rukr_init_commands() -> (r: Vec<(u8, u8)>)
    ensures
        r@ == seq![(23u8, 255u8), (0u8, 64u8)],
{
    let mut commands: Vec<(u8, u8)> = Vec::new();
    commands.push((23, 255));
    commands.push((0, 64));
    proof {
        assert(commands@ =~= seq![(23u8, 255u8), (0u8, 64u8)]);
    }
    commands
}

/// The three register writes that set one enclosure LED's colour on the
/// `Rukr` controller: registers 0x0B onward, three per LED, one each for
/// red, green and blue.
pub fn rukr_led_commands(led: EnclosureLed, red: u8, green: u8, blue: u8) -> (r: Vec<(u8, u8)>)
    ensures
        r@ == seq![
            ((0x0b + led.code_spec() * 3) as u8, red),
            ((0x0b + led.code_spec() * 3 + 1) as u8, green),
            ((0x0b + led.code_spec() * 3 + 2) as u8, blue),
        ],
{
    let base = 0x0b + led.code() * 3;
    let mut commands: Vec<(u8, u8)> = Vec::new();
    commands.push((base, red));
    commands.push((base + 1, green));
    commands.push((base + 2, blue));
    proof {
        assert(commands@ =~= seq![
            ((0x0b + led.code_spec() * 3) as u8, red),
            ((0x0b + led.code_spec() * 3 + 1) as u8, green),
            ((0x0b + led.code_spec() * 3 + 2) as u8, blue),
        ]);
    }
    commands
}

/// The three digital-output writes that set one enclosure LED's colour
/// with the `Gpio` strategy: each colour channel's output goes high
/// exactly when its colour value is nonzero.
pub fn gpio_led_commands(led: EnclosureLed, red: u8, green: u8, blue: u8) -> (r: Vec<
    (usize, bool),
>)
    ensures
        r@ == seq![
            ((led.code_spec() * 3) as usize, red > 0),
            ((led.code_spec() * 3 + 1) as usize, green > 0),
            ((led.code_spec() * 3 + 2) as usize, blue > 0),
        ],
{
    let base = (led.code() as usize) * 3;
    let mut commands: Vec<(usize, bool)> = Vec::new();
    commands.push((base, red > 0));
    commands.push((base + 1, green > 0));
    commands.push((base + 2, blue > 0));
    proof {
        assert(commands@ =~= seq![
            ((led.code_spec() * 3) as usize, red > 0),
            ((led.code_spec() * 3 + 1) as usize, green > 0),
            ((led.code_spec() * 3 + 2) as usize, blue > 0),
        ]);
    }
    commands
}

/// The fixed table from colour-channel index (three per LED) to
/// digital-output path, used by the `Gpio` LED strategy.
pub open spec fn gpio_led_path_spec(index: int) -> Seq<char> {
    if index == 0 {
        "/sys/class/leds/Status1-r/brightness"@
    } else if index == 1 {
        "/sys/class/leds/Status1-g/brightness"@
    } else if index == 2 {
        "/sys/class/leds/Status1-b/brightness"@
    } else if index == 3 {
        "/sys/class/leds/Status2-r/brightness"@
    } else if index == 4 {
        "/sys/class/leds/Status2-g/brightness"@
    } else if index == 5 {
        "/sys/class/leds/Status2-b/brightness"@
    } else if index == 6 {
        "/sys/class/leds/Status3-r/brightness"@
    } else if index == 7 {
        "/sys/class/leds/Status3-g/brightness"@
    } else if index == 8 {
        "/sys/class/leds/Status3-b/brightness"@
    } else if index == 9 {
        "/sys/class/leds/Status4-r/brightness"@
    } else if index == 10 {
        "/sys/class/leds/Status4-g/brightness"@
    } else {
        "/sys/class/leds/Status4-b/brightness"@
    }
}

/// Digital-output path of one colour channel.
pub fn gpio_led_path(index: usize) -> (r: &'static str)
    requires
        index < 12,
    ensures
        r@ == gpio_led_path_spec(index as int),
{
    if index == 0 {
        "/sys/class/leds/Status1-r/brightness"
    } else if index == 1 {
        "/sys/class/leds/Status1-g/brightness"
    } else if index == 2 {
        "/sys/class/leds/Status1-b/brightness"
    } else if index == 3 {
        "/sys/class/leds/Status2-r/brightness"
    } else if index == 4 {
        "/sys/class/leds/Status2-g/brightness"
    } else if index == 5 {
        "/sys/class/leds/Status2-b/brightness"
    } else if index == 6 {
        "/sys/class/leds/Status3-r/brightness"
    } else if index == 7 {
        "/sys/class/leds/Status3-g/brightness"
    } else if index == 8 {
        "/sys/class/leds/Status3-b/brightness"
    } else if index == 9 {
        "/sys/class/leds/Status4-r/brightness"
    } else if index == 10 {
        "/sys/class/leds/Status4-g/brightness"
    } else {
        "/sys/class/leds/Status4-b/brightness"
    }
}

} // verus!
