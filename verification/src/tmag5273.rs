//! TMAG5273 3-axis Hall-effect sensor: register map, result decoding and the
//! default measurement configuration.

use vstd::prelude::*;
use crate::bytes::{be_i16, be_i16_value, be_u16, be_u16_value};

verus! {

pub const TMAG5273_REG_DEVICE_CONFIG_1: u8 = 0x00;
pub const TMAG5273_REG_DEVICE_CONFIG_2: u8 = 0x01;
pub const TMAG5273_REG_SENSOR_CONFIG_1: u8 = 0x02;
pub const TMAG5273_REG_SENSOR_CONFIG_2: u8 = 0x03;
pub const TMAG5273_REG_T_CONFIG: u8 = 0x07;
pub const TMAG5273_REG_I2C_ADDRESS: u8 = 0x0C;
pub const TMAG5273_REG_T_MSB_RESULT: u8 = 0x10;

/// Number of result bytes read from `T_MSB_RESULT` onward.
pub const TMAG5273_RESULT_LEN: usize = 13;

/// Contents of the I2C_ADDRESS, DEVICE_ID and MANUFACTURER_ID registers.
#[derive(Clone, Copy, Debug)]
pub struct Tmag5273Identity {
    pub address: u8,
    pub device_id: u8,
    pub manufacturer_id: u16,
}

/// Fields of the CONV_STATUS register.
#[derive(Clone, Copy, Debug)]
pub struct Tmag5273ConvStatus {
    pub set_count: u8,
    pub por: bool,
    pub diag_fail: bool,
    pub result_ready: bool,
}

/// Fields of the DEVICE_STATUS register.
#[derive(Clone, Copy, Debug)]
pub struct Tmag5273DeviceStatus {
    pub int_pin_high: bool,
    pub oscillator_error: bool,
    pub int_pin_error: bool,
    pub otp_crc_error: bool,
    pub vcc_uv_error: bool,
}

/// One result block in raw sensor units: signed ADC codes for temperature and
/// the three field axes, the XY angle as whole degrees plus sixteenths, and the
/// status registers.
#[derive(Clone, Copy, Debug)]
pub struct Tmag5273RawMeasurement {
    pub temperature_code: i16,
    pub x_code: i16,
    pub y_code: i16,
    pub z_code: i16,
    pub angle_whole_deg: u16,
    pub angle_sixteenths: u8,
    pub magnitude: u8,
    pub conv_status: Tmag5273ConvStatus,
    pub device_status: Tmag5273DeviceStatus,
}

/// Bit `k` of `raw`.
pub open spec fn bit(raw: u8, k: nat) -> bool {
    (raw as nat / pow2_nat(k)) % 2 == 1
}

/// 2 to the power `k`.
pub open spec fn pow2_nat(k: nat) -> nat
    decreases k,
{
    if k == 0 {
        1
    } else {
        2 * pow2_nat((k - 1) as nat)
    }
}

/// Reads the identity registers starting at I2C_ADDRESS: the 7-bit address is
/// the upper bits of the first byte, the device id the two low bits of the
/// second, and the manufacturer id the little-endian third and fourth bytes.
pub fn decode_identity(raw: [u8; 4]) -> (id: Tmag5273Identity)
    ensures
        id.address as int == raw@[0] as int / 2,
        id.device_id as int == raw@[1] as int % 4,
        id.manufacturer_id as int == raw@[3] as int * 256 + raw@[2] as int,
{
    let a = raw[0];
    let d = raw[1];
    assert(a >> 1u8 == a / 2) by (bit_vector);
    assert(d & 0x03u8 == d % 4) by (bit_vector);
    Tmag5273Identity {
        address: a >> 1u8,
        device_id: d & 0x03u8,
        manufacturer_id: be_u16(raw[3], raw[2]),
    }
}

/// Splits CONV_STATUS: SET_COUNT in bits 7..5, POR in bit 4, DIAG_STATUS in
/// bit 1 and RESULT_STATUS in bit 0.
pub fn decode_conv_status(raw: u8) -> (s: Tmag5273ConvStatus)
    ensures
        s.set_count as int == raw as int / 32,
        s.por == bit(raw, 4),
        s.diag_fail == bit(raw, 1),
        s.result_ready == bit(raw, 0),
{
    assert((raw >> 5u8) & 0x07u8 == raw / 32) by (bit_vector);
    assert(((raw & 0x10u8) != 0) == ((raw / 16) % 2 == 1)) by (bit_vector);
    assert(((raw & 0x02u8) != 0) == ((raw / 2) % 2 == 1)) by (bit_vector);
    assert(((raw & 0x01u8) != 0) == (raw % 2 == 1)) by (bit_vector);
    reveal_with_fuel(pow2_nat, 5);
    assert(raw as nat / 1 == raw as nat);
    Tmag5273ConvStatus {
        set_count: (raw >> 5u8) & 0x07u8,
        por: (raw & 0x10u8) != 0,
        diag_fail: (raw & 0x02u8) != 0,
        result_ready: (raw & 0x01u8) != 0,
    }
}

/// Splits DEVICE_STATUS: INTB pin level in bit 4, oscillator error in bit 3,
/// INT pin error in bit 2, OTP CRC error in bit 1 and VCC undervoltage in bit 0.
pub fn decode_device_status(raw: u8) -> (s: Tmag5273DeviceStatus)
    ensures
        s.int_pin_high == bit(raw, 4),
        s.oscillator_error == bit(raw, 3),
        s.int_pin_error == bit(raw, 2),
        s.otp_crc_error == bit(raw, 1),
        s.vcc_uv_error == bit(raw, 0),
{
    assert(((raw & 0x10u8) != 0) == ((raw / 16) % 2 == 1)) by (bit_vector);
    assert(((raw & 0x08u8) != 0) == ((raw / 8) % 2 == 1)) by (bit_vector);
    assert(((raw & 0x04u8) != 0) == ((raw / 4) % 2 == 1)) by (bit_vector);
    assert(((raw & 0x02u8) != 0) == ((raw / 2) % 2 == 1)) by (bit_vector);
    assert(((raw & 0x01u8) != 0) == (raw % 2 == 1)) by (bit_vector);
    reveal_with_fuel(pow2_nat, 5);
    assert(raw as nat / 1 == raw as nat);
    Tmag5273DeviceStatus {
        int_pin_high: (raw & 0x10u8) != 0,
        oscillator_error: (raw & 0x08u8) != 0,
        int_pin_error: (raw & 0x04u8) != 0,
        otp_crc_error: (raw & 0x02u8) != 0,
        vcc_uv_error: (raw & 0x01u8) != 0,
    }
}

/// The XY angle result: a 9-bit whole-degree part in bits 12..4 of the
/// big-endian pair and a 4-bit sixteenths-of-a-degree fraction in bits 3..0.
pub fn decode_angle(msb: u8, lsb: u8) -> (angle: (u16, u8))
    ensures
        angle.0 as int == (be_u16_value(msb, lsb) / 16) % 512,
        angle.1 as int == be_u16_value(msb, lsb) % 16,
{
    let raw = be_u16(msb, lsb);
    assert((raw >> 4u16) & 0x01FFu16 == (raw / 16) % 512) by (bit_vector);
    assert(raw & 0x000Fu16 == raw % 16) by (bit_vector);
    let frac = raw & 0x000Fu16;
    ((raw >> 4u16) & 0x01FFu16, frac as u8)
}

/// Decodes the 13-byte result block read from `T_MSB_RESULT`: temperature,
/// X, Y, Z (big-endian signed codes), CONV_STATUS, angle, magnitude and
/// DEVICE_STATUS, in register order.
pub fn decode_measurement(buf: [u8; 13]) -> (m: Tmag5273RawMeasurement)
    ensures
        m == decode_measurement_spec(buf@),
        m.temperature_code as int == be_i16_value(buf@[0], buf@[1]),
        m.x_code as int == be_i16_value(buf@[2], buf@[3]),
        m.y_code as int == be_i16_value(buf@[4], buf@[5]),
        m.z_code as int == be_i16_value(buf@[6], buf@[7]),
        m.conv_status == decode_conv_status_spec(buf@[8]),
        m.angle_whole_deg as int == (be_u16_value(buf@[9], buf@[10]) / 16) % 512,
        m.angle_sixteenths as int == be_u16_value(buf@[9], buf@[10]) % 16,
        m.magnitude == buf@[11],
        m.device_status == decode_device_status_spec(buf@[12]),
{
    let (whole, sixteenths) = decode_angle(buf[9], buf[10]);
    Tmag5273RawMeasurement {
        temperature_code: be_i16(buf[0], buf[1]),
        x_code: be_i16(buf[2], buf[3]),
        y_code: be_i16(buf[4], buf[5]),
        z_code: be_i16(buf[6], buf[7]),
        angle_whole_deg: whole,
        angle_sixteenths: sixteenths,
        magnitude: buf[11],
        conv_status: decode_conv_status(buf[8]),
        device_status: decode_device_status(buf[12]),
    }
}

/// The measurement held by a 13-byte result block.
pub open spec fn decode_measurement_spec(buf: Seq<u8>) -> Tmag5273RawMeasurement {
    Tmag5273RawMeasurement {
        temperature_code: be_i16_value(buf[0], buf[1]) as i16,
        x_code: be_i16_value(buf[2], buf[3]) as i16,
        y_code: be_i16_value(buf[4], buf[5]) as i16,
        z_code: be_i16_value(buf[6], buf[7]) as i16,
        angle_whole_deg: ((be_u16_value(buf[9], buf[10]) / 16) % 512) as u16,
        angle_sixteenths: (be_u16_value(buf[9], buf[10]) % 16) as u8,
        magnitude: buf[11],
        conv_status: decode_conv_status_spec(buf[8]),
        device_status: decode_device_status_spec(buf[12]),
    }
}

/// CONV_STATUS fields of a raw register byte.
pub open spec fn decode_conv_status_spec(raw: u8) -> Tmag5273ConvStatus {
    Tmag5273ConvStatus {
        set_count: (raw as int / 32) as u8,
        por: bit(raw, 4),
        diag_fail: bit(raw, 1),
        result_ready: bit(raw, 0),
    }
}

/// DEVICE_STATUS fields of a raw register byte.
pub open spec fn decode_device_status_spec(raw: u8) -> Tmag5273DeviceStatus {
    Tmag5273DeviceStatus {
        int_pin_high: bit(raw, 4),
        oscillator_error: bit(raw, 3),
        int_pin_error: bit(raw, 2),
        otp_crc_error: bit(raw, 1),
        vcc_uv_error: bit(raw, 0),
    }
}

/// The registers written by the default configuration, in write order.
pub open spec fn default_config_registers_spec() -> Seq<u8> {
    seq![
        TMAG5273_REG_DEVICE_CONFIG_1,
        TMAG5273_REG_DEVICE_CONFIG_2,
        TMAG5273_REG_SENSOR_CONFIG_1,
        TMAG5273_REG_SENSOR_CONFIG_2,
        TMAG5273_REG_T_CONFIG,
    ]
}

/// The bits of each configured register that the default configuration
/// leaves as they were.
pub open spec fn default_config_keep_mask(register: u8) -> u8 {
    if register == TMAG5273_REG_DEVICE_CONFIG_1 {
        0xFC
    } else if register == TMAG5273_REG_DEVICE_CONFIG_2 {
        0xE8
    } else if register == TMAG5273_REG_SENSOR_CONFIG_1 {
        0x0F
    } else if register == TMAG5273_REG_SENSOR_CONFIG_2 {
        0xF0
    } else {
        0xFE
    }
}

/// The bits that the default configuration forces to one.
pub open spec fn default_config_set_bits(register: u8) -> u8 {
    if register == TMAG5273_REG_DEVICE_CONFIG_1 {
        0x00
    } else if register == TMAG5273_REG_DEVICE_CONFIG_2 {
        0x02
    } else if register == TMAG5273_REG_SENSOR_CONFIG_1 {
        0x70
    } else if register == TMAG5273_REG_SENSOR_CONFIG_2 {
        0x07
    } else {
        0x01
    }
}

/// The value written back to a configured register, given the value read
/// from it: single-conversion averaging (DEVICE_CONFIG_1 bits 1..0 cleared),
/// continuous conversion mode (DEVICE_CONFIG_2 bits 4, 2..0 = 0b0_010),
/// X, Y and Z channels enabled (SENSOR_CONFIG_1 bits 7..4 = 0x7), XY angle
/// with the full-scale range bits (SENSOR_CONFIG_2 bits 3..0 = 0x7) and the
/// temperature channel enabled (T_CONFIG bit 0).
pub open spec fn default_config_value_spec(register: u8, current: u8) -> u8 {
    (current & default_config_keep_mask(register)) | default_config_set_bits(register)
}

/// The registers written by the default configuration, in write order.
pub fn default_config_registers() -> (regs: [u8; 5])
    ensures
        regs@ == default_config_registers_spec(),
{
    let regs = [
        TMAG5273_REG_DEVICE_CONFIG_1,
        TMAG5273_REG_DEVICE_CONFIG_2,
        TMAG5273_REG_SENSOR_CONFIG_1,
        TMAG5273_REG_SENSOR_CONFIG_2,
        TMAG5273_REG_T_CONFIG,
    ];
    assert(regs@ =~= default_config_registers_spec());
    regs
}

/// The value to write to `register` during the default configuration, given
/// the value currently held by it.
pub fn default_config_value(register: u8, current: u8) -> (updated: u8)
    requires
        default_config_registers_spec().contains(register),
    ensures
        updated == default_config_value_spec(register, current),
{
    let (keep, set): (u8, u8) = if register == TMAG5273_REG_DEVICE_CONFIG_1 {
        (0xFC, 0x00)
    } else if register == TMAG5273_REG_DEVICE_CONFIG_2 {
        (0xE8, 0x02)
    } else if register == TMAG5273_REG_SENSOR_CONFIG_1 {
        (0x0F, 0x70)
    } else if register == TMAG5273_REG_SENSOR_CONFIG_2 {
        (0xF0, 0x07)
    } else {
        (0xFE, 0x01)
    };
    (current & keep) | set
}

/// Applying the default configuration to a register that already holds its
/// configured value changes nothing, and the configuration only touches the
/// register's configuration field bits: every other bit keeps the value read.
pub proof fn lemma_default_config_idempotent(register: u8, current: u8)
    ensures
        default_config_value_spec(register, default_config_value_spec(register, current))
            == default_config_value_spec(register, current),
        default_config_value_spec(register, current) & default_config_keep_mask(register) == current
            & default_config_keep_mask(register),
{
    let k = default_config_keep_mask(register);
    let b = default_config_set_bits(register);
    if register == TMAG5273_REG_DEVICE_CONFIG_1 {
        assert(0xFCu8 & 0x00u8 == 0u8) by (bit_vector);
    } else if register == TMAG5273_REG_DEVICE_CONFIG_2 {
        assert(0xE8u8 & 0x02u8 == 0u8) by (bit_vector);
    } else if register == TMAG5273_REG_SENSOR_CONFIG_1 {
        assert(0x0Fu8 & 0x70u8 == 0u8) by (bit_vector);
    } else if register == TMAG5273_REG_SENSOR_CONFIG_2 {
        assert(0xF0u8 & 0x07u8 == 0u8) by (bit_vector);
    } else {
        assert(0xFEu8 & 0x01u8 == 0u8) by (bit_vector);
    }
    assert(((((current & k) | b) & k) | b) == ((current & k) | b)) by (bit_vector);
    assert(k & b == 0u8 ==> ((current & k) | b) & k == current & k) by (bit_vector);
}

/// What the default configuration writes, register by register, given the
/// value read back: DEVICE_CONFIG_1 has its conversion-averaging bits 1..0
/// cleared and every other bit kept; DEVICE_CONFIG_2 gets operating mode
/// 0b10 (continuous) in bits 1..0 with bits 4 and 2 cleared; SENSOR_CONFIG_1
/// enables X, Y and Z (0x7 in bits 7..4); SENSOR_CONFIG_2 selects the XY angle
/// and range bits (0x7 in bits 3..0); T_CONFIG enables the temperature channel
/// (bit 0). Bits outside those fields keep the value read.
pub proof fn lemma_default_config_fields(v: u8)
    ensures
        default_config_value_spec(TMAG5273_REG_DEVICE_CONFIG_1, v) == v & !0x03u8,
        default_config_value_spec(TMAG5273_REG_DEVICE_CONFIG_2, v) == (v & !0x17u8) | 0x02u8,
        default_config_value_spec(TMAG5273_REG_SENSOR_CONFIG_1, v) == (v & !0xF0u8) | 0x70u8,
        default_config_value_spec(TMAG5273_REG_SENSOR_CONFIG_2, v) == (v & !0x0Fu8) | 0x07u8,
        default_config_value_spec(TMAG5273_REG_T_CONFIG, v) == v | 0x01u8,
        default_config_value_spec(TMAG5273_REG_DEVICE_CONFIG_1, v) & 0x03u8 == 0u8,
        default_config_value_spec(TMAG5273_REG_DEVICE_CONFIG_1, v) & 0xFCu8 == v & 0xFCu8,
{
    assert(((v & 0xFCu8) | 0x00u8) == v & !0x03u8) by (bit_vector);
    assert(((v & 0xE8u8) | 0x02u8) == (v & !0x17u8) | 0x02u8) by (bit_vector);
    assert(((v & 0x0Fu8) | 0x70u8) == (v & !0xF0u8) | 0x70u8) by (bit_vector);
    assert(((v & 0xF0u8) | 0x07u8) == (v & !0x0Fu8) | 0x07u8) by (bit_vector);
    assert(((v & 0xFEu8) | 0x01u8) == v | 0x01u8) by (bit_vector);
    assert((((v & 0xFCu8) | 0x00u8) & 0x03u8) == 0u8) by (bit_vector);
    assert((((v & 0xFCu8) | 0x00u8) & 0xFCu8) == v & 0xFCu8) by (bit_vector);
}

} // verus!
