//! GY-521 (MPU-6050) inertial sensor: register map, identity check, wake-up
//! register writes and raw sample decoding.

use vstd::prelude::*;
use crate::bytes::{lemma_be_i16_value_twos_complement, be_i16, be_i16_value};

verus! {

pub const MPU_REG_ACCEL_XOUT_H: u8 = 0x3B;
pub const MPU_REG_CONFIG: u8 = 0x1A;
pub const MPU_REG_GYRO_CONFIG: u8 = 0x1B;
pub const MPU_REG_ACCEL_CONFIG: u8 = 0x1C;
pub const MPU_REG_PWR_MGMT_1: u8 = 0x6B;
pub const MPU_REG_WHO_AM_I: u8 = 0x75;

/// Default I2C address of the GY-521 board (AD0 low).
pub const GY521_DEFAULT_I2C_ADDR: u8 = 0x68;

/// Value of WHO_AM_I on a genuine MPU-6050.
pub const MPU6050_WHO_AM_I_VALUE: u8 = 0x68;

/// Number of bytes read from ACCEL_XOUT_H onward for one sample.
pub const GY521_SAMPLE_LEN: usize = 14;

/// Why the sensor could not be confirmed.
#[derive(Clone, Copy, Debug, PartialEq, Eq)]
pub enum Gy521Error {
    /// Reading this register failed.
    RegisterRead(u8),
    /// WHO_AM_I held this value instead of the MPU-6050 identity.
    UnexpectedWhoAmI(u8),
}

/// One sample in raw sensor counts, in register order.
#[derive(Clone, Copy, Debug)]
pub struct Gy521RawSample {
    pub ax: i16,
    pub ay: i16,
    pub az: i16,
    pub temperature: i16,
    pub gx: i16,
    pub gy: i16,
    pub gz: i16,
}

/// The identity check: a failed read names the WHO_AM_I register, any value
/// other than the MPU-6050 identity is reported as it was read.
pub open spec fn verify_who_am_i_spec(read: Option<u8>) -> Result<(), Gy521Error> {
    match read {
        None => Err(Gy521Error::RegisterRead(MPU_REG_WHO_AM_I)),
        Some(v) => if v == MPU6050_WHO_AM_I_VALUE {
            Ok(())
        } else {
            Err(Gy521Error::UnexpectedWhoAmI(v))
        },
    }
}

/// Decides the identity check from the WHO_AM_I read (`None` when the read
/// failed).
pub fn verify_who_am_i(read: Option<u8>) -> (r: Result<(), Gy521Error>)
    ensures
        r == verify_who_am_i_spec(read),
{
    match read {
        None => Err(Gy521Error::RegisterRead(MPU_REG_WHO_AM_I)),
        Some(v) => if v == MPU6050_WHO_AM_I_VALUE {
            Ok(())
        } else {
            Err(Gy521Error::UnexpectedWhoAmI(v))
        },
    }
}

/// Register writes that wake the sensor, in order: PLL clock from the X gyro,
/// 44 Hz digital low-pass filter, ±1000 °/s gyro range, ±4 g accelerometer
/// range. A failed write is reported by its register.
pub open spec fn wake_sequence_spec() -> Seq<(u8, u8)> {
    seq![
        (MPU_REG_PWR_MGMT_1, 0x01u8),
        (MPU_REG_CONFIG, 0x03u8),
        (MPU_REG_GYRO_CONFIG, 0x10u8),
        (MPU_REG_ACCEL_CONFIG, 0x08u8),
    ]
}

/// The wake-up register writes as `(register, value)` pairs, in write order.
pub fn wake_sequence() -> (writes: [(u8, u8); 4])
    ensures
        writes@ == wake_sequence_spec(),
{
    let writes = [
        (MPU_REG_PWR_MGMT_1, 0x01u8),
        (MPU_REG_CONFIG, 0x03u8),
        (MPU_REG_GYRO_CONFIG, 0x10u8),
        (MPU_REG_ACCEL_CONFIG, 0x08u8),
    ];
    assert(writes@ =~= wake_sequence_spec());
    writes
}

/// The sample held by a 14-byte block read from ACCEL_XOUT_H: accelerometer
/// X, Y, Z, temperature, gyro X, Y, Z, each a big-endian signed pair.
pub open spec fn decode_sample_spec(buf: Seq<u8>) -> Gy521RawSample {
    Gy521RawSample {
        ax: be_i16_value(buf[0], buf[1]) as i16,
        ay: be_i16_value(buf[2], buf[3]) as i16,
        az: be_i16_value(buf[4], buf[5]) as i16,
        temperature: be_i16_value(buf[6], buf[7]) as i16,
        gx: be_i16_value(buf[8], buf[9]) as i16,
        gy: be_i16_value(buf[10], buf[11]) as i16,
        gz: be_i16_value(buf[12], buf[13]) as i16,
    }
}

/// Decodes the 14-byte block read from ACCEL_XOUT_H.
pub fn decode_sample(buf: [u8; 14]) -> (s: Gy521RawSample)
    ensures
        s == decode_sample_spec(buf@),
        s.ax as int == be_i16_value(buf@[0], buf@[1]),
        s.ay as int == be_i16_value(buf@[2], buf@[3]),
        s.az as int == be_i16_value(buf@[4], buf@[5]),
        s.temperature as int == be_i16_value(buf@[6], buf@[7]),
        s.gx as int == be_i16_value(buf@[8], buf@[9]),
        s.gy as int == be_i16_value(buf@[10], buf@[11]),
        s.gz as int == be_i16_value(buf@[12], buf@[13]),
{
    Gy521RawSample {
        ax: be_i16(buf[0], buf[1]),
        ay: be_i16(buf[2], buf[3]),
        az: be_i16(buf[4], buf[5]),
        temperature: be_i16(buf[6], buf[7]),
        gx: be_i16(buf[8], buf[9]),
        gy: be_i16(buf[10], buf[11]),
        gz: be_i16(buf[12], buf[13]),
    }
}

/// Each field of a decoded sample is the two's-complement big-endian value of
/// its own register pair (accelerometer X, Y, Z at bytes 0-5, temperature at
/// 6-7, gyro X, Y, Z at 8-13), and so depends on no other byte of the block.
pub proof fn lemma_sample_fields(buf: Seq<u8>, other: Seq<u8>)
    requires
        buf.len() == GY521_SAMPLE_LEN,
        other.len() == GY521_SAMPLE_LEN,
    ensures
        decode_sample_spec(buf).ax as int == be_i16_value(buf[0], buf[1]),
        decode_sample_spec(buf).ay as int == be_i16_value(buf[2], buf[3]),
        decode_sample_spec(buf).az as int == be_i16_value(buf[4], buf[5]),
        decode_sample_spec(buf).temperature as int == be_i16_value(buf[6], buf[7]),
        decode_sample_spec(buf).gx as int == be_i16_value(buf[8], buf[9]),
        decode_sample_spec(buf).gy as int == be_i16_value(buf[10], buf[11]),
        decode_sample_spec(buf).gz as int == be_i16_value(buf[12], buf[13]),
        buf[0] == other[0] && buf[1] == other[1] ==> decode_sample_spec(buf).ax
            == decode_sample_spec(other).ax,
        buf[2] == other[2] && buf[3] == other[3] ==> decode_sample_spec(buf).ay
            == decode_sample_spec(other).ay,
        buf[4] == other[4] && buf[5] == other[5] ==> decode_sample_spec(buf).az
            == decode_sample_spec(other).az,
        buf[6] == other[6] && buf[7] == other[7] ==> decode_sample_spec(buf).temperature
            == decode_sample_spec(other).temperature,
        buf[8] == other[8] && buf[9] == other[9] ==> decode_sample_spec(buf).gx
            == decode_sample_spec(other).gx,
        buf[10] == other[10] && buf[11] == other[11] ==> decode_sample_spec(buf).gy
            == decode_sample_spec(other).gy,
        buf[12] == other[12] && buf[13] == other[13] ==> decode_sample_spec(buf).gz
            == decode_sample_spec(other).gz,
{
    lemma_be_i16_value_twos_complement(buf[0], buf[1]);
    lemma_be_i16_value_twos_complement(buf[2], buf[3]);
    lemma_be_i16_value_twos_complement(buf[4], buf[5]);
    lemma_be_i16_value_twos_complement(buf[6], buf[7]);
    lemma_be_i16_value_twos_complement(buf[8], buf[9]);
    lemma_be_i16_value_twos_complement(buf[10], buf[11]);
    lemma_be_i16_value_twos_complement(buf[12], buf[13]);
}

} // verus!
