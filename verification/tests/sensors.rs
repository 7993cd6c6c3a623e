use pendulum::bytes::{be_i16, be_u16};
use pendulum::current::{
    average_baseline, deltas_from_baseline, signed_delta, CurrentBaseline, CurrentCounts,
};
use pendulum::gy521::{
    decode_sample, verify_who_am_i, wake_sequence, Gy521Error, MPU_REG_WHO_AM_I,
};
use pendulum::tmag5273::{
    decode_angle, decode_conv_status, decode_device_status, decode_identity, decode_measurement,
    default_config_registers, default_config_value,
};

#[test]
fn big_endian_pairs() {
    assert_eq!(be_u16(0x12, 0x34), 0x1234);
    assert_eq!(be_i16(0x7F, 0xFF), 32_767);
    assert_eq!(be_i16(0x80, 0x00), -32_768);
    assert_eq!(be_i16(0xFF, 0xFE), -2);
}

#[test]
fn tmag5273_status_registers() {
    let s = decode_conv_status(0b1011_0011);
    assert_eq!(s.set_count, 0b101);
    assert!(s.por);
    assert!(s.diag_fail);
    assert!(s.result_ready);
    let s = decode_conv_status(0b0000_0100);
    assert_eq!(s.set_count, 0);
    assert!(!s.por && !s.diag_fail && !s.result_ready);

    let d = decode_device_status(0b0001_0101);
    assert!(d.int_pin_high);
    assert!(!d.oscillator_error);
    assert!(d.int_pin_error);
    assert!(!d.otp_crc_error);
    assert!(d.vcc_uv_error);
    let d = decode_device_status(0b0000_1010);
    assert!(!d.int_pin_high && d.oscillator_error && !d.int_pin_error && d.otp_crc_error);
}

#[test]
fn tmag5273_identity_and_angle() {
    let id = decode_identity([0x44, 0x21, 0x49, 0x54]);
    assert_eq!(id.address, 0x22);
    assert_eq!(id.device_id, 0x01);
    assert_eq!(id.manufacturer_id, 0x5449);

    // 0x1679 = 359 degrees and 9/16.
    assert_eq!(decode_angle(0x16, 0x79), (359, 9));
    // Bits above the 13-bit angle field are ignored.
    assert_eq!(decode_angle(0xE0, 0x10), (1, 0));
}

#[test]
fn tmag5273_result_block() {
    let m = decode_measurement([
        0x44, 0x64, 0xFF, 0x00, 0x01, 0x00, 0x80, 0x00, 0x21, 0x05, 0xA8, 0x3C, 0x11,
    ]);
    assert_eq!(m.temperature_code, 0x4464);
    assert_eq!(m.x_code, -256);
    assert_eq!(m.y_code, 256);
    assert_eq!(m.z_code, -32_768);
    assert_eq!(m.conv_status.set_count, 1);
    assert!(m.conv_status.result_ready);
    assert_eq!(m.angle_whole_deg, 90);
    assert_eq!(m.angle_sixteenths, 8);
    assert_eq!(m.magnitude, 0x3C);
    assert!(m.device_status.int_pin_high && m.device_status.vcc_uv_error);
}

#[test]
fn tmag5273_default_configuration() {
    assert_eq!(default_config_registers(), [0x00, 0x01, 0x02, 0x03, 0x07]);
    assert_eq!(default_config_value(0x00, 0xFF), 0xFC);
    assert_eq!(default_config_value(0x01, 0xFF), 0xEA);
    assert_eq!(default_config_value(0x01, 0x00), 0x02);
    assert_eq!(default_config_value(0x02, 0x0F), 0x7F);
    assert_eq!(default_config_value(0x02, 0xA5), 0x75);
    assert_eq!(default_config_value(0x03, 0xA0), 0xA7);
    assert_eq!(default_config_value(0x07, 0x00), 0x01);
    for reg in default_config_registers() {
        for v in 0..=255u8 {
            let once = default_config_value(reg, v);
            assert_eq!(default_config_value(reg, once), once);
        }
    }
}

#[test]
fn gy521_identity_and_wake() {
    assert!(verify_who_am_i(Some(0x68)).is_ok());
    assert_eq!(verify_who_am_i(Some(0x72)), Err(Gy521Error::UnexpectedWhoAmI(0x72)));
    assert_eq!(verify_who_am_i(None), Err(Gy521Error::RegisterRead(MPU_REG_WHO_AM_I)));
    assert_eq!(wake_sequence(), [(0x6B, 0x01), (0x1A, 0x03), (0x1B, 0x10), (0x1C, 0x08)]);
}

#[test]
fn gy521_sample_block() {
    let s = decode_sample([
        0x20, 0x00, 0xE0, 0x00, 0x00, 0x01, 0xF2, 0x4C, 0x00, 0x21, 0xFF, 0xDF, 0x7F, 0xFF,
    ]);
    assert_eq!(s.ax, 8192);
    assert_eq!(s.ay, -8192);
    assert_eq!(s.az, 1);
    assert_eq!(s.temperature, -3508);
    assert_eq!(s.gx, 33);
    assert_eq!(s.gy, -33);
    assert_eq!(s.gz, 32_767);
}

fn counts(a: u16, b: u16, c: u16, d: u16) -> CurrentCounts {
    CurrentCounts { mcp6021_counts: a, ina_u_counts: b, ina_v_counts: c, ina_w_counts: d }
}

#[test]
fn current_baseline_is_the_mean() {
    let samples = vec![counts(100, 2000, 2048, 4095), counts(101, 2001, 2050, 4095), counts(103, 2002, 2049, 4094)];
    let b = average_baseline(&samples);
    assert_eq!(
        b,
        CurrentBaseline { mcp6021_counts: 101, ina_u_counts: 2001, ina_v_counts: 2049, ina_w_counts: 4094 }
    );
    let same = vec![counts(7, 8, 9, 10); 64];
    let b = average_baseline(&same);
    assert_eq!((b.mcp6021_counts, b.ina_u_counts, b.ina_v_counts, b.ina_w_counts), (7, 8, 9, 10));
    let full = vec![counts(u16::MAX, 0, 0, 0); 65_537];
    assert_eq!(average_baseline(&full).mcp6021_counts, u16::MAX);
}

#[test]
fn current_deltas() {
    assert_eq!(signed_delta(2000, 2048), -48);
    assert_eq!(signed_delta(u16::MAX, 0), 65_535);
    let base = CurrentBaseline { mcp6021_counts: 10, ina_u_counts: 2048, ina_v_counts: 0, ina_w_counts: 65_535 };
    let d = deltas_from_baseline(counts(12, 2000, 5, 0), base);
    assert_eq!(d.mcp6021_delta_counts, 2);
    assert_eq!(d.ina_u_delta_counts, -48);
    assert_eq!(d.ina_v_delta_counts, 5);
    assert_eq!(d.ina_w_delta_counts, -65_535);
}
