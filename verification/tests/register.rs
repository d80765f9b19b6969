use max17048::register::{
    compensation_byte, register_bytes, register_value, whole_percent, with_compensation,
    DEFAULT_RCOMP, MAX17048_ADDR, REG_CONFIG, REG_CRATE, REG_SOC, REG_VCELL, REG_VERSION,
};

#[test]
fn register_map_is_the_chips() {
    assert_eq!(MAX17048_ADDR, 0x6C);
    assert_eq!(DEFAULT_RCOMP, 0x97);
    assert_eq!(REG_VCELL, 0x02);
    assert_eq!(REG_SOC, 0x04);
    assert_eq!(REG_VERSION, 0x08);
    assert_eq!(REG_CONFIG, 0x0C);
    assert_eq!(REG_CRATE, 0x16);
}

#[test]
fn register_value_puts_the_high_byte_first() {
    assert_eq!(register_value(0x12, 0x34), 0x1234);
    assert_eq!(register_value(0x00, 0xFF), 0x00FF);
    assert_eq!(register_value(0xFF, 0x00), 0xFF00);
    assert_eq!(register_value(0x00, 0x00), 0x0000);
    assert_eq!(register_value(0xFF, 0xFF), 0xFFFF);
}

#[test]
fn register_bytes_sends_the_high_byte_first() {
    assert_eq!(register_bytes(0x1234), [0x12, 0x34]);
    assert_eq!(register_bytes(0x00FF), [0x00, 0xFF]);
    assert_eq!(register_bytes(0xFF00), [0xFF, 0x00]);
    assert_eq!(register_bytes(0x9734), [0x97, 0x34]);
}

#[test]
fn register_bytes_and_value_round_trip() {
    let mut value: u16 = 0;
    loop {
        let bytes = register_bytes(value);
        assert_eq!(register_value(bytes[0], bytes[1]), value);
        if value == u16::MAX {
            break;
        }
        value += 1;
    }
}

#[test]
fn whole_percent_drops_the_fraction() {
    assert_eq!(whole_percent(0x3200), 50);
    assert_eq!(whole_percent(0x32FF), 50);
    assert_eq!(whole_percent(0x3300), 51);
    assert_eq!(whole_percent(0x00FF), 0);
    assert_eq!(whole_percent(0x0000), 0);
    assert_eq!(whole_percent(0x6400), 100);
    assert_eq!(whole_percent(0xFFFF), 255);
}

#[test]
fn whole_percent_is_division_by_256_everywhere() {
    let mut raw: u16 = 0;
    loop {
        assert_eq!(whole_percent(raw), raw / 256);
        if raw == u16::MAX {
            break;
        }
        raw += 1;
    }
}

#[test]
fn with_compensation_replaces_the_high_byte_only() {
    assert_eq!(with_compensation(0x1234, 0x97), 0x9734);
    assert_eq!(with_compensation(0x0000, 0x97), 0x9700);
    assert_eq!(with_compensation(0xFFFF, 0x00), 0x00FF);
    assert_eq!(with_compensation(0x97AB, 0x97), 0x97AB);
    assert_eq!(with_compensation(0x00FF, 0xFF), 0xFFFF);
}

#[test]
fn with_compensation_keeps_every_low_byte() {
    let mut low: u16 = 0;
    while low < 256 {
        let merged = with_compensation(0x4200 | low, 0x5A);
        assert_eq!(merged & 0x00FF, low);
        assert_eq!(merged >> 8, 0x5A);
        low += 1;
    }
}

#[test]
fn compensation_byte_keeps_what_fits() {
    assert_eq!(compensation_byte(0), 0);
    assert_eq!(compensation_byte(0x97), 0x97);
    assert_eq!(compensation_byte(146), 146);
    assert_eq!(compensation_byte(251), 251);
    assert_eq!(compensation_byte(255), 255);
}

#[test]
fn compensation_byte_wraps_what_does_not_fit() {
    assert_eq!(compensation_byte(256), 0);
    assert_eq!(compensation_byte(301), 45);
    assert_eq!(compensation_byte(-1), 255);
    assert_eq!(compensation_byte(-5), 251);
    assert_eq!(compensation_byte(-256), 0);
    assert_eq!(compensation_byte(i32::MAX), 255);
    assert_eq!(compensation_byte(i32::MIN), 0);
}
