use grow_agent::bme680::{
    calc_gas_wait, has_new_data, humidity_oversampling_update, op_mode_register,
    tp_oversampling_update, Params,
};

#[test]
fn params_decode_calibration_bytes() {
    let mut v = [0u8; 42];
    for (i, b) in v.iter_mut().enumerate() {
        *b = (i as u8).wrapping_mul(37).wrapping_add(11);
    }
    let p = Params::new(&v);
    let word = |msb: usize, lsb: usize| ((v[msb] as u16) << 8) | v[lsb] as u16;
    assert_eq!(p.temp.t1, word(32, 31));
    assert_eq!(p.temp.t2, word(1, 0) as i16);
    assert_eq!(p.temp.t3, v[2] as i8);
    assert_eq!(p.pressure.p1, word(5, 4));
    assert_eq!(p.pressure.p2, word(7, 6) as i16);
    assert_eq!(p.pressure.p4, word(11, 10) as i16);
    assert_eq!(p.pressure.p6, v[15] as i8);
    assert_eq!(p.pressure.p7, v[14] as i8);
    assert_eq!(p.pressure.p10, v[22]);
    assert_eq!(p.humidity.h1, ((v[25] as u16) << 4) | (v[24] as u16 & 0x0F));
    assert_eq!(p.humidity.h2, ((v[23] as u16) << 4) | (v[24] as u16 >> 4));
    assert_eq!(p.gas.gh2, word(34, 33) as i16);
    assert_eq!(p.gas.heat_range, (v[39] & 0x30) >> 4);
    assert_eq!(p.gas.range_switching_error, ((v[41] & 0xF0) >> 4) as i8);
}

#[test]
fn params_known_values() {
    let mut v = [0u8; 42];
    v[31] = 0x34;
    v[32] = 0x12;
    v[0] = 0xFE;
    v[1] = 0xFF;
    v[2] = 0x80;
    v[24] = 0xAB;
    v[25] = 0x12;
    v[23] = 0x34;
    v[39] = 0x30;
    v[41] = 0xF0;
    let p = Params::new(&v);
    assert_eq!(p.temp.t1, 0x1234);
    assert_eq!(p.temp.t2, -2);
    assert_eq!(p.temp.t3, -128);
    assert_eq!(p.humidity.h1, 0x12B);
    assert_eq!(p.humidity.h2, 0x34A);
    assert_eq!(p.gas.heat_range, 3);
    assert_eq!(p.gas.range_switching_error, 15);
}

#[test]
fn gas_wait_encoding() {
    assert_eq!(calc_gas_wait(0), 0);
    assert_eq!(calc_gas_wait(63), 63);
    assert_eq!(calc_gas_wait(64), 16 + 64);
    assert_eq!(calc_gas_wait(700), 43 + 128);
    assert_eq!(calc_gas_wait(4032), 63 + 192);
    assert_eq!(calc_gas_wait(4033), 0xFF);
    assert_eq!(calc_gas_wait(u16::MAX), 0xFF);
}

#[test]
fn registers() {
    assert_eq!(op_mode_register(0b1010_1110, 0b01), 0b1010_1101);
    assert_eq!(humidity_oversampling_update(0b0000_0010, 0b010), None);
    assert_eq!(
        humidity_oversampling_update(0b1000_0111, 0b010),
        Some(0b1000_0010)
    );
    assert_eq!(
        tp_oversampling_update(0b0000_0001, 0b010, 0b101),
        Some(0b0101_0101)
    );
    assert_eq!(tp_oversampling_update(0b0101_0110, 0b010, 0b101), None);
    assert!(has_new_data(0x80));
    assert!(has_new_data(0xFF));
    assert!(!has_new_data(0x7F));
}

#[test]
fn registers_for_any_input() {
    assert_eq!(op_mode_register(0xFF, 0x10), 0xFC | 0x10);
    assert_eq!(humidity_oversampling_update(0x00, 0x09), Some(0x09));
    assert_eq!(humidity_oversampling_update(0xFF, 0x07), None);
    assert_eq!(
        tp_oversampling_update(0x00, 0x0F, 0x0F),
        Some((0x0Fu8 << 5) | (0x0F << 2))
    );
}
