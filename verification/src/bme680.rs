use vstd::prelude::*;

verus! {

const OFFSET_T1_LSB: usize = 31;
const OFFSET_T1_MSB: usize = 32;
const OFFSET_T2_LSB: usize = 0;
const OFFSET_T2_MSB: usize = 1;
const OFFSET_T3: usize = 2;

const OFFSET_P1_LSB: usize = 4;
const OFFSET_P1_MSB: usize = 5;
const OFFSET_P2_LSB: usize = 6;
const OFFSET_P2_MSB: usize = 7;
const OFFSET_P3: usize = 8;
const OFFSET_P4_LSB: usize = 10;
const OFFSET_P4_MSB: usize = 11;
const OFFSET_P5_LSB: usize = 12;
const OFFSET_P5_MSB: usize = 13;
const OFFSET_P6: usize = 15;
const OFFSET_P7: usize = 14;
const OFFSET_P8_LSB: usize = 18;
const OFFSET_P8_MSB: usize = 19;
const OFFSET_P9_LSB: usize = 20;
const OFFSET_P9_MSB: usize = 21;
const OFFSET_P10: usize = 22;

const OFFSET_H1_LSB: usize = 24;
const OFFSET_H1_MSB: usize = 25;
const OFFSET_H2_LSB: usize = 24;
const OFFSET_H2_MSB: usize = 23;
const OFFSET_H3: usize = 26;
const OFFSET_H4: usize = 27;
const OFFSET_H5: usize = 28;
const OFFSET_H6: usize = 29;
const OFFSET_H7: usize = 30;

const OFFSET_GH1: usize = 35;
const OFFSET_GH2_LSB: usize = 33;
const OFFSET_GH2_MSB: usize = 34;
const OFFSET_GH3: usize = 36;
const OFFSET_RES_HEAT_VAL: usize = 37;
const OFFSET_RES_HEAT_RANGE: usize = 39;
const OFFSET_RANGE_SWITCHING_ERROR: usize = 41;

const MASK_H1_LSB: u16 = 0x0F;
const MASK_HEAT_RANGE: u8 = 0x30;
const MASK_RANGE_SWITCHING_ERROR: u8 = 0xF0;

/// The number a byte stands for when read as two's complement.
pub open spec fn signed8(b: u8) -> int {
    if b >= 128 {
        b - 256
    } else {
        b as int
    }
}

/// The unsigned 16 bit word of a most and a least significant byte.
pub open spec fn word(msb: u8, lsb: u8) -> int {
    msb * 256 + lsb
}

/// The number a 16 bit word stands for when read as two's complement.
pub open spec fn signed16(w: int) -> int {
    if w >= 32768 {
        w - 65536
    } else {
        w
    }
}

fn unsigned_word(msb: u8, lsb: u8) -> (r: u16)
    ensures
        r == word(msb, lsb),
{
    let r = ((msb as u16) << 8) | (lsb as u16);
    assert(((msb as u16) << 8) | (lsb as u16) == msb * 256 + lsb) by (bit_vector);
    r
}

fn signed_word(msb: u8, lsb: u8) -> (r: i16)
    ensures
        r == signed16(word(msb, lsb)),
{
    let w = unsigned_word(msb, lsb);
    let r = w as i16;
    assert((w as i16) as int == if w >= 32768 { w - 65536 } else { w as int }) by (bit_vector);
    r
}

fn signed_byte(b: u8) -> (r: i8)
    ensures
        r == signed8(b),
{
    let r = b as i8;
    assert((b as i8) as int == if b >= 128 { b - 256 } else { b as int }) by (bit_vector);
    r
}

/// Temperature calibration parameters.
pub struct TempParams {
    pub t1: u16,
    pub t2: i16,
    pub t3: i8,
}

/// Pressure calibration parameters.
pub struct PressureParams {
    pub p1: u16,
    pub p2: i16,
    pub p3: i8,
    pub p4: i16,
    pub p5: i16,
    pub p6: i8,
    pub p7: i8,
    pub p8: i16,
    pub p9: i16,
    pub p10: u8,
}

/// Humidity calibration parameters.
pub struct HumidityParams {
    pub h1: u16,
    pub h2: u16,
    pub h3: i8,
    pub h4: i8,
    pub h5: i8,
    pub h6: u8,
    pub h7: i8,
}

/// Gas heater calibration parameters.
pub struct GasParams {
    pub gh1: i8,
    pub gh2: i16,
    pub gh3: i8,
    pub heat_range: u8,
    pub heat_val: i8,
    pub range_switching_error: i8,
}

/// The calibration parameters of a BME680 sensor.
pub struct Params {
    pub temp: TempParams,
    pub pressure: PressureParams,
    pub humidity: HumidityParams,
    pub gas: GasParams,
}

/// Whether `p` holds the calibration parameters that the 42 calibration bytes
/// `v` encode, as the BME680 data sheet lays them out.
pub open spec fn decodes(p: Params, v: Seq<u8>) -> bool {
    &&& p.temp.t1 == word(v[32], v[31])
    &&& p.temp.t2 == signed16(word(v[1], v[0]))
    &&& p.temp.t3 == signed8(v[2])
    &&& p.pressure.p1 == word(v[5], v[4])
    &&& p.pressure.p2 == signed16(word(v[7], v[6]))
    &&& p.pressure.p3 == signed8(v[8])
    &&& p.pressure.p4 == signed16(word(v[11], v[10]))
    &&& p.pressure.p5 == signed16(word(v[13], v[12]))
    &&& p.pressure.p6 == signed8(v[15])
    &&& p.pressure.p7 == signed8(v[14])
    &&& p.pressure.p8 == signed16(word(v[19], v[18]))
    &&& p.pressure.p9 == signed16(word(v[21], v[20]))
    &&& p.pressure.p10 == v[22]
    &&& p.humidity.h1 == v[25] * 16 + v[24] % 16
    &&& p.humidity.h2 == v[23] * 16 + v[24] / 16
    &&& p.humidity.h3 == signed8(v[26])
    &&& p.humidity.h4 == signed8(v[27])
    &&& p.humidity.h5 == signed8(v[28])
    &&& p.humidity.h6 == v[29]
    &&& p.humidity.h7 == signed8(v[30])
    &&& p.gas.gh1 == signed8(v[35])
    &&& p.gas.gh2 == signed16(word(v[34], v[33]))
    &&& p.gas.gh3 == signed8(v[36])
    &&& p.gas.heat_range == (v[39] / 16) % 4
    &&& p.gas.heat_val == signed8(v[37])
    &&& p.gas.range_switching_error == v[41] / 16
}

impl Params {
    /// Decodes the calibration bytes read from the sensor's three parameter
    /// register blocks, concatenated.
    pub fn new(values: &[u8; 42]) -> (p: Params)
        ensures
            decodes(p, values@),
    {
        let h1_msb = values[OFFSET_H1_MSB];
        let h1_lsb = values[OFFSET_H1_LSB];
        let h2_msb = values[OFFSET_H2_MSB];
        let h2_lsb = values[OFFSET_H2_LSB];
        let heat = values[OFFSET_RES_HEAT_RANGE];
        let rse = values[OFFSET_RANGE_SWITCHING_ERROR];
        let h1 = ((h1_msb as u16) << 4) | ((h1_lsb as u16) & MASK_H1_LSB);
        assert(((h1_msb as u16) << 4) | ((h1_lsb as u16) & 0x0F) == h1_msb * 16 + h1_lsb % 16)
            by (bit_vector);
        let h2 = ((h2_msb as u16) << 4) | ((h2_lsb as u16) >> 4);
        assert(((h2_msb as u16) << 4) | ((h2_lsb as u16) >> 4) == h2_msb * 16 + h2_lsb / 16)
            by (bit_vector);
        let heat_range = (heat & MASK_HEAT_RANGE) >> 4;
        assert((heat & 0x30) >> 4 == (heat / 16) % 4) by (bit_vector);
        let range_switching_error = ((rse & MASK_RANGE_SWITCHING_ERROR) >> 4) as i8;
        assert((((rse & 0xF0) >> 4) as i8) as int == rse / 16) by (bit_vector);
        Params {
            temp: TempParams {
                t1: unsigned_word(values[OFFSET_T1_MSB], values[OFFSET_T1_LSB]),
                t2: signed_word(values[OFFSET_T2_MSB], values[OFFSET_T2_LSB]),
                t3: signed_byte(values[OFFSET_T3]),
            },
            pressure: PressureParams {
                p1: unsigned_word(values[OFFSET_P1_MSB], values[OFFSET_P1_LSB]),
                p2: signed_word(values[OFFSET_P2_MSB], values[OFFSET_P2_LSB]),
                p3: signed_byte(values[OFFSET_P3]),
                p4: signed_word(values[OFFSET_P4_MSB], values[OFFSET_P4_LSB]),
                p5: signed_word(values[OFFSET_P5_MSB], values[OFFSET_P5_LSB]),
                p6: signed_byte(values[OFFSET_P6]),
                p7: signed_byte(values[OFFSET_P7]),
                p8: signed_word(values[OFFSET_P8_MSB], values[OFFSET_P8_LSB]),
                p9: signed_word(values[OFFSET_P9_MSB], values[OFFSET_P9_LSB]),
                p10: values[OFFSET_P10],
            },
            humidity: HumidityParams {
                h1,
                h2,
                h3: signed_byte(values[OFFSET_H3]),
                h4: signed_byte(values[OFFSET_H4]),
                h5: signed_byte(values[OFFSET_H5]),
                h6: values[OFFSET_H6],
                h7: signed_byte(values[OFFSET_H7]),
            },
            gas: GasParams {
                gh1: signed_byte(values[OFFSET_GH1]),
                gh2: signed_word(values[OFFSET_GH2_MSB], values[OFFSET_GH2_LSB]),
                gh3: signed_byte(values[OFFSET_GH3]),
                heat_range,
                heat_val: signed_byte(values[OFFSET_RES_HEAT_VAL]),
                range_switching_error,
            },
        }
    }
}

} // verus!

verus! {

const GAS_WAIT_MS_MAX: u16 = 4032;
const GAS_WAIT_VALUE_MAX: u8 = 0xFF;
pub const MODE_MASK: u8 = 0x03;
pub const OSRS_HMASK: u8 = 0x07;
pub const OSRS_TP_MASK: u8 = 0xFC;
const NEW_DATA_MASK: u8 = 0x80;

/// Four to the power of `n`.
pub open spec fn pow4(n: nat) -> nat
    decreases n,
{
    if n == 0 {
        1
    } else {
        4 * pow4((n - 1) as nat)
    }
}

/// The heater wait register value for `duration` milliseconds, with `factor`
/// divisions by four already applied: the duration is divided by four until
/// it fits in six bits, and the number of divisions goes to the two upper
/// bits.
pub open spec fn gas_wait_code(duration: nat, factor: nat) -> nat
    decreases duration,
{
    if duration > 0x3F {
        gas_wait_code(duration / 4, factor + 1)
    } else {
        duration + factor * 64
    }
}

/// The heater wait register value for `duration` milliseconds; durations
/// beyond the longest wait the register can hold are cut to it.
pub open spec fn spec_gas_wait(duration: nat) -> nat {
    if duration > 4032 {
        0xFF
    } else {
        gas_wait_code(duration, 0)
    }
}

/// The wait in milliseconds that a heater wait register value stands for:
/// its lower six bits times four to the power of its upper two bits.
pub open spec fn gas_wait_millis(code: nat) -> nat {
    (code % 64) * pow4(code / 64)
}

/// The encoding of the heater wait time for the gas measurement.
pub fn calc_gas_wait(duration: u16) -> (r: u8)
    ensures
        r == spec_gas_wait(duration as nat),
{
    if duration > GAS_WAIT_MS_MAX {
        return GAS_WAIT_VALUE_MAX;
    }
    let ghost requested = duration;
    let mut duration = duration;
    let mut factor: u8 = 0;
    while duration > 0x3F
        invariant
            requested <= 4032,
            gas_wait_code(duration as nat, factor as nat) == gas_wait_code(requested as nat, 0),
            (factor == 0 && duration <= 4032) || (factor == 1 && duration <= 1008) || (factor == 2
                && duration <= 252) || (factor == 3 && duration <= 63),
        decreases duration,
    {
        duration = duration / 4;
        factor = factor + 1;
    }
    (duration as u8) + factor * 64
}

} // verus!

verus! {

/// The heater wait that is programmed for a requested duration is the
/// requested duration rounded down to the register's resolution: it never
/// exceeds the request and falls short of it by less than one step of the
/// chosen multiplier.
pub proof fn lemma_gas_wait_truncates(duration: nat)
    requires
        duration <= 4032,
    ensures
        gas_wait_millis(spec_gas_wait(duration)) <= duration,
        duration < gas_wait_millis(spec_gas_wait(duration)) + pow4(spec_gas_wait(duration) / 64),
        spec_gas_wait(duration) / 64 <= 3,
{
    reveal_with_fuel(gas_wait_code, 5);
    reveal_with_fuel(pow4, 4);
    let d1 = duration / 4;
    let d2 = d1 / 4;
    let d3 = d2 / 4;
    if duration <= 63 {
        let code = spec_gas_wait(duration);
        assert(code == duration);
        assert(code % 64 == duration && code / 64 == 0);
        assert(pow4(0) == 1);
    } else if d1 <= 63 {
        let code = spec_gas_wait(duration);
        assert(code == d1 + 64);
        assert(code % 64 == d1 && code / 64 == 1);
        assert(pow4(1) == 4);
        assert(gas_wait_millis(code) == d1 * 4);
    } else if d2 <= 63 {
        let code = spec_gas_wait(duration);
        assert(code == d2 + 128);
        assert(code % 64 == d2 && code / 64 == 2);
        assert(pow4(2) == 16);
        assert(gas_wait_millis(code) == d2 * 16);
    } else {
        assert(d3 <= 63);
        let code = spec_gas_wait(duration);
        assert(code == d3 + 192);
        assert(code % 64 == d3 && code / 64 == 3);
        assert(pow4(3) == 64);
        assert(gas_wait_millis(code) == d3 * 64);
    }
}

} // verus!

verus! {

/// The control register value that selects operation `mode` and keeps all
/// other settings of `ctrl_meas`: the mode bits of `ctrl_meas` are cleared and
/// `mode` is or-ed in. A mode that fits in the two mode bits is exactly what
/// the register then selects.
pub fn op_mode_register(ctrl_meas: u8, mode: u8) -> (r: u8)
    ensures
        r == (ctrl_meas & !MODE_MASK) | mode,
        mode <= MODE_MASK ==> r & 0xFC == ctrl_meas & 0xFC && r & MODE_MASK == mode,
{
    let r = (ctrl_meas & !MODE_MASK) | mode;
    assert(mode <= 3 ==> ((ctrl_meas & !3u8) | mode) & 0xFC == ctrl_meas & 0xFC && ((ctrl_meas
        & !3u8) | mode) & 3 == mode) by (bit_vector);
    r
}

/// The new humidity control register value that selects `humidity`
/// oversampling, or `None` where the oversampling bits of `ctrl_hum` equal
/// `humidity` already. The new value clears those bits and or-s in
/// `humidity`.
pub fn humidity_oversampling_update(ctrl_hum: u8, humidity: u8) -> (r: Option<u8>)
    ensures
        r is None <==> ctrl_hum & OSRS_HMASK == humidity,
        r matches Some(v) ==> v == (ctrl_hum & !OSRS_HMASK) | humidity,
        humidity <= OSRS_HMASK ==> (r matches Some(v) ==> v & 0xF8 == ctrl_hum & 0xF8 && v
            & OSRS_HMASK == humidity),
{
    if (ctrl_hum & OSRS_HMASK) != humidity {
        let v = (ctrl_hum & !OSRS_HMASK) | humidity;
        assert(humidity <= 7 ==> ((ctrl_hum & !7u8) | humidity) & 0xF8 == ctrl_hum & 0xF8 && ((
        ctrl_hum & !7u8) | humidity) & 7 == humidity) by (bit_vector);
        Some(v)
    } else {
        None
    }
}

/// The temperature and pressure oversampling bits that `temperature` and
/// `pressure` ask for.
pub open spec fn tp_oversampling_bits(temperature: u8, pressure: u8) -> u8 {
    (temperature << 5u8) | (pressure << 2u8)
}

/// The new measurement control register value that selects `temperature` and
/// `pressure` oversampling, or `None` where the oversampling bits of
/// `ctrl_meas` equal the asked for bits already. The new value clears those
/// bits and or-s in the asked for ones; the operation mode bits are kept.
pub fn tp_oversampling_update(ctrl_meas: u8, temperature: u8, pressure: u8) -> (r: Option<u8>)
    ensures
        r is None <==> ctrl_meas & OSRS_TP_MASK == tp_oversampling_bits(temperature, pressure),
        r matches Some(v) ==> v == (ctrl_meas & !OSRS_TP_MASK) | tp_oversampling_bits(
            temperature,
            pressure,
        ),
        r matches Some(v) ==> v & MODE_MASK == ctrl_meas & MODE_MASK,
        temperature <= 7 && pressure <= 7 ==> (r is None <==> (ctrl_meas >> 5 == temperature && (
        ctrl_meas >> 2) & 7 == pressure)),
        temperature <= 7 && pressure <= 7 ==> (r matches Some(v) ==> v >> 5 == temperature && (v
            >> 2) & 7 == pressure),
{
    let desired = (temperature << 5) | (pressure << 2);
    assert(temperature <= 7 && pressure <= 7 ==> ((ctrl_meas & 0xFC) == ((temperature << 5u8) | (
    pressure << 2u8)) <==> (ctrl_meas >> 5 == temperature && (ctrl_meas >> 2) & 7 == pressure)))
        by (bit_vector);
    if (ctrl_meas & OSRS_TP_MASK) != desired {
        let v = (ctrl_meas & !OSRS_TP_MASK) | desired;
        assert((((ctrl_meas & !0xFCu8) | ((temperature << 5u8) | (pressure << 2u8))) & 3)
            == ctrl_meas & 3) by (bit_vector);
        assert(temperature <= 7 && pressure <= 7 ==> (((ctrl_meas & !0xFCu8) | ((temperature << 5u8)
            | (pressure << 2u8))) >> 5 == temperature && ((((ctrl_meas & !0xFCu8) | ((temperature
            << 5u8) | (pressure << 2u8))) >> 2) & 7) == pressure)) by (bit_vector);
        Some(v)
    } else {
        None
    }
}

/// Whether the first status byte of a data read reports fresh measurement
/// data.
pub fn has_new_data(status: u8) -> (r: bool)
    ensures
        r == (status >= 0x80),
{
    assert(((status & 0x80) > 0) == (status >= 0x80)) by (bit_vector);
    (status & NEW_DATA_MASK) > 0
}

} // verus!
