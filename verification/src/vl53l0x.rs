use vstd::prelude::*;

verus! {

const RANGE_SEQUENCE_STEP_DSS: u8 = 0x28;
const RANGE_SEQUENCE_STEP_PRE_RANGE: u8 = 0x40;
const RANGE_SEQUENCE_STEP_FINAL_RANGE: u8 = 0x80;
pub const INTERRUPT_POLARITY_HIGH: u8 = 0x10;

/// The sequence configuration that enables the DSS, pre range and final
/// range steps of a VL53L0X ranging.
pub fn range_sequence_steps() -> (r: u8)
    ensures
        r == 0xE8,
{
    RANGE_SEQUENCE_STEP_DSS + RANGE_SEQUENCE_STEP_PRE_RANGE + RANGE_SEQUENCE_STEP_FINAL_RANGE
}

/// The GPIO multiplexer register value that makes the interrupt line active
/// low: bit 4 of the read value is cleared, all other bits are kept.
pub fn interrupt_active_low(gpio_hv_mux_active_high: u8) -> (r: u8)
    ensures
        r == gpio_hv_mux_active_high & !INTERRUPT_POLARITY_HIGH,
        r & 0x10 == 0,
        r & 0xEF == gpio_hv_mux_active_high & 0xEF,
{
    let r = gpio_hv_mux_active_high & !INTERRUPT_POLARITY_HIGH;
    assert((gpio_hv_mux_active_high & !0x10u8) & 0x10 == 0 && (gpio_hv_mux_active_high
        & !0x10u8) & 0xEF == gpio_hv_mux_active_high & 0xEF) by (bit_vector);
    r
}

/// Whether the start register still reports a measurement that has not
/// started (its lowest bit is set).
pub fn start_pending(sysrange_start: u8) -> (r: bool)
    ensures
        r == (sysrange_start % 2 == 1),
{
    assert((sysrange_start & 0x01) == sysrange_start % 2) by (bit_vector);
    (sysrange_start & 0x01) == 1
}

/// Whether the interrupt status register reports no finished measurement
/// yet (its lowest three bits are clear).
pub fn result_pending(interrupt_status: u8) -> (r: bool)
    ensures
        r == (interrupt_status % 8 == 0),
{
    assert((interrupt_status & 0x07) == interrupt_status % 8) by (bit_vector);
    (interrupt_status & 0x07) == 0
}

/// The register value with the bits of `mask` set, as written back when
/// setting bits of an I2C register.
pub fn with_bits_set(data: u8, mask: u8) -> (r: u8)
    ensures
        r == data | mask,
        r & mask == mask,
        r & data == data,
{
    assert((data | mask) & mask == mask && (data | mask) & data == data) by (bit_vector);
    data | mask
}

} // verus!
