//! The LIS3MDL magnetometer: its SPI command bytes, its set-up and the decoding of its output
//! registers. The bus transfers themselves are done by the caller.

use vstd::prelude::*;

verus! {

/// WHO_AM_I register (reads 0x3D).
pub const WHO_AM_I: u8 = 0x0F;
pub const CTRL_REG1: u8 = 0x20;
pub const CTRL_REG2: u8 = 0x21;
pub const CTRL_REG3: u8 = 0x22;
pub const CTRL_REG4: u8 = 0x23;
pub const CTRL_REG5: u8 = 0x24;
pub const STATUS_REG: u8 = 0x27;
/// X axis output, low byte; the Y, Z and temperature outputs follow at 0x2A, 0x2C and 0x2E.
pub const OUT_X_L: u8 = 0x28;
pub const TEMP_OUT_L: u8 = 0x2E;

/// The first byte of a read: the register address with the READ bit (bit 7) and the
/// auto-increment bit (bit 6) set.
pub fn read_command(addr: u8) -> (cmd: u8)
    ensures
        cmd == addr | 0xC0,
{
    addr | 0b1100_0000
}

/// The first byte of a write: the register address with the READ and auto-increment bits clear.
pub fn write_command(addr: u8) -> (cmd: u8)
    ensures
        cmd == addr & 0x3F,
{
    addr & 0b0011_1111
}

/// The register writes that set the sensor up, in order: temperature sensor on, high
/// performance and 10 Hz on X and Y (CTRL_REG1); continuous conversion (CTRL_REG3); high
/// performance on Z (CTRL_REG4).
pub fn setup_writes() -> (writes: [(u8, u8); 3])
    ensures
        writes@ == seq![(CTRL_REG1, 0xD0u8), (CTRL_REG3, 0x00u8), (CTRL_REG4, 0x08u8)],
{
    let writes = [(CTRL_REG1, 0b1_10_100_0_0u8), (CTRL_REG3, 0b00000000u8), (CTRL_REG4, 0b0000_10_00u8)];
    assert(writes@ =~= seq![(CTRL_REG1, 0xD0u8), (CTRL_REG3, 0x00u8), (CTRL_REG4, 0x08u8)]);
    writes
}

/// The two's-complement value of an output register pair, low byte first.
pub open spec fn register_value(low: u8, high: u8) -> i16 {
    ((low as u16) | ((high as u16) << 8)) as i16
}

/// The value of an output register pair, low byte first.
pub fn decode_register(low: u8, high: u8) -> (value: i16)
    ensures
        value == register_value(low, high),
        value == (low as int) + 256 * (high as int) - (if high >= 0x80 {
            65536int
        } else {
            0int
        }),
{
    let bits = (low as u16) | ((high as u16) << 8);
    assert(((low as u16) | ((high as u16) << 8)) == (low as u16) + 256 * (high as u16)) by (bit_vector);
    assert(high >= 0x80 ==> (((low as u16) + 256 * (high as u16)) as i16) == (low as u16) + 256 * (high as u16) - 65536) by (bit_vector);
    assert(high < 0x80 ==> (((low as u16) + 256 * (high as u16)) as i16) == (low as u16) + 256 * (high as u16)) by (bit_vector);
    bits as i16
}

/// The negation of a two's-complement reading, wrapping as the hardware's arithmetic does: the
/// one reading without a negation in an `i16` (`i16::MIN`) stays as it is.
pub open spec fn wrapping_negation(v: i16) -> i16 {
    if v == i16::MIN {
        i16::MIN
    } else {
        (-v) as i16
    }
}

/// The magnetic field on the three axes from the six output registers (X, Y, Z, low byte
/// first). The Y axis of the sensor points the other way from the board's, so its reading is
/// negated.
pub fn magnetic_from_registers(x_l: u8, x_h: u8, y_l: u8, y_h: u8, z_l: u8, z_h: u8) -> (field: (
    i16,
    i16,
    i16,
))
    ensures
        field.0 == register_value(x_l, x_h),
        field.1 == wrapping_negation(register_value(y_l, y_h)),
        field.2 == register_value(z_l, z_h),
{
    let x = decode_register(x_l, x_h);
    let y = decode_register(y_l, y_h);
    let z = decode_register(z_l, z_h);
    let flipped = if y == i16::MIN {
        i16::MIN
    } else {
        -y
    };
    (x, flipped, z)
}

/// The temperature output from its two registers, low byte first.
pub fn temp_from_registers(low: u8, high: u8) -> (temp: i16)
    ensures
        temp == register_value(low, high),
{
    decode_register(low, high)
}

} // verus!
