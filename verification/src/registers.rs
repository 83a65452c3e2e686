//! The controller's Modbus register map.
use vstd::prelude::*;

verus! {

/// Why a request was not answered with a response.
#[derive(Debug, Clone, Copy, PartialEq, Eq, Structural)]
pub enum CallbackError {
    /// Error when client specifies an undefined register address.
    NoAddressMatch,
    /// Error when client sends a Modbus request that is not yet implemented.
    NoSupportedRequestMatch,
}

/// Coils (0x) - read/write: digital outputs DO0..DO3.
pub const DO0_ADDR: u16 = 0x0100;
pub const DO1_ADDR: u16 = 0x0101;
pub const DO2_ADDR: u16 = 0x0102;
pub const DO3_ADDR: u16 = 0x0103;
pub const MAX_NUMBER_OF_COILS: usize = 4;

/// Contacts (1x) - read-only: digital inputs DI0..DI10.
pub const DI0_ADDR: u16 = 0x0000;
pub const DI1_ADDR: u16 = 0x0001;
pub const DI2_ADDR: u16 = 0x0002;
pub const DI3_ADDR: u16 = 0x0003;
pub const DI4_ADDR: u16 = 0x0004;
pub const DI5_ADDR: u16 = 0x0005;
pub const DI6_ADDR: u16 = 0x0006;
pub const DI7_ADDR: u16 = 0x0007;
pub const DI8_ADDR: u16 = 0x0008;
pub const DI9_ADDR: u16 = 0x0009;
pub const DI10_ADDR: u16 = 0x000a;
pub const MAX_NUMBER_OF_CONTACTS: usize = 11;

/// Input registers (3x) - read-only.
pub const ANV0_ADDR: u16 = 0x0200;
pub const ANV1_ADDR: u16 = 0x0201;
pub const ANA0_ADDR: u16 = 0x0210;
pub const ANA1_ADDR: u16 = 0x0211;
pub const MAX_NUMBER_OF_INPUT_REGISTERS: usize = 5;

pub const MODEL1_ADDR: u16 = 0x0f00;
pub const MODEL2_ADDR: u16 = 0x0f01;
pub const VERSION_MAJOR_ADDR: u16 = 0x0f10;
pub const VERSION_MINOR_ADDR: u16 = 0x0f11;
pub const VERSION_PATCH_ADDR: u16 = 0x0f12;

/// Model name.
pub const MODEL1_VAL: u16 = 0x494f;
pub const MODEL2_VAL: u16 = 0x4300;

/// Firmware version (major.minor.patch).
pub const VERSION_MAJOR_VAL: u16 = 0;
pub const VERSION_MINOR_VAL: u16 = 1;
pub const VERSION_PATCH_VAL: u16 = 0;

/// The position of the digital output that a coil address names.
pub open spec fn spec_coil_index(addr: u16) -> Result<usize, CallbackError> {
    if DO0_ADDR <= addr <= DO3_ADDR {
        Ok((addr - DO0_ADDR) as usize)
    } else {
        Err(CallbackError::NoAddressMatch)
    }
}

/// The position of the digital input that a contact address names.
pub open spec fn spec_contact_index(addr: u16) -> Result<usize, CallbackError> {
    if addr <= DI10_ADDR {
        Ok(addr as usize)
    } else {
        Err(CallbackError::NoAddressMatch)
    }
}

/// The position, within its block, of the input register that an address names:
/// the analog current and voltage blocks have two registers each, and the
/// information block (model name, version) has five.
pub open spec fn spec_input_register_index(addr: u16) -> Result<usize, CallbackError> {
    if addr == ANA0_ADDR || addr == ANV0_ADDR || addr == MODEL1_ADDR {
        Ok(0)
    } else if addr == ANA1_ADDR || addr == ANV1_ADDR || addr == MODEL2_ADDR {
        Ok(1)
    } else if addr == VERSION_MAJOR_ADDR {
        Ok(2)
    } else if addr == VERSION_MINOR_ADDR {
        Ok(3)
    } else if addr == VERSION_PATCH_ADDR {
        Ok(4)
    } else {
        Err(CallbackError::NoAddressMatch)
    }
}

/// Number of registers in the input-register block that an address belongs
/// to: two for each analog block, five for the information block, none for
/// an undefined address.
pub open spec fn spec_input_register_block_len(addr: u16) -> usize {
    if spec_is_current_input(addr) || spec_is_voltage_input(addr) {
        2
    } else if spec_is_info_register(addr) {
        MAX_NUMBER_OF_INPUT_REGISTERS
    } else {
        0
    }
}

/// Addresses of the analog current inputs.
pub open spec fn spec_is_current_input(addr: u16) -> bool {
    addr == ANA0_ADDR || addr == ANA1_ADDR
}

/// Addresses of the analog voltage inputs.
pub open spec fn spec_is_voltage_input(addr: u16) -> bool {
    addr == ANV0_ADDR || addr == ANV1_ADDR
}

/// Addresses of the model name and firmware version registers.
pub open spec fn spec_is_info_register(addr: u16) -> bool {
    addr == MODEL1_ADDR || addr == MODEL2_ADDR || addr == VERSION_MAJOR_ADDR
        || addr == VERSION_MINOR_ADDR || addr == VERSION_PATCH_ADDR
}

/// The contents of the information block, in address order.
pub open spec fn info_registers() -> Seq<u16> {
    seq![MODEL1_VAL, MODEL2_VAL, VERSION_MAJOR_VAL, VERSION_MINOR_VAL, VERSION_PATCH_VAL]
}

/// Maps a coil address to the digital output it names.
pub fn coil_index(addr: u16) -> (r: Result<usize, CallbackError>)
    ensures
        r == spec_coil_index(addr),
{
    if DO0_ADDR <= addr && addr <= DO3_ADDR {
        Ok((addr - DO0_ADDR) as usize)
    } else {
        Err(CallbackError::NoAddressMatch)
    }
}

/// Maps a contact address to the digital input it names.
pub fn contact_index(addr: u16) -> (r: Result<usize, CallbackError>)
    ensures
        r == spec_contact_index(addr),
{
    if addr <= DI10_ADDR {
        Ok(addr as usize)
    } else {
        Err(CallbackError::NoAddressMatch)
    }
}

/// Maps an input register address to its position within its block.
pub fn input_register_index(addr: u16) -> (r: Result<usize, CallbackError>)
    ensures
        r == spec_input_register_index(addr),
{
    if addr == ANA0_ADDR || addr == ANV0_ADDR || addr == MODEL1_ADDR {
        Ok(0)
    } else if addr == ANA1_ADDR || addr == ANV1_ADDR || addr == MODEL2_ADDR {
        Ok(1)
    } else if addr == VERSION_MAJOR_ADDR {
        Ok(2)
    } else if addr == VERSION_MINOR_ADDR {
        Ok(3)
    } else if addr == VERSION_PATCH_ADDR {
        Ok(4)
    } else {
        Err(CallbackError::NoAddressMatch)
    }
}

/// Whether the address names an analog current input.
pub fn is_current_input(addr: u16) -> (r: bool)
    ensures
        r == spec_is_current_input(addr),
{
    addr == ANA0_ADDR || addr == ANA1_ADDR
}

/// Whether the address names an analog voltage input.
pub fn is_voltage_input(addr: u16) -> (r: bool)
    ensures
        r == spec_is_voltage_input(addr),
{
    addr == ANV0_ADDR || addr == ANV1_ADDR
}

/// Whether the address names a model name or firmware version register.
pub fn is_info_register(addr: u16) -> (r: bool)
    ensures
        r == spec_is_info_register(addr),
{
    addr == MODEL1_ADDR || addr == MODEL2_ADDR || addr == VERSION_MAJOR_ADDR
        || addr == VERSION_MINOR_ADDR || addr == VERSION_PATCH_ADDR
}

/// Number of registers in the block that an input-register address belongs to.
pub fn input_register_block_len(addr: u16) -> (r: usize)
    ensures
        r == spec_input_register_block_len(addr),
{
    if is_current_input(addr) || is_voltage_input(addr) {
        2
    } else if is_info_register(addr) {
        MAX_NUMBER_OF_INPUT_REGISTERS
    } else {
        0
    }
}

/// The value of the information register at a position of its block.
pub fn info_register(i: usize) -> (r: u16)
    requires
        i < MAX_NUMBER_OF_INPUT_REGISTERS,
    ensures
        r == info_registers()[i as int],
{
    if i == 0 {
        MODEL1_VAL
    } else if i == 1 {
        MODEL2_VAL
    } else if i == 2 {
        VERSION_MAJOR_VAL
    } else if i == 3 {
        VERSION_MINOR_VAL
    } else {
        VERSION_PATCH_VAL
    }
}

} // verus!
