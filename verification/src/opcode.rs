//! Request codes of the device-control call.
//!
//! A request code packs a direction, the size of the argument record, a
//! one-byte group and a one-byte number into one word. How the direction is
//! encoded differs between platforms, so the packing is left to `rustix`.

use vstd::prelude::*;

verus! {

/// The code that `rustix` composes for a request of direction read-write
/// with the given group, number and argument size, on the platform the
/// library is built for.
pub uninterp spec fn read_write_code(group: u8, number: u8, data_size: usize) -> u32;

/// The number field of a request code: its lowest byte.
pub open spec fn code_number(code: u32) -> u32 {
    code & 0xff
}

/// The group field of a request code: its second byte.
pub open spec fn code_group(code: u32) -> u32 {
    (code >> 8) & 0xff
}

/// The low thirteen bits of the size field of a request code.
pub open spec fn code_size(code: u32) -> u32 {
    (code >> 16) & 0x1fff
}

/// Calls `rustix::ioctl::opcode::from_components` with the direction
/// `Direction::ReadWrite`, which is what `rustix::ioctl::opcode::read_write`
/// computes for a type of `data_size` bytes.
///
/// Believed, not proved: the result is a function of the three arguments,
/// named `read_write_code`; on every platform `rustix` knows, its lowest byte
/// is `number`, its second byte is `group`, and the thirteen bits above them
/// are the low thirteen bits of `data_size`. The bits above those carry the
/// rest of the size and the direction in a platform's own way and are not
/// stated. `rustix` panics on a size that does not fit its code type, whose
/// smallest form is a signed 32-bit integer; such sizes are left out.
#[verifier::external_body]
pub(crate) fn read_write(group: u8, number: u8, data_size: usize) -> (code: u32)
    requires
        data_size <= 0x7fff_ffff,
    ensures
        code == read_write_code(group, number, data_size),
        code_number(code) == number,
        code_group(code) == group,
        code_size(code) == data_size & 0x1fff,
{
    rustix::ioctl::opcode::from_components(
        rustix::ioctl::Direction::ReadWrite,
        group,
        number,
        data_size,
    ) as u32
}

} // verus!
