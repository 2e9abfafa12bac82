//! Chip information: the chip's name, label and number of lines.

use vstd::prelude::*;
use vstd::slice::slice_subrange;
use vstd::utf8::{decode_utf8, valid_utf8};

use crate::line_info::copy_bytes;
use crate::text::{field_bytes, field_text, text_of};
use crate::uapi::{le_u32, read_u32};
use crate::Error;

verus! {

/// Size of one chip-info record (`struct gpiochip_info`).
pub const CHIP_INFO_RECORD_SIZE: usize = 68;

/// GPIO chip information
#[derive(Debug)]
pub struct ChipInfo {
    /// The chip's name as the kernel represents it.
    pub name: Vec<u8>,
    /// The chip's label as the kernel represents it.
    pub label: Vec<u8>,
    /// The number of lines the chip exposes.
    pub num_lines: u32,
}

/// Whether `i` holds what the chip-info record `b` describes.
pub open spec fn chip_info_of(i: ChipInfo, b: Seq<u8>) -> bool {
    &&& i.name@ == field_text(b.subrange(0, 32))
    &&& i.label@ == field_text(b.subrange(32, 64))
    &&& i.num_lines == le_u32(b, 64)
}

/// Whether two chip infos hold the same values.
pub open spec fn same_chip_info(a: ChipInfo, b: ChipInfo) -> bool {
    &&& a.name@ == b.name@
    &&& a.label@ == b.label@
    &&& a.num_lines == b.num_lines
}

/// What reading the text of `bytes` returns.
pub open spec fn text_result(bytes: Seq<u8>, r: Result<String, Error>) -> bool {
    &&& valid_utf8(bytes) ==> (r matches Ok(s) && s@ == decode_utf8(bytes))
    &&& !valid_utf8(bytes) ==> r == Err::<String, Error>(Error::InvalidString)
}

impl ChipInfo {
    /// Decode a chip-info record.
    pub fn from_record(b: &[u8]) -> (r: ChipInfo)
        requires
            CHIP_INFO_RECORD_SIZE <= b@.len(),
        ensures
            chip_info_of(r, b@),
    {
        ChipInfo {
            name: field_bytes(slice_subrange(b, 0, 32)),
            label: field_bytes(slice_subrange(b, 32, 64)),
            num_lines: read_u32(b, 64),
        }
    }

    /// A copy of this chip info.
    pub fn copy(&self) -> (r: ChipInfo)
        ensures
            same_chip_info(r, *self),
    {
        ChipInfo {
            name: copy_bytes(&self.name),
            label: copy_bytes(&self.label),
            num_lines: self.num_lines,
        }
    }

    /// Get the GPIO chip name as represented in the kernel.
    pub fn name(&self) -> (r: Result<String, Error>)
        ensures
            text_result(self.name@, r),
    {
        text_of(copy_bytes(&self.name))
    }

    /// Get the GPIO chip label as represented in the kernel.
    pub fn label(&self) -> (r: Result<String, Error>)
        ensures
            text_result(self.label@, r),
    {
        text_of(copy_bytes(&self.label))
    }

    /// Get the number of GPIO lines exposed by the chip.
    pub fn num_lines(&self) -> (r: u32)
        ensures
            r == self.num_lines,
    {
        self.num_lines
    }
}

} // verus!
