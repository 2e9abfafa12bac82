//! The kernel's GPIO character-device ABI (version 2): record sizes, flag
//! bits, and little-endian field readers.

use vstd::prelude::*;

verus! {

/// Size of one edge-event record (`struct gpio_v2_line_event`).
pub const EDGE_EVENT_RECORD_SIZE: usize = 48;

/// Size of one line-info record (`struct gpio_v2_line_info`).
pub const LINE_INFO_RECORD_SIZE: usize = 256;

/// Size of one info-event record (`struct gpio_v2_line_info_changed`).
pub const INFO_EVENT_RECORD_SIZE: usize = 288;

/// Size of a line-configuration record (`struct gpio_v2_line_config`).
pub const LINE_CONFIG_RECORD_SIZE: usize = 272;

/// Size of a line-request record (`struct gpio_v2_line_request`).
pub const LINE_REQUEST_RECORD_SIZE: usize = 592;

/// The most attributes a line configuration can carry.
pub const NUM_ATTRS_MAX: usize = 10;

pub const FLAG_USED: u64 = 1;
pub const FLAG_ACTIVE_LOW: u64 = 2;
pub const FLAG_INPUT: u64 = 4;
pub const FLAG_OUTPUT: u64 = 8;
pub const FLAG_EDGE_RISING: u64 = 16;
pub const FLAG_EDGE_FALLING: u64 = 32;
pub const FLAG_OPEN_DRAIN: u64 = 64;
pub const FLAG_OPEN_SOURCE: u64 = 128;
pub const FLAG_BIAS_PULL_UP: u64 = 256;
pub const FLAG_BIAS_PULL_DOWN: u64 = 512;
pub const FLAG_BIAS_DISABLED: u64 = 1024;
pub const FLAG_EVENT_CLOCK_REALTIME: u64 = 2048;

pub const ATTR_ID_FLAGS: u32 = 1;
pub const ATTR_ID_OUTPUT_VALUES: u32 = 2;
pub const ATTR_ID_DEBOUNCE: u32 = 3;

pub const EVENT_RISING_EDGE: u32 = 1;
pub const EVENT_FALLING_EDGE: u32 = 2;

pub const LINE_CHANGED_REQUESTED: u32 = 1;
pub const LINE_CHANGED_RELEASED: u32 = 2;
pub const LINE_CHANGED_CONFIG: u32 = 3;

/// The little-endian `u32` at `at` in `b`.
pub open spec fn le_u32(b: Seq<u8>, at: int) -> u32 {
    (b[at] as int + b[at + 1] as int * 0x100 + b[at + 2] as int * 0x10000 + b[at + 3] as int
        * 0x1000000) as u32
}

/// The little-endian `u64` at `at` in `b`.
pub open spec fn le_u64(b: Seq<u8>, at: int) -> u64 {
    (le_u32(b, at) as int + le_u32(b, at + 4) as int * 0x1_0000_0000) as u64
}

/// The little-endian bytes of `v`.
pub open spec fn u32_le(v: u32) -> Seq<u8> {
    seq![
        (v % 0x100) as u8,
        ((v / 0x100) % 0x100) as u8,
        ((v / 0x10000) % 0x100) as u8,
        (v / 0x1000000) as u8,
    ]
}

/// The little-endian bytes of `v`.
pub open spec fn u64_le(v: u64) -> Seq<u8> {
    u32_le((v % 0x1_0000_0000) as u32) + u32_le((v / 0x1_0000_0000) as u32)
}

/// `n` zero bytes.
pub open spec fn zeros(n: nat) -> Seq<u8> {
    Seq::new(n, |i: int| 0u8)
}

/// Append the little-endian bytes of `v`.
pub fn push_u32(out: &mut Vec<u8>, v: u32)
    ensures
        final(out)@ == old(out)@ + u32_le(v),
{
    out.push((v % 0x100) as u8);
    out.push(((v / 0x100) % 0x100) as u8);
    out.push(((v / 0x10000) % 0x100) as u8);
    out.push((v / 0x1000000) as u8);
    assert(final(out)@ =~= old(out)@ + u32_le(v));
}

/// Append the little-endian bytes of `v`.
pub fn push_u64(out: &mut Vec<u8>, v: u64)
    ensures
        final(out)@ == old(out)@ + u64_le(v),
{
    push_u32(out, (v % 0x1_0000_0000) as u32);
    push_u32(out, (v / 0x1_0000_0000) as u32);
    assert(final(out)@ =~= old(out)@ + u64_le(v));
}

/// Append `n` zero bytes.
pub fn push_zeros(out: &mut Vec<u8>, n: usize)
    ensures
        final(out)@ == old(out)@ + zeros(n as nat),
{
    let ghost start = out@;
    let mut i: usize = 0;
    while i < n
        invariant
            i <= n,
            out@ == start + zeros(i as nat),
        decreases n - i,
    {
        out.push(0);
        i = i + 1;
        assert(out@ =~= start + zeros(i as nat));
    }
}

/// Read the little-endian `u32` at `at`.
pub fn read_u32(b: &[u8], at: usize) -> (r: u32)
    requires
        at + 4 <= b@.len(),
    ensures
        r == le_u32(b@, at as int),
{
    b[at] as u32 + b[at + 1] as u32 * 0x100 + b[at + 2] as u32 * 0x10000 + b[at + 3] as u32
        * 0x1000000
}

/// Read the little-endian `u64` at `at`.
pub fn read_u64(b: &[u8], at: usize) -> (r: u64)
    requires
        at + 8 <= b@.len(),
    ensures
        r == le_u64(b@, at as int),
{
    let _len = b.len();
    let lo = read_u32(b, at);
    let hi = read_u32(b, at + 4);
    lo as u64 + hi as u64 * 0x1_0000_0000
}

/// Relies on `libc::EINVAL`, the invalid-argument error code, 22 on Linux.
#[verifier::external_body]
pub fn errno_invalid() -> (r: i32)
    ensures
        r == 22,
{
    libc::EINVAL
}

/// Relies on `libc::EBUSY`, the device-busy error code, 16 on Linux.
#[verifier::external_body]
pub fn errno_busy() -> (r: i32)
    ensures
        r == 16,
{
    libc::EBUSY
}

/// Relies on `libc::E2BIG`, the argument-list-too-long error code, 7 on
/// Linux.
#[verifier::external_body]
pub fn errno_too_big() -> (r: i32)
    ensures
        r == 7,
{
    libc::E2BIG
}

/// Relies on `libc::EIO`, the input/output error code, 5 on Linux.
#[verifier::external_body]
pub fn errno_io() -> (r: i32)
    ensures
        r == 5,
{
    libc::EIO
}

} // verus!
