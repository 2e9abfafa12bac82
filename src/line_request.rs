//! Line requests: the lines a request holds and the values read from and
//! written to them.

use vstd::prelude::*;
use vstd::slice::slice_to_vec;

use crate::event_buffer::{edge_events_of, min, EdgeEventBuffer};
use crate::kernel_config::{
    configures, flags_of, kernel_line_config, line_config_bytes, push_line_config, too_many_attrs,
    KernelLineConfig,
};
use crate::request_config::RequestConfig;
use crate::line_config::LineConfig;
use crate::request_config::LINES_MAX;
use crate::uapi::{
    errno_invalid, push_u32, push_zeros, u32_le, zeros, EDGE_EVENT_RECORD_SIZE, NUM_ATTRS_MAX,
};
use crate::{Error, Operation};

verus! {

/// Whether bit `i` of `x` is set.
pub open spec fn bit(x: u64, i: int) -> bool {
    (x >> (i as u64)) & 1 == 1
}

/// Setting bit `i` sets it and leaves the others alone.
pub proof fn lemma_bit_set(x: u64, i: u64, j: u64)
    requires
        i < 64,
        j < 64,
    ensures
        bit(x | (1u64 << i), j as int) == (j == i || bit(x, j as int)),
{
    assert(((x | (1u64 << i)) >> j) & 1 == 1 <==> (j == i || (x >> j) & 1 == 1)) by (bit_vector)
        requires
            i < 64,
            j < 64,
    ;
}

/// Clearing bit `i` clears it and leaves the others alone.
pub proof fn lemma_bit_clear(x: u64, i: u64, j: u64)
    requires
        i < 64,
        j < 64,
    ensures
        bit(x & !(1u64 << i), j as int) == (j != i && bit(x, j as int)),
{
    assert(((x & !(1u64 << i)) >> j) & 1 == 1 <==> (j != i && (x >> j) & 1 == 1)) by (bit_vector)
        requires
            i < 64,
            j < 64,
    ;
}

/// No bit of 0 is set.
pub proof fn lemma_bit_zero(j: u64)
    requires
        j < 64,
    ensures
        !bit(0, j as int),
{
    assert((0u64 >> j) & 1 != 1) by (bit_vector);
}

/// The value a line reads as, given whether its bit is set.
pub open spec fn level(b: bool) -> i32 {
    if b {
        1
    } else {
        0
    }
}

/// Values to write to the lines of a request: bit `i` of `mask` selects the
/// `i`-th line of the request, bit `i` of `bits` is its new value.
#[derive(Clone, Copy, Debug, PartialEq, Eq, Structural)]
pub struct LineValues {
    pub mask: u64,
    pub bits: u64,
}

/// The value that the last pair among the first `n` of (`offsets`, `values`)
/// naming `offset` gives it, if one does.
pub open spec fn last_value_for(offsets: Seq<u32>, values: Seq<i32>, offset: u32, n: int) -> Option<
    i32,
>
    decreases n,
{
    if n <= 0 {
        None
    } else if offsets[n - 1] == offset {
        Some(values[n - 1])
    } else {
        last_value_for(offsets, values, offset, n - 1)
    }
}

/// Whether the value `v`, if there is one, drives a line high.
pub open spec fn sets_high(v: Option<i32>) -> bool {
    match v {
        Some(x) => x != 0,
        None => false,
    }
}

/// The first `k` offset slots of a line-request record for `offsets`: the
/// offsets, then zeros.
pub open spec fn offset_slots(offsets: Seq<u32>, k: nat) -> Seq<u8>
    decreases k,
{
    if k == 0 {
        Seq::empty()
    } else {
        offset_slots(offsets, (k - 1) as nat) + if k - 1 < offsets.len() {
            u32_le(offsets[k - 1])
        } else {
            u32_le(0)
        }
    }
}

/// The line-request record (`struct gpio_v2_line_request`) for `offsets`
/// with the consumer label `consumer` (at most 31 bytes), the line
/// configuration `config` and the event buffer size `event_buffer_size`;
/// the file descriptor the kernel fills in starts as zero.
pub open spec fn request_bytes(
    offsets: Seq<u32>,
    consumer: Seq<u8>,
    config: KernelLineConfig,
    event_buffer_size: u32,
) -> Seq<u8> {
    offset_slots(offsets, LINES_MAX as nat) + consumer + zeros((32 - consumer.len()) as nat)
        + line_config_bytes(config) + u32_le(offsets.len() as u32) + u32_le(event_buffer_size)
        + zeros(24)
}

/// Line request operations
///
/// A request holds a fixed set of distinct lines, given by their offsets in
/// the order they were requested, and the settings each was requested with.
#[derive(Debug)]
pub struct LineRequest {
    offsets: Vec<u32>,
    config: KernelLineConfig,
}

impl LineRequest {
    /// The lines are distinct, there is at least one and at most `LINES_MAX`.
    pub closed spec fn wf(self) -> bool {
        &&& 1 <= self.offsets@.len() <= LINES_MAX
        &&& self.config.attrs@.len() <= NUM_ATTRS_MAX
        &&& forall|i: int, j: int|
            0 <= i < j < self.offsets@.len() ==> self.offsets@[i] != self.offsets@[j]
    }

    /// The offsets of the requested lines, in request order.
    pub closed spec fn offsets_spec(self) -> Seq<u32> {
        self.offsets@
    }

    /// The kernel line configuration the request is made with.
    pub closed spec fn config_spec(self) -> KernelLineConfig {
        self.config
    }

    /// A request for `offsets` made with `config`.
    pub(crate) fn from_parts(offsets: Vec<u32>, config: KernelLineConfig) -> (r: LineRequest)
        requires
            1 <= offsets@.len() <= LINES_MAX,
            config.attrs@.len() <= NUM_ATTRS_MAX,
            forall|i: int, j: int| 0 <= i < j < offsets@.len() ==> offsets@[i] != offsets@[j],
        ensures
            r.wf(),
            r.offsets_spec() == offsets@,
            r.config_spec() == config,
    {
        LineRequest { offsets, config }
    }

    /// Get the number of lines in the request.
    pub fn get_num_lines(&self) -> (r: u32)
        requires
            self.wf(),
        ensures
            r == self.offsets_spec().len(),
    {
        self.offsets.len() as u32
    }

    /// Get the offsets of lines in the request.
    pub fn get_offsets(&self) -> (r: Vec<u32>)
        ensures
            r@ == self.offsets_spec(),
    {
        slice_to_vec(self.offsets.as_slice())
    }

    /// The line-request record (`struct gpio_v2_line_request`) that asks the
    /// kernel for this request, with the consumer label and event buffer
    /// size of `rconfig`.
    pub fn request_record(&self, rconfig: &RequestConfig) -> (r: Vec<u8>)
        requires
            self.wf(),
        ensures
            r@ == request_bytes(
                self.offsets_spec(),
                match rconfig.consumer_spec() {
                    Some(c) => c,
                    None => Seq::<u8>::empty(),
                },
                self.config_spec(),
                rconfig.event_buffer_size_spec(),
            ),
    {
        let mut r: Vec<u8> = Vec::new();
        let mut k: usize = 0;
        while k < LINES_MAX
            invariant
                self.wf(),
                k <= LINES_MAX,
                r@ == offset_slots(self.offsets@, k as nat),
            decreases LINES_MAX - k,
        {
            if k < self.offsets.len() {
                push_u32(&mut r, self.offsets[k]);
            } else {
                push_u32(&mut r, 0);
            }
            k = k + 1;
            assert(r@ =~= offset_slots(self.offsets@, k as nat));
        }
        let consumer = rconfig.consumer_bytes();
        let mut i: usize = 0;
        let ghost head = r@;
        while i < consumer.len()
            invariant
                i <= consumer@.len(),
                r@ == head + consumer@.take(i as int),
            decreases consumer@.len() - i,
        {
            r.push(consumer[i]);
            i = i + 1;
            assert(r@ =~= head + consumer@.take(i as int));
        }
        assert(consumer@.take(consumer@.len() as int) =~= consumer@);
        push_zeros(&mut r, 32 - consumer.len());
        push_line_config(&mut r, &self.config);
        push_u32(&mut r, self.offsets.len() as u32);
        push_u32(&mut r, rconfig.get_event_buffer_size());
        push_zeros(&mut r, 24);
        assert(r@ =~= request_bytes(
            self.offsets_spec(),
            consumer@,
            self.config_spec(),
            rconfig.event_buffer_size_spec(),
        ));
        r
    }

    /// Get the kernel line configuration the request is made with.
    pub fn get_config(&self) -> (r: KernelLineConfig)
        ensures
            r.flags == self.config_spec().flags,
            r.attrs@ == self.config_spec().attrs@,
    {
        self.config.copy()
    }

    /// The position of `offset` among the requested lines, if it is one.
    fn index_of(&self, offset: u32) -> (r: Option<usize>)
        requires
            self.wf(),
        ensures
            r matches Some(i) ==> i < self.offsets@.len() && self.offsets@[i as int] == offset,
            r is None ==> !self.offsets@.contains(offset),
    {
        let mut i: usize = 0;
        while i < self.offsets.len()
            invariant
                i <= self.offsets@.len(),
                forall|j: int| 0 <= j < i ==> self.offsets@[j] != offset,
            decreases self.offsets@.len() - i,
        {
            if self.offsets[i] == offset {
                return Some(i);
            }
            i = i + 1;
        }
        None
    }

    /// Set the value of a single line of the request: the values to write
    /// select that line alone, with bit 1 for any nonzero `value`. Fails if
    /// the line is not part of the request.
    pub fn set_value(&self, offset: u32, value: i32) -> (r: Result<LineValues, Error>)
        requires
            self.wf(),
        ensures
            !self.offsets_spec().contains(offset) ==> r == Err::<LineValues, Error>(
                Error::OperationFailed(Operation::SetValue, 22),
            ),
            forall|i: int|
                0 <= i < self.offsets_spec().len() && self.offsets_spec()[i] == offset ==> (r matches Ok(
                    v,
                ) && (forall|j: int| 0 <= j < 64 ==> bit(v.mask, j) == (j == i) && bit(v.bits, j) == (
                j == i && value != 0))),
    {
        match self.index_of(offset) {
            Some(i) => {
                let one: u64 = 1u64 << (i as u64);
                let bits: u64 = if value != 0 {
                    one
                } else {
                    0
                };
                proof {
                    assert forall|j: int| 0 <= j < 64 implies bit(one, j) == (j == i) && bit(bits, j) == (
                    j == i && value != 0) by {
                        lemma_bit_set(0, i as u64, j as u64);
                        lemma_bit_zero(j as u64);
                        assert(0u64 | (1u64 << (i as u64)) == 1u64 << (i as u64)) by (bit_vector);
                    }
                    assert forall|k: int|
                        0 <= k < self.offsets@.len() && self.offsets@[k] == offset implies k == i by {
                        if k != i {
                            if k < i {
                                assert(self.offsets@[k] != self.offsets@[i as int]);
                            } else {
                                assert(self.offsets@[i as int] != self.offsets@[k]);
                            }
                        }
                    }
                }
                Ok(LineValues { mask: one, bits })
            },
            None => Err(Error::OperationFailed(Operation::SetValue, errno_invalid())),
        }
    }

    /// Set the values of all lines of the request, `values[i]` for the
    /// `i`-th line (any nonzero value counts as 1). Fails with
    /// `ArgumentMismatch` if `values` does not hold one entry per line.
    pub fn set_values(&self, values: &[i32]) -> (r: Result<LineValues, Error>)
        requires
            self.wf(),
        ensures
            values@.len() != self.offsets_spec().len() ==> r == Err::<LineValues, Error>(
                Error::ArgumentMismatch,
            ),
            values@.len() == self.offsets_spec().len() ==> (r matches Ok(v) && (forall|j: int|
                0 <= j < 64 ==> bit(v.mask, j) == (j < values@.len()) && bit(v.bits, j) == (j
                    < values@.len() && values@[j] != 0))),
    {
        if values.len() != self.offsets.len() {
            return Err(Error::ArgumentMismatch);
        }
        let n = values.len();
        let mut mask: u64 = 0;
        let mut bits: u64 = 0;
        let mut i: usize = 0;
        proof {
            assert forall|j: int| 0 <= j < 64 implies !bit(0, j) by {
                lemma_bit_zero(j as u64);
            }
        }
        while i < n
            invariant
                n == values@.len(),
                n <= LINES_MAX,
                i <= n,
                forall|j: int|
                    0 <= j < 64 ==> bit(mask, j) == (j < i) && bit(bits, j) == (j < i && values@[j]
                        != 0),
            decreases n - i,
        {
            let one: u64 = 1u64 << (i as u64);
            let ghost old_mask = mask;
            let ghost old_bits = bits;
            mask = mask | one;
            if values[i] != 0 {
                bits = bits | one;
            }
            proof {
                assert forall|j: int| 0 <= j < 64 implies bit(mask, j) == (j < i + 1) && bit(bits, j)
                    == (j < i + 1 && values@[j] != 0) by {
                    lemma_bit_set(old_mask, i as u64, j as u64);
                    lemma_bit_set(old_bits, i as u64, j as u64);
                }
            }
            i = i + 1;
        }
        Ok(LineValues { mask, bits })
    }

    /// Set the values of a subset of the lines of the request: the line
    /// `offsets[k]` gets `values[k]` (any nonzero value counts as 1), later
    /// pairs winning over earlier ones for the same line. Fails with
    /// `ArgumentMismatch` if the two lengths differ, and with an
    /// invalid-argument error if an offset is not part of the request.
    pub fn set_values_subset(&self, offsets: &[u32], values: &[i32]) -> (r: Result<
        LineValues,
        Error,
    >)
        requires
            self.wf(),
        ensures
            offsets@.len() != values@.len() ==> r == Err::<LineValues, Error>(
                Error::ArgumentMismatch,
            ),
            offsets@.len() == values@.len() && (exists|k: int|
                0 <= k < offsets@.len() && !self.offsets_spec().contains(#[trigger] offsets@[k]))
                ==> r == Err::<LineValues, Error>(
                Error::OperationFailed(Operation::SetValuesSubset, 22),
            ),
            offsets@.len() == values@.len() && (forall|k: int|
                0 <= k < offsets@.len() ==> self.offsets_spec().contains(#[trigger] offsets@[k]))
                ==> (r matches Ok(v) && (forall|j: int|
                0 <= j < 64 ==> bit(v.mask, j) == (j < self.offsets_spec().len() && last_value_for(
                    offsets@,
                    values@,
                    self.offsets_spec()[j],
                    offsets@.len() as int,
                ) is Some) && bit(v.bits, j) == (j < self.offsets_spec().len() && sets_high(
                    last_value_for(offsets@, values@, self.offsets_spec()[j], offsets@.len() as int),
                )))),
    {
        if offsets.len() != values.len() {
            return Err(Error::ArgumentMismatch);
        }
        let n = offsets.len();
        let mut mask: u64 = 0;
        let mut bits: u64 = 0;
        let mut k: usize = 0;
        proof {
            assert forall|j: int| 0 <= j < 64 implies !bit(0, j) by {
                lemma_bit_zero(j as u64);
            }
        }
        while k < n
            invariant
                self.wf(),
                n == offsets@.len(),
                n == values@.len(),
                k <= n,
                forall|a: int| 0 <= a < k ==> self.offsets@.contains(#[trigger] offsets@[a]),
                forall|j: int|
                    0 <= j < 64 ==> bit(mask, j) == (j < self.offsets@.len() && last_value_for(
                        offsets@,
                        values@,
                        self.offsets@[j],
                        k as int,
                    ) is Some) && bit(bits, j) == (j < self.offsets@.len() && sets_high(last_value_for(
                        offsets@,
                        values@,
                        self.offsets@[j],
                        k as int,
                    ))),
            decreases n - k,
        {
            match self.index_of(offsets[k]) {
                Some(i) => {
                    let one: u64 = 1u64 << (i as u64);
                    let ghost old_mask = mask;
                    let ghost old_bits = bits;
                    mask = mask | one;
                    if values[k] != 0 {
                        bits = bits | one;
                    } else {
                        bits = bits & !one;
                    }
                    proof {
                        assert forall|j: int| 0 <= j < 64 implies bit(mask, j) == (j
                            < self.offsets@.len() && last_value_for(
                            offsets@,
                            values@,
                            self.offsets@[j],
                            k + 1,
                        ) is Some) && bit(bits, j) == (j < self.offsets@.len() && sets_high(last_value_for(
                            offsets@,
                            values@,
                            self.offsets@[j],
                            k + 1,
                        ))) by {
                            lemma_bit_set(old_mask, i as u64, j as u64);
                            lemma_bit_set(old_bits, i as u64, j as u64);
                            lemma_bit_clear(old_bits, i as u64, j as u64);
                            if j < self.offsets@.len() && j != i {
                                if j < i {
                                    assert(self.offsets@[j] != self.offsets@[i as int]);
                                } else {
                                    assert(self.offsets@[i as int] != self.offsets@[j]);
                                }
                            }
                        }
                    }
                },
                None => {
                    return Err(Error::OperationFailed(Operation::SetValuesSubset, errno_invalid()));
                },
            }
            k = k + 1;
        }
        Ok(LineValues { mask, bits })
    }

    /// The kernel line configuration that reconfigures the request's lines
    /// with `lconfig`: the same lines, with their effective settings under
    /// the new configuration; overrides for other lines are ignored. Fails,
    /// as the request would, where the settings need more attributes than
    /// the kernel accepts.
    pub fn reconfigure_lines(&self, lconfig: &LineConfig) -> (r: Result<KernelLineConfig, Error>)
        requires
            self.wf(),
            lconfig.wf(),
        ensures
            r matches Ok(c) ==> configures(c, lconfig.merged(self.offsets_spec())) && c.flags
                == flags_of(lconfig.merged(self.offsets_spec())[0]),
            r matches Err(e) ==> e == Error::OperationFailed(Operation::ReconfigureLines, 7)
                && exists|ks: Seq<(u32, u64)>|
                too_many_attrs(
                    lconfig.merged(self.offsets_spec()),
                    flags_of(lconfig.merged(self.offsets_spec())[0]),
                    ks,
                ),
    {
        let settings = lconfig.settings_for(self.offsets.as_slice());
        let r = kernel_line_config(settings.as_slice(), Operation::ReconfigureLines);
        proof {
            assert(settings@ == lconfig.merged(self.offsets_spec()));
        }
        r
    }

    /// The outcome of waiting for edge events, given what the wait on the
    /// request's file descriptor gave: whether an event is ready, or the OS
    /// error code of a failed wait.
    pub fn wait_edge_event(&self, ready: Result<bool, i32>) -> (r: Result<(), Error>)
        ensures
            r == (match ready {
                Ok(true) => Ok::<(), Error>(()),
                Ok(false) => Err(Error::OperationTimedOut),
                Err(e) => Err(Error::OperationFailed(Operation::WaitEdgeEvent, e)),
            }),
    {
        match ready {
            Ok(true) => Ok(()),
            Ok(false) => Err(Error::OperationTimedOut),
            Err(e) => Err(Error::OperationFailed(Operation::WaitEdgeEvent, e)),
        }
    }

    /// Read edge events into `buffer` from the records read from the
    /// request's file descriptor: at most `max_events`, and at most the
    /// buffer's capacity, oldest first, replacing what the buffer held.
    /// Returns how many were read.
    pub fn read_edge_event(&self, buffer: &mut EdgeEventBuffer, max_events: u32, records: &[u8]) -> (r:
        Result<u32, Error>)
        ensures
            records@.len() < EDGE_EVENT_RECORD_SIZE ==> r == Err::<u32, Error>(
                Error::OperationFailed(Operation::ReadEdgeEvent, 5),
            ) && final(buffer).events_spec() == old(buffer).events_spec(),
            records@.len() >= EDGE_EVENT_RECORD_SIZE ==> r == Ok::<u32, Error>(
                final(buffer).events_spec().len() as u32,
            ) && final(buffer).events_spec() == edge_events_of(
                records@,
                min(
                    min(records@.len() as int / EDGE_EVENT_RECORD_SIZE as int, max_events as int),
                    old(buffer).capacity_spec() as int,
                ),
            ) && final(buffer).events_spec().len() <= max_events,
            final(buffer).capacity_spec() == old(buffer).capacity_spec(),
            final(buffer).events_spec().len() <= final(buffer).capacity_spec(),
    {
        buffer.fill(records, max_events)
    }

    /// Get the value (0 or 1) of a single line of the request, given the
    /// value bits read from the kernel for all its lines. Fails if the line
    /// is not part of the request.
    pub fn get_value(&self, offset: u32, line_bits: u64) -> (r: Result<u32, Error>)
        requires
            self.wf(),
        ensures
            !self.offsets_spec().contains(offset) ==> r == Err::<u32, Error>(
                Error::OperationFailed(Operation::GetValue, 22),
            ),
            forall|i: int|
                0 <= i < self.offsets_spec().len() && self.offsets_spec()[i] == offset ==> r
                    == Ok::<u32, Error>(level(bit(line_bits, i)) as u32),
    {
        match self.index_of(offset) {
            Some(i) => {
                if (line_bits >> (i as u64)) & 1 == 1 {
                    Ok(1)
                } else {
                    Ok(0)
                }
            },
            None => Err(Error::OperationFailed(Operation::GetValue, errno_invalid())),
        }
    }

    /// Get the values of all lines of the request, in request order, given
    /// the value bits read from the kernel. Fails with `ArgumentMismatch`,
    /// changing nothing, if `values` does not hold one entry per line.
    pub fn get_values(&self, values: &mut Vec<i32>, line_bits: u64) -> (r: Result<(), Error>)
        requires
            self.wf(),
        ensures
            old(values)@.len() != self.offsets_spec().len() ==> r == Err::<(), Error>(
                Error::ArgumentMismatch,
            ) && final(values)@ == old(values)@,
            old(values)@.len() == self.offsets_spec().len() ==> r == Ok::<(), Error>(())
                && final(values)@.len() == old(values)@.len()
                && (forall|i: int| 0 <= i < final(values)@.len() ==> #[trigger] final(values)@[i]
                    == level(bit(line_bits, i))),
    {
        if values.len() != self.offsets.len() {
            return Err(Error::ArgumentMismatch);
        }
        let n = values.len();
        let mut i: usize = 0;
        while i < n
            invariant
                n == values@.len(),
                n == self.offsets@.len(),
                n <= LINES_MAX,
                i <= n,
                forall|j: int| 0 <= j < i ==> #[trigger] values@[j] == level(bit(line_bits, j)),
            decreases n - i,
        {
            let v: i32 = if (line_bits >> (i as u64)) & 1 == 1 {
                1
            } else {
                0
            };
            values.set(i, v);
            i = i + 1;
        }
        Ok(())
    }

    /// Get the values of a subset of the lines of the request: `values[k]`
    /// becomes the value of the line `offsets[k]`, given the value bits read
    /// from the kernel for all lines. Fails with `ArgumentMismatch` if the two
    /// lengths differ, and with an invalid-argument error if an offset is not
    /// part of the request; `values` is then left as it was.
    pub fn get_values_subset(&self, offsets: &[u32], values: &mut Vec<i32>, line_bits: u64) -> (r:
        Result<(), Error>)
        requires
            self.wf(),
        ensures
            offsets@.len() != old(values)@.len() ==> r == Err::<(), Error>(Error::ArgumentMismatch),
            offsets@.len() == old(values)@.len() && (exists|k: int|
                0 <= k < offsets@.len() && !self.offsets_spec().contains(#[trigger] offsets@[k]))
                ==> r == Err::<(), Error>(Error::OperationFailed(Operation::GetValuesSubset, 22)),
            r is Err ==> final(values)@ == old(values)@,
            offsets@.len() == old(values)@.len() && (forall|k: int|
                0 <= k < offsets@.len() ==> self.offsets_spec().contains(#[trigger] offsets@[k]))
                ==> r == Ok::<(), Error>(()) && final(values)@.len() == old(values)@.len()
                && (forall|k: int, i: int|
                    0 <= k < offsets@.len() && 0 <= i < self.offsets_spec().len()
                        && #[trigger] self.offsets_spec()[i] == offsets@[k] ==> #[trigger] final(values)@[k]
                        == level(bit(line_bits, i))),
    {
        if offsets.len() != values.len() {
            return Err(Error::ArgumentMismatch);
        }
        let n = offsets.len();
        let mut read: Vec<i32> = Vec::new();
        let mut k: usize = 0;
        while k < n
            invariant
                self.wf(),
                n == offsets@.len(),
                n == values@.len(),
                values@ == old(values)@,
                k <= n,
                read@.len() == k,
                forall|a: int| 0 <= a < k ==> self.offsets@.contains(#[trigger] offsets@[a]),
                forall|a: int, i: int|
                    0 <= a < k && 0 <= i < self.offsets@.len() && #[trigger] self.offsets@[i]
                        == offsets@[a] ==> #[trigger] read@[a] == level(bit(line_bits, i)),
            decreases n - k,
        {
            match self.index_of(offsets[k]) {
                Some(i) => {
                    let v: i32 = if (line_bits >> (i as u64)) & 1 == 1 {
                        1
                    } else {
                        0
                    };
                    read.push(v);
                },
                None => {
                    return Err(Error::OperationFailed(Operation::GetValuesSubset, errno_invalid()));
                },
            }
            k = k + 1;
        }
        *values = read;
        Ok(())
    }
}

} // verus!
