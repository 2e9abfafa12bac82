//! The translation of per-line settings into the kernel's line
//! configuration: one set of base flags plus at most `NUM_ATTRS_MAX`
//! attributes, each applying one value to the lines its mask selects.

use vstd::prelude::*;

use crate::line_config::LineSettings;
use crate::line_request::{bit, lemma_bit_set, lemma_bit_zero};
use crate::uapi::{
    push_u32, push_u64, push_zeros, u32_le, u64_le, zeros, errno_too_big, ATTR_ID_DEBOUNCE, ATTR_ID_FLAGS, ATTR_ID_OUTPUT_VALUES, FLAG_ACTIVE_LOW,
    FLAG_BIAS_DISABLED, FLAG_BIAS_PULL_DOWN, FLAG_BIAS_PULL_UP, FLAG_EDGE_FALLING,
    FLAG_EDGE_RISING, FLAG_EVENT_CLOCK_REALTIME, FLAG_INPUT, FLAG_OPEN_DRAIN, FLAG_OPEN_SOURCE,
    FLAG_OUTPUT, NUM_ATTRS_MAX,
};
use crate::{Bias, Direction, Drive, Edge, Error, EventClock, Operation};

verus! {

/// One attribute of a kernel line configuration: the value `value` of the
/// kind `id`, for the lines whose bits are set in `mask` (bit `i` stands for
/// the `i`-th line of the request).
#[derive(Clone, Copy, Debug, PartialEq, Eq, Structural)]
pub struct LineAttribute {
    pub id: u32,
    pub value: u64,
    pub mask: u64,
}

/// A kernel line configuration: the flags of every line that no flags
/// attribute selects, and the attributes.
#[derive(Debug)]
pub struct KernelLineConfig {
    pub flags: u64,
    pub attrs: Vec<LineAttribute>,
}

/// The kernel flag bits for a line with settings `s`. Edge detection asks
/// for an input line.
pub open spec fn flags_of(s: LineSettings) -> u64 {
    let dir: u64 = match s.direction {
        Direction::AsIs => 0,
        Direction::Input => FLAG_INPUT,
        Direction::Output => FLAG_OUTPUT,
    };
    let edge: u64 = match s.edge_detection {
        Edge::Disabled => 0,
        Edge::Rising => FLAG_EDGE_RISING | FLAG_INPUT,
        Edge::Falling => FLAG_EDGE_FALLING | FLAG_INPUT,
        Edge::Both => FLAG_EDGE_RISING | FLAG_EDGE_FALLING | FLAG_INPUT,
    };
    let drive: u64 = match s.drive {
        Drive::PushPull => 0,
        Drive::OpenDrain => FLAG_OPEN_DRAIN,
        Drive::OpenSource => FLAG_OPEN_SOURCE,
    };
    let bias: u64 = match s.bias {
        Bias::AsIs => 0,
        Bias::Unknown => 0,
        Bias::Disabled => FLAG_BIAS_DISABLED,
        Bias::PullUp => FLAG_BIAS_PULL_UP,
        Bias::PullDown => FLAG_BIAS_PULL_DOWN,
    };
    let low: u64 = if s.active_low {
        FLAG_ACTIVE_LOW
    } else {
        0
    };
    let clock: u64 = match s.event_clock {
        EventClock::Monotonic => 0,
        EventClock::Realtime => FLAG_EVENT_CLOCK_REALTIME,
    };
    dir | edge | drive | bias | low | clock
}

/// The debounce period the kernel is given for a line, in microseconds: the
/// configured one, capped at what the kernel's field holds.
pub open spec fn debounce_of(s: LineSettings) -> u32 {
    if s.debounce_period_us > u32::MAX as u64 {
        u32::MAX
    } else {
        s.debounce_period_us as u32
    }
}

/// Whether some attribute of kind `id` selects line `j`.
pub open spec fn covered(attrs: Seq<LineAttribute>, id: u32, j: int) -> bool {
    exists|m: int| 0 <= m < attrs.len() && attrs[m].id == id && #[trigger] bit(attrs[m].mask, j)
}

/// The identity of an attribute when looking for one to share: its kind and
/// value, except that all output-value attributes are one.
pub open spec fn attr_key(a: LineAttribute) -> (u32, u64) {
    if a.id == ATTR_ID_OUTPUT_VALUES {
        (ATTR_ID_OUTPUT_VALUES, 0)
    } else {
        (a.id, a.value)
    }
}

/// Whether the lines with settings `s` need an attribute with key `k`: a
/// flags attribute for flags that differ from the base flags, a debounce
/// attribute for a nonzero period, an output-value attribute for output
/// lines.
pub open spec fn needed(s: Seq<LineSettings>, base: u64, k: (u32, u64)) -> bool {
    exists|i: int|
        0 <= i < s.len() && ((k.0 == ATTR_ID_FLAGS && k.1 == flags_of(#[trigger] s[i]) && k.1
            != base) || (k.0 == ATTR_ID_DEBOUNCE && k.1 == debounce_of(s[i]) as u64 && k.1 != 0)
            || (k.0 == ATTR_ID_OUTPUT_VALUES && k.1 == 0 && s[i].direction == Direction::Output))
}

/// Whether `c` is a faithful kernel configuration for lines with settings
/// `s`: every attribute that selects a line carries that line's value, and
/// every line whose value differs from the default gets an attribute.
pub open spec fn configures(c: KernelLineConfig, s: Seq<LineSettings>) -> bool {
    let attrs = c.attrs@;
    &&& attrs.len() <= NUM_ATTRS_MAX
    &&& forall|m: int, j: int|
        0 <= m < attrs.len() && 0 <= j < 64 && #[trigger] bit(attrs[m].mask, j) ==> j < s.len()
    &&& forall|m: int, j: int|
        0 <= m < attrs.len() && 0 <= j < s.len() && #[trigger] bit(attrs[m].mask, j) ==> {
            &&& attrs[m].id == ATTR_ID_FLAGS ==> attrs[m].value == flags_of(s[j])
            &&& attrs[m].id == ATTR_ID_DEBOUNCE ==> attrs[m].value == debounce_of(s[j]) as u64
            &&& attrs[m].id == ATTR_ID_OUTPUT_VALUES ==> bit(attrs[m].value, j) == (
            s[j].output_value == 1)
        }
    &&& forall|j: int|
        0 <= j < s.len() ==> {
            &&& flags_of(#[trigger] s[j]) != c.flags ==> covered(attrs, ATTR_ID_FLAGS, j)
            &&& debounce_of(s[j]) != 0 <==> covered(attrs, ATTR_ID_DEBOUNCE, j)
            &&& s[j].direction == Direction::Output ==> covered(attrs, ATTR_ID_OUTPUT_VALUES, j)
        }
}

impl KernelLineConfig {
    /// A copy of this configuration.
    pub fn copy(&self) -> (r: KernelLineConfig)
        ensures
            r.flags == self.flags,
            r.attrs@ == self.attrs@,
    {
        KernelLineConfig { flags: self.flags, attrs: vstd::slice::slice_to_vec(self.attrs.as_slice()) }
    }
}

/// The kernel flag bits for a line with settings `s`.
pub fn kernel_flags(s: &LineSettings) -> (r: u64)
    ensures
        r == flags_of(*s),
{
    let dir: u64 = match s.direction {
        Direction::AsIs => 0,
        Direction::Input => FLAG_INPUT,
        Direction::Output => FLAG_OUTPUT,
    };
    let edge: u64 = match s.edge_detection {
        Edge::Disabled => 0,
        Edge::Rising => FLAG_EDGE_RISING | FLAG_INPUT,
        Edge::Falling => FLAG_EDGE_FALLING | FLAG_INPUT,
        Edge::Both => FLAG_EDGE_RISING | FLAG_EDGE_FALLING | FLAG_INPUT,
    };
    let drive: u64 = match s.drive {
        Drive::PushPull => 0,
        Drive::OpenDrain => FLAG_OPEN_DRAIN,
        Drive::OpenSource => FLAG_OPEN_SOURCE,
    };
    let bias: u64 = match s.bias {
        Bias::AsIs => 0,
        Bias::Unknown => 0,
        Bias::Disabled => FLAG_BIAS_DISABLED,
        Bias::PullUp => FLAG_BIAS_PULL_UP,
        Bias::PullDown => FLAG_BIAS_PULL_DOWN,
    };
    let low: u64 = if s.active_low {
        FLAG_ACTIVE_LOW
    } else {
        0
    };
    let clock: u64 = match s.event_clock {
        EventClock::Monotonic => 0,
        EventClock::Realtime => FLAG_EVENT_CLOCK_REALTIME,
    };
    dir | edge | drive | bias | low | clock
}

/// The debounce period the kernel is given for a line with settings `s`.
fn kernel_debounce(s: &LineSettings) -> (r: u32)
    ensures
        r == debounce_of(*s),
{
    if s.debounce_period_us > u32::MAX as u64 {
        u32::MAX
    } else {
        s.debounce_period_us as u32
    }
}

/// Select line `line` in the attribute of kind `id` and value `value`,
/// adding that attribute if there is none yet and room is left. Returns
/// false, changing nothing, if there is neither.
fn add_to_group(attrs: &mut Vec<LineAttribute>, id: u32, value: u64, line: usize) -> (r: bool)
    requires
        line < 64,
        id != ATTR_ID_OUTPUT_VALUES,
        old(attrs)@.len() <= NUM_ATTRS_MAX,
    ensures
        final(attrs)@.len() <= NUM_ATTRS_MAX,
        !r ==> final(attrs)@ == old(attrs)@ && old(attrs)@.len() == NUM_ATTRS_MAX && forall|m: int|
            0 <= m < old(attrs)@.len() ==> attr_key(#[trigger] old(attrs)@[m]) != (id, value),
        r ==> final(attrs)@.len() >= old(attrs)@.len(),
        r ==> exists|m: int|
            0 <= m < final(attrs)@.len() && final(attrs)@[m].id == id && final(attrs)@[m].value
                == value && #[trigger] bit(final(attrs)@[m].mask, line as int),
        r ==> forall|m: int|
            0 <= m < final(attrs)@.len() ==> {
                &&& (#[trigger] final(attrs)@[m]).id == (if m < old(attrs)@.len() {
                    old(attrs)@[m].id
                } else {
                    id
                })
                &&& final(attrs)@[m].value == (if m < old(attrs)@.len() {
                    old(attrs)@[m].value
                } else {
                    value
                })
                &&& forall|j: int|
                    0 <= j < 64 && j != line ==> #[trigger] bit(final(attrs)@[m].mask, j) == (m
                        < old(attrs)@.len() && bit(old(attrs)@[m].mask, j))
            },
        r ==> forall|m: int|
            0 <= m < old(attrs)@.len() && !(old(attrs)@[m].id == id && old(attrs)@[m].value == value)
                ==> #[trigger] final(attrs)@[m] == old(attrs)@[m],
        r ==> forall|m: int|
            0 <= m < final(attrs)@.len() && #[trigger] bit(final(attrs)@[m].mask, line as int) ==> (
            final(attrs)@[m].id == id && final(attrs)@[m].value == value) || (m < old(attrs)@.len()
                && bit(old(attrs)@[m].mask, line as int)),
        r && final(attrs)@.len() > old(attrs)@.len() ==> final(attrs)@.len() == old(attrs)@.len() + 1
            && forall|m: int|
            0 <= m < old(attrs)@.len() ==> attr_key(#[trigger] old(attrs)@[m]) != (id, value),
{
    let one: u64 = 1u64 << (line as u64);
    let mut m: usize = 0;
    while m < attrs.len()
        invariant
            attrs@ == old(attrs)@,
            line < 64,
            id != ATTR_ID_OUTPUT_VALUES,
            old(attrs)@.len() <= NUM_ATTRS_MAX,
            one == 1u64 << (line as u64),
            m <= attrs@.len(),
            forall|k: int| 0 <= k < m ==> !(attrs@[k].id == id && attrs@[k].value == value),
        decreases attrs@.len() - m,
    {
        if attrs[m].id == id && attrs[m].value == value {
            let a = attrs[m];
            let ghost old_mask = a.mask;
            attrs.set(m, LineAttribute { id, value, mask: a.mask | one });
            proof {
                assert forall|j: int| 0 <= j < 64 implies bit(old_mask | one, j) == (j == line || bit(
                    old_mask,
                    j,
                )) by {
                    lemma_bit_set(old_mask, line as u64, j as u64);
                }
                lemma_bit_set(old_mask, line as u64, line as u64);
                assert(bit(old_mask | one, line as int));
                assert(attrs@[m as int].mask == old_mask | one);
            }
            return true;
        }
        m = m + 1;
    }
    if attrs.len() >= NUM_ATTRS_MAX {
        return false;
    }
    attrs.push(LineAttribute { id, value, mask: one });
    proof {
        assert forall|j: int| 0 <= j < 64 implies bit(one, j) == (j == line) by {
            lemma_bit_set(0, line as u64, j as u64);
            lemma_bit_zero(j as u64);
            assert(0u64 | (1u64 << (line as u64)) == 1u64 << (line as u64)) by (bit_vector);
        }
        assert(bit(attrs@[attrs@.len() - 1].mask, line as int));
    }
    true
}

/// Whether `ks` shows that lines with settings `s` need more attributes than
/// a kernel line configuration holds.
pub open spec fn too_many_attrs(s: Seq<LineSettings>, base: u64, ks: Seq<(u32, u64)>) -> bool {
    &&& ks.len() > NUM_ATTRS_MAX
    &&& ks.no_duplicates()
    &&& forall|k: (u32, u64)| ks.contains(k) ==> needed(s, base, k)
}

/// The attributes are keyed apart, and each is needed.
pub open spec fn attrs_needed(attrs: Seq<LineAttribute>, s: Seq<LineSettings>, base: u64) -> bool {
    &&& forall|a: int, b: int|
        0 <= a < b < attrs.len() ==> attr_key(#[trigger] attrs[a]) != attr_key(#[trigger] attrs[b])
    &&& forall|m: int| 0 <= m < attrs.len() ==> needed(s, base, attr_key(#[trigger] attrs[m]))
}

/// Failing to add an attribute keyed `k`, needed and new, to a full list
/// shows that too many are needed.
proof fn lemma_full(attrs: Seq<LineAttribute>, s: Seq<LineSettings>, base: u64, k: (u32, u64))
    requires
        attrs_needed(attrs, s, base),
        attrs.len() == NUM_ATTRS_MAX,
        needed(s, base, k),
        forall|m: int| 0 <= m < attrs.len() ==> attr_key(#[trigger] attrs[m]) != k,
    ensures
        too_many_attrs(s, base, attrs.map_values(|a: LineAttribute| attr_key(a)).push(k)),
{
    let ks = attrs.map_values(|a: LineAttribute| attr_key(a)).push(k);
    assert forall|a: int, b: int| 0 <= a < ks.len() && 0 <= b < ks.len() && a != b implies ks[a]
        != ks[b] by {
        if a < b {
            if b < attrs.len() {
                assert(attr_key(attrs[a]) != attr_key(attrs[b]));
            }
        } else {
            if a < attrs.len() {
                assert(attr_key(attrs[b]) != attr_key(attrs[a]));
            }
        }
    }
    assert forall|x: (u32, u64)| ks.contains(x) implies needed(s, base, x) by {
        let i = choose|i: int| 0 <= i < ks.len() && ks[i] == x;
        if i < attrs.len() {
            assert(needed(s, base, attr_key(attrs[i])));
        }
    }
}

/// Translate the settings of the lines of a request, in request order, into
/// the kernel's line configuration: the base flags are those of the first
/// line, and lines with other flags, with a debounce period or with output
/// direction get attributes, shared by lines with equal values. Fails with
/// an argument-list-too-long error, reported as a failure of `op`, where
/// more attributes are needed than the kernel accepts.
pub fn kernel_line_config(settings: &[LineSettings], op: Operation) -> (r: Result<
    KernelLineConfig,
    Error,
>)
    requires
        1 <= settings@.len() <= 64,
    ensures
        r matches Ok(c) ==> configures(c, settings@) && c.flags == flags_of(settings@[0]),
        r matches Err(e) ==> e == Error::OperationFailed(op, 7) && exists|ks: Seq<(u32, u64)>|
            too_many_attrs(settings@, flags_of(settings@[0]), ks),
{
    let n = settings.len();
    let ghost s = settings@;
    let base = kernel_flags(&settings[0]);
    let mut attrs: Vec<LineAttribute> = Vec::new();
    let mut i: usize = 0;
    while i < n
        invariant
            s == settings@,
            n == s.len(),
            1 <= n <= 64,
            base == flags_of(s[0]),
            i <= n,
            attrs@.len() <= NUM_ATTRS_MAX,
            attrs_needed(attrs@, s, base),
            forall|m: int| 0 <= m < attrs@.len() ==> (#[trigger] attrs@[m]).id == ATTR_ID_FLAGS,
            forall|m: int, j: int|
                0 <= m < attrs@.len() && 0 <= j < 64 && #[trigger] bit(attrs@[m].mask, j) ==> j < i,
            forall|m: int, j: int|
                0 <= m < attrs@.len() && 0 <= j < i && #[trigger] bit(attrs@[m].mask, j)
                    ==> attrs@[m].value == flags_of(s[j]),
            forall|j: int|
                0 <= j < i ==> flags_of(#[trigger] s[j]) != base ==> covered(attrs@, ATTR_ID_FLAGS, j),
        decreases n - i,
    {
        let f = kernel_flags(&settings[i]);
        if f != base {
            let ghost old_attrs = attrs@;
            if !add_to_group(&mut attrs, ATTR_ID_FLAGS, f, i) {
                proof {
                    assert(needed(s, base, (ATTR_ID_FLAGS, f)));
                    lemma_full(attrs@, s, base, (ATTR_ID_FLAGS, f));
                }
                return Err(Error::OperationFailed(op, errno_too_big()));
            }
            proof {
                assert(needed(s, base, (ATTR_ID_FLAGS, f)));
                assert forall|j: int| 0 <= j < i + 1 && flags_of(#[trigger] s[j]) != base implies covered(
                    attrs@,
                    ATTR_ID_FLAGS,
                    j,
                ) by {
                    if j < i {
                        let m = choose|m: int|
                            0 <= m < old_attrs.len() && old_attrs[m].id == ATTR_ID_FLAGS
                                && #[trigger] bit(old_attrs[m].mask, j);
                        assert(bit(attrs@[m].mask, j));
                    }
                }
                assert forall|m: int, j: int|
                    0 <= m < attrs@.len() && 0 <= j < i + 1 && #[trigger] bit(
                        attrs@[m].mask,
                        j,
                    ) implies attrs@[m].value == flags_of(s[j]) by {
                    if j == i {
                        if m < old_attrs.len() && bit(old_attrs[m].mask, j) {
                            assert(j < i);
                        }
                    } else {
                        assert(m < old_attrs.len() && bit(old_attrs[m].mask, j));
                    }
                }
                assert forall|m: int, j: int|
                    0 <= m < attrs@.len() && 0 <= j < 64 && #[trigger] bit(
                        attrs@[m].mask,
                        j,
                    ) implies j < i + 1 by {
                    if j != i {
                        assert(m < old_attrs.len() && bit(old_attrs[m].mask, j));
                    }
                }
                assert forall|a: int, b: int|
                    0 <= a < b < attrs@.len() implies attr_key(#[trigger] attrs@[a]) != attr_key(
                        #[trigger] attrs@[b],
                    ) by {
                    if b >= old_attrs.len() {
                        assert(attr_key(old_attrs[a]) != (ATTR_ID_FLAGS, f));
                    }
                }
            }
        }
        i = i + 1;
    }
    let mut i: usize = 0;
    while i < n
        invariant
            s == settings@,
            n == s.len(),
            1 <= n <= 64,
            base == flags_of(s[0]),
            i <= n,
            attrs@.len() <= NUM_ATTRS_MAX,
            attrs_needed(attrs@, s, base),
            forall|m: int|
                0 <= m < attrs@.len() ==> (#[trigger] attrs@[m]).id == ATTR_ID_FLAGS || attrs@[m].id
                    == ATTR_ID_DEBOUNCE,
            forall|m: int|
                0 <= m < attrs@.len() && (#[trigger] attrs@[m]).id == ATTR_ID_DEBOUNCE
                    ==> attrs@[m].value != 0,
            forall|m: int, j: int|
                0 <= m < attrs@.len() && 0 <= j < 64 && #[trigger] bit(attrs@[m].mask, j) ==> j < n,
            forall|m: int, j: int|
                0 <= m < attrs@.len() && 0 <= j < 64 && attrs@[m].id == ATTR_ID_DEBOUNCE
                    && #[trigger] bit(attrs@[m].mask, j) ==> j < i,
            forall|m: int, j: int|
                0 <= m < attrs@.len() && 0 <= j < n && #[trigger] bit(attrs@[m].mask, j)
                    && attrs@[m].id == ATTR_ID_FLAGS ==> attrs@[m].value == flags_of(s[j]),
            forall|m: int, j: int|
                0 <= m < attrs@.len() && 0 <= j < n && #[trigger] bit(attrs@[m].mask, j)
                    && attrs@[m].id == ATTR_ID_DEBOUNCE ==> attrs@[m].value == debounce_of(s[j]) as u64,
            forall|j: int|
                0 <= j < n ==> flags_of(#[trigger] s[j]) != base ==> covered(attrs@, ATTR_ID_FLAGS, j),
            forall|j: int|
                0 <= j < i ==> debounce_of(#[trigger] s[j]) != 0 ==> covered(
                    attrs@,
                    ATTR_ID_DEBOUNCE,
                    j,
                ),
        decreases n - i,
    {
        let d = kernel_debounce(&settings[i]);
        if d != 0 {
            let ghost old_attrs = attrs@;
            if !add_to_group(&mut attrs, ATTR_ID_DEBOUNCE, d as u64, i) {
                proof {
                    assert(needed(s, base, (ATTR_ID_DEBOUNCE, d as u64)));
                    lemma_full(attrs@, s, base, (ATTR_ID_DEBOUNCE, d as u64));
                }
                return Err(Error::OperationFailed(op, errno_too_big()));
            }
            proof {
                assert(needed(s, base, (ATTR_ID_DEBOUNCE, d as u64)));
                assert forall|m: int| 0 <= m < old_attrs.len() && old_attrs[m].id != ATTR_ID_DEBOUNCE implies #[trigger] attrs@[m]
                    == old_attrs[m] by {}
                assert forall|j: int| 0 <= j < n && flags_of(#[trigger] s[j]) != base implies covered(
                    attrs@,
                    ATTR_ID_FLAGS,
                    j,
                ) by {
                    let m = choose|m: int|
                        0 <= m < old_attrs.len() && old_attrs[m].id == ATTR_ID_FLAGS
                            && #[trigger] bit(old_attrs[m].mask, j);
                    assert(attrs@[m] == old_attrs[m]);
                    assert(bit(attrs@[m].mask, j));
                }
                assert forall|j: int| 0 <= j < i + 1 && debounce_of(#[trigger] s[j]) != 0 implies covered(
                    attrs@,
                    ATTR_ID_DEBOUNCE,
                    j,
                ) by {
                    if j < i {
                        let m = choose|m: int|
                            0 <= m < old_attrs.len() && old_attrs[m].id == ATTR_ID_DEBOUNCE
                                && #[trigger] bit(old_attrs[m].mask, j);
                        assert(bit(attrs@[m].mask, j));
                    }
                }
                assert forall|m: int, j: int|
                    0 <= m < attrs@.len() && 0 <= j < 64 && #[trigger] bit(
                        attrs@[m].mask,
                        j,
                    ) implies j < n && (attrs@[m].id == ATTR_ID_DEBOUNCE ==> j < i + 1) && (j < n
                        && attrs@[m].id == ATTR_ID_FLAGS ==> attrs@[m].value == flags_of(s[j])) && (j
                        < n && attrs@[m].id == ATTR_ID_DEBOUNCE ==> attrs@[m].value == debounce_of(
                        s[j],
                    ) as u64) by {
                    if j != i {
                        assert(m < old_attrs.len() && bit(old_attrs[m].mask, j));
                    } else if m < old_attrs.len() && bit(old_attrs[m].mask, j) {
                        if old_attrs[m].id == ATTR_ID_DEBOUNCE {
                            assert(j < i);
                        }
                    }
                }
                assert forall|a: int, b: int|
                    0 <= a < b < attrs@.len() implies attr_key(#[trigger] attrs@[a]) != attr_key(
                        #[trigger] attrs@[b],
                    ) by {
                    if b >= old_attrs.len() {
                        assert(attr_key(old_attrs[a]) != (ATTR_ID_DEBOUNCE, d as u64));
                    }
                }
            }
        }
        i = i + 1;
    }
    let mut mask: u64 = 0;
    let mut bits: u64 = 0;
    let mut any_output = false;
    let mut i: usize = 0;
    proof {
        assert forall|j: int| 0 <= j < 64 implies !bit(0, j) by {
            lemma_bit_zero(j as u64);
        }
    }
    while i < n
        invariant
            s == settings@,
            n == s.len(),
            1 <= n <= 64,
            i <= n,
            any_output == exists|j: int| 0 <= j < i && (#[trigger] s[j]).direction == Direction::Output,
            forall|j: int|
                0 <= j < 64 ==> bit(mask, j) == (j < i && s[j].direction == Direction::Output),
            forall|j: int|
                0 <= j < 64 ==> bit(bits, j) == (j < i && s[j].direction == Direction::Output
                    && s[j].output_value == 1),
        decreases n - i,
    {
        let one: u64 = 1u64 << (i as u64);
        let ghost old_mask = mask;
        let ghost old_bits = bits;
        if settings[i].direction == Direction::Output {
            mask = mask | one;
            any_output = true;
            if settings[i].output_value == 1 {
                bits = bits | one;
            }
        }
        proof {
            assert forall|j: int| 0 <= j < 64 implies bit(mask, j) == (j < i + 1
                && s[j].direction == Direction::Output) && bit(bits, j) == (j < i + 1
                && s[j].direction == Direction::Output && s[j].output_value == 1) by {
                lemma_bit_set(old_mask, i as u64, j as u64);
                lemma_bit_set(old_bits, i as u64, j as u64);
            }
        }
        i = i + 1;
    }
    if any_output {
        let ghost old_attrs = attrs@;
        let ghost w = choose|j: int| 0 <= j < n && (#[trigger] s[j]).direction == Direction::Output;
        proof {
            assert(needed(s, base, (ATTR_ID_OUTPUT_VALUES, 0u64))) by {
                assert(s[w].direction == Direction::Output);
            }
            assert forall|m: int| 0 <= m < attrs@.len() implies attr_key(#[trigger] attrs@[m]) != (
            ATTR_ID_OUTPUT_VALUES,
            0u64,
            ) by {}
        }
        if attrs.len() >= NUM_ATTRS_MAX {
            proof {
                lemma_full(attrs@, s, base, (ATTR_ID_OUTPUT_VALUES, 0u64));
            }
            return Err(Error::OperationFailed(op, errno_too_big()));
        }
        attrs.push(LineAttribute { id: ATTR_ID_OUTPUT_VALUES, value: bits, mask });
        proof {
            let last = old_attrs.len() as int;
            assert forall|j: int| 0 <= j < n && flags_of(#[trigger] s[j]) != base implies covered(
                attrs@,
                ATTR_ID_FLAGS,
                j,
            ) by {
                let m = choose|m: int|
                    0 <= m < old_attrs.len() && old_attrs[m].id == ATTR_ID_FLAGS
                        && #[trigger] bit(old_attrs[m].mask, j);
                assert(attrs@[m] == old_attrs[m]);
            }
            assert forall|j: int| 0 <= j < n implies (debounce_of(#[trigger] s[j]) != 0 <==> covered(
                attrs@,
                ATTR_ID_DEBOUNCE,
                j,
            )) by {
                if debounce_of(s[j]) != 0 {
                    let m = choose|m: int|
                        0 <= m < old_attrs.len() && old_attrs[m].id == ATTR_ID_DEBOUNCE
                            && #[trigger] bit(old_attrs[m].mask, j);
                    assert(attrs@[m] == old_attrs[m]);
                }
            }
            assert forall|j: int| 0 <= j < n && (#[trigger] s[j]).direction == Direction::Output implies covered(
                attrs@,
                ATTR_ID_OUTPUT_VALUES,
                j,
            ) by {
                assert(bit(attrs@[last].mask, j));
            }
            assert forall|a: int, b: int|
                0 <= a < b < attrs@.len() implies attr_key(#[trigger] attrs@[a]) != attr_key(
                    #[trigger] attrs@[b],
                ) by {
                if b == last {
                    assert(attr_key(old_attrs[a]) != (ATTR_ID_OUTPUT_VALUES, 0u64));
                }
            }
            assert forall|m: int| 0 <= m < attrs@.len() implies needed(s, base, attr_key(
                #[trigger] attrs@[m],
            )) by {
                if m < last {
                    assert(attrs@[m] == old_attrs[m]);
                }
            }
        }
    } else {
        proof {
            assert forall|j: int| 0 <= j < n implies (debounce_of(#[trigger] s[j]) != 0 <==> covered(
                attrs@,
                ATTR_ID_DEBOUNCE,
                j,
            )) by {}
            assert forall|j: int| 0 <= j < n && (#[trigger] s[j]).direction == Direction::Output implies covered(
                attrs@,
                ATTR_ID_OUTPUT_VALUES,
                j,
            ) by {
                assert(0 <= j < i);
            }
        }
    }
    Ok(KernelLineConfig { flags: base, attrs })
}

/// The bytes of one attribute slot of a line-configuration record.
pub open spec fn attr_bytes(a: LineAttribute) -> Seq<u8> {
    u32_le(a.id) + u32_le(0) + u64_le(a.value) + u64_le(a.mask)
}

/// The first `k` attribute slots of a line-configuration record holding
/// `attrs`: the attributes, then empty slots.
pub open spec fn attr_slots(attrs: Seq<LineAttribute>, k: nat) -> Seq<u8>
    decreases k,
{
    if k == 0 {
        Seq::empty()
    } else {
        attr_slots(attrs, (k - 1) as nat) + if k - 1 < attrs.len() {
            attr_bytes(attrs[k - 1])
        } else {
            zeros(24)
        }
    }
}

/// The line-configuration record (`struct gpio_v2_line_config`) of `c`.
pub open spec fn line_config_bytes(c: KernelLineConfig) -> Seq<u8> {
    u64_le(c.flags) + u32_le(c.attrs@.len() as u32) + zeros(20) + attr_slots(
        c.attrs@,
        NUM_ATTRS_MAX as nat,
    )
}

/// Append the line-configuration record of `c`.
pub fn push_line_config(out: &mut Vec<u8>, c: &KernelLineConfig)
    requires
        c.attrs@.len() <= NUM_ATTRS_MAX,
    ensures
        final(out)@ == old(out)@ + line_config_bytes(*c),
{
    let ghost start = out@;
    push_u64(out, c.flags);
    push_u32(out, c.attrs.len() as u32);
    push_zeros(out, 20);
    let ghost head = out@;
    let mut k: usize = 0;
    while k < NUM_ATTRS_MAX
        invariant
            c.attrs@.len() <= NUM_ATTRS_MAX,
            k <= NUM_ATTRS_MAX,
            out@ == head + attr_slots(c.attrs@, k as nat),
        decreases NUM_ATTRS_MAX - k,
    {
        if k < c.attrs.len() {
            let a = c.attrs[k];
            push_u32(out, a.id);
            push_u32(out, 0);
            push_u64(out, a.value);
            push_u64(out, a.mask);
        } else {
            push_zeros(out, 24);
        }
        k = k + 1;
        assert(out@ =~= head + attr_slots(c.attrs@, k as nat));
    }
    assert(out@ =~= start + line_config_bytes(*c));
}

/// The line-configuration record of `c`, as a reconfiguration hands it to
/// the kernel.
pub fn line_config_record(c: &KernelLineConfig) -> (r: Vec<u8>)
    requires
        c.attrs@.len() <= NUM_ATTRS_MAX,
    ensures
        r@ == line_config_bytes(*c),
{
    let mut r: Vec<u8> = Vec::new();
    push_line_config(&mut r, c);
    assert(r@ =~= line_config_bytes(*c));
    r
}

/// The attribute of kind `id` that the kernel applies to line `j`: the first
/// one whose mask selects the line.
pub open spec fn first_attr(attrs: Seq<LineAttribute>, id: u32, j: int) -> Option<LineAttribute>
    decreases attrs.len(),
{
    if attrs.len() == 0 {
        None
    } else if attrs[0].id == id && bit(attrs[0].mask, j) {
        Some(attrs[0])
    } else {
        first_attr(attrs.drop_first(), id, j)
    }
}

proof fn lemma_first_attr(attrs: Seq<LineAttribute>, id: u32, j: int, ok: spec_fn(LineAttribute) -> bool)
    requires
        forall|m: int|
            0 <= m < attrs.len() && attrs[m].id == id && #[trigger] bit(attrs[m].mask, j) ==> ok(
                attrs[m],
            ),
    ensures
        first_attr(attrs, id, j) matches Some(a) ==> ok(a),
        covered(attrs, id, j) ==> first_attr(attrs, id, j) is Some,
        !covered(attrs, id, j) ==> first_attr(attrs, id, j) is None,
    decreases attrs.len(),
{
    if attrs.len() > 0 {
        let rest = attrs.drop_first();
        assert forall|m: int|
            0 <= m < rest.len() && rest[m].id == id && #[trigger] bit(rest[m].mask, j) implies ok(
            rest[m],
        ) by {
            assert(rest[m] == attrs[m + 1]);
            assert(bit(attrs[m + 1].mask, j));
        }
        lemma_first_attr(rest, id, j, ok);
        if !(attrs[0].id == id && bit(attrs[0].mask, j)) {
            if covered(attrs, id, j) {
                let m = choose|m: int|
                    0 <= m < attrs.len() && attrs[m].id == id && #[trigger] bit(attrs[m].mask, j);
                assert(rest[m - 1] == attrs[m]);
                assert(bit(rest[m - 1].mask, j));
            }
            if covered(rest, id, j) {
                let m = choose|m: int|
                    0 <= m < rest.len() && rest[m].id == id && #[trigger] bit(rest[m].mask, j);
                assert(rest[m] == attrs[m + 1]);
                assert(bit(attrs[m + 1].mask, j));
            }
        } else {
            assert(bit(attrs[0].mask, j));
        }
    }
}

/// A faithful configuration gives each line exactly its settings, read as
/// the kernel reads it: the flags of the first flags attribute selecting the
/// line or else the base flags, the period of the first debounce attribute
/// selecting it or else none, and for an output line the value bit of the
/// first output-value attribute selecting it.
pub proof fn lemma_kernel_applies_settings(c: KernelLineConfig, s: Seq<LineSettings>, j: int)
    requires
        configures(c, s),
        0 <= j < s.len(),
    ensures
        (match first_attr(c.attrs@, ATTR_ID_FLAGS, j) {
            Some(a) => a.value,
            None => c.flags,
        }) == flags_of(s[j]),
        (match first_attr(c.attrs@, ATTR_ID_DEBOUNCE, j) {
            Some(a) => a.value,
            None => 0,
        }) == debounce_of(s[j]) as u64,
        s[j].direction == Direction::Output ==> (first_attr(c.attrs@, ATTR_ID_OUTPUT_VALUES, j) matches Some(
            a,
        ) && bit(a.value, j) == (s[j].output_value == 1)),
{
    let attrs = c.attrs@;
    let sj = s[j];
    lemma_first_attr(attrs, ATTR_ID_FLAGS, j, |a: LineAttribute| a.value == flags_of(sj));
    lemma_first_attr(
        attrs,
        ATTR_ID_DEBOUNCE,
        j,
        |a: LineAttribute| a.value == debounce_of(sj) as u64,
    );
    lemma_first_attr(
        attrs,
        ATTR_ID_OUTPUT_VALUES,
        j,
        |a: LineAttribute| bit(a.value, j) == (sj.output_value == 1),
    );
}

} // verus!
