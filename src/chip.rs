//! GPIO chips: the chip's identity, line lookup, and the checks and merges
//! behind line-info queries and line requests.

use vstd::prelude::*;
use vstd::string::StringSliceAdditionalSpecFns;

use crate::chip_info::{chip_info_of, same_chip_info, text_result, ChipInfo, CHIP_INFO_RECORD_SIZE};
use crate::info_event::{info_event_at, InfoEvent};
use crate::kernel_config::{configures, flags_of, kernel_line_config, too_many_attrs};
use crate::line_config::LineConfig;
use crate::line_info::{line_info_at, LineInfo};
use crate::line_request::LineRequest;
use crate::request_config::RequestConfig;
use crate::uapi::{errno_busy, errno_invalid, errno_io, INFO_EVENT_RECORD_SIZE, LINE_INFO_RECORD_SIZE};
use crate::{Error, Missing, Operation};

verus! {

/// The error a request for `offsets` on a chip of `num_lines` lines meets,
/// scanning the offsets in order from `i`: an offset beyond the chip is an
/// invalid argument (22), one that repeats an earlier offset finds its line
/// busy (16).
pub open spec fn request_error(offsets: Seq<u32>, num_lines: u32, i: int) -> Option<i32>
    decreases offsets.len() - i,
{
    if i < 0 || i >= offsets.len() {
        None
    } else if offsets[i] >= num_lines {
        Some(22)
    } else if offsets.take(i).contains(offsets[i]) {
        Some(16)
    } else {
        request_error(offsets, num_lines, i + 1)
    }
}

/// Whether two byte strings are equal.
fn same_bytes(a: &[u8], b: &[u8]) -> (r: bool)
    ensures
        r == (a@ == b@),
{
    if a.len() != b.len() {
        return false;
    }
    let mut i: usize = 0;
    while i < a.len()
        invariant
            a@.len() == b@.len(),
            i <= a@.len(),
            forall|j: int| 0 <= j < i ==> a@[j] == b@[j],
        decreases a@.len() - i,
    {
        if a[i] != b[i] {
            return false;
        }
        i = i + 1;
    }
    assert(a@ =~= b@);
    true
}

/// Whether `x` occurs among the first `n` elements of `s`.
fn contains_before(s: &[u32], n: usize, x: u32) -> (r: bool)
    requires
        n <= s@.len(),
    ensures
        r == s@.take(n as int).contains(x),
{
    let mut i: usize = 0;
    while i < n
        invariant
            n <= s@.len(),
            i <= n,
            forall|j: int| 0 <= j < i ==> s@[j] != x,
        decreases n - i,
    {
        if s[i] == x {
            assert(s@.take(n as int)[i as int] == x);
            return true;
        }
        i = i + 1;
    }
    false
}

/// GPIO chip
///
/// A chip is known by the path it was opened with and the information the
/// kernel gave about it. It answers line lookups by name, and checks and
/// prepares line-info queries and line requests.
#[derive(Debug)]
pub struct Chip {
    path: String,
    info: ChipInfo,
}

impl Chip {
    /// The path the chip was opened with.
    pub closed spec fn path_spec(self) -> Seq<char> {
        self.path@
    }

    /// The information the kernel gave about the chip.
    pub closed spec fn info_spec(self) -> ChipInfo {
        self.info
    }

    /// A chip opened at `path`, given the chip-info record the kernel
    /// returned for it. Fails with an I/O error if the record is short.
    pub fn open(path: &str, info_record: &[u8]) -> (r: Result<Self, Error>)
        ensures
            info_record@.len() < CHIP_INFO_RECORD_SIZE ==> r == Err::<Chip, Error>(
                Error::OperationFailed(Operation::ChipInfo, 5),
            ),
            info_record@.len() >= CHIP_INFO_RECORD_SIZE ==> (r matches Ok(c) && c.path_spec()
                == path@ && chip_info_of(c.info_spec(), info_record@)),
    {
        if info_record.len() < CHIP_INFO_RECORD_SIZE {
            return Err(Error::OperationFailed(Operation::ChipInfo, errno_io()));
        }
        Ok(Chip { path: path.to_owned(), info: ChipInfo::from_record(info_record) })
    }

    /// Get the chip name as represented in the kernel.
    pub fn get_name(&self) -> (r: Result<String, Error>)
        ensures
            text_result(self.info_spec().name@, r),
    {
        self.info.name()
    }

    /// Get the chip label as represented in the kernel.
    pub fn get_label(&self) -> (r: Result<String, Error>)
        ensures
            text_result(self.info_spec().label@, r),
    {
        self.info.label()
    }

    /// Get the number of GPIO lines exposed by the chip.
    pub fn get_num_lines(&self) -> (r: u32)
        ensures
            r == self.info_spec().num_lines,
    {
        self.info.num_lines()
    }

    /// Get the path used to open the chip.
    pub fn get_path(&self) -> (r: Result<String, Error>)
        ensures
            r matches Ok(p) && p@ == self.path_spec(),
    {
        Ok(self.path.clone())
    }

    /// Get information about the chip.
    pub fn info(&self) -> (r: Result<ChipInfo, Error>)
        ensures
            r matches Ok(i) && same_chip_info(i, self.info_spec()),
    {
        Ok(self.info.copy())
    }

    /// The snapshot of the line at `offset`, given the line-info record the
    /// kernel returned for it. Fails with an invalid-argument error if the
    /// chip has no such line, and with an I/O error if the record is short.
    pub fn line_info(&self, offset: u32, record: &[u8]) -> (r: Result<LineInfo, Error>)
        ensures
            offset >= self.info_spec().num_lines ==> r == Err::<LineInfo, Error>(
                Error::OperationFailed(Operation::LineInfo, 22),
            ),
            offset < self.info_spec().num_lines && record@.len() < LINE_INFO_RECORD_SIZE ==> r
                == Err::<LineInfo, Error>(Error::OperationFailed(Operation::LineInfo, 5)),
            offset < self.info_spec().num_lines && record@.len() >= LINE_INFO_RECORD_SIZE ==> (r matches Ok(
                i,
            ) && line_info_at(i, record@, 0)),
    {
        if offset >= self.info.num_lines {
            return Err(Error::OperationFailed(Operation::LineInfo, errno_invalid()));
        }
        if record.len() < LINE_INFO_RECORD_SIZE {
            return Err(Error::OperationFailed(Operation::LineInfo, errno_io()));
        }
        Ok(LineInfo::from_record(record, 0))
    }

    /// The snapshot of the line at `offset` when a watch is started on it,
    /// given the line-info record the kernel returned. Fails as `line_info`
    /// does.
    pub fn watch_line_info(&self, offset: u32, record: &[u8]) -> (r: Result<LineInfo, Error>)
        ensures
            offset >= self.info_spec().num_lines ==> r == Err::<LineInfo, Error>(
                Error::OperationFailed(Operation::LineInfo, 22),
            ),
            offset < self.info_spec().num_lines && record@.len() < LINE_INFO_RECORD_SIZE ==> r
                == Err::<LineInfo, Error>(Error::OperationFailed(Operation::LineInfo, 5)),
            offset < self.info_spec().num_lines && record@.len() >= LINE_INFO_RECORD_SIZE ==> (r matches Ok(
                i,
            ) && line_info_at(i, record@, 0)),
    {
        self.line_info(offset, record)
    }

    /// Map a line's name to its offset, given the name of each line of the
    /// chip in offset order (`line_names[i]` is the name of line `i`). Only
    /// the chip's lines are searched. Where several lines share the name,
    /// the lowest offset is returned; where none has it, `NameNotFound`.
    pub fn find_line(&self, name: &str, line_names: &[Vec<u8>]) -> (r: Result<u32, Error>)
        ensures
            r matches Ok(o) ==> o < self.info_spec().num_lines && o < line_names@.len()
                && line_names@[o as int]@ == name.spec_bytes() && (forall|j: int|
                0 <= j < o ==> (#[trigger] line_names@[j])@ != name.spec_bytes()),
            r is Err ==> r == Err::<u32, Error>(Error::NameNotFound(Missing::Line)) && (forall|j: int|
                0 <= j < line_names@.len() && j < self.info_spec().num_lines ==> (
                #[trigger] line_names@[j])@ != name.spec_bytes()),
    {
        let wanted = name.as_bytes();
        let mut i: usize = 0;
        while i < line_names.len() && i < self.info.num_lines as usize
            invariant
                i <= line_names@.len(),
                i <= self.info.num_lines,
                wanted@ == name.spec_bytes(),
                forall|j: int| 0 <= j < i ==> (#[trigger] line_names@[j])@ != name.spec_bytes(),
            decreases line_names@.len() - i,
        {
            if same_bytes(line_names[i].as_slice(), wanted) {
                return Ok(i as u32);
            }
            i = i + 1;
        }
        Err(Error::NameNotFound(Missing::Line))
    }

    /// Check a request for the lines that `rconfig` names and merge `lconfig`
    /// into the settings of each of them. Fails with an invalid-argument
    /// error if no line is named or a line is beyond the chip, and with a
    /// busy error if a line is named twice; the first offending offset, in
    /// request order, decides. Overrides for lines not requested are ignored.
    pub fn request_lines(&self, rconfig: &RequestConfig, lconfig: &LineConfig) -> (r: Result<
        LineRequest,
        Error,
    >)
        requires
            lconfig.wf(),
        ensures
            rconfig.offsets_spec().len() == 0 ==> r == Err::<LineRequest, Error>(
                Error::OperationFailed(Operation::RequestLines, 22),
            ),
            forall|e: i32|
                rconfig.offsets_spec().len() > 0 && request_error(
                    rconfig.offsets_spec(),
                    self.info_spec().num_lines,
                    0,
                ) == Some(e) ==> r == Err::<LineRequest, Error>(
                    Error::OperationFailed(Operation::RequestLines, e),
                ),
            rconfig.offsets_spec().len() > 0 && request_error(
                rconfig.offsets_spec(),
                self.info_spec().num_lines,
                0,
            ) is None ==> match r {
                Ok(req) => req.wf() && req.offsets_spec() == rconfig.offsets_spec() && configures(
                    req.config_spec(),
                    lconfig.merged(rconfig.offsets_spec()),
                ) && req.config_spec().flags == flags_of(lconfig.merged(rconfig.offsets_spec())[0]),
                Err(e) => e == Error::OperationFailed(Operation::RequestLines, 7) && exists|
                    ks: Seq<(u32, u64)>,
                |
                    too_many_attrs(
                        lconfig.merged(rconfig.offsets_spec()),
                        flags_of(lconfig.merged(rconfig.offsets_spec())[0]),
                        ks,
                    ),
            },
    {
        let offsets = rconfig.get_offsets();
        if offsets.len() == 0 {
            return Err(Error::OperationFailed(Operation::RequestLines, errno_invalid()));
        }
        let ghost offs = offsets@;
        let num_lines = self.info.num_lines;
        let mut i: usize = 0;
        while i < offsets.len()
            invariant
                offsets@ == offs,
                offs == rconfig.offsets_spec(),
                offs.len() > 0,
                num_lines == self.info.num_lines,
                i <= offs.len(),
                request_error(offs, num_lines, 0) == request_error(offs, num_lines, i as int),
                forall|a: int, b: int| 0 <= a < b < i ==> offs[a] != offs[b],
            decreases offs.len() - i,
        {
            if offsets[i] >= num_lines {
                assert(request_error(offs, num_lines, i as int) == Some(22i32));
                return Err(Error::OperationFailed(Operation::RequestLines, errno_invalid()));
            }
            if contains_before(offsets.as_slice(), i, offsets[i]) {
                assert(request_error(offs, num_lines, i as int) == Some(16i32));
                return Err(Error::OperationFailed(Operation::RequestLines, errno_busy()));
            }
            assert(request_error(offs, num_lines, i as int) == request_error(
                offs,
                num_lines,
                i + 1,
            ));
            proof {
                assert forall|a: int| 0 <= a < i implies offs[a] != offs[i as int] by {
                    if offs[a] == offs[i as int] {
                        assert(offs.take(i as int)[a] == offs[i as int]);
                    }
                }
            }
            i = i + 1;
        }
        let settings = lconfig.settings_for(offsets.as_slice());
        let config = kernel_line_config(settings.as_slice(), Operation::RequestLines)?;
        Ok(LineRequest::from_parts(offsets, config))
    }

    /// The outcome of waiting for info events, given what the wait on the
    /// chip's file descriptor gave: whether an event is ready, or the OS
    /// error code of a failed wait.
    pub fn wait_info_event(&self, ready: Result<bool, i32>) -> (r: Result<(), Error>)
        ensures
            r == (match ready {
                Ok(true) => Ok::<(), Error>(()),
                Ok(false) => Err(Error::OperationTimedOut),
                Err(e) => Err(Error::OperationFailed(Operation::ChipWaitInfoEvent, e)),
            }),
    {
        match ready {
            Ok(true) => Ok(()),
            Ok(false) => Err(Error::OperationTimedOut),
            Err(e) => Err(Error::OperationFailed(Operation::ChipWaitInfoEvent, e)),
        }
    }

    /// The info event held by the record read from the chip's file
    /// descriptor. Fails with an I/O error if the record is short.
    pub fn read_info_event(&self, record: &[u8]) -> (r: Result<InfoEvent, Error>)
        ensures
            record@.len() < INFO_EVENT_RECORD_SIZE ==> r == Err::<InfoEvent, Error>(
                Error::OperationFailed(Operation::ChipReadInfoEvent, 5),
            ),
            record@.len() >= INFO_EVENT_RECORD_SIZE ==> (r matches Ok(e) && info_event_at(
                e,
                record@,
                0,
            )),
    {
        if record.len() < INFO_EVENT_RECORD_SIZE {
            return Err(Error::OperationFailed(Operation::ChipReadInfoEvent, errno_io()));
        }
        Ok(InfoEvent::from_record(record, 0))
    }
}

} // verus!
