//! The channel by which one result leaves the sandbox.

use crate::fault::Fault;
use vstd::prelude::*;
use vstd::slice::{slice_subrange, slice_to_vec};
use vstd::utf8::{decode_utf8, valid_utf8};

verus! {

/// What a module reported back: nothing, a byte sequence or a text.
#[derive(Clone, Debug, PartialEq, Eq)]
pub enum ModuleResult {
    Empty,
    ByteArray(Vec<u8>),
    String(String),
}

/// The mathematical value of a `ModuleResult`.
pub enum Reported {
    Absent,
    Bytes(Seq<u8>),
    Text(Seq<char>),
}

impl View for ModuleResult {
    type V = Reported;

    open spec fn view(&self) -> Reported {
        match self {
            ModuleResult::Empty => Reported::Absent,
            ModuleResult::ByteArray(b) => Reported::Bytes(b@),
            ModuleResult::String(s) => Reported::Text(s@),
        }
    }
}

/// The place where the result of one run is kept until it is consumed.
pub struct ResultSlot {
    value: ModuleResult,
}

impl View for ResultSlot {
    type V = Reported;

    closed spec fn view(&self) -> Reported {
        self.value@
    }
}

impl ResultSlot {
    /// An empty slot.
    pub fn new() -> (slot: Self)
        ensures
            slot@ == Reported::Absent,
    {
        ResultSlot { value: ModuleResult::Empty }
    }

    /// Empties the slot, as is done before a run starts.
    pub fn clear(&mut self)
        ensures
            final(self)@ == Reported::Absent,
    {
        self.value = ModuleResult::Empty;
    }

    /// Whether nothing has been reported.
    pub fn is_absent(&self) -> (absent: bool)
        ensures
            absent == (self@ == Reported::Absent),
    {
        match &self.value {
            ModuleResult::Empty => true,
            _ => false,
        }
    }

    /// Puts a report into the slot; what was there before is gone.
    pub fn store(&mut self, report: ModuleResult)
        ensures
            final(self)@ == report@,
    {
        self.value = report;
    }

    /// Hands out what the slot holds and leaves the slot empty.
    pub fn take(&mut self) -> (report: ModuleResult)
        ensures
            report@ == old(self)@,
            final(self)@ == Reported::Absent,
    {
        let mut report = ModuleResult::Empty;
        std::mem::swap(&mut report, &mut self.value);
        report
    }
}

/// The byte range `[offset, offset + len)` lies inside a heap of `heap_len`
/// bytes.
pub open spec fn range_granted(heap_len: int, offset: int, len: int) -> bool {
    offset + len <= heap_len
}

/// The text that begins at `from` in `heap` ends at `end`: that is the first
/// zero byte at or behind `from`.
pub open spec fn ends_text(heap: Seq<u8>, from: int, end: int) -> bool {
    &&& 0 <= from <= end < heap.len()
    &&& heap[end] == 0
    &&& forall|k: int| from <= k < end ==> heap[k] != 0
}

/// Index of the zero byte that ends the text at `from`, if the text ends
/// inside the heap.
pub open spec fn terminator(heap: Seq<u8>, from: int) -> Option<int> {
    if exists|end: int| ends_text(heap, from, end) {
        Some(choose|end: int| ends_text(heap, from, end))
    } else {
        None
    }
}

/// What a byte report does to a slot that held `before`.
pub open spec fn after_byte_report(before: Reported, heap: Seq<u8>, offset: int, len: int) -> (
    Result<(), Fault>,
    Reported,
) {
    if range_granted(heap.len() as int, offset, len) {
        (Ok(()), Reported::Bytes(heap.subrange(offset, offset + len)))
    } else {
        (Err(Fault::OutOfBoundsResultRead), before)
    }
}

/// What a text report does to a slot that held `before`.
pub open spec fn after_text_report(before: Reported, heap: Seq<u8>, offset: int) -> (
    Result<(), Fault>,
    Reported,
) {
    match terminator(heap, offset) {
        None => (Err(Fault::OutOfBoundsResultRead), before),
        Some(end) => {
            let bytes = heap.subrange(offset, end);
            if valid_utf8(bytes) {
                (Ok(()), Reported::Text(decode_utf8(bytes)))
            } else {
                (Err(Fault::MalformedText), before)
            }
        },
    }
}

/// One call of a result callback: the heap as it was then, and what the
/// module passed.
pub enum Report {
    Bytes { heap: Seq<u8>, offset: int, len: int },
    Text { heap: Seq<u8>, offset: int },
}

/// Whether the callback takes the report.
pub open spec fn report_accepted(report: Report) -> bool {
    match report {
        Report::Bytes { heap, offset, len } => after_byte_report(
            Reported::Absent,
            heap,
            offset,
            len,
        ).0 is Ok,
        Report::Text { heap, offset } => after_text_report(Reported::Absent, heap, offset).0 is Ok,
    }
}

/// What a slot that held `before` holds after the report.
pub open spec fn after_report(before: Reported, report: Report) -> Reported {
    match report {
        Report::Bytes { heap, offset, len } => after_byte_report(before, heap, offset, len).1,
        Report::Text { heap, offset } => after_text_report(before, heap, offset).1,
    }
}

/// What a slot that held `before` holds after the reports, one after the
/// other.
pub open spec fn after_reports(before: Reported, reports: Seq<Report>) -> Reported
    decreases reports.len(),
{
    if reports.len() == 0 {
        before
    } else {
        after_report(after_reports(before, reports.drop_last()), reports.last())
    }
}

/// One run on a slot that held `before`: the slot is cleared, the module
/// reports, the slot is read once and emptied. The first part is what the
/// reader saw, the second what the slot holds afterwards.
pub open spec fn after_run(before: Reported, reports: Seq<Report>) -> (Reported, Reported) {
    let cleared = Reported::Absent;
    let filled = after_reports(cleared, reports);
    (filled, Reported::Absent)
}

/// Copies `len` bytes at `offset` out of the sandbox's heap, if all of them
/// lie inside it.
pub fn copy_byte_range(heap: &[u8], offset: u32, len: u32) -> (copy: Option<Vec<u8>>)
    ensures
        copy is Some <==> range_granted(heap@.len() as int, offset as int, len as int),
        copy matches Some(bytes) ==> bytes@ == heap@.subrange(offset as int, offset + len),
{
    let heap_len = heap.len();
    let start = offset as usize;
    let count = len as usize;
    if start > heap_len || count > heap_len - start {
        return None;
    }
    Some(slice_to_vec(slice_subrange(heap, start, start + count)))
}

/// Finds the zero byte that ends the text at `offset`.
pub fn find_terminator(heap: &[u8], offset: u32) -> (end: Option<usize>)
    ensures
        match end {
            Some(e) => terminator(heap@, offset as int) == Some(e as int),
            None => terminator(heap@, offset as int) is None,
        },
{
    let heap_len = heap.len();
    let start = offset as usize;
    let mut at = start;
    while at < heap_len
        invariant
            heap_len == heap@.len(),
            start == offset,
            start <= at,
            forall|k: int| start <= k < at && k < heap_len ==> heap@[k] != 0,
        decreases heap_len - at,
    {
        if heap[at] == 0 {
            proof {
                lemma_terminator_is_unique(heap@, offset as int, at as int);
            }
            return Some(at);
        }
        at += 1;
    }
    None
}

/// The byte-result callback: the module reports `bytes` bytes at `byte_arr`
/// in its heap.
pub fn server_module_bytearr_result(
    slot: &mut ResultSlot,
    heap: &[u8],
    byte_arr: u32,
    bytes: u32,
) -> (outcome: Result<(), Fault>)
    ensures
        (outcome, final(slot)@) == after_byte_report(
            old(slot)@,
            heap@,
            byte_arr as int,
            bytes as int,
        ),
{
    match copy_byte_range(heap, byte_arr, bytes) {
        Some(copy) => {
            slot.store(ModuleResult::ByteArray(copy));
            Ok(())
        },
        None => Err(Fault::OutOfBoundsResultRead),
    }
}

/// The text-result callback: the module reports the zero-terminated text at
/// `string_resp` in its heap.
pub fn server_module_string_result(slot: &mut ResultSlot, heap: &[u8], string_resp: u32) -> (outcome:
    Result<(), Fault>)
    ensures
        (outcome, final(slot)@) == after_text_report(old(slot)@, heap@, string_resp as int),
{
    match find_terminator(heap, string_resp) {
        None => Err(Fault::OutOfBoundsResultRead),
        Some(end) => {
            let bytes = slice_subrange(heap, string_resp as usize, end);
            match core::str::from_utf8(bytes) {
                Ok(text) => {
                    proof {
                        vstd::utf8::encode_utf8_decode_utf8(text@);
                    }
                    slot.store(ModuleResult::String(text.to_owned()));
                    Ok(())
                },
                Err(_) => Err(Fault::MalformedText),
            }
        },
    }
}

/// A slot that was cleared holds nothing if no report came, and the value of
/// the last report if that one was taken, whatever came before it. A report
/// that is refused changes nothing.
pub proof fn lemma_slot_holds_last_report(reports: Seq<Report>)
    ensures
        reports.len() == 0 ==> after_reports(Reported::Absent, reports) == Reported::Absent,
        reports.len() > 0 && report_accepted(reports.last()) ==> after_reports(
            Reported::Absent,
            reports,
        ) == after_report(Reported::Absent, reports.last()) && after_reports(
            Reported::Absent,
            reports,
        ) != Reported::Absent,
        reports.len() > 0 && !report_accepted(reports.last()) ==> after_reports(
            Reported::Absent,
            reports,
        ) == after_reports(Reported::Absent, reports.drop_last()),
{
}

/// A run sees nothing of the run before it: what it observes is what its own
/// reports leave in an empty slot, and it leaves the slot empty in turn.
pub proof fn lemma_runs_are_isolated(before: Reported, first: Seq<Report>, second: Seq<Report>)
    ensures
        after_run(before, first).1 == Reported::Absent,
        after_run(after_run(before, first).1, second).0 == after_reports(
            Reported::Absent,
            second,
        ),
        second.len() == 0 ==> after_run(after_run(before, first).1, second).0
            == Reported::Absent,
{
}

/// A text has one end at most.
pub proof fn lemma_terminator_is_unique(heap: Seq<u8>, from: int, end: int)
    requires
        ends_text(heap, from, end),
    ensures
        terminator(heap, from) == Some(end),
{
    let chosen = choose|e: int| ends_text(heap, from, e);
    assert(!(chosen < end) && !(end < chosen));
}

} // verus!
