//! Variable-length kernel record construction and parsing.
//!
//! Several kernel requests carry a fixed header followed by a trailing
//! array whose length is only known at run time: region and interrupt
//! queries report such records, and the interrupt-set request sends one
//! holding an event handle per interrupt sub-line. The record is modelled
//! as a header value plus an explicit ordered sequence, with the declared
//! byte size computed once from the kernel's arithmetic rule, so that the
//! size can never disagree silently with the element count.

use vstd::prelude::*;

use crate::errors::VfioError;

verus! {

/// Bytes the fixed header occupies: declared size, flags, index and
/// trailing-element count, four 32-bit words.
pub const RECORD_HEADER_BYTES: u32 = 16;

/// Bytes one trailing element occupies.
pub const RECORD_ENTRY_BYTES: u32 = 4;

/// Most trailing elements a record can declare without its byte size
/// overflowing the 32-bit size field.
pub const MAX_RECORD_ENTRIES: u32 = (u32::MAX - RECORD_HEADER_BYTES) / RECORD_ENTRY_BYTES;

/// The fixed leading part of a record, minus the fields the builder owns
/// (declared size and trailing count).
#[derive(Clone, Copy, Debug, PartialEq, Eq, Structural)]
pub struct RecordHeader {
    /// Request-specific flag bits.
    pub flags: u32,
    /// Which region or interrupt the record is about.
    pub index: u32,
}

/// The declared byte size of a record with `count` trailing elements.
pub open spec fn record_argsz(count: int) -> int {
    RECORD_HEADER_BYTES + RECORD_ENTRY_BYTES * count
}

/// A fixed-header-plus-trailing-array record.
#[derive(Clone, Debug)]
pub struct CapRecord {
    /// Declared byte size of the whole record.
    pub argsz: u32,
    /// The fixed header.
    pub header: RecordHeader,
    /// The trailing array.
    pub entries: Vec<u32>,
}

/// A record's declared size agrees with its trailing count.
pub open spec fn record_wf(r: CapRecord) -> bool {
    r.argsz == record_argsz(r.entries@.len() as int)
}

/// Builds a record from a header and trailing elements, computing the
/// declared size; fails when that size would overflow the size field.
pub fn build_record(header: RecordHeader, entries: Vec<u32>) -> (r: Result<CapRecord, VfioError>)
    ensures
        match r {
            Ok(rec) => entries@.len() <= MAX_RECORD_ENTRIES && rec.header == header
                && rec.entries@ == entries@ && record_wf(rec),
            Err(e) => e == VfioError::OutOfRange && entries@.len() > MAX_RECORD_ENTRIES,
        },
{
    if entries.len() > MAX_RECORD_ENTRIES as usize {
        return Err(VfioError::OutOfRange);
    }
    let argsz: u32 = RECORD_HEADER_BYTES + RECORD_ENTRY_BYTES * (entries.len() as u32);
    Ok(CapRecord { argsz, header, entries })
}

/// Takes a record apart into its header and trailing elements, after
/// checking that the declared size agrees with the trailing count; a record
/// whose declared size disagrees is rejected as malformed.
pub fn parse_record(rec: CapRecord) -> (r: Result<(RecordHeader, Vec<u32>), VfioError>)
    ensures
        match r {
            Ok((header, entries)) => record_wf(rec) && header == rec.header && entries@
                == rec.entries@,
            Err(e) => e == VfioError::OutOfRange && !record_wf(rec),
        },
{
    if rec.entries.len() > MAX_RECORD_ENTRIES as usize {
        return Err(VfioError::OutOfRange);
    }
    let expected: u32 = RECORD_HEADER_BYTES + RECORD_ENTRY_BYTES * (rec.entries.len() as u32);
    if rec.argsz != expected {
        return Err(VfioError::OutOfRange);
    }
    Ok((rec.header, rec.entries))
}

} // verus!
