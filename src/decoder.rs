//! Turning the bytes read from one buffer into a record. The bytes sit at some
//! address in memory; a record must start at a multiple of its alignment, so
//! the leading bytes before that point are skipped.

use vstd::prelude::*;
use crate::record::{
    ProcessInfo, RECORD_ALIGN, RECORD_SIZE, lemma_record_round_trip, record_at, record_bytes,
};

verus! {

/// The result of decoding one read.
#[derive(Debug, Copy, Clone, PartialEq, Eq, Structural)]
pub struct Decoded {
    /// Leading bytes skipped to reach an aligned position.
    pub skipped: usize,
    /// The first complete record at that position, if there is one.
    pub record: Option<ProcessInfo>,
}

/// How many bytes lie between `addr` and the next multiple of the record
/// alignment, but no more than the `len` bytes that are there.
pub open spec fn prefix_len(addr: usize, len: usize) -> int {
    let gap = (RECORD_ALIGN - addr % RECORD_ALIGN) % RECORD_ALIGN as int;
    if gap <= len { gap } else { len as int }
}

/// The decoding of `b`, which starts at address `addr`.
pub open spec fn decoded(b: Seq<u8>, addr: usize) -> Decoded {
    let skip = prefix_len(addr, b.len() as usize);
    Decoded {
        skipped: skip as usize,
        record: if skip + RECORD_SIZE <= b.len() { Some(record_at(b, skip)) } else { None },
    }
}

/// Number of leading bytes of a `len`-byte region at `addr` that come before
/// the first aligned position.
pub fn align_prefix(addr: usize, len: usize) -> (r: usize)
    ensures
        r == prefix_len(addr, len),
        r <= len,
        r < RECORD_ALIGN,
        r < len ==> (addr as int + r) % RECORD_ALIGN as int == 0,
{
    let gap = (RECORD_ALIGN - addr % RECORD_ALIGN) % RECORD_ALIGN;
    if gap <= len { gap } else { len }
}

/// Decodes the bytes `b` read from a buffer, where `addr` is the address of
/// `b`'s first byte: skips to the first aligned position and reads the record
/// that starts there, if a whole one does.
pub fn decode(b: &[u8], addr: usize) -> (r: Decoded)
    ensures
        r == decoded(b@, addr),
{
    let skip = align_prefix(addr, b.len());
    Decoded { skipped: skip, record: ProcessInfo::read_at(b, skip) }
}

/// Fewer bytes than one record never give a record.
pub proof fn lemma_short_input_has_no_record(b: Seq<u8>, addr: usize)
    requires
        b.len() < RECORD_SIZE,
    ensures
        decoded(b, addr).record is None,
{
}

/// A record encoded after the leading bytes that reach the first aligned
/// position decodes to itself, and the decoder reports those bytes as skipped.
/// With an aligned start nothing is skipped: encoding then decoding gives the
/// same three fields back.
pub proof fn lemma_encode_decode(lead: Seq<u8>, p: ProcessInfo, addr: usize)
    requires
        lead.len() < RECORD_ALIGN,
        (addr + lead.len()) % RECORD_ALIGN as int == 0,
    ensures
        decoded(lead + record_bytes(p), addr) == (Decoded {
            skipped: lead.len() as usize,
            record: Some(p),
        }),
{
    lemma_record_round_trip(p);
    let b = lead + record_bytes(p);
    let k = lead.len() as int;
    assert(prefix_len(addr, b.len() as usize) == k);
    assert forall|i: int| 0 <= i < RECORD_SIZE implies b[k + i] == record_bytes(p)[i] by {}
    assert(record_at(b, k) == record_at(record_bytes(p), 0));
}

} // verus!
