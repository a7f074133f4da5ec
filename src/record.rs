//! The sample record and its wire layout: three consecutive little-endian
//! `u32` fields (priority, pid, cpu), twelve bytes, no padding.

use vstd::prelude::*;

verus! {

/// Priority tag of a record handled by the main worker pool.
pub const MAIN_PERF_MAP: u32 = 0;

/// Priority tag of a record handled by the secondary worker pool.
pub const SECONDARY_PERF_MAP: u32 = 1;

/// Size in bytes of one encoded record.
pub const RECORD_SIZE: usize = 12;

/// Alignment in bytes that a record needs in memory.
pub const RECORD_ALIGN: usize = 4;

/// One observation taken on a timer tick.
#[derive(Debug, Copy, Clone, Default, PartialEq, Eq, Structural)]
pub struct ProcessInfo {
    pub perf_map_priority: u32,
    pub pid: u32,
    pub cpu: u32,
}

/// The four bytes of `x`, least significant first.
pub open spec fn u32_le(x: u32) -> Seq<u8> {
    seq![
        (x % 256) as u8,
        ((x / 256) % 256) as u8,
        ((x / 65536) % 256) as u8,
        (x / 16777216) as u8,
    ]
}

/// The value of four bytes read least significant first.
pub open spec fn le_u32(b0: u8, b1: u8, b2: u8, b3: u8) -> u32 {
    (b0 as int + b1 as int * 256 + b2 as int * 65536 + b3 as int * 16777216) as u32
}

/// The twelve bytes of a record.
pub open spec fn record_bytes(p: ProcessInfo) -> Seq<u8> {
    u32_le(p.perf_map_priority) + u32_le(p.pid) + u32_le(p.cpu)
}

/// The record whose encoding starts at offset `at` of `b`.
pub open spec fn record_at(b: Seq<u8>, at: int) -> ProcessInfo {
    ProcessInfo {
        perf_map_priority: le_u32(b[at], b[at + 1], b[at + 2], b[at + 3]),
        pid: le_u32(b[at + 4], b[at + 5], b[at + 6], b[at + 7]),
        cpu: le_u32(b[at + 8], b[at + 9], b[at + 10], b[at + 11]),
    }
}

/// Reading back the four bytes of `x` gives `x`.
pub proof fn lemma_u32_le_round_trip(x: u32)
    ensures
        le_u32(u32_le(x)[0], u32_le(x)[1], u32_le(x)[2], u32_le(x)[3]) == x,
{
}

/// Encoding a record and decoding the bytes gives back the same three fields.
pub proof fn lemma_record_round_trip(p: ProcessInfo)
    ensures
        record_bytes(p).len() == RECORD_SIZE,
        record_at(record_bytes(p), 0) == p,
{
    lemma_u32_le_round_trip(p.perf_map_priority);
    lemma_u32_le_round_trip(p.pid);
    lemma_u32_le_round_trip(p.cpu);
    let b = record_bytes(p);
    assert(b[0] == u32_le(p.perf_map_priority)[0]);
    assert(b[4] == u32_le(p.pid)[0]);
    assert(b[8] == u32_le(p.cpu)[0]);
}

fn push_u32_le(out: &mut Vec<u8>, x: u32)
    ensures
        final(out)@ == old(out)@ + u32_le(x),
{
    out.push((x % 256) as u8);
    out.push(((x / 256) % 256) as u8);
    out.push(((x / 65536) % 256) as u8);
    out.push((x / 16777216) as u8);
    assert(final(out)@ =~= old(out)@ + u32_le(x));
}

fn read_u32_le(b: &[u8], at: usize) -> (r: u32)
    requires
        at + 4 <= b@.len(),
    ensures
        r == le_u32(b@[at as int], b@[at + 1], b@[at + 2], b@[at + 3]),
{
    let v: u64 = b[at] as u64 + b[at + 1] as u64 * 256 + b[at + 2] as u64 * 65536
        + b[at + 3] as u64 * 16777216;
    v as u32
}

impl ProcessInfo {
    /// The twelve bytes of this record, in wire order.
    pub fn to_bytes(&self) -> (r: Vec<u8>)
        ensures
            r@ == record_bytes(*self),
    {
        let mut out: Vec<u8> = Vec::new();
        push_u32_le(&mut out, self.perf_map_priority);
        push_u32_le(&mut out, self.pid);
        push_u32_le(&mut out, self.cpu);
        out
    }

    /// The record encoded at offset `at` of `b`, if twelve bytes stand there.
    pub fn read_at(b: &[u8], at: usize) -> (r: Option<ProcessInfo>)
        ensures
            at + RECORD_SIZE <= b@.len() ==> r == Some(record_at(b@, at as int)),
            at + RECORD_SIZE > b@.len() ==> r is None,
    {
        if at > b.len() || b.len() - at < RECORD_SIZE {
            return None;
        }
        Some(ProcessInfo {
            perf_map_priority: read_u32_le(b, at),
            pid: read_u32_le(b, at + 4),
            cpu: read_u32_le(b, at + 8),
        })
    }
}

} // verus!
