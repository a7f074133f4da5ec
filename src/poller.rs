//! The collector's sweep over every per-CPU buffer of both channels. The
//! poller holds the decisions; whoever owns the buffers checks readability,
//! reads bytes and hands the outcome back.

use vstd::prelude::*;
use crate::decoder::{decode, decoded, Decoded};
use crate::record::ProcessInfo;
use crate::router::{Pool, pool_for, route};
use crate::sampler::Channel;

verus! {

/// One per-CPU buffer of one channel.
#[derive(Debug, Copy, Clone, PartialEq, Eq, Structural)]
pub struct BufferId {
    pub channel: Channel,
    pub cpu: u32,
}

/// The buffers of a sweep over the CPUs `cpus`: for each CPU in turn, its
/// main buffer, then its secondary buffer.
pub open spec fn sweep(cpus: Seq<u32>) -> Seq<BufferId> {
    Seq::new(
        2 * cpus.len(),
        |i: int|
            BufferId {
                channel: if i % 2 == 0 { Channel::MainMap } else { Channel::SecondaryMap },
                cpu: cpus[i / 2],
            },
    )
}

/// The buffers to open and visit, in sweep order.
pub fn sweep_order(cpus: &Vec<u32>) -> (r: Vec<BufferId>)
    requires
        cpus@.len() <= usize::MAX / 2,
    ensures
        r@ == sweep(cpus@),
{
    let mut out: Vec<BufferId> = Vec::new();
    let mut i: usize = 0;
    while i < cpus.len()
        invariant
            i <= cpus@.len(),
            cpus@.len() <= usize::MAX / 2,
            out@ == sweep(cpus@.take(i as int)),
        decreases cpus@.len() - i,
    {
        out.push(BufferId { channel: Channel::MainMap, cpu: cpus[i] });
        out.push(BufferId { channel: Channel::SecondaryMap, cpu: cpus[i] });
        i = i + 1;
        assert(out@ =~= sweep(cpus@.take(i as int)));
    }
    assert(cpus@.take(i as int) =~= cpus@);
    out
}

/// A record handed to a pool.
#[derive(Debug, Copy, Clone, PartialEq, Eq, Structural)]
pub struct Dispatch {
    pub pool: Pool,
    pub record: ProcessInfo,
}

/// What becomes of the bytes of one read.
#[derive(Debug, Copy, Clone, PartialEq, Eq, Structural)]
pub struct Delivery {
    /// Leading bytes skipped to reach an aligned record.
    pub skipped: usize,
    /// The decoded record and its pool; none where no whole record was read
    /// or its tag names no pool.
    pub dispatch: Option<Dispatch>,
}

/// The delivery of a read of `b` at address `addr`.
pub open spec fn delivered(b: Seq<u8>, addr: usize) -> Delivery {
    let d = decoded(b, addr);
    Delivery {
        skipped: d.skipped,
        dispatch: match d.record {
            Some(rec) => match pool_for(rec.perf_map_priority) {
                Some(pool) => Some(Dispatch { pool, record: rec }),
                None => None,
            },
            None => None,
        },
    }
}

/// Decodes the bytes of one read, whose first byte is at address `addr`,
/// and picks the pool for the record.
pub fn deliver(b: &[u8], addr: usize) -> (r: Delivery)
    ensures
        r == delivered(b@, addr),
{
    let d: Decoded = decode(b, addr);
    let dispatch = match d.record {
        Some(rec) => match route(&rec) {
            Some(pool) => Some(Dispatch { pool, record: rec }),
            None => None,
        },
        None => None,
    };
    Delivery { skipped: d.skipped, dispatch }
}

/// What to do with the buffer whose readability was just checked.
#[derive(Debug, Copy, Clone, PartialEq, Eq, Structural)]
pub enum PollAction {
    /// Read this buffer and hand the bytes back.
    Read(BufferId),
    /// Nothing to read here; the sweep has moved to the next buffer.
    Skip(BufferId),
}

/// The position of an endless sweep over a fixed list of buffers.
pub struct Poller {
    order: Vec<BufferId>,
    next: usize,
}

impl Poller {
    /// The buffers in sweep order.
    pub closed spec fn buffers(&self) -> Seq<BufferId> {
        self.order@
    }

    /// Index of the buffer that is visited next.
    pub closed spec fn position(&self) -> int {
        self.next as int
    }

    pub closed spec fn wf(&self) -> bool {
        self.next < self.order@.len()
    }

    /// A sweep over the buffers of `cpus`, starting at the first; none when
    /// there is no CPU.
    pub fn new(cpus: &Vec<u32>) -> (r: Option<Poller>)
        requires
            cpus@.len() <= usize::MAX / 2,
        ensures
            cpus@.len() == 0 <==> r is None,
            r matches Some(p) ==> p.wf() && p.buffers() == sweep(cpus@) && p.position() == 0,
    {
        if cpus.len() == 0 {
            return None;
        }
        Some(Poller { order: sweep_order(cpus), next: 0 })
    }

    /// The buffers in sweep order.
    pub fn order(&self) -> (r: &Vec<BufferId>)
        ensures
            r@ == self.buffers(),
    {
        &self.order
    }

    /// Index in `order` of the buffer that is visited next.
    pub fn index(&self) -> (r: usize)
        ensures
            r == self.position(),
    {
        self.next
    }

    /// The buffer that is visited next.
    pub fn current(&self) -> (r: BufferId)
        requires
            self.wf(),
        ensures
            r == self.buffers()[self.position()],
    {
        self.order[self.next]
    }

    fn advance(&mut self)
        requires
            old(self).wf(),
        ensures
            final(self).wf(),
            final(self).buffers() == old(self).buffers(),
            final(self).position() == (old(self).position() + 1) % old(self).buffers().len() as int,
    {
        let n = self.order.len();
        assert(self.next < n);
        if self.next + 1 == n {
            self.next = 0;
            proof {
                vstd::arithmetic::div_mod::lemma_mod_self_0(n as int);
            }
        } else {
            self.next = self.next + 1;
            proof {
                vstd::arithmetic::div_mod::lemma_small_mod(self.next as nat, n as nat);
            }
        }
    }

    /// Takes the readability of the current buffer. A readable buffer is to be
    /// read, and the sweep stays on it until its bytes come back; a buffer with
    /// nothing to read is skipped at once and the sweep moves to the next one.
    pub fn on_readiness(&mut self, readable: bool) -> (r: PollAction)
        requires
            old(self).wf(),
        ensures
            final(self).wf(),
            final(self).buffers() == old(self).buffers(),
            readable ==> r == PollAction::Read(old(self).buffers()[old(self).position()]),
            readable ==> final(self).position() == old(self).position(),
            !readable ==> r == PollAction::Skip(old(self).buffers()[old(self).position()]),
            !readable ==> final(self).position() == (old(self).position() + 1)
                % old(self).buffers().len() as int,
    {
        let here = self.current();
        if readable {
            PollAction::Read(here)
        } else {
            self.advance();
            PollAction::Skip(here)
        }
    }

    /// Takes the bytes read from the current buffer, whose first byte is at
    /// address `addr`, says what becomes of them and moves to the next buffer.
    pub fn on_bytes(&mut self, b: &[u8], addr: usize) -> (r: Delivery)
        requires
            old(self).wf(),
        ensures
            final(self).wf(),
            final(self).buffers() == old(self).buffers(),
            final(self).position() == (old(self).position() + 1) % old(self).buffers().len() as int,
            r == delivered(b@, addr),
    {
        let r = deliver(b, addr);
        self.advance();
        r
    }
}

} // verus!
