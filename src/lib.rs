//! Per-CPU execution samples: the record that crosses from the kernel probe to
//! the collector, how the probe classifies a tick, how the collector decodes the
//! bytes it reads and routes each record to a worker pool.

pub mod record;
pub mod sampler;
pub mod decoder;
pub mod router;
pub mod poller;
