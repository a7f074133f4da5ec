use perf_event_test::decoder::{align_prefix, decode, Decoded};
use perf_event_test::poller::{deliver, sweep_order, BufferId, Dispatch, PollAction, Poller};
use perf_event_test::record::{ProcessInfo, MAIN_PERF_MAP, RECORD_SIZE, SECONDARY_PERF_MAP};
use perf_event_test::router::{plan_pools, pool_sizes, route, Pool};
use perf_event_test::sampler::{classify, perf_event_test, try_perf_event_test, Channel};

fn rec(priority: u32, pid: u32, cpu: u32) -> ProcessInfo {
    ProcessInfo { perf_map_priority: priority, pid, cpu }
}

/// `lead` filler bytes (fewer than four) followed by `body`, with an address
/// for the first byte at which `body` starts aligned.
fn placed(lead: usize, body: &[u8]) -> (Vec<u8>, usize) {
    let mut bytes = vec![0xAAu8; lead];
    bytes.extend_from_slice(body);
    (bytes, 0x1000 + (4 - lead) % 4)
}

#[test]
fn encoding_is_three_little_endian_words() {
    let b = rec(1, 0x0102_0304, 0xA0B0_C0D0).to_bytes();
    assert_eq!(b.len(), RECORD_SIZE);
    assert_eq!(b, vec![1, 0, 0, 0, 4, 3, 2, 1, 0xD0, 0xC0, 0xB0, 0xA0]);
}

#[test]
fn encode_then_decode_round_trips() {
    for p in [rec(0, 0, 0), rec(1, 4821, 1), rec(7, 1, 0), rec(u32::MAX, u32::MAX, u32::MAX)] {
        let b = p.to_bytes();
        assert_eq!(decode(&b, 0), Decoded { skipped: 0, record: Some(p) });
        assert_eq!(ProcessInfo::read_at(&b, 0), Some(p));
    }
}

#[test]
fn idle_tick_is_tagged_main() {
    assert_eq!(classify(5, 0), rec(MAIN_PERF_MAP, 0, 5));
}

#[test]
fn process_tick_is_tagged_secondary() {
    assert_eq!(classify(2, 4821), rec(SECONDARY_PERF_MAP, 4821, 2));
}

#[test]
fn every_tick_writes_to_the_main_channel() {
    let e = try_perf_event_test(3, 0);
    assert_eq!(e.channel, Channel::MainMap);
    assert_eq!(e.record, rec(0, 0, 3));
    let e = try_perf_event_test(1, 77);
    assert_eq!(e.channel, Channel::MainMap);
    assert_eq!(e.record, rec(1, 77, 1));
}

#[test]
fn rejected_write_still_succeeds() {
    assert_eq!(perf_event_test(Ok(())), 0);
    assert_eq!(perf_event_test(Err(-28)), 0);
}

#[test]
fn routing_scenario() {
    assert_eq!(route(&rec(0, 0, 3)), Some(Pool::Main));
    assert_eq!(route(&rec(1, 4821, 1)), Some(Pool::Secondary));
    assert_eq!(route(&rec(7, 1, 0)), None);
}

#[test]
fn delivery_drops_unknown_tags() {
    let d = deliver(&rec(7, 1, 0).to_bytes(), 8);
    assert_eq!(d.skipped, 0);
    assert_eq!(d.dispatch, None);
    let d = deliver(&rec(1, 4821, 1).to_bytes(), 8);
    assert_eq!(d.dispatch, Some(Dispatch { pool: Pool::Secondary, record: rec(1, 4821, 1) }));
}

#[test]
fn pool_sizes_follow_the_host() {
    assert_eq!(pool_sizes(8).main_workers, 8);
    assert_eq!(pool_sizes(8).secondary_workers, 1);
    let p = plan_pools();
    assert!(p.main_workers >= 1);
    assert_eq!(p.secondary_workers, 1);
}

#[test]
fn empty_buffer_is_skipped_at_once() {
    let mut p = Poller::new(&vec![0, 1]).unwrap();
    let first = BufferId { channel: Channel::MainMap, cpu: 0 };
    let second = BufferId { channel: Channel::SecondaryMap, cpu: 0 };
    assert_eq!(p.on_readiness(false), PollAction::Skip(first));
    assert_eq!(p.current(), second);
}

#[test]
fn readable_buffer_is_read_then_left() {
    let mut p = Poller::new(&vec![0, 1]).unwrap();
    let first = BufferId { channel: Channel::MainMap, cpu: 0 };
    assert_eq!(p.on_readiness(true), PollAction::Read(first));
    assert_eq!(p.current(), first);
    let d = p.on_bytes(&rec(0, 0, 0).to_bytes(), 0);
    assert_eq!(d.dispatch, Some(Dispatch { pool: Pool::Main, record: rec(0, 0, 0) }));
    assert_eq!(p.current(), BufferId { channel: Channel::SecondaryMap, cpu: 0 });
}

#[test]
fn sweep_order_on_two_cpus() {
    let expected = vec![
        BufferId { channel: Channel::MainMap, cpu: 0 },
        BufferId { channel: Channel::SecondaryMap, cpu: 0 },
        BufferId { channel: Channel::MainMap, cpu: 1 },
        BufferId { channel: Channel::SecondaryMap, cpu: 1 },
    ];
    assert_eq!(sweep_order(&vec![0, 1]), expected);
    let mut p = Poller::new(&vec![0, 1]).unwrap();
    assert_eq!(p.order(), &expected);
    for _round in 0..3 {
        for b in &expected {
            assert_eq!(p.on_readiness(false), PollAction::Skip(*b));
        }
    }
}

#[test]
fn no_cpu_means_no_poller() {
    assert!(Poller::new(&vec![]).is_none());
    assert!(sweep_order(&vec![]).is_empty());
}

#[test]
fn short_or_empty_input_gives_no_record() {
    assert_eq!(decode(&[], 0), Decoded { skipped: 0, record: None });
    assert_eq!(decode(&[1, 2, 3, 4, 5], 0), Decoded { skipped: 0, record: None });
    let b = rec(1, 2, 3).to_bytes();
    assert_eq!(decode(&b[..11], 0).record, None);
    assert_eq!(decode(&[9, 9], 1), Decoded { skipped: 2, record: None });
    let (bytes, addr) = placed(3, &b[..11]);
    assert_eq!(decode(&bytes, addr), Decoded { skipped: 3, record: None });
}

#[test]
fn misaligned_prefix_is_skipped() {
    let body = rec(1, 4821, 1).to_bytes();
    let (bytes, addr) = placed(3, &body);
    assert_eq!(bytes.len(), 15);
    assert_eq!(decode(&bytes, addr), Decoded { skipped: 3, record: Some(rec(1, 4821, 1)) });
}

#[test]
fn alignment_prefix_lengths() {
    assert_eq!(align_prefix(0, 20), 0);
    assert_eq!(align_prefix(1, 20), 3);
    assert_eq!(align_prefix(2, 20), 2);
    assert_eq!(align_prefix(7, 20), 1);
    assert_eq!(align_prefix(1, 2), 2);
}
