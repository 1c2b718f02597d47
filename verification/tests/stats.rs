use nethai_backend::capture::stats::NetworkStats;
use std::sync::{Arc, Mutex};
use std::time::{Duration, Instant};

#[test]
fn new_counter_is_empty() {
    let stats = NetworkStats::new();
    assert_eq!(stats.get_stats(), (0, 0, 0));
}

#[test]
fn records_add_one_packet_and_their_bytes() {
    let mut stats = NetworkStats::new();
    let sizes: Vec<usize> = vec![60, 1500, 0, 42, 65535];
    let mut now: u128 = 10;
    for size in sizes.iter() {
        stats.update_at(*size, now);
        now += 5;
    }
    let (packets, bytes, _) = stats.get_stats();
    assert_eq!(packets, 5);
    assert_eq!(bytes, 60 + 1500 + 0 + 42 + 65535);
}

#[test]
fn no_record_leaves_counters_unchanged() {
    let mut stats = NetworkStats::new();
    stats.update_at(7, 3);
    assert_eq!(stats.get_stats(), (1, 7, 3));
    assert_eq!(stats.get_stats(), (1, 7, 3));
}

#[test]
fn elapsed_is_last_update_minus_start() {
    let mut stats = NetworkStats::new();
    stats.reset_at(1_000);
    assert_eq!(stats.get_stats(), (0, 0, 0));
    stats.update_at(100, 1_250);
    assert_eq!(stats.get_stats(), (1, 100, 250));
    stats.update_at(1, 4_000);
    assert_eq!(stats.get_stats(), (2, 101, 3_000));
}

#[test]
fn elapsed_is_frozen_at_the_last_packet() {
    let mut stats = NetworkStats::new();
    stats.update(64);
    let first = stats.get_stats();
    let begin = Instant::now();
    while begin.elapsed() < Duration::from_millis(3) {}
    assert_eq!(stats.get_stats(), first);
}

#[test]
fn elapsed_is_zero_when_the_clock_stepped_back() {
    let mut stats = NetworkStats::new();
    stats.reset_at(500);
    stats.update_at(9, 400);
    assert_eq!(stats.get_stats(), (1, 9, 0));
}

#[test]
fn reset_then_snapshot_is_all_zero() {
    let mut stats = NetworkStats::new();
    stats.update_at(10, 100);
    stats.update_at(20, 200);
    stats.reset_at(300);
    assert_eq!(stats.get_stats(), (0, 0, 0));
    stats.update(5);
    stats.reset();
    assert_eq!(stats.get_stats(), (0, 0, 0));
}

#[test]
fn reset_starts_a_new_epoch() {
    let mut stats = NetworkStats::new();
    stats.update_at(10, 100);
    stats.reset_at(1_000);
    stats.update_at(3, 1_007);
    assert_eq!(stats.get_stats(), (1, 3, 7));
}

#[test]
fn update_reads_the_clock() {
    let mut stats = NetworkStats::new();
    let begin = Instant::now();
    while begin.elapsed() < Duration::from_millis(2) {}
    stats.update(1);
    let (packets, bytes, elapsed) = stats.get_stats();
    assert_eq!((packets, bytes), (1, 1));
    assert!(elapsed >= 2_000_000);
    let ceiling = begin.elapsed().as_nanos() + 1_000_000_000;
    assert!(elapsed <= ceiling);
}

#[test]
fn reset_reads_the_clock() {
    let mut stats = NetworkStats::new();
    let begin = Instant::now();
    while begin.elapsed() < Duration::from_millis(2) {}
    stats.reset();
    stats.update_at(1, 0);
    // The epoch began at least two milliseconds after the counter was made,
    // so a frame stamped at the counter's zero lies before it.
    assert_eq!(stats.get_stats(), (1, 1, 0));
    stats.update_at(1, u128::MAX);
    let (_, _, elapsed) = stats.get_stats();
    assert!(elapsed <= u128::MAX - 2_000_000);
}

#[test]
fn room_is_checked_against_both_counters() {
    let mut stats = NetworkStats::new();
    assert!(stats.has_room_for(usize::MAX));
    stats.update_at(usize::MAX, 1);
    let (_, bytes, _) = stats.get_stats();
    let left = u64::MAX - bytes;
    if left < usize::MAX as u64 {
        assert!(stats.has_room_for(left as usize));
        assert!(!stats.has_room_for(left as usize + 1));
        stats.update_at(left as usize, 2);
        assert_eq!(stats.get_stats(), (2, u64::MAX, 2));
        assert!(stats.has_room_for(0));
        assert!(!stats.has_room_for(1));
    }
}

#[test]
fn any_order_of_the_same_frames_counts_the_same() {
    let orders: Vec<Vec<usize>> = vec![
        vec![10, 20, 30, 40],
        vec![40, 30, 20, 10],
        vec![20, 40, 10, 30],
        vec![30, 10, 40, 20],
    ];
    for order in orders.iter() {
        let mut stats = NetworkStats::new();
        for (i, size) in order.iter().enumerate() {
            stats.update_at(*size, i as u128);
        }
        let (packets, bytes, _) = stats.get_stats();
        assert_eq!((packets, bytes), (4, 100));
    }
}

#[test]
fn interleaved_producers_lose_no_update() {
    // Eight producers of eight frames each; every schedule picks, step by
    // step, which producer records next.
    let producers: Vec<Vec<usize>> = (0..8).map(|p| (1..=8).map(|k| p * 8 + k).collect()).collect();
    for seed in 0..16u64 {
        let shared = Arc::new(Mutex::new(NetworkStats::new()));
        let mut next = vec![0usize; producers.len()];
        let mut left = 64;
        let mut state = seed.wrapping_mul(6364136223846793005).wrapping_add(1442695040888963407);
        while left > 0 {
            state = state.wrapping_mul(6364136223846793005).wrapping_add(1442695040888963407);
            let mut p = (state >> 33) as usize % producers.len();
            while next[p] == producers[p].len() {
                p = (p + 1) % producers.len();
            }
            let size = producers[p][next[p]];
            next[p] += 1;
            left -= 1;
            let mut stats = shared.lock().unwrap();
            assert!(stats.has_room_for(size));
            stats.update(size);
        }
        let (packets, bytes, _) = shared.lock().unwrap().get_stats();
        assert_eq!(packets, 64);
        assert_eq!(bytes, 64 * 65 / 2);
    }
}
