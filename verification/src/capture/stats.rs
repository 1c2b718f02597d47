//! The traffic counter: packets and bytes seen since the last reset, and the
//! time between the reset and the most recent packet.

use vstd::prelude::*;

verus! {

/// `std::time::Instant`, a point on the system's monotonic clock. The counter
/// carries one as the origin of its time line and never looks inside it.
#[verifier::external_type_specification]
#[verifier::external_body]
pub struct ExInstant(std::time::Instant);

/// One recorded frame: its length in bytes and the clock reading taken when
/// it was recorded, in nanoseconds on the counter's time line.
pub struct Frame {
    pub size: nat,
    pub at: nat,
}

/// The value of a counter.
pub struct StatsView {
    pub packets: nat,
    pub bytes: nat,
    pub start_time: nat,
    pub last_update: nat,
}

impl StatsView {
    /// A counter that was created or reset at `now`.
    pub open spec fn fresh(now: nat) -> StatsView {
        StatsView { packets: 0, bytes: 0, start_time: now, last_update: now }
    }

    /// The counter after one more frame of `size` bytes, recorded at `now`.
    pub open spec fn record(self, size: nat, now: nat) -> StatsView {
        StatsView {
            packets: self.packets + 1,
            bytes: self.bytes + size,
            start_time: self.start_time,
            last_update: now,
        }
    }

    /// The counter after the frames of `frames`, recorded in that order.
    pub open spec fn record_all(self, frames: Seq<Frame>) -> StatsView
        decreases frames.len(),
    {
        if frames.len() == 0 {
            self
        } else {
            self.record_all(frames.drop_last()).record(frames.last().size, frames.last().at)
        }
    }

    /// Time from the start of the epoch to the most recent frame; zero while
    /// no frame has been recorded, and zero if the clock stepped backwards.
    pub open spec fn elapsed(self) -> nat {
        if self.last_update >= self.start_time {
            (self.last_update - self.start_time) as nat
        } else {
            0
        }
    }

    /// What a reader is shown: packets, bytes, elapsed nanoseconds.
    pub open spec fn snapshot(self) -> (nat, nat, nat) {
        (self.packets, self.bytes, self.elapsed())
    }

    /// Whether one more frame of `size` bytes keeps both counters within `u64`.
    pub open spec fn has_room_for(self, size: nat) -> bool {
        self.packets + 1 <= u64::MAX && self.bytes + size <= u64::MAX
    }
}

/// Sum of the lengths of `frames`.
pub open spec fn total_size(frames: Seq<Frame>) -> nat
    decreases frames.len(),
{
    if frames.len() == 0 {
        0
    } else {
        total_size(frames.drop_last()) + frames.last().size
    }
}

/// Starts a time line at the present moment, by `std::time::Instant::now`.
/// Nothing is claimed of the instant returned.
#[verifier::external_body]
fn clock_start() -> (origin: std::time::Instant) {
    std::time::Instant::now()
}

/// Reads the monotonic clock: `std::time::Instant::elapsed` on `origin`, the
/// duration handed out as its whole nanoseconds (`Duration::as_nanos`).
/// Nothing is claimed of the reading: it is whatever time has passed.
#[verifier::external_body]
fn clock_read(origin: &std::time::Instant) -> (nanos: u128) {
    origin.elapsed().as_nanos()
}

/// Counts the packets and bytes of the current epoch. Times are nanoseconds
/// on a time line that starts when the counter is made.
#[derive(Debug)]
pub struct NetworkStats {
    clock: std::time::Instant,
    start_time: u128,
    packets_received: u64,
    bytes_received: u64,
    last_update: u128,
}

impl View for NetworkStats {
    type V = StatsView;

    closed spec fn view(&self) -> StatsView {
        StatsView {
            packets: self.packets_received as nat,
            bytes: self.bytes_received as nat,
            start_time: self.start_time as nat,
            last_update: self.last_update as nat,
        }
    }
}

impl NetworkStats {
    /// A counter whose epoch starts now, at zero on its own time line.
    pub fn new() -> (stats: Self)
        ensures
            stats@ == StatsView::fresh(0),
    {
        NetworkStats {
            clock: clock_start(),
            start_time: 0,
            packets_received: 0,
            bytes_received: 0,
            last_update: 0,
        }
    }

    /// Whether `update` may be called with `packet_size`.
    pub fn has_room_for(&self, packet_size: usize) -> (room: bool)
        ensures
            room == self@.has_room_for(packet_size as nat),
    {
        self.packets_received < u64::MAX && packet_size as u64 <= u64::MAX
            - self.bytes_received
    }

    /// Counts one frame of `packet_size` bytes, seen at clock reading `now`.
    pub fn update_at(&mut self, packet_size: usize, now: u128)
        requires
            old(self)@.has_room_for(packet_size as nat),
        ensures
            final(self)@ == old(self)@.record(packet_size as nat, now as nat),
    {
        self.packets_received = self.packets_received + 1;
        self.bytes_received = self.bytes_received + packet_size as u64;
        self.last_update = now;
    }

    /// Counts one frame of `packet_size` bytes, seen now. The counters move
    /// exactly; the new time stamp is whatever the clock gives.
    pub fn update(&mut self, packet_size: usize)
        requires
            old(self)@.has_room_for(packet_size as nat),
        ensures
            final(self)@ == old(self)@.record(packet_size as nat, final(self)@.last_update),
    {
        let now = clock_read(&self.clock);
        self.update_at(packet_size, now);
    }

    /// Packets, bytes, and the nanoseconds from the start of the epoch to the
    /// most recent frame.
    pub fn get_stats(&self) -> (snapshot: (u64, u64, u128))
        ensures
            (snapshot.0 as nat, snapshot.1 as nat, snapshot.2 as nat) == self@.snapshot(),
    {
        let elapsed = if self.last_update >= self.start_time {
            self.last_update - self.start_time
        } else {
            0
        };
        (self.packets_received, self.bytes_received, elapsed)
    }

    /// Starts a new epoch at clock reading `now`.
    pub fn reset_at(&mut self, now: u128)
        ensures
            final(self)@ == StatsView::fresh(now as nat),
    {
        self.start_time = now;
        self.packets_received = 0;
        self.bytes_received = 0;
        self.last_update = now;
    }

    /// Starts a new epoch now: both counters are zero again and no time has
    /// elapsed, whatever the clock gives.
    pub fn reset(&mut self)
        ensures
            final(self)@ == StatsView::fresh(final(self)@.start_time),
    {
        let now = clock_read(&self.clock);
        self.reset_at(now);
    }
}

/// The lengths of `frames`, in order.
pub open spec fn sizes_of(frames: Seq<Frame>) -> Seq<nat> {
    frames.map_values(|f: Frame| f.size)
}

/// Recording a run of frames with no reset in between adds one packet per
/// frame and the sum of their lengths, keeps the start of the epoch, and
/// never lowers a counter.
pub proof fn lemma_record_sequence(s: StatsView, frames: Seq<Frame>)
    ensures
        s.record_all(frames).packets == s.packets + frames.len(),
        s.record_all(frames).bytes == s.bytes + total_size(frames),
        s.record_all(frames).start_time == s.start_time,
        s.record_all(frames).packets >= s.packets,
        s.record_all(frames).bytes >= s.bytes,
        frames.len() > 0 ==> s.record_all(frames).last_update == frames.last().at,
    decreases frames.len(),
{
    if frames.len() > 0 {
        lemma_record_sequence(s, frames.drop_last());
    }
}

/// Right after a reset, with nothing recorded since, a reader sees no packets,
/// no bytes and no elapsed time.
pub proof fn lemma_fresh_snapshot(now: nat)
    ensures
        StatsView::fresh(now).snapshot() == (0nat, 0nat, 0nat),
{
}

/// A run recorded on a fresh counter shows as many packets as frames and the
/// sum of their lengths.
pub proof fn lemma_snapshot_after_records(now: nat, frames: Seq<Frame>)
    ensures
        StatsView::fresh(now).record_all(frames).snapshot().0 == frames.len(),
        StatsView::fresh(now).record_all(frames).snapshot().1 == total_size(frames),
{
    lemma_record_sequence(StatsView::fresh(now), frames);
}

/// The sum of the lengths depends only on which lengths occur and how often.
proof fn lemma_total_size_by_multiset(a: Seq<Frame>, b: Seq<Frame>)
    requires
        sizes_of(a).to_multiset() == sizes_of(b).to_multiset(),
    ensures
        total_size(a) == total_size(b),
{
    let plus = |acc: nat, n: nat| acc + n;
    lemma_total_size_is_fold(a);
    lemma_total_size_is_fold(b);
    vstd::seq_lib::lemma_fold_left_permutation(sizes_of(a), sizes_of(b), plus, 0nat);
}

proof fn lemma_total_size_is_fold(frames: Seq<Frame>)
    ensures
        total_size(frames) == sizes_of(frames).fold_left(0nat, |acc: nat, n: nat| acc + n),
    decreases frames.len(),
{
    if frames.len() > 0 {
        lemma_total_size_is_fold(frames.drop_last());
        assert(sizes_of(frames).drop_last() =~= sizes_of(frames.drop_last()));
    }
}

/// No update is lost to ordering: two runs that record the same frame lengths,
/// each as often as the other, in any order and at any times, leave the same
/// packet and byte counts.
pub proof fn lemma_record_order_irrelevant(s: StatsView, a: Seq<Frame>, b: Seq<Frame>)
    requires
        sizes_of(a).to_multiset() == sizes_of(b).to_multiset(),
    ensures
        s.record_all(a).packets == s.record_all(b).packets,
        s.record_all(a).bytes == s.record_all(b).bytes,
        s.record_all(a).packets == s.packets + a.len(),
        s.record_all(a).bytes == s.bytes + total_size(a),
{
    lemma_record_sequence(s, a);
    lemma_record_sequence(s, b);
    lemma_total_size_by_multiset(a, b);
    vstd::seq_lib::to_multiset_len(sizes_of(a));
    vstd::seq_lib::to_multiset_len(sizes_of(b));
}

} // verus!
