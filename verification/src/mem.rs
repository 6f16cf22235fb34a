//! Resident-memory sampling and peak tracking for the running benchmark.

use sysinfo::{Pid, ProcessesToUpdate, System};
use vstd::prelude::*;

verus! {

/// Bytes in one mebibyte.
pub const BYTES_PER_MIB: u64 = 1_048_576;

/// The process table of the `sysinfo` crate. Opaque: readings depend on the
/// machine and on the moment they are taken.
#[verifier::external_type_specification]
#[verifier::external_body]
pub struct ExSystem(System);

/// What a process table holds: for every process that it has an entry for,
/// under the number of the process, the resident set size in bytes that the
/// entry recorded when it was last refreshed.
pub uninterp spec fn resident_memory(table: System) -> Map<u32, u64>;

/// Calls `System::new`, which builds a process table with nothing loaded.
#[verifier::external_body]
fn empty_table() -> System {
    System::new()
}

/// Calls `System::refresh_processes` for the single process `pid`, dropping
/// its entry if the process is gone. Nothing is claimed of the table
/// afterwards.
#[verifier::external_body]
fn refresh_process(table: &mut System, pid: u32) {
    table.refresh_processes(ProcessesToUpdate::Some(&[Pid::from_u32(pid)]), true);
}

/// Calls `System::process`, which looks `pid` up among the entries of the
/// table, and `Process::memory`, which hands out the resident set size that
/// the entry found holds. The table is read as it is, not refreshed.
#[verifier::external_body]
fn resident_bytes(table: &System, pid: u32) -> (found: Option<u64>)
    ensures
        found == entry_of(resident_memory(*table), pid),
{
    table.process(Pid::from_u32(pid)).map(|entry| entry.memory())
}

/// The bytes recorded for process `pid`, if there is an entry for it.
pub open spec fn entry_of(held: Map<u32, u64>, pid: u32) -> Option<u64> {
    if held.contains_key(pid) {
        Some(held[pid])
    } else {
        None
    }
}

/// Whole mebibytes in `bytes`, rounded down.
pub open spec fn mib_of(bytes: nat) -> nat {
    bytes / (BYTES_PER_MIB as nat)
}

/// Converts a byte count to whole mebibytes, rounded down. A count beyond
/// what 64 bits of mebibytes can hold keeps its low 64 bits.
pub fn bytes_to_mib(bytes: u128) -> (mib: u64)
    ensures
        mib as nat == mib_of(bytes as nat) % 0x1_0000_0000_0000_0000,
        bytes <= u64::MAX ==> mib as nat == mib_of(bytes as nat),
{
    let whole: u128 = bytes / 1_048_576u128;
    let mib: u64 = #[verifier::truncate]
    (whole as u64);
    assert(mib == whole % 0x1_0000_0000_0000_0000) by (bit_vector)
        requires
            mib == whole as u64,
    ;
    mib
}

/// The reading that stands for the outcome of a lookup in the process table:
/// the resident mebibytes of the entry, or zero where none was found.
pub open spec fn reading_of(found: Option<u64>) -> u64 {
    match found {
        Some(bytes) => mib_of(bytes as nat) as u64,
        None => 0,
    }
}

/// Turns the outcome of a lookup into a reading in mebibytes. A process that
/// was not found reads as zero.
pub fn reading_mib(found: Option<u64>) -> (mib: u64)
    ensures
        mib == reading_of(found),
{
    match found {
        Some(bytes) => bytes_to_mib(bytes as u128),
        None => 0,
    }
}

/// Whether insert number `i` is one after which memory is sampled: every
/// multiple of `step`, the first insert included. A cadence of zero samples
/// after the first insert only.
pub open spec fn is_sample_point(i: nat, step: nat) -> bool {
    if step == 0 {
        i == 0
    } else {
        i % step == 0
    }
}

/// The larger of a tracked peak and a new reading.
pub open spec fn raised(peak: u64, reading: u64) -> u64 {
    if reading > peak {
        reading
    } else {
        peak
    }
}

/// The peak after a sequence of readings was folded into `start`, in order.
pub open spec fn peak_over(start: u64, readings: Seq<u64>) -> u64
    decreases readings.len(),
{
    if readings.len() == 0 {
        start
    } else {
        raised(peak_over(start, readings.drop_last()), readings.last())
    }
}

/// Tracks the largest resident-memory reading of one process.
pub struct MemSampler {
    table: System,
    pid: u32,
    peak_mib: u64,
}

impl MemSampler {
    /// The peak tracked so far, in mebibytes.
    pub closed spec fn spec_peak(&self) -> u64 {
        self.peak_mib
    }

    /// The process whose memory is read.
    pub closed spec fn spec_pid(&self) -> u32 {
        self.pid
    }

    /// What the process table holds for the tracked process, as it was last
    /// refreshed: its resident bytes, or nothing where it has no entry.
    pub closed spec fn last_seen(&self) -> Option<u64> {
        entry_of(resident_memory(self.table), self.pid)
    }

    /// Starts tracking process `pid`. The peak starts at a first reading.
    pub fn new_current(pid: u32) -> (sampler: Self)
        ensures
            sampler.pid() == pid,
            sampler.peak() == reading_of(sampler.last_seen()),
    {
        let mut sampler = MemSampler { table: empty_table(), pid, peak_mib: 0 };
        let first: u64 = sampler.current_mib();
        sampler.peak_mib = first;
        sampler
    }

    /// Refreshes the entry of the tracked process and returns the reading of
    /// what the table then holds for it: its resident memory in mebibytes,
    /// or zero where the process is not found. The tracked peak is left as
    /// it is.
    pub fn current_mib(&mut self) -> (mib: u64)
        ensures
            mib == reading_of(final(self).last_seen()),
            final(self).peak() == old(self).peak(),
            final(self).pid() == old(self).pid(),
    {
        refresh_process(&mut self.table, self.pid);
        reading_mib(resident_bytes(&self.table, self.pid))
    }

    /// Folds one reading into the tracked peak. The process table is not
    /// touched.
    pub fn record(&mut self, reading: u64)
        ensures
            final(self).peak() == raised(old(self).peak(), reading),
            final(self).pid() == old(self).pid(),
            final(self).last_seen() == old(self).last_seen(),
    {
        if reading > self.peak_mib {
            self.peak_mib = reading;
        }
    }

    /// Samples after insert number `i` if `i` is a sample point of `step`:
    /// the entry of the tracked process is refreshed and its reading folded
    /// into the peak. Between sample points nothing is read and the peak is
    /// untouched. The peak never decreases.
    pub fn maybe_sample(&mut self, i: usize, step: usize)
        ensures
            is_sample_point(i as nat, step as nat) ==> final(self).peak() == raised(
                old(self).peak(),
                reading_of(final(self).last_seen()),
            ),
            !is_sample_point(i as nat, step as nat) ==> final(self).peak() == old(self).peak()
                && final(self).last_seen() == old(self).last_seen(),
            final(self).peak() >= old(self).peak(),
            final(self).pid() == old(self).pid(),
    {
        if i.is_multiple_of(step) {
            self.update_peak();
        }
    }

    /// Refreshes the entry of the tracked process and raises the tracked
    /// peak to its reading if that is larger. The peak never decreases.
    pub fn update_peak(&mut self)
        ensures
            final(self).peak() == raised(old(self).peak(), reading_of(final(self).last_seen())),
            final(self).peak() >= old(self).peak(),
            final(self).pid() == old(self).pid(),
    {
        let now: u64 = self.current_mib();
        self.record(now);
    }

    /// The peak tracked so far, in mebibytes.
    #[verifier::when_used_as_spec(spec_peak)]
    pub fn peak(&self) -> (mib: u64)
        ensures
            mib == self.peak(),
    {
        self.peak_mib
    }

    /// The process whose memory is read.
    #[verifier::when_used_as_spec(spec_pid)]
    pub fn pid(&self) -> (pid: u32)
        ensures
            pid == self.pid(),
    {
        self.pid
    }
}

/// Folding readings into a peak never lowers it: the peak after any prefix of
/// the readings is at most the peak after all of them.
pub proof fn lemma_peak_never_decreases(start: u64, readings: Seq<u64>, shorter: int)
    requires
        0 <= shorter <= readings.len(),
    ensures
        start <= peak_over(start, readings.take(shorter)) <= peak_over(start, readings),
    decreases readings.len(),
{
    if shorter == readings.len() {
        assert(readings.take(shorter) =~= readings);
        lemma_peak_at_least_start(start, readings);
    } else {
        lemma_peak_never_decreases(start, readings.drop_last(), shorter);
        assert(readings.drop_last().take(shorter) =~= readings.take(shorter));
    }
}

/// The peak after any readings is at least the peak before them.
pub proof fn lemma_peak_at_least_start(start: u64, readings: Seq<u64>)
    ensures
        start <= peak_over(start, readings),
    decreases readings.len(),
{
    if readings.len() > 0 {
        lemma_peak_at_least_start(start, readings.drop_last());
    }
}

/// The peak after some readings is the largest of the start and the readings.
pub proof fn lemma_peak_is_maximum(start: u64, readings: Seq<u64>)
    ensures
        forall|i: int| 0 <= i < readings.len() ==> readings[i] <= peak_over(start, readings),
        peak_over(start, readings) == start || readings.contains(peak_over(start, readings)),
    decreases readings.len(),
{
    if readings.len() > 0 {
        let front = readings.drop_last();
        lemma_peak_is_maximum(start, front);
        assert forall|i: int| 0 <= i < readings.len() implies readings[i] <= peak_over(
            start,
            readings,
        ) by {
            if i < front.len() {
                assert(front[i] == readings[i]);
            }
        }
        if peak_over(start, readings) == readings.last() {
            assert(readings[readings.len() - 1] == readings.last());
        } else if peak_over(start, front) != start {
            let at = choose|at: int| 0 <= at < front.len() && front[at] == peak_over(start, front);
            assert(readings[at] == front[at]);
        }
    }
}

} // verus!
