//! Slow-scan writing: unit by unit, each flushed at once and followed by
//! its pause.
//!
//! `Transcript` is a sink in memory with a clock of its own. It keeps every
//! unit that is written to it together with the time on its clock at which
//! the unit was written, and a pause moves its clock forward.

use crate::config::{delay_intervals, ConfigView, SlowScanConfig};
use crate::duration::{duration_of_nanos, nanos_of, total_nanos, MAX_NANOS};
use crate::encode::encode_char;
use crate::pace::{
    clock_after, clock_never_runs_back, plain_run_time, run_time, ClockOverflow, Pacer,
};
use crate::unit::{class_of, classify, UnitClass};
use std::time::Duration;
use vstd::prelude::*;
use vstd::slice::slice_to_vec;
use vstd::seq_lib::lemma_flatten_concat;
use vstd::utf8::{encode_scalar, encode_utf8};

verus! {

/// Writing with a pause between the units.
pub trait SlowScanWrite {
    /// Why a run can fail.
    type Error;

    /// Writes the chunks in order, each flushed at once and followed by the
    /// base delay; the last one only where the run pauses after its last
    /// unit. The first failure ends the run.
    fn slow_scan_write_by_chunks(&mut self, chunks: &[&[u8]], config: SlowScanConfig) -> Result<
        (),
        Self::Error,
    >;

    /// Writes the characters in order, each encoded in UTF-8, flushed at
    /// once and followed by the delay of its class; the last one only where
    /// the run pauses after its last unit. The first failure ends the run.
    fn slow_scan_write_by_chars(&mut self, chars: &[char], config: SlowScanConfig) -> Result<
        (),
        Self::Error,
    >;
}

/// The units of a run over chunks of bytes: each chunk is a plain unit.
pub open spec fn chunk_units(chunks: Seq<&[u8]>) -> Seq<(UnitClass, Seq<u8>)> {
    Seq::new(chunks.len(), |i: int| (UnitClass::Plain, chunks[i]@))
}

/// The units of a run over characters: each character with its class and
/// its UTF-8 encoding.
pub open spec fn char_units(chars: Seq<char>) -> Seq<(UnitClass, Seq<u8>)> {
    Seq::new(chars.len(), |i: int| (class_of(chars[i]), encode_scalar(chars[i] as u32)))
}

/// The classes of the given units.
pub open spec fn unit_classes(units: Seq<(UnitClass, Seq<u8>)>) -> Seq<UnitClass> {
    Seq::new(units.len(), |i: int| units[i].0)
}

/// The first `k` writes of a run over `units` on a clock that shows `start`
/// when the run starts: each unit's bytes, at the time at which the pauses
/// of the units before it are over.
pub open spec fn run_writes(
    units: Seq<(UnitClass, Seq<u8>)>,
    config: ConfigView,
    start: nat,
    k: nat,
) -> Seq<(nat, Seq<u8>)> {
    Seq::new(
        k,
        |i: int| (start + clock_after(unit_classes(units), config, i as nat), units[i].1),
    )
}

/// The bytes of the given units, in order.
pub open spec fn unit_bytes(units: Seq<(UnitClass, Seq<u8>)>) -> Seq<u8> {
    Seq::new(units.len(), |i: int| units[i].1).flatten()
}

/// One write: the bytes of a unit and the time at which they were written.
#[derive(Debug)]
pub struct TimedWrite {
    /// The time on the sink's clock.
    pub at: Duration,
    /// The bytes of the unit.
    pub bytes: Vec<u8>,
}

impl View for TimedWrite {
    type V = (nat, Seq<u8>);

    open spec fn view(&self) -> (nat, Seq<u8>) {
        (nanos_of(self.at), self.bytes@)
    }
}

/// What a transcript holds: its writes in order, each with its time in
/// nanoseconds, and the time that its clock shows.
pub struct TranscriptView {
    pub writes: Seq<(nat, Seq<u8>)>,
    pub elapsed: nat,
}

impl TranscriptView {
    /// All bytes written, in order.
    pub open spec fn output(self) -> Seq<u8> {
        Seq::new(self.writes.len(), |i: int| self.writes[i].1).flatten()
    }

    /// Whether `after` is this transcript after a whole run over `units`.
    pub open spec fn ran(
        self,
        after: TranscriptView,
        units: Seq<(UnitClass, Seq<u8>)>,
        config: ConfigView,
    ) -> bool {
        &&& after.writes == self.writes + run_writes(units, config, self.elapsed, units.len())
        &&& after.elapsed == self.elapsed + run_time(unit_classes(units), config)
    }

    /// Whether `after` is this transcript after a run over `units` that
    /// ended at unit `k`: the unit was written, and the pause after it
    /// would have moved the clock beyond what a `Duration` holds.
    pub open spec fn stopped_at(
        self,
        after: TranscriptView,
        units: Seq<(UnitClass, Seq<u8>)>,
        config: ConfigView,
        k: int,
    ) -> bool {
        &&& 0 <= k < units.len()
        &&& self.elapsed + clock_after(unit_classes(units), config, k as nat) <= MAX_NANOS
        &&& self.elapsed + clock_after(unit_classes(units), config, (k + 1) as nat) > MAX_NANOS
        &&& after.writes == self.writes + run_writes(units, config, self.elapsed, (k + 1) as nat)
        &&& after.elapsed == self.elapsed + clock_after(unit_classes(units), config, k as nat)
    }

    /// Whether a run over `units` that returned `r` took this transcript to
    /// `after`. It succeeds exactly where the clock can hold the time at
    /// which the run ends, and else stops at the first pause that the clock
    /// cannot hold.
    pub open spec fn runs_to(
        self,
        after: TranscriptView,
        r: Result<(), ClockOverflow>,
        units: Seq<(UnitClass, Seq<u8>)>,
        config: ConfigView,
    ) -> bool {
        &&& r is Ok <==> self.elapsed + run_time(unit_classes(units), config) <= MAX_NANOS
        &&& match r {
            Ok(_) => self.ran(after, units, config),
            Err(_) => exists|k: int| #[trigger] self.stopped_at(after, units, config, k),
        }
    }
}

/// A run over chunks takes one base delay for each of its pauses: as many
/// as it has chunks where it pauses after the last one, and one fewer where
/// it does not.
pub proof fn chunk_run_time(chunks: Seq<&[u8]>, config: ConfigView)
    ensures
        run_time(unit_classes(chunk_units(chunks)), config) == delay_intervals(
            chunks.len(),
            config.tail_delay,
        ) * config.base_delay,
{
    plain_run_time(unit_classes(chunk_units(chunks)), config);
}

/// A whole run appends the bytes of its units to the output, in the order
/// of the units.
pub proof fn run_keeps_order(
    before: TranscriptView,
    after: TranscriptView,
    units: Seq<(UnitClass, Seq<u8>)>,
    config: ConfigView,
)
    requires
        before.ran(after, units, config),
    ensures
        after.output() == before.output() + unit_bytes(units),
{
    let old_parts = Seq::new(before.writes.len(), |i: int| before.writes[i].1);
    let new_parts = Seq::new(units.len(), |i: int| units[i].1);
    let all_parts = Seq::new(after.writes.len(), |i: int| after.writes[i].1);
    assert(all_parts =~= old_parts + new_parts);
    lemma_flatten_concat(old_parts, new_parts);
}

/// The bytes of a run over characters are the UTF-8 encoding of the
/// characters.
pub proof fn char_units_encode_utf8(chars: Seq<char>)
    ensures
        unit_bytes(char_units(chars)) == encode_utf8(chars),
    decreases chars.len(),
{
    let parts = Seq::new(chars.len(), |i: int| char_units(chars)[i].1);
    if chars.len() > 0 {
        let rest = chars.drop_first();
        char_units_encode_utf8(rest);
        let rest_parts = Seq::new(rest.len(), |i: int| char_units(rest)[i].1);
        assert(parts.drop_first() =~= rest_parts);
    }
    assert(unit_bytes(char_units(chars)) =~= encode_utf8(chars));
}

/// A sink in memory that records what is written to it and when.
#[derive(Debug)]
pub struct Transcript {
    writes: Vec<TimedWrite>,
    elapsed: Duration,
}

impl View for Transcript {
    type V = TranscriptView;

    closed spec fn view(&self) -> TranscriptView {
        TranscriptView {
            writes: Seq::new(self.writes@.len(), |i: int| self.writes@[i]@),
            elapsed: nanos_of(self.elapsed),
        }
    }
}

impl Transcript {
    /// An empty transcript whose clock shows zero.
    pub fn new() -> (transcript: Transcript)
        ensures
            transcript@ == (TranscriptView { writes: Seq::empty(), elapsed: 0 }),
    {
        let transcript = Transcript { writes: Vec::new(), elapsed: duration_of_nanos(0) };
        assert(transcript@.writes =~= Seq::empty());
        transcript
    }

    /// The time that the clock shows.
    pub fn elapsed(&self) -> (d: Duration)
        ensures
            nanos_of(d) == self@.elapsed,
    {
        self.elapsed
    }

    /// The number of writes.
    pub fn len(&self) -> (count: usize)
        ensures
            count == self@.writes.len(),
    {
        self.writes.len()
    }

    /// The write at position `i`, if there is one.
    pub fn get(&self, i: usize) -> (write: Option<&TimedWrite>)
        ensures
            match write {
                Some(w) => i < self@.writes.len() && w@ == self@.writes[i as int],
                None => i >= self@.writes.len(),
            },
    {
        if i < self.writes.len() {
            Some(&self.writes[i])
        } else {
            None
        }
    }

    /// All bytes written, in order.
    pub fn output(&self) -> (bytes: Vec<u8>)
        ensures
            bytes@ == self@.output(),
    {
        let mut bytes: Vec<u8> = Vec::new();
        let ghost parts: Seq<Seq<u8>> = Seq::new(self@.writes.len(), |i: int| self@.writes[i].1);
        let mut i: usize = 0;
        while i < self.writes.len()
            invariant
                i <= self.writes@.len(),
                parts == Seq::new(self@.writes.len(), |i: int| self@.writes[i].1),
                bytes@ == parts.take(i as int).flatten(),
            decreases self.writes@.len() - i,
        {
            let mut chunk: Vec<u8> = slice_to_vec(self.writes[i].bytes.as_slice());
            proof {
                parts.take(i as int).lemma_flatten_push(parts[i as int]);
                assert(parts.take(i as int).push(parts[i as int]) =~= parts.take(i + 1));
            }
            bytes.append(&mut chunk);
            i = i + 1;
        }
        assert(parts.take(i as int) =~= parts);
        bytes
    }

    /// Writes one unit at the time that `pacer` shows, and lets `pacer`
    /// decide the pause after it.
    fn write_unit(
        &mut self,
        pacer: &mut Pacer,
        class: UnitClass,
        bytes: Vec<u8>,
        has_next: bool,
    ) -> (r: Result<(), ClockOverflow>)
        ensures
            final(self)@.writes == old(self)@.writes.push((old(pacer).elapsed(), bytes@)),
            final(self)@.elapsed == old(self)@.elapsed,
            final(pacer).config() == old(pacer).config(),
            match old(pacer).next_elapsed(class, has_next) {
                Some(deadline) => r is Ok && final(pacer).elapsed() == deadline,
                None => r is Err && final(pacer).elapsed() == old(pacer).elapsed(),
            },
    {
        self.writes.push(TimedWrite { at: pacer.deadline(), bytes });
        assert(self@.writes =~= old(self)@.writes.push((old(pacer).elapsed(), bytes@)));
        match pacer.pause_after(class, has_next) {
            Ok(_) => Ok(()),
            Err(overflow) => Err(overflow),
        }
    }
}

impl SlowScanWrite for Transcript {
    type Error = ClockOverflow;

    /// Records the chunks in order, each at the time at which the pauses of
    /// the chunks before it are over, and moves the clock to the end of the
    /// run.
    fn slow_scan_write_by_chunks(&mut self, chunks: &[&[u8]], config: SlowScanConfig) -> (r:
        Result<(), ClockOverflow>)
        ensures
            old(self)@.runs_to(final(self)@, r, chunk_units(chunks@), config@),
            chunks@.len() == 0 ==> r is Ok && final(self)@ == old(self)@,
    {
        let ghost before = self@;
        let ghost units = chunk_units(chunks@);
        let ghost classes = unit_classes(units);
        let start: u128 = total_nanos(self.elapsed);
        let mut pacer = Pacer::starting_at(config, self.elapsed);
        let count: usize = chunks.len();
        let mut i: usize = 0;
        while i < count
            invariant
                count == chunks@.len(),
                i <= count,
                units == chunk_units(chunks@),
                classes == unit_classes(units),
                before == old(self)@,
                before.elapsed == start,
                pacer.config() == config,
                pacer.elapsed() == start + clock_after(classes, config@, i as nat),
                pacer.elapsed() <= MAX_NANOS,
                self@.elapsed == start,
                self@.writes == before.writes + run_writes(units, config@, start as nat, i as nat),
            decreases count - i,
        {
            let bytes: Vec<u8> = slice_to_vec(chunks[i]);
            match self.write_unit(&mut pacer, UnitClass::Plain, bytes, i + 1 < count) {
                Ok(_) => {},
                Err(overflow) => {
                    self.elapsed = pacer.deadline();
                    proof {
                        assert(self@.writes =~= before.writes + run_writes(
                            units,
                            config@,
                            start as nat,
                            (i + 1) as nat,
                        ));
                        clock_never_runs_back(classes, config@, (i + 1) as nat, count as nat);
                        assert(before.stopped_at(self@, units, config@, i as int));
                        assert(classes.len() == count);
                        assert(start + run_time(classes, config@) > MAX_NANOS);
                    }
                    return Err(overflow);
                },
            }
            assert(self@.writes =~= before.writes + run_writes(
                units,
                config@,
                start as nat,
                (i + 1) as nat,
            ));
            i = i + 1;
        }
        self.elapsed = pacer.deadline();
        Ok(())
    }

    /// Records the characters in order, each encoded in UTF-8 at the time
    /// at which the pauses of the characters before it are over, and moves
    /// the clock to the end of the run.
    fn slow_scan_write_by_chars(&mut self, chars: &[char], config: SlowScanConfig) -> (r: Result<
        (),
        ClockOverflow,
    >)
        ensures
            old(self)@.runs_to(final(self)@, r, char_units(chars@), config@),
            chars@.len() == 0 ==> r is Ok && final(self)@ == old(self)@,
    {
        let ghost before = self@;
        let ghost units = char_units(chars@);
        let ghost classes = unit_classes(units);
        let start: u128 = total_nanos(self.elapsed);
        let mut pacer = Pacer::starting_at(config, self.elapsed);
        let count: usize = chars.len();
        let mut i: usize = 0;
        while i < count
            invariant
                count == chars@.len(),
                i <= count,
                units == char_units(chars@),
                classes == unit_classes(units),
                before == old(self)@,
                before.elapsed == start,
                pacer.config() == config,
                pacer.elapsed() == start + clock_after(classes, config@, i as nat),
                pacer.elapsed() <= MAX_NANOS,
                self@.elapsed == start,
                self@.writes == before.writes + run_writes(units, config@, start as nat, i as nat),
            decreases count - i,
        {
            let class: UnitClass = classify(chars[i]);
            let bytes: Vec<u8> = encode_char(chars[i]);
            match self.write_unit(&mut pacer, class, bytes, i + 1 < count) {
                Ok(_) => {},
                Err(overflow) => {
                    self.elapsed = pacer.deadline();
                    proof {
                        assert(self@.writes =~= before.writes + run_writes(
                            units,
                            config@,
                            start as nat,
                            (i + 1) as nat,
                        ));
                        clock_never_runs_back(classes, config@, (i + 1) as nat, count as nat);
                        assert(before.stopped_at(self@, units, config@, i as int));
                        assert(classes.len() == count);
                        assert(start + run_time(classes, config@) > MAX_NANOS);
                    }
                    return Err(overflow);
                },
            }
            assert(self@.writes =~= before.writes + run_writes(
                units,
                config@,
                start as nat,
                (i + 1) as nat,
            ));
            i = i + 1;
        }
        self.elapsed = pacer.deadline();
        Ok(())
    }
}

} // verus!
