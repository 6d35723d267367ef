//! The timing of a slow-scan run: which pause follows each unit, and when
//! on the run's clock each pause ends.
//!
//! The clock starts at zero when the run starts and counts nanoseconds. Each
//! pause moves a deadline forward by the unit's delay, and the writer waits
//! until the clock reaches that deadline. The time that writing and flushing
//! take therefore shortens the wait that follows and never adds up over the
//! run.

use crate::config::{
    base_delay_for_total, delay_for, delay_intervals, ConfigView, SlowScanConfig,
};
use crate::duration::{duration_of_nanos, nanos_of, total_nanos, MAX_NANOS};
use crate::unit::{class_of, classify, UnitClass};
use std::time::Duration;
use vstd::prelude::*;

verus! {

/// The pause that follows a unit: its class's delay where another unit
/// follows or the run pauses after its last unit, and none otherwise.
pub open spec fn pause_for(class: UnitClass, has_next: bool, config: ConfigView) -> Option<nat> {
    if has_next || config.tail_delay {
        Some(delay_for(class, config))
    } else {
        None
    }
}

/// The pause that follows unit `i` of a run over `classes`.
pub open spec fn pause_at(classes: Seq<UnitClass>, config: ConfigView, i: int) -> Option<nat> {
    pause_for(classes[i], i + 1 < classes.len(), config)
}

/// The length of a pause, where none counts as zero.
pub open spec fn pause_len(pause: Option<nat>) -> nat {
    match pause {
        Some(d) => d,
        None => 0,
    }
}

/// The deadline on the run's clock once the first `k` units of a run over
/// `classes` are written and their pauses are over.
pub open spec fn clock_after(classes: Seq<UnitClass>, config: ConfigView, k: nat) -> nat
    decreases k,
{
    if k == 0 {
        0
    } else {
        clock_after(classes, config, (k - 1) as nat) + pause_len(
            pause_at(classes, config, k - 1),
        )
    }
}

/// The time that a whole run over `classes` takes on its clock.
pub open spec fn run_time(classes: Seq<UnitClass>, config: ConfigView) -> nat {
    clock_after(classes, config, classes.len())
}

/// The deadline would lie beyond the longest time that a `Duration` holds.
#[derive(Debug, Clone, Copy, PartialEq, Eq, Structural)]
pub struct ClockOverflow;

/// Keeps the deadline of a run while its units are written one by one.
#[derive(Debug, Clone, Copy)]
pub struct Pacer {
    config: SlowScanConfig,
    deadline: Duration,
}

impl Pacer {
    /// The configuration of the run.
    pub closed spec fn config(&self) -> SlowScanConfig {
        self.config
    }

    /// The current deadline, in nanoseconds since the run started.
    pub closed spec fn elapsed(&self) -> nat {
        nanos_of(self.deadline)
    }

    /// The deadline after the step for a unit of class `class`: moved
    /// forward by the unit's pause where one is due, and `None` where that
    /// is beyond what a `Duration` holds.
    pub open spec fn next_elapsed(self, class: UnitClass, has_next: bool) -> Option<nat> {
        match pause_for(class, has_next, self.config()@) {
            None => Some(self.elapsed()),
            Some(delay) => if self.elapsed() + delay <= MAX_NANOS {
                Some(self.elapsed() + delay)
            } else {
                None
            },
        }
    }

    /// What one step owes. The configuration stays. Where a pause is due
    /// and the deadline moved forward by its delay still fits in a
    /// `Duration`, the answer is that new deadline, which `after` holds;
    /// where it does not fit, the answer is the overflow and the deadline
    /// stays; where no pause is due, the answer is `None` and the deadline
    /// stays.
    pub open spec fn paces(
        self,
        after: Pacer,
        class: UnitClass,
        has_next: bool,
        r: Result<Option<Duration>, ClockOverflow>,
    ) -> bool {
        &&& after.config() == self.config()
        &&& match self.next_elapsed(class, has_next) {
            None => r == Err::<Option<Duration>, ClockOverflow>(ClockOverflow) && after.elapsed()
                == self.elapsed(),
            Some(deadline) => {
                &&& after.elapsed() == deadline
                &&& match pause_for(class, has_next, self.config()@) {
                    None => r == Ok::<Option<Duration>, ClockOverflow>(None),
                    Some(_) => r matches Ok(Some(until)) && nanos_of(until) == deadline,
                }
            },
        }
    }

    /// A pacer at the start of a run: its deadline is the start itself.
    pub fn new(config: SlowScanConfig) -> (pacer: Pacer)
        ensures
            pacer.config() == config,
            pacer.elapsed() == 0,
    {
        Pacer { config, deadline: duration_of_nanos(0) }
    }

    /// A pacer for a run on a clock that shows `deadline` already.
    pub fn starting_at(config: SlowScanConfig, deadline: Duration) -> (pacer: Pacer)
        ensures
            pacer.config() == config,
            pacer.elapsed() == nanos_of(deadline),
    {
        Pacer { config, deadline }
    }

    /// The current deadline, as the time since the run started.
    pub fn deadline(&self) -> (d: Duration)
        ensures
            nanos_of(d) == self.elapsed(),
    {
        self.deadline
    }

    /// Decides the pause that follows a unit of class `class` which has just
    /// been written and flushed; `has_next` says whether another unit
    /// follows it. Where a pause is due, the deadline moves forward by the
    /// delay of the class and is returned: the writer waits until the run's
    /// clock reaches it. Where none is due, the answer is `None` and the
    /// deadline stays. Where the new deadline would not fit in a `Duration`,
    /// the call fails and changes nothing.
    pub fn pause_after(&mut self, class: UnitClass, has_next: bool) -> (r: Result<
        Option<Duration>,
        ClockOverflow,
    >)
        ensures
            old(self).paces(*final(self), class, has_next, r),
    {
        if has_next || *self.config.tail_delay() {
            let delay: u128 = total_nanos(self.config.delay_of(class));
            let now: u128 = total_nanos(self.deadline);
            if delay <= MAX_NANOS - now {
                let until = duration_of_nanos(now + delay);
                self.deadline = until;
                Ok(Some(until))
            } else {
                Err(ClockOverflow)
            }
        } else {
            Ok(None)
        }
    }

    /// Decides the pause that follows a chunk of bytes: a chunk is paced as
    /// a plain unit.
    pub fn pause_after_chunk(&mut self, has_next: bool) -> (r: Result<
        Option<Duration>,
        ClockOverflow,
    >)
        ensures
            old(self).paces(*final(self), UnitClass::Plain, has_next, r),
    {
        self.pause_after(UnitClass::Plain, has_next)
    }

    /// Decides the pause that follows a character, by the character's class.
    pub fn pause_after_char(&mut self, ch: char, has_next: bool) -> (r: Result<
        Option<Duration>,
        ClockOverflow,
    >)
        ensures
            old(self).paces(*final(self), class_of(ch), has_next, r),
    {
        self.pause_after(classify(ch), has_next)
    }
}

/// How long to wait at time `now` of the run's clock for a deadline: the
/// time that is left until it, or nothing where it has passed already.
pub open spec fn wait_for(deadline: nat, now: nat) -> nat {
    if deadline >= now {
        (deadline - now) as nat
    } else {
        0
    }
}

/// How long to wait at time `now` of the run's clock for the deadline.
pub fn remaining_wait(deadline: Duration, now: Duration) -> (wait: Duration)
    ensures
        nanos_of(wait) == wait_for(nanos_of(deadline), nanos_of(now)),
{
    let target: u128 = total_nanos(deadline);
    let current: u128 = total_nanos(now);
    if target >= current {
        duration_of_nanos(target - current)
    } else {
        duration_of_nanos(0)
    }
}

/// A wait ends at its deadline, however late it starts: what the writing
/// before it took is taken off the wait, so that no delay is passed on to
/// the pauses that follow. Only a wait that starts after its deadline ends
/// late, and then it ends at once.
pub proof fn wait_ends_at_deadline(deadline: nat, now: nat)
    ensures
        now + wait_for(deadline, now) == if deadline >= now {
            deadline
        } else {
            now
        },
{
}

/// The deadline never moves back: after more units it is no earlier.
pub proof fn clock_never_runs_back(classes: Seq<UnitClass>, config: ConfigView, a: nat, b: nat)
    requires
        a <= b,
    ensures
        clock_after(classes, config, a) <= clock_after(classes, config, b),
    decreases b,
{
    if a < b {
        clock_never_runs_back(classes, config, a, (b - 1) as nat);
    }
}

/// Before the last unit of a run over plain units, every unit is followed by
/// the base delay: after `k` of them the deadline is `k` base delays.
proof fn plain_prefix_time(classes: Seq<UnitClass>, config: ConfigView, k: nat)
    requires
        k < classes.len(),
        forall|i: int| 0 <= i < classes.len() ==> classes[i] == UnitClass::Plain,
    ensures
        clock_after(classes, config, k) == k * config.base_delay,
    decreases k,
{
    if k > 0 {
        plain_prefix_time(classes, config, (k - 1) as nat);
        assert(k * config.base_delay == (k - 1) * config.base_delay + config.base_delay)
            by (nonlinear_arith);
    } else {
        assert(0 * config.base_delay == 0) by (nonlinear_arith);
    }
}

/// A run over no units takes no time, whatever the configuration.
pub proof fn empty_run_takes_no_time(config: ConfigView)
    ensures
        run_time(Seq::<UnitClass>::empty(), config) == 0,
{
}

/// A run over plain units takes one base delay for each of its pauses:
/// as many as it has units where it pauses after the last one, and one
/// fewer where it does not.
pub proof fn plain_run_time(classes: Seq<UnitClass>, config: ConfigView)
    requires
        forall|i: int| 0 <= i < classes.len() ==> classes[i] == UnitClass::Plain,
    ensures
        run_time(classes, config) == delay_intervals(classes.len(), config.tail_delay)
            * config.base_delay,
{
    let n = classes.len();
    if n > 0 {
        plain_prefix_time(classes, config, (n - 1) as nat);
        assert(n * config.base_delay == (n - 1) * config.base_delay + config.base_delay)
            by (nonlinear_arith);
    }
}

/// The pause after the last unit is all that the tail delay adds: with it a
/// run takes the delay of its last unit longer than without it.
pub proof fn tail_delay_adds_last_pause(classes: Seq<UnitClass>, config: ConfigView)
    requires
        classes.len() > 0,
    ensures
        run_time(classes, ConfigView { tail_delay: true, ..config }) == run_time(
            classes,
            ConfigView { tail_delay: false, ..config },
        ) + delay_for(classes.last(), config),
{
    let with_tail = ConfigView { tail_delay: true, ..config };
    let without = ConfigView { tail_delay: false, ..config };
    same_time_before_last(classes, with_tail, without, (classes.len() - 1) as nat);
}

/// Two configurations with the same delays give the same deadlines up to the
/// last unit of a run, whatever their tail delays.
proof fn same_time_before_last(
    classes: Seq<UnitClass>,
    a: ConfigView,
    b: ConfigView,
    k: nat,
)
    requires
        k < classes.len(),
        a.base_delay == b.base_delay,
        a.full_width_delay == b.full_width_delay,
        a.control_char_delay == b.control_char_delay,
    ensures
        clock_after(classes, a, k) == clock_after(classes, b, k),
    decreases k,
{
    if k > 0 {
        same_time_before_last(classes, a, b, (k - 1) as nat);
    }
}

/// A base delay derived from an expected total makes a run over plain units
/// end within that total, and short of it by less than one nanosecond for
/// each pause.
pub proof fn derived_delay_meets_total(total: nat, classes: Seq<UnitClass>, config: ConfigView)
    requires
        forall|i: int| 0 <= i < classes.len() ==> classes[i] == UnitClass::Plain,
        config.base_delay == base_delay_for_total(total, classes.len(), config.tail_delay),
        delay_intervals(classes.len(), config.tail_delay) > 0,
    ensures
        run_time(classes, config) <= total,
        total < run_time(classes, config) + delay_intervals(classes.len(), config.tail_delay),
{
    plain_run_time(classes, config);
    let k = delay_intervals(classes.len(), config.tail_delay);
    assert(k * (total / k) <= total < k * (total / k) + k) by (nonlinear_arith)
        requires
            k > 0,
    ;
}

} // verus!
