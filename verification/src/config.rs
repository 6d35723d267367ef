//! The tunables of one slow-scan run.

use crate::duration::{duration_of_nanos, nanos_of, total_nanos};
use crate::unit::UnitClass;
use std::time::Duration;
use vstd::prelude::*;

verus! {

/// What a `SlowScanConfig` holds, with each delay in nanoseconds.
pub struct ConfigView {
    pub base_delay: nat,
    pub full_width_delay: nat,
    pub control_char_delay: nat,
    pub tail_delay: bool,
}

/// The number of pauses in a run over `chunk_count` units: one after each
/// unit, but after the last one only with `tail_delay`.
pub open spec fn delay_intervals(chunk_count: nat, tail_delay: bool) -> nat {
    if tail_delay {
        chunk_count
    } else if chunk_count > 0 {
        (chunk_count - 1) as nat
    } else {
        0
    }
}

/// The pause, in nanoseconds, that spreads `total` nanoseconds evenly over
/// the pauses of a run over `chunk_count` units; zero where the run has no
/// pause.
pub open spec fn base_delay_for_total(total: nat, chunk_count: nat, tail_delay: bool) -> nat {
    let intervals = delay_intervals(chunk_count, tail_delay);
    if intervals == 0 {
        0
    } else {
        total / intervals
    }
}

/// The pause, in nanoseconds, that follows a unit of the given class.
pub open spec fn delay_for(class: UnitClass, config: ConfigView) -> nat {
    match class {
        UnitClass::Plain => config.base_delay,
        UnitClass::Wide => config.full_width_delay,
        UnitClass::Control => config.control_char_delay,
    }
}

/// How long to pause after each kind of unit, and whether to pause after the
/// last unit of a run. Every combination of values is valid; a zero delay
/// means no pause.
#[derive(Debug, Clone, Copy)]
pub struct SlowScanConfig {
    base_delay: Duration,
    full_width_delay: Duration,
    control_char_delay: Duration,
    tail_delay: bool,
}

impl View for SlowScanConfig {
    type V = ConfigView;

    open spec fn view(&self) -> ConfigView {
        ConfigView {
            base_delay: nanos_of(self.spec_base_delay()),
            full_width_delay: nanos_of(self.spec_full_width_delay()),
            control_char_delay: nanos_of(self.spec_control_char_delay()),
            tail_delay: self.spec_tail_delay(),
        }
    }
}

impl SlowScanConfig {
    /// The pause after a half-width unit.
    pub closed spec fn spec_base_delay(&self) -> Duration {
        self.base_delay
    }

    /// The pause after a full-width character.
    pub closed spec fn spec_full_width_delay(&self) -> Duration {
        self.full_width_delay
    }

    /// The pause after a control character.
    pub closed spec fn spec_control_char_delay(&self) -> Duration {
        self.control_char_delay
    }

    /// Whether the run pauses after its last unit.
    pub closed spec fn spec_tail_delay(&self) -> bool {
        self.tail_delay
    }

    /// The delay that applies to a unit of the given class.
    pub open spec fn spec_delay_of(&self, class: UnitClass) -> Duration {
        match class {
            UnitClass::Plain => self.spec_base_delay(),
            UnitClass::Wide => self.spec_full_width_delay(),
            UnitClass::Control => self.spec_control_char_delay(),
        }
    }

    /// The delay that applies to a unit of the given class.
    pub fn delay_of(&self, class: UnitClass) -> (d: Duration)
        ensures
            d == self.spec_delay_of(class),
            nanos_of(d) == delay_for(class, self@),
    {
        match class {
            UnitClass::Plain => self.base_delay,
            UnitClass::Wide => self.full_width_delay,
            UnitClass::Control => self.control_char_delay,
        }
    }

    /// The pause after a half-width unit.
    pub fn base_delay(&self) -> (d: &Duration)
        ensures
            *d == self.spec_base_delay(),
    {
        &self.base_delay
    }

    /// The pause after a full-width character.
    pub fn full_width_delay(&self) -> (d: &Duration)
        ensures
            *d == self.spec_full_width_delay(),
    {
        &self.full_width_delay
    }

    /// The pause after a control character.
    pub fn control_char_delay(&self) -> (d: &Duration)
        ensures
            *d == self.spec_control_char_delay(),
    {
        &self.control_char_delay
    }

    /// Whether the run pauses after its last unit.
    pub fn tail_delay(&self) -> (tail: &bool)
        ensures
            *tail == self.spec_tail_delay(),
    {
        &self.tail_delay
    }

    /// Sets the pause after a half-width unit and leaves the rest.
    pub fn set_base_delay(&mut self, val: Duration) -> (this: &mut Self)
        ensures
            this.spec_base_delay() == val,
            this.spec_full_width_delay() == old(self).spec_full_width_delay(),
            this.spec_control_char_delay() == old(self).spec_control_char_delay(),
            this.spec_tail_delay() == old(self).spec_tail_delay(),
            *final(self) == *final(this),
    {
        self.base_delay = val;
        self
    }

    /// Sets the pause after a full-width character and leaves the rest.
    pub fn set_full_width_delay(&mut self, val: Duration) -> (this: &mut Self)
        ensures
            this.spec_base_delay() == old(self).spec_base_delay(),
            this.spec_full_width_delay() == val,
            this.spec_control_char_delay() == old(self).spec_control_char_delay(),
            this.spec_tail_delay() == old(self).spec_tail_delay(),
            *final(self) == *final(this),
    {
        self.full_width_delay = val;
        self
    }

    /// Sets the pause after a control character and leaves the rest.
    pub fn set_control_char_delay(&mut self, val: Duration) -> (this: &mut Self)
        ensures
            this.spec_base_delay() == old(self).spec_base_delay(),
            this.spec_full_width_delay() == old(self).spec_full_width_delay(),
            this.spec_control_char_delay() == val,
            this.spec_tail_delay() == old(self).spec_tail_delay(),
            *final(self) == *final(this),
    {
        self.control_char_delay = val;
        self
    }

    /// Sets whether the run pauses after its last unit and leaves the rest.
    pub fn set_tail_delay(&mut self, val: bool) -> (this: &mut Self)
        ensures
            this.spec_base_delay() == old(self).spec_base_delay(),
            this.spec_full_width_delay() == old(self).spec_full_width_delay(),
            this.spec_control_char_delay() == old(self).spec_control_char_delay(),
            this.spec_tail_delay() == val,
            *final(self) == *final(this),
    {
        self.tail_delay = val;
        self
    }

    /// Sets the base delay so that a run over `chunk_count` units takes
    /// `expectation` in all: the expected total divided by the number of
    /// pauses, rounded down to a nanosecond, or zero where the run has no
    /// pause. The other settings stay as they are.
    pub fn set_base_delay_from_expected_total_duration(
        &mut self,
        expectation: Duration,
        chunk_count: u32,
    ) -> (this: &mut Self)
        ensures
            this@.base_delay == base_delay_for_total(
                nanos_of(expectation),
                chunk_count as nat,
                old(self).spec_tail_delay(),
            ),
            this.spec_full_width_delay() == old(self).spec_full_width_delay(),
            this.spec_control_char_delay() == old(self).spec_control_char_delay(),
            this.spec_tail_delay() == old(self).spec_tail_delay(),
            *final(self) == *final(this),
    {
        let delay_count: u32 = if self.tail_delay {
            chunk_count
        } else {
            chunk_count.saturating_sub(1)
        };
        if delay_count > 0 {
            let total: u128 = total_nanos(expectation);
            self.base_delay = duration_of_nanos(total / (delay_count as u128));
        } else {
            self.base_delay = duration_of_nanos(0);
        }
        self
    }
}

impl Default for SlowScanConfig {
    /// 20 ms after a half-width unit, 40 ms after a full-width character,
    /// nothing after a control character, and no pause after the last unit.
    fn default() -> (config: Self)
        ensures
            config@ == (ConfigView {
                base_delay: 20_000_000,
                full_width_delay: 40_000_000,
                control_char_delay: 0,
                tail_delay: false,
            }),
    {
        SlowScanConfig {
            base_delay: duration_of_nanos(20_000_000),
            full_width_delay: duration_of_nanos(40_000_000),
            control_char_delay: duration_of_nanos(0),
            tail_delay: false,
        }
    }
}

} // verus!
