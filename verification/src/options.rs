//! Building a configuration from the texts of the delay options.

use crate::config::SlowScanConfig;
use crate::duration::{duration_of_nanos, nanos_of, total_nanos, MAX_NANOS};
use std::time::Duration;
use vstd::prelude::*;

verus! {

/// The duration that a text denotes in the notation of the `duration-str`
/// crate (`20ms`, `1m30s`, `2 * 3s`), or `None` where the text denotes none.
pub uninterp spec fn parsed_duration(text: Seq<char>) -> Option<Duration>;

/// `duration_str::parse_std`. The crate refuses the empty text, and builds
/// every duration that it returns from a count of nanoseconds that fits in
/// 64 bits.
#[verifier::external_body]
fn parse_std(text: &str) -> (parsed: Option<Duration>)
    ensures
        parsed == parsed_duration(text@),
        text@.len() == 0 ==> parsed is None,
        parsed matches Some(d) ==> nanos_of(d) <= u64::MAX,
{
    duration_str::parse_std(text).ok()
}

/// The delay options of a configuration.
#[derive(Debug, Clone, Copy, PartialEq, Eq, Structural)]
pub enum DelayOption {
    /// The base delay.
    Delay,
    /// The delay after a full-width character.
    FullWidthDelay,
    /// The delay after a control character.
    ControlCharDelay,
}

/// Why no configuration could be built.
#[derive(Debug, Clone, Copy, PartialEq, Eq, Structural)]
pub enum OptionsError {
    /// The text of this option denotes no duration.
    NotADuration(DelayOption),
    /// No full-width delay was given, and twice the base delay is longer
    /// than a `Duration` holds.
    FullWidthDelayOverflow,
}

/// Whether `config` is the configuration of the given delays. A full-width
/// delay that is not given is twice the base delay, and a control-character
/// delay that is not given is zero.
pub open spec fn is_config_of(
    config: SlowScanConfig,
    delay: Duration,
    full_width_delay: Option<Duration>,
    control_char_delay: Option<Duration>,
    tail_delay: bool,
) -> bool {
    &&& config.spec_base_delay() == delay
    &&& match full_width_delay {
        Some(d) => config.spec_full_width_delay() == d,
        None => config@.full_width_delay == 2 * nanos_of(delay),
    }
    &&& match control_char_delay {
        Some(d) => config.spec_control_char_delay() == d,
        None => config@.control_char_delay == 0,
    }
    &&& config.spec_tail_delay() == tail_delay
}

/// Whether `r` is what the given delays lead to: their configuration, or
/// the overflow where the full-width delay has to be derived and does not
/// fit.
pub open spec fn is_result_of_delays(
    r: Result<SlowScanConfig, OptionsError>,
    delay: Duration,
    full_width_delay: Option<Duration>,
    control_char_delay: Option<Duration>,
    tail_delay: bool,
) -> bool {
    if full_width_delay is None && 2 * nanos_of(delay) > MAX_NANOS {
        r == Err::<SlowScanConfig, OptionsError>(OptionsError::FullWidthDelayOverflow)
    } else {
        r matches Ok(config) && is_config_of(
            config,
            delay,
            full_width_delay,
            control_char_delay,
            tail_delay,
        )
    }
}

/// Whether `r` is what the parsed options lead to. For the base delay the
/// argument is what its text denotes; for the other two it is `None` where
/// the option was not given. The first option in the order base, full
/// width, control character whose text denotes no duration is reported.
pub open spec fn is_result_of_parsed(
    r: Result<SlowScanConfig, OptionsError>,
    delay: Option<Duration>,
    full_width_delay: Option<Option<Duration>>,
    control_char_delay: Option<Option<Duration>>,
    tail_delay: bool,
) -> bool {
    if delay is None {
        r == Err::<SlowScanConfig, OptionsError>(OptionsError::NotADuration(DelayOption::Delay))
    } else if full_width_delay == Some(None::<Duration>) {
        r == Err::<SlowScanConfig, OptionsError>(
            OptionsError::NotADuration(DelayOption::FullWidthDelay),
        )
    } else if control_char_delay == Some(None::<Duration>) {
        r == Err::<SlowScanConfig, OptionsError>(
            OptionsError::NotADuration(DelayOption::ControlCharDelay),
        )
    } else {
        is_result_of_delays(
            r,
            delay->0,
            match full_width_delay {
                Some(d) => d,
                None => None,
            },
            match control_char_delay {
                Some(d) => d,
                None => None,
            },
            tail_delay,
        )
    }
}

/// What an optional text denotes: nothing where there is no text.
pub open spec fn parsed_option(text: Option<&str>) -> Option<Option<Duration>> {
    match text {
        Some(t) => Some(parsed_duration(t@)),
        None => None,
    }
}

/// Twice the given duration, or `None` where that is longer than a
/// `Duration` holds.
pub fn doubled(d: Duration) -> (twice: Option<Duration>)
    ensures
        match twice {
            Some(t) => nanos_of(t) == 2 * nanos_of(d) <= MAX_NANOS,
            None => 2 * nanos_of(d) > MAX_NANOS,
        },
{
    let n: u128 = total_nanos(d);
    if n <= MAX_NANOS - n {
        Some(duration_of_nanos(n + n))
    } else {
        None
    }
}

/// The configuration with the given delays. Without a full-width delay it
/// takes twice the base delay, and without a control-character delay none
/// at all.
pub fn config_from_delays(
    delay: Duration,
    full_width_delay: Option<Duration>,
    control_char_delay: Option<Duration>,
    tail_delay: bool,
) -> (r: Result<SlowScanConfig, OptionsError>)
    ensures
        is_result_of_delays(r, delay, full_width_delay, control_char_delay, tail_delay),
{
    let full: Duration = match full_width_delay {
        Some(d) => d,
        None => match doubled(delay) {
            Some(d) => d,
            None => {
                return Err(OptionsError::FullWidthDelayOverflow);
            },
        },
    };
    let control: Duration = match control_char_delay {
        Some(d) => d,
        None => duration_of_nanos(0),
    };
    let mut config = SlowScanConfig::default();
    config.set_base_delay(delay).set_full_width_delay(full);
    config.set_control_char_delay(control).set_tail_delay(tail_delay);
    Ok(config)
}

/// The configuration of options that have been parsed already: each
/// argument is what the text of its option denotes.
pub fn config_from_parsed(
    delay: Option<Duration>,
    full_width_delay: Option<Option<Duration>>,
    control_char_delay: Option<Option<Duration>>,
    tail_delay: bool,
) -> (r: Result<SlowScanConfig, OptionsError>)
    ensures
        is_result_of_parsed(r, delay, full_width_delay, control_char_delay, tail_delay),
{
    let base: Duration = match delay {
        Some(d) => d,
        None => {
            return Err(OptionsError::NotADuration(DelayOption::Delay));
        },
    };
    let full: Option<Duration> = match full_width_delay {
        Some(None) => {
            return Err(OptionsError::NotADuration(DelayOption::FullWidthDelay));
        },
        Some(Some(d)) => Some(d),
        None => None,
    };
    let control: Option<Duration> = match control_char_delay {
        Some(None) => {
            return Err(OptionsError::NotADuration(DelayOption::ControlCharDelay));
        },
        Some(Some(d)) => Some(d),
        None => None,
    };
    config_from_delays(base, full, control, tail_delay)
}

/// The configuration of the options as they were written: the text of the
/// base delay, and the texts of the full-width and the control-character
/// delay where they were given.
pub fn config_from_texts(
    delay: &str,
    full_width_delay: Option<&str>,
    control_char_delay: Option<&str>,
    tail_delay: bool,
) -> (r: Result<SlowScanConfig, OptionsError>)
    ensures
        is_result_of_parsed(
            r,
            parsed_duration(delay@),
            parsed_option(full_width_delay),
            parsed_option(control_char_delay),
            tail_delay,
        ),
        delay@.len() == 0 ==> r == Err::<SlowScanConfig, OptionsError>(
            OptionsError::NotADuration(DelayOption::Delay),
        ),
        r != Err::<SlowScanConfig, OptionsError>(OptionsError::FullWidthDelayOverflow),
{
    let base: Option<Duration> = parse_std(delay);
    let full: Option<Option<Duration>> = match full_width_delay {
        Some(text) => Some(parse_std(text)),
        None => None,
    };
    let control: Option<Option<Duration>> = match control_char_delay {
        Some(text) => Some(parse_std(text)),
        None => None,
    };
    config_from_parsed(base, full, control, tail_delay)
}

} // verus!
