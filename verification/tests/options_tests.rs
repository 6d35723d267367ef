use slow_scan_print::options::{
    config_from_delays, config_from_parsed, config_from_texts, doubled, DelayOption, OptionsError,
};
use std::time::Duration;

#[test]
fn base_delay_alone_doubles_for_full_width() {
    let config = config_from_texts("20ms", None, None, false).unwrap();
    assert_eq!(*config.base_delay(), Duration::from_millis(20));
    assert_eq!(*config.full_width_delay(), Duration::from_millis(40));
    assert_eq!(*config.control_char_delay(), Duration::ZERO);
    assert!(!*config.tail_delay());
}

#[test]
fn given_delays_are_taken_as_they_are() {
    let config = config_from_texts("1s", Some("30ms"), Some("5us"), true).unwrap();
    assert_eq!(*config.base_delay(), Duration::from_secs(1));
    assert_eq!(*config.full_width_delay(), Duration::from_millis(30));
    assert_eq!(*config.control_char_delay(), Duration::from_micros(5));
    assert!(*config.tail_delay());
}

#[test]
fn texts_follow_the_duration_notation() {
    let config = config_from_texts("1m30s", Some("2h"), Some("7"), false).unwrap();
    assert_eq!(*config.base_delay(), Duration::from_secs(90));
    assert_eq!(*config.full_width_delay(), Duration::from_secs(7200));
    assert_eq!(*config.control_char_delay(), Duration::from_secs(7));
}

#[test]
fn text_that_is_no_duration_is_reported_by_option() {
    assert_eq!(
        config_from_texts("soon", None, None, false).unwrap_err(),
        OptionsError::NotADuration(DelayOption::Delay)
    );
    assert_eq!(
        config_from_texts("", None, None, false).unwrap_err(),
        OptionsError::NotADuration(DelayOption::Delay)
    );
    assert_eq!(
        config_from_texts("20ms", Some("wide"), None, false).unwrap_err(),
        OptionsError::NotADuration(DelayOption::FullWidthDelay)
    );
    assert_eq!(
        config_from_texts("20ms", None, Some("1 parsec"), false).unwrap_err(),
        OptionsError::NotADuration(DelayOption::ControlCharDelay)
    );
}

#[test]
fn first_bad_option_is_reported() {
    assert_eq!(
        config_from_texts("x", Some("y"), Some("z"), true).unwrap_err(),
        OptionsError::NotADuration(DelayOption::Delay)
    );
    assert_eq!(
        config_from_texts("1s", Some("y"), Some("z"), true).unwrap_err(),
        OptionsError::NotADuration(DelayOption::FullWidthDelay)
    );
}

#[test]
fn parsed_options_build_the_configuration() {
    let config = config_from_parsed(
        Some(Duration::from_millis(7)),
        Some(Some(Duration::from_millis(9))),
        None,
        true,
    )
    .unwrap();
    assert_eq!(*config.base_delay(), Duration::from_millis(7));
    assert_eq!(*config.full_width_delay(), Duration::from_millis(9));
    assert_eq!(*config.control_char_delay(), Duration::ZERO);
    assert!(*config.tail_delay());
    assert_eq!(
        config_from_parsed(None, None, None, false).unwrap_err(),
        OptionsError::NotADuration(DelayOption::Delay)
    );
    assert_eq!(
        config_from_parsed(Some(Duration::ZERO), Some(None), Some(None), false).unwrap_err(),
        OptionsError::NotADuration(DelayOption::FullWidthDelay)
    );
    assert_eq!(
        config_from_parsed(Some(Duration::ZERO), None, Some(None), false).unwrap_err(),
        OptionsError::NotADuration(DelayOption::ControlCharDelay)
    );
}

#[test]
fn delays_build_the_configuration() {
    let config = config_from_delays(Duration::from_millis(50), None, None, false).unwrap();
    assert_eq!(*config.base_delay(), Duration::from_millis(50));
    assert_eq!(*config.full_width_delay(), Duration::from_millis(100));
    assert_eq!(*config.control_char_delay(), Duration::ZERO);
    assert!(!*config.tail_delay());
}

#[test]
fn full_width_delay_that_cannot_be_doubled_is_refused() {
    assert_eq!(
        config_from_delays(Duration::MAX, None, None, false).unwrap_err(),
        OptionsError::FullWidthDelayOverflow
    );
    let config =
        config_from_delays(Duration::MAX, Some(Duration::from_millis(1)), None, false).unwrap();
    assert_eq!(*config.base_delay(), Duration::MAX);
    assert_eq!(*config.full_width_delay(), Duration::from_millis(1));
}

#[test]
fn doubling_is_exact_up_to_the_longest_duration() {
    assert_eq!(doubled(Duration::ZERO), Some(Duration::ZERO));
    assert_eq!(
        doubled(Duration::new(1, 600_000_000)),
        Some(Duration::new(3, 200_000_000))
    );
    let half = Duration::new(u64::MAX / 2, 999_999_999);
    assert_eq!(doubled(half), Some(Duration::new(u64::MAX, 999_999_998)));
    assert_eq!(doubled(Duration::new(u64::MAX / 2 + 1, 0)), None);
    assert_eq!(doubled(Duration::MAX), None);
}
