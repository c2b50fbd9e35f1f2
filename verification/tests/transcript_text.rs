use moonshine_rs::join_line_texts;
use moonshine_rs::session::{
    current_timestamp_secs, should_unload_idle, timestamp_or_zero, IDLE_UNLOAD_SECS,
};

#[test]
fn transcript_text_joins_lines_with_newlines() {
    assert_eq!(join_line_texts(&Vec::new()), "");
    assert_eq!(join_line_texts(&vec!["one".to_string()]), "one");
    assert_eq!(
        join_line_texts(&vec!["one".to_string(), String::new(), "three".to_string()]),
        "one\n\nthree"
    );
}

#[test]
fn idle_transcribers_unload_after_five_minutes() {
    assert_eq!(IDLE_UNLOAD_SECS, 300);
    assert!(should_unload_idle(1_300, 1_000, false, true));
    assert!(!should_unload_idle(1_299, 1_000, false, true));
    assert!(!should_unload_idle(2_000, 1_000, true, true));
    assert!(!should_unload_idle(2_000, 1_000, false, false));
    assert!(!should_unload_idle(500, 1_000, false, true));
}

#[test]
fn timestamps_are_past_the_epoch() {
    let now = current_timestamp_secs();
    assert!(now > 1_600_000_000);
}

#[test]
fn clock_readings_before_the_epoch_give_zero() {
    assert_eq!(timestamp_or_zero(Some(1_700_000_000)), 1_700_000_000);
    assert_eq!(timestamp_or_zero(None), 0);
}
