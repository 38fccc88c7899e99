//! Texts, times, frames and statistics.

use groundlink::stats::{
    has_sum_u128, has_sum_u64, is_summable, mean_u128, stats_i128, stats_u128, total_u64,
};
use groundlink::text::{copy_text, decimal_string, quote_option, quote_text, starts_with};
use groundlink::time::{Duration, Instant};
use groundlink::wire::{frame, frame_len};

#[test]
fn durations_are_cut_off_to_whole_units() {
    let d = Duration { nanos: 2_999_999_999 };
    assert_eq!(d.as_micros(), 2_999_999);
    assert_eq!(d.as_millis(), 2_999);
    assert_eq!(d.as_secs(), 2);
    assert_eq!(Duration::from_millis(3).nanos, 3_000_000);
    assert_eq!(Duration::from_micros(3).nanos, 3_000);
}

#[test]
fn spans_into_the_past_are_zero() {
    let early = Instant { nanos: 10 };
    let late = Instant { nanos: 25 };
    assert_eq!(late.saturating_duration_since(early), Duration { nanos: 15 });
    assert_eq!(early.saturating_duration_since(late), Duration { nanos: 0 });
    assert_eq!(early.plus(Duration { nanos: 15 }), late);
}

#[test]
fn decimals() {
    assert_eq!(decimal_string(0), "0");
    assert_eq!(decimal_string(9), "9");
    assert_eq!(decimal_string(10), "10");
    assert_eq!(decimal_string(1_234_567_890), "1234567890");
    assert_eq!(decimal_string(u64::MAX), "18446744073709551615");
}

#[test]
fn quoted_texts_are_those_of_debug() {
    let s = "a \"b\"\n\\".to_string();
    assert_eq!(quote_text(&s), format!("{:?}", s));
    assert_eq!(quote_text(&"x".to_string()), "\"x\"");
    assert_eq!(quote_option(&Some(s.clone())), format!("{:?}", Some(s.clone())));
    assert_eq!(quote_option(&None), "None");
    assert_eq!(copy_text(&Some(s.clone())), Some(s));
    assert_eq!(copy_text(&None), None);
}

#[test]
fn plain_characters_stand_for_themselves_in_quotes() {
    for code in 32u8..=126 {
        let c = code as char;
        let s = format!("x{}y", c);
        let plain = c != '"' && c != '\\';
        assert_eq!(quote_text(&s) == format!("\"{}\"", s), plain);
    }
    let all: String = (32u8..=126).map(|b| b as char).filter(|c| *c != '"' && *c != '\\').collect();
    assert_eq!(quote_text(&all), format!("\"{}\"", all));
    assert_eq!(quote_text(&String::new()), "\"\"");
}

#[test]
fn prefixes() {
    assert!(starts_with("Urgent { id: 5", "Urgent"));
    assert!(starts_with("Urgent", "Urgent"));
    assert!(!starts_with("Urgen", "Urgent"));
    assert!(!starts_with("NoOp", "Urgent"));
    assert!(starts_with("NoOp", ""));
    assert!(starts_with("über", "ü"));
}

#[test]
fn frames_can_be_read_back() {
    let body: Vec<u8> = (0..300u32).map(|i| (i % 256) as u8).collect();
    let framed = frame(&body);
    assert_eq!(framed[..4], [0, 0, 1, 44]);
    assert_eq!(framed[4..], body[..]);
    assert_eq!(frame_len([framed[0], framed[1], framed[2], framed[3]]), 300);
    assert_eq!(frame(&vec![]), vec![0, 0, 0, 0]);
}

#[test]
fn headers_are_big_endian() {
    assert_eq!(frame_len([1, 2, 3, 4]), 0x0102_0304);
    assert_eq!(frame_len([255, 255, 255, 255]), 0xffff_ffff);
    assert_ne!(frame_len([0, 0, 1, 0]), frame_len([0, 0, 0, 1]));
}

#[test]
fn statistics_of_signed_samples() {
    assert_eq!(stats_i128(&[]), (0, 0, 0));
    assert_eq!(stats_i128(&[7]), (7, 7, 7));
    assert_eq!(stats_i128(&[3, -10, 4]), (-10, -1, 4));
    assert_eq!(stats_i128(&[-7, 0]), (-7, -3, 0));
    assert_eq!(stats_i128(&[1, 2, 4]), (1, 2, 4));
}

#[test]
fn statistics_do_not_depend_on_order() {
    assert_eq!(stats_i128(&[4, 3, -10]), stats_i128(&[3, -10, 4]));
    assert_eq!(stats_u128(&[1, 5, 1]), stats_u128(&[5, 1, 1]));
}

#[test]
fn statistics_of_unsigned_samples() {
    assert_eq!(stats_u128(&[]), (0, 0, 0));
    assert_eq!(stats_u128(&[5, 1, 1]), (1, 2, 5));
    assert_eq!(mean_u128(&[]), 0);
    assert_eq!(mean_u128(&[5, 6]), 5);
    assert_eq!(total_u64(&[]), 0);
    assert_eq!(total_u64(&[100, 200, 300]), 600);
}

#[test]
fn sums_that_do_not_fit_are_noticed() {
    assert!(is_summable(&[i128::MAX, -1, 1]));
    assert!(!is_summable(&[i128::MAX, 1, -1]));
    assert!(!is_summable(&[i128::MIN, -1]));
    assert!(has_sum_u128(&[u128::MAX, 0]));
    assert!(!has_sum_u128(&[u128::MAX, 1]));
    assert!(has_sum_u64(&[u64::MAX - 1, 1]));
    assert!(!has_sum_u64(&[u64::MAX, 1]));
}
