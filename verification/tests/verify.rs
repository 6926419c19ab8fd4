use totp::{generate_combined_token, shift_time, verify_combined_token, TotpError};

const SEEDS: [&str; 6] = ["a", "b", "c", "d", "e", "f"];
const NOW: u64 = 1_700_000_000;
const GOLDEN: &str = "671251-223724-690512-154754-590474-457655";

#[test]
fn shift_moves_by_whole_windows() {
    assert_eq!(shift_time(100, 0, 30), Some(100));
    assert_eq!(shift_time(100, 1, 30), Some(130));
    assert_eq!(shift_time(100, -1, 30), Some(70));
    assert_eq!(shift_time(100, -3, 30), Some(10));
    assert_eq!(shift_time(NOW, 2, 15), Some(1_700_000_030));
    assert_eq!(shift_time(90, -3, 30), Some(0));
}

#[test]
fn shift_does_not_go_below_zero() {
    assert_eq!(shift_time(10, -1, 30), None);
    assert_eq!(shift_time(0, -1, 1), None);
    assert_eq!(shift_time(100, -4, 30), None);
    assert_eq!(shift_time(u64::MAX, i64::MIN, u64::MAX), None);
}

#[test]
fn shift_does_not_wrap_around() {
    assert_eq!(shift_time(u64::MAX, 1, 1), None);
    assert_eq!(shift_time(u64::MAX - 29, 1, 30), None);
    assert_eq!(shift_time(u64::MAX - 30, 1, 30), Some(u64::MAX));
    assert_eq!(shift_time(0, 2, u64::MAX), None);
    assert_eq!(shift_time(0, 1, u64::MAX), Some(u64::MAX));
    assert_eq!(shift_time(u64::MAX, -1, u64::MAX), Some(0));
    assert_eq!(shift_time(5, i64::MAX, u64::MAX), None);
}

#[test]
fn golden_token_is_accepted_in_its_window() {
    assert_eq!(verify_combined_token(SEEDS, NOW, GOLDEN, 30, 1, "s"), Ok(true));
}

#[test]
fn golden_token_is_refused_one_window_later() {
    assert_eq!(verify_combined_token(SEEDS, NOW + 31, GOLDEN, 30, 1, "s"), Ok(false));
}

#[test]
fn golden_token_is_accepted_one_window_later_with_two_allowed() {
    assert_eq!(verify_combined_token(SEEDS, NOW + 31, GOLDEN, 30, 2, "s"), Ok(true));
}

#[test]
fn generated_token_verifies_at_its_own_time() {
    let windows: [u64; 4] = [1, 15, 30, 3_600];
    let allowed: [u32; 4] = [1, 2, 3, 10];
    for window in windows {
        let token = generate_combined_token(SEEDS, NOW, window).unwrap();
        for allowed_windows in allowed {
            assert_eq!(
                verify_combined_token(SEEDS, NOW, &token, window, allowed_windows, "s"),
                Ok(true)
            );
        }
    }
}

#[test]
fn drift_is_tolerated_up_to_the_allowed_windows() {
    let window: u64 = 30;
    let allowed: [u32; 4] = [1, 2, 3, 5];
    for allowed_windows in allowed {
        let mut drift: i64 = -6;
        while drift <= 6 {
            let generated = shift_time(NOW, drift, window).unwrap();
            let token = generate_combined_token(SEEDS, generated, window).unwrap();
            let within = drift.unsigned_abs() <= u64::from(allowed_windows) - 1;
            assert_eq!(
                verify_combined_token(SEEDS, NOW, &token, window, allowed_windows, "s"),
                Ok(within)
            );
            drift += 1;
        }
    }
}

#[test]
fn earlier_and_later_windows_are_both_tried() {
    let later = generate_combined_token(SEEDS, NOW + 60, 30).unwrap();
    let earlier = generate_combined_token(SEEDS, NOW - 60, 30).unwrap();
    assert_eq!(later, "180757-122358-553796-729715-923437-183552");
    assert_eq!(earlier, "317360-667459-047279-631035-628787-635494");
    assert_eq!(verify_combined_token(SEEDS, NOW, &later, 30, 2, "s"), Ok(false));
    assert_eq!(verify_combined_token(SEEDS, NOW, &earlier, 30, 2, "s"), Ok(false));
    assert_eq!(verify_combined_token(SEEDS, NOW, &later, 30, 3, "s"), Ok(true));
    assert_eq!(verify_combined_token(SEEDS, NOW, &earlier, 30, 3, "s"), Ok(true));
}

#[test]
fn zero_allowed_windows_count_as_one() {
    let next = generate_combined_token(SEEDS, NOW + 30, 30).unwrap();
    let previous = generate_combined_token(SEEDS, NOW - 30, 30).unwrap();
    for token in [GOLDEN, next.as_str(), previous.as_str(), "", "000000"] {
        assert_eq!(
            verify_combined_token(SEEDS, NOW, token, 30, 0, "s"),
            verify_combined_token(SEEDS, NOW, token, 30, 1, "s")
        );
    }
    assert_eq!(verify_combined_token(SEEDS, NOW, GOLDEN, 30, 0, "s"), Ok(true));
    assert_eq!(verify_combined_token(SEEDS, NOW, &next, 30, 0, "s"), Ok(false));
    assert_eq!(verify_combined_token(SEEDS, NOW, &previous, 30, 0, "s"), Ok(false));
}

#[test]
fn a_mismatch_is_an_answer_not_an_error() {
    assert_eq!(
        verify_combined_token(SEEDS, NOW, "000000-000000-000000-000000-000000-000000", 30, 3, "s"),
        Ok(false)
    );
    assert_eq!(verify_combined_token(SEEDS, NOW, "", 30, 3, "s"), Ok(false));
    assert_eq!(verify_combined_token(SEEDS, NOW, "not a token", 30, 3, "s"), Ok(false));
}

#[test]
fn tokens_are_compared_as_whole_strings() {
    let without_separators = GOLDEN.replace('-', "");
    let with_spaces = GOLDEN.replace('-', " ");
    let padded = format!(" {}", GOLDEN);
    let shortened = &GOLDEN[..40];
    for token in [without_separators.as_str(), with_spaces.as_str(), padded.as_str(), shortened] {
        assert_eq!(verify_combined_token(SEEDS, NOW, token, 30, 2, "s"), Ok(false));
    }
    // a group that starts with a zero has to keep it
    let zero_led = generate_combined_token(SEEDS, NOW - 30, 30).unwrap();
    assert!(zero_led.starts_with("098008-"));
    assert_eq!(verify_combined_token(SEEDS, NOW - 30, &zero_led, 30, 1, "s"), Ok(true));
    assert_eq!(verify_combined_token(SEEDS, NOW - 30, &zero_led[1..], 30, 1, "s"), Ok(false));
}

#[test]
fn the_order_of_the_seeds_matters() {
    let reversed: [&str; 6] = ["f", "e", "d", "c", "b", "a"];
    assert_eq!(verify_combined_token(reversed, NOW, GOLDEN, 30, 3, "s"), Ok(false));
}

#[test]
fn the_unit_has_no_effect() {
    let next = generate_combined_token(SEEDS, NOW + 30, 30).unwrap();
    for unit in ["s", "ms", "m", ""] {
        assert_eq!(verify_combined_token(SEEDS, NOW, GOLDEN, 30, 1, unit), Ok(true));
        assert_eq!(verify_combined_token(SEEDS, NOW, &next, 30, 1, unit), Ok(false));
        assert_eq!(verify_combined_token(SEEDS, NOW, &next, 30, 2, unit), Ok(true));
    }
}

#[test]
fn windows_before_time_zero_are_out_of_reach() {
    let first = generate_combined_token(SEEDS, 0, 30).unwrap();
    let second = generate_combined_token(SEEDS, 30, 30).unwrap();
    assert_eq!(verify_combined_token(SEEDS, 10, &first, 30, 5, "s"), Ok(true));
    assert_eq!(verify_combined_token(SEEDS, 10, &second, 30, 5, "s"), Ok(true));
    // the token of the last window of all time is not found by stepping back from 10
    let last = generate_combined_token(SEEDS, u64::MAX, 30).unwrap();
    assert_eq!(verify_combined_token(SEEDS, 10, &last, 30, 5, "s"), Ok(false));
}

#[test]
fn windows_past_the_largest_time_are_out_of_reach() {
    let last = generate_combined_token(SEEDS, u64::MAX, 30).unwrap();
    let before_last = generate_combined_token(SEEDS, u64::MAX - 30, 30).unwrap();
    assert_eq!(before_last, "375029-919331-634165-231684-559949-804861");
    assert_eq!(verify_combined_token(SEEDS, u64::MAX, &last, 30, 5, "s"), Ok(true));
    assert_eq!(verify_combined_token(SEEDS, u64::MAX, &before_last, 30, 5, "s"), Ok(true));
    assert_eq!(verify_combined_token(SEEDS, u64::MAX, &before_last, 30, 1, "s"), Ok(false));
    // the token of the first window is not found by stepping on from the last
    let first = generate_combined_token(SEEDS, 0, 30).unwrap();
    assert_eq!(verify_combined_token(SEEDS, u64::MAX, &first, 30, 5, "s"), Ok(false));
}

#[test]
fn a_huge_window_leaves_only_the_current_one() {
    let token = generate_combined_token(SEEDS, NOW, u64::MAX).unwrap();
    assert_eq!(verify_combined_token(SEEDS, NOW, &token, u64::MAX, 1_000, "s"), Ok(true));
    assert_eq!(verify_combined_token(SEEDS, NOW, GOLDEN, u64::MAX, 1_000, "s"), Ok(false));
}

#[test]
fn verification_refuses_a_zero_window() {
    assert_eq!(
        verify_combined_token(SEEDS, NOW, GOLDEN, 0, 1, "s"),
        Err(TotpError::InvalidWindow)
    );
    assert_eq!(verify_combined_token(SEEDS, NOW, "", 0, 0, ""), Err(TotpError::InvalidWindow));
}
