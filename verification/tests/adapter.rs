use totp::{
    generate_combined_token, six_slots, verify_combined_token, wasm_generate_combined_token,
    wasm_verify_combined_token, TotpError,
};

const NOW: u64 = 1_700_000_000;
const GOLDEN: &str = "671251-223724-690512-154754-590474-457655";

fn seeds(entries: &[&str]) -> Vec<String> {
    entries.iter().map(|entry| entry.to_string()).collect()
}

#[test]
fn six_seeds_fill_the_six_places() {
    let list = seeds(&["a", "b", "c", "d", "e", "f"]);
    assert_eq!(six_slots(&list), ["a", "b", "c", "d", "e", "f"]);
}

#[test]
fn short_list_is_padded_on_the_left() {
    assert_eq!(six_slots(&seeds(&["a"])), ["", "", "", "", "", "a"]);
    assert_eq!(six_slots(&seeds(&["a", "b"])), ["", "", "", "", "a", "b"]);
    assert_eq!(six_slots(&seeds(&["a", "b", "c"])), ["", "", "", "a", "b", "c"]);
    assert_eq!(six_slots(&seeds(&["a", "b", "c", "d"])), ["", "", "a", "b", "c", "d"]);
    assert_eq!(six_slots(&seeds(&["a", "b", "c", "d", "e"])), ["", "a", "b", "c", "d", "e"]);
}

#[test]
fn empty_list_leaves_every_place_empty() {
    assert_eq!(six_slots(&seeds(&[])), [""; 6]);
}

#[test]
fn seeds_after_the_sixth_are_left_out() {
    let list = seeds(&["a", "b", "c", "d", "e", "f", "g", "h"]);
    assert_eq!(six_slots(&list), ["a", "b", "c", "d", "e", "f"]);
}

#[test]
fn list_of_six_generates_the_golden_token() {
    let list = seeds(&["a", "b", "c", "d", "e", "f"]);
    assert_eq!(wasm_generate_combined_token(list, NOW, 30), Ok(GOLDEN.to_string()));
}

#[test]
fn short_list_generates_with_empty_seeds_first() {
    assert_eq!(
        wasm_generate_combined_token(seeds(&["a", "b"]), NOW, 30),
        Ok("501315-501315-501315-501315-671251-223724".to_string())
    );
    assert_eq!(
        wasm_generate_combined_token(seeds(&["a", "b"]), NOW, 30),
        generate_combined_token(["", "", "", "", "a", "b"], NOW, 30)
    );
    assert_eq!(
        wasm_generate_combined_token(seeds(&["a", "b", "c", "d", "e"]), NOW, 30),
        Ok("501315-671251-223724-690512-154754-590474".to_string())
    );
    assert_eq!(
        wasm_generate_combined_token(seeds(&[]), 0, 1),
        Ok("328482-328482-328482-328482-328482-328482".to_string())
    );
}

#[test]
fn long_list_generates_from_its_first_six() {
    let list = seeds(&["a", "b", "c", "d", "e", "f", "g"]);
    assert_eq!(wasm_generate_combined_token(list, NOW, 30), Ok(GOLDEN.to_string()));
}

#[test]
fn list_verifies_as_the_six_places_do() {
    let list = seeds(&["a", "b", "c", "d", "e", "f", "g"]);
    assert_eq!(
        wasm_verify_combined_token(list.clone(), NOW, GOLDEN.to_string(), 30, 1, "s".to_string()),
        Ok(true)
    );
    assert_eq!(
        wasm_verify_combined_token(
            list.clone(),
            NOW + 31,
            GOLDEN.to_string(),
            30,
            1,
            "s".to_string()
        ),
        Ok(false)
    );
    assert_eq!(
        wasm_verify_combined_token(list, NOW + 31, GOLDEN.to_string(), 30, 2, "s".to_string()),
        Ok(true)
    );
    let short = seeds(&["a", "b"]);
    let token = "501315-501315-501315-501315-671251-223724";
    assert_eq!(
        wasm_verify_combined_token(short.clone(), NOW, token.to_string(), 30, 1, "s".to_string()),
        Ok(true)
    );
    assert_eq!(
        wasm_verify_combined_token(short.clone(), NOW, token.to_string(), 30, 1, "s".to_string()),
        verify_combined_token(["", "", "", "", "a", "b"], NOW, token, 30, 1, "s")
    );
    // the same seeds padded on the right make another token
    let padded_right = "671251-223724-501315-501315-501315-501315";
    assert_eq!(
        wasm_verify_combined_token(
            short.clone(),
            NOW,
            padded_right.to_string(),
            30,
            1,
            "s".to_string()
        ),
        Ok(false)
    );
    assert_eq!(
        wasm_verify_combined_token(short, NOW, GOLDEN.to_string(), 30, 1, "s".to_string()),
        Ok(false)
    );
}

#[test]
fn lists_refuse_a_zero_window() {
    let list = seeds(&["a", "b", "c", "d", "e", "f"]);
    assert_eq!(wasm_generate_combined_token(list.clone(), NOW, 0), Err(TotpError::InvalidWindow));
    assert_eq!(
        wasm_verify_combined_token(list, NOW, GOLDEN.to_string(), 0, 1, "s".to_string()),
        Err(TotpError::InvalidWindow)
    );
}
