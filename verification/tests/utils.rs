use rekcod::utils::{base64_round_trip, decode_base64, encode_base64, try_decode_base64};

#[test]
fn test_decode_base64() {
    let input = "aGVsbG8=";
    let output = decode_base64(input);
    assert_eq!(output, vec![104, 101, 108, 108, 111]);
}

#[test]
fn test_encode_base64() {
    let input = vec![104, 101, 108, 108, 111];
    let output = encode_base64(&input);
    assert_eq!(output, "aGVsbG8=");
}

#[test]
fn test_base64_string() {
    let input = "ls\n";
    let output = encode_base64(input.as_bytes());
    assert_eq!(output, "bHMK");

    let output = decode_base64(&output);
    assert_eq!(output, input.as_bytes());
}

#[test]
fn base64_round_trip_is_identity() {
    let all: Vec<u8> = (0..=255u8).collect();
    assert_eq!(base64_round_trip(&all), all);
    assert_eq!(base64_round_trip(&[]), Vec::<u8>::new());
    assert_eq!(base64_round_trip(&[0]), vec![0]);
    assert_eq!(base64_round_trip(&[255, 254]), vec![255, 254]);
}

#[test]
fn text_that_is_not_base64_decodes_to_nothing() {
    assert_eq!(try_decode_base64("not base64!"), None);
    assert_eq!(try_decode_base64("aGVsbG8"), None);
    assert_eq!(try_decode_base64("aGVsbG8="), Some(vec![104, 101, 108, 108, 111]));
    assert_eq!(try_decode_base64(""), Some(vec![]));
}
