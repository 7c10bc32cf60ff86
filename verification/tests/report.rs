use wasm_client::report::{prove_time_report, verification_report};

#[test]
fn report_pads_milliseconds_to_three_digits() {
    assert_eq!(prove_time_report(12, 45), "prove: 12.045 sec");
    assert_eq!(prove_time_report(3, 7), "prove: 3.007 sec");
    assert_eq!(prove_time_report(1, 999), "prove: 1.999 sec");
    assert_eq!(prove_time_report(40, 120), "prove: 40.120 sec");
}

#[test]
fn report_of_zero_time() {
    assert_eq!(prove_time_report(0, 0), "prove: 0.000 sec");
}

#[test]
fn report_of_largest_seconds() {
    assert_eq!(
        prove_time_report(u64::MAX, 100),
        "prove: 18446744073709551615.100 sec"
    );
}

#[test]
fn report_matches_std_formatting() {
    for secs in [0u64, 1, 9, 10, 99, 100, 12345, 1_000_000_007] {
        for millis in [0u32, 1, 9, 10, 55, 99, 100, 500, 999, 1000, 4321] {
            let expected = format!("prove: {}.{:03} sec", secs, millis);
            assert_eq!(prove_time_report(secs, millis), expected);
        }
    }
}

#[test]
fn verification_ok_prints_ok() {
    assert_eq!(verification_report(Ok(())), "Ok!");
}

#[test]
fn verification_error_prints_the_error() {
    assert_eq!(
        verification_report(Err("Proof verification failed".to_string())),
        "Proof verification failed"
    );
}
