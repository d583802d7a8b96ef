use fft_correlation::error::FftCorrelationError;

fn failing_transform_stage() -> fft_correlation::error::Result<Vec<u64>> {
    Err(FftCorrelationError::FftProcessing(String::from(
        "non-finite value in spectrum at bin 17",
    )))
}

fn correlation_step() -> fft_correlation::error::Result<u64> {
    let spectrum = failing_transform_stage()?;
    Ok(spectrum.len() as u64)
}

#[test]
fn propagated_error_keeps_message_unmodified() {
    match correlation_step() {
        Ok(_) => panic!("the failing stage must propagate its error"),
        Err(e) => {
            let FftCorrelationError::FftProcessing(msg) = &e;
            assert_eq!(msg, "non-finite value in spectrum at bin 17");
            assert_eq!(
                e.to_display_string(),
                "FFT processing error: non-finite value in spectrum at bin 17"
            );
        }
    }
}

#[test]
fn result_alias_carries_success_values() {
    let ok: fft_correlation::error::Result<u64> = Ok(42);
    assert_eq!(ok.unwrap(), 42);
}
