//! Tests for the setting enums, the response parsers, and the
//! set-then-verify checks.

use adcmt7351::measurement::build_shorthand_command;
use adcmt7351::measurement::parse_auto_zero_response;
use adcmt7351::measurement::parse_display_digits_response;
use adcmt7351::measurement::parse_function_response;
use adcmt7351::measurement::parse_range_response;
use adcmt7351::measurement::parse_ready_response;
use adcmt7351::measurement::parse_sampling_rate_response;
use adcmt7351::trigger::parse_continuous_response;
use adcmt7351::trigger::parse_sampling_count_response;
use adcmt7351::trigger::parse_trigger_source_response;
use adcmt7351::trigger::verify_continuous_measurement;
use adcmt7351::trigger::verify_sampling_count;
use adcmt7351::trigger::verify_trigger_delay;
use adcmt7351::trigger::verify_trigger_source;
use adcmt7351::AutoZero;
use adcmt7351::DriverError;
use adcmt7351::FunctionCode;
use adcmt7351::NumberOfDisplayDigits;
use adcmt7351::RawRange;
use adcmt7351::ResistanceRange;
use adcmt7351::SamplingRate;
use adcmt7351::ShortHand;
use adcmt7351::TriggerSource;
use adcmt7351::VerificationError;
use adcmt7351::VoltageDCRange;

#[test]
fn function_codes_round_trip() {
    let codes = [
        (FunctionCode::DCV, 1),
        (FunctionCode::ACV, 2),
        (FunctionCode::Resistance, 3),
        (FunctionCode::DCI, 5),
        (FunctionCode::ACI, 6),
        (FunctionCode::ACVCoupling, 7),
        (FunctionCode::ACICoupling, 8),
        (FunctionCode::Diode, 13),
        (FunctionCode::ResistanceLowPower, 20),
        (FunctionCode::Continuity, 22),
        (FunctionCode::Frequency, 50),
    ];
    for (mode, code) in codes {
        assert_eq!(mode.code(), code);
        assert_eq!(FunctionCode::from_u8(code), Some(mode));
    }
    assert_eq!(FunctionCode::from_u8(4), None);
    assert_eq!(FunctionCode::from_u8(0), None);
}

#[test]
fn raw_range_codes_round_trip() {
    assert_eq!(RawRange::AUTO.code(), 0);
    assert_eq!(RawRange::from_u8(0), Some(RawRange::AUTO));
    for code in 3..=9u8 {
        let range = RawRange::from_u8(code).unwrap();
        assert_eq!(range.code(), code);
    }
    assert_eq!(RawRange::from_u8(1), None);
    assert_eq!(RawRange::from_u8(10), None);
}

#[test]
fn trigger_source_codes_round_trip() {
    for code in 0..=3u8 {
        let source = TriggerSource::from_u8(code).unwrap();
        assert_eq!(source.code(), code);
    }
    assert_eq!(TriggerSource::from_u8(4), None);
}

#[test]
fn sampling_rate_codes_round_trip() {
    for code in 1..=4u8 {
        let rate = SamplingRate::from_u8(code).unwrap();
        assert_eq!(rate.code(), code);
    }
    assert_eq!(SamplingRate::from_u8(0), None);
    assert_eq!(SamplingRate::from_u8(5), None);
}

#[test]
fn display_digits_and_auto_zero_round_trip() {
    for code in 3..=5u8 {
        let digits = NumberOfDisplayDigits::from_u8(code).unwrap();
        assert_eq!(digits.code(), code);
    }
    assert_eq!(NumberOfDisplayDigits::from_u8(6), None);
    for code in 0..=2u8 {
        let zero = AutoZero::from_u8(code).unwrap();
        assert_eq!(zero.code(), code);
    }
    assert_eq!(AutoZero::from_u8(3), None);
}

#[test]
fn parse_function_response_reads_echoed_code() {
    assert_eq!(parse_function_response("F1"), Ok(FunctionCode::DCV));
    assert_eq!(parse_function_response("5"), Ok(FunctionCode::DCI));
    assert_eq!(parse_function_response(" F50 \r\n"), Ok(FunctionCode::Frequency));
    assert_eq!(
        parse_function_response("F4"),
        Err(DriverError::MalformedResponse)
    );
    assert_eq!(
        parse_function_response("Fx"),
        Err(DriverError::MalformedResponse)
    );
    assert_eq!(
        parse_function_response("F999"),
        Err(DriverError::MalformedResponse)
    );
}

#[test]
fn parse_range_response_reads_echoed_code() {
    assert_eq!(parse_range_response("R0"), Ok(RawRange::AUTO));
    assert_eq!(parse_range_response("R5"), Ok(RawRange::R5));
    assert_eq!(parse_range_response("R2"), Err(DriverError::MalformedResponse));
}

#[test]
fn parse_ready_response_compares_against_zero() {
    assert!(parse_ready_response("INH?0"));
    assert!(parse_ready_response("0"));
    assert!(!parse_ready_response("INH?1"));
    assert!(!parse_ready_response("00"));
    assert!(!parse_ready_response(""));
}

#[test]
fn parse_sampling_rate_and_display_digits_and_auto_zero() {
    assert_eq!(parse_sampling_rate_response("PR2"), Ok(SamplingRate::MEDIUM));
    assert_eq!(
        parse_sampling_rate_response("PR9"),
        Err(DriverError::MalformedResponse)
    );
    assert_eq!(
        parse_display_digits_response("RE5"),
        Ok(NumberOfDisplayDigits::FiveAndAHalf)
    );
    assert_eq!(parse_auto_zero_response("AZ1"), Ok(AutoZero::Enable));
}

#[test]
fn parse_continuous_response_compares_against_one() {
    assert_eq!(parse_continuous_response("INIC1"), Ok(true));
    assert_eq!(parse_continuous_response("INIC0"), Ok(false));
    assert_eq!(parse_continuous_response("2"), Ok(false));
    assert_eq!(
        parse_continuous_response("INIC"),
        Err(DriverError::MalformedResponse)
    );
}

#[test]
fn parse_sampling_count_response_reads_value() {
    assert_eq!(parse_sampling_count_response("SPN100"), Ok(100));
    assert_eq!(parse_sampling_count_response("7"), Ok(7));
    assert_eq!(
        parse_sampling_count_response("SPN"),
        Err(DriverError::MalformedResponse)
    );
}

#[test]
fn verify_sampling_count_accepts_matching_read_back() {
    assert_eq!(verify_sampling_count(100, "100"), Ok(()));
    assert_eq!(verify_sampling_count(100, "SPN100"), Ok(()));
}

#[test]
fn verify_sampling_count_names_expected_and_actual() {
    assert_eq!(
        verify_sampling_count(100, "99"),
        Err(DriverError::Verification(VerificationError::SamplingCount {
            expected: 100,
            actual: 99,
        }))
    );
}

#[test]
fn verify_sampling_count_rejects_garbage() {
    assert_eq!(
        verify_sampling_count(100, "abc"),
        Err(DriverError::MalformedResponse)
    );
}

#[test]
fn verify_trigger_source_compares_codes() {
    assert_eq!(verify_trigger_source(TriggerSource::MANUAL, "TRS1"), Ok(()));
    assert_eq!(
        verify_trigger_source(TriggerSource::MANUAL, "TRS2"),
        Err(DriverError::Verification(VerificationError::TriggerSource {
            expected: 1,
            actual: 2,
        }))
    );
    assert_eq!(
        verify_trigger_source(TriggerSource::MANUAL, "TRSx"),
        Err(DriverError::MalformedResponse)
    );
}

#[test]
fn verify_trigger_delay_compares_exact_echo() {
    assert_eq!(verify_trigger_delay(10, "10"), Ok(()));
    assert_eq!(
        verify_trigger_delay(10, "11"),
        Err(DriverError::Verification(VerificationError::TriggerDelay {
            expected: 10,
            actual: "11".to_string(),
        }))
    );
    // The comparison is against the raw echo, untrimmed.
    assert_eq!(
        verify_trigger_delay(10, "TRD10"),
        Err(DriverError::Verification(VerificationError::TriggerDelay {
            expected: 10,
            actual: "TRD10".to_string(),
        }))
    );
}

#[test]
fn verify_continuous_measurement_names_the_state() {
    assert_eq!(verify_continuous_measurement(true, "INIC1"), Ok(()));
    assert_eq!(verify_continuous_measurement(false, "INIC0"), Ok(()));
    assert_eq!(
        verify_continuous_measurement(true, "INIC0"),
        Err(DriverError::Verification(
            VerificationError::ContinuousMeasurement {
                expected: true,
                actual: false,
            }
        ))
    );
}

#[test]
fn shorthand_commands_combine_mode_and_range() {
    assert_eq!(
        build_shorthand_command(ShortHand::DCV(VoltageDCRange::V2)),
        b"F1,R4".to_vec()
    );
    assert_eq!(
        build_shorthand_command(ShortHand::Resistance(ResistanceRange::R20M)),
        b"F3,R8".to_vec()
    );
    assert_eq!(build_shorthand_command(ShortHand::Diode), b"F13".to_vec());
    assert_eq!(
        build_shorthand_command(ShortHand::Continuity),
        b"F22".to_vec()
    );
}
