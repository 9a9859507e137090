//! Trigger control: start/abort, continuous measurement, trigger source,
//! trigger delay, sampling count.
//!
//! The instrument silently ignores some out-of-range settings instead of
//! reporting an error, so the set operations here read the setting back
//! and compare: a mismatch surfaces as a verification error naming the
//! setting with the intended and the observed value.

use vstd::prelude::*;
use vstd::string::StringSliceAdditionalSpecFns;

use crate::device::Device;
use crate::error::DriverError;
use crate::error::TransportError;
use crate::error::VerificationError;
use crate::text::decimal_digits;
use crate::text::lemma_decimal_digits_len;
use crate::text::numeric_value;
use crate::text::parse_numeric_response;
use crate::text::push_decimal;

verus! {

/// Trigger sources.
#[derive(Debug, Clone, Copy, PartialEq, Eq, Structural)]
pub enum TriggerSource {
    /// Immediate trigger.
    IMMEDIATE,
    /// Manual trigger.
    MANUAL,
    /// External trigger.
    EXTERNAL,
    /// Bus trigger.
    BUS,
}

impl TriggerSource {
    /// The instrument's numeric code for this source.
    pub open spec fn spec_code(self) -> u8 {
        match self {
            TriggerSource::IMMEDIATE => 0,
            TriggerSource::MANUAL => 1,
            TriggerSource::EXTERNAL => 2,
            TriggerSource::BUS => 3,
        }
    }

    /// The source a numeric code names, where one does.
    pub open spec fn spec_from(code: u8) -> Option<TriggerSource> {
        if code == 0 {
            Some(TriggerSource::IMMEDIATE)
        } else if code == 1 {
            Some(TriggerSource::MANUAL)
        } else if code == 2 {
            Some(TriggerSource::EXTERNAL)
        } else if code == 3 {
            Some(TriggerSource::BUS)
        } else {
            None
        }
    }

    /// The instrument's numeric code for this source.
    pub fn code(self) -> (r: u8)
        ensures
            r == self.spec_code(),
    {
        match self {
            TriggerSource::IMMEDIATE => 0,
            TriggerSource::MANUAL => 1,
            TriggerSource::EXTERNAL => 2,
            TriggerSource::BUS => 3,
        }
    }

    /// The source a numeric code names, where one does.
    pub fn from_u8(code: u8) -> (r: Option<TriggerSource>)
        ensures
            r == TriggerSource::spec_from(code),
    {
        match code {
            0 => Some(TriggerSource::IMMEDIATE),
            1 => Some(TriggerSource::MANUAL),
            2 => Some(TriggerSource::EXTERNAL),
            3 => Some(TriggerSource::BUS),
            _ => None,
        }
    }
}

/// Law: a source's code always names that source back.
pub proof fn lemma_trigger_source_roundtrip(source: TriggerSource)
    ensures
        TriggerSource::spec_from(source.spec_code()) == Some(source),
{
}

/// What a continuous-measurement query response says: the numeric value
/// after an optional `INIC` echo, where it fits a byte; `1` means enabled.
pub open spec fn spec_continuous_response(s: Seq<u8>) -> Option<bool> {
    match numeric_value(s, seq!['I' as u8, 'N' as u8, 'I' as u8, 'C' as u8]) {
        Some(n) => if n <= 255 {
            Some(n == 1)
        } else {
            None
        },
        None => None,
    }
}

/// Parse a continuous-measurement query response.
pub fn parse_continuous_response(response: &str) -> (r: Result<bool, DriverError>)
    ensures
        r is Ok <==> spec_continuous_response(response.spec_bytes()) is Some,
        r matches Ok(enabled) ==> spec_continuous_response(response.spec_bytes()) == Some(enabled),
        r matches Err(e) ==> e == DriverError::MalformedResponse,
{
    let mut prefix: Vec<u8> = Vec::new();
    prefix.push('I' as u8);
    prefix.push('N' as u8);
    prefix.push('I' as u8);
    prefix.push('C' as u8);
    proof {
        assert(prefix@ =~= seq!['I' as u8, 'N' as u8, 'I' as u8, 'C' as u8]);
    }
    match parse_numeric_response(response, prefix.as_slice()) {
        Some(n) => {
            if n <= 255 {
                Ok(n == 1)
            } else {
                Err(DriverError::MalformedResponse)
            }
        },
        None => Err(DriverError::MalformedResponse),
    }
}

/// Check a continuous-measurement read-back against the intended state.
pub fn verify_continuous_measurement(expected: bool, response: &str) -> (r: Result<
    (),
    DriverError,
>)
    ensures
        r is Ok <==> spec_continuous_response(response.spec_bytes()) == Some(expected),
        r matches Err(e) ==> (spec_continuous_response(response.spec_bytes()) is None && e
            == DriverError::MalformedResponse) || (spec_continuous_response(response.spec_bytes())
            == Some(!expected) && e == DriverError::Verification(
            VerificationError::ContinuousMeasurement { expected, actual: !expected },
        )),
{
    match parse_continuous_response(response) {
        Ok(actual) => {
            if actual == expected {
                Ok(())
            } else {
                Err(
                    DriverError::Verification(
                        VerificationError::ContinuousMeasurement { expected, actual },
                    ),
                )
            }
        },
        Err(e) => Err(e),
    }
}

/// What a trigger source query response names, after an optional `TRS`
/// echo.
pub open spec fn spec_trigger_source_response(s: Seq<u8>) -> Option<TriggerSource> {
    match numeric_value(s, seq!['T' as u8, 'R' as u8, 'S' as u8]) {
        Some(n) => if n <= 255 {
            TriggerSource::spec_from(n as u8)
        } else {
            None
        },
        None => None,
    }
}

/// Parse a trigger source query response.
pub fn parse_trigger_source_response(response: &str) -> (r: Result<TriggerSource, DriverError>)
    ensures
        r is Ok <==> spec_trigger_source_response(response.spec_bytes()) is Some,
        r matches Ok(source) ==> spec_trigger_source_response(response.spec_bytes()) == Some(
            source,
        ),
        r matches Err(e) ==> e == DriverError::MalformedResponse,
{
    let mut prefix: Vec<u8> = Vec::new();
    prefix.push('T' as u8);
    prefix.push('R' as u8);
    prefix.push('S' as u8);
    proof {
        assert(prefix@ =~= seq!['T' as u8, 'R' as u8, 'S' as u8]);
    }
    match parse_numeric_response(response, prefix.as_slice()) {
        Some(n) => {
            if n <= 255 {
                match TriggerSource::from_u8(n as u8) {
                    Some(source) => Ok(source),
                    None => Err(DriverError::MalformedResponse),
                }
            } else {
                Err(DriverError::MalformedResponse)
            }
        },
        None => Err(DriverError::MalformedResponse),
    }
}

/// Check a trigger source read-back against the intended source.
pub fn verify_trigger_source(expected: TriggerSource, response: &str) -> (r: Result<
    (),
    DriverError,
>)
    ensures
        r is Ok <==> spec_trigger_source_response(response.spec_bytes()) == Some(expected),
        r matches Err(e) ==> (spec_trigger_source_response(response.spec_bytes()) is None && e
            == DriverError::MalformedResponse) || (
        spec_trigger_source_response(response.spec_bytes()) matches Some(actual) && actual
            != expected && e == DriverError::Verification(
            VerificationError::TriggerSource {
                expected: expected.spec_code(),
                actual: actual.spec_code(),
            },
        )),
{
    match parse_trigger_source_response(response) {
        Ok(actual) => {
            if actual.code() == expected.code() {
                proof {
                    assert(actual == expected);
                }
                Ok(())
            } else {
                Err(
                    DriverError::Verification(
                        VerificationError::TriggerSource {
                            expected: expected.code(),
                            actual: actual.code(),
                        },
                    ),
                )
            }
        },
        Err(e) => Err(e),
    }
}

/// Check a trigger delay read-back: the response must be exactly the
/// decimal digits of the intended delay.
pub fn verify_trigger_delay(expected: u16, response: &str) -> (r: Result<(), DriverError>)
    ensures
        r is Ok <==> response.spec_bytes() == decimal_digits(expected as int),
        r matches Err(e) ==> response.spec_bytes() != decimal_digits(expected as int) && (
        e matches DriverError::Verification(v) && (v matches VerificationError::TriggerDelay {
            expected: ve,
            actual,
        } && ve == expected && actual@ == response@)),
{
    let digits = crate::text::u16_decimal(expected);
    let bytes: &[u8] = response.as_bytes();
    let mut same: bool = bytes.len() == digits.len();
    if same {
        let mut i: usize = 0;
        while i < digits.len() && same
            invariant
                i <= digits@.len(),
                bytes@.len() == digits@.len(),
                same ==> forall|k: int| 0 <= k < i ==> bytes@[k] == digits@[k],
                !same ==> bytes@ != digits@,
            decreases digits@.len() - i + (if same {
                1int
            } else {
                0int
            }),
        {
            if bytes[i] != digits[i] {
                same = false;
            } else {
                i = i + 1;
            }
        }
        proof {
            if same {
                assert(bytes@ =~= digits@);
            }
        }
    }
    if same {
        Ok(())
    } else {
        Err(
            DriverError::Verification(
                VerificationError::TriggerDelay { expected, actual: response.to_owned() },
            ),
        )
    }
}

/// What a sampling count query response carries: the numeric value after
/// an optional `SPN` echo.
pub open spec fn spec_sampling_count_response(s: Seq<u8>) -> Option<u16> {
    numeric_value(s, seq!['S' as u8, 'P' as u8, 'N' as u8])
}

/// Parse a sampling count query response.
pub fn parse_sampling_count_response(response: &str) -> (r: Result<u16, DriverError>)
    ensures
        r is Ok <==> spec_sampling_count_response(response.spec_bytes()) is Some,
        r matches Ok(count) ==> spec_sampling_count_response(response.spec_bytes()) == Some(count),
        r matches Err(e) ==> e == DriverError::MalformedResponse,
{
    let mut prefix: Vec<u8> = Vec::new();
    prefix.push('S' as u8);
    prefix.push('P' as u8);
    prefix.push('N' as u8);
    proof {
        assert(prefix@ =~= seq!['S' as u8, 'P' as u8, 'N' as u8]);
    }
    match parse_numeric_response(response, prefix.as_slice()) {
        Some(n) => Ok(n),
        None => Err(DriverError::MalformedResponse),
    }
}

/// Check a sampling count read-back against the intended count: a
/// mismatch names the setting with the intended and the observed value.
pub fn verify_sampling_count(expected: u16, response: &str) -> (r: Result<(), DriverError>)
    ensures
        r is Ok <==> spec_sampling_count_response(response.spec_bytes()) == Some(expected),
        r matches Err(e) ==> (spec_sampling_count_response(response.spec_bytes()) is None && e
            == DriverError::MalformedResponse) || (
        spec_sampling_count_response(response.spec_bytes()) matches Some(actual) && actual
            != expected && e == DriverError::Verification(
            VerificationError::SamplingCount { expected, actual },
        )),
{
    match parse_sampling_count_response(response) {
        Ok(actual) => {
            if actual == expected {
                Ok(())
            } else {
                Err(
                    DriverError::Verification(
                        VerificationError::SamplingCount { expected, actual },
                    ),
                )
            }
        },
        Err(e) => Err(e),
    }
}

impl Device {
    /// Leave the idle state (`INI`).
    pub fn start(&mut self) -> (r: Result<(), DriverError>)
        requires
            old(self).wf(),
        ensures
            final(self).wf(),
            final(self).timeout_millis() == old(self).timeout_millis(),
            r matches Err(e) ==> e == DriverError::Transport(TransportError::WriteFailed),
    {
        let mut cmd: Vec<u8> = Vec::new();
        cmd.push('I' as u8);
        cmd.push('N' as u8);
        cmd.push('I' as u8);
        self.write_frame(cmd.as_slice())
    }

    /// Enter the idle state (`ABO`).
    pub fn abort(&mut self) -> (r: Result<(), DriverError>)
        requires
            old(self).wf(),
        ensures
            final(self).wf(),
            final(self).timeout_millis() == old(self).timeout_millis(),
            r matches Err(e) ==> e == DriverError::Transport(TransportError::WriteFailed),
    {
        let mut cmd: Vec<u8> = Vec::new();
        cmd.push('A' as u8);
        cmd.push('B' as u8);
        cmd.push('O' as u8);
        self.write_frame(cmd.as_slice())
    }

    /// Query whether continuous measurement is enabled (`INIC?`).
    pub fn continuously_measure(&mut self) -> (r: Result<bool, DriverError>)
        requires
            old(self).wf(),
        ensures
            final(self).wf(),
            final(self).timeout_millis() == old(self).timeout_millis(),
            r matches Err(e) ==> e == DriverError::Transport(TransportError::WriteFailed) || e
                == DriverError::Transport(TransportError::ReadFailed) || e
                == DriverError::NonTextResponse || e == DriverError::MalformedResponse,
    {
        let mut cmd: Vec<u8> = Vec::new();
        cmd.push('I' as u8);
        cmd.push('N' as u8);
        cmd.push('I' as u8);
        cmd.push('C' as u8);
        cmd.push('?' as u8);
        let response = match self.query_frame(cmd.as_slice()) {
            Ok(s) => s,
            Err(e) => {
                return Err(e);
            },
        };
        parse_continuous_response(response.as_str())
    }

    /// Enable continuous measurement (`INIC1`), then read the state back
    /// and fail unless it is enabled.
    pub fn continuously_measure_enable(&mut self) -> (r: Result<(), DriverError>)
        requires
            old(self).wf(),
        ensures
            final(self).wf(),
            final(self).timeout_millis() == old(self).timeout_millis(),
            r matches Err(e) ==> e == DriverError::Transport(TransportError::WriteFailed) || e
                == DriverError::Transport(TransportError::ReadFailed) || e
                == DriverError::NonTextResponse || e == DriverError::MalformedResponse || e
                == DriverError::Verification(
                VerificationError::ContinuousMeasurement { expected: true, actual: false },
            ),
    {
        let mut cmd: Vec<u8> = Vec::new();
        cmd.push('I' as u8);
        cmd.push('N' as u8);
        cmd.push('I' as u8);
        cmd.push('C' as u8);
        cmd.push('1' as u8);
        if let Err(e) = self.write_frame(cmd.as_slice()) {
            return Err(e);
        }

        let mut query: Vec<u8> = Vec::new();
        query.push('I' as u8);
        query.push('N' as u8);
        query.push('I' as u8);
        query.push('C' as u8);
        query.push('?' as u8);
        let response = match self.query_frame(query.as_slice()) {
            Ok(s) => s,
            Err(e) => {
                return Err(e);
            },
        };
        verify_continuous_measurement(true, response.as_str())
    }

    /// Disable continuous measurement (`INIC0`), then read the state back
    /// and fail unless it is disabled.
    pub fn continuously_measure_disable(&mut self) -> (r: Result<(), DriverError>)
        requires
            old(self).wf(),
        ensures
            final(self).wf(),
            final(self).timeout_millis() == old(self).timeout_millis(),
            r matches Err(e) ==> e == DriverError::Transport(TransportError::WriteFailed) || e
                == DriverError::Transport(TransportError::ReadFailed) || e
                == DriverError::NonTextResponse || e == DriverError::MalformedResponse || e
                == DriverError::Verification(
                VerificationError::ContinuousMeasurement { expected: false, actual: true },
            ),
    {
        let mut cmd: Vec<u8> = Vec::new();
        cmd.push('I' as u8);
        cmd.push('N' as u8);
        cmd.push('I' as u8);
        cmd.push('C' as u8);
        cmd.push('0' as u8);
        if let Err(e) = self.write_frame(cmd.as_slice()) {
            return Err(e);
        }

        let mut query: Vec<u8> = Vec::new();
        query.push('I' as u8);
        query.push('N' as u8);
        query.push('I' as u8);
        query.push('C' as u8);
        query.push('?' as u8);
        let response = match self.query_frame(query.as_slice()) {
            Ok(s) => s,
            Err(e) => {
                return Err(e);
            },
        };
        verify_continuous_measurement(false, response.as_str())
    }

    /// Query the trigger source (`TRS?`).
    pub fn trigger_source(&mut self) -> (r: Result<TriggerSource, DriverError>)
        requires
            old(self).wf(),
        ensures
            final(self).wf(),
            final(self).timeout_millis() == old(self).timeout_millis(),
            r matches Err(e) ==> e == DriverError::Transport(TransportError::WriteFailed) || e
                == DriverError::Transport(TransportError::ReadFailed) || e
                == DriverError::NonTextResponse || e == DriverError::MalformedResponse,
    {
        let mut cmd: Vec<u8> = Vec::new();
        cmd.push('T' as u8);
        cmd.push('R' as u8);
        cmd.push('S' as u8);
        cmd.push('?' as u8);
        let response = match self.query_frame(cmd.as_slice()) {
            Ok(s) => s,
            Err(e) => {
                return Err(e);
            },
        };
        parse_trigger_source_response(response.as_str())
    }

    /// Set the trigger source (`TRS<code>`), then read it back and fail
    /// unless the instrument took it.
    pub fn trigger_source_set(&mut self, trigger_source: TriggerSource) -> (r: Result<
        (),
        DriverError,
    >)
        requires
            old(self).wf(),
        ensures
            final(self).wf(),
            final(self).timeout_millis() == old(self).timeout_millis(),
            r matches Err(e) ==> e == DriverError::Transport(TransportError::WriteFailed) || e
                == DriverError::Transport(TransportError::ReadFailed) || e
                == DriverError::NonTextResponse || e == DriverError::MalformedResponse || (
            e matches DriverError::Verification(v) && v matches VerificationError::TriggerSource {
                ..
            }),
    {
        let mut cmd: Vec<u8> = Vec::new();
        cmd.push('T' as u8);
        cmd.push('R' as u8);
        cmd.push('S' as u8);
        push_decimal(trigger_source.code() as u16, &mut cmd);
        proof {
            lemma_decimal_digits_len(trigger_source.spec_code() as int);
        }
        if let Err(e) = self.write_frame(cmd.as_slice()) {
            return Err(e);
        }

        let mut query: Vec<u8> = Vec::new();
        query.push('T' as u8);
        query.push('R' as u8);
        query.push('S' as u8);
        query.push('?' as u8);
        let response = match self.query_frame(query.as_slice()) {
            Ok(s) => s,
            Err(e) => {
                return Err(e);
            },
        };
        verify_trigger_source(trigger_source, response.as_str())
    }

    /// Query the trigger delay (`TRD?`), as raw text.
    pub fn trigger_delay(&mut self) -> (r: Result<String, DriverError>)
        requires
            old(self).wf(),
        ensures
            final(self).wf(),
            final(self).timeout_millis() == old(self).timeout_millis(),
            r matches Err(e) ==> e == DriverError::Transport(TransportError::WriteFailed) || e
                == DriverError::Transport(TransportError::ReadFailed) || e
                == DriverError::NonTextResponse,
    {
        let mut cmd: Vec<u8> = Vec::new();
        cmd.push('T' as u8);
        cmd.push('R' as u8);
        cmd.push('D' as u8);
        cmd.push('?' as u8);
        self.query_frame(cmd.as_slice())
    }

    /// Set the trigger delay (`TRD<value>`), then read it back and fail
    /// unless the echo is exactly the intended value.
    pub fn trigger_delay_set(&mut self, trigger_delay: u16) -> (r: Result<(), DriverError>)
        requires
            old(self).wf(),
        ensures
            final(self).wf(),
            final(self).timeout_millis() == old(self).timeout_millis(),
            r matches Err(e) ==> e == DriverError::Transport(TransportError::WriteFailed) || e
                == DriverError::Transport(TransportError::ReadFailed) || e
                == DriverError::NonTextResponse || (e matches DriverError::Verification(v) && (
            v matches VerificationError::TriggerDelay { expected, .. } && expected
                == trigger_delay)),
    {
        let mut cmd: Vec<u8> = Vec::new();
        cmd.push('T' as u8);
        cmd.push('R' as u8);
        cmd.push('D' as u8);
        push_decimal(trigger_delay, &mut cmd);
        proof {
            lemma_decimal_digits_len(trigger_delay as int);
        }
        if let Err(e) = self.write_frame(cmd.as_slice()) {
            return Err(e);
        }

        let response = match self.trigger_delay() {
            Ok(s) => s,
            Err(e) => {
                return Err(e);
            },
        };
        verify_trigger_delay(trigger_delay, response.as_str())
    }

    /// Query the sampling count (`SPN?`).
    pub fn sampling_count(&mut self) -> (r: Result<u16, DriverError>)
        requires
            old(self).wf(),
        ensures
            final(self).wf(),
            final(self).timeout_millis() == old(self).timeout_millis(),
            r matches Err(e) ==> e == DriverError::Transport(TransportError::WriteFailed) || e
                == DriverError::Transport(TransportError::ReadFailed) || e
                == DriverError::NonTextResponse || e == DriverError::MalformedResponse,
    {
        let mut cmd: Vec<u8> = Vec::new();
        cmd.push('S' as u8);
        cmd.push('P' as u8);
        cmd.push('N' as u8);
        cmd.push('?' as u8);
        let response = match self.query_frame(cmd.as_slice()) {
            Ok(s) => s,
            Err(e) => {
                return Err(e);
            },
        };
        parse_sampling_count_response(response.as_str())
    }

    /// Set the sampling count (`SPN<value>`), then read it back and fail
    /// unless the instrument took it.
    pub fn sampling_count_set(&mut self, sampling_count: u16) -> (r: Result<(), DriverError>)
        requires
            old(self).wf(),
        ensures
            final(self).wf(),
            final(self).timeout_millis() == old(self).timeout_millis(),
            r matches Err(e) ==> e == DriverError::Transport(TransportError::WriteFailed) || e
                == DriverError::Transport(TransportError::ReadFailed) || e
                == DriverError::NonTextResponse || e == DriverError::MalformedResponse || (
            e matches DriverError::Verification(v) && (v
                matches VerificationError::SamplingCount { expected, .. } && expected
                == sampling_count)),
    {
        let mut cmd: Vec<u8> = Vec::new();
        cmd.push('S' as u8);
        cmd.push('P' as u8);
        cmd.push('N' as u8);
        push_decimal(sampling_count, &mut cmd);
        proof {
            lemma_decimal_digits_len(sampling_count as int);
        }
        if let Err(e) = self.write_frame(cmd.as_slice()) {
            return Err(e);
        }

        let mut query: Vec<u8> = Vec::new();
        query.push('S' as u8);
        query.push('P' as u8);
        query.push('N' as u8);
        query.push('?' as u8);
        let response = match self.query_frame(query.as_slice()) {
            Ok(s) => s,
            Err(e) => {
                return Err(e);
            },
        };
        verify_sampling_count(sampling_count, response.as_str())
    }
}

} // verus!
