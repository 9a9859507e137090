//! Measurement settings: function, range, sampling rate, display digits,
//! auto zero, continuity threshold.
//!
//! Each setting is a fieldless enum with the instrument's numeric code,
//! a query that parses the echoed response, and a set command built from
//! the code. Responses look like `F1` or `PR2`: optional whitespace, an
//! optional echo of the command letters, then a decimal number.

use vstd::prelude::*;
use vstd::string::StringSliceAdditionalSpecFns;

use crate::device::Device;
use crate::error::DriverError;
use crate::error::TransportError;
use crate::text::decimal_digits;
use crate::text::lemma_decimal_digits_len;
use crate::text::numeric_value;
use crate::text::parse_numeric_response;
use crate::text::push_decimal;

verus! {

/// Measurement mode codes.
#[derive(Debug, Clone, Copy, PartialEq, Eq, Structural)]
pub enum FunctionCode {
    /// DC voltage measurement.
    DCV,
    /// AC voltage measurement.
    ACV,
    /// Resistance measurement.
    Resistance,
    /// DC current measurement.
    DCI,
    /// AC current measurement.
    ACI,
    /// AC voltage, AC+DC coupling.
    ACVCoupling,
    /// AC current, AC+DC coupling.
    ACICoupling,
    /// Diode measurement.
    Diode,
    /// Low power resistance measurement.
    ResistanceLowPower,
    /// Continuity test.
    Continuity,
    /// Frequency measurement.
    Frequency,
}

impl FunctionCode {
    /// The instrument's numeric code for this mode.
    pub open spec fn spec_code(self) -> u8 {
        match self {
            FunctionCode::DCV => 1,
            FunctionCode::ACV => 2,
            FunctionCode::Resistance => 3,
            FunctionCode::DCI => 5,
            FunctionCode::ACI => 6,
            FunctionCode::ACVCoupling => 7,
            FunctionCode::ACICoupling => 8,
            FunctionCode::Diode => 13,
            FunctionCode::ResistanceLowPower => 20,
            FunctionCode::Continuity => 22,
            FunctionCode::Frequency => 50,
        }
    }

    /// The mode a numeric code names, where one does.
    pub open spec fn spec_from(code: u8) -> Option<FunctionCode> {
        if code == 1 {
            Some(FunctionCode::DCV)
        } else if code == 2 {
            Some(FunctionCode::ACV)
        } else if code == 3 {
            Some(FunctionCode::Resistance)
        } else if code == 5 {
            Some(FunctionCode::DCI)
        } else if code == 6 {
            Some(FunctionCode::ACI)
        } else if code == 7 {
            Some(FunctionCode::ACVCoupling)
        } else if code == 8 {
            Some(FunctionCode::ACICoupling)
        } else if code == 13 {
            Some(FunctionCode::Diode)
        } else if code == 20 {
            Some(FunctionCode::ResistanceLowPower)
        } else if code == 22 {
            Some(FunctionCode::Continuity)
        } else if code == 50 {
            Some(FunctionCode::Frequency)
        } else {
            None
        }
    }

    /// The instrument's numeric code for this mode.
    pub fn code(self) -> (r: u8)
        ensures
            r == self.spec_code(),
    {
        match self {
            FunctionCode::DCV => 1,
            FunctionCode::ACV => 2,
            FunctionCode::Resistance => 3,
            FunctionCode::DCI => 5,
            FunctionCode::ACI => 6,
            FunctionCode::ACVCoupling => 7,
            FunctionCode::ACICoupling => 8,
            FunctionCode::Diode => 13,
            FunctionCode::ResistanceLowPower => 20,
            FunctionCode::Continuity => 22,
            FunctionCode::Frequency => 50,
        }
    }

    /// The mode a numeric code names, where one does.
    pub fn from_u8(code: u8) -> (r: Option<FunctionCode>)
        ensures
            r == FunctionCode::spec_from(code),
    {
        match code {
            1 => Some(FunctionCode::DCV),
            2 => Some(FunctionCode::ACV),
            3 => Some(FunctionCode::Resistance),
            5 => Some(FunctionCode::DCI),
            6 => Some(FunctionCode::ACI),
            7 => Some(FunctionCode::ACVCoupling),
            8 => Some(FunctionCode::ACICoupling),
            13 => Some(FunctionCode::Diode),
            20 => Some(FunctionCode::ResistanceLowPower),
            22 => Some(FunctionCode::Continuity),
            50 => Some(FunctionCode::Frequency),
            _ => None,
        }
    }
}

/// Law: a mode's code always names that mode back.
pub proof fn lemma_function_code_roundtrip(code: FunctionCode)
    ensures
        FunctionCode::spec_from(code.spec_code()) == Some(code),
{
}

/// Law: a range's code always names that range back.
pub proof fn lemma_raw_range_roundtrip(range: RawRange)
    ensures
        RawRange::spec_from(range.spec_code()) == Some(range),
{
}

/// Law: a rate's code always names that rate back.
pub proof fn lemma_sampling_rate_roundtrip(rate: SamplingRate)
    ensures
        SamplingRate::spec_from(rate.spec_code()) == Some(rate),
{
}

/// Law: a display digits code always names that setting back.
pub proof fn lemma_display_digits_roundtrip(digits: NumberOfDisplayDigits)
    ensures
        NumberOfDisplayDigits::spec_from(digits.spec_code()) == Some(digits),
{
}

/// Law: an auto zero code always names that setting back.
pub proof fn lemma_auto_zero_roundtrip(zero: AutoZero)
    ensures
        AutoZero::spec_from(zero.spec_code()) == Some(zero),
{
}

/// Raw measurement range codes, as the manual numbers them.
#[derive(Debug, Clone, Copy, PartialEq, Eq, Structural)]
pub enum RawRange {
    AUTO,
    R3,
    R4,
    R5,
    R6,
    R7,
    R8,
    R9,
}

impl RawRange {
    /// The instrument's numeric code for this range.
    pub open spec fn spec_code(self) -> u8 {
        match self {
            RawRange::AUTO => 0,
            RawRange::R3 => 3,
            RawRange::R4 => 4,
            RawRange::R5 => 5,
            RawRange::R6 => 6,
            RawRange::R7 => 7,
            RawRange::R8 => 8,
            RawRange::R9 => 9,
        }
    }

    /// The range a numeric code names, where one does.
    pub open spec fn spec_from(code: u8) -> Option<RawRange> {
        if code == 0 {
            Some(RawRange::AUTO)
        } else if code == 3 {
            Some(RawRange::R3)
        } else if code == 4 {
            Some(RawRange::R4)
        } else if code == 5 {
            Some(RawRange::R5)
        } else if code == 6 {
            Some(RawRange::R6)
        } else if code == 7 {
            Some(RawRange::R7)
        } else if code == 8 {
            Some(RawRange::R8)
        } else if code == 9 {
            Some(RawRange::R9)
        } else {
            None
        }
    }

    /// The instrument's numeric code for this range.
    pub fn code(self) -> (r: u8)
        ensures
            r == self.spec_code(),
    {
        match self {
            RawRange::AUTO => 0,
            RawRange::R3 => 3,
            RawRange::R4 => 4,
            RawRange::R5 => 5,
            RawRange::R6 => 6,
            RawRange::R7 => 7,
            RawRange::R8 => 8,
            RawRange::R9 => 9,
        }
    }

    /// The range a numeric code names, where one does.
    pub fn from_u8(code: u8) -> (r: Option<RawRange>)
        ensures
            r == RawRange::spec_from(code),
    {
        match code {
            0 => Some(RawRange::AUTO),
            3 => Some(RawRange::R3),
            4 => Some(RawRange::R4),
            5 => Some(RawRange::R5),
            6 => Some(RawRange::R6),
            7 => Some(RawRange::R7),
            8 => Some(RawRange::R8),
            9 => Some(RawRange::R9),
            _ => None,
        }
    }
}

/// DC voltage ranges.
#[derive(Debug, Clone, Copy, PartialEq, Eq, Structural)]
pub enum VoltageDCRange {
    /// Auto range.
    AUTO,
    /// 200 mV.
    V200m,
    /// 2 V.
    V2,
    /// 20 V.
    V20,
    /// 200 V.
    V200,
    /// 1000 V.
    V1000,
}

impl VoltageDCRange {
    /// The instrument's numeric code for this range.
    pub open spec fn spec_code(self) -> u8 {
        match self {
            VoltageDCRange::AUTO => 0,
            VoltageDCRange::V200m => 3,
            VoltageDCRange::V2 => 4,
            VoltageDCRange::V20 => 5,
            VoltageDCRange::V200 => 6,
            VoltageDCRange::V1000 => 7,
        }
    }

    /// The instrument's numeric code for this range.
    pub fn code(self) -> (r: u8)
        ensures
            r == self.spec_code(),
    {
        match self {
            VoltageDCRange::AUTO => 0,
            VoltageDCRange::V200m => 3,
            VoltageDCRange::V2 => 4,
            VoltageDCRange::V20 => 5,
            VoltageDCRange::V200 => 6,
            VoltageDCRange::V1000 => 7,
        }
    }
}

/// AC voltage ranges.
#[derive(Debug, Clone, Copy, PartialEq, Eq, Structural)]
pub enum VoltageACRange {
    /// Auto range.
    AUTO,
    /// 200 mV.
    V200m,
    /// 2 V.
    V2,
    /// 20 V.
    V20,
    /// 200 V.
    V200,
    /// 700 V.
    V700,
}

impl VoltageACRange {
    /// The instrument's numeric code for this range.
    pub open spec fn spec_code(self) -> u8 {
        match self {
            VoltageACRange::AUTO => 0,
            VoltageACRange::V200m => 3,
            VoltageACRange::V2 => 4,
            VoltageACRange::V20 => 5,
            VoltageACRange::V200 => 6,
            VoltageACRange::V700 => 7,
        }
    }

    /// The instrument's numeric code for this range.
    pub fn code(self) -> (r: u8)
        ensures
            r == self.spec_code(),
    {
        match self {
            VoltageACRange::AUTO => 0,
            VoltageACRange::V200m => 3,
            VoltageACRange::V2 => 4,
            VoltageACRange::V20 => 5,
            VoltageACRange::V200 => 6,
            VoltageACRange::V700 => 7,
        }
    }
}

/// Current ranges.
#[derive(Debug, Clone, Copy, PartialEq, Eq, Structural)]
pub enum CurrentRange {
    /// Auto range.
    AUTO,
    /// 200 mA.
    I200m,
    /// 2000 mA.
    I2000,
    /// 20 A.
    I10,
}

impl CurrentRange {
    /// The instrument's numeric code for this range.
    pub open spec fn spec_code(self) -> u8 {
        match self {
            CurrentRange::AUTO => 0,
            CurrentRange::I200m => 6,
            CurrentRange::I2000 => 7,
            CurrentRange::I10 => 8,
        }
    }

    /// The instrument's numeric code for this range.
    pub fn code(self) -> (r: u8)
        ensures
            r == self.spec_code(),
    {
        match self {
            CurrentRange::AUTO => 0,
            CurrentRange::I200m => 6,
            CurrentRange::I2000 => 7,
            CurrentRange::I10 => 8,
        }
    }
}

/// Resistance ranges.
#[derive(Debug, Clone, Copy, PartialEq, Eq, Structural)]
pub enum ResistanceRange {
    /// Auto range.
    AUTO,
    /// 200 ohm.
    R200,
    /// 2000 ohm.
    R2000,
    /// 20 kilo-ohm.
    R20k,
    /// 200 kilo-ohm.
    R200k,
    /// 2000 kilo-ohm.
    R2000k,
    /// 20 mega-ohm.
    R20M,
    /// 200 mega-ohm.
    R200M,
}

impl ResistanceRange {
    /// The instrument's numeric code for this range.
    pub open spec fn spec_code(self) -> u8 {
        match self {
            ResistanceRange::AUTO => 0,
            ResistanceRange::R200 => 3,
            ResistanceRange::R2000 => 4,
            ResistanceRange::R20k => 5,
            ResistanceRange::R200k => 6,
            ResistanceRange::R2000k => 7,
            ResistanceRange::R20M => 8,
            ResistanceRange::R200M => 9,
        }
    }

    /// The instrument's numeric code for this range.
    pub fn code(self) -> (r: u8)
        ensures
            r == self.spec_code(),
    {
        match self {
            ResistanceRange::AUTO => 0,
            ResistanceRange::R200 => 3,
            ResistanceRange::R2000 => 4,
            ResistanceRange::R20k => 5,
            ResistanceRange::R200k => 6,
            ResistanceRange::R2000k => 7,
            ResistanceRange::R20M => 8,
            ResistanceRange::R200M => 9,
        }
    }
}

/// Low power resistance ranges.
#[derive(Debug, Clone, Copy, PartialEq, Eq, Structural)]
pub enum ResistanceLowPowerRange {
    /// Auto range.
    AUTO,
    /// 200 ohm.
    R200,
    /// 2000 ohm.
    R2000,
    /// 20 kilo-ohm.
    R20k,
    /// 200 kilo-ohm.
    R200k,
    /// 2000 kilo-ohm.
    R2000k,
    /// 20 mega-ohm.
    R20M,
}

impl ResistanceLowPowerRange {
    /// The instrument's numeric code for this range.
    pub open spec fn spec_code(self) -> u8 {
        match self {
            ResistanceLowPowerRange::AUTO => 0,
            ResistanceLowPowerRange::R200 => 3,
            ResistanceLowPowerRange::R2000 => 4,
            ResistanceLowPowerRange::R20k => 5,
            ResistanceLowPowerRange::R200k => 6,
            ResistanceLowPowerRange::R2000k => 7,
            ResistanceLowPowerRange::R20M => 8,
        }
    }

    /// The instrument's numeric code for this range.
    pub fn code(self) -> (r: u8)
        ensures
            r == self.spec_code(),
    {
        match self {
            ResistanceLowPowerRange::AUTO => 0,
            ResistanceLowPowerRange::R200 => 3,
            ResistanceLowPowerRange::R2000 => 4,
            ResistanceLowPowerRange::R20k => 5,
            ResistanceLowPowerRange::R200k => 6,
            ResistanceLowPowerRange::R2000k => 7,
            ResistanceLowPowerRange::R20M => 8,
        }
    }
}

/// Frequency measurement voltage ranges.
#[derive(Debug, Clone, Copy, PartialEq, Eq, Structural)]
pub enum FrequencyVoltageRange {
    /// 200 mV.
    V200m,
    /// 2000 mV.
    V2000m,
    /// 20 V.
    V20,
    /// 200 V.
    V200,
    /// 700 V.
    V700,
}

impl FrequencyVoltageRange {
    /// The instrument's numeric code for this range.
    pub open spec fn spec_code(self) -> u8 {
        match self {
            FrequencyVoltageRange::V200m => 3,
            FrequencyVoltageRange::V2000m => 4,
            FrequencyVoltageRange::V20 => 5,
            FrequencyVoltageRange::V200 => 6,
            FrequencyVoltageRange::V700 => 7,
        }
    }

    /// The instrument's numeric code for this range.
    pub fn code(self) -> (r: u8)
        ensures
            r == self.spec_code(),
    {
        match self {
            FrequencyVoltageRange::V200m => 3,
            FrequencyVoltageRange::V2000m => 4,
            FrequencyVoltageRange::V20 => 5,
            FrequencyVoltageRange::V200 => 6,
            FrequencyVoltageRange::V700 => 7,
        }
    }
}

/// A mode together with its range, set by one combined command.
#[derive(Debug, Clone, Copy, PartialEq, Eq, Structural)]
pub enum ShortHand {
    /// DC voltage measurement.
    DCV(VoltageDCRange),
    /// AC voltage measurement.
    ACV(VoltageACRange),
    /// Resistance measurement.
    Resistance(ResistanceRange),
    /// DC current measurement.
    DCI(CurrentRange),
    /// AC current measurement.
    ACI(CurrentRange),
    /// AC voltage, AC+DC coupling.
    ACVCoupling(VoltageACRange),
    /// AC current, AC+DC coupling.
    ACICoupling(CurrentRange),
    /// Diode measurement.
    Diode,
    /// Low power resistance measurement.
    ResistanceLowPower(ResistanceLowPowerRange),
    /// Continuity test.
    Continuity,
    /// Frequency measurement.
    Frequency(FrequencyVoltageRange),
}

impl ShortHand {
    /// The mode code this shorthand selects.
    pub open spec fn spec_function_code(self) -> u8 {
        match self {
            ShortHand::DCV(_) => 1,
            ShortHand::ACV(_) => 2,
            ShortHand::Resistance(_) => 3,
            ShortHand::DCI(_) => 5,
            ShortHand::ACI(_) => 6,
            ShortHand::ACVCoupling(_) => 7,
            ShortHand::ACICoupling(_) => 8,
            ShortHand::Diode => 13,
            ShortHand::ResistanceLowPower(_) => 20,
            ShortHand::Continuity => 22,
            ShortHand::Frequency(_) => 50,
        }
    }

    /// The range code this shorthand selects, where it carries one.
    pub open spec fn spec_range_code(self) -> Option<u8> {
        match self {
            ShortHand::DCV(range) => Some(range.spec_code()),
            ShortHand::ACV(range) => Some(range.spec_code()),
            ShortHand::Resistance(range) => Some(range.spec_code()),
            ShortHand::DCI(range) => Some(range.spec_code()),
            ShortHand::ACI(range) => Some(range.spec_code()),
            ShortHand::ACVCoupling(range) => Some(range.spec_code()),
            ShortHand::ACICoupling(range) => Some(range.spec_code()),
            ShortHand::Diode => None,
            ShortHand::ResistanceLowPower(range) => Some(range.spec_code()),
            ShortHand::Continuity => None,
            ShortHand::Frequency(range) => Some(range.spec_code()),
        }
    }
}

/// The command a shorthand sends: `F<mode>` alone, or `F<mode>,R<range>`.
pub open spec fn shorthand_command(shorthand: ShortHand) -> Seq<u8> {
    let head = seq!['F' as u8] + decimal_digits(shorthand.spec_function_code() as int);
    match shorthand.spec_range_code() {
        Some(range) => head + seq![',' as u8, 'R' as u8] + decimal_digits(range as int),
        None => head,
    }
}

/// Build the combined mode-and-range command a shorthand stands for.
pub fn build_shorthand_command(shorthand: ShortHand) -> (r: Vec<u8>)
    ensures
        r@ == shorthand_command(shorthand),
        1 <= r@.len() <= 64,
{
    let mut cmd: Vec<u8> = Vec::new();
    cmd.push('F' as u8);
    let function_code = match shorthand {
        ShortHand::DCV(_) => 1,
        ShortHand::ACV(_) => 2,
        ShortHand::Resistance(_) => 3,
        ShortHand::DCI(_) => 5,
        ShortHand::ACI(_) => 6,
        ShortHand::ACVCoupling(_) => 7,
        ShortHand::ACICoupling(_) => 8,
        ShortHand::Diode => 13,
        ShortHand::ResistanceLowPower(_) => 20,
        ShortHand::Continuity => 22,
        ShortHand::Frequency(_) => 50,
    };
    push_decimal(function_code, &mut cmd);
    let range_code: Option<u8> = match shorthand {
        ShortHand::DCV(range) => Some(range.code()),
        ShortHand::ACV(range) => Some(range.code()),
        ShortHand::Resistance(range) => Some(range.code()),
        ShortHand::DCI(range) => Some(range.code()),
        ShortHand::ACI(range) => Some(range.code()),
        ShortHand::ACVCoupling(range) => Some(range.code()),
        ShortHand::ACICoupling(range) => Some(range.code()),
        ShortHand::Diode => None,
        ShortHand::ResistanceLowPower(range) => Some(range.code()),
        ShortHand::Continuity => None,
        ShortHand::Frequency(range) => Some(range.code()),
    };
    proof {
        lemma_decimal_digits_len(function_code as int);
    }
    if let Some(range) = range_code {
        cmd.push(',' as u8);
        cmd.push('R' as u8);
        push_decimal(range as u16, &mut cmd);
        proof {
            lemma_decimal_digits_len(range as int);
            assert(cmd@ =~= shorthand_command(shorthand));
        }
    } else {
        proof {
            assert(cmd@ =~= shorthand_command(shorthand));
        }
    }
    cmd
}

/// Sampling rates.
#[derive(Debug, Clone, Copy, PartialEq, Eq, Structural)]
pub enum SamplingRate {
    /// Fast sampling.
    FAST,
    /// Medium sampling.
    MEDIUM,
    /// Slow sampling, first step.
    SLOW1,
    /// Slow sampling, second step.
    SLOW2,
}

impl SamplingRate {
    /// The instrument's numeric code for this rate.
    pub open spec fn spec_code(self) -> u8 {
        match self {
            SamplingRate::FAST => 1,
            SamplingRate::MEDIUM => 2,
            SamplingRate::SLOW1 => 3,
            SamplingRate::SLOW2 => 4,
        }
    }

    /// The rate a numeric code names, where one does.
    pub open spec fn spec_from(code: u8) -> Option<SamplingRate> {
        if code == 1 {
            Some(SamplingRate::FAST)
        } else if code == 2 {
            Some(SamplingRate::MEDIUM)
        } else if code == 3 {
            Some(SamplingRate::SLOW1)
        } else if code == 4 {
            Some(SamplingRate::SLOW2)
        } else {
            None
        }
    }

    /// The instrument's numeric code for this rate.
    pub fn code(self) -> (r: u8)
        ensures
            r == self.spec_code(),
    {
        match self {
            SamplingRate::FAST => 1,
            SamplingRate::MEDIUM => 2,
            SamplingRate::SLOW1 => 3,
            SamplingRate::SLOW2 => 4,
        }
    }

    /// The rate a numeric code names, where one does.
    pub fn from_u8(code: u8) -> (r: Option<SamplingRate>)
        ensures
            r == SamplingRate::spec_from(code),
    {
        match code {
            1 => Some(SamplingRate::FAST),
            2 => Some(SamplingRate::MEDIUM),
            3 => Some(SamplingRate::SLOW1),
            4 => Some(SamplingRate::SLOW2),
            _ => None,
        }
    }
}

/// How many display digits the instrument shows.
#[derive(Debug, Clone, Copy, PartialEq, Eq, Structural)]
pub enum NumberOfDisplayDigits {
    /// 3 1/2 digits.
    ThreeAndAHalf,
    /// 4 1/2 digits.
    FourAndAHalf,
    /// 5 1/2 digits.
    FiveAndAHalf,
}

impl NumberOfDisplayDigits {
    /// The instrument's numeric code for this setting.
    pub open spec fn spec_code(self) -> u8 {
        match self {
            NumberOfDisplayDigits::ThreeAndAHalf => 3,
            NumberOfDisplayDigits::FourAndAHalf => 4,
            NumberOfDisplayDigits::FiveAndAHalf => 5,
        }
    }

    /// The setting a numeric code names, where one does.
    pub open spec fn spec_from(code: u8) -> Option<NumberOfDisplayDigits> {
        if code == 3 {
            Some(NumberOfDisplayDigits::ThreeAndAHalf)
        } else if code == 4 {
            Some(NumberOfDisplayDigits::FourAndAHalf)
        } else if code == 5 {
            Some(NumberOfDisplayDigits::FiveAndAHalf)
        } else {
            None
        }
    }

    /// The instrument's numeric code for this setting.
    pub fn code(self) -> (r: u8)
        ensures
            r == self.spec_code(),
    {
        match self {
            NumberOfDisplayDigits::ThreeAndAHalf => 3,
            NumberOfDisplayDigits::FourAndAHalf => 4,
            NumberOfDisplayDigits::FiveAndAHalf => 5,
        }
    }

    /// The setting a numeric code names, where one does.
    pub fn from_u8(code: u8) -> (r: Option<NumberOfDisplayDigits>)
        ensures
            r == NumberOfDisplayDigits::spec_from(code),
    {
        match code {
            3 => Some(NumberOfDisplayDigits::ThreeAndAHalf),
            4 => Some(NumberOfDisplayDigits::FourAndAHalf),
            5 => Some(NumberOfDisplayDigits::FiveAndAHalf),
            _ => None,
        }
    }
}

/// Auto zero settings.
#[derive(Debug, Clone, Copy, PartialEq, Eq, Structural)]
pub enum AutoZero {
    /// Manual zeroing only.
    Disable,
    /// Automatic zeroing.
    Enable,
    /// Zero once, now.
    Once,
}

impl AutoZero {
    /// The instrument's numeric code for this setting.
    pub open spec fn spec_code(self) -> u8 {
        match self {
            AutoZero::Disable => 0,
            AutoZero::Enable => 1,
            AutoZero::Once => 2,
        }
    }

    /// The setting a numeric code names, where one does.
    pub open spec fn spec_from(code: u8) -> Option<AutoZero> {
        if code == 0 {
            Some(AutoZero::Disable)
        } else if code == 1 {
            Some(AutoZero::Enable)
        } else if code == 2 {
            Some(AutoZero::Once)
        } else {
            None
        }
    }

    /// The instrument's numeric code for this setting.
    pub fn code(self) -> (r: u8)
        ensures
            r == self.spec_code(),
    {
        match self {
            AutoZero::Disable => 0,
            AutoZero::Enable => 1,
            AutoZero::Once => 2,
        }
    }

    /// The setting a numeric code names, where one does.
    pub fn from_u8(code: u8) -> (r: Option<AutoZero>)
        ensures
            r == AutoZero::spec_from(code),
    {
        match code {
            0 => Some(AutoZero::Disable),
            1 => Some(AutoZero::Enable),
            2 => Some(AutoZero::Once),
            _ => None,
        }
    }
}

/// What a mode query response names: the numeric value after an optional
/// `F` echo, taken as a mode where it is one.
pub open spec fn spec_function_response(s: Seq<u8>) -> Option<FunctionCode> {
    match numeric_value(s, seq!['F' as u8]) {
        Some(n) => if n <= 255 {
            FunctionCode::spec_from(n as u8)
        } else {
            None
        },
        None => None,
    }
}

/// Parse a mode query response.
pub fn parse_function_response(response: &str) -> (r: Result<FunctionCode, DriverError>)
    ensures
        r is Ok <==> spec_function_response(response.spec_bytes()) is Some,
        r matches Ok(code) ==> spec_function_response(response.spec_bytes()) == Some(code),
        r matches Err(e) ==> e == DriverError::MalformedResponse,
{
    let mut prefix: Vec<u8> = Vec::new();
    prefix.push('F' as u8);
    proof {
        assert(prefix@ =~= seq!['F' as u8]);
    }
    match parse_numeric_response(response, prefix.as_slice()) {
        Some(n) => {
            if n <= 255 {
                match FunctionCode::from_u8(n as u8) {
                    Some(code) => Ok(code),
                    None => Err(DriverError::MalformedResponse),
                }
            } else {
                Err(DriverError::MalformedResponse)
            }
        },
        None => Err(DriverError::MalformedResponse),
    }
}

/// What a range query response names, after an optional `R` echo.
pub open spec fn spec_range_response(s: Seq<u8>) -> Option<RawRange> {
    match numeric_value(s, seq!['R' as u8]) {
        Some(n) => if n <= 255 {
            RawRange::spec_from(n as u8)
        } else {
            None
        },
        None => None,
    }
}

/// Parse a range query response.
pub fn parse_range_response(response: &str) -> (r: Result<RawRange, DriverError>)
    ensures
        r is Ok <==> spec_range_response(response.spec_bytes()) is Some,
        r matches Ok(range) ==> spec_range_response(response.spec_bytes()) == Some(range),
        r matches Err(e) ==> e == DriverError::MalformedResponse,
{
    let mut prefix: Vec<u8> = Vec::new();
    prefix.push('R' as u8);
    proof {
        assert(prefix@ =~= seq!['R' as u8]);
    }
    match parse_numeric_response(response, prefix.as_slice()) {
        Some(n) => {
            if n <= 255 {
                match RawRange::from_u8(n as u8) {
                    Some(range) => Ok(range),
                    None => Err(DriverError::MalformedResponse),
                }
            } else {
                Err(DriverError::MalformedResponse)
            }
        },
        None => Err(DriverError::MalformedResponse),
    }
}

/// What a readiness query response says: the body after an optional
/// `INH?` echo, compared against `0` ("ready").
pub open spec fn spec_ready_response(s: Seq<u8>) -> bool {
    crate::text::response_body_bytes(
        s,
        seq!['I' as u8, 'N' as u8, 'H' as u8, '?' as u8],
    ) == seq!['0' as u8]
}

/// Parse a readiness query response: `0` means ready.
pub fn parse_ready_response(response: &str) -> (r: bool)
    ensures
        r == spec_ready_response(response.spec_bytes()),
{
    let mut prefix: Vec<u8> = Vec::new();
    prefix.push('I' as u8);
    prefix.push('N' as u8);
    prefix.push('H' as u8);
    prefix.push('?' as u8);
    proof {
        assert(prefix@ =~= seq!['I' as u8, 'N' as u8, 'H' as u8, '?' as u8]);
    }
    let body = crate::text::response_body(response, prefix.as_slice());
    if body.len() == 1 {
        let is_zero = body[0] == '0' as u8;
        proof {
            if is_zero {
                assert(body@ =~= seq!['0' as u8]);
            } else {
                assert(body@ != seq!['0' as u8]);
            }
        }
        is_zero
    } else {
        proof {
            assert(body@.len() != 1);
        }
        false
    }
}

/// What a sampling rate query response names, after an optional `PR` echo.
pub open spec fn spec_sampling_rate_response(s: Seq<u8>) -> Option<SamplingRate> {
    match numeric_value(s, seq!['P' as u8, 'R' as u8]) {
        Some(n) => if n <= 255 {
            SamplingRate::spec_from(n as u8)
        } else {
            None
        },
        None => None,
    }
}

/// Parse a sampling rate query response.
pub fn parse_sampling_rate_response(response: &str) -> (r: Result<SamplingRate, DriverError>)
    ensures
        r is Ok <==> spec_sampling_rate_response(response.spec_bytes()) is Some,
        r matches Ok(rate) ==> spec_sampling_rate_response(response.spec_bytes()) == Some(rate),
        r matches Err(e) ==> e == DriverError::MalformedResponse,
{
    let mut prefix: Vec<u8> = Vec::new();
    prefix.push('P' as u8);
    prefix.push('R' as u8);
    proof {
        assert(prefix@ =~= seq!['P' as u8, 'R' as u8]);
    }
    match parse_numeric_response(response, prefix.as_slice()) {
        Some(n) => {
            if n <= 255 {
                match SamplingRate::from_u8(n as u8) {
                    Some(rate) => Ok(rate),
                    None => Err(DriverError::MalformedResponse),
                }
            } else {
                Err(DriverError::MalformedResponse)
            }
        },
        None => Err(DriverError::MalformedResponse),
    }
}

/// What a display digits query response names, after an optional `RE`
/// echo.
pub open spec fn spec_display_digits_response(s: Seq<u8>) -> Option<NumberOfDisplayDigits> {
    match numeric_value(s, seq!['R' as u8, 'E' as u8]) {
        Some(n) => if n <= 255 {
            NumberOfDisplayDigits::spec_from(n as u8)
        } else {
            None
        },
        None => None,
    }
}

/// Parse a display digits query response.
pub fn parse_display_digits_response(response: &str) -> (r: Result<
    NumberOfDisplayDigits,
    DriverError,
>)
    ensures
        r is Ok <==> spec_display_digits_response(response.spec_bytes()) is Some,
        r matches Ok(digits) ==> spec_display_digits_response(response.spec_bytes()) == Some(
            digits,
        ),
        r matches Err(e) ==> e == DriverError::MalformedResponse,
{
    let mut prefix: Vec<u8> = Vec::new();
    prefix.push('R' as u8);
    prefix.push('E' as u8);
    proof {
        assert(prefix@ =~= seq!['R' as u8, 'E' as u8]);
    }
    match parse_numeric_response(response, prefix.as_slice()) {
        Some(n) => {
            if n <= 255 {
                match NumberOfDisplayDigits::from_u8(n as u8) {
                    Some(digits) => Ok(digits),
                    None => Err(DriverError::MalformedResponse),
                }
            } else {
                Err(DriverError::MalformedResponse)
            }
        },
        None => Err(DriverError::MalformedResponse),
    }
}

/// What an auto zero query response names, after an optional `AZ` echo.
pub open spec fn spec_auto_zero_response(s: Seq<u8>) -> Option<AutoZero> {
    match numeric_value(s, seq!['A' as u8, 'Z' as u8]) {
        Some(n) => if n <= 255 {
            AutoZero::spec_from(n as u8)
        } else {
            None
        },
        None => None,
    }
}

/// Parse an auto zero query response.
pub fn parse_auto_zero_response(response: &str) -> (r: Result<AutoZero, DriverError>)
    ensures
        r is Ok <==> spec_auto_zero_response(response.spec_bytes()) is Some,
        r matches Ok(zero) ==> spec_auto_zero_response(response.spec_bytes()) == Some(zero),
        r matches Err(e) ==> e == DriverError::MalformedResponse,
{
    let mut prefix: Vec<u8> = Vec::new();
    prefix.push('A' as u8);
    prefix.push('Z' as u8);
    proof {
        assert(prefix@ =~= seq!['A' as u8, 'Z' as u8]);
    }
    match parse_numeric_response(response, prefix.as_slice()) {
        Some(n) => {
            if n <= 255 {
                match AutoZero::from_u8(n as u8) {
                    Some(zero) => Ok(zero),
                    None => Err(DriverError::MalformedResponse),
                }
            } else {
                Err(DriverError::MalformedResponse)
            }
        },
        None => Err(DriverError::MalformedResponse),
    }
}

impl Device {
    /// Query the current measurement mode (`F?`).
    pub fn function(&mut self) -> (r: Result<FunctionCode, DriverError>)
        requires
            old(self).wf(),
        ensures
            final(self).wf(),
            final(self).timeout_millis() == old(self).timeout_millis(),
            r matches Err(e) ==> e == DriverError::Transport(TransportError::WriteFailed) || e
                == DriverError::Transport(TransportError::ReadFailed) || e
                == DriverError::NonTextResponse || e == DriverError::MalformedResponse,
    {
        let mut cmd: Vec<u8> = Vec::new();
        cmd.push('F' as u8);
        cmd.push('?' as u8);
        proof {
            assert(cmd@ =~= seq!['F' as u8, '?' as u8]);
        }
        let response = match self.query_frame(cmd.as_slice()) {
            Ok(s) => s,
            Err(e) => {
                return Err(e);
            },
        };
        parse_function_response(response.as_str())
    }

    /// Switch to the given measurement mode (`F<code>`).
    pub fn function_set(&mut self, function_code: FunctionCode) -> (r: Result<(), DriverError>)
        requires
            old(self).wf(),
        ensures
            final(self).wf(),
            final(self).timeout_millis() == old(self).timeout_millis(),
            r matches Err(e) ==> e == DriverError::Transport(TransportError::WriteFailed),
    {
        let mut cmd: Vec<u8> = Vec::new();
        cmd.push('F' as u8);
        proof {
            assert(cmd@ =~= seq!['F' as u8]);
        }
        push_decimal(function_code.code() as u16, &mut cmd);
        proof {
            lemma_decimal_digits_len(function_code.spec_code() as int);
        }
        self.write_frame(cmd.as_slice())
    }

    /// Ask whether the given mode is ready (`INH?<code>`): the instrument
    /// answers `0` when it is.
    pub fn function_ready(&mut self, function_code: FunctionCode) -> (r: Result<bool, DriverError>)
        requires
            old(self).wf(),
        ensures
            final(self).wf(),
            final(self).timeout_millis() == old(self).timeout_millis(),
            r matches Err(e) ==> e == DriverError::Transport(TransportError::WriteFailed) || e
                == DriverError::Transport(TransportError::ReadFailed) || e
                == DriverError::NonTextResponse,
    {
        let mut cmd: Vec<u8> = Vec::new();
        cmd.push('I' as u8);
        cmd.push('N' as u8);
        cmd.push('H' as u8);
        cmd.push('?' as u8);
        proof {
            assert(cmd@ =~= seq!['I' as u8, 'N' as u8, 'H' as u8, '?' as u8]);
        }
        push_decimal(function_code.code() as u16, &mut cmd);
        proof {
            lemma_decimal_digits_len(function_code.spec_code() as int);
        }
        let response = match self.query_frame(cmd.as_slice()) {
            Ok(s) => s,
            Err(e) => {
                return Err(e);
            },
        };
        Ok(parse_ready_response(response.as_str()))
    }

    /// Query the current range (`R?`).
    pub fn range(&mut self) -> (r: Result<RawRange, DriverError>)
        requires
            old(self).wf(),
        ensures
            final(self).wf(),
            final(self).timeout_millis() == old(self).timeout_millis(),
            r matches Err(e) ==> e == DriverError::Transport(TransportError::WriteFailed) || e
                == DriverError::Transport(TransportError::ReadFailed) || e
                == DriverError::NonTextResponse || e == DriverError::MalformedResponse,
    {
        let mut cmd: Vec<u8> = Vec::new();
        cmd.push('R' as u8);
        cmd.push('?' as u8);
        proof {
            assert(cmd@ =~= seq!['R' as u8, '?' as u8]);
        }
        let response = match self.query_frame(cmd.as_slice()) {
            Ok(s) => s,
            Err(e) => {
                return Err(e);
            },
        };
        parse_range_response(response.as_str())
    }

    /// Set the range (`R<code>`).
    pub fn range_set(&mut self, raw_range: RawRange) -> (r: Result<(), DriverError>)
        requires
            old(self).wf(),
        ensures
            final(self).wf(),
            final(self).timeout_millis() == old(self).timeout_millis(),
            r matches Err(e) ==> e == DriverError::Transport(TransportError::WriteFailed),
    {
        let mut cmd: Vec<u8> = Vec::new();
        cmd.push('R' as u8);
        proof {
            assert(cmd@ =~= seq!['R' as u8]);
        }
        push_decimal(raw_range.code() as u16, &mut cmd);
        proof {
            lemma_decimal_digits_len(raw_range.spec_code() as int);
        }
        self.write_frame(cmd.as_slice())
    }

    /// Leave automatic ranging by fixing the present range (`RX`).
    pub fn range_fix(&mut self) -> (r: Result<(), DriverError>)
        requires
            old(self).wf(),
        ensures
            final(self).wf(),
            final(self).timeout_millis() == old(self).timeout_millis(),
            r matches Err(e) ==> e == DriverError::Transport(TransportError::WriteFailed),
    {
        let mut cmd: Vec<u8> = Vec::new();
        cmd.push('R' as u8);
        cmd.push('X' as u8);
        proof {
            assert(cmd@ =~= seq!['R' as u8, 'X' as u8]);
        }
        self.write_frame(cmd.as_slice())
    }

    /// Set mode and range in one command (`F<mode>,R<range>`).
    pub fn shorthand(&mut self, shorthand: ShortHand) -> (r: Result<(), DriverError>)
        requires
            old(self).wf(),
        ensures
            final(self).wf(),
            final(self).timeout_millis() == old(self).timeout_millis(),
            r matches Err(e) ==> e == DriverError::Transport(TransportError::WriteFailed),
    {
        let cmd = build_shorthand_command(shorthand);
        self.write_frame(cmd.as_slice())
    }

    /// Query the sampling rate (`PR?`).
    pub fn sampling_rate(&mut self) -> (r: Result<SamplingRate, DriverError>)
        requires
            old(self).wf(),
        ensures
            final(self).wf(),
            final(self).timeout_millis() == old(self).timeout_millis(),
            r matches Err(e) ==> e == DriverError::Transport(TransportError::WriteFailed) || e
                == DriverError::Transport(TransportError::ReadFailed) || e
                == DriverError::NonTextResponse || e == DriverError::MalformedResponse,
    {
        let mut cmd: Vec<u8> = Vec::new();
        cmd.push('P' as u8);
        cmd.push('R' as u8);
        cmd.push('?' as u8);
        proof {
            assert(cmd@ =~= seq!['P' as u8, 'R' as u8, '?' as u8]);
        }
        let response = match self.query_frame(cmd.as_slice()) {
            Ok(s) => s,
            Err(e) => {
                return Err(e);
            },
        };
        parse_sampling_rate_response(response.as_str())
    }

    /// Set the sampling rate (`PR<code>`).
    pub fn sampling_rate_set(&mut self, sampling_rate: SamplingRate) -> (r: Result<
        (),
        DriverError,
    >)
        requires
            old(self).wf(),
        ensures
            final(self).wf(),
            final(self).timeout_millis() == old(self).timeout_millis(),
            r matches Err(e) ==> e == DriverError::Transport(TransportError::WriteFailed),
    {
        let mut cmd: Vec<u8> = Vec::new();
        cmd.push('P' as u8);
        cmd.push('R' as u8);
        proof {
            assert(cmd@ =~= seq!['P' as u8, 'R' as u8]);
        }
        push_decimal(sampling_rate.code() as u16, &mut cmd);
        proof {
            lemma_decimal_digits_len(sampling_rate.spec_code() as int);
        }
        self.write_frame(cmd.as_slice())
    }

    /// Query the number of display digits (`RE?`).
    pub fn number_of_display_digits(&mut self) -> (r: Result<NumberOfDisplayDigits, DriverError>)
        requires
            old(self).wf(),
        ensures
            final(self).wf(),
            final(self).timeout_millis() == old(self).timeout_millis(),
            r matches Err(e) ==> e == DriverError::Transport(TransportError::WriteFailed) || e
                == DriverError::Transport(TransportError::ReadFailed) || e
                == DriverError::NonTextResponse || e == DriverError::MalformedResponse,
    {
        let mut cmd: Vec<u8> = Vec::new();
        cmd.push('R' as u8);
        cmd.push('E' as u8);
        cmd.push('?' as u8);
        proof {
            assert(cmd@ =~= seq!['R' as u8, 'E' as u8, '?' as u8]);
        }
        let response = match self.query_frame(cmd.as_slice()) {
            Ok(s) => s,
            Err(e) => {
                return Err(e);
            },
        };
        parse_display_digits_response(response.as_str())
    }

    /// Set the number of display digits (`RE<code>`).
    pub fn number_of_display_digits_set(
        &mut self,
        number_of_display_digits: NumberOfDisplayDigits,
    ) -> (r: Result<(), DriverError>)
        requires
            old(self).wf(),
        ensures
            final(self).wf(),
            final(self).timeout_millis() == old(self).timeout_millis(),
            r matches Err(e) ==> e == DriverError::Transport(TransportError::WriteFailed),
    {
        let mut cmd: Vec<u8> = Vec::new();
        cmd.push('R' as u8);
        cmd.push('E' as u8);
        proof {
            assert(cmd@ =~= seq!['R' as u8, 'E' as u8]);
        }
        push_decimal(number_of_display_digits.code() as u16, &mut cmd);
        proof {
            lemma_decimal_digits_len(number_of_display_digits.spec_code() as int);
        }
        self.write_frame(cmd.as_slice())
    }

    /// Query the auto zero setting (`AZ?`).
    pub fn auto_zero(&mut self) -> (r: Result<AutoZero, DriverError>)
        requires
            old(self).wf(),
        ensures
            final(self).wf(),
            final(self).timeout_millis() == old(self).timeout_millis(),
            r matches Err(e) ==> e == DriverError::Transport(TransportError::WriteFailed) || e
                == DriverError::Transport(TransportError::ReadFailed) || e
                == DriverError::NonTextResponse || e == DriverError::MalformedResponse,
    {
        let mut cmd: Vec<u8> = Vec::new();
        cmd.push('A' as u8);
        cmd.push('Z' as u8);
        cmd.push('?' as u8);
        proof {
            assert(cmd@ =~= seq!['A' as u8, 'Z' as u8, '?' as u8]);
        }
        let response = match self.query_frame(cmd.as_slice()) {
            Ok(s) => s,
            Err(e) => {
                return Err(e);
            },
        };
        parse_auto_zero_response(response.as_str())
    }

    /// Set the auto zero behaviour (`AZ<code>`).
    pub fn auto_zero_set(&mut self, auto_zero: AutoZero) -> (r: Result<(), DriverError>)
        requires
            old(self).wf(),
        ensures
            final(self).wf(),
            final(self).timeout_millis() == old(self).timeout_millis(),
            r matches Err(e) ==> e == DriverError::Transport(TransportError::WriteFailed),
    {
        let mut cmd: Vec<u8> = Vec::new();
        cmd.push('A' as u8);
        cmd.push('Z' as u8);
        proof {
            assert(cmd@ =~= seq!['A' as u8, 'Z' as u8]);
        }
        push_decimal(auto_zero.code() as u16, &mut cmd);
        proof {
            lemma_decimal_digits_len(auto_zero.spec_code() as int);
        }
        self.write_frame(cmd.as_slice())
    }

    /// Query the continuity threshold constant (`KOM?`), as raw text.
    pub fn continuity_threshold_constant(&mut self) -> (r: Result<String, DriverError>)
        requires
            old(self).wf(),
        ensures
            final(self).wf(),
            final(self).timeout_millis() == old(self).timeout_millis(),
            r matches Err(e) ==> e == DriverError::Transport(TransportError::WriteFailed) || e
                == DriverError::Transport(TransportError::ReadFailed) || e
                == DriverError::NonTextResponse,
    {
        let mut cmd: Vec<u8> = Vec::new();
        cmd.push('K' as u8);
        cmd.push('O' as u8);
        cmd.push('M' as u8);
        cmd.push('?' as u8);
        proof {
            assert(cmd@ =~= seq!['K' as u8, 'O' as u8, 'M' as u8, '?' as u8]);
        }
        self.query_frame(cmd.as_slice())
    }

    /// Set the continuity threshold constant (`KOM<value>`).
    pub fn continuity_threshold_constant_set(
        &mut self,
        continuity_threshold_constant: u16,
    ) -> (r: Result<(), DriverError>)
        requires
            old(self).wf(),
        ensures
            final(self).wf(),
            final(self).timeout_millis() == old(self).timeout_millis(),
            r matches Err(e) ==> e == DriverError::Transport(TransportError::WriteFailed),
    {
        let mut cmd: Vec<u8> = Vec::new();
        cmd.push('K' as u8);
        cmd.push('O' as u8);
        cmd.push('M' as u8);
        proof {
            assert(cmd@ =~= seq!['K' as u8, 'O' as u8, 'M' as u8]);
        }
        push_decimal(continuity_threshold_constant, &mut cmd);
        proof {
            lemma_decimal_digits_len(continuity_threshold_constant as int);
        }
        self.write_frame(cmd.as_slice())
    }
}

} // verus!
