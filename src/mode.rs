use vstd::prelude::*;

use crate::text::str_eq;

verus! {

/// Measuring mode of the meter: a quantity together with the way it is measured
/// (plain, relative, peak, AC+DC, frequency, low-pass, dB-referenced).
#[derive(Clone, Copy, Debug, PartialEq, Eq, Structural)]
pub enum Mode {
    VacNormal,
    VacNormalRel,
    VacHz,
    VacPeak,
    VacLowPass,
    VacLowPassRel,
    VacDbv,
    VacDbvRel,
    VacDbm,
    VacDbmRel,
    MvacNormal,
    MvacNormalRel,
    MvacHz,
    MvacPeak,
    MvacAcDc,
    MvacAcDcRel,
    VdcNormal,
    VdcNormalRel,
    VdcAcDc,
    VdcAcDcRel,
    VdcPeak,
    MvdcNormal,
    MvdcNormalRel,
    MvdcPeak,
    TempCT1T2,
    TempCT1T2Rel,
    TempCT2T1,
    TempCT2T1Rel,
    TempCT1T2Diff,
    TempCT2T1Diff,
    TempFT1T2,
    TempFT1T2Rel,
    TempFT2T1,
    TempFT2T1Rel,
    TempFT1T2Diff,
    TempFT2T1Diff,
    Resistance,
    ResistanceRel,
    BeeperShort,
    BeeperOpen,
    Admittance,
    AdmittanceRel,
    DiodeNormal,
    DiodeAlarm,
    Capacitance,
    CapacitanceRel,
    Frequency,
    FrequencyRel,
    DutyCycle,
    DutyCycleRel,
    PulseWidth,
    PulseWidthRel,
    UadcNormal,
    UadcNormalRel,
    UadcAcDc,
    UadcAcDcRel,
    UadcPeak,
    MadcNormal,
    MadcNormalRel,
    MadcAcDc,
    MadcAcDcRel,
    MadcPeak,
    AdcNormal,
    AdcNormalRel,
    AdcAcDc,
    AdcAcDcRel,
    AdcPeak,
    UaacNormal,
    UaacNormalRel,
    UaacHz,
    UaacPeak,
    MaacNormal,
    MaacNormalRel,
    MaacHz,
    MaacPeak,
    AacNormal,
    AacNormalRel,
    AacHz,
    AacPeak,
}

/// Grouping of modes that share one unit system and one set of legal range steps.
#[derive(Clone, Copy, Debug, PartialEq, Eq, Structural)]
pub enum Family {
    /// Millivolts, direct current.
    MilliVoltDc,
    /// Millivolts, alternating current.
    MilliVoltAc,
    /// Volts, direct current.
    VoltDc,
    /// Volts, alternating current.
    VoltAc,
    /// Thermocouple temperature; a single fixed range.
    Temperature,
    /// Resistance and continuity.
    Resistance,
    /// Admittance (conductance).
    Admittance,
    /// Diode test.
    Diode,
    /// Capacitance.
    Capacitance,
    /// Frequency, duty cycle and pulse width.
    Frequency,
    /// Microamperes, direct current.
    MicroAmpDc,
    /// Microamperes, alternating current.
    MicroAmpAc,
    /// Milliamperes, direct current.
    MilliAmpDc,
    /// Milliamperes, alternating current.
    MilliAmpAc,
    /// Amperes, direct current.
    AmpDc,
    /// Amperes, alternating current.
    AmpAc,
}

/// Range step of the meter. What a step spans depends on the family of the mode.
#[derive(Clone, Copy, Debug, PartialEq, Eq, Structural)]
pub enum RangeStep {
    Auto,
    Step1,
    Step2,
    Step3,
    Step4,
    Step5,
    Step6,
    Step7,
    Step8,
}

/// Number of modes; `mode_at` enumerates them by the indices below it.
pub const MODE_COUNT: usize = 79;

/// The family of each mode. Every mode has exactly one.
pub open spec fn spec_family_of(m: Mode) -> Family {
    match m {
        Mode::MvdcNormal
        | Mode::MvdcNormalRel
        | Mode::MvdcPeak => Family::MilliVoltDc,
        Mode::MvacNormal
        | Mode::MvacNormalRel
        | Mode::MvacHz
        | Mode::MvacPeak
        | Mode::MvacAcDc
        | Mode::MvacAcDcRel => Family::MilliVoltAc,
        Mode::VdcNormal
        | Mode::VdcNormalRel
        | Mode::VdcAcDc
        | Mode::VdcAcDcRel
        | Mode::VdcPeak => Family::VoltDc,
        Mode::VacNormal
        | Mode::VacNormalRel
        | Mode::VacHz
        | Mode::VacPeak
        | Mode::VacLowPass
        | Mode::VacLowPassRel
        | Mode::VacDbv
        | Mode::VacDbvRel
        | Mode::VacDbm
        | Mode::VacDbmRel => Family::VoltAc,
        Mode::TempCT1T2
        | Mode::TempCT1T2Rel
        | Mode::TempCT2T1
        | Mode::TempCT2T1Rel
        | Mode::TempCT1T2Diff
        | Mode::TempCT2T1Diff
        | Mode::TempFT1T2
        | Mode::TempFT1T2Rel
        | Mode::TempFT2T1
        | Mode::TempFT2T1Rel
        | Mode::TempFT1T2Diff
        | Mode::TempFT2T1Diff => Family::Temperature,
        Mode::Resistance
        | Mode::ResistanceRel
        | Mode::BeeperShort
        | Mode::BeeperOpen => Family::Resistance,
        Mode::Admittance
        | Mode::AdmittanceRel => Family::Admittance,
        Mode::DiodeNormal
        | Mode::DiodeAlarm => Family::Diode,
        Mode::Capacitance
        | Mode::CapacitanceRel => Family::Capacitance,
        Mode::Frequency
        | Mode::FrequencyRel
        | Mode::DutyCycle
        | Mode::DutyCycleRel
        | Mode::PulseWidth
        | Mode::PulseWidthRel => Family::Frequency,
        Mode::UadcNormal
        | Mode::UadcNormalRel
        | Mode::UadcAcDc
        | Mode::UadcAcDcRel
        | Mode::UadcPeak => Family::MicroAmpDc,
        Mode::UaacNormal
        | Mode::UaacNormalRel
        | Mode::UaacHz
        | Mode::UaacPeak => Family::MicroAmpAc,
        Mode::MadcNormal
        | Mode::MadcNormalRel
        | Mode::MadcAcDc
        | Mode::MadcAcDcRel
        | Mode::MadcPeak => Family::MilliAmpDc,
        Mode::MaacNormal
        | Mode::MaacNormalRel
        | Mode::MaacHz
        | Mode::MaacPeak => Family::MilliAmpAc,
        Mode::AdcNormal
        | Mode::AdcNormalRel
        | Mode::AdcAcDc
        | Mode::AdcAcDcRel
        | Mode::AdcPeak => Family::AmpDc,
        Mode::AacNormal
        | Mode::AacNormalRel
        | Mode::AacHz
        | Mode::AacPeak => Family::AmpAc,
    }
}

/// The family of a mode.
pub fn family_of(m: Mode) -> (f: Family)
    ensures
        f == spec_family_of(m),
{
    match m {
        Mode::MvdcNormal
        | Mode::MvdcNormalRel
        | Mode::MvdcPeak => Family::MilliVoltDc,
        Mode::MvacNormal
        | Mode::MvacNormalRel
        | Mode::MvacHz
        | Mode::MvacPeak
        | Mode::MvacAcDc
        | Mode::MvacAcDcRel => Family::MilliVoltAc,
        Mode::VdcNormal
        | Mode::VdcNormalRel
        | Mode::VdcAcDc
        | Mode::VdcAcDcRel
        | Mode::VdcPeak => Family::VoltDc,
        Mode::VacNormal
        | Mode::VacNormalRel
        | Mode::VacHz
        | Mode::VacPeak
        | Mode::VacLowPass
        | Mode::VacLowPassRel
        | Mode::VacDbv
        | Mode::VacDbvRel
        | Mode::VacDbm
        | Mode::VacDbmRel => Family::VoltAc,
        Mode::TempCT1T2
        | Mode::TempCT1T2Rel
        | Mode::TempCT2T1
        | Mode::TempCT2T1Rel
        | Mode::TempCT1T2Diff
        | Mode::TempCT2T1Diff
        | Mode::TempFT1T2
        | Mode::TempFT1T2Rel
        | Mode::TempFT2T1
        | Mode::TempFT2T1Rel
        | Mode::TempFT1T2Diff
        | Mode::TempFT2T1Diff => Family::Temperature,
        Mode::Resistance
        | Mode::ResistanceRel
        | Mode::BeeperShort
        | Mode::BeeperOpen => Family::Resistance,
        Mode::Admittance
        | Mode::AdmittanceRel => Family::Admittance,
        Mode::DiodeNormal
        | Mode::DiodeAlarm => Family::Diode,
        Mode::Capacitance
        | Mode::CapacitanceRel => Family::Capacitance,
        Mode::Frequency
        | Mode::FrequencyRel
        | Mode::DutyCycle
        | Mode::DutyCycleRel
        | Mode::PulseWidth
        | Mode::PulseWidthRel => Family::Frequency,
        Mode::UadcNormal
        | Mode::UadcNormalRel
        | Mode::UadcAcDc
        | Mode::UadcAcDcRel
        | Mode::UadcPeak => Family::MicroAmpDc,
        Mode::UaacNormal
        | Mode::UaacNormalRel
        | Mode::UaacHz
        | Mode::UaacPeak => Family::MicroAmpAc,
        Mode::MadcNormal
        | Mode::MadcNormalRel
        | Mode::MadcAcDc
        | Mode::MadcAcDcRel
        | Mode::MadcPeak => Family::MilliAmpDc,
        Mode::MaacNormal
        | Mode::MaacNormalRel
        | Mode::MaacHz
        | Mode::MaacPeak => Family::MilliAmpAc,
        Mode::AdcNormal
        | Mode::AdcNormalRel
        | Mode::AdcAcDc
        | Mode::AdcAcDcRel
        | Mode::AdcPeak => Family::AmpDc,
        Mode::AacNormal
        | Mode::AacNormalRel
        | Mode::AacHz
        | Mode::AacPeak => Family::AmpAc,
    }
}

/// Position of a mode in the mode table.
pub open spec fn mode_index(m: Mode) -> nat {
    match m {
        Mode::VacNormal => 0,
        Mode::VacNormalRel => 1,
        Mode::VacHz => 2,
        Mode::VacPeak => 3,
        Mode::VacLowPass => 4,
        Mode::VacLowPassRel => 5,
        Mode::VacDbv => 6,
        Mode::VacDbvRel => 7,
        Mode::VacDbm => 8,
        Mode::VacDbmRel => 9,
        Mode::MvacNormal => 10,
        Mode::MvacNormalRel => 11,
        Mode::MvacHz => 12,
        Mode::MvacPeak => 13,
        Mode::MvacAcDc => 14,
        Mode::MvacAcDcRel => 15,
        Mode::VdcNormal => 16,
        Mode::VdcNormalRel => 17,
        Mode::VdcAcDc => 18,
        Mode::VdcAcDcRel => 19,
        Mode::VdcPeak => 20,
        Mode::MvdcNormal => 21,
        Mode::MvdcNormalRel => 22,
        Mode::MvdcPeak => 23,
        Mode::TempCT1T2 => 24,
        Mode::TempCT1T2Rel => 25,
        Mode::TempCT2T1 => 26,
        Mode::TempCT2T1Rel => 27,
        Mode::TempCT1T2Diff => 28,
        Mode::TempCT2T1Diff => 29,
        Mode::TempFT1T2 => 30,
        Mode::TempFT1T2Rel => 31,
        Mode::TempFT2T1 => 32,
        Mode::TempFT2T1Rel => 33,
        Mode::TempFT1T2Diff => 34,
        Mode::TempFT2T1Diff => 35,
        Mode::Resistance => 36,
        Mode::ResistanceRel => 37,
        Mode::BeeperShort => 38,
        Mode::BeeperOpen => 39,
        Mode::Admittance => 40,
        Mode::AdmittanceRel => 41,
        Mode::DiodeNormal => 42,
        Mode::DiodeAlarm => 43,
        Mode::Capacitance => 44,
        Mode::CapacitanceRel => 45,
        Mode::Frequency => 46,
        Mode::FrequencyRel => 47,
        Mode::DutyCycle => 48,
        Mode::DutyCycleRel => 49,
        Mode::PulseWidth => 50,
        Mode::PulseWidthRel => 51,
        Mode::UadcNormal => 52,
        Mode::UadcNormalRel => 53,
        Mode::UadcAcDc => 54,
        Mode::UadcAcDcRel => 55,
        Mode::UadcPeak => 56,
        Mode::MadcNormal => 57,
        Mode::MadcNormalRel => 58,
        Mode::MadcAcDc => 59,
        Mode::MadcAcDcRel => 60,
        Mode::MadcPeak => 61,
        Mode::AdcNormal => 62,
        Mode::AdcNormalRel => 63,
        Mode::AdcAcDc => 64,
        Mode::AdcAcDcRel => 65,
        Mode::AdcPeak => 66,
        Mode::UaacNormal => 67,
        Mode::UaacNormalRel => 68,
        Mode::UaacHz => 69,
        Mode::UaacPeak => 70,
        Mode::MaacNormal => 71,
        Mode::MaacNormalRel => 72,
        Mode::MaacHz => 73,
        Mode::MaacPeak => 74,
        Mode::AacNormal => 75,
        Mode::AacNormalRel => 76,
        Mode::AacHz => 77,
        Mode::AacPeak => 78,
    }
}

/// The mode at a position of the mode table (the last one past its end).
pub open spec fn spec_mode_at(i: nat) -> Mode {
    if i == 0 {
        Mode::VacNormal
    } else if i == 1 {
        Mode::VacNormalRel
    } else if i == 2 {
        Mode::VacHz
    } else if i == 3 {
        Mode::VacPeak
    } else if i == 4 {
        Mode::VacLowPass
    } else if i == 5 {
        Mode::VacLowPassRel
    } else if i == 6 {
        Mode::VacDbv
    } else if i == 7 {
        Mode::VacDbvRel
    } else if i == 8 {
        Mode::VacDbm
    } else if i == 9 {
        Mode::VacDbmRel
    } else if i == 10 {
        Mode::MvacNormal
    } else if i == 11 {
        Mode::MvacNormalRel
    } else if i == 12 {
        Mode::MvacHz
    } else if i == 13 {
        Mode::MvacPeak
    } else if i == 14 {
        Mode::MvacAcDc
    } else if i == 15 {
        Mode::MvacAcDcRel
    } else if i == 16 {
        Mode::VdcNormal
    } else if i == 17 {
        Mode::VdcNormalRel
    } else if i == 18 {
        Mode::VdcAcDc
    } else if i == 19 {
        Mode::VdcAcDcRel
    } else if i == 20 {
        Mode::VdcPeak
    } else if i == 21 {
        Mode::MvdcNormal
    } else if i == 22 {
        Mode::MvdcNormalRel
    } else if i == 23 {
        Mode::MvdcPeak
    } else if i == 24 {
        Mode::TempCT1T2
    } else if i == 25 {
        Mode::TempCT1T2Rel
    } else if i == 26 {
        Mode::TempCT2T1
    } else if i == 27 {
        Mode::TempCT2T1Rel
    } else if i == 28 {
        Mode::TempCT1T2Diff
    } else if i == 29 {
        Mode::TempCT2T1Diff
    } else if i == 30 {
        Mode::TempFT1T2
    } else if i == 31 {
        Mode::TempFT1T2Rel
    } else if i == 32 {
        Mode::TempFT2T1
    } else if i == 33 {
        Mode::TempFT2T1Rel
    } else if i == 34 {
        Mode::TempFT1T2Diff
    } else if i == 35 {
        Mode::TempFT2T1Diff
    } else if i == 36 {
        Mode::Resistance
    } else if i == 37 {
        Mode::ResistanceRel
    } else if i == 38 {
        Mode::BeeperShort
    } else if i == 39 {
        Mode::BeeperOpen
    } else if i == 40 {
        Mode::Admittance
    } else if i == 41 {
        Mode::AdmittanceRel
    } else if i == 42 {
        Mode::DiodeNormal
    } else if i == 43 {
        Mode::DiodeAlarm
    } else if i == 44 {
        Mode::Capacitance
    } else if i == 45 {
        Mode::CapacitanceRel
    } else if i == 46 {
        Mode::Frequency
    } else if i == 47 {
        Mode::FrequencyRel
    } else if i == 48 {
        Mode::DutyCycle
    } else if i == 49 {
        Mode::DutyCycleRel
    } else if i == 50 {
        Mode::PulseWidth
    } else if i == 51 {
        Mode::PulseWidthRel
    } else if i == 52 {
        Mode::UadcNormal
    } else if i == 53 {
        Mode::UadcNormalRel
    } else if i == 54 {
        Mode::UadcAcDc
    } else if i == 55 {
        Mode::UadcAcDcRel
    } else if i == 56 {
        Mode::UadcPeak
    } else if i == 57 {
        Mode::MadcNormal
    } else if i == 58 {
        Mode::MadcNormalRel
    } else if i == 59 {
        Mode::MadcAcDc
    } else if i == 60 {
        Mode::MadcAcDcRel
    } else if i == 61 {
        Mode::MadcPeak
    } else if i == 62 {
        Mode::AdcNormal
    } else if i == 63 {
        Mode::AdcNormalRel
    } else if i == 64 {
        Mode::AdcAcDc
    } else if i == 65 {
        Mode::AdcAcDcRel
    } else if i == 66 {
        Mode::AdcPeak
    } else if i == 67 {
        Mode::UaacNormal
    } else if i == 68 {
        Mode::UaacNormalRel
    } else if i == 69 {
        Mode::UaacHz
    } else if i == 70 {
        Mode::UaacPeak
    } else if i == 71 {
        Mode::MaacNormal
    } else if i == 72 {
        Mode::MaacNormalRel
    } else if i == 73 {
        Mode::MaacHz
    } else if i == 74 {
        Mode::MaacPeak
    } else if i == 75 {
        Mode::AacNormal
    } else if i == 76 {
        Mode::AacNormalRel
    } else if i == 77 {
        Mode::AacHz
    } else {
        Mode::AacPeak
    }
}

/// The mode at a position of the mode table.
pub fn mode_at(i: usize) -> (m: Mode)
    requires
        i < MODE_COUNT,
    ensures
        m == spec_mode_at(i as nat),
{
    if i == 0 {
        Mode::VacNormal
    } else if i == 1 {
        Mode::VacNormalRel
    } else if i == 2 {
        Mode::VacHz
    } else if i == 3 {
        Mode::VacPeak
    } else if i == 4 {
        Mode::VacLowPass
    } else if i == 5 {
        Mode::VacLowPassRel
    } else if i == 6 {
        Mode::VacDbv
    } else if i == 7 {
        Mode::VacDbvRel
    } else if i == 8 {
        Mode::VacDbm
    } else if i == 9 {
        Mode::VacDbmRel
    } else if i == 10 {
        Mode::MvacNormal
    } else if i == 11 {
        Mode::MvacNormalRel
    } else if i == 12 {
        Mode::MvacHz
    } else if i == 13 {
        Mode::MvacPeak
    } else if i == 14 {
        Mode::MvacAcDc
    } else if i == 15 {
        Mode::MvacAcDcRel
    } else if i == 16 {
        Mode::VdcNormal
    } else if i == 17 {
        Mode::VdcNormalRel
    } else if i == 18 {
        Mode::VdcAcDc
    } else if i == 19 {
        Mode::VdcAcDcRel
    } else if i == 20 {
        Mode::VdcPeak
    } else if i == 21 {
        Mode::MvdcNormal
    } else if i == 22 {
        Mode::MvdcNormalRel
    } else if i == 23 {
        Mode::MvdcPeak
    } else if i == 24 {
        Mode::TempCT1T2
    } else if i == 25 {
        Mode::TempCT1T2Rel
    } else if i == 26 {
        Mode::TempCT2T1
    } else if i == 27 {
        Mode::TempCT2T1Rel
    } else if i == 28 {
        Mode::TempCT1T2Diff
    } else if i == 29 {
        Mode::TempCT2T1Diff
    } else if i == 30 {
        Mode::TempFT1T2
    } else if i == 31 {
        Mode::TempFT1T2Rel
    } else if i == 32 {
        Mode::TempFT2T1
    } else if i == 33 {
        Mode::TempFT2T1Rel
    } else if i == 34 {
        Mode::TempFT1T2Diff
    } else if i == 35 {
        Mode::TempFT2T1Diff
    } else if i == 36 {
        Mode::Resistance
    } else if i == 37 {
        Mode::ResistanceRel
    } else if i == 38 {
        Mode::BeeperShort
    } else if i == 39 {
        Mode::BeeperOpen
    } else if i == 40 {
        Mode::Admittance
    } else if i == 41 {
        Mode::AdmittanceRel
    } else if i == 42 {
        Mode::DiodeNormal
    } else if i == 43 {
        Mode::DiodeAlarm
    } else if i == 44 {
        Mode::Capacitance
    } else if i == 45 {
        Mode::CapacitanceRel
    } else if i == 46 {
        Mode::Frequency
    } else if i == 47 {
        Mode::FrequencyRel
    } else if i == 48 {
        Mode::DutyCycle
    } else if i == 49 {
        Mode::DutyCycleRel
    } else if i == 50 {
        Mode::PulseWidth
    } else if i == 51 {
        Mode::PulseWidthRel
    } else if i == 52 {
        Mode::UadcNormal
    } else if i == 53 {
        Mode::UadcNormalRel
    } else if i == 54 {
        Mode::UadcAcDc
    } else if i == 55 {
        Mode::UadcAcDcRel
    } else if i == 56 {
        Mode::UadcPeak
    } else if i == 57 {
        Mode::MadcNormal
    } else if i == 58 {
        Mode::MadcNormalRel
    } else if i == 59 {
        Mode::MadcAcDc
    } else if i == 60 {
        Mode::MadcAcDcRel
    } else if i == 61 {
        Mode::MadcPeak
    } else if i == 62 {
        Mode::AdcNormal
    } else if i == 63 {
        Mode::AdcNormalRel
    } else if i == 64 {
        Mode::AdcAcDc
    } else if i == 65 {
        Mode::AdcAcDcRel
    } else if i == 66 {
        Mode::AdcPeak
    } else if i == 67 {
        Mode::UaacNormal
    } else if i == 68 {
        Mode::UaacNormalRel
    } else if i == 69 {
        Mode::UaacHz
    } else if i == 70 {
        Mode::UaacPeak
    } else if i == 71 {
        Mode::MaacNormal
    } else if i == 72 {
        Mode::MaacNormalRel
    } else if i == 73 {
        Mode::MaacHz
    } else if i == 74 {
        Mode::MaacPeak
    } else if i == 75 {
        Mode::AacNormal
    } else if i == 76 {
        Mode::AacNormalRel
    } else if i == 77 {
        Mode::AacHz
    } else {
        Mode::AacPeak
    }
}

/// Every mode stands in the mode table, at its own index.
pub proof fn lemma_mode_index(m: Mode)
    ensures
        mode_index(m) < MODE_COUNT,
        spec_mode_at(mode_index(m)) == m,
{
}

/// The command-line token that selects a mode.
pub open spec fn mode_token(m: Mode) -> &'static str {
    match m {
        Mode::VacNormal => "vac",
        Mode::VacNormalRel => "vac-rel",
        Mode::VacHz => "vac-hz",
        Mode::VacPeak => "vac-peak",
        Mode::VacLowPass => "vac-lowpass",
        Mode::VacLowPassRel => "vac-lowpass-rel",
        Mode::VacDbv => "vac-dbv",
        Mode::VacDbvRel => "vac-dbv-rel",
        Mode::VacDbm => "vac-dbm",
        Mode::VacDbmRel => "vac-dbm-rel",
        Mode::MvacNormal => "mvac",
        Mode::MvacNormalRel => "mvac-rel",
        Mode::MvacHz => "mvac-hz",
        Mode::MvacPeak => "mvac-peak",
        Mode::MvacAcDc => "mvac-acdc",
        Mode::MvacAcDcRel => "mvac-acdc-rel",
        Mode::VdcNormal => "vdc",
        Mode::VdcNormalRel => "vdc-rel",
        Mode::VdcAcDc => "vdc-acdc",
        Mode::VdcAcDcRel => "vdc-acdc-rel",
        Mode::VdcPeak => "vdc-peak",
        Mode::MvdcNormal => "mvdc",
        Mode::MvdcNormalRel => "mvdc-rel",
        Mode::MvdcPeak => "mvdc-peak",
        Mode::TempCT1T2 => "temp-c-t1t2",
        Mode::TempCT1T2Rel => "temp-c-t1t2-rel",
        Mode::TempCT2T1 => "temp-c-t2t1",
        Mode::TempCT2T1Rel => "temp-c-t2t1-rel",
        Mode::TempCT1T2Diff => "temp-c-t1t2-diff",
        Mode::TempCT2T1Diff => "temp-c-t2t1-diff",
        Mode::TempFT1T2 => "temp-f-t1t2",
        Mode::TempFT1T2Rel => "temp-f-t1t2-rel",
        Mode::TempFT2T1 => "temp-f-t2t1",
        Mode::TempFT2T1Rel => "temp-f-t2t1-rel",
        Mode::TempFT1T2Diff => "temp-f-t1t2-diff",
        Mode::TempFT2T1Diff => "temp-f-t2t1-diff",
        Mode::Resistance => "res",
        Mode::ResistanceRel => "res-rel",
        Mode::BeeperShort => "beeper-short",
        Mode::BeeperOpen => "beeper-open",
        Mode::Admittance => "adm",
        Mode::AdmittanceRel => "adm-rel",
        Mode::DiodeNormal => "diode",
        Mode::DiodeAlarm => "diode-alarm",
        Mode::Capacitance => "cap",
        Mode::CapacitanceRel => "cap-rel",
        Mode::Frequency => "freq",
        Mode::FrequencyRel => "freq-rel",
        Mode::DutyCycle => "duty",
        Mode::DutyCycleRel => "duty-rel",
        Mode::PulseWidth => "pulse",
        Mode::PulseWidthRel => "pulse-rel",
        Mode::UadcNormal => "uadc",
        Mode::UadcNormalRel => "uadc-rel",
        Mode::UadcAcDc => "uadc-acdc",
        Mode::UadcAcDcRel => "uadc-acdc-rel",
        Mode::UadcPeak => "uadc-peak",
        Mode::MadcNormal => "madc",
        Mode::MadcNormalRel => "madc-rel",
        Mode::MadcAcDc => "madc-acdc",
        Mode::MadcAcDcRel => "madc-acdc-rel",
        Mode::MadcPeak => "madc-peak",
        Mode::AdcNormal => "adc",
        Mode::AdcNormalRel => "adc-rel",
        Mode::AdcAcDc => "adc-acdc",
        Mode::AdcAcDcRel => "adc-acdc-rel",
        Mode::AdcPeak => "adc-peak",
        Mode::UaacNormal => "uaac",
        Mode::UaacNormalRel => "uaac-rel",
        Mode::UaacHz => "uaac-hz",
        Mode::UaacPeak => "uaac-peak",
        Mode::MaacNormal => "maac",
        Mode::MaacNormalRel => "maac-rel",
        Mode::MaacHz => "maac-hz",
        Mode::MaacPeak => "maac-peak",
        Mode::AacNormal => "aac",
        Mode::AacNormalRel => "aac-rel",
        Mode::AacHz => "aac-hz",
        Mode::AacPeak => "aac-peak",
    }
}

impl Mode {
    /// The command-line token that selects this mode.
    pub fn token(&self) -> (r: &'static str)
        ensures
            r == mode_token(*self),
    {
        match self {
            Mode::VacNormal => "vac",
            Mode::VacNormalRel => "vac-rel",
            Mode::VacHz => "vac-hz",
            Mode::VacPeak => "vac-peak",
            Mode::VacLowPass => "vac-lowpass",
            Mode::VacLowPassRel => "vac-lowpass-rel",
            Mode::VacDbv => "vac-dbv",
            Mode::VacDbvRel => "vac-dbv-rel",
            Mode::VacDbm => "vac-dbm",
            Mode::VacDbmRel => "vac-dbm-rel",
            Mode::MvacNormal => "mvac",
            Mode::MvacNormalRel => "mvac-rel",
            Mode::MvacHz => "mvac-hz",
            Mode::MvacPeak => "mvac-peak",
            Mode::MvacAcDc => "mvac-acdc",
            Mode::MvacAcDcRel => "mvac-acdc-rel",
            Mode::VdcNormal => "vdc",
            Mode::VdcNormalRel => "vdc-rel",
            Mode::VdcAcDc => "vdc-acdc",
            Mode::VdcAcDcRel => "vdc-acdc-rel",
            Mode::VdcPeak => "vdc-peak",
            Mode::MvdcNormal => "mvdc",
            Mode::MvdcNormalRel => "mvdc-rel",
            Mode::MvdcPeak => "mvdc-peak",
            Mode::TempCT1T2 => "temp-c-t1t2",
            Mode::TempCT1T2Rel => "temp-c-t1t2-rel",
            Mode::TempCT2T1 => "temp-c-t2t1",
            Mode::TempCT2T1Rel => "temp-c-t2t1-rel",
            Mode::TempCT1T2Diff => "temp-c-t1t2-diff",
            Mode::TempCT2T1Diff => "temp-c-t2t1-diff",
            Mode::TempFT1T2 => "temp-f-t1t2",
            Mode::TempFT1T2Rel => "temp-f-t1t2-rel",
            Mode::TempFT2T1 => "temp-f-t2t1",
            Mode::TempFT2T1Rel => "temp-f-t2t1-rel",
            Mode::TempFT1T2Diff => "temp-f-t1t2-diff",
            Mode::TempFT2T1Diff => "temp-f-t2t1-diff",
            Mode::Resistance => "res",
            Mode::ResistanceRel => "res-rel",
            Mode::BeeperShort => "beeper-short",
            Mode::BeeperOpen => "beeper-open",
            Mode::Admittance => "adm",
            Mode::AdmittanceRel => "adm-rel",
            Mode::DiodeNormal => "diode",
            Mode::DiodeAlarm => "diode-alarm",
            Mode::Capacitance => "cap",
            Mode::CapacitanceRel => "cap-rel",
            Mode::Frequency => "freq",
            Mode::FrequencyRel => "freq-rel",
            Mode::DutyCycle => "duty",
            Mode::DutyCycleRel => "duty-rel",
            Mode::PulseWidth => "pulse",
            Mode::PulseWidthRel => "pulse-rel",
            Mode::UadcNormal => "uadc",
            Mode::UadcNormalRel => "uadc-rel",
            Mode::UadcAcDc => "uadc-acdc",
            Mode::UadcAcDcRel => "uadc-acdc-rel",
            Mode::UadcPeak => "uadc-peak",
            Mode::MadcNormal => "madc",
            Mode::MadcNormalRel => "madc-rel",
            Mode::MadcAcDc => "madc-acdc",
            Mode::MadcAcDcRel => "madc-acdc-rel",
            Mode::MadcPeak => "madc-peak",
            Mode::AdcNormal => "adc",
            Mode::AdcNormalRel => "adc-rel",
            Mode::AdcAcDc => "adc-acdc",
            Mode::AdcAcDcRel => "adc-acdc-rel",
            Mode::AdcPeak => "adc-peak",
            Mode::UaacNormal => "uaac",
            Mode::UaacNormalRel => "uaac-rel",
            Mode::UaacHz => "uaac-hz",
            Mode::UaacPeak => "uaac-peak",
            Mode::MaacNormal => "maac",
            Mode::MaacNormalRel => "maac-rel",
            Mode::MaacHz => "maac-hz",
            Mode::MaacPeak => "maac-peak",
            Mode::AacNormal => "aac",
            Mode::AacNormalRel => "aac-rel",
            Mode::AacHz => "aac-hz",
            Mode::AacPeak => "aac-peak",
        }
    }
}
/// The first mode, from position `i` of the mode table on, whose token is `t`.
pub open spec fn mode_for_token_from(t: Seq<char>, i: nat) -> Option<Mode>
    decreases MODE_COUNT - i,
{
    if i >= MODE_COUNT {
        None
    } else if mode_token(spec_mode_at(i))@ == t {
        Some(spec_mode_at(i))
    } else {
        mode_for_token_from(t, i + 1)
    }
}

/// The mode that a command-line token selects, if any.
pub open spec fn mode_for_token(t: Seq<char>) -> Option<Mode> {
    mode_for_token_from(t, 0)
}

/// Looks a command-line token up in the mode table.
pub fn mode_from_token(tok: &str) -> (r: Option<Mode>)
    ensures
        r == mode_for_token(tok@),
        r matches Some(m) ==> mode_token(m)@ == tok@,
        r is None <==> forall|m: Mode| mode_token(m)@ != tok@,
{
    let mut i: usize = 0;
    while i < MODE_COUNT
        invariant
            i <= MODE_COUNT,
            mode_for_token(tok@) == mode_for_token_from(tok@, i as nat),
            forall|j: nat| j < i ==> mode_token(spec_mode_at(j))@ != tok@,
        decreases MODE_COUNT - i,
    {
        let m = mode_at(i);
        if str_eq(m.token(), tok) {
            return Some(m);
        }
        i = i + 1;
    }
    proof {
        assert forall|m: Mode| mode_token(m)@ != tok@ by {
            lemma_mode_index(m);
        }
    }
    None
}

/// The command-line token that selects a range step.
pub open spec fn range_step_token(s: RangeStep) -> &'static str {
    match s {
        RangeStep::Auto => "auto",
        RangeStep::Step1 => "step1",
        RangeStep::Step2 => "step2",
        RangeStep::Step3 => "step3",
        RangeStep::Step4 => "step4",
        RangeStep::Step5 => "step5",
        RangeStep::Step6 => "step6",
        RangeStep::Step7 => "step7",
        RangeStep::Step8 => "step8",
    }
}

/// The range step that a command-line token selects, if any.
pub open spec fn range_step_for_token(t: Seq<char>) -> Option<RangeStep> {
    if t == "auto"@ {
        Some(RangeStep::Auto)
    } else if t == "step1"@ {
        Some(RangeStep::Step1)
    } else if t == "step2"@ {
        Some(RangeStep::Step2)
    } else if t == "step3"@ {
        Some(RangeStep::Step3)
    } else if t == "step4"@ {
        Some(RangeStep::Step4)
    } else if t == "step5"@ {
        Some(RangeStep::Step5)
    } else if t == "step6"@ {
        Some(RangeStep::Step6)
    } else if t == "step7"@ {
        Some(RangeStep::Step7)
    } else if t == "step8"@ {
        Some(RangeStep::Step8)
    } else {
        None
    }
}

/// Reads a range step from its command-line token.
pub fn range_step_from_token(tok: &str) -> (r: Option<RangeStep>)
    ensures
        r == range_step_for_token(tok@),
{
    if str_eq(tok, "auto") {
        Some(RangeStep::Auto)
    } else if str_eq(tok, "step1") {
        Some(RangeStep::Step1)
    } else if str_eq(tok, "step2") {
        Some(RangeStep::Step2)
    } else if str_eq(tok, "step3") {
        Some(RangeStep::Step3)
    } else if str_eq(tok, "step4") {
        Some(RangeStep::Step4)
    } else if str_eq(tok, "step5") {
        Some(RangeStep::Step5)
    } else if str_eq(tok, "step6") {
        Some(RangeStep::Step6)
    } else if str_eq(tok, "step7") {
        Some(RangeStep::Step7)
    } else if str_eq(tok, "step8") {
        Some(RangeStep::Step8)
    } else {
        None
    }
}

} // verus!
