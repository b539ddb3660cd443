use vstd::prelude::*;

use crate::mode::{
    lemma_mode_index, mode_index, spec_family_of, spec_mode_at, Family, Mode, RangeStep, MODE_COUNT,
};

verus! {

/// The phrase that names the span of a range step within a family, for the steps that
/// the family declares; `None` for every other step.
pub open spec fn range_phrase(f: Family, s: RangeStep) -> Option<&'static str> {
    match (f, s) {
        (Family::MilliVoltDc, RangeStep::Step1) => Some("-60...60 mV"),
        (Family::MilliVoltDc, RangeStep::Step2) => Some("-600...600 mV"),
        (Family::MilliVoltAc, RangeStep::Step1) => Some("0...60 mV"),
        (Family::MilliVoltAc, RangeStep::Step2) => Some("0...600 mV"),
        (Family::VoltDc, RangeStep::Step1) => Some("-6...6 V"),
        (Family::VoltDc, RangeStep::Step2) => Some("-60...60 V"),
        (Family::VoltDc, RangeStep::Step3) => Some("-600...600 V"),
        (Family::VoltDc, RangeStep::Step4) => Some("-1000...1000 V"),
        (Family::VoltAc, RangeStep::Step1) => Some("0...6 V"),
        (Family::VoltAc, RangeStep::Step2) => Some("0...60 V"),
        (Family::VoltAc, RangeStep::Step3) => Some("0...600 V"),
        (Family::VoltAc, RangeStep::Step4) => Some("0...1000 V"),
        (Family::Temperature, RangeStep::Step1) => Some("-"),
        (Family::Resistance, RangeStep::Step1) => Some("0...600 Ohm"),
        (Family::Resistance, RangeStep::Step2) => Some("0...6 kOhm"),
        (Family::Resistance, RangeStep::Step3) => Some("0...60 kOhm"),
        (Family::Resistance, RangeStep::Step4) => Some("0...600 kOhm"),
        (Family::Resistance, RangeStep::Step5) => Some("0...6 MOhm"),
        (Family::Resistance, RangeStep::Step6) => Some("0...60 MOhm"),
        (Family::Admittance, RangeStep::Step1) => Some("0...60 nS"),
        (Family::Diode, RangeStep::Step1) => Some("0...3 V"),
        (Family::Capacitance, RangeStep::Step1) => Some("0...6 nF"),
        (Family::Capacitance, RangeStep::Step2) => Some("0...60 nF"),
        (Family::Capacitance, RangeStep::Step3) => Some("0...600 nF"),
        (Family::Capacitance, RangeStep::Step4) => Some("0...6 uF"),
        (Family::Capacitance, RangeStep::Step5) => Some("0...60 uF"),
        (Family::Capacitance, RangeStep::Step6) => Some("0...600 uF"),
        (Family::Capacitance, RangeStep::Step7) => Some("0...6 mF"),
        (Family::Capacitance, RangeStep::Step8) => Some("0...60 mF"),
        (Family::Frequency, RangeStep::Step1) => Some("0...60 Hz"),
        (Family::Frequency, RangeStep::Step2) => Some("0...600 Hz"),
        (Family::Frequency, RangeStep::Step3) => Some("0...6 kHz"),
        (Family::Frequency, RangeStep::Step4) => Some("0...60 kHz"),
        (Family::Frequency, RangeStep::Step5) => Some("0...600 kHz"),
        (Family::Frequency, RangeStep::Step6) => Some("0...6 MHz"),
        (Family::Frequency, RangeStep::Step7) => Some("0...60 MHz"),
        (Family::MicroAmpDc, RangeStep::Step1) => Some("-600...600 uA"),
        (Family::MicroAmpDc, RangeStep::Step2) => Some("-6000...6000 uA"),
        (Family::MicroAmpAc, RangeStep::Step1) => Some("0...600 uA"),
        (Family::MicroAmpAc, RangeStep::Step2) => Some("0...6000 uA"),
        (Family::MilliAmpDc, RangeStep::Step1) => Some("-60...60 mA"),
        (Family::MilliAmpDc, RangeStep::Step2) => Some("-600...600 mA"),
        (Family::MilliAmpAc, RangeStep::Step1) => Some("0...60 mA"),
        (Family::MilliAmpAc, RangeStep::Step2) => Some("0...600 mA"),
        (Family::AmpDc, RangeStep::Step1) => Some("-20...20 A"),
        (Family::AmpAc, RangeStep::Step1) => Some("0...20 A"),
        _ => None,
    }
}

/// Whether a family declares a range step.
pub open spec fn step_declared(f: Family, s: RangeStep) -> bool {
    range_phrase(f, s) is Some
}

/// A range step reported for a family that never uses it.
#[derive(Clone, Copy, Debug, PartialEq, Eq, Structural)]
pub struct UnusedRangeStep {
    pub family: Family,
    pub step: RangeStep,
}

/// What `phrase_for` answers: the phrase of a declared step, otherwise the offending pair.
pub open spec fn phrase_result(f: Family, s: RangeStep) -> Result<&'static str, UnusedRangeStep> {
    match range_phrase(f, s) {
        Some(p) => Ok(p),
        None => Err(UnusedRangeStep { family: f, step: s }),
    }
}

/// Names the span of a range step within a family; fails on a step that the family does not declare.
pub fn phrase_for(f: Family, s: RangeStep) -> (r: Result<&'static str, UnusedRangeStep>)
    ensures
        r == phrase_result(f, s),
{
    match (f, s) {
        (Family::MilliVoltDc, RangeStep::Step1) => Ok("-60...60 mV"),
        (Family::MilliVoltDc, RangeStep::Step2) => Ok("-600...600 mV"),
        (Family::MilliVoltAc, RangeStep::Step1) => Ok("0...60 mV"),
        (Family::MilliVoltAc, RangeStep::Step2) => Ok("0...600 mV"),
        (Family::VoltDc, RangeStep::Step1) => Ok("-6...6 V"),
        (Family::VoltDc, RangeStep::Step2) => Ok("-60...60 V"),
        (Family::VoltDc, RangeStep::Step3) => Ok("-600...600 V"),
        (Family::VoltDc, RangeStep::Step4) => Ok("-1000...1000 V"),
        (Family::VoltAc, RangeStep::Step1) => Ok("0...6 V"),
        (Family::VoltAc, RangeStep::Step2) => Ok("0...60 V"),
        (Family::VoltAc, RangeStep::Step3) => Ok("0...600 V"),
        (Family::VoltAc, RangeStep::Step4) => Ok("0...1000 V"),
        (Family::Temperature, RangeStep::Step1) => Ok("-"),
        (Family::Resistance, RangeStep::Step1) => Ok("0...600 Ohm"),
        (Family::Resistance, RangeStep::Step2) => Ok("0...6 kOhm"),
        (Family::Resistance, RangeStep::Step3) => Ok("0...60 kOhm"),
        (Family::Resistance, RangeStep::Step4) => Ok("0...600 kOhm"),
        (Family::Resistance, RangeStep::Step5) => Ok("0...6 MOhm"),
        (Family::Resistance, RangeStep::Step6) => Ok("0...60 MOhm"),
        (Family::Admittance, RangeStep::Step1) => Ok("0...60 nS"),
        (Family::Diode, RangeStep::Step1) => Ok("0...3 V"),
        (Family::Capacitance, RangeStep::Step1) => Ok("0...6 nF"),
        (Family::Capacitance, RangeStep::Step2) => Ok("0...60 nF"),
        (Family::Capacitance, RangeStep::Step3) => Ok("0...600 nF"),
        (Family::Capacitance, RangeStep::Step4) => Ok("0...6 uF"),
        (Family::Capacitance, RangeStep::Step5) => Ok("0...60 uF"),
        (Family::Capacitance, RangeStep::Step6) => Ok("0...600 uF"),
        (Family::Capacitance, RangeStep::Step7) => Ok("0...6 mF"),
        (Family::Capacitance, RangeStep::Step8) => Ok("0...60 mF"),
        (Family::Frequency, RangeStep::Step1) => Ok("0...60 Hz"),
        (Family::Frequency, RangeStep::Step2) => Ok("0...600 Hz"),
        (Family::Frequency, RangeStep::Step3) => Ok("0...6 kHz"),
        (Family::Frequency, RangeStep::Step4) => Ok("0...60 kHz"),
        (Family::Frequency, RangeStep::Step5) => Ok("0...600 kHz"),
        (Family::Frequency, RangeStep::Step6) => Ok("0...6 MHz"),
        (Family::Frequency, RangeStep::Step7) => Ok("0...60 MHz"),
        (Family::MicroAmpDc, RangeStep::Step1) => Ok("-600...600 uA"),
        (Family::MicroAmpDc, RangeStep::Step2) => Ok("-6000...6000 uA"),
        (Family::MicroAmpAc, RangeStep::Step1) => Ok("0...600 uA"),
        (Family::MicroAmpAc, RangeStep::Step2) => Ok("0...6000 uA"),
        (Family::MilliAmpDc, RangeStep::Step1) => Ok("-60...60 mA"),
        (Family::MilliAmpDc, RangeStep::Step2) => Ok("-600...600 mA"),
        (Family::MilliAmpAc, RangeStep::Step1) => Ok("0...60 mA"),
        (Family::MilliAmpAc, RangeStep::Step2) => Ok("0...600 mA"),
        (Family::AmpDc, RangeStep::Step1) => Ok("-20...20 A"),
        (Family::AmpAc, RangeStep::Step1) => Ok("0...20 A"),
        _ => Err(UnusedRangeStep { family: f, step: s }),
    }
}

/// Every declared pair of family and step has a non-empty phrase; every other pair is refused
/// with the pair itself as the diagnostic.
pub proof fn lemma_phrase_for_declared(f: Family, s: RangeStep)
    ensures
        match phrase_result(f, s) {
            Ok(p) => step_declared(f, s) && p@.len() > 0,
            Err(e) => !step_declared(f, s) && e == (UnusedRangeStep { family: f, step: s }),
        },
{
    reveal_strlit("-60...60 mV");
    reveal_strlit("-600...600 mV");
    reveal_strlit("0...60 mV");
    reveal_strlit("0...600 mV");
    reveal_strlit("-6...6 V");
    reveal_strlit("-60...60 V");
    reveal_strlit("-600...600 V");
    reveal_strlit("-1000...1000 V");
    reveal_strlit("0...6 V");
    reveal_strlit("0...60 V");
    reveal_strlit("0...600 V");
    reveal_strlit("0...1000 V");
    reveal_strlit("-");
    reveal_strlit("0...600 Ohm");
    reveal_strlit("0...6 kOhm");
    reveal_strlit("0...60 kOhm");
    reveal_strlit("0...600 kOhm");
    reveal_strlit("0...6 MOhm");
    reveal_strlit("0...60 MOhm");
    reveal_strlit("0...60 nS");
    reveal_strlit("0...3 V");
    reveal_strlit("0...6 nF");
    reveal_strlit("0...60 nF");
    reveal_strlit("0...600 nF");
    reveal_strlit("0...6 uF");
    reveal_strlit("0...60 uF");
    reveal_strlit("0...600 uF");
    reveal_strlit("0...6 mF");
    reveal_strlit("0...60 mF");
    reveal_strlit("0...60 Hz");
    reveal_strlit("0...600 Hz");
    reveal_strlit("0...6 kHz");
    reveal_strlit("0...60 kHz");
    reveal_strlit("0...600 kHz");
    reveal_strlit("0...6 MHz");
    reveal_strlit("0...60 MHz");
    reveal_strlit("-600...600 uA");
    reveal_strlit("-6000...6000 uA");
    reveal_strlit("0...600 uA");
    reveal_strlit("0...6000 uA");
    reveal_strlit("-60...60 mA");
    reveal_strlit("-600...600 mA");
    reveal_strlit("0...60 mA");
    reveal_strlit("0...600 mA");
    reveal_strlit("-20...20 A");
    reveal_strlit("0...20 A");
}

/// Every mode stands in the mode table and is mapped to a family, and that family declares
/// at least one range step, so some range reading of every mode has a phrase.
pub proof fn lemma_every_mode_has_one_family(m: Mode)
    ensures
        exists|i: nat| i < MODE_COUNT && #[trigger] spec_mode_at(i) == m,
        step_declared(spec_family_of(m), RangeStep::Step1),
{
    lemma_mode_index(m);
    assert(spec_mode_at(mode_index(m)) == m);
}

} // verus!
