use ut181a_cli::mode::{family_of, mode_at, Family, RangeStep, MODE_COUNT};
use ut181a_cli::range::{phrase_for, UnusedRangeStep};

const FAMILIES: [Family; 16] = [
    Family::MilliVoltDc,
    Family::MilliVoltAc,
    Family::VoltDc,
    Family::VoltAc,
    Family::Temperature,
    Family::Resistance,
    Family::Admittance,
    Family::Diode,
    Family::Capacitance,
    Family::Frequency,
    Family::MicroAmpDc,
    Family::MicroAmpAc,
    Family::MilliAmpDc,
    Family::MilliAmpAc,
    Family::AmpDc,
    Family::AmpAc,
];

const STEPS: [RangeStep; 9] = [
    RangeStep::Auto,
    RangeStep::Step1,
    RangeStep::Step2,
    RangeStep::Step3,
    RangeStep::Step4,
    RangeStep::Step5,
    RangeStep::Step6,
    RangeStep::Step7,
    RangeStep::Step8,
];

#[test]
fn phrases_of_declared_steps() {
    assert_eq!(phrase_for(Family::MilliVoltDc, RangeStep::Step1), Ok("-60...60 mV"));
    assert_eq!(phrase_for(Family::MilliVoltDc, RangeStep::Step2), Ok("-600...600 mV"));
    assert_eq!(phrase_for(Family::VoltDc, RangeStep::Step4), Ok("-1000...1000 V"));
    assert_eq!(phrase_for(Family::Temperature, RangeStep::Step1), Ok("-"));
    assert_eq!(phrase_for(Family::Resistance, RangeStep::Step6), Ok("0...60 MOhm"));
    assert_eq!(phrase_for(Family::Capacitance, RangeStep::Step8), Ok("0...60 mF"));
    assert_eq!(phrase_for(Family::Frequency, RangeStep::Step7), Ok("0...60 MHz"));
    assert_eq!(phrase_for(Family::AmpAc, RangeStep::Step1), Ok("0...20 A"));
}

#[test]
fn undeclared_steps_are_refused() {
    assert_eq!(
        phrase_for(Family::MilliVoltDc, RangeStep::Step3),
        Err(UnusedRangeStep { family: Family::MilliVoltDc, step: RangeStep::Step3 })
    );
    assert_eq!(
        phrase_for(Family::Resistance, RangeStep::Step7),
        Err(UnusedRangeStep { family: Family::Resistance, step: RangeStep::Step7 })
    );
    assert_eq!(
        phrase_for(Family::Capacitance, RangeStep::Auto),
        Err(UnusedRangeStep { family: Family::Capacitance, step: RangeStep::Auto })
    );
}

#[test]
fn declared_step_counts_per_family() {
    let expected = [2, 2, 4, 4, 1, 6, 1, 1, 8, 7, 2, 2, 2, 2, 1, 1];
    for (f, n) in FAMILIES.iter().zip(expected.iter()) {
        let mut declared = 0;
        for (k, s) in STEPS.iter().enumerate() {
            match phrase_for(*f, *s) {
                Ok(p) => {
                    assert!(!p.is_empty());
                    assert!(k >= 1 && k <= *n, "{:?} {:?}", f, s);
                    declared += 1;
                }
                Err(e) => assert_eq!(e, UnusedRangeStep { family: *f, step: *s }),
            }
        }
        assert_eq!(declared, *n, "{:?}", f);
    }
}

#[test]
fn every_mode_has_a_first_step_phrase() {
    for i in 0..MODE_COUNT {
        assert!(phrase_for(family_of(mode_at(i)), RangeStep::Step1).is_ok());
    }
}
