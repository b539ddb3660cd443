use ut181a_cli::mode::{
    family_of, mode_at, mode_from_token, range_step_from_token, Family, Mode, RangeStep, MODE_COUNT,
};

#[test]
fn families_of_some_modes() {
    assert_eq!(family_of(Mode::MvdcPeak), Family::MilliVoltDc);
    assert_eq!(family_of(Mode::MvacAcDc), Family::MilliVoltAc);
    assert_eq!(family_of(Mode::VdcAcDcRel), Family::VoltDc);
    assert_eq!(family_of(Mode::VacDbm), Family::VoltAc);
    assert_eq!(family_of(Mode::TempFT2T1Diff), Family::Temperature);
    assert_eq!(family_of(Mode::BeeperOpen), Family::Resistance);
    assert_eq!(family_of(Mode::AdmittanceRel), Family::Admittance);
    assert_eq!(family_of(Mode::DiodeAlarm), Family::Diode);
    assert_eq!(family_of(Mode::Capacitance), Family::Capacitance);
    assert_eq!(family_of(Mode::PulseWidthRel), Family::Frequency);
    assert_eq!(family_of(Mode::UadcAcDc), Family::MicroAmpDc);
    assert_eq!(family_of(Mode::UaacHz), Family::MicroAmpAc);
    assert_eq!(family_of(Mode::MadcPeak), Family::MilliAmpDc);
    assert_eq!(family_of(Mode::MaacNormalRel), Family::MilliAmpAc);
    assert_eq!(family_of(Mode::AdcNormal), Family::AmpDc);
    assert_eq!(family_of(Mode::AacPeak), Family::AmpAc);
}

#[test]
fn every_mode_token_selects_its_mode() {
    for i in 0..MODE_COUNT {
        let m = mode_at(i);
        assert_eq!(mode_from_token(m.token()), Some(m));
    }
}

#[test]
fn mode_table_lists_each_mode_once() {
    for i in 0..MODE_COUNT {
        for j in 0..i {
            assert_ne!(mode_at(i), mode_at(j));
        }
    }
}

#[test]
fn mode_tokens() {
    assert_eq!(mode_from_token("vac"), Some(Mode::VacNormal));
    assert_eq!(mode_from_token("vac-lowpass-rel"), Some(Mode::VacLowPassRel));
    assert_eq!(mode_from_token("temp-c-t2t1-diff"), Some(Mode::TempCT2T1Diff));
    assert_eq!(mode_from_token("aac-peak"), Some(Mode::AacPeak));
    assert_eq!(mode_from_token("beeper-short"), Some(Mode::BeeperShort));
    assert_eq!(mode_from_token("volts"), None);
    assert_eq!(mode_from_token(""), None);
    assert_eq!(mode_from_token("VAC"), None);
}

#[test]
fn range_step_tokens() {
    assert_eq!(range_step_from_token("auto"), Some(RangeStep::Auto));
    assert_eq!(range_step_from_token("step1"), Some(RangeStep::Step1));
    assert_eq!(range_step_from_token("step8"), Some(RangeStep::Step8));
    assert_eq!(range_step_from_token("step9"), None);
    assert_eq!(range_step_from_token("step"), None);
}
