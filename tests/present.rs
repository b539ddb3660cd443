use ut181a_cli::measurement::{
    Header, Measurement, MinMaxReading, NormalReading, PeakReading, RelativeReading,
};
use ut181a_cli::mode::{Family, Mode, RangeStep};
use ut181a_cli::present::render;
use ut181a_cli::range::UnusedRangeStep;

fn header(mode: Mode, label: &str, hold: bool, auto_range: bool, range: RangeStep) -> Header {
    Header { mode, mode_label: label.to_string(), hold, auto_range, range }
}

#[test]
fn normal_with_second_aux_only() {
    let m = Measurement::Normal(NormalReading {
        header: header(Mode::VacHz, "VAC/Hz", false, true, RangeStep::Step2),
        main: "12.345 V".to_string(),
        aux1: None,
        aux2: Some("50.00 Hz".to_string()),
        fast: None,
    });
    let lines = render(&m).unwrap();
    assert_eq!(
        lines,
        vec!["Mode: VAC/Hz [] [AUTO]", "Range: 0...60 V", "12.345 V", "AUX2: 50.00 Hz"]
    );
    assert_eq!(lines.iter().filter(|l| l.starts_with("AUX")).count(), 1);
    assert!(!lines.iter().any(|l| l.starts_with("AUX1")));
}

#[test]
fn normal_with_every_optional_value() {
    let m = Measurement::Normal(NormalReading {
        header: header(Mode::VacDbm, "VAC/dBm", true, false, RangeStep::Step1),
        main: "1.000 V".to_string(),
        aux1: Some("2.000 dBm".to_string()),
        aux2: Some("3.000 Hz".to_string()),
        fast: Some("1.01 V".to_string()),
    });
    assert_eq!(
        render(&m).unwrap(),
        vec![
            "Mode: VAC/dBm [HOLD] []",
            "Range: 0...6 V",
            "1.000 V",
            "AUX1: 2.000 dBm",
            "AUX2: 3.000 Hz",
            "FAST: 1.01 V",
        ]
    );
}

#[test]
fn normal_without_optional_values() {
    let m = Measurement::Normal(NormalReading {
        header: header(Mode::Resistance, "Resistance", false, false, RangeStep::Step5),
        main: "1.2345 MOhm".to_string(),
        aux1: None,
        aux2: None,
        fast: None,
    });
    assert_eq!(
        render(&m).unwrap(),
        vec!["Mode: Resistance [] []", "Range: 0...6 MOhm", "1.2345 MOhm"]
    );
}

#[test]
fn relative_reading_lines() {
    let m = Measurement::Relative(RelativeReading {
        header: header(Mode::VdcNormalRel, "VDC/Rel", true, true, RangeStep::Step3),
        relative: "-0.5 V".to_string(),
        reference: "10.0 V".to_string(),
        measurement: "9.5 V".to_string(),
        fast: Some("9.4 V".to_string()),
    });
    assert_eq!(
        render(&m).unwrap(),
        vec![
            "Mode: VDC/Rel [HOLD] [AUTO]",
            "Range: -600...600 V",
            "REL: -0.5 V",
            "REFERENCE: 10.0 V",
            "MEASUREMENT: 9.5 V",
            "FAST: 9.4 V",
        ]
    );
}

#[test]
fn min_max_lines_carry_their_own_times() {
    let m = Measurement::MinMax(MinMaxReading {
        header: header(Mode::MadcNormal, "mADC", false, false, RangeStep::Step1),
        main: "12.00 mA".to_string(),
        max: "15.00 mA".to_string(),
        max_secs: 3661,
        average: "12.50 mA".to_string(),
        average_secs: 59,
        min: "10.00 mA".to_string(),
        min_secs: 360000,
    });
    assert_eq!(
        render(&m).unwrap(),
        vec![
            "Mode: mADC [] []",
            "Range: -60...60 mA",
            "12.00 mA",
            "MAXIMUM: 15.00 mA\t1:01:01",
            "AVERAGE: 12.50 mA\t0:00:59",
            "MINIMUM: 10.00 mA\t100:00:00",
        ]
    );
}

#[test]
fn peak_reading_lines() {
    let m = Measurement::Peak(PeakReading {
        header: header(Mode::AacPeak, "AAC/Peak", false, true, RangeStep::Step1),
        max: "1.5 A".to_string(),
        min: "-1.5 A".to_string(),
    });
    assert_eq!(
        render(&m).unwrap(),
        vec!["Mode: AAC/Peak [] [AUTO]", "Range: 0...20 A", "PEAK MAX: 1.5 A", "PEAK MIN: -1.5 A"]
    );
}

#[test]
fn unused_range_step_renders_nothing() {
    let m = Measurement::Peak(PeakReading {
        header: header(Mode::MvdcPeak, "mVDC/Peak", false, false, RangeStep::Step3),
        max: "1 mV".to_string(),
        min: "0 mV".to_string(),
    });
    match render(&m) {
        Err(e) => assert_eq!(e, UnusedRangeStep { family: Family::MilliVoltDc, step: RangeStep::Step3 }),
        Ok(lines) => panic!("rendered {:?}", lines),
    }
}

#[test]
fn header_of_every_shape() {
    let m = Measurement::Peak(PeakReading {
        header: header(Mode::UadcPeak, "uADC/Peak", true, false, RangeStep::Step2),
        max: "1 uA".to_string(),
        min: "0 uA".to_string(),
    });
    assert_eq!(m.header().mode, Mode::UadcPeak);
    assert_eq!(m.header().range, RangeStep::Step2);
}
