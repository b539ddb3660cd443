use ut181a_cli::command::{
    parse_command, verb_from_token, Command, CommandError, InputProblem, Step, Verb,
};
use ut181a_cli::mode::{Mode, RangeStep};

fn parse(verb: &str, sub: Option<&str>, args: &[&str]) -> Result<Command<String>, CommandError<String>> {
    parse_command(verb, sub, args)
}

#[test]
fn top_level_verbs() {
    assert_eq!(verb_from_token("list-devices"), Some(Verb::ListDevices));
    assert_eq!(verb_from_token("record"), Some(Verb::Record));
    assert_eq!(verb_from_token("records"), None);
    assert_eq!(parse("list-devices", None, &[]), Ok(Command::ListDevices));
    assert_eq!(parse("hold", None, &[]), Ok(Command::Hold));
}

#[test]
fn setting_commands() {
    assert_eq!(parse("min-max-mode", Some("on"), &[]), Ok(Command::MinMax(true)));
    assert_eq!(parse("min-max-mode", Some("off"), &[]), Ok(Command::MinMax(false)));
    assert_eq!(parse("range", Some("auto"), &[]), Ok(Command::SetRange(RangeStep::Auto)));
    assert_eq!(parse("range", Some("step6"), &[]), Ok(Command::SetRange(RangeStep::Step6)));
    assert_eq!(parse("mode", Some("mvac-acdc-rel"), &[]), Ok(Command::SetMode(Mode::MvacAcDcRel)));
    assert_eq!(parse("ref", None, &["1.5"]), Ok(Command::Reference("1.5".to_string())));
    assert_eq!(parse("ref", None, &[]), Err(CommandError::Input(InputProblem::MissingArgument)));
}

#[test]
fn save_and_record_commands() {
    assert_eq!(parse("save", Some("store"), &[]), Ok(Command::SaveStore));
    assert_eq!(parse("save", Some("count"), &[]), Ok(Command::SaveCount));
    assert_eq!(parse("save", Some("read"), &["3"]), Ok(Command::SaveRead(3)));
    assert_eq!(parse("save", Some("delete-all"), &[]), Ok(Command::SaveDeleteAll));
    assert_eq!(parse("save", Some("delete"), &["65535"]), Ok(Command::SaveDelete(65535)));
    assert_eq!(parse("record", Some("count"), &[]), Ok(Command::RecordCount));
    assert_eq!(parse("record", Some("list"), &[]), Ok(Command::RecordList));
    assert_eq!(parse("record", Some("read"), &["1"]), Ok(Command::RecordRead(1)));
    assert_eq!(
        parse("record", Some("start"), &["bench", "10", "70000"]),
        Ok(Command::RecordStart("bench".to_string(), 10, 70000))
    );
    assert_eq!(parse("record", Some("stop"), &[]), Ok(Command::RecordStop));
}

#[test]
fn record_start_takes_interval_above_duration() {
    assert_eq!(
        parse("record", Some("start"), &["x", "600", "1"]),
        Ok(Command::RecordStart("x".to_string(), 600, 1))
    );
}

#[test]
fn non_numeric_save_index_is_input_error() {
    let r = parse("save", Some("read"), &["abc"]);
    assert_eq!(r, Err(CommandError::Input(InputProblem::BadIndex)));
}

#[test]
fn malformed_arguments_are_input_errors() {
    assert_eq!(parse("save", Some("delete"), &["-1"]), Err(CommandError::Input(InputProblem::BadIndex)));
    assert_eq!(parse("record", Some("read"), &["65536"]), Err(CommandError::Input(InputProblem::BadIndex)));
    assert_eq!(parse("save", Some("read"), &[]), Err(CommandError::Input(InputProblem::MissingArgument)));
    assert_eq!(
        parse("record", Some("start"), &["x", "ten", "5"]),
        Err(CommandError::Input(InputProblem::BadInterval))
    );
    assert_eq!(
        parse("record", Some("start"), &["x", "10", "4294967296"]),
        Err(CommandError::Input(InputProblem::BadDuration))
    );
    assert_eq!(
        parse("record", Some("start"), &["x", "10"]),
        Err(CommandError::Input(InputProblem::MissingArgument))
    );
    assert_eq!(
        parse("record", Some("start"), &[]),
        Err(CommandError::Input(InputProblem::MissingArgument))
    );
}

#[test]
fn unknown_sub_verb_names_verb_and_sub_verb() {
    assert_eq!(
        parse("save", Some("frobnicate"), &[]),
        Err(CommandError::UnknownCommand("save frobnicate".to_string()))
    );
    assert_eq!(
        parse("mode", Some("volts"), &[]),
        Err(CommandError::UnknownCommand("mode volts".to_string()))
    );
    assert_eq!(
        parse("range", Some("step9"), &[]),
        Err(CommandError::UnknownCommand("range step9".to_string()))
    );
    assert_eq!(
        parse("min-max-mode", Some("maybe"), &[]),
        Err(CommandError::UnknownCommand("min-max-mode maybe".to_string()))
    );
    assert_eq!(
        parse("read", Some("twice"), &[]),
        Err(CommandError::UnknownCommand("read twice".to_string()))
    );
    assert_eq!(
        parse("record", Some("pause"), &[]),
        Err(CommandError::UnknownCommand("record pause".to_string()))
    );
}

#[test]
fn unknown_verb_and_missing_sub_verb() {
    assert_eq!(parse("erase", None, &[]), Err(CommandError::UnknownCommand("erase".to_string())));
    assert_eq!(parse("save", None, &[]), Err(CommandError::UnknownCommand("save".to_string())));
}

#[test]
fn configuring_commands_switch_monitoring_off_first() {
    let commands: Vec<Command<String>> = vec![
        Command::Hold,
        Command::MinMax(true),
        Command::Reference("2".to_string()),
        Command::SetRange(RangeStep::Step1),
        Command::SetMode(Mode::VdcNormal),
        Command::SaveStore,
        Command::SaveCount,
        Command::SaveRead(1),
        Command::SaveDeleteAll,
        Command::SaveDelete(2),
        Command::RecordCount,
        Command::RecordList,
        Command::RecordRead(1),
        Command::RecordStart("r".to_string(), 1, 1),
        Command::RecordStop,
    ];
    for c in commands {
        let p = c.plan();
        assert_eq!(p.steps, vec![Step::OpenDevice, Step::MonitorOff, Step::Perform], "{:?}", c);
        assert!(p.repeat.is_empty());
    }
}

#[test]
fn single_read_is_bracketed() {
    let p = parse("read", Some("once"), &[]).unwrap().plan();
    assert_eq!(
        p.steps,
        vec![Step::OpenDevice, Step::MonitorOn, Step::FetchAndShow, Step::MonitorOff]
    );
    assert!(p.repeat.is_empty());
}

#[test]
fn continuous_read_never_switches_monitoring_off() {
    let p = parse("read", Some("cont"), &[]).unwrap().plan();
    assert_eq!(p.steps, vec![Step::OpenDevice, Step::MonitorOn]);
    assert_eq!(p.repeat, vec![Step::FetchAndShow]);
}

#[test]
fn listing_devices_bypasses_the_bracket() {
    let p = Command::<String>::ListDevices.plan();
    assert_eq!(p.steps, vec![Step::Perform]);
    assert!(p.repeat.is_empty());
}
