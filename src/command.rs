use vstd::prelude::*;

use crate::mode::{mode_for_token, mode_from_token, range_step_for_token, range_step_from_token, Mode, RangeStep};
use crate::text::{bounded_value, parse_bounded, str_eq, unsigned_value};

verus! {

/// Top-level verbs of the command line.
#[derive(Clone, Copy, Debug, PartialEq, Eq, Structural)]
pub enum Verb {
    ListDevices,
    Hold,
    MinMaxMode,
    Ref,
    Range,
    Mode,
    Read,
    Save,
    Record,
}

/// The token of each verb.
pub open spec fn verb_token(v: Verb) -> &'static str {
    match v {
        Verb::ListDevices => "list-devices",
        Verb::Hold => "hold",
        Verb::MinMaxMode => "min-max-mode",
        Verb::Ref => "ref",
        Verb::Range => "range",
        Verb::Mode => "mode",
        Verb::Read => "read",
        Verb::Save => "save",
        Verb::Record => "record",
    }
}

/// The verb that a token names, if any.
pub open spec fn verb_for_token(t: Seq<char>) -> Option<Verb> {
    if t == "list-devices"@ {
        Some(Verb::ListDevices)
    } else if t == "hold"@ {
        Some(Verb::Hold)
    } else if t == "min-max-mode"@ {
        Some(Verb::MinMaxMode)
    } else if t == "ref"@ {
        Some(Verb::Ref)
    } else if t == "range"@ {
        Some(Verb::Range)
    } else if t == "mode"@ {
        Some(Verb::Mode)
    } else if t == "read"@ {
        Some(Verb::Read)
    } else if t == "save"@ {
        Some(Verb::Save)
    } else if t == "record"@ {
        Some(Verb::Record)
    } else {
        None
    }
}

/// Reads a verb from its token.
pub fn verb_from_token(t: &str) -> (r: Option<Verb>)
    ensures
        r == verb_for_token(t@),
{
    if str_eq(t, "list-devices") {
        Some(Verb::ListDevices)
    } else if str_eq(t, "hold") {
        Some(Verb::Hold)
    } else if str_eq(t, "min-max-mode") {
        Some(Verb::MinMaxMode)
    } else if str_eq(t, "ref") {
        Some(Verb::Ref)
    } else if str_eq(t, "range") {
        Some(Verb::Range)
    } else if str_eq(t, "mode") {
        Some(Verb::Mode)
    } else if str_eq(t, "read") {
        Some(Verb::Read)
    } else if str_eq(t, "save") {
        Some(Verb::Save)
    } else if str_eq(t, "record") {
        Some(Verb::Record)
    } else {
        None
    }
}

/// Each verb is named by its own token.
pub proof fn lemma_verb_token(v: Verb)
    ensures
        verb_for_token(verb_token(v)@) == Some(v),
{
    reveal_strlit("list-devices");
    reveal_strlit("hold");
    reveal_strlit("min-max-mode");
    reveal_strlit("ref");
    reveal_strlit("range");
    reveal_strlit("mode");
    reveal_strlit("read");
    reveal_strlit("save");
    reveal_strlit("record");
    assert("list-devices"@.len() == 12 && "list-devices"@[0] == 'l');
    assert("hold"@.len() == 4 && "hold"@[0] == 'h');
    assert("min-max-mode"@.len() == 12 && "min-max-mode"@[0] == 'm');
    assert("ref"@.len() == 3 && "ref"@[0] == 'r');
    assert("range"@.len() == 5 && "range"@[0] == 'r');
    assert("mode"@.len() == 4 && "mode"@[0] == 'm');
    assert("read"@.len() == 4 && "read"@[0] == 'r');
    assert("save"@.len() == 4 && "save"@[0] == 's');
    assert("record"@.len() == 6 && "record"@[0] == 'r');
}

/// Why the words of a command line were refused, before any device was touched.
#[derive(Clone, Copy, Debug, PartialEq, Eq, Structural)]
pub enum InputProblem {
    /// A required positional argument is missing.
    MissingArgument,
    /// An index is not an unsigned 16-bit number.
    BadIndex,
    /// A sampling interval is not an unsigned 16-bit number.
    BadInterval,
    /// A recording duration is not an unsigned 32-bit number.
    BadDuration,
    /// A reference value is not a number.
    BadReferenceValue,
}

/// One resolved command. `T` is the type of its free-text arguments: `String` when it runs,
/// their character sequences in specifications.
#[derive(Clone, Debug, PartialEq, Eq)]
pub enum Command<T> {
    /// Enumerate the connected meters.
    ListDevices,
    /// Toggle hold of the current reading.
    Hold,
    /// Turn min/max mode on or off.
    MinMax(bool),
    /// Set the reference value of relative mode, given as its text.
    Reference(T),
    /// Select a range step.
    SetRange(RangeStep),
    /// Select a measuring mode.
    SetMode(Mode),
    /// Read one measurement.
    ReadOnce,
    /// Read measurements until stopped from outside.
    ReadCont,
    /// Save the current measurement on the meter.
    SaveStore,
    /// Count the saved measurements.
    SaveCount,
    /// Read the saved measurement at a 1-based index.
    SaveRead(u16),
    /// Delete every saved measurement.
    SaveDeleteAll,
    /// Delete the saved measurement at a 1-based index.
    SaveDelete(u16),
    /// Count the recordings.
    RecordCount,
    /// List the recordings.
    RecordList,
    /// Read the samples of the recording at a 1-based index.
    RecordRead(u16),
    /// Start a recording: name, interval in seconds, duration in minutes.
    RecordStart(T, u16, u32),
    /// Stop the current recording.
    RecordStop,
}

/// Why a command line could not be resolved into a command.
#[derive(Clone, Debug, PartialEq, Eq)]
pub enum CommandError<T> {
    /// The verb, or the verb and sub-verb (separated by a space), are not in the command tree.
    UnknownCommand(T),
    /// An argument is malformed.
    Input(InputProblem),
}

/// A command with its free-text arguments seen as character sequences.
pub open spec fn command_view(c: Command<String>) -> Command<Seq<char>> {
    match c {
        Command::ListDevices => Command::ListDevices,
        Command::Hold => Command::Hold,
        Command::MinMax(x) => Command::MinMax(x),
        Command::Reference(t) => Command::Reference(t@),
        Command::SetRange(x) => Command::SetRange(x),
        Command::SetMode(x) => Command::SetMode(x),
        Command::ReadOnce => Command::ReadOnce,
        Command::ReadCont => Command::ReadCont,
        Command::SaveStore => Command::SaveStore,
        Command::SaveCount => Command::SaveCount,
        Command::SaveRead(x) => Command::SaveRead(x),
        Command::SaveDeleteAll => Command::SaveDeleteAll,
        Command::SaveDelete(x) => Command::SaveDelete(x),
        Command::RecordCount => Command::RecordCount,
        Command::RecordList => Command::RecordList,
        Command::RecordRead(x) => Command::RecordRead(x),
        Command::RecordStart(name, interval, duration) => Command::RecordStart(name@, interval, duration),
        Command::RecordStop => Command::RecordStop,
    }
}

/// A resolution result with its texts seen as character sequences.
pub open spec fn result_view(r: Result<Command<String>, CommandError<String>>) -> Result<
    Command<Seq<char>>,
    CommandError<Seq<char>>,
> {
    match r {
        Ok(c) => Ok(command_view(c)),
        Err(CommandError::UnknownCommand(t)) => Err(CommandError::UnknownCommand(t@)),
        Err(CommandError::Input(p)) => Err(CommandError::Input(p)),
    }
}

/// The texts of the positional arguments.
pub open spec fn args_view(args: Seq<&str>) -> Seq<Seq<char>> {
    args.map_values(|a: &str| a@)
}

/// The text of an optional sub-verb.
pub open spec fn sub_view(sub: Option<&str>) -> Option<Seq<char>> {
    match sub {
        Some(s) => Some(s@),
        None => None,
    }
}

/// The positional argument at `i`, read as an unsigned number no greater than `max`.
pub open spec fn number_arg(args: Seq<Seq<char>>, i: int, max: nat, bad: InputProblem) -> Result<
    nat,
    InputProblem,
> {
    if 0 <= i < args.len() {
        match bounded_value(args[i], max) {
            Some(v) => Ok(v),
            None => Err(bad),
        }
    } else {
        Err(InputProblem::MissingArgument)
    }
}

/// The error for a sub-verb that is not in the tree under its verb.
pub open spec fn unknown_sub_verb(verb: Seq<char>, sub: Seq<char>) -> CommandError<Seq<char>> {
    CommandError::UnknownCommand(verb + " "@ + sub)
}

/// A command that takes a 1-based index as its only argument.
pub open spec fn indexed(args: Seq<Seq<char>>, make: spec_fn(u16) -> Command<Seq<char>>) -> Result<
    Command<Seq<char>>,
    CommandError<Seq<char>>,
> {
    match number_arg(args, 0, 0xffff, InputProblem::BadIndex) {
        Ok(n) => Ok(make(n as u16)),
        Err(p) => Err(CommandError::Input(p)),
    }
}

/// Whether a sub-verb is in the command tree under a verb.
pub open spec fn sub_verb_known(v: Verb, s: Seq<char>) -> bool {
    match v {
        Verb::MinMaxMode => s == "on"@ || s == "off"@,
        Verb::Range => range_step_for_token(s) is Some,
        Verb::Mode => mode_for_token(s) is Some,
        Verb::Read => s == "once"@ || s == "cont"@,
        Verb::Save => s == "store"@ || s == "count"@ || s == "read"@ || s == "delete-all"@ || s
            == "delete"@,
        Verb::Record => s == "count"@ || s == "list"@ || s == "read"@ || s == "start"@ || s
            == "stop"@,
        _ => false,
    }
}

/// The command under a verb that takes a sub-verb.
pub open spec fn sub_command_for(v: Verb, verb: Seq<char>, s: Seq<char>, args: Seq<Seq<char>>) -> Result<
    Command<Seq<char>>,
    CommandError<Seq<char>>,
> {
    match v {
        Verb::MinMaxMode => if s == "on"@ {
            Ok(Command::MinMax(true))
        } else if s == "off"@ {
            Ok(Command::MinMax(false))
        } else {
            Err(unknown_sub_verb(verb, s))
        },
        Verb::Range => match range_step_for_token(s) {
            Some(r) => Ok(Command::SetRange(r)),
            None => Err(unknown_sub_verb(verb, s)),
        },
        Verb::Mode => match mode_for_token(s) {
            Some(m) => Ok(Command::SetMode(m)),
            None => Err(unknown_sub_verb(verb, s)),
        },
        Verb::Read => if s == "once"@ {
            Ok(Command::ReadOnce)
        } else if s == "cont"@ {
            Ok(Command::ReadCont)
        } else {
            Err(unknown_sub_verb(verb, s))
        },
        Verb::Save => if s == "store"@ {
            Ok(Command::SaveStore)
        } else if s == "count"@ {
            Ok(Command::SaveCount)
        } else if s == "read"@ {
            indexed(args, |n: u16| Command::SaveRead(n))
        } else if s == "delete-all"@ {
            Ok(Command::SaveDeleteAll)
        } else if s == "delete"@ {
            indexed(args, |n: u16| Command::SaveDelete(n))
        } else {
            Err(unknown_sub_verb(verb, s))
        },
        Verb::Record => if s == "count"@ {
            Ok(Command::RecordCount)
        } else if s == "list"@ {
            Ok(Command::RecordList)
        } else if s == "read"@ {
            indexed(args, |n: u16| Command::RecordRead(n))
        } else if s == "start"@ {
            if args.len() == 0 {
                Err(CommandError::Input(InputProblem::MissingArgument))
            } else {
                match number_arg(args, 1, 0xffff, InputProblem::BadInterval) {
                    Err(p) => Err(CommandError::Input(p)),
                    Ok(interval) => match number_arg(
                        args,
                        2,
                        0xffff_ffff,
                        InputProblem::BadDuration,
                    ) {
                        Err(p) => Err(CommandError::Input(p)),
                        Ok(duration) => Ok(
                            Command::RecordStart(args[0], interval as u16, duration as u32),
                        ),
                    },
                }
            }
        } else if s == "stop"@ {
            Ok(Command::RecordStop)
        } else {
            Err(unknown_sub_verb(verb, s))
        },
        _ => Err(unknown_sub_verb(verb, s)),
    }
}

/// The command that a verb, an optional sub-verb and the positional arguments resolve to.
pub open spec fn command_for(verb: Seq<char>, sub: Option<Seq<char>>, args: Seq<Seq<char>>) -> Result<
    Command<Seq<char>>,
    CommandError<Seq<char>>,
> {
    match verb_for_token(verb) {
        None => Err(CommandError::UnknownCommand(verb)),
        Some(Verb::ListDevices) => Ok(Command::ListDevices),
        Some(Verb::Hold) => Ok(Command::Hold),
        Some(Verb::Ref) => if args.len() > 0 {
            Ok(Command::Reference(args[0]))
        } else {
            Err(CommandError::Input(InputProblem::MissingArgument))
        },
        Some(v) => match sub {
            None => Err(CommandError::UnknownCommand(verb)),
            Some(s) => sub_command_for(v, verb, s, args),
        },
    }
}

fn number_arg_exec(args: &[&str], i: usize, max: u64, bad: InputProblem) -> (r: Result<
    u64,
    InputProblem,
>)
    requires
        max <= u32::MAX,
    ensures
        match number_arg(args_view(args@), i as int, max as nat, bad) {
            Ok(v) => r == Ok::<u64, InputProblem>(v as u64) && v <= max,
            Err(p) => r == Err::<u64, InputProblem>(p),
        },
{
    if i < args.len() {
        match parse_bounded(args[i], max) {
            Some(v) => Ok(v),
            None => Err(bad),
        }
    } else {
        Err(InputProblem::MissingArgument)
    }
}

fn unknown_sub_verb_exec(verb: &str, s: &str) -> (r: CommandError<String>)
    ensures
        r matches CommandError::UnknownCommand(t) && unknown_sub_verb(verb@, s@) == CommandError::<
            Seq<char>,
        >::UnknownCommand(t@),
{
    CommandError::UnknownCommand(String::from_str(verb).concat(" ").concat(s))
}

fn index_exec(args: &[&str]) -> (r: Result<u16, CommandError<String>>)
    ensures
        match number_arg(args_view(args@), 0, 0xffff, InputProblem::BadIndex) {
            Ok(n) => r == Ok::<u16, CommandError<String>>(n as u16),
            Err(p) => r == Err::<u16, CommandError<String>>(CommandError::Input(p)),
        },
{
    match number_arg_exec(args, 0, 0xffff, InputProblem::BadIndex) {
        Ok(n) => Ok(n as u16),
        Err(p) => Err(CommandError::Input(p)),
    }
}

/// Resolves a verb, an optional sub-verb and the positional arguments into one command.
/// Every argument is checked here, so a malformed one is refused before any device call.
pub fn parse_command(verb: &str, sub: Option<&str>, args: &[&str]) -> (r: Result<
    Command<String>,
    CommandError<String>,
>)
    ensures
        result_view(r) == command_for(verb@, sub_view(sub), args_view(args@)),
{
    let v = match verb_from_token(verb) {
        Some(v) => v,
        None => {
            return Err(CommandError::UnknownCommand(String::from_str(verb)));
        },
    };
    match v {
        Verb::ListDevices => {
            return Ok(Command::ListDevices);
        },
        Verb::Hold => {
            return Ok(Command::Hold);
        },
        Verb::Ref => {
            if args.len() > 0 {
                return Ok(Command::Reference(String::from_str(args[0])));
            } else {
                return Err(CommandError::Input(InputProblem::MissingArgument));
            }
        },
        _ => {},
    }
    let s = match sub {
        Some(s) => s,
        None => {
            return Err(CommandError::UnknownCommand(String::from_str(verb)));
        },
    };
    match v {
        Verb::MinMaxMode => {
            if str_eq(s, "on") {
                Ok(Command::MinMax(true))
            } else if str_eq(s, "off") {
                Ok(Command::MinMax(false))
            } else {
                Err(unknown_sub_verb_exec(verb, s))
            }
        },
        Verb::Range => match range_step_from_token(s) {
            Some(r) => Ok(Command::SetRange(r)),
            None => Err(unknown_sub_verb_exec(verb, s)),
        },
        Verb::Mode => match mode_from_token(s) {
            Some(m) => Ok(Command::SetMode(m)),
            None => Err(unknown_sub_verb_exec(verb, s)),
        },
        Verb::Read => {
            if str_eq(s, "once") {
                Ok(Command::ReadOnce)
            } else if str_eq(s, "cont") {
                Ok(Command::ReadCont)
            } else {
                Err(unknown_sub_verb_exec(verb, s))
            }
        },
        Verb::Save => {
            if str_eq(s, "store") {
                Ok(Command::SaveStore)
            } else if str_eq(s, "count") {
                Ok(Command::SaveCount)
            } else if str_eq(s, "read") {
                match index_exec(args) {
                    Ok(n) => Ok(Command::SaveRead(n)),
                    Err(e) => Err(e),
                }
            } else if str_eq(s, "delete-all") {
                Ok(Command::SaveDeleteAll)
            } else if str_eq(s, "delete") {
                match index_exec(args) {
                    Ok(n) => Ok(Command::SaveDelete(n)),
                    Err(e) => Err(e),
                }
            } else {
                Err(unknown_sub_verb_exec(verb, s))
            }
        },
        _ => {
            if str_eq(s, "count") {
                Ok(Command::RecordCount)
            } else if str_eq(s, "list") {
                Ok(Command::RecordList)
            } else if str_eq(s, "read") {
                match index_exec(args) {
                    Ok(n) => Ok(Command::RecordRead(n)),
                    Err(e) => Err(e),
                }
            } else if str_eq(s, "start") {
                if args.len() == 0 {
                    return Err(CommandError::Input(InputProblem::MissingArgument));
                }
                let interval = match number_arg_exec(args, 1, 0xffff, InputProblem::BadInterval) {
                    Ok(n) => n as u16,
                    Err(p) => {
                        return Err(CommandError::Input(p));
                    },
                };
                let duration = match number_arg_exec(
                    args,
                    2,
                    0xffff_ffff,
                    InputProblem::BadDuration,
                ) {
                    Ok(n) => n as u32,
                    Err(p) => {
                        return Err(CommandError::Input(p));
                    },
                };
                Ok(Command::RecordStart(String::from_str(args[0]), interval, duration))
            } else if str_eq(s, "stop") {
                Ok(Command::RecordStop)
            } else {
                Err(unknown_sub_verb_exec(verb, s))
            }
        },
    }
}

/// One step of a command's run against the meter.
#[derive(Clone, Copy, Debug, PartialEq, Eq, Structural)]
pub enum Step {
    /// Open the meter, by the given path or the first one found.
    OpenDevice,
    /// Switch the meter's monitor (streaming) state on.
    MonitorOn,
    /// Switch the meter's monitor state off.
    MonitorOff,
    /// Fetch the current measurement and show it.
    FetchAndShow,
    /// Carry out the command's own operation.
    Perform,
}

/// The steps of a command: `steps` once in order, then `repeat` over and over, without end,
/// where it is not empty.
pub struct Plan {
    pub steps: Vec<Step>,
    pub repeat: Vec<Step>,
}

/// Whether a command's own operation needs the meter out of its monitor state: every
/// operation that configures the meter or manages its saved measurements and recordings.
pub open spec fn needs_idle<T>(c: Command<T>) -> bool {
    !(c is ListDevices || c is ReadOnce || c is ReadCont)
}

/// The steps that a command runs once.
pub open spec fn plan_steps<T>(c: Command<T>) -> Seq<Step> {
    match c {
        Command::ListDevices => seq![Step::Perform],
        Command::ReadOnce => seq![Step::OpenDevice, Step::MonitorOn, Step::FetchAndShow, Step::MonitorOff],
        Command::ReadCont => seq![Step::OpenDevice, Step::MonitorOn],
        _ => seq![Step::OpenDevice, Step::MonitorOff, Step::Perform],
    }
}

/// The steps that a command then repeats without end.
pub open spec fn plan_repeat<T>(c: Command<T>) -> Seq<Step> {
    match c {
        Command::ReadCont => seq![Step::FetchAndShow],
        _ => Seq::empty(),
    }
}

impl<T> Command<T> {
    /// The steps that this command runs against the meter.
    pub fn plan(&self) -> (p: Plan)
        ensures
            p.steps@ == plan_steps(*self),
            p.repeat@ == plan_repeat(*self),
    {
        match self {
            Command::ListDevices => Plan { steps: vec![Step::Perform], repeat: Vec::new() },
            Command::ReadOnce => Plan {
                steps: vec![Step::OpenDevice, Step::MonitorOn, Step::FetchAndShow, Step::MonitorOff],
                repeat: Vec::new(),
            },
            Command::ReadCont => Plan {
                steps: vec![Step::OpenDevice, Step::MonitorOn],
                repeat: vec![Step::FetchAndShow],
            },
            _ => Plan {
                steps: vec![Step::OpenDevice, Step::MonitorOff, Step::Perform],
                repeat: Vec::new(),
            },
        }
    }
}

/// What is known of the meter's monitor state.
#[derive(Clone, Copy, Debug, PartialEq, Eq, Structural)]
pub enum MonitorState {
    /// As an earlier run left it: a continuous read may have left it monitoring.
    Unknown,
    Idle,
    Monitoring,
}

/// The monitor state after a sequence of steps, from a freshly opened meter.
pub open spec fn state_after(steps: Seq<Step>) -> MonitorState
    decreases steps.len(),
{
    if steps.len() == 0 {
        MonitorState::Unknown
    } else {
        match steps.last() {
            Step::MonitorOn => MonitorState::Monitoring,
            Step::MonitorOff => MonitorState::Idle,
            _ => state_after(steps.drop_last()),
        }
    }
}

/// Whether every `Perform` step of a sequence happens with the monitor state off.
pub open spec fn performs_when_idle(steps: Seq<Step>) -> bool {
    forall|i: int|
        0 <= i < steps.len() && #[trigger] steps[i] == Step::Perform ==> state_after(steps.take(i))
            == MonitorState::Idle
}

/// The monitor bracket. A command that configures the meter or manages its memory switches
/// monitoring off before its operation, and repeats nothing. A single read switches
/// monitoring on, fetches exactly once, and switches it off again. A continuous read switches
/// monitoring on once and then only fetches: it never switches monitoring off.
pub proof fn lemma_plan_bracket<T>(c: Command<T>)
    ensures
        needs_idle(c) ==> performs_when_idle(plan_steps(c)) && plan_repeat(c).len() == 0,
        c is ReadOnce ==> plan_steps(c) == seq![
            Step::OpenDevice,
            Step::MonitorOn,
            Step::FetchAndShow,
            Step::MonitorOff,
        ] && plan_repeat(c).len() == 0 && state_after(plan_steps(c)) == MonitorState::Idle,
        c is ReadCont ==> plan_steps(c) == seq![Step::OpenDevice, Step::MonitorOn] && plan_repeat(c)
            == seq![Step::FetchAndShow] && state_after(plan_steps(c)) == MonitorState::Monitoring,
        c is ReadCont ==> !plan_steps(c).contains(Step::MonitorOff) && !plan_repeat(c).contains(
            Step::MonitorOff,
        ),
        c is ListDevices ==> plan_steps(c) == seq![Step::Perform] && plan_repeat(c).len() == 0,
{
    let s = plan_steps(c);
    if needs_idle(c) {
        assert(s.take(2).drop_last() =~= s.take(1));
        assert(s.take(1).drop_last() =~= s.take(0));
        assert(state_after(s.take(2)) == MonitorState::Idle);
        assert forall|i: int| 0 <= i < s.len() && #[trigger] s[i] == Step::Perform implies state_after(
            s.take(i),
        ) == MonitorState::Idle by {
            assert(i == 2);
        }
    }
    if c is ReadOnce {
        assert(s.drop_last() =~= s.take(3));
    }
    if c is ReadCont {
        assert(s[0] != Step::MonitorOff && s[1] != Step::MonitorOff);
        assert(plan_repeat(c)[0] != Step::MonitorOff);
    }
}

/// A saved-entry read whose index is not a number is refused as malformed input, so no
/// command, and with it no step against the meter, comes out of it.
pub proof fn lemma_bad_index_refused(index: Seq<char>, rest: Seq<Seq<char>>)
    requires
        unsigned_value(index) is None,
    ensures
        command_for("save"@, Some("read"@), seq![index] + rest) == Err::<
            Command<Seq<char>>,
            CommandError<Seq<char>>,
        >(CommandError::Input(InputProblem::BadIndex)),
{
    lemma_verb_token(Verb::Save);
    reveal_strlit("read");
    reveal_strlit("store");
    reveal_strlit("count");
    assert("read"@ != "store"@);
    assert("read"@[0] != "count"@[0]);
    assert((seq![index] + rest)[0] == index);
}

/// A sub-verb outside the command tree under a known verb is refused as an unknown command
/// whose text is the verb and the sub-verb, separated by a space.
pub proof fn lemma_unknown_sub_verb(verb: Seq<char>, sub: Seq<char>, args: Seq<Seq<char>>)
    requires
        verb_for_token(verb) matches Some(v) && takes_sub_verb(v) && !sub_verb_known(v, sub),
    ensures
        command_for(verb, Some(sub), args) == Err::<Command<Seq<char>>, CommandError<Seq<char>>>(
            CommandError::UnknownCommand(verb + " "@ + sub),
        ),
{
}

/// Whether a verb is followed by a sub-verb.
pub open spec fn takes_sub_verb(v: Verb) -> bool {
    !(v is ListDevices || v is Hold || v is Ref)
}

} // verus!
