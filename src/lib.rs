/// Resolving a command line into one command, and the steps that run it against the meter.
pub mod command;
/// The failures a command can end in, by category.
pub mod error;
/// One decoded reading of the meter, in its four shapes.
pub mod measurement;
/// Measuring modes, their families, range steps, and their command-line tokens.
pub mod mode;
/// Rendering a reading as lines of text.
pub mod present;
/// The phrase that names the span of each range step, per family.
pub mod range;
/// Decimal text, elapsed times, and comparing and reading strings.
pub mod text;
