use vstd::prelude::*;

use crate::mode::{Mode, RangeStep};

verus! {

/// What every reading carries besides its values.
pub struct Header {
    pub mode: Mode,
    /// The meter's own name for the mode, as it is shown to the user.
    pub mode_label: String,
    pub hold: bool,
    pub auto_range: bool,
    pub range: RangeStep,
}

/// A plain reading. Each optional value is present exactly when the mode produces it.
pub struct NormalReading {
    pub header: Header,
    pub main: String,
    pub aux1: Option<String>,
    pub aux2: Option<String>,
    pub fast: Option<String>,
}

/// A reading taken relative to a stored reference value.
pub struct RelativeReading {
    pub header: Header,
    pub relative: String,
    pub reference: String,
    pub measurement: String,
    pub fast: Option<String>,
}

/// A reading in min/max mode: each extreme and the average with the seconds elapsed
/// when it was taken.
pub struct MinMaxReading {
    pub header: Header,
    pub main: String,
    pub max: String,
    pub max_secs: u64,
    pub average: String,
    pub average_secs: u64,
    pub min: String,
    pub min_secs: u64,
}

/// A reading in peak mode.
pub struct PeakReading {
    pub header: Header,
    pub max: String,
    pub min: String,
}

/// One decoded reading of the meter, in one of its four shapes. Values are carried as
/// the text that the meter's value type displays.
pub enum Measurement {
    Normal(NormalReading),
    Relative(RelativeReading),
    MinMax(MinMaxReading),
    Peak(PeakReading),
}

impl Measurement {
    /// The header of the reading, whatever its shape.
    pub open spec fn spec_header(&self) -> &Header {
        match self {
            Measurement::Normal(r) => &r.header,
            Measurement::Relative(r) => &r.header,
            Measurement::MinMax(r) => &r.header,
            Measurement::Peak(r) => &r.header,
        }
    }

    /// The header of the reading, whatever its shape.
    pub fn header(&self) -> (h: &Header)
        ensures
            h == self.spec_header(),
    {
        match self {
            Measurement::Normal(r) => &r.header,
            Measurement::Relative(r) => &r.header,
            Measurement::MinMax(r) => &r.header,
            Measurement::Peak(r) => &r.header,
        }
    }
}

} // verus!
