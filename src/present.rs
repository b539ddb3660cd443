use vstd::prelude::*;

use crate::measurement::{
    Header, Measurement, MinMaxReading, NormalReading, PeakReading, RelativeReading,
};
use crate::mode::{family_of, spec_family_of};
use crate::range::{phrase_for, phrase_result, step_declared, UnusedRangeStep};
use crate::text::{duration_text, format_duration};

verus! {

/// The texts of a list of lines.
pub open spec fn lines_view(v: Seq<String>) -> Seq<Seq<char>> {
    v.map_values(|s: String| s@)
}

/// A flag shown as its token when set, and as nothing otherwise.
pub open spec fn flag_text(set: bool, token: Seq<char>) -> Seq<char> {
    if set {
        token
    } else {
        Seq::empty()
    }
}

/// First line of every rendering: the mode's name, then the hold and auto-range tokens.
pub open spec fn header_line(h: Header) -> Seq<char> {
    "Mode: "@ + h.mode_label@ + " ["@ + flag_text(h.hold, "HOLD"@) + "] ["@ + flag_text(
        h.auto_range,
        "AUTO"@,
    ) + "]"@
}

/// Second line of every rendering: the phrase of the range step.
pub open spec fn range_line(phrase: Seq<char>) -> Seq<char> {
    "Range: "@ + phrase
}

/// A labelled line of a value.
pub open spec fn value_line(label: Seq<char>, value: Seq<char>) -> Seq<char> {
    label + value
}

/// One labelled line for a value that is present, none for one that is absent.
pub open spec fn optional_line(label: Seq<char>, value: Option<String>) -> Seq<Seq<char>> {
    match value {
        Some(v) => seq![value_line(label, v@)],
        None => Seq::empty(),
    }
}

/// A line of an extreme or the average with its own elapsed time.
pub open spec fn timed_line(label: Seq<char>, value: Seq<char>, secs: u64) -> Seq<char> {
    label + value + "\t"@ + duration_text(secs as nat)
}

/// The lines after the range line, by shape.
pub open spec fn body_lines(m: Measurement) -> Seq<Seq<char>> {
    match m {
        Measurement::Normal(r) => seq![r.main@] + optional_line("AUX1: "@, r.aux1) + optional_line(
            "AUX2: "@,
            r.aux2,
        ) + optional_line("FAST: "@, r.fast),
        Measurement::Relative(r) => seq![
            value_line("REL: "@, r.relative@),
            value_line("REFERENCE: "@, r.reference@),
            value_line("MEASUREMENT: "@, r.measurement@),
        ] + optional_line("FAST: "@, r.fast),
        Measurement::MinMax(r) => seq![
            r.main@,
            timed_line("MAXIMUM: "@, r.max@, r.max_secs),
            timed_line("AVERAGE: "@, r.average@, r.average_secs),
            timed_line("MINIMUM: "@, r.min@, r.min_secs),
        ],
        Measurement::Peak(r) => seq![
            value_line("PEAK MAX: "@, r.max@),
            value_line("PEAK MIN: "@, r.min@),
        ],
    }
}

/// The rendering of a reading: header line, range line and body; or, where the range step
/// is not one that the mode's family declares, that failure and no lines at all.
pub open spec fn rendering(m: Measurement) -> Result<Seq<Seq<char>>, UnusedRangeStep> {
    let h = *m.spec_header();
    match phrase_result(spec_family_of(h.mode), h.range) {
        Ok(p) => Ok(seq![header_line(h), range_line(p@)] + body_lines(m)),
        Err(e) => Err(e),
    }
}

fn push_line(lines: &mut Vec<String>, s: String)
    ensures
        lines_view(final(lines)@) == lines_view(old(lines)@).push(s@),
{
    lines.push(s);
    assert(lines_view(lines@) =~= lines_view(old(lines)@).push(s@));
}

fn labelled(label: &str, value: &String) -> (r: String)
    ensures
        r@ == value_line(label@, value@),
{
    String::from_str(label).concat(value.as_str())
}

fn push_optional(lines: &mut Vec<String>, label: &str, value: &Option<String>)
    ensures
        lines_view(final(lines)@) == lines_view(old(lines)@) + optional_line(label@, *value),
{
    match value {
        Some(v) => {
            push_line(lines, labelled(label, v));
        },
        None => {},
    }
    assert(lines_view(lines@) =~= lines_view(old(lines)@) + optional_line(label@, *value));
}

fn timed(label: &str, value: &String, secs: u64) -> (r: String)
    ensures
        r@ == timed_line(label@, value@, secs),
{
    let d = format_duration(secs);
    String::from_str(label).concat(value.as_str()).concat("\t").concat(d.as_str())
}

fn header_text(h: &Header) -> (r: String)
    ensures
        r@ == header_line(*h),
{
    let hold = if h.hold {
        "HOLD"
    } else {
        ""
    };
    let auto = if h.auto_range {
        "AUTO"
    } else {
        ""
    };
    proof {
        reveal_strlit("");
    }
    String::from_str("Mode: ").concat(h.mode_label.as_str()).concat(" [").concat(hold).concat(
        "] [",
    ).concat(auto).concat("]")
}

/// Renders a reading as lines of text. Fails, before producing any line, when the range
/// step of the reading is not one that its mode's family declares.
pub fn render(m: &Measurement) -> (r: Result<Vec<String>, UnusedRangeStep>)
    ensures
        match rendering(*m) {
            Ok(ls) => r is Ok && lines_view(r->Ok_0@) == ls,
            Err(e) => r == Err::<Vec<String>, UnusedRangeStep>(e),
        },
        r is Err <==> !step_declared(spec_family_of(m.spec_header().mode), m.spec_header().range),
{
    let h = m.header();
    let phrase = match phrase_for(family_of(h.mode), h.range) {
        Ok(p) => p,
        Err(e) => {
            return Err(e);
        },
    };
    let mut lines: Vec<String> = Vec::new();
    push_line(&mut lines, header_text(h));
    push_line(&mut lines, String::from_str("Range: ").concat(phrase));
    let ghost before = lines_view(lines@);
    match m {
        Measurement::Normal(r) => {
            push_line(&mut lines, r.main.clone());
            push_optional(&mut lines, "AUX1: ", &r.aux1);
            push_optional(&mut lines, "AUX2: ", &r.aux2);
            push_optional(&mut lines, "FAST: ", &r.fast);
        },
        Measurement::Relative(r) => {
            push_line(&mut lines, labelled("REL: ", &r.relative));
            push_line(&mut lines, labelled("REFERENCE: ", &r.reference));
            push_line(&mut lines, labelled("MEASUREMENT: ", &r.measurement));
            push_optional(&mut lines, "FAST: ", &r.fast);
        },
        Measurement::MinMax(r) => {
            push_line(&mut lines, r.main.clone());
            push_line(&mut lines, timed("MAXIMUM: ", &r.max, r.max_secs));
            push_line(&mut lines, timed("AVERAGE: ", &r.average, r.average_secs));
            push_line(&mut lines, timed("MINIMUM: ", &r.min, r.min_secs));
        },
        Measurement::Peak(r) => {
            push_line(&mut lines, labelled("PEAK MAX: ", &r.max));
            push_line(&mut lines, labelled("PEAK MIN: ", &r.min));
        },
    }
    assert(lines_view(lines@) =~= before + body_lines(*m));
    Ok(lines)
}

/// A plain reading whose first auxiliary value is absent and whose second is present
/// renders exactly one auxiliary line, the `AUX2` one: after the header and range lines come
/// the main value, that line, and the fast value's line where there is one.
pub proof fn lemma_only_second_aux_line(r: NormalReading)
    requires
        r.aux1 is None,
        r.aux2 is Some,
        step_declared(spec_family_of(r.header.mode), r.header.range),
    ensures
        rendering(Measurement::Normal(r)) == Ok::<Seq<Seq<char>>, UnusedRangeStep>(
            seq![
                header_line(r.header),
                range_line(phrase_result(spec_family_of(r.header.mode), r.header.range)->Ok_0@),
                r.main@,
                value_line("AUX2: "@, r.aux2->Some_0@),
            ] + optional_line("FAST: "@, r.fast),
        ),
{
    let m = Measurement::Normal(r);
    assert(body_lines(m) =~= seq![r.main@, value_line("AUX2: "@, r.aux2->Some_0@)] + optional_line(
        "FAST: "@,
        r.fast,
    ));
    assert(rendering(m)->Ok_0 =~= seq![
        header_line(r.header),
        range_line(phrase_result(spec_family_of(r.header.mode), r.header.range)->Ok_0@),
        r.main@,
        value_line("AUX2: "@, r.aux2->Some_0@),
    ] + optional_line("FAST: "@, r.fast));
}

/// A min/max reading renders six lines: header, range, main value, and then the maximum,
/// the average and the minimum, each on its own line with its own elapsed time as `H:MM:SS`.
pub proof fn lemma_min_max_lines(r: MinMaxReading)
    requires
        step_declared(spec_family_of(r.header.mode), r.header.range),
    ensures
        rendering(Measurement::MinMax(r)) is Ok,
        rendering(Measurement::MinMax(r))->Ok_0.len() == 6,
        rendering(Measurement::MinMax(r))->Ok_0[3] == "MAXIMUM: "@ + r.max@ + "\t"@ + duration_text(
            r.max_secs as nat,
        ),
        rendering(Measurement::MinMax(r))->Ok_0[4] == "AVERAGE: "@ + r.average@ + "\t"@
            + duration_text(r.average_secs as nat),
        rendering(Measurement::MinMax(r))->Ok_0[5] == "MINIMUM: "@ + r.min@ + "\t"@ + duration_text(
            r.min_secs as nat,
        ),
{
}

} // verus!
