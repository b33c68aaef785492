use vstd::prelude::*;
use crate::attributes::{attribute_value, get_attribute};
use crate::boolean::{BooleanView, Kind};
use crate::insert_calculated_result::insert_calculated_result_line;
use crate::insert_current_time::insert_current_time_line;
use crate::insert_text::insert_text_line;
use crate::error::{ErrorView, ParseError};
use crate::parameter::ParameterView;
use crate::parameter_values::{
    first_boolean, first_calculation, first_target, first_text, lemma_parameters_consume, parameters_spec, ParameterValues,
};
use crate::target::target_text;
use crate::xml::{document, same_text, EventSource, XmlEvent};

verus! {

/// `parts` written one after another with `sep` between each two.
pub open spec fn join(parts: Seq<Seq<char>>, sep: Seq<char>) -> Seq<char>
    decreases parts.len(),
{
    if parts.len() == 0 {
        Seq::empty()
    } else if parts.len() == 1 {
        parts[0]
    } else {
        join(parts.drop_last(), sep) + sep + parts.last()
    }
}

/// The line shown for a step named `name` with the given parts:
/// `name []` without parts, else `name [ part ; part ; ... ]`.
pub open spec fn step_line(name: Seq<char>, parts: Seq<Seq<char>>) -> Seq<char> {
    if parts.len() == 0 {
        name + " []"@
    } else {
        name + " [ "@ + join(parts, " ; "@) + " ]"@
    }
}

pub open spec fn views(v: Seq<String>) -> Seq<Seq<char>> {
    v.map_values(|s: String| s@)
}

/// The name that a `Step` tag gives, or the empty text.
pub open spec fn step_name(attributes: Seq<(String, String)>) -> Seq<char> {
    match attribute_value(attributes, "name"@) {
        Some(n) => n,
        None => Seq::empty(),
    }
}

/// Reading a whole step: the name of the last `Step` tag and the last
/// parameter list, given what was read so far. Malformed input between
/// elements is passed over; a parameter list that fails to read fails the step.
pub open spec fn step_scan(events: Seq<XmlEvent>, name: Seq<char>, params: Seq<ParameterView>) -> Result<
    (Seq<char>, Seq<ParameterView>),
    ErrorView,
>
    decreases events.len(),
{
    if events.len() == 0 {
        Ok((name, params))
    } else {
        let rest = events.drop_first();
        match events[0] {
            XmlEvent::Start(tag) => if tag.name@ == "Step"@ {
                step_scan(rest, step_name(tag.attributes@), params)
            } else if tag.name@ == "ParameterValues"@ {
                let (r, after) = parameters_spec(rest);
                match r {
                    Ok(ps) => if after.len() <= rest.len() {
                        step_scan(after, name, ps)
                    } else {
                        Err(ErrorView::MalformedXml)
                    },
                    Err(e) => Err(e),
                }
            } else {
                step_scan(rest, name, params)
            },
            XmlEvent::Empty(tag) => if tag.name@ == "Step"@ {
                step_scan(rest, step_name(tag.attributes@), params)
            } else if tag.name@ == "ParameterValues"@ {
                step_scan(rest, name, Seq::empty())
            } else {
                step_scan(rest, name, params)
            },
            XmlEvent::Eof => Ok((name, params)),
            _ => step_scan(rest, name, params),
        }
    }
}

/// The name and parameters of the step that `events` describe.
pub open spec fn step_spec(events: Seq<XmlEvent>) -> Result<(Seq<char>, Seq<ParameterView>), ErrorView> {
    step_scan(events, Seq::empty(), Seq::empty())
}

/// The line of a step named `name` with the given parts; nothing where the
/// step has no name.
pub open spec fn named_line(name: Seq<char>, parts: Seq<Seq<char>>) -> Option<Seq<char>> {
    if name.len() == 0 {
        None
    } else {
        Some(step_line(name, parts))
    }
}

/// A step's line, with its value and its error as views.
pub open spec fn line_view(r: Result<Option<String>, ParseError>) -> Result<Option<Seq<char>>, ErrorView> {
    match r {
        Ok(Some(l)) => Ok(Some(l@)),
        Ok(None) => Ok(None),
        Err(e) => Err(e@),
    }
}

/// The label of the first `Select` flag, where there is one and it is on.
pub open spec fn select_if_true(ps: Seq<ParameterView>) -> Seq<Seq<char>> {
    match first_boolean(ps, Kind::Select) {
        Some(b) => if b.value {
            seq![b.label]
        } else {
            Seq::empty()
        },
        None => Seq::empty(),
    }
}

/// The label of the first `Select` flag, where there is one, on or off.
pub open spec fn select_if_present(ps: Seq<ParameterView>) -> Seq<Seq<char>> {
    match first_boolean(ps, Kind::Select) {
        Some(b) => seq![b.label],
        None => Seq::empty(),
    }
}

/// `Target: ` and the first target, where there is one.
pub open spec fn target_part(ps: Seq<ParameterView>) -> Seq<Seq<char>> {
    match first_target(ps) {
        Some(t) => seq!["Target: "@ + target_text(t)],
        None => Seq::empty(),
    }
}

/// The first literal text in curly quotes, where there is one and it is not empty.
pub open spec fn quoted_text_part(ps: Seq<ParameterView>) -> Seq<Seq<char>> {
    match first_text(ps) {
        Some(t) => if t.len() > 0 {
            seq!["\u{201c}"@ + t + "\u{201d}"@]
        } else {
            Seq::empty()
        },
        None => Seq::empty(),
    }
}

/// The first calculation as it stands, where there is one and it is not empty.
pub open spec fn calculation_part(ps: Seq<ParameterView>) -> Seq<Seq<char>> {
    match first_calculation(ps) {
        Some(c) => if c.len() > 0 {
            seq![c]
        } else {
            Seq::empty()
        },
        None => Seq::empty(),
    }
}

/// A `Select` flag that is off adds nothing to a line that shows the flag only
/// when it is on; one that is on adds its label.
pub proof fn lemma_select_label_if_true(ps: Seq<ParameterView>, b: BooleanView)
    requires
        first_boolean(ps, Kind::Select) == Some(b),
    ensures
        !b.value ==> select_if_true(ps) == Seq::<Seq<char>>::empty(),
        b.value ==> select_if_true(ps) == seq![b.label],
{
}

/// On a step with a name and a `Select` flag, the Insert Text and Insert
/// Calculated Result lines show the flag's own label, first, exactly when the
/// flag is on, and nothing for it when it is off; the Insert Current Time line
/// shows the label either way.
pub proof fn lemma_select_in_lines(events: Seq<XmlEvent>, name: Seq<char>, ps: Seq<ParameterView>, b: BooleanView)
    requires
        step_spec(events) == Ok::<(Seq<char>, Seq<ParameterView>), ErrorView>((name, ps)),
        name.len() > 0,
        first_boolean(ps, Kind::Select) == Some(b),
    ensures
        b.value ==> insert_text_line(events) == Ok::<Option<Seq<char>>, ErrorView>(
            Some(step_line(name, seq![b.label] + target_part(ps) + quoted_text_part(ps))),
        ),
        !b.value ==> insert_text_line(events) == Ok::<Option<Seq<char>>, ErrorView>(
            Some(step_line(name, target_part(ps) + quoted_text_part(ps))),
        ),
        b.value ==> insert_calculated_result_line(events) == Ok::<Option<Seq<char>>, ErrorView>(
            Some(step_line(name, seq![b.label] + target_part(ps) + calculation_part(ps))),
        ),
        !b.value ==> insert_calculated_result_line(events) == Ok::<Option<Seq<char>>, ErrorView>(
            Some(step_line(name, target_part(ps) + calculation_part(ps))),
        ),
        insert_current_time_line(events) == Ok::<Option<Seq<char>>, ErrorView>(
            Some(step_line(name, seq![b.label] + target_part(ps))),
        ),
{
    assert(Seq::<Seq<char>>::empty() + target_part(ps) =~= target_part(ps));
}

/// The line of a step depends on its XML text alone: the same fragment gives
/// the same line, or the same error, each time.
pub proof fn lemma_same_fragment_same_line(a: Seq<char>, b: Seq<char>)
    requires
        a == b,
    ensures
        insert_text_line(document(a)) == insert_text_line(document(b)),
        insert_calculated_result_line(document(a)) == insert_calculated_result_line(document(b)),
        insert_current_time_line(document(a)) == insert_current_time_line(document(b)),
{
}

/// Writes the line of a step named `name` with the given parts.
pub fn render_line(name: &str, parts: &Vec<String>) -> (r: String)
    ensures
        r@ == step_line(name@, views(parts@)),
{
    let mut line = name.to_owned();
    if parts.len() == 0 {
        line.append(" []");
        return line;
    }
    let mut joined = String::new();
    let mut i: usize = 0;
    while i < parts.len()
        invariant
            i <= parts@.len(),
            joined@ == join(views(parts@).take(i as int), " ; "@),
        decreases parts.len() - i,
    {
        let ghost done = views(parts@).take(i as int);
        assert(views(parts@).take(i + 1).drop_last() =~= done);
        if i > 0 {
            joined.append(" ; ");
        } else {
            assert(joined@ =~= Seq::<char>::empty());
        }
        joined.append(parts[i].as_str());
        i = i + 1;
    }
    assert(views(parts@).take(parts@.len() as int) =~= views(parts@));
    line.append(" [ ");
    line.append(joined.as_str());
    line.append(" ]");
    line
}

/// Reads a whole step: the name of its `Step` tag (empty where there is none)
/// and its parameter list (empty where there is none).
pub fn scan_step<S: EventSource>(reader: &mut S) -> (r: Result<(String, ParameterValues), ParseError>)
    ensures
        match (r, step_spec(old(reader).pending())) {
            (Ok((name, pv)), Ok((n, ps))) => name@ == n && pv@ == ps,
            (Err(e), Err(f)) => e@ == f,
            _ => false,
        },
{
    let ghost start = reader.pending();
    let mut name = String::new();
    let mut params = ParameterValues::new();
    loop
        invariant
            start == old(reader).pending(),
            step_scan(reader.pending(), name@, params@) == step_spec(start),
        decreases reader.pending().len(),
    {
        let ghost before = reader.pending();
        let event = reader.next_event();
        proof {
            if before.len() > 0 {
                assert(event == before[0]);
                assert(reader.pending() == before.drop_first());
            }
        }
        match event {
            XmlEvent::Start(tag) => {
                if same_text(tag.name.as_str(), "Step") {
                    name = match get_attribute(&tag, "name") {
                        Some(n) => n,
                        None => String::new(),
                    };
                } else if same_text(tag.name.as_str(), "ParameterValues") {
                    proof {
                        lemma_parameters_consume(reader.pending(), Seq::empty());
                    }
                    params = match ParameterValues::from_xml(reader) {
                        Ok(pv) => pv,
                        Err(e) => return Err(e),
                    };
                }
            },
            XmlEvent::Empty(tag) => {
                if same_text(tag.name.as_str(), "Step") {
                    name = match get_attribute(&tag, "name") {
                        Some(n) => n,
                        None => String::new(),
                    };
                } else if same_text(tag.name.as_str(), "ParameterValues") {
                    params = ParameterValues::new();
                }
            },
            XmlEvent::Eof => return Ok((name, params)),
            _ => {},
        }
    }
}

/// Adds the label of the first `Select` flag where it is on.
pub fn push_select_if_true(pv: &ParameterValues, parts: &mut Vec<String>)
    ensures
        views(final(parts)@) == views(old(parts)@) + select_if_true(pv@),
{
    match pv.get_boolean(Kind::Select) {
        Some(b) => if b.value {
            parts.push(b.label);
        },
        None => {},
    }
    assert(views(parts@) =~= views(old(parts)@) + select_if_true(pv@));
}

/// Adds the label of the first `Select` flag where there is one, on or off.
pub fn push_select_if_present(pv: &ParameterValues, parts: &mut Vec<String>)
    ensures
        views(final(parts)@) == views(old(parts)@) + select_if_present(pv@),
{
    match pv.get_boolean(Kind::Select) {
        Some(b) => parts.push(b.label),
        None => {},
    }
    assert(views(parts@) =~= views(old(parts)@) + select_if_present(pv@));
}

/// Adds `Target: ` and the first target, where there is one.
pub fn push_target(pv: &ParameterValues, parts: &mut Vec<String>)
    ensures
        views(final(parts)@) == views(old(parts)@) + target_part(pv@),
{
    match pv.get_target() {
        Some(t) => {
            let mut part = "Target: ".to_owned();
            let text = t.to_string();
            part.append(text.as_str());
            parts.push(part);
        },
        None => {},
    }
    assert(views(parts@) =~= views(old(parts)@) + target_part(pv@));
}

/// Adds the first literal text in curly quotes, where it is there and not empty.
pub fn push_quoted_text(pv: &ParameterValues, parts: &mut Vec<String>)
    ensures
        views(final(parts)@) == views(old(parts)@) + quoted_text_part(pv@),
{
    match pv.get_text() {
        Some(t) => if !t.as_str().is_empty() {
            let mut part = "\u{201c}".to_owned();
            part.append(t.as_str());
            part.append("\u{201d}");
            parts.push(part);
        },
        None => {},
    }
    assert(views(parts@) =~= views(old(parts)@) + quoted_text_part(pv@));
}

/// Adds the first calculation as it stands, where it is there and not empty.
pub fn push_calculation(pv: &ParameterValues, parts: &mut Vec<String>)
    ensures
        views(final(parts)@) == views(old(parts)@) + calculation_part(pv@),
{
    match pv.get_calculation() {
        Some(c) => if !c.as_str().is_empty() {
            parts.push(c);
        },
        None => {},
    }
    assert(views(parts@) =~= views(old(parts)@) + calculation_part(pv@));
}

} // verus!
