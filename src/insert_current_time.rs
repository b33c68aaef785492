use vstd::prelude::*;
use crate::error::{ErrorView, ParseError};
use crate::parameter::ParameterView;
use crate::step::{
    line_view, named_line, render_line, scan_step, step_spec, push_select_if_present, push_target, select_if_present, target_part,
};
use crate::xml::{document, open_reader, EventSource, XmlEvent};

verus! {

/// The parts of an Insert Current Time line: the `Select` label wherever the
/// flag is given, on or off, and the target.
pub open spec fn insert_current_time_parts(ps: Seq<ParameterView>) -> Seq<Seq<char>> {
    select_if_present(ps) + target_part(ps)
}

/// The line of an Insert Current Time step that `events` describe; nothing where the step
/// has no name.
pub open spec fn insert_current_time_line(events: Seq<XmlEvent>) -> Result<Option<Seq<char>>, ErrorView> {
    match step_spec(events) {
        Ok((name, ps)) => Ok(named_line(name, insert_current_time_parts(ps))),
        Err(e) => Err(e),
    }
}

/// The line of an Insert Current Time step read from `reader`, through the end of its events.
pub fn decompile<S: EventSource>(reader: &mut S) -> (r: Result<Option<String>, ParseError>)
    ensures
        line_view(r) == insert_current_time_line(old(reader).pending()),
{
    let (name, pv) = match scan_step(reader) {
        Ok(found) => found,
        Err(e) => return Err(e),
    };
    if name.as_str().is_empty() {
        return Ok(None);
    }
    let mut parts: Vec<String> = Vec::new();
    push_select_if_present(&pv, &mut parts);
    push_target(&pv, &mut parts);
    Ok(Some(render_line(name.as_str(), &parts)))
}

/// The line of an Insert Current Time step given as the XML of its `Step` element.
pub fn sanitize(step: &str) -> (r: Result<Option<String>, ParseError>)
    ensures
        line_view(r) == insert_current_time_line(document(step@)),
{
    let mut reader = open_reader(step);
    decompile(&mut reader)
}

} // verus!
