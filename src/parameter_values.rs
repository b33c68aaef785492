use vstd::prelude::*;
use crate::boolean::{Boolean, BooleanView, Kind};
use crate::error::{ErrorView, ParseError};
use crate::parameter::{lemma_parameter_consumes, parameter_spec, Parameter, ParameterView};
use crate::target::{Target, TargetView};
use crate::xml::{same_text, EventSource, XmlEvent};

verus! {

/// The parameters of one step, in document order. Several of one kind may
/// occur; the lookups give the first.
pub struct ParameterValues {
    pub parameters: Vec<Parameter>,
}

impl View for ParameterValues {
    type V = Seq<ParameterView>;

    open spec fn view(&self) -> Seq<ParameterView> {
        self.parameters@.map_values(|p: Parameter| p@)
    }
}

/// Reading the parameters up to `</ParameterValues>`, with those read so far.
/// A parameter that fails to read, or malformed input, fails the whole list.
pub open spec fn parameters_scan(events: Seq<XmlEvent>, found: Seq<ParameterView>) -> (
    Result<Seq<ParameterView>, ErrorView>,
    Seq<XmlEvent>,
)
    decreases events.len(),
{
    if events.len() == 0 {
        (Err(ErrorView::UnexpectedEof), events)
    } else {
        let rest = events.drop_first();
        match events[0] {
            XmlEvent::Start(tag) => if tag.name@ == "Parameter"@ {
                let (r, after) = parameter_spec(tag, rest);
                match r {
                    Ok(p) => if after.len() <= rest.len() {
                        parameters_scan(after, found.push(p))
                    } else {
                        (Err(ErrorView::MalformedXml), after)
                    },
                    Err(e) => (Err(e), after),
                }
            } else {
                parameters_scan(rest, found)
            },
            XmlEvent::End(name) => if name@ == "ParameterValues"@ {
                (Ok(found), rest)
            } else {
                parameters_scan(rest, found)
            },
            XmlEvent::Invalid => (Err(ErrorView::MalformedXml), rest),
            XmlEvent::Eof => (Err(ErrorView::UnexpectedEof), rest),
            _ => parameters_scan(rest, found),
        }
    }
}

/// The parameter list read from just after `<ParameterValues>`, and the
/// events left after its closing tag.
pub open spec fn parameters_spec(events: Seq<XmlEvent>) -> (Result<Seq<ParameterView>, ErrorView>, Seq<XmlEvent>) {
    parameters_scan(events, Seq::empty())
}

/// Reading a parameter list leaves a suffix of the events it started from.
pub proof fn lemma_parameters_consume(events: Seq<XmlEvent>, found: Seq<ParameterView>)
    ensures
        parameters_scan(events, found).1.len() <= events.len(),
    decreases events.len(),
{
    if events.len() > 0 {
        let rest = events.drop_first();
        match events[0] {
            XmlEvent::Start(tag) => {
                lemma_parameter_consumes(tag, rest);
                let (r, after) = parameter_spec(tag, rest);
                match r {
                    Ok(p) => lemma_parameters_consume(after, found.push(p)),
                    Err(_) => {},
                }
                lemma_parameters_consume(rest, found);
            },
            _ => lemma_parameters_consume(rest, found),
        }
    }
}

/// The first literal text among `ps`.
pub open spec fn first_text(ps: Seq<ParameterView>) -> Option<Seq<char>>
    decreases ps.len(),
{
    if ps.len() == 0 {
        None
    } else {
        match ps[0] {
            ParameterView::Text(t) => Some(t),
            _ => first_text(ps.drop_first()),
        }
    }
}

/// The first target among `ps`.
pub open spec fn first_target(ps: Seq<ParameterView>) -> Option<TargetView>
    decreases ps.len(),
{
    if ps.len() == 0 {
        None
    } else {
        match ps[0] {
            ParameterView::Target(t) => Some(t),
            _ => first_target(ps.drop_first()),
        }
    }
}

/// The first calculation among `ps`.
pub open spec fn first_calculation(ps: Seq<ParameterView>) -> Option<Seq<char>>
    decreases ps.len(),
{
    if ps.len() == 0 {
        None
    } else {
        match ps[0] {
            ParameterView::Calculation(c) => Some(c),
            _ => first_calculation(ps.drop_first()),
        }
    }
}

/// The first flag of switch `kind` among `ps`.
pub open spec fn first_boolean(ps: Seq<ParameterView>, kind: Kind) -> Option<BooleanView>
    decreases ps.len(),
{
    if ps.len() == 0 {
        None
    } else {
        match ps[0] {
            ParameterView::Boolean(b) => if b.kind == kind {
                Some(b)
            } else {
                first_boolean(ps.drop_first(), kind)
            },
            _ => first_boolean(ps.drop_first(), kind),
        }
    }
}

pub open spec fn option_target(t: Option<Target>) -> Option<TargetView> {
    match t {
        Some(t) => Some(t@),
        None => None,
    }
}

impl ParameterValues {
    pub fn new() -> (r: ParameterValues)
        ensures
            r@ == Seq::<ParameterView>::empty(),
    {
        ParameterValues { parameters: Vec::new() }
    }

    pub fn add_parameter(&mut self, parameter: Parameter)
        ensures
            final(self)@ == old(self)@.push(parameter@),
    {
        self.parameters.push(parameter);
        assert(self@ =~= old(self)@.push(parameter@));
    }

    /// Reads a parameter list from just after `<ParameterValues>` through its
    /// closing tag.
    pub fn from_xml<S: EventSource>(reader: &mut S) -> (r: Result<ParameterValues, ParseError>)
        ensures
            match (r, parameters_spec(old(reader).pending()).0) {
                (Ok(pv), Ok(ps)) => pv@ == ps,
                (Err(e), Err(f)) => e@ == f,
                _ => false,
            },
            final(reader).pending() == parameters_spec(old(reader).pending()).1,
    {
        let ghost start = reader.pending();
        let mut res = ParameterValues::new();
        loop
            invariant
                start == old(reader).pending(),
                parameters_scan(reader.pending(), res@) == parameters_spec(start),
            decreases reader.pending().len(),
        {
            let ghost before = reader.pending();
            let event = reader.next_event();
            proof {
                if before.len() > 0 {
                    assert(event == before[0]);
                    assert(reader.pending() == before.drop_first());
                }
            }
            match event {
                XmlEvent::Start(tag) => {
                    if same_text(tag.name.as_str(), "Parameter") {
                        proof {
                            lemma_parameter_consumes(tag, reader.pending());
                        }
                        match Parameter::from_xml(reader, &tag) {
                            Ok(p) => res.add_parameter(p),
                            Err(e) => return Err(e),
                        }
                    }
                },
                XmlEvent::End(name) => {
                    if same_text(name.as_str(), "ParameterValues") {
                        return Ok(res);
                    }
                },
                XmlEvent::Invalid => return Err(ParseError::MalformedXml),
                XmlEvent::Eof => return Err(ParseError::UnexpectedEof),
                _ => {},
            }
        }
    }

    /// The first literal text parameter.
    pub fn get_text(&self) -> (r: Option<String>)
        ensures
            crate::attributes::option_string(r) == first_text(self@),
    {
        let mut i: usize = 0;
        assert(self@.skip(0) =~= self@);
        while i < self.parameters.len()
            invariant
                i <= self@.len(),
                first_text(self@.skip(i as int)) == first_text(self@),
            decreases self.parameters.len() - i,
        {
            assert(self@.skip(i as int).drop_first() =~= self@.skip(i + 1));
            assert(self@.skip(i as int)[0] == self.parameters@[i as int]@);
            if let Parameter::Text(text) = &self.parameters[i] {
                return Some(text.clone());
            }
            i = i + 1;
        }
        None
    }

    /// The first target parameter.
    pub fn get_target(&self) -> (r: Option<Target>)
        ensures
            option_target(r) == first_target(self@),
    {
        let mut i: usize = 0;
        assert(self@.skip(0) =~= self@);
        while i < self.parameters.len()
            invariant
                i <= self@.len(),
                first_target(self@.skip(i as int)) == first_target(self@),
            decreases self.parameters.len() - i,
        {
            assert(self@.skip(i as int).drop_first() =~= self@.skip(i + 1));
            assert(self@.skip(i as int)[0] == self.parameters@[i as int]@);
            if let Parameter::Target(target) = &self.parameters[i] {
                return Some(target.clone());
            }
            i = i + 1;
        }
        None
    }

    /// The first calculation parameter.
    pub fn get_calculation(&self) -> (r: Option<String>)
        ensures
            crate::attributes::option_string(r) == first_calculation(self@),
    {
        let mut i: usize = 0;
        assert(self@.skip(0) =~= self@);
        while i < self.parameters.len()
            invariant
                i <= self@.len(),
                first_calculation(self@.skip(i as int)) == first_calculation(self@),
            decreases self.parameters.len() - i,
        {
            assert(self@.skip(i as int).drop_first() =~= self@.skip(i + 1));
            assert(self@.skip(i as int)[0] == self.parameters@[i as int]@);
            if let Parameter::Calculation(calculation) = &self.parameters[i] {
                return Some(calculation.clone());
            }
            i = i + 1;
        }
        None
    }

    /// The first flag parameter of switch `kind`.
    pub fn get_boolean(&self, kind: Kind) -> (r: Option<Boolean>)
        ensures
            crate::boolean::option_boolean(r) == first_boolean(self@, kind),
    {
        let mut i: usize = 0;
        assert(self@.skip(0) =~= self@);
        while i < self.parameters.len()
            invariant
                i <= self@.len(),
                first_boolean(self@.skip(i as int), kind) == first_boolean(self@, kind),
            decreases self.parameters.len() - i,
        {
            assert(self@.skip(i as int).drop_first() =~= self@.skip(i + 1));
            assert(self@.skip(i as int)[0] == self.parameters@[i as int]@);
            if let Parameter::Boolean(boolean) = &self.parameters[i] {
                if boolean.kind == kind {
                    return Some(boolean.clone());
                }
            }
            i = i + 1;
        }
        None
    }
}

} // verus!
