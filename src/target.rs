use vstd::prelude::*;
use crate::attributes::{attribute_value, get_attribute, option_string, required_attribute, try_get_attribute};
use crate::calculation::{calculation_spec, calculation_text};
use crate::error::{result_view, ErrorView, ParseError};
use crate::xml::{same_text, EventSource, StartTag, XmlEvent};

verus! {

/// What a step writes to: a field of a table occurrence, or a variable; either
/// at a repetition, which is display text (a number or a calculation).
#[derive(Debug, PartialEq, Eq)]
pub enum Target {
    FieldReference(FieldReference),
    Variable(Variable),
}

#[derive(Debug, PartialEq, Eq)]
pub struct FieldReference {
    pub name: String,
    pub table_occurrence_reference: TableOccurrenceReference,
    /// Held as text: it is either a number or the source of a calculation.
    pub repetition: String,
}

#[derive(Debug, PartialEq, Eq)]
pub struct Variable {
    pub name: String,
    pub repetition: String,
}

#[derive(Debug, PartialEq, Eq)]
pub struct TableOccurrenceReference {
    pub name: String,
}

impl Clone for Target {
    fn clone(&self) -> (r: Target)
        ensures
            r == *self,
    {
        match self {
            Target::FieldReference(f) => Target::FieldReference(FieldReference {
                name: f.name.clone(),
                table_occurrence_reference: TableOccurrenceReference {
                    name: f.table_occurrence_reference.name.clone(),
                },
                repetition: f.repetition.clone(),
            }),
            Target::Variable(v) => Target::Variable(Variable { name: v.name.clone(), repetition: v.repetition.clone() }),
        }
    }
}

pub enum TargetView {
    Field { table: Seq<char>, name: Seq<char>, repetition: Seq<char> },
    Variable { name: Seq<char>, repetition: Seq<char> },
}

impl View for Target {
    type V = TargetView;

    open spec fn view(&self) -> TargetView {
        match self {
            Target::FieldReference(f) => TargetView::Field {
                table: f.table_occurrence_reference.name@,
                name: f.name@,
                repetition: f.repetition@,
            },
            Target::Variable(v) => TargetView::Variable { name: v.name@, repetition: v.repetition@ },
        }
    }
}

/// Whether a repetition is shown: the empty text and `1` both mean the
/// default repetition, which is not.
pub open spec fn shows_repetition(repetition: Seq<char>) -> bool {
    repetition.len() > 0 && repetition != "1"@
}

/// `base`, followed by the repetition in brackets where it is shown.
pub open spec fn with_repetition(base: Seq<char>, repetition: Seq<char>) -> Seq<char> {
    if shows_repetition(repetition) {
        base + "["@ + repetition + "]"@
    } else {
        base
    }
}

/// How a target is written: `table::field` or `name`, with `[repetition]`
/// where the repetition is shown.
pub open spec fn target_text(t: TargetView) -> Seq<char> {
    match t {
        TargetView::Field { table, name, repetition } => with_repetition(table + "::"@ + name, repetition),
        TargetView::Variable { name, repetition } => with_repetition(name, repetition),
    }
}

/// How a target is written without its repetition.
pub open spec fn base_text(t: TargetView) -> Seq<char> {
    match t {
        TargetView::Field { table, name, repetition } => table + "::"@ + name,
        TargetView::Variable { name, repetition } => name,
    }
}

pub open spec fn repetition_of(t: TargetView) -> Seq<char> {
    match t {
        TargetView::Field { table, name, repetition } => repetition,
        TargetView::Variable { name, repetition } => repetition,
    }
}

/// A target whose repetition is empty or `1` is written without brackets;
/// any other repetition is written after it in brackets, as it stands.
pub proof fn lemma_repetition_suppressed(t: TargetView)
    ensures
        repetition_of(t) == Seq::<char>::empty() || repetition_of(t) == "1"@ ==> target_text(t) == base_text(t),
        repetition_of(t) != Seq::<char>::empty() && repetition_of(t) != "1"@ ==> target_text(t) == base_text(t)
            + "["@ + repetition_of(t) + "]"@,
{
    if repetition_of(t).len() == 0 {
        assert(repetition_of(t) =~= Seq::<char>::empty());
    }
}

/// The target that the pieces gathered from a `Target` parameter make: a field
/// where the last of its `FieldReference` and `Variable` elements was a field
/// reference, with the table occurrence named (the empty text where none is);
/// else a variable, for which a table occurrence means nothing.
pub open spec fn assemble(field: bool, name: Seq<char>, repetition: Seq<char>, table: Option<Seq<char>>) -> TargetView {
    if field {
        TargetView::Field {
            table: match table {
                Some(t) => t,
                None => Seq::empty(),
            },
            name,
            repetition,
        }
    } else {
        TargetView::Variable { name, repetition }
    }
}

/// Reading a target up to the closing `</Parameter>`, with what was gathered
/// so far: whether the element named was a field reference, its name, the
/// repetition and the table occurrence. Malformed input fails the reading.
pub open spec fn target_scan(
    events: Seq<XmlEvent>,
    field: bool,
    name: Seq<char>,
    repetition: Seq<char>,
    table: Option<Seq<char>>,
) -> (Result<TargetView, ErrorView>, Seq<XmlEvent>)
    decreases events.len(),
{
    if events.len() == 0 {
        (Err(ErrorView::UnexpectedEof), events)
    } else {
        let rest = events.drop_first();
        match events[0] {
            XmlEvent::Start(tag) => target_tag(tag, true, rest, field, name, repetition, table),
            XmlEvent::Empty(tag) => target_tag(tag, false, rest, field, name, repetition, table),
            XmlEvent::End(n) => if n@ == "Parameter"@ {
                (Ok(assemble(field, name, repetition, table)), rest)
            } else {
                target_scan(rest, field, name, repetition, table)
            },
            XmlEvent::Invalid => (Err(ErrorView::MalformedXml), rest),
            XmlEvent::Eof => (Err(ErrorView::UnexpectedEof), rest),
            _ => target_scan(rest, field, name, repetition, table),
        }
    }
}

/// One step of `target_scan` on a tag; `open` tells `<tag>` from `<tag/>`.
pub open spec fn target_tag(
    tag: StartTag,
    open: bool,
    rest: Seq<XmlEvent>,
    field: bool,
    name: Seq<char>,
    repetition: Seq<char>,
    table: Option<Seq<char>>,
) -> (Result<TargetView, ErrorView>, Seq<XmlEvent>)
    decreases rest.len() + 1, 0nat,
{
    if tag.name@ == "FieldReference"@ {
        match required_attribute(tag, "name"@) {
            Ok(n) => target_scan(rest, true, n, repetition, table),
            Err(e) => (Err(e), rest),
        }
    } else if tag.name@ == "Variable"@ {
        match required_attribute(tag, "value"@) {
            Ok(n) => target_scan(rest, false, n, repetition, table),
            Err(e) => (Err(e), rest),
        }
    } else if tag.name@ == "TableOccurrenceReference"@ {
        match required_attribute(tag, "name"@) {
            Ok(t) => target_scan(rest, field, name, repetition, Some(t)),
            Err(e) => (Err(e), rest),
        }
    } else if tag.name@ == "repetition"@ {
        if open {
            let (r, after) = repetition_spec(tag, rest);
            match r {
                Ok(r) => if after.len() <= rest.len() {
                    target_scan(after, field, name, r, table)
                } else {
                    (Err(ErrorView::MalformedXml), after)
                },
                Err(e) => (Err(e), after),
            }
        } else {
            match attribute_value(tag.attributes@, "value"@) {
                Some(r) => target_scan(rest, field, name, r, table),
                None => target_scan(rest, field, name, repetition, table),
            }
        }
    } else {
        target_scan(rest, field, name, repetition, table)
    }
}

/// The repetition that an opening `<repetition>` tag gives: its `value`
/// attribute, or else the calculation it holds, read through its closing tag.
pub open spec fn repetition_spec(tag: StartTag, events: Seq<XmlEvent>) -> (Result<Seq<char>, ErrorView>, Seq<XmlEvent>) {
    match attribute_value(tag.attributes@, "value"@) {
        Some(r) => (Ok(r), events),
        None => calculation_spec(events, tag.name@),
    }
}

/// A target read from the events after the opening `<Parameter>` tag, and the
/// events left after its `</Parameter>`.
pub open spec fn target_spec(events: Seq<XmlEvent>) -> (Result<TargetView, ErrorView>, Seq<XmlEvent>) {
    target_scan(events, false, Seq::empty(), Seq::empty(), None)
}

/// Reading a target leaves a suffix of the events it started from.
pub proof fn lemma_target_consumes(
    events: Seq<XmlEvent>,
    field: bool,
    name: Seq<char>,
    repetition: Seq<char>,
    table: Option<Seq<char>>,
)
    ensures
        target_scan(events, field, name, repetition, table).1.len() <= events.len(),
    decreases events.len(), 1nat,
{
    if events.len() > 0 {
        let rest = events.drop_first();
        match events[0] {
            XmlEvent::Start(tag) => lemma_target_tag_consumes(tag, true, rest, field, name, repetition, table),
            XmlEvent::Empty(tag) => lemma_target_tag_consumes(tag, false, rest, field, name, repetition, table),
            _ => lemma_target_consumes(rest, field, name, repetition, table),
        }
    }
}

pub proof fn lemma_target_tag_consumes(
    tag: StartTag,
    open: bool,
    rest: Seq<XmlEvent>,
    field: bool,
    name: Seq<char>,
    repetition: Seq<char>,
    table: Option<Seq<char>>,
)
    ensures
        target_tag(tag, open, rest, field, name, repetition, table).1.len() <= rest.len(),
    decreases rest.len(), 2nat,
{
    lemma_target_consumes(rest, field, name, repetition, table);
    match required_attribute(tag, "name"@) {
        Ok(n) => {
            lemma_target_consumes(rest, true, n, repetition, table);
            lemma_target_consumes(rest, field, name, repetition, Some(n));
        },
        Err(_) => {},
    }
    match required_attribute(tag, "value"@) {
        Ok(n) => lemma_target_consumes(rest, false, n, repetition, table),
        Err(_) => {},
    }
    match attribute_value(tag.attributes@, "value"@) {
        Some(r) => lemma_target_consumes(rest, field, name, r, table),
        None => {
            crate::calculation::lemma_calculation_consumes(rest, tag.name@, false, Seq::empty());
            let (c, after) = calculation_spec(rest, tag.name@);
            match c {
                Ok(r) => lemma_target_consumes(after, field, name, r, table),
                Err(_) => {},
            }
        },
    }
}

/// The repetition of a `Target` parameter, from its opening `<repetition>`
/// tag: the `value` attribute, or else the calculation the element holds.
pub fn get_repetition<S: EventSource>(reader: &mut S, tag: &StartTag) -> (r: Result<String, ParseError>)
    ensures
        result_view(r) == repetition_spec(*tag, old(reader).pending()).0,
        final(reader).pending() == repetition_spec(*tag, old(reader).pending()).1,
{
    match get_attribute(tag, "value") {
        Some(r) => Ok(r),
        None => calculation_text(reader, tag.name.as_str()),
    }
}

impl Target {
    /// Reads a target from just after the opening `<Parameter>` tag through
    /// its `</Parameter>`. The target is a field or a variable as its
    /// `FieldReference` or `Variable` element says.
    pub fn from_xml<S: EventSource>(reader: &mut S) -> (r: Result<Target, ParseError>)
        ensures
            result_view(r) == target_spec(old(reader).pending()).0,
            final(reader).pending() == target_spec(old(reader).pending()).1,
    {
        let ghost start = reader.pending();
        let mut name = String::new();
        let mut repetition = String::new();
        let mut table: Option<String> = None;
        let mut field = false;
        loop
            invariant
                start == old(reader).pending(),
                target_scan(reader.pending(), field, name@, repetition@, option_string(table)) == target_spec(start),
            decreases reader.pending().len(),
        {
            let ghost before = reader.pending();
            let event = reader.next_event();
            proof {
                if before.len() > 0 {
                    assert(event == before[0]);
                    assert(reader.pending() == before.drop_first());
                }
            }
            let (tag, open) = match event {
                XmlEvent::Start(tag) => (tag, true),
                XmlEvent::Empty(tag) => (tag, false),
                XmlEvent::End(n) => {
                    if same_text(n.as_str(), "Parameter") {
                        return Ok(Target::assemble(field, name, repetition, table));
                    }
                    continue;
                },
                XmlEvent::Invalid => return Err(ParseError::MalformedXml),
                XmlEvent::Eof => return Err(ParseError::UnexpectedEof),
                _ => continue,
            };
            assert(target_scan(before, field, name@, repetition@, option_string(table)) == target_tag(
                tag,
                open,
                reader.pending(),
                field,
                name@,
                repetition@,
                option_string(table),
            ));
            if same_text(tag.name.as_str(), "FieldReference") {
                name = match try_get_attribute(&tag, "name") {
                    Ok(n) => n,
                    Err(e) => return Err(e),
                };
                field = true;
            } else if same_text(tag.name.as_str(), "Variable") {
                name = match try_get_attribute(&tag, "value") {
                    Ok(n) => n,
                    Err(e) => return Err(e),
                };
                field = false;
            } else if same_text(tag.name.as_str(), "TableOccurrenceReference") {
                table = match try_get_attribute(&tag, "name") {
                    Ok(t) => Some(t),
                    Err(e) => return Err(e),
                };
            } else if same_text(tag.name.as_str(), "repetition") {
                if open {
                    let ghost rest = reader.pending();
                    proof {
                        match attribute_value(tag.attributes@, "value"@) {
                            Some(_) => {},
                            None => crate::calculation::lemma_calculation_consumes(rest, tag.name@, false, Seq::empty()),
                        }
                    }
                    repetition = match get_repetition(reader, &tag) {
                        Ok(r) => r,
                        Err(e) => return Err(e),
                    };
                } else {
                    match get_attribute(&tag, "value") {
                        Some(r) => repetition = r,
                        None => {},
                    }
                }
            }
        }
    }

    /// A field of the table occurrence given (none: the empty name), or a variable.
    fn assemble(field: bool, name: String, repetition: String, table: Option<String>) -> (r: Target)
        ensures
            r@ == assemble(field, name@, repetition@, option_string(table)),
    {
        if field {
            let table = match table {
                Some(t) => t,
                None => String::new(),
            };
            Target::FieldReference(FieldReference {
                name,
                table_occurrence_reference: TableOccurrenceReference { name: table },
                repetition,
            })
        } else {
            Target::Variable(Variable { name, repetition })
        }
    }

    /// A variable at the default repetition.
    pub fn new_variable(name: String) -> (r: Target)
        ensures
            r@ == (TargetView::Variable { name: name@, repetition: Seq::empty() }),
    {
        Target::Variable(Variable { name, repetition: String::new() })
    }

    /// Sets the repetition, of a field or of a variable.
    pub fn set_repetition(&mut self, rep: &str)
        ensures
            final(self)@ == match old(self)@ {
                TargetView::Field { table, name, repetition } => TargetView::Field { table, name, repetition: rep@ },
                TargetView::Variable { name, repetition } => TargetView::Variable { name, repetition: rep@ },
            },
    {
        match self {
            Target::FieldReference(f) => f.repetition = rep.to_owned(),
            Target::Variable(v) => v.repetition = rep.to_owned(),
        }
    }

    /// Sets the table occurrence of a field; a variable has none and stays as it is.
    pub fn set_table_occurrence(&mut self, table_occurrence: String)
        ensures
            final(self)@ == match old(self)@ {
                TargetView::Field { table, name, repetition } => TargetView::Field {
                    table: table_occurrence@,
                    name,
                    repetition,
                },
                TargetView::Variable { name, repetition } => TargetView::Variable { name, repetition },
            },
    {
        match self {
            Target::FieldReference(f) => f.table_occurrence_reference.name = table_occurrence,
            Target::Variable(_) => {},
        }
    }

    /// The target as a step line shows it.
    pub fn to_string(&self) -> (r: String)
        ensures
            r@ == target_text(self@),
    {
        let (mut text, repetition) = match self {
            Target::FieldReference(f) => {
                let mut t = f.table_occurrence_reference.name.clone();
                t.append("::");
                t.append(f.name.as_str());
                (t, &f.repetition)
            },
            Target::Variable(v) => (v.name.clone(), &v.repetition),
        };
        if !repetition.as_str().is_empty() && !same_text(repetition.as_str(), "1") {
            text.append("[");
            text.append(repetition.as_str());
            text.append("]");
        }
        text
    }
}

} // verus!
