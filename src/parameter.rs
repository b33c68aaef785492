use vstd::prelude::*;
use crate::attributes::{attribute_value, get_attribute};
use crate::boolean::{boolean_spec, Boolean, BooleanView};
use crate::calculation::{calculation_spec, calculation_text};
use crate::error::{result_view, ErrorView, ParseError};
use crate::target::{target_spec, Target, TargetView};
use crate::constants::{decimal_value, is_decimal};
use crate::xml::{decode, decoded, plain_decoding, reference_char, semicolon_at, same_text, EventSource, StartTag, XmlEvent};

verus! {

/// One typed parameter of a step.
#[derive(Debug, PartialEq, Eq)]
pub enum Parameter {
    Boolean(Boolean),
    Target(Target),
    /// Literal text, decoded.
    Text(String),
    /// The source text of a calculation.
    Calculation(String),
}

pub enum ParameterView {
    Boolean(BooleanView),
    Target(TargetView),
    Text(Seq<char>),
    Calculation(Seq<char>),
}

impl View for Parameter {
    type V = ParameterView;

    open spec fn view(&self) -> ParameterView {
        match self {
            Parameter::Boolean(b) => ParameterView::Boolean(b@),
            Parameter::Target(t) => ParameterView::Target(t@),
            Parameter::Text(s) => ParameterView::Text(s@),
            Parameter::Calculation(s) => ParameterView::Calculation(s@),
        }
    }
}

/// The text that a `Text` tag gives: its `value` attribute decoded, or the
/// empty text where it has none.
pub open spec fn text_of_tag(tag: StartTag) -> Seq<char> {
    match attribute_value(tag.attributes@, "value"@) {
        Some(v) => decoded(v),
        None => Seq::empty(),
    }
}

/// Reading a `Text` parameter up to `</Text>`, with the text read so far.
/// Malformed input fails the reading.
pub open spec fn text_scan(events: Seq<XmlEvent>, text: Seq<char>) -> (Result<Seq<char>, ErrorView>, Seq<XmlEvent>)
    decreases events.len(),
{
    if events.len() == 0 {
        (Err(ErrorView::UnexpectedEof), events)
    } else {
        let rest = events.drop_first();
        match events[0] {
            XmlEvent::Start(tag) => if tag.name@ == "Text"@ {
                text_scan(rest, text_of_tag(tag))
            } else {
                text_scan(rest, text)
            },
            XmlEvent::Empty(tag) => if tag.name@ == "Text"@ {
                (Ok(text_of_tag(tag)), rest)
            } else {
                text_scan(rest, text)
            },
            XmlEvent::End(name) => if name@ == "Text"@ {
                (Ok(text), rest)
            } else {
                text_scan(rest, text)
            },
            XmlEvent::Invalid => (Err(ErrorView::MalformedXml), rest),
            XmlEvent::Eof => (Err(ErrorView::UnexpectedEof), rest),
            _ => text_scan(rest, text),
        }
    }
}

pub open spec fn text_spec(events: Seq<XmlEvent>) -> (Result<Seq<char>, ErrorView>, Seq<XmlEvent>) {
    text_scan(events, Seq::empty())
}

/// Reading a `Text` parameter leaves a suffix of the events it started from.
pub proof fn lemma_text_consumes(events: Seq<XmlEvent>, text: Seq<char>)
    ensures
        text_scan(events, text).1.len() <= events.len(),
    decreases events.len(),
{
    if events.len() > 0 {
        let rest = events.drop_first();
        match events[0] {
            XmlEvent::Start(tag) => {
                lemma_text_consumes(rest, text_of_tag(tag));
                lemma_text_consumes(rest, text);
            },
            _ => lemma_text_consumes(rest, text),
        }
    }
}

/// A parameter read from the events after its opening tag `tag`, by the
/// tag's `type` attribute, and the events left after it.
pub open spec fn parameter_spec(tag: StartTag, events: Seq<XmlEvent>) -> (Result<ParameterView, ErrorView>, Seq<XmlEvent>) {
    match attribute_value(tag.attributes@, "type"@) {
        None => (Err(ErrorView::MissingAttribute("type"@)), events),
        Some(kind) => if kind == "Boolean"@ {
            let (r, rest) = boolean_spec(events);
            (match r { Ok(b) => Ok(ParameterView::Boolean(b)), Err(e) => Err(e) }, rest)
        } else if kind == "Text"@ {
            let (r, rest) = text_spec(events);
            (match r { Ok(t) => Ok(ParameterView::Text(t)), Err(e) => Err(e) }, rest)
        } else if kind == "Target"@ {
            let (r, rest) = target_spec(events);
            (match r { Ok(t) => Ok(ParameterView::Target(t)), Err(e) => Err(e) }, rest)
        } else if kind == "Calculation"@ {
            let (r, rest) = calculation_spec(events, tag.name@);
            (match r { Ok(c) => Ok(ParameterView::Calculation(c)), Err(e) => Err(e) }, rest)
        } else {
            (Err(ErrorView::UnknownParameterType(kind)), events)
        },
    }
}

/// Reading a parameter leaves a suffix of the events it started from.
pub proof fn lemma_parameter_consumes(tag: StartTag, events: Seq<XmlEvent>)
    ensures
        parameter_spec(tag, events).1.len() <= events.len(),
{
    crate::boolean::lemma_boolean_consumes(events, None);
    lemma_text_consumes(events, Seq::empty());
    crate::target::lemma_target_consumes(events, false, Seq::empty(), Seq::empty(), None);
    crate::calculation::lemma_calculation_consumes(events, tag.name@, false, Seq::empty());
}

/// A `Text` element's `value` is read decoded, each reference replaced by
/// its character, and a step line shows that decoded text in curly quotes
/// as it stands, with nothing escaped again.
pub proof fn lemma_text_decoded_then_quoted(tag: StartTag, end: String, raw: Seq<char>, text: Seq<char>)
    requires
        tag.name@ == "Text"@,
        end@ == "Text"@,
        attribute_value(tag.attributes@, "value"@) == Some(raw),
        plain_decoding(raw) == Some(text),
    ensures
        text_spec(seq![XmlEvent::Start(tag), XmlEvent::End(end)]).0 == Ok::<Seq<char>, ErrorView>(text),
        text.len() > 0 ==> crate::step::quoted_text_part(seq![ParameterView::Text(text)])
            == seq!["\u{201c}"@ + text + "\u{201d}"@],
{
    let events = seq![XmlEvent::Start(tag), XmlEvent::End(end)];
    assert(events.drop_first() =~= seq![XmlEvent::End(end)]);
    assert(events.drop_first().drop_first() =~= Seq::<XmlEvent>::empty());
    assert(text_of_tag(tag) == text);
    assert(text_scan(events.drop_first(), text).0 == Ok::<Seq<char>, ErrorView>(text));
    assert(text_scan(events, Seq::empty()) == text_scan(events.drop_first(), text));
}

/// The references `&#13;`, `&quot;` and `&amp;` decode to a carriage
/// return, a double quote and an ampersand.
pub proof fn lemma_common_references()
    ensures
        plain_decoding("&#13;"@) == Some(seq!['\r']),
        plain_decoding("&quot;"@) == Some(seq!['"']),
        plain_decoding("&amp;"@) == Some(seq!['&']),
{
    reveal_strlit("&#13;");
    reveal_strlit("&quot;");
    reveal_strlit("&amp;");
    reveal_strlit("quot");
    reveal_strlit("amp");
    reveal_strlit("lt");
    reveal_strlit("gt");
    reveal_strlit("apos");
    reveal_with_fuel(semicolon_at, 6);
    reveal_with_fuel(decimal_value, 3);
    reveal_with_fuel(plain_decoding, 2);
    let r = "&#13;"@.drop_first();
    assert(r =~= seq!['#', '1', '3', ';']);
    assert(r.drop_first() =~= seq!['1', '3', ';']);
    assert(r.drop_first().drop_first() =~= seq!['3', ';']);
    assert(r.drop_first().drop_first().drop_first() =~= seq![';']);
    assert(semicolon_at(r) == Some(3nat));
    let d = r.take(3).drop_first();
    assert(d =~= seq!['1', '3']);
    assert(d.drop_last() =~= seq!['1']);
    assert(d.drop_last().drop_last() =~= Seq::<char>::empty());
    assert(decimal_value(d) == 13);
    assert(reference_char(r.take(3)) == Some('\r'));
    assert(r.skip(4) =~= Seq::<char>::empty());
    let q = "&quot;"@.drop_first();
    assert(q =~= seq!['q', 'u', 'o', 't', ';']);
    assert(q.drop_first() =~= seq!['u', 'o', 't', ';']);
    assert(q.drop_first().drop_first() =~= seq!['o', 't', ';']);
    assert(q.drop_first().drop_first().drop_first() =~= seq!['t', ';']);
    assert(q.drop_first().drop_first().drop_first().drop_first() =~= seq![';']);
    assert(semicolon_at(q) == Some(4nat));
    assert(q.take(4) =~= "quot"@);
    assert("quot"@ != "lt"@ && "quot"@ != "gt"@ && "quot"@ != "amp"@);
    assert("quot"@ != "apos"@) by {
        assert("quot"@[0] != "apos"@[0]);
    }
    assert(reference_char(q.take(4)) == Some('"'));
    assert(plain_decoding(q.skip(5)) == Some(Seq::<char>::empty()));
    assert(seq!['"'] + Seq::<char>::empty() =~= seq!['"']);
    assert(q.skip(5) =~= Seq::<char>::empty());
    let a = "&amp;"@.drop_first();
    assert(a =~= seq!['a', 'm', 'p', ';']);
    assert(a.drop_first() =~= seq!['m', 'p', ';']);
    assert(a.drop_first().drop_first() =~= seq!['p', ';']);
    assert(a.drop_first().drop_first().drop_first() =~= seq![';']);
    assert(semicolon_at(a) == Some(3nat));
    assert(a.take(3) =~= "amp"@);
    assert(a.skip(4) =~= Seq::<char>::empty());
}

/// Reads the literal text of a `Text` parameter through its `</Text>`.
pub fn parse_text<S: EventSource>(reader: &mut S) -> (r: Result<String, ParseError>)
    ensures
        result_view(r) == text_spec(old(reader).pending()).0,
        final(reader).pending() == text_spec(old(reader).pending()).1,
{
    let ghost start = reader.pending();
    let mut text = String::new();
    loop
        invariant
            start == old(reader).pending(),
            text_scan(reader.pending(), text@) == text_spec(start),
        decreases reader.pending().len(),
    {
        let ghost before = reader.pending();
        let event = reader.next_event();
        proof {
            if before.len() > 0 {
                assert(event == before[0]);
                assert(reader.pending() == before.drop_first());
            }
        }
        match event {
            XmlEvent::Start(tag) => {
                if same_text(tag.name.as_str(), "Text") {
                    text = text_of(&tag);
                }
            },
            XmlEvent::Empty(tag) => {
                if same_text(tag.name.as_str(), "Text") {
                    return Ok(text_of(&tag));
                }
            },
            XmlEvent::End(name) => {
                if same_text(name.as_str(), "Text") {
                    return Ok(text);
                }
            },
            XmlEvent::Invalid => return Err(ParseError::MalformedXml),
            XmlEvent::Eof => return Err(ParseError::UnexpectedEof),
            _ => {},
        }
    }
}

fn text_of(tag: &StartTag) -> (r: String)
    ensures
        r@ == text_of_tag(*tag),
{
    match get_attribute(tag, "value") {
        Some(v) => decode(v.as_str()),
        None => String::new(),
    }
}

impl Parameter {
    /// Reads one parameter whose opening tag `tag` was just read, by the
    /// tag's `type` attribute.
    pub fn from_xml<S: EventSource>(reader: &mut S, tag: &StartTag) -> (r: Result<Parameter, ParseError>)
        ensures
            result_view(r) == parameter_spec(*tag, old(reader).pending()).0,
            final(reader).pending() == parameter_spec(*tag, old(reader).pending()).1,
    {
        let kind = match get_attribute(tag, "type") {
            Some(kind) => kind,
            None => return Err(ParseError::MissingAttribute("type".to_owned())),
        };
        if same_text(kind.as_str(), "Boolean") {
            match Boolean::from_xml(reader) {
                Ok(b) => Ok(Parameter::Boolean(b)),
                Err(e) => Err(e),
            }
        } else if same_text(kind.as_str(), "Text") {
            match parse_text(reader) {
                Ok(t) => Ok(Parameter::Text(t)),
                Err(e) => Err(e),
            }
        } else if same_text(kind.as_str(), "Target") {
            match Target::from_xml(reader) {
                Ok(t) => Ok(Parameter::Target(t)),
                Err(e) => Err(e),
            }
        } else if same_text(kind.as_str(), "Calculation") {
            match calculation_text(reader, tag.name.as_str()) {
                Ok(c) => Ok(Parameter::Calculation(c)),
                Err(e) => Err(e),
            }
        } else {
            Err(ParseError::UnknownParameterType(kind))
        }
    }
}

} // verus!
