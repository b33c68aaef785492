use vstd::prelude::*;
use crate::error::{result_view, ErrorView, ParseError};
use crate::xml::{decode, decoded, same_text, EventSource, XmlEvent};

verus! {

/// Reading the source text of a calculation up to the closing tag named `end`:
/// the text is what `<Text>` elements hold, CDATA sections as they stand and
/// character data decoded; `in_text` says whether a `<Text>` element is open,
/// `text` is what was gathered so far.
pub open spec fn calculation_scan(events: Seq<XmlEvent>, end: Seq<char>, in_text: bool, text: Seq<char>) -> (
    Result<Seq<char>, ErrorView>,
    Seq<XmlEvent>,
)
    decreases events.len(),
{
    if events.len() == 0 {
        (Err(ErrorView::UnexpectedEof), events)
    } else {
        let rest = events.drop_first();
        match events[0] {
            XmlEvent::Start(tag) => if tag.name@ == "Text"@ {
                calculation_scan(rest, end, true, text)
            } else {
                calculation_scan(rest, end, in_text, text)
            },
            XmlEvent::End(name) => if name@ == end {
                (Ok(text), rest)
            } else if name@ == "Text"@ {
                calculation_scan(rest, end, false, text)
            } else {
                calculation_scan(rest, end, in_text, text)
            },
            XmlEvent::CData(c) => if in_text {
                calculation_scan(rest, end, in_text, text + c@)
            } else {
                calculation_scan(rest, end, in_text, text)
            },
            XmlEvent::Text(t) => if in_text {
                calculation_scan(rest, end, in_text, text + decoded(t@))
            } else {
                calculation_scan(rest, end, in_text, text)
            },
            XmlEvent::Invalid => (Err(ErrorView::MalformedXml), rest),
            XmlEvent::Eof => (Err(ErrorView::UnexpectedEof), rest),
            _ => calculation_scan(rest, end, in_text, text),
        }
    }
}

/// The source text of the calculation that an element named `end` holds, read
/// from just after its opening tag, and the events left after its closing tag.
pub open spec fn calculation_spec(events: Seq<XmlEvent>, end: Seq<char>) -> (Result<Seq<char>, ErrorView>, Seq<XmlEvent>) {
    calculation_scan(events, end, false, Seq::empty())
}

/// Reading a calculation leaves a suffix of the events it started from.
pub proof fn lemma_calculation_consumes(events: Seq<XmlEvent>, end: Seq<char>, in_text: bool, text: Seq<char>)
    ensures
        calculation_scan(events, end, in_text, text).1.len() <= events.len(),
    decreases events.len(),
{
    if events.len() > 0 {
        let rest = events.drop_first();
        match events[0] {
            XmlEvent::Start(tag) => {
                lemma_calculation_consumes(rest, end, true, text);
                lemma_calculation_consumes(rest, end, in_text, text);
            },
            XmlEvent::End(name) => {
                lemma_calculation_consumes(rest, end, false, text);
                lemma_calculation_consumes(rest, end, in_text, text);
            },
            XmlEvent::CData(c) => {
                lemma_calculation_consumes(rest, end, in_text, text + c@);
                lemma_calculation_consumes(rest, end, in_text, text);
            },
            XmlEvent::Text(t) => {
                lemma_calculation_consumes(rest, end, in_text, text + decoded(t@));
                lemma_calculation_consumes(rest, end, in_text, text);
            },
            _ => lemma_calculation_consumes(rest, end, in_text, text),
        }
    }
}

/// Reads the source text of the calculation held by the element named `end`,
/// whose opening tag was just read, through its closing tag.
pub fn calculation_text<S: EventSource>(reader: &mut S, end: &str) -> (r: Result<String, ParseError>)
    ensures
        result_view(r) == calculation_spec(old(reader).pending(), end@).0,
        final(reader).pending() == calculation_spec(old(reader).pending(), end@).1,
{
    let ghost start = reader.pending();
    let mut in_text = false;
    let mut text = String::new();
    loop
        invariant
            start == old(reader).pending(),
            calculation_scan(reader.pending(), end@, in_text, text@) == calculation_spec(start, end@),
        decreases reader.pending().len(),
    {
        let ghost before = reader.pending();
        let event = reader.next_event();
        proof {
            if before.len() > 0 {
                assert(event == before[0]);
                assert(reader.pending() == before.drop_first());
            }
        }
        match event {
            XmlEvent::Start(tag) => {
                if same_text(tag.name.as_str(), "Text") {
                    in_text = true;
                }
            },
            XmlEvent::End(name) => {
                if same_text(name.as_str(), end) {
                    return Ok(text);
                } else if same_text(name.as_str(), "Text") {
                    in_text = false;
                }
            },
            XmlEvent::CData(c) => {
                if in_text {
                    text.append(c.as_str());
                }
            },
            XmlEvent::Text(t) => {
                if in_text {
                    let d = decode(t.as_str());
                    text.append(d.as_str());
                }
            },
            XmlEvent::Invalid => return Err(ParseError::MalformedXml),
            XmlEvent::Eof => return Err(ParseError::UnexpectedEof),
            _ => {},
        }
    }
}

} // verus!
