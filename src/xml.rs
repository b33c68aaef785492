use vstd::prelude::*;
use quick_xml::events::attributes::Attributes;
use quick_xml::events::Event;
use quick_xml::Reader;
use crate::attributes::option_string;
use crate::constants::{decimal_value, is_decimal};

verus! {

/// An opening tag: its name and its attributes in document order, each value
/// as it stands in the document (entities not yet decoded).
#[derive(Debug, PartialEq, Eq)]
pub struct StartTag {
    pub name: String,
    pub attributes: Vec<(String, String)>,
}

/// One token of an XML document, as the parsers of this crate read it.
#[derive(Debug, PartialEq, Eq)]
pub enum XmlEvent {
    /// `<name ...>`
    Start(StartTag),
    /// `<name .../>`
    Empty(StartTag),
    /// `</name>`
    End(String),
    /// Character data, still escaped.
    Text(String),
    /// The content of a `<![CDATA[...]]>` section.
    CData(String),
    /// A declaration, comment, processing instruction or doctype.
    Other,
    /// The tokenizer met malformed input; nothing follows it.
    Invalid,
    /// The end of the document.
    Eof,
}

/// The event that a source with `pending` events left hands out next.
pub open spec fn head(pending: Seq<XmlEvent>) -> XmlEvent {
    if pending.len() == 0 {
        XmlEvent::Eof
    } else {
        pending[0]
    }
}

/// What a source with `pending` events left still holds after one read.
pub open spec fn tail(pending: Seq<XmlEvent>) -> Seq<XmlEvent> {
    if pending.len() == 0 {
        pending
    } else {
        pending.drop_first()
    }
}

/// A cursor over a finite stream of events. `pending` is what it hands out,
/// in order, before it answers `Eof` for good.
pub trait EventSource {
    spec fn pending(&self) -> Seq<XmlEvent>;

    fn next_event(&mut self) -> (e: XmlEvent)
        ensures
            e == head(old(self).pending()),
            final(self).pending() == tail(old(self).pending()),
    ;
}

/// A stream of events held in memory.
pub struct EventList {
    /// The events still to come, the next one last.
    rest: Vec<XmlEvent>,
}

impl EventList {
    /// A stream that hands out `events` in order.
    pub fn new(events: Vec<XmlEvent>) -> (r: EventList)
        ensures
            r.pending() == events@,
    {
        let mut events = events;
        let ghost all = events@;
        let mut rest: Vec<XmlEvent> = Vec::new();
        while events.len() > 0
            invariant
                events@ + rest@.reverse() == all,
            decreases events.len(),
        {
            let e = events.pop().unwrap();
            proof {
                assert(rest@.push(e).reverse() =~= seq![e] + rest@.reverse());
            }
            rest.push(e);
            assert(events@ + rest@.reverse() =~= all);
        }
        assert(rest@.reverse() =~= all);
        EventList { rest }
    }
}

impl EventSource for EventList {
    closed spec fn pending(&self) -> Seq<XmlEvent> {
        self.rest@.reverse()
    }

    fn next_event(&mut self) -> (e: XmlEvent) {
        match self.rest.pop() {
            Some(e) => {
                assert(self.rest@.reverse() =~= tail(old(self).rest@.reverse()));
                e
            },
            None => XmlEvent::Eof,
        }
    }
}

/// An event as the reader hands it out: a tag's name and the raw text of its
/// attributes, still to be split.
pub enum RawEvent {
    Start(String, String),
    Empty(String, String),
    End(String),
    Text(String),
    CData(String),
    Other,
    Invalid,
    Eof,
}

#[verifier::external_type_specification]
#[verifier::external_body]
#[verifier::reject_recursive_types(R)]
pub struct ExReader<R>(Reader<R>);

/// The events that a reader still holds, up to its end: what it hands out
/// before it answers `Eof`.
pub uninterp spec fn reader_events(reader: Reader<&[u8]>) -> Seq<RawEvent>;

/// The events of a whole document, in order, as a reader of it hands them out.
pub uninterp spec fn document_events(xml: Seq<char>) -> Seq<RawEvent>;

/// The attributes written in the raw attribute text of a tag, in order.
pub uninterp spec fn attributes_of(raw: Seq<char>) -> Vec<(String, String)>;

/// The event that a raw event stands for, its attributes split.
pub open spec fn cook(e: RawEvent) -> XmlEvent {
    match e {
        RawEvent::Start(name, raw) => XmlEvent::Start(StartTag { name, attributes: attributes_of(raw@) }),
        RawEvent::Empty(name, raw) => XmlEvent::Empty(StartTag { name, attributes: attributes_of(raw@) }),
        RawEvent::End(name) => XmlEvent::End(name),
        RawEvent::Text(t) => XmlEvent::Text(t),
        RawEvent::CData(t) => XmlEvent::CData(t),
        RawEvent::Other => XmlEvent::Other,
        RawEvent::Invalid => XmlEvent::Invalid,
        RawEvent::Eof => XmlEvent::Eof,
    }
}

pub open spec fn cooked(events: Seq<RawEvent>) -> Seq<XmlEvent> {
    events.map_values(|e: RawEvent| cook(e))
}

/// The events of the document `xml`, as the parsers of this crate read them.
pub open spec fn document(xml: Seq<char>) -> Seq<XmlEvent> {
    cooked(document_events(xml))
}

/// Relies on `quick_xml::Reader::from_str`: a new reader starts at the first
/// event of the document.
#[verifier::external_body]
pub fn open_reader(xml: &str) -> (r: Reader<&[u8]>)
    ensures
        reader_events(r) == document_events(xml@),
{
    Reader::from_str(xml)
}

/// Relies on `quick_xml::Reader::read_event`: each call hands out the next
/// event; after an error or the end of the input it answers `Eof` for good.
/// Names and texts are taken as UTF-8.
#[verifier::external_body]
fn read_raw_event(reader: &mut Reader<&[u8]>) -> (e: RawEvent)
    ensures
        reader_events(*old(reader)).len() == 0 ==> e == RawEvent::Eof,
        reader_events(*old(reader)).len() > 0 ==> e == reader_events(*old(reader))[0],
        reader_events(*final(reader)) == if reader_events(*old(reader)).len() == 0 {
            reader_events(*old(reader))
        } else {
            reader_events(*old(reader)).drop_first()
        },
{
    let text = |b: &[u8]| String::from_utf8_lossy(b).into_owned();
    match reader.read_event() {
        Ok(Event::Start(t)) => RawEvent::Start(text(t.name().0), text(t.attributes_raw())),
        Ok(Event::Empty(t)) => RawEvent::Empty(text(t.name().0), text(t.attributes_raw())),
        Ok(Event::End(t)) => RawEvent::End(text(&t)),
        Ok(Event::Text(t)) => RawEvent::Text(text(&t)),
        Ok(Event::CData(t)) => RawEvent::CData(text(&t)),
        Ok(Event::Eof) => RawEvent::Eof,
        Ok(_) => RawEvent::Other,
        Err(_) => RawEvent::Invalid,
    }
}

/// Relies on `quick_xml::events::attributes::Attributes`: the attributes of a
/// tag's raw attribute text, in order; those that do not parse are left out.
#[verifier::external_body]
fn parse_attributes(raw: &str) -> (r: Vec<(String, String)>)
    ensures
        r == attributes_of(raw@),
{
    let text = |b: &[u8]| String::from_utf8_lossy(b).into_owned();
    Attributes::new(raw, 0).flatten().map(|a| (text(a.key.0), text(&a.value))).collect()
}

impl<'a> EventSource for Reader<&'a [u8]> {
    open spec fn pending(&self) -> Seq<XmlEvent> {
        cooked(reader_events(*self))
    }

    fn next_event(&mut self) -> (e: XmlEvent) {
        let raw = read_raw_event(self);
        proof {
            let before = reader_events(*old(self));
            if before.len() > 0 {
                assert(cooked(before).drop_first() =~= cooked(before.drop_first()));
            }
        }
        match raw {
            RawEvent::Start(name, attributes) => XmlEvent::Start(
                StartTag { name, attributes: parse_attributes(attributes.as_str()) },
            ),
            RawEvent::Empty(name, attributes) => XmlEvent::Empty(
                StartTag { name, attributes: parse_attributes(attributes.as_str()) },
            ),
            RawEvent::End(name) => XmlEvent::End(name),
            RawEvent::Text(t) => XmlEvent::Text(t),
            RawEvent::CData(t) => XmlEvent::CData(t),
            RawEvent::Other => XmlEvent::Other,
            RawEvent::Invalid => XmlEvent::Invalid,
            RawEvent::Eof => XmlEvent::Eof,
        }
    }
}

/// The text that `raw` stands for once its character and entity references
/// are decoded; `None` where a reference cannot be decoded.
pub uninterp spec fn unescaped(raw: Seq<char>) -> Option<Seq<char>>;

/// Whether a number is the code of a character other than NUL.
pub open spec fn is_character_code(code: nat) -> bool {
    0 < code < 0xD800 || 0xE000 <= code <= 0x10FFFF
}

/// The character that the reference `&name;` stands for, where `name` is one
/// of the five predefined entities or `#` with one to seven decimal digits.
pub open spec fn reference_char(name: Seq<char>) -> Option<char> {
    if name == "lt"@ {
        Some('<')
    } else if name == "gt"@ {
        Some('>')
    } else if name == "amp"@ {
        Some('&')
    } else if name == "apos"@ {
        Some('\'')
    } else if name == "quot"@ {
        Some('"')
    } else if 2 <= name.len() <= 8 && name[0] == '#' && is_decimal(name.drop_first()) && is_character_code(
        decimal_value(name.drop_first()),
    ) {
        Some(decimal_value(name.drop_first()) as char)
    } else {
        None
    }
}

/// Where the first `;` of `s` stands, if it comes before any `&`.
pub open spec fn semicolon_at(s: Seq<char>) -> Option<nat>
    decreases s.len(),
{
    if s.len() == 0 {
        None
    } else if s[0] == ';' {
        Some(0)
    } else if s[0] == '&' {
        None
    } else {
        match semicolon_at(s.drop_first()) {
            Some(k) => Some(k + 1),
            None => None,
        }
    }
}

/// The decoding of `raw` where each `&` in it opens a reference that
/// `reference_char` knows, closed by the next `;`: each such reference
/// becomes its character and every other character stays. `None` where
/// `raw` holds any other `&`.
pub open spec fn plain_decoding(raw: Seq<char>) -> Option<Seq<char>>
    decreases raw.len(),
{
    if raw.len() == 0 {
        Some(Seq::empty())
    } else if raw[0] != '&' {
        match plain_decoding(raw.drop_first()) {
            Some(t) => Some(seq![raw[0]] + t),
            None => None,
        }
    } else {
        let rest = raw.drop_first();
        match semicolon_at(rest) {
            Some(k) => if k < rest.len() {
                match (reference_char(rest.take(k as int)), plain_decoding(rest.skip(k + 1 as int))) {
                    (Some(c), Some(t)) => Some(seq![c] + t),
                    _ => None,
                }
            } else {
                None
            },
            None => None,
        }
    }
}

/// Relies on `quick_xml::escape::unescape`: it decodes the five predefined
/// entities and decimal character references as `plain_decoding` states,
/// each `&` starting a reference closed by the next `;`.
#[verifier::external_body]
fn unescape_text(raw: &str) -> (r: Option<String>)
    ensures
        option_string(r) == unescaped(raw@),
        plain_decoding(raw@) is Some ==> option_string(r) == plain_decoding(raw@),
{
    match quick_xml::escape::unescape(raw) {
        Ok(v) => Some(v.into_owned()),
        Err(_) => None,
    }
}

/// The decoded form of `raw`: as `plain_decoding` gives it where it can,
/// else as the decoder gives it, else `raw` itself where it does not decode.
pub open spec fn decoded(raw: Seq<char>) -> Seq<char> {
    match plain_decoding(raw) {
        Some(t) => t,
        None => match unescaped(raw) {
            Some(v) => v,
            None => raw,
        },
    }
}

/// The decoded form of `raw`, or `raw` itself where it does not decode.
pub fn decode(raw: &str) -> (r: String)
    ensures
        r@ == decoded(raw@),
{
    match unescape_text(raw) {
        Some(v) => v,
        None => raw.to_owned(),
    }
}

/// Text without a `&` decodes to itself.
pub proof fn lemma_plain_text_decodes_to_itself(raw: Seq<char>)
    requires
        !raw.contains('&'),
    ensures
        plain_decoding(raw) == Some(raw),
        decoded(raw) == raw,
    decreases raw.len(),
{
    if raw.len() > 0 {
        assert(!raw.drop_first().contains('&')) by {
            if raw.drop_first().contains('&') {
                let i = choose|i: int| 0 <= i < raw.drop_first().len() && raw.drop_first()[i] == '&';
                assert(raw[i + 1] == '&');
            }
        }
        assert(raw[0] != '&') by {
            if raw[0] == '&' {
                assert(raw.contains('&'));
            }
        }
        lemma_plain_text_decodes_to_itself(raw.drop_first());
        assert(seq![raw[0]] + raw.drop_first() =~= raw);
    }
}

/// Whether `s` holds exactly the characters of `t`.
pub fn same_text(s: &str, t: &str) -> (r: bool)
    ensures
        r == (s@ == t@),
{
    s.to_owned() == t.to_owned()
}

} // verus!
