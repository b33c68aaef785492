use vstd::prelude::*;
use crate::attributes::{attribute_value, try_get_attribute};
use crate::error::{result_view, ErrorView, ParseError};
use crate::xml::{same_text, EventSource, StartTag, XmlEvent};

verus! {

/// The switches that a flag parameter can stand for, each known by a numeric id.
#[derive(Debug, Clone, Copy, PartialEq, Eq, Structural)]
pub enum Kind {
    Select,
    VerifySslCertificates,
    WithDialog,
}

/// The switch with the numeric id written as `id`.
pub open spec fn kind_of_id(id: Seq<char>) -> Option<Kind> {
    if id == "4096"@ {
        Some(Kind::Select)
    } else if id == "268435456"@ {
        Some(Kind::VerifySslCertificates)
    } else if id == "128"@ {
        Some(Kind::WithDialog)
    } else {
        None
    }
}

impl Kind {
    /// The switch with the numeric id written as `id`, if it is a known one.
    pub fn from_id(id: &str) -> (r: Option<Kind>)
        ensures
            r == kind_of_id(id@),
    {
        if same_text(id, "4096") {
            Some(Kind::Select)
        } else if same_text(id, "268435456") {
            Some(Kind::VerifySslCertificates)
        } else if same_text(id, "128") {
            Some(Kind::WithDialog)
        } else {
            None
        }
    }
}

/// A flag parameter: which switch it is, whether it is on, and the label the
/// document gives it.
#[derive(Debug, PartialEq, Eq)]
pub struct Boolean {
    pub kind: Kind,
    pub value: bool,
    pub label: String,
}

pub struct BooleanView {
    pub kind: Kind,
    pub value: bool,
    pub label: Seq<char>,
}

impl View for Boolean {
    type V = BooleanView;

    open spec fn view(&self) -> BooleanView {
        BooleanView { kind: self.kind, value: self.value, label: self.label@ }
    }
}

impl Clone for Boolean {
    fn clone(&self) -> (r: Boolean)
        ensures
            r == *self,
    {
        Boolean { kind: self.kind, value: self.value, label: self.label.clone() }
    }
}

/// The flag that a `Boolean` tag describes: its value is on exactly when the
/// `value` attribute reads `True`; its `id` must name a known switch; its label
/// is the `type` attribute, which is required.
pub open spec fn boolean_of_tag(tag: StartTag) -> Result<BooleanView, ErrorView> {
    match attribute_value(tag.attributes@, "value"@) {
        None => Err(ErrorView::MissingAttribute("value"@)),
        Some(value) => match attribute_value(tag.attributes@, "id"@) {
            None => Err(ErrorView::MissingAttribute("id"@)),
            Some(id) => match kind_of_id(id) {
                None => Err(ErrorView::UnknownBooleanKind(id)),
                Some(kind) => match attribute_value(tag.attributes@, "type"@) {
                    None => Err(ErrorView::MissingAttribute("type"@)),
                    Some(label) => Ok(BooleanView { kind, value: value == "True"@, label }),
                },
            },
        },
    }
}

/// Reading a flag from `events`, with `found` the flag read so far: the result
/// and the events left after it. The last `Boolean` tag before `</Boolean>`
/// gives the flag.
pub open spec fn boolean_scan(events: Seq<XmlEvent>, found: Option<BooleanView>) -> (
    Result<BooleanView, ErrorView>,
    Seq<XmlEvent>,
)
    decreases events.len(),
{
    if events.len() == 0 {
        (Err(ErrorView::UnexpectedEof), events)
    } else {
        let rest = events.drop_first();
        match events[0] {
            XmlEvent::Start(tag) => if tag.name@ == "Boolean"@ {
                match boolean_of_tag(tag) {
                    Ok(b) => boolean_scan(rest, Some(b)),
                    Err(e) => (Err(e), rest),
                }
            } else {
                boolean_scan(rest, found)
            },
            XmlEvent::Empty(tag) => if tag.name@ == "Boolean"@ {
                (boolean_of_tag(tag), rest)
            } else {
                boolean_scan(rest, found)
            },
            XmlEvent::End(name) => if name@ == "Boolean"@ {
                match found {
                    Some(b) => (Ok(b), rest),
                    None => (Err(ErrorView::MalformedXml), rest),
                }
            } else {
                boolean_scan(rest, found)
            },
            XmlEvent::Invalid => (Err(ErrorView::MalformedXml), rest),
            XmlEvent::Eof => (Err(ErrorView::UnexpectedEof), rest),
            _ => boolean_scan(rest, found),
        }
    }
}

/// A flag parameter read from the start of `events`, and the events left after it.
pub open spec fn boolean_spec(events: Seq<XmlEvent>) -> (Result<BooleanView, ErrorView>, Seq<XmlEvent>) {
    boolean_scan(events, None)
}

/// Reading a flag leaves a suffix of the events it started from.
pub proof fn lemma_boolean_consumes(events: Seq<XmlEvent>, found: Option<BooleanView>)
    ensures
        boolean_scan(events, found).1.len() <= events.len(),
    decreases events.len(),
{
    if events.len() > 0 {
        let rest = events.drop_first();
        match events[0] {
            XmlEvent::Start(tag) => {
                match boolean_of_tag(tag) {
                    Ok(b) => lemma_boolean_consumes(rest, Some(b)),
                    Err(_) => {},
                }
                lemma_boolean_consumes(rest, found);
            },
            _ => lemma_boolean_consumes(rest, found),
        }
    }
}

pub open spec fn option_boolean(b: Option<Boolean>) -> Option<BooleanView> {
    match b {
        Some(b) => Some(b@),
        None => None,
    }
}

impl Boolean {
    pub fn new(kind: Kind, value: bool, label: &str) -> (r: Boolean)
        ensures
            r@ == (BooleanView { kind, value, label: label@ }),
    {
        Boolean { kind, value, label: label.to_owned() }
    }

    /// The flag that a `Boolean` tag describes.
    pub fn from_tag(tag: &StartTag) -> (r: Result<Boolean, ParseError>)
        ensures
            result_view(r) == boolean_of_tag(*tag),
    {
        let value = try_get_attribute(tag, "value")?;
        let id = try_get_attribute(tag, "id")?;
        let kind = match Kind::from_id(id.as_str()) {
            Some(kind) => kind,
            None => return Err(ParseError::UnknownBooleanKind(id)),
        };
        let label = try_get_attribute(tag, "type")?;
        Ok(Boolean { kind, value: same_text(value.as_str(), "True"), label })
    }

    /// Reads a flag parameter: through the closing `</Boolean>`, or through a
    /// self-closing `<Boolean/>`.
    pub fn from_xml<S: EventSource>(reader: &mut S) -> (r: Result<Boolean, ParseError>)
        ensures
            result_view(r) == boolean_spec(old(reader).pending()).0,
            final(reader).pending() == boolean_spec(old(reader).pending()).1,
    {
        let ghost start = reader.pending();
        let mut found: Option<Boolean> = None;
        loop
            invariant
                start == old(reader).pending(),
                boolean_scan(reader.pending(), option_boolean(found)) == boolean_scan(start, None),
            decreases reader.pending().len(),
        {
            let ghost before = reader.pending();
            let event = reader.next_event();
            proof {
                if before.len() > 0 {
                    assert(event == before[0]);
                    assert(reader.pending() == before.drop_first());
                }
            }
            match event {
                XmlEvent::Start(tag) => {
                    if same_text(tag.name.as_str(), "Boolean") {
                        match Boolean::from_tag(&tag) {
                            Ok(b) => found = Some(b),
                            Err(e) => return Err(e),
                        }
                    }
                },
                XmlEvent::Empty(tag) => {
                    if same_text(tag.name.as_str(), "Boolean") {
                        return Boolean::from_tag(&tag);
                    }
                },
                XmlEvent::End(name) => {
                    if same_text(name.as_str(), "Boolean") {
                        return match found {
                            Some(b) => Ok(b),
                            None => Err(ParseError::MalformedXml),
                        };
                    }
                },
                XmlEvent::Invalid => return Err(ParseError::MalformedXml),
                XmlEvent::Eof => return Err(ParseError::UnexpectedEof),
                _ => {},
            }
        }
    }

    /// The label, where the flag is on.
    pub fn get_label_if_true(&self) -> (r: Option<String>)
        ensures
            r matches Some(l) ==> self.value && l@ == self.label@,
            r is None ==> !self.value,
    {
        if self.value {
            Some(self.label.clone())
        } else {
            None
        }
    }
}

} // verus!
