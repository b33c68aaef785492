use vstd::prelude::*;
use crate::error::{result_view, ErrorView, ParseError};
use crate::xml::StartTag;

verus! {

/// The value of the first attribute named `key`, if any.
pub open spec fn attribute_value(attributes: Seq<(String, String)>, key: Seq<char>) -> Option<Seq<char>>
    decreases attributes.len(),
{
    if attributes.len() == 0 {
        None
    } else if attributes[0].0@ == key {
        Some(attributes[0].1@)
    } else {
        attribute_value(attributes.drop_first(), key)
    }
}

/// The value of a required attribute, or the error that names it.
pub open spec fn required_attribute(tag: StartTag, key: Seq<char>) -> Result<Seq<char>, ErrorView> {
    match attribute_value(tag.attributes@, key) {
        Some(v) => Ok(v),
        None => Err(ErrorView::MissingAttribute(key)),
    }
}

/// The value of the first attribute of `tag` named `name`.
pub fn get_attribute(tag: &StartTag, name: &str) -> (r: Option<String>)
    ensures
        option_string(r) == attribute_value(tag.attributes@, name@),
{
    let mut i: usize = 0;
    assert(tag.attributes@.skip(0) =~= tag.attributes@);
    while i < tag.attributes.len()
        invariant
            i <= tag.attributes@.len(),
            attribute_value(tag.attributes@.skip(i as int), name@) == attribute_value(tag.attributes@, name@),
        decreases tag.attributes.len() - i,
    {
        assert(tag.attributes@.skip(i as int).drop_first() =~= tag.attributes@.skip(i + 1));
        assert(tag.attributes@.skip(i as int)[0] == tag.attributes@[i as int]);
        if crate::xml::same_text(tag.attributes[i].0.as_str(), name) {
            let v = tag.attributes[i].1.clone();
            return Some(v);
        }
        i = i + 1;
    }
    None
}

/// The value of the first attribute of `tag` named `name`; an error naming it
/// where there is none.
pub fn try_get_attribute(tag: &StartTag, name: &str) -> (r: Result<String, ParseError>)
    ensures
        result_view(r) == required_attribute(*tag, name@),
{
    match get_attribute(tag, name) {
        Some(v) => Ok(v),
        None => Err(ParseError::MissingAttribute(name.to_owned())),
    }
}

/// An optional text, as a view.
pub open spec fn option_string(o: Option<String>) -> Option<Seq<char>> {
    match o {
        Some(v) => Some(v@),
        None => None,
    }
}


} // verus!
