use vstd::prelude::*;

verus! {

/// Why a step, or a part of it, could not be read.
#[derive(Debug, PartialEq, Eq)]
pub enum ParseError {
    /// A required attribute is absent; holds the attribute's name.
    MissingAttribute(String),
    /// A flag's numeric id is not one of the known switches; holds the id as written.
    UnknownBooleanKind(String),
    /// A parameter's declared type is not handled; holds the type as written.
    UnknownParameterType(String),
    /// The document ended inside an element that was still being read.
    UnexpectedEof,
    /// The tokenizer met text that is not well-formed XML.
    MalformedXml,
}

/// A `ParseError` with its texts as character sequences.
pub enum ErrorView {
    MissingAttribute(Seq<char>),
    UnknownBooleanKind(Seq<char>),
    UnknownParameterType(Seq<char>),
    UnexpectedEof,
    MalformedXml,
}

impl View for ParseError {
    type V = ErrorView;

    open spec fn view(&self) -> ErrorView {
        match self {
            ParseError::MissingAttribute(s) => ErrorView::MissingAttribute(s@),
            ParseError::UnknownBooleanKind(s) => ErrorView::UnknownBooleanKind(s@),
            ParseError::UnknownParameterType(s) => ErrorView::UnknownParameterType(s@),
            ParseError::UnexpectedEof => ErrorView::UnexpectedEof,
            ParseError::MalformedXml => ErrorView::MalformedXml,
        }
    }
}

/// A result of this crate's parsers, with its value and its error as views.
pub open spec fn result_view<T: View>(r: Result<T, ParseError>) -> Result<T::V, ErrorView> {
    match r {
        Ok(v) => Ok(v@),
        Err(e) => Err(e@),
    }
}

} // verus!
