//! Typed values produced by parsing, the per-field conversion that yields
//! them, and the recoverable errors a parse can end in.
use crate::numeric::parse_i64_spec;
use crate::numeric::parse_i64;
use crate::schema::FieldType;
use vstd::prelude::*;

verus! {

/// One converted field: the capture kept as text, or read as an integer.
#[derive(Debug, Clone)]
pub enum FieldValue {
    Text(String),
    Integer(i64),
}

pub enum FieldValueView {
    Text(Seq<char>),
    Integer(i64),
}

impl View for FieldValue {
    type V = FieldValueView;

    open spec fn view(&self) -> FieldValueView {
        match self {
            FieldValue::Text(s) => FieldValueView::Text(s@),
            FieldValue::Integer(n) => FieldValueView::Integer(*n),
        }
    }
}

pub open spec fn values_view(vs: Seq<FieldValue>) -> Seq<FieldValueView> {
    vs.map_values(|v: FieldValue| v@)
}

/// What converting the captured text `s` to the target type `ty` yields:
/// text is kept as it is; an integer target reads `s` as a signed decimal.
pub open spec fn convert_spec(s: Seq<char>, ty: FieldType) -> Option<FieldValueView> {
    match ty {
        FieldType::Text => Some(FieldValueView::Text(s)),
        FieldType::Integer => match parse_i64_spec(s) {
            Some(n) => Some(FieldValueView::Integer(n)),
            None => None,
        },
    }
}

/// Converts one captured piece of text to its field's target type.
pub fn convert_capture(s: String, ty: FieldType) -> (r: Option<FieldValue>)
    ensures
        r is Some <==> convert_spec(s@, ty) is Some,
        r matches Some(v) ==> convert_spec(s@, ty) == Some(v@),
{
    match ty {
        FieldType::Text => Some(FieldValue::Text(s)),
        FieldType::Integer => match parse_i64(s.as_str()) {
            Some(n) => Some(FieldValue::Integer(n)),
            None => None,
        },
    }
}

/// A recoverable parse failure, handed to the caller as a result.
#[derive(Debug, Clone)]
pub enum ParseError {
    /// No pattern matched the input (for a union: no variant's trial ended
    /// in a value).
    NoMatch,
    /// The named capture group a field requires was absent from the match;
    /// carries the field's name.
    MissingCapture(String),
    /// A captured piece of text did not convert to its field's target type;
    /// carries the field's name.
    FieldConversion(String),
}

pub enum ParseErrorView {
    NoMatch,
    MissingCapture(Seq<char>),
    FieldConversion(Seq<char>),
}

impl View for ParseError {
    type V = ParseErrorView;

    open spec fn view(&self) -> ParseErrorView {
        match self {
            ParseError::NoMatch => ParseErrorView::NoMatch,
            ParseError::MissingCapture(f) => ParseErrorView::MissingCapture(f@),
            ParseError::FieldConversion(f) => ParseErrorView::FieldConversion(f@),
        }
    }
}

} // verus!
