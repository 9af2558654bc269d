//! The parsing surface generated for a record schema: fallible conversion
//! from a borrowed or an owned string, and a match predicate. The record's
//! pattern is compiled once, when the artifact is built, and shared by every
//! later call.
use crate::bind::BindFailure;
use crate::bind::bind_fields_spec;
use crate::bind::bind_named_fields;
use crate::engine::CompiledPattern;
use crate::engine::pattern_matches;
use crate::schema::Field;
use crate::schema::FieldView;
use crate::schema::fields_view;
use crate::value::FieldValue;
use crate::value::FieldValueView;
use crate::value::ParseError;
use crate::value::ParseErrorView;
use crate::value::values_view;
use vstd::prelude::*;

verus! {

/// What parsing a record from `t` yields: the field values in declaration
/// order when the pattern matches and every field binds; otherwise the
/// reason the parse fails.
pub open spec fn record_parse_spec(p: Seq<char>, fs: Seq<FieldView>, t: Seq<char>) -> Result<
    Seq<FieldValueView>,
    ParseErrorView,
> {
    if !pattern_matches(p, t) {
        Err(ParseErrorView::NoMatch)
    } else {
        match bind_fields_spec(p, t, fs) {
            Ok(vals) => Ok(vals),
            Err(BindFailure::Missing(name)) => Err(ParseErrorView::MissingCapture(name)),
            Err(BindFailure::BadValue(name)) => Err(ParseErrorView::FieldConversion(name)),
        }
    }
}

/// The parsing capability emitted for a validated record schema.
pub struct RecordParser {
    re: CompiledPattern,
    fields: Vec<Field>,
    owned: bool,
}

impl RecordParser {
    /// The pattern the record was validated against.
    pub closed spec fn pattern(self) -> Seq<char> {
        self.re.pattern()
    }

    /// The record's fields in declaration order.
    pub closed spec fn field_list(self) -> Seq<FieldView> {
        fields_view(self.fields@)
    }

    /// Whether conversion from an owned string is part of this record's
    /// surface; it is omitted for a schema that borrows from its input.
    pub closed spec fn owned_entry(self) -> bool {
        self.owned
    }

    /// Assembles the artifact from an already compiled and validated
    /// pattern.
    pub(crate) fn assemble(re: CompiledPattern, fields: Vec<Field>, owned: bool) -> (r:
        RecordParser)
        ensures
            r.pattern() == re.pattern(),
            r.field_list() == fields_view(fields@),
            r.owned_entry() == owned,
    {
        RecordParser { re, fields, owned }
    }

    /// Fallible conversion from a borrowed string view: runs the pattern
    /// and, on a match, binds every field from its named capture; fails with
    /// a no-match error when the pattern does not match, and with the
    /// binder's error when a field does not bind.
    pub fn try_from(&self, text: &str) -> (r: Result<Vec<FieldValue>, ParseError>)
        ensures
            match record_parse_spec(self.pattern(), self.field_list(), text@) {
                Ok(vals) => r matches Ok(vs) && values_view(vs@) == vals,
                Err(ev) => r matches Err(e) && e@ == ev,
            },
    {
        if !self.re.is_match(text) {
            return Err(ParseError::NoMatch);
        }
        bind_named_fields(&self.re, &self.fields, text)
    }

    /// Fallible conversion from an owned string: the same parse as
    /// `try_from`, offered only when the schema declares no borrows.
    pub fn from_owned_string(&self, text: String) -> (r: Result<Vec<FieldValue>, ParseError>)
        requires
            self.owned_entry(),
        ensures
            match record_parse_spec(self.pattern(), self.field_list(), text@) {
                Ok(vals) => r matches Ok(vs) && values_view(vs@) == vals,
                Err(ev) => r matches Err(e) && e@ == ev,
            },
    {
        self.try_from(text.as_str())
    }

    /// True when some input text matches the pattern associated with this
    /// record.
    pub fn is_match(&self, text: &str) -> (r: bool)
        ensures
            r == pattern_matches(self.pattern(), text@),
    {
        self.re.is_match(text)
    }
}

} // verus!
