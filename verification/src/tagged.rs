//! The parsing surface generated for a tagged-union schema: one compiled
//! pattern per variant, tried in declaration order. A variant yields a value
//! by its shape's rule; a named-fields variant whose pattern matches but
//! whose fields do not bind ends the whole parse with the binder's error,
//! while a single-value variant whose capture does not convert is passed
//! over in favour of later variants.
use crate::bind::BindFailure;
use crate::bind::bind_fields_spec;
use crate::bind::bind_named_fields;
use crate::engine::CompiledPattern;
use crate::engine::pattern_matches;
use crate::engine::positional_capture;
use crate::schema::Field;
use crate::schema::FieldType;
use crate::schema::Shape;
use crate::schema::ShapeView;
use crate::value::FieldValue;
use crate::value::FieldValueView;
use crate::value::ParseError;
use crate::value::ParseErrorView;
use crate::value::convert_capture;
use crate::value::convert_spec;
use crate::value::values_view;
use vstd::prelude::*;

verus! {

/// One variant of the compiled union: its name, its shape, and its own
/// compiled pattern.
pub struct CompiledVariant {
    name: String,
    shape: Shape,
    re: CompiledPattern,
}

pub struct CompiledVariantView {
    pub name: Seq<char>,
    pub shape: ShapeView,
    pub pattern: Seq<char>,
}

impl View for CompiledVariant {
    type V = CompiledVariantView;

    closed spec fn view(&self) -> CompiledVariantView {
        CompiledVariantView { name: self.name@, shape: self.shape@, pattern: self.re.pattern() }
    }
}

impl CompiledVariant {
    /// Assembles one variant from its already compiled pattern.
    pub(crate) fn assemble(name: String, shape: Shape, re: CompiledPattern) -> (r: CompiledVariant)
        ensures
            r@.name == name@,
            r@.shape == shape@,
            r@.pattern == re.pattern(),
    {
        CompiledVariant { name, shape, re }
    }
}

pub open spec fn compiled_variants_view(vs: Seq<CompiledVariant>) -> Seq<CompiledVariantView> {
    vs.map_values(|v: CompiledVariant| v@)
}

/// The payload a successful union parse carries, by the variant's shape.
#[derive(Debug, Clone)]
pub enum UnionPayload {
    NamedFields(Vec<FieldValue>),
    SingleValue(FieldValue),
    Unit,
}

pub enum PayloadView {
    NamedFields(Seq<FieldValueView>),
    SingleValue(FieldValueView),
    Unit,
}

impl View for UnionPayload {
    type V = PayloadView;

    open spec fn view(&self) -> PayloadView {
        match self {
            UnionPayload::NamedFields(vs) => PayloadView::NamedFields(values_view(vs@)),
            UnionPayload::SingleValue(v) => PayloadView::SingleValue(v@),
            UnionPayload::Unit => PayloadView::Unit,
        }
    }
}

/// A parsed union value: which variant was produced, by declaration index,
/// and its payload.
#[derive(Debug, Clone)]
pub struct UnionValue {
    pub variant: usize,
    pub payload: UnionPayload,
}

/// What a single-value variant's capture converts to: positional group 1 of
/// the match, read at the variant's target type.
pub open spec fn single_conversion(p: Seq<char>, t: Seq<char>, ty: FieldType) -> Option<
    FieldValueView,
> {
    match positional_capture(p, t, 1) {
        Some(c) => convert_spec(c, ty),
        None => None,
    }
}

/// How the ordered trial of a union's variants ends.
pub enum UnionOutcome {
    /// The variant at this index produced this payload.
    Value(int, PayloadView),
    /// The named-fields variant at this index matched but did not bind:
    /// the whole parse ends with its failure.
    Fatal(int, BindFailure),
    /// No variant produced a value.
    NoMatch,
}

/// The ordered trial from variant `i` on: the first variant whose pattern
/// matches and whose shape's rule yields a value wins; a named-fields
/// variant that matches but does not bind ends the trial with its failure;
/// every other variant is passed over.
pub open spec fn union_from(vs: Seq<CompiledVariantView>, t: Seq<char>, i: int) -> UnionOutcome
    decreases vs.len() - i,
{
    if i < 0 || i >= vs.len() {
        UnionOutcome::NoMatch
    } else {
        let v = vs[i];
        match v.shape {
            ShapeView::NamedFields(fs) => {
                if pattern_matches(v.pattern, t) {
                    match bind_fields_spec(v.pattern, t, fs) {
                        Ok(vals) => UnionOutcome::Value(i, PayloadView::NamedFields(vals)),
                        Err(e) => UnionOutcome::Fatal(i, e),
                    }
                } else {
                    union_from(vs, t, i + 1)
                }
            }
            ShapeView::SingleValue(ty) => {
                if !pattern_matches(v.pattern, t) {
                    union_from(vs, t, i + 1)
                } else {
                    match single_conversion(v.pattern, t, ty) {
                        Some(val) => UnionOutcome::Value(i, PayloadView::SingleValue(val)),
                        None => union_from(vs, t, i + 1),
                    }
                }
            }
            ShapeView::Unit => {
                if pattern_matches(v.pattern, t) {
                    UnionOutcome::Value(i, PayloadView::Unit)
                } else {
                    union_from(vs, t, i + 1)
                }
            }
        }
    }
}

/// Whether some variant's pattern matches the text, regardless of order.
pub open spec fn any_variant_matches(vs: Seq<CompiledVariantView>, t: Seq<char>) -> bool {
    exists|j: int| 0 <= j < vs.len() && pattern_matches(#[trigger] vs[j].pattern, t)
}

/// The parsing capability emitted for a validated union schema.
pub struct UnionParser {
    variants: Vec<CompiledVariant>,
    owned: bool,
}

impl UnionParser {
    /// The compiled variants in declaration order.
    pub closed spec fn variant_list(self) -> Seq<CompiledVariantView> {
        compiled_variants_view(self.variants@)
    }

    /// Whether conversion from an owned string is part of this union's
    /// surface; it is omitted for a schema that borrows from its input.
    pub closed spec fn owned_entry(self) -> bool {
        self.owned
    }

    /// Assembles the artifact from already compiled and validated variants.
    pub(crate) fn assemble(variants: Vec<CompiledVariant>, owned: bool) -> (r: UnionParser)
        ensures
            r.variant_list() == compiled_variants_view(variants@),
            r.owned_entry() == owned,
    {
        UnionParser { variants, owned }
    }

    /// Fallible conversion from a borrowed string view: tries each variant
    /// in declaration order as `union_from` says, and fails with a no-match
    /// error when no variant produces a value.
    pub fn try_from(&self, text: &str) -> (r: Result<UnionValue, ParseError>)
        ensures
            match union_from(self.variant_list(), text@, 0) {
                UnionOutcome::Value(i, pv) => r matches Ok(u) && u.variant == i && u.payload@
                    == pv,
                UnionOutcome::Fatal(i, BindFailure::Missing(name)) => r matches Err(e) && e@
                    == ParseErrorView::MissingCapture(name),
                UnionOutcome::Fatal(i, BindFailure::BadValue(name)) => r matches Err(e) && e@
                    == ParseErrorView::FieldConversion(name),
                UnionOutcome::NoMatch => r matches Err(e) && e@ == ParseErrorView::NoMatch,
            },
    {
        let ghost vs = self.variant_list();
        let mut i: usize = 0;
        while i < self.variants.len()
            invariant
                vs == self.variant_list(),
                vs.len() == self.variants.len(),
                i <= self.variants.len(),
                union_from(vs, text@, 0) == union_from(vs, text@, i as int),
            decreases self.variants.len() - i,
        {
            assert(vs[i as int] == self.variants@[i as int]@);
            let v = &self.variants[i];
            match &v.shape {
                Shape::NamedFields(fields) => {
                    if v.re.is_match(text) {
                        match bind_named_fields(&v.re, fields, text) {
                            Ok(vals) => {
                                return Ok(
                                    UnionValue {
                                        variant: i,
                                        payload: UnionPayload::NamedFields(vals),
                                    },
                                );
                            }
                            Err(e) => {
                                return Err(e);
                            }
                        }
                    }
                }
                Shape::SingleValue(ty) => {
                    match v.re.capture_index(text, 1) {
                        Some(captured) => {
                            match convert_capture(captured, *ty) {
                                Some(val) => {
                                    return Ok(
                                        UnionValue {
                                            variant: i,
                                            payload: UnionPayload::SingleValue(val),
                                        },
                                    );
                                }
                                None => {
                                }
                            }
                        }
                        None => {
                        }
                    }
                }
                Shape::Unit => {
                    if v.re.is_match(text) {
                        return Ok(UnionValue { variant: i, payload: UnionPayload::Unit });
                    }
                }
            }
            i = i + 1;
        }
        Err(ParseError::NoMatch)
    }

    /// Fallible conversion from an owned string: the same parse as
    /// `try_from`, offered only when the schema declares no borrows.
    pub fn from_owned_string(&self, text: String) -> (r: Result<UnionValue, ParseError>)
        requires
            self.owned_entry(),
        ensures
            match union_from(self.variant_list(), text@, 0) {
                UnionOutcome::Value(i, pv) => r matches Ok(u) && u.variant == i && u.payload@
                    == pv,
                UnionOutcome::Fatal(i, BindFailure::Missing(name)) => r matches Err(e) && e@
                    == ParseErrorView::MissingCapture(name),
                UnionOutcome::Fatal(i, BindFailure::BadValue(name)) => r matches Err(e) && e@
                    == ParseErrorView::FieldConversion(name),
                UnionOutcome::NoMatch => r matches Err(e) && e@ == ParseErrorView::NoMatch,
            },
    {
        self.try_from(text.as_str())
    }

    /// The declared name of the variant at `index`, counting in
    /// declaration order, as a parsed value's `variant` field does.
    pub fn variant_name(&self, index: usize) -> (r: Option<&String>)
        ensures
            index < self.variant_list().len() ==> (r matches Some(n) && n@
                == self.variant_list()[index as int].name),
            index >= self.variant_list().len() ==> r is None,
    {
        if index < self.variants.len() {
            assert(self.variant_list()[index as int] == self.variants@[index as int]@);
            Some(&self.variants[index].name)
        } else {
            None
        }
    }

    /// True when at least one variant's pattern matches the input,
    /// whichever variant that is.
    pub fn is_match(&self, text: &str) -> (r: bool)
        ensures
            r == any_variant_matches(self.variant_list(), text@),
    {
        let ghost vs = self.variant_list();
        let mut i: usize = 0;
        while i < self.variants.len()
            invariant
                vs == self.variant_list(),
                vs.len() == self.variants.len(),
                i <= self.variants.len(),
                forall|j: int| 0 <= j < i ==> !pattern_matches(#[trigger] vs[j].pattern, text@),
            decreases self.variants.len() - i,
        {
            assert(vs[i as int] == self.variants@[i as int]@);
            if self.variants[i].re.is_match(text) {
                assert(pattern_matches(vs[i as int].pattern, text@));
                return true;
            }
            i = i + 1;
        }
        false
    }
}

/// Whether a variant's trial succeeds on `t` under its shape's rule: its
/// pattern matches, and — for a named-fields variant — every field binds,
/// or — for a single-value variant — group 1 converts.
pub open spec fn variant_accepts(v: CompiledVariantView, t: Seq<char>) -> bool {
    match v.shape {
        ShapeView::NamedFields(fs) => pattern_matches(v.pattern, t) && bind_fields_spec(
            v.pattern,
            t,
            fs,
        ) is Ok,
        ShapeView::SingleValue(ty) => pattern_matches(v.pattern, t) && single_conversion(
            v.pattern,
            t,
            ty,
        ) is Some,
        ShapeView::Unit => pattern_matches(v.pattern, t),
    }
}

proof fn lemma_union_from_wins(
    vs: Seq<CompiledVariantView>,
    t: Seq<char>,
    k: int,
    i: int,
    pv: PayloadView,
)
    requires
        0 <= k,
        union_from(vs, t, k) == UnionOutcome::Value(i, pv),
    ensures
        k <= i < vs.len(),
        variant_accepts(vs[i], t),
        forall|j: int| k <= j < i ==> !variant_accepts(#[trigger] vs[j], t),
    decreases vs.len() - k,
{
    if k < vs.len() {
        let v = vs[k];
        match v.shape {
            ShapeView::NamedFields(fs) => {
                if !pattern_matches(v.pattern, t) {
                    lemma_union_from_wins(vs, t, k + 1, i, pv);
                }
            }
            ShapeView::SingleValue(ty) => {
                if !(pattern_matches(v.pattern, t) && single_conversion(v.pattern, t, ty)
                    is Some) {
                    lemma_union_from_wins(vs, t, k + 1, i, pv);
                }
            }
            ShapeView::Unit => {
                if !pattern_matches(v.pattern, t) {
                    lemma_union_from_wins(vs, t, k + 1, i, pv);
                }
            }
        }
    }
}

/// Declaration order is trial order: a parse that ends in a value produced
/// it from the first declared variant whose pattern matches and whose
/// conversions succeed under its shape's rule; every earlier variant fails
/// that rule, however many later variants would also have matched.
pub proof fn lemma_first_declared_variant_wins(
    vs: Seq<CompiledVariantView>,
    t: Seq<char>,
    i: int,
    pv: PayloadView,
)
    requires
        union_from(vs, t, 0) == UnionOutcome::Value(i, pv),
    ensures
        0 <= i < vs.len(),
        variant_accepts(vs[i], t),
        forall|j: int| 0 <= j < i ==> !variant_accepts(#[trigger] vs[j], t),
{
    lemma_union_from_wins(vs, t, 0, i, pv);
}

/// The match predicate answers membership only: whether some variant's
/// pattern matches does not depend on the order the variants are declared
/// in.
pub proof fn lemma_match_order_independent(
    a: Seq<CompiledVariantView>,
    b: Seq<CompiledVariantView>,
    t: Seq<char>,
)
    requires
        a.to_multiset() == b.to_multiset(),
    ensures
        any_variant_matches(a, t) == any_variant_matches(b, t),
{
    broadcast use vstd::seq_lib::group_to_multiset_ensures;

    if any_variant_matches(a, t) {
        let j = choose|j: int| 0 <= j < a.len() && pattern_matches(#[trigger] a[j].pattern, t);
        assert(a.contains(a[j]));
        assert(b.to_multiset().count(a[j]) > 0);
        assert(b.contains(a[j]));
        let k = choose|k: int| 0 <= k < b.len() && b[k] == a[j];
        assert(pattern_matches(b[k].pattern, t));
    }
    if any_variant_matches(b, t) {
        let j = choose|j: int| 0 <= j < b.len() && pattern_matches(#[trigger] b[j].pattern, t);
        assert(b.contains(b[j]));
        assert(a.to_multiset().count(b[j]) > 0);
        assert(a.contains(b[j]));
        let k = choose|k: int| 0 <= k < a.len() && a[k] == b[j];
        assert(pattern_matches(a[k].pattern, t));
    }
}

} // verus!
