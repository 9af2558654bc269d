//! The orchestrator: one generation pass over a schema. It extracts the
//! declared pattern(s), validates them — the pattern must compile, and for
//! a named-fields or single-value shape its named-capture count must equal
//! the field count — and only then assembles the parsing artifact. A pass
//! that fails produces no artifact at all.
use crate::engine::CompiledPattern;
use crate::engine::compile_error_text;
use crate::engine::group_names;
use crate::engine::named_count;
use crate::engine::pattern_ok;
use crate::extract::extract_regex_from_recap_attribute;
use crate::extract::extract_union_patterns;
use crate::extract::extracted_pattern;
use crate::extract::first_missing_from;
use crate::record::RecordParser;
use crate::schema::RecordFields;
use crate::schema::RecordFieldsView;
use crate::schema::Schema;
use crate::schema::SchemaKind;
use crate::schema::SchemaKindView;
use crate::schema::SchemaView;
use crate::schema::Shape;
use crate::schema::ShapeView;
use crate::schema::Variant;
use crate::schema::VariantView;
use crate::schema::variants_view;
use crate::tagged::CompiledVariant;
use crate::tagged::CompiledVariantView;
use crate::tagged::UnionParser;
use crate::tagged::compiled_variants_view;
use vstd::prelude::*;

verus! {

/// Why a generation pass rejected a schema. Every rejection is
/// irrecoverable: the pass ends with this error and no artifact.
#[derive(Debug, Clone)]
pub enum SchemaError {
    /// A record schema declares no pattern: its metadata must carry one in
    /// the form `recap(regex = "<pattern>")`.
    MissingPattern,
    /// A union variant declares no pattern; carries the variant's name.
    MissingVariantPattern(String),
    /// A declared pattern the engine refuses; carries the schema's name and
    /// the engine's description of the fault.
    InvalidPattern(String, String),
    /// The record's fields are not the named shape.
    UnsupportedShape,
    /// A pattern's named-capture count does not equal its shape's field
    /// count; carries the schema's name, the count expected and the count
    /// found.
    CaptureCountMismatch(String, usize, usize),
}

/// The view of a rejection. The engine's description of an invalid pattern
/// is free text and is not modelled.
pub enum SchemaErrorView {
    MissingPattern,
    MissingVariantPattern(Seq<char>),
    InvalidPattern(Seq<char>),
    UnsupportedShape,
    CaptureCountMismatch(Seq<char>, int, int),
}

impl View for SchemaError {
    type V = SchemaErrorView;

    open spec fn view(&self) -> SchemaErrorView {
        match self {
            SchemaError::MissingPattern => SchemaErrorView::MissingPattern,
            SchemaError::MissingVariantPattern(v) => SchemaErrorView::MissingVariantPattern(v@),
            SchemaError::InvalidPattern(s, _) => SchemaErrorView::InvalidPattern(s@),
            SchemaError::UnsupportedShape => SchemaErrorView::UnsupportedShape,
            SchemaError::CaptureCountMismatch(s, expected, found) => {
                SchemaErrorView::CaptureCountMismatch(s@, *expected as int, *found as int)
            }
        }
    }
}

/// The pattern a variant declares in its own metadata.
pub open spec fn variant_pattern(v: VariantView) -> Option<Seq<char>> {
    extracted_pattern(v.attrs)
}

/// The named-capture count a shape requires of its pattern: one per field,
/// one for a single value; a unit shape requires none.
pub open spec fn shape_field_count(sh: ShapeView) -> Option<int> {
    match sh {
        ShapeView::NamedFields(fs) => Some(fs.len() as int),
        ShapeView::SingleValue(_) => Some(1),
        ShapeView::Unit => None,
    }
}

/// How validating a union's variants ends.
pub enum UnionCheck {
    /// Every variant's pattern compiles and aligns with its shape.
    Accepted,
    /// The variant at this index declares a pattern the engine refuses.
    BadPattern(int),
    /// The variant at this index has a capture-count/field-count mismatch:
    /// the index, the count expected and the count found.
    Mismatch(int, int, int),
}

/// The first violation among the variants from `i` on, each variant checked
/// in declaration order; meaningful once every variant declares a pattern.
pub open spec fn union_check_from(vs: Seq<VariantView>, i: int) -> UnionCheck
    decreases vs.len() - i,
{
    if i < 0 || i >= vs.len() {
        UnionCheck::Accepted
    } else {
        let p = variant_pattern(vs[i])->Some_0;
        if !pattern_ok(p) {
            UnionCheck::BadPattern(i)
        } else {
            match shape_field_count(vs[i].shape) {
                Some(expected) => {
                    let found = named_count(group_names(p)) as int;
                    if found != expected {
                        UnionCheck::Mismatch(i, expected, found)
                    } else {
                        union_check_from(vs, i + 1)
                    }
                }
                None => union_check_from(vs, i + 1),
            }
        }
    }
}

/// The parsing capability a successful pass attaches to a schema.
pub enum Artifact {
    Record(RecordParser),
    Union(UnionParser),
}

/// Whether the compiled variants carry exactly the declared variants'
/// names, shapes and patterns, in declaration order.
pub open spec fn union_variants_agree(vs: Seq<VariantView>, cs: Seq<CompiledVariantView>) -> bool {
    &&& cs.len() == vs.len()
    &&& forall|k: int|
        0 <= k < vs.len() ==> {
            &&& (#[trigger] cs[k]).name == vs[k].name
            &&& cs[k].shape == vs[k].shape
            &&& Some(cs[k].pattern) == variant_pattern(vs[k])
        }
}

/// What one generation pass yields on a schema: the exact rejection the
/// first violation dictates, or an artifact that carries the schema's
/// validated patterns, fields and shapes.
pub open spec fn compile_outcome_matches(s: SchemaView, r: Result<Artifact, SchemaError>) -> bool {
    match s.kind {
        SchemaKindView::Record(rf) => match extracted_pattern(s.attrs) {
            None => r matches Err(e) && e@ == SchemaErrorView::MissingPattern,
            Some(p) => if !pattern_ok(p) {
                r matches Err(e) && e@ == SchemaErrorView::InvalidPattern(s.name)
            } else {
                match rf {
                    RecordFieldsView::Named(fs) => {
                        let found = named_count(group_names(p)) as int;
                        if found != fs.len() {
                            r matches Err(e) && e@ == SchemaErrorView::CaptureCountMismatch(
                                s.name,
                                fs.len() as int,
                                found,
                            )
                        } else {
                            r matches Ok(a) && a matches Artifact::Record(rp) && rp.pattern() == p
                                && rp.field_list() == fs && rp.owned_entry() == !s.borrows
                        }
                    }
                    RecordFieldsView::Positional(_) => r matches Err(e) && e@
                        == SchemaErrorView::UnsupportedShape,
                    RecordFieldsView::Unit => r matches Err(e) && e@
                        == SchemaErrorView::UnsupportedShape,
                }
            },
        },
        SchemaKindView::Union(vs) => match first_missing_from(vs, 0) {
            Some(ix) => r matches Err(e) && e@ == SchemaErrorView::MissingVariantPattern(
                vs[ix].name,
            ),
            None => match union_check_from(vs, 0) {
                UnionCheck::BadPattern(_) => r matches Err(e) && e@
                    == SchemaErrorView::InvalidPattern(s.name),
                UnionCheck::Mismatch(_, expected, found) => r matches Err(e) && e@
                    == SchemaErrorView::CaptureCountMismatch(s.name, expected, found),
                UnionCheck::Accepted => r matches Ok(a) && a matches Artifact::Union(u)
                    && u.owned_entry() == !s.borrows && union_variants_agree(
                    vs,
                    u.variant_list(),
                ),
            },
        },
    }
}

/// Drives one pass — extraction, validation, assembly — and yields the
/// schema's parsing artifact, or the first violation's error and no
/// artifact.
pub fn compile_schema(schema: Schema) -> (r: Result<Artifact, SchemaError>)
    ensures
        compile_outcome_matches(schema@, r),
{
    let Schema { name, attrs, kind, borrows } = schema;
    match kind {
        SchemaKind::Record(rf) => {
            match extract_regex_from_recap_attribute(&attrs) {
                None => Err(SchemaError::MissingPattern),
                Some(pattern) => {
                    match CompiledPattern::compile(pattern.as_str()) {
                        Err(e) => {
                            let detail = compile_error_text(&e);
                            Err(SchemaError::InvalidPattern(name, detail))
                        }
                        Ok(cp) => {
                            match rf {
                                RecordFields::Named(fields) => {
                                    let found = cp.named_group_count();
                                    if found != fields.len() {
                                        Err(
                                            SchemaError::CaptureCountMismatch(
                                                name,
                                                fields.len(),
                                                found,
                                            ),
                                        )
                                    } else {
                                        Ok(
                                            Artifact::Record(
                                                RecordParser::assemble(cp, fields, !borrows),
                                            ),
                                        )
                                    }
                                }
                                RecordFields::Positional(_) => Err(SchemaError::UnsupportedShape),
                                RecordFields::Unit => Err(SchemaError::UnsupportedShape),
                            }
                        }
                    }
                }
            }
        }
        SchemaKind::Union(variants) => {
            let ghost vsv = variants_view(variants@);
            let patterns = match extract_union_patterns(&variants) {
                Err(ix) => {
                    assert(vsv[ix as int] == variants@[ix as int]@);
                    return Err(SchemaError::MissingVariantPattern(variants[ix].name.clone()));
                },
                Ok(ps) => ps,
            };
            let ghost all_pats = patterns@;
            let mut work = variants;
            let mut pats = patterns;
            let mut compiled: Vec<CompiledVariant> = Vec::new();
            let mut k: usize = 0;
            let ghost allv = work@;
            let n = work.len();
            assert(allv.len() == n);
            assert(allv.skip(0) =~= allv);
            while work.len() > 0
                invariant
                    schema@.kind == SchemaKindView::Union(vsv),
                    schema@.name == name@,
                    schema@.borrows == borrows,
                    vsv == variants_view(allv),
                    vsv.len() == allv.len(),
                    allv.len() <= usize::MAX,
                    all_pats.len() == vsv.len(),
                    first_missing_from(vsv, 0) is None,
                    forall|j: int|
                        0 <= j < vsv.len() ==> extracted_pattern(vsv[j].attrs) == Some(
                            #[trigger] all_pats[j]@,
                        ),
                    k <= vsv.len(),
                    work@ == allv.skip(k as int),
                    pats@ == all_pats.skip(k as int),
                    compiled@.len() == k,
                    forall|j: int|
                        0 <= j < k ==> {
                            &&& (#[trigger] compiled@[j])@.name == vsv[j].name
                            &&& compiled@[j]@.shape == vsv[j].shape
                            &&& Some(compiled@[j]@.pattern) == variant_pattern(vsv[j])
                        },
                    union_check_from(vsv, 0) == union_check_from(vsv, k as int),
                decreases work.len(),
            {
                let ghost kk = k as int;
                assert(allv.skip(kk).len() == allv.len() - kk);
                assert(kk < allv.len());
                assert(work@[0] == allv[kk]);
                assert(pats@[0] == all_pats[kk]);
                assert(vsv[kk] == allv[kk]@);
                let v = work.remove(0);
                let pstr = pats.remove(0);
                proof {
                    assert(allv.skip(kk).remove(0) =~= allv.skip(kk + 1));
                    assert(all_pats.skip(kk).remove(0) =~= all_pats.skip(kk + 1));
                }
                match CompiledPattern::compile(pstr.as_str()) {
                    Err(e) => {
                        proof {
                            assert(variant_pattern(vsv[kk])->Some_0 == pstr@);
                            assert(union_check_from(vsv, kk) == UnionCheck::BadPattern(kk));
                        }
                        let detail = compile_error_text(&e);
                        return Err(SchemaError::InvalidPattern(name, detail));
                    }
                    Ok(cp) => {
                        let expected_opt: Option<usize> = match &v.shape {
                            Shape::NamedFields(fs) => Some(fs.len()),
                            Shape::SingleValue(_) => Some(1),
                            Shape::Unit => None,
                        };
                        proof {
                            assert(variant_pattern(vsv[kk])->Some_0 == pstr@);
                            assert(v@ == vsv[kk]);
                        }
                        match expected_opt {
                            Some(expected) => {
                                let found = cp.named_group_count();
                                if found != expected {
                                    proof {
                                        assert(shape_field_count(vsv[kk].shape) == Some(
                                            expected as int,
                                        ));
                                        assert(union_check_from(vsv, kk) == UnionCheck::Mismatch(
                                            kk,
                                            expected as int,
                                            found as int,
                                        ));
                                    }
                                    return Err(
                                        SchemaError::CaptureCountMismatch(name, expected, found),
                                    );
                                }
                            }
                            None => {
                            }
                        }
                        let Variant { name: vname, attrs: _, shape } = v;
                        compiled.push(CompiledVariant::assemble(vname, shape, cp));
                    }
                }
                k = k + 1;
            }
            proof {
                assert(k == vsv.len());
                assert(union_check_from(vsv, k as int) == UnionCheck::Accepted);
            }
            Ok(Artifact::Union(UnionParser::assemble(compiled, !borrows)))
        }
    }
}

} // verus!
