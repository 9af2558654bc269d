//! The capture binder: given a matched pattern and an ordered field list, it
//! looks each field's named capture up and converts it to the field's target
//! type, stopping at the first field that fails.
use crate::engine::CompiledPattern;
use crate::engine::named_capture;
use crate::engine::pattern_matches;
use crate::schema::Field;
use crate::schema::FieldView;
use crate::schema::fields_view;
use crate::value::FieldValue;
use crate::value::FieldValueView;
use crate::value::ParseError;
use crate::value::ParseErrorView;
use crate::value::convert_spec;
use crate::value::convert_capture;
use crate::value::values_view;
use vstd::prelude::*;

verus! {

/// Why one field failed to bind: its capture group was absent from the
/// match, or the captured text did not convert. Carries the field's name.
pub enum BindFailure {
    Missing(Seq<char>),
    BadValue(Seq<char>),
}

/// What binding one field yields when `p` has matched `t`.
pub open spec fn field_outcome(p: Seq<char>, t: Seq<char>, f: FieldView) -> Result<
    FieldValueView,
    BindFailure,
> {
    match named_capture(p, t, f.name) {
        Some(c) => match convert_spec(c, f.ty) {
            Some(v) => Ok(v),
            None => Err(BindFailure::BadValue(f.name)),
        },
        None => Err(BindFailure::Missing(f.name)),
    }
}

/// What binding the fields from index `i` on yields: their values in field
/// order, or the failure of the leftmost field that does not bind.
pub open spec fn bind_from(p: Seq<char>, t: Seq<char>, fs: Seq<FieldView>, i: int) -> Result<
    Seq<FieldValueView>,
    BindFailure,
>
    decreases fs.len() - i,
{
    if i < 0 || i >= fs.len() {
        Ok(Seq::empty())
    } else {
        match field_outcome(p, t, fs[i]) {
            Err(e) => Err(e),
            Ok(v) => match bind_from(p, t, fs, i + 1) {
                Err(e) => Err(e),
                Ok(rest) => Ok(seq![v] + rest),
            },
        }
    }
}

/// What binding a whole field list yields.
pub open spec fn bind_fields_spec(p: Seq<char>, t: Seq<char>, fs: Seq<FieldView>) -> Result<
    Seq<FieldValueView>,
    BindFailure,
> {
    bind_from(p, t, fs, 0)
}

/// The values of the first `i` fields, all of which bind.
pub open spec fn bound_prefix(p: Seq<char>, t: Seq<char>, fs: Seq<FieldView>, i: int) -> Seq<
    FieldValueView,
> {
    Seq::new(i as nat, |j: int| field_outcome(p, t, fs[j])->Ok_0)
}

/// Binding a whole list whose first `i` fields bind is binding the rest and
/// putting the first `i` values in front.
pub proof fn lemma_bind_prefix(p: Seq<char>, t: Seq<char>, fs: Seq<FieldView>, i: int)
    requires
        0 <= i <= fs.len(),
        forall|j: int| 0 <= j < i ==> field_outcome(p, t, #[trigger] fs[j]) is Ok,
    ensures
        bind_from(p, t, fs, 0) == match bind_from(p, t, fs, i) {
            Err(e) => Err::<Seq<FieldValueView>, BindFailure>(e),
            Ok(rest) => Ok(bound_prefix(p, t, fs, i) + rest),
        },
    decreases i,
{
    if i == 0 {
        match bind_from(p, t, fs, 0) {
            Err(_) => {
            }
            Ok(rest) => {
                assert(bound_prefix(p, t, fs, 0) + rest =~= rest);
            }
        }
    } else {
        lemma_bind_prefix(p, t, fs, i - 1);
        let v = field_outcome(p, t, fs[i - 1])->Ok_0;
        match bind_from(p, t, fs, i) {
            Err(_) => {
            }
            Ok(rest) => {
                assert(bind_from(p, t, fs, i - 1) == Ok::<Seq<FieldValueView>, BindFailure>(
                    seq![v] + rest,
                ));
                assert(bound_prefix(p, t, fs, i - 1) + (seq![v] + rest) =~= bound_prefix(
                    p,
                    t,
                    fs,
                    i,
                ) + rest);
            }
        }
    }
}

proof fn lemma_bind_from_pointwise(
    p: Seq<char>,
    t: Seq<char>,
    fs: Seq<FieldView>,
    i: int,
    vals: Seq<FieldValueView>,
)
    requires
        0 <= i <= fs.len(),
        bind_from(p, t, fs, i) == Ok::<Seq<FieldValueView>, BindFailure>(vals),
    ensures
        vals.len() == fs.len() - i,
        forall|k: int|
            i <= k < fs.len() ==> field_outcome(p, t, #[trigger] fs[k]) == Ok::<
                FieldValueView,
                BindFailure,
            >(vals[k - i]),
    decreases fs.len() - i,
{
    if i < fs.len() {
        let rest = bind_from(p, t, fs, i + 1)->Ok_0;
        lemma_bind_from_pointwise(p, t, fs, i + 1, rest);
        let v = field_outcome(p, t, fs[i])->Ok_0;
        assert(vals == seq![v] + rest);
        assert(forall|k: int| i < k < fs.len() ==> #[trigger] vals[k - i] == rest[k - i - 1]);
    }
}

/// A record value is its captures, converted: when the pattern has matched
/// and binding succeeds, there is exactly one value per field, and each is
/// the typed conversion of that field's own named capture.
pub proof fn lemma_bound_values_pointwise(
    p: Seq<char>,
    t: Seq<char>,
    fs: Seq<FieldView>,
    vals: Seq<FieldValueView>,
)
    requires
        bind_fields_spec(p, t, fs) == Ok::<Seq<FieldValueView>, BindFailure>(vals),
    ensures
        vals.len() == fs.len(),
        forall|k: int|
            0 <= k < fs.len() ==> field_outcome(p, t, #[trigger] fs[k]) == Ok::<
                FieldValueView,
                BindFailure,
            >(vals[k]),
{
    lemma_bind_from_pointwise(p, t, fs, 0, vals);
}

/// Binds every field of `fields` against the captures of `pattern` on
/// `text`, in field order, stopping at the first field whose capture is
/// absent or fails to convert.
pub fn bind_named_fields(pattern: &CompiledPattern, fields: &Vec<Field>, text: &str) -> (r: Result<
    Vec<FieldValue>,
    ParseError,
>)
    requires
        pattern_matches(pattern.pattern(), text@),
    ensures
        match bind_fields_spec(pattern.pattern(), text@, fields_view(fields@)) {
            Ok(vals) => r matches Ok(vs) && values_view(vs@) == vals,
            Err(BindFailure::Missing(name)) => r matches Err(e) && e@
                == ParseErrorView::MissingCapture(name),
            Err(BindFailure::BadValue(name)) => r matches Err(e) && e@
                == ParseErrorView::FieldConversion(name),
        },
{
    let ghost p = pattern.pattern();
    let ghost fv = fields_view(fields@);
    let mut values: Vec<FieldValue> = Vec::new();
    let mut i: usize = 0;
    while i < fields.len()
        invariant
            pattern_matches(p, text@),
            p == pattern.pattern(),
            fv == fields_view(fields@),
            i <= fields.len(),
            fv.len() == fields.len(),
            values@.len() == i,
            forall|j: int| 0 <= j < i ==> field_outcome(p, text@, #[trigger] fv[j]) is Ok,
            forall|j: int|
                0 <= j < i ==> field_outcome(p, text@, fv[j])->Ok_0 == #[trigger] values@[j]@,
        decreases fields.len() - i,
    {
        assert(fv[i as int] == fields@[i as int]@);
        let f = &fields[i];
        match pattern.capture_named(text, f.name.as_str()) {
            None => {
                proof {
                    lemma_bind_prefix(p, text@, fv, i as int);
                    assert(field_outcome(p, text@, fv[i as int]) == Err::<
                        FieldValueView,
                        BindFailure,
                    >(BindFailure::Missing(f.name@)));
                }
                return Err(ParseError::MissingCapture(f.name.clone()));
            }
            Some(captured) => {
                match convert_capture(captured, f.ty) {
                    None => {
                        proof {
                            lemma_bind_prefix(p, text@, fv, i as int);
                            assert(field_outcome(p, text@, fv[i as int]) == Err::<
                                FieldValueView,
                                BindFailure,
                            >(BindFailure::BadValue(f.name@)));
                        }
                        return Err(ParseError::FieldConversion(f.name.clone()));
                    }
                    Some(v) => {
                        values.push(v);
                    }
                }
            }
        }
        i = i + 1;
    }
    proof {
        lemma_bind_prefix(p, text@, fv, fv.len() as int);
        assert(bind_from(p, text@, fv, fv.len() as int) == Ok::<Seq<FieldValueView>, BindFailure>(
            Seq::empty(),
        ));
        assert(bound_prefix(p, text@, fv, fv.len() as int) + Seq::empty() =~= bound_prefix(
            p,
            text@,
            fv,
            fv.len() as int,
        ));
        assert(values_view(values@) =~= bound_prefix(p, text@, fv, fv.len() as int));
    }
    Ok(values)
}

} // verus!
