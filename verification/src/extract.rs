//! The attribute extractor: pulls the declared pattern string out of a
//! schema's or a variant's raw attribute metadata. The pattern is the value
//! of the first `regex = ...` argument found inside an attribute list named
//! `recap`, scanning lists and their arguments in declaration order; if that
//! first `regex` argument carries anything but a string literal, extraction
//! yields nothing.
use crate::schema::AttrList;
use crate::schema::AttrListView;
use crate::schema::MetaItem;
use crate::schema::MetaItemView;
use crate::schema::MetaValue;
use crate::schema::MetaValueView;
use crate::schema::Variant;
use crate::schema::attrs_view;
use crate::schema::variants_view;
use vstd::prelude::*;

verus! {

/// Relies on str's `==`: character-for-character equality of the two
/// strings.
#[verifier::external_body]
fn str_eq(a: &str, b: &str) -> (r: bool)
    ensures
        r == (a@ == b@),
{
    a == b
}

/// The first `regex`-keyed argument among `items` from index `j` on.
pub open spec fn regex_item_from(items: Seq<MetaItemView>, j: int) -> Option<MetaValueView>
    decreases items.len() - j,
{
    if j < 0 || j >= items.len() {
        None
    } else {
        match items[j] {
            MetaItemView::NameValue { key, value } => if key == "regex"@ {
                Some(value)
            } else {
                regex_item_from(items, j + 1)
            },
            MetaItemView::Other => regex_item_from(items, j + 1),
        }
    }
}

/// The first `regex`-keyed argument inside any `recap` list from index `i`
/// on, lists scanned in order.
pub open spec fn regex_value_from(attrs: Seq<AttrListView>, i: int) -> Option<MetaValueView>
    decreases attrs.len() - i,
{
    if i < 0 || i >= attrs.len() {
        None
    } else {
        let head = if attrs[i].name == "recap"@ {
            regex_item_from(attrs[i].items, 0)
        } else {
            None
        };
        match head {
            Some(v) => Some(v),
            None => regex_value_from(attrs, i + 1),
        }
    }
}

/// The pattern string the metadata declares, when the first `regex`
/// argument of a `recap` list carries a string literal.
pub open spec fn extracted_pattern(attrs: Seq<AttrListView>) -> Option<Seq<char>> {
    match regex_value_from(attrs, 0) {
        Some(MetaValueView::Str(s)) => Some(s),
        Some(MetaValueView::Other) => None,
        None => None,
    }
}

/// Finds the declared pattern inside `attrs`, exactly as
/// `extracted_pattern` says.
pub fn extract_regex_from_recap_attribute(attrs: &Vec<AttrList>) -> (r: Option<String>)
    ensures
        r.deep_view() == extracted_pattern(attrs_view(attrs@)),
{
    let ghost av = attrs_view(attrs@);
    let mut i: usize = 0;
    while i < attrs.len()
        invariant
            av == attrs_view(attrs@),
            av.len() == attrs.len(),
            i <= attrs.len(),
            regex_value_from(av, 0) == regex_value_from(av, i as int),
        decreases attrs.len() - i,
    {
        assert(av[i as int] == attrs@[i as int]@);
        let list = &attrs[i];
        if str_eq(list.name.as_str(), "recap") {
            let ghost items = av[i as int].items;
            let mut j: usize = 0;
            while j < list.items.len()
                invariant
                    av == attrs_view(attrs@),
                    av.len() == attrs.len(),
                    0 <= i < attrs.len(),
                    av[i as int] == attrs@[i as int]@,
                    list == attrs@[i as int],
                    av[i as int].name == "recap"@,
                    items == av[i as int].items,
                    items.len() == list.items.len(),
                    j <= list.items.len(),
                    regex_item_from(items, 0) == regex_item_from(items, j as int),
                    regex_value_from(av, 0) == regex_value_from(av, i as int),
                decreases list.items.len() - j,
            {
                assert(items[j as int] == list.items@[j as int]@);
                match &list.items[j] {
                    MetaItem::NameValue { key, value } => {
                        if str_eq(key.as_str(), "regex") {
                            proof {
                                assert(regex_item_from(items, j as int) == Some(value@));
                                assert(regex_value_from(av, i as int) == Some(value@));
                            }
                            match value {
                                MetaValue::Str(s) => {
                                    return Some(s.clone());
                                }
                                MetaValue::Other => {
                                    return None;
                                }
                            }
                        }
                    }
                    MetaItem::Other => {
                    }
                }
                j = j + 1;
            }
            proof {
                assert(regex_item_from(items, list.items@.len() as int) is None);
                assert(regex_value_from(av, i as int) == regex_value_from(av, i + 1));
            }
        } else {
            assert(regex_value_from(av, i as int) == regex_value_from(av, i + 1));
        }
        i = i + 1;
    }
    None
}

/// The index of the first variant from `i` on that declares no pattern.
pub open spec fn first_missing_from(vs: Seq<crate::schema::VariantView>, i: int) -> Option<int>
    decreases vs.len() - i,
{
    if i < 0 || i >= vs.len() {
        None
    } else if extracted_pattern(vs[i].attrs) is None {
        Some(i)
    } else {
        first_missing_from(vs, i + 1)
    }
}

/// Extracts each variant's declared pattern, in declaration order; fails
/// with the index of the first variant that declares none.
pub fn extract_union_patterns(variants: &Vec<Variant>) -> (r: Result<Vec<String>, usize>)
    ensures
        match r {
            Ok(ps) => {
                &&& first_missing_from(variants_view(variants@), 0) is None
                &&& ps@.len() == variants@.len()
                &&& forall|k: int|
                    0 <= k < variants@.len() ==> extracted_pattern(
                        variants_view(variants@)[k].attrs,
                    ) == Some(#[trigger] ps@[k]@)
            },
            Err(ix) => {
                &&& first_missing_from(variants_view(variants@), 0) == Some(ix as int)
                &&& ix < variants@.len()
                &&& extracted_pattern(variants_view(variants@)[ix as int].attrs) is None
            },
        },
{
    let ghost vsv = variants_view(variants@);
    let mut out: Vec<String> = Vec::new();
    let mut k: usize = 0;
    while k < variants.len()
        invariant
            vsv == variants_view(variants@),
            vsv.len() == variants.len(),
            k <= variants.len(),
            out@.len() == k,
            first_missing_from(vsv, 0) == first_missing_from(vsv, k as int),
            forall|j: int|
                0 <= j < k ==> extracted_pattern(vsv[j].attrs) == Some(#[trigger] out@[j]@),
        decreases variants.len() - k,
    {
        assert(vsv[k as int] == variants@[k as int]@);
        match extract_regex_from_recap_attribute(&variants[k].attrs) {
            Some(p) => {
                out.push(p);
            }
            None => {
                assert(first_missing_from(vsv, k as int) == Some(k as int));
                return Err(k);
            }
        }
        k = k + 1;
    }
    Ok(out)
}

} // verus!
