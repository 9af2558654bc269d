//! The pattern engine boundary: every call into the `regex` crate is made
//! here, behind contracts over a small family of names for what the engine
//! returns. A `CompiledPattern` is built exactly once per pattern and shared
//! by every later match or capture lookup.
use vstd::prelude::*;

verus! {

/// Whether the engine accepts a pattern: `regex::Regex::new` returns `Ok`.
pub uninterp spec fn pattern_ok(p: Seq<char>) -> bool;

/// Whether a pattern matches anywhere in a text.
pub uninterp spec fn pattern_matches(p: Seq<char>, text: Seq<char>) -> bool;

/// The text captured by the named group `name` when `p` is run on `text`:
/// `None` when the group is absent from the pattern or did not participate
/// in the match.
pub uninterp spec fn named_capture(p: Seq<char>, text: Seq<char>, name: Seq<char>) -> Option<
    Seq<char>,
>;

/// The text captured by the positional group `index` when `p` is run on
/// `text`: `None` when there is no such group or it did not participate.
pub uninterp spec fn positional_capture(p: Seq<char>, text: Seq<char>, index: int) -> Option<
    Seq<char>,
>;

/// The names of a pattern's capture groups in index order, `None` standing
/// for an unnamed group; the implicit whole-match group comes first.
pub uninterp spec fn group_names(p: Seq<char>) -> Seq<Option<Seq<char>>>;

#[verifier::external_type_specification]
#[verifier::external_body]
pub struct ExRegex(regex::Regex);

#[verifier::external_type_specification]
#[verifier::external_body]
pub struct ExRegexError(regex::Error);

/// A pattern the engine has accepted, together with the source text it was
/// compiled from.
pub struct CompiledPattern {
    regex: regex::Regex,
    source: String,
}

impl CompiledPattern {
    /// The pattern text this value was compiled from.
    pub closed spec fn pattern(self) -> Seq<char> {
        self.source@
    }

    /// Relies on `regex::Regex::new`: it returns `Ok` exactly when the
    /// pattern is a valid expression that compiles within the engine's
    /// default size limit.
    #[verifier::external_body]
    pub(crate) fn compile(pattern: &str) -> (r: Result<CompiledPattern, regex::Error>)
        ensures
            r is Ok <==> pattern_ok(pattern@),
            r matches Ok(c) ==> c.pattern() == pattern@,
    {
        match regex::Regex::new(pattern) {
            Ok(re) => Ok(CompiledPattern { regex: re, source: pattern.to_string() }),
            Err(e) => Err(e),
        }
    }

    /// Relies on `regex::Regex::is_match`: true if and only if there is a
    /// match for the pattern anywhere in the text.
    #[verifier::external_body]
    pub(crate) fn is_match(&self, text: &str) -> (r: bool)
        ensures
            r == pattern_matches(self.pattern(), text@),
    {
        self.regex.is_match(text)
    }

    /// Relies on `regex::Regex::captures`, which returns `Some` exactly when
    /// the pattern matches (as `Regex::is_match`), and `regex::Captures::name`,
    /// which hands out the text of the group so named, `None` when the group
    /// is absent or did not participate in the match.
    #[verifier::external_body]
    pub(crate) fn capture_named(&self, text: &str, name: &str) -> (r: Option<String>)
        ensures
            !pattern_matches(self.pattern(), text@) ==> r is None,
            pattern_matches(self.pattern(), text@) ==> r.deep_view() == named_capture(
                self.pattern(),
                text@,
                name@,
            ),
    {
        match self.regex.captures(text) {
            Some(caps) => match caps.name(name) {
                Some(m) => Some(m.as_str().to_string()),
                None => None,
            },
            None => None,
        }
    }

    /// Relies on `regex::Regex::captures` as above, and `regex::Captures::get`,
    /// which hands out the text of the group at that index, `None` when there
    /// is no such group or it did not participate in the match.
    #[verifier::external_body]
    pub(crate) fn capture_index(&self, text: &str, index: usize) -> (r: Option<String>)
        ensures
            !pattern_matches(self.pattern(), text@) ==> r is None,
            pattern_matches(self.pattern(), text@) ==> r.deep_view() == positional_capture(
                self.pattern(),
                text@,
                index as int,
            ),
    {
        match self.regex.captures(text) {
            Some(caps) => match caps.get(index) {
                Some(m) => Some(m.as_str().to_string()),
                None => None,
            },
            None => None,
        }
    }

    /// Relies on `regex::Regex::capture_names`: it yields each capture
    /// group's name in index order, `None` for an unnamed group, starting
    /// with the implicit unnamed whole-match group.
    #[verifier::external_body]
    pub(crate) fn capture_group_names(&self) -> (r: Vec<Option<String>>)
        ensures
            r.deep_view() == group_names(self.pattern()),
    {
        let mut out: Vec<Option<String>> = Vec::new();
        for name in self.regex.capture_names() {
            match name {
                Some(n) => out.push(Some(n.to_string())),
                None => out.push(None),
            }
        }
        out
    }
}

/// Relies on the `Display` impl of `regex::Error`: a human-readable
/// description of why a pattern failed to compile.
#[verifier::external_body]
pub(crate) fn compile_error_text(e: &regex::Error) -> String {
    format!("{}", e)
}

/// How many of a pattern's capture groups are named.
pub open spec fn named_count(gs: Seq<Option<Seq<char>>>) -> nat
    decreases gs.len(),
{
    if gs.len() == 0 {
        0
    } else {
        named_count(gs.drop_last()) + if gs.last() is Some {
            1nat
        } else {
            0nat
        }
    }
}

impl CompiledPattern {
    /// Counts the named capture groups of this pattern.
    pub(crate) fn named_group_count(&self) -> (n: usize)
        ensures
            n == named_count(group_names(self.pattern())),
    {
        let names = self.capture_group_names();
        let ghost all: Seq<Option<Seq<char>>> = names.deep_view();
        let mut n: usize = 0;
        let mut i: usize = 0;
        assert(all.take(0) =~= Seq::<Option<Seq<char>>>::empty());
        while i < names.len()
            invariant
                i <= names.len(),
                n <= i,
                all.len() == names.len(),
                all == group_names(self.pattern()),
                forall|j: int| 0 <= j < all.len() ==> all[j] == #[trigger] names@[j].deep_view(),
                n == named_count(all.take(i as int)),
            decreases names.len() - i,
        {
            assert(all.take(i + 1).drop_last() =~= all.take(i as int));
            assert(all.take(i + 1).last() == all[i as int]);
            assert(named_count(all.take(i + 1)) == named_count(all.take(i as int)) + if all[i as int] is Some {
                1nat
            } else {
                0nat
            });
            assert(all[i as int] == names@[i as int].deep_view());
            if names[i].is_some() {
                n = n + 1;
            }
            i = i + 1;
        }
        assert(all.take(names.len() as int) =~= all);
        n
    }
}

} // verus!
