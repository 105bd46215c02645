use vstd::prelude::*;

verus! {

// The regular-expression engine is depended upon, not re-specified: its
// behaviour is named by the uninterpreted functions below, and the wrappers
// in this module are the only places that call into it.

/// Whether `regex::Regex::new` accepts `pattern` as a valid regular
/// expression (within the engine's default size limits).
pub uninterp spec fn regex_compiles(pattern: Seq<char>) -> bool;

/// Whether the regular expression compiled from `pattern` matches somewhere
/// in `text` — unanchored, unless the pattern anchors itself.
pub uninterp spec fn regex_accepts(pattern: Seq<char>, text: Seq<char>) -> bool;

/// The capture groups that `pattern` extracts from `text` when it matches:
/// element 0 is the overall match, element `i` the `i`-th parenthesised
/// group, `None` where a group did not participate in the match.
pub uninterp spec fn regex_captures(pattern: Seq<char>, text: Seq<char>) -> Seq<
    Option<Seq<char>>,
>;

/// Whether `regex::RegexSet::new` accepts this pattern list (every pattern
/// valid, and the combined matcher within the engine's size limits).
pub uninterp spec fn regex_set_compiles(patterns: Seq<Seq<char>>) -> bool;

#[verifier::external_type_specification]
#[verifier::external_body]
pub struct ExRegex(regex::Regex);

#[verifier::external_type_specification]
#[verifier::external_body]
pub struct ExRegexSet(regex::RegexSet);

/// One compiled regular expression together with the source string it was
/// compiled from.  Values exist only through [`Pattern::compile`], so the
/// compiled form and the source always agree.
pub struct Pattern {
    regex: regex::Regex,
    source: String,
}

impl Pattern {
    /// The pattern string this regular expression was compiled from.
    pub closed spec fn src(&self) -> Seq<char> {
        self.source@
    }

    /// Relies on `regex::Regex::new`: it returns `Ok` exactly when the
    /// pattern is a valid regular expression (within default size limits),
    /// and the compiled regex then behaves as the pattern prescribes.
    #[verifier::external_body]
    pub(crate) fn compile(source: &String) -> (r: Option<Pattern>)
        ensures
            r is Some <==> regex_compiles(source@),
            r matches Some(p) ==> p.src() == source@,
    {
        match regex::Regex::new(source.as_str()) {
            Ok(regex) => Some(Pattern { regex, source: source.clone() }),
            Err(_) => None,
        }
    }

    /// Relies on `regex::Regex::captures`: it returns `Some` exactly when
    /// the regex matches the haystack, and the returned groups are the
    /// engine's capture output — the overall match first, then each
    /// parenthesised group in order, unmatched groups as `None`.
    #[verifier::external_body]
    pub(crate) fn captures(&self, text: &str) -> (r: Option<Vec<Option<String>>>)
        ensures
            r is Some <==> regex_accepts(self.src(), text@),
            r matches Some(c) ==> c.deep_view() == regex_captures(self.src(), text@),
    {
        self.regex.captures(text).map(
            |caps| caps.iter().map(|m| m.map(|g| g.as_str().to_string())).collect(),
        )
    }
}

/// A combined matcher over an ordered list of pattern strings, kept beside
/// those strings.  Values exist only through [`PatternSet::compile`], so
/// index `i` of the matcher always refers to `sources[i]`.
pub struct PatternSet {
    set: regex::RegexSet,
    sources: Vec<String>,
}

impl PatternSet {
    /// The pattern strings this set was compiled from, in order.
    pub closed spec fn pats(&self) -> Seq<Seq<char>> {
        self.sources.deep_view()
    }

    /// Relies on `regex::RegexSet::new`: it returns `Ok` exactly when the
    /// whole pattern list compiles (every pattern valid, combined matcher
    /// within default size limits), and the set then reports matches in
    /// correspondence with this list's order.
    #[verifier::external_body]
    pub(crate) fn compile(sources: &Vec<String>) -> (r: Option<PatternSet>)
        ensures
            r is Some <==> regex_set_compiles(sources.deep_view()),
            r matches Some(s) ==> s.pats() == sources.deep_view(),
    {
        match regex::RegexSet::new(sources.iter()) {
            Ok(set) => Some(PatternSet { set, sources: sources.clone() }),
            Err(_) => None,
        }
    }

    /// Relies on `regex::RegexSet::matches`: the returned set holds the
    /// index of each pattern that matches the haystack — the same matches
    /// the patterns report individually — and nothing else.
    #[verifier::external_body]
    pub(crate) fn matches(&self, text: &str) -> (r: Vec<usize>)
        ensures
            forall|j: int|
                0 <= j < self.pats().len() ==> (r@.contains(j as usize) <==> regex_accepts(
                    self.pats()[j],
                    text@,
                )),
            forall|k: int| 0 <= k < r@.len() ==> (r@[k] as int) < self.pats().len(),
    {
        self.set.matches(text).iter().collect()
    }
}

} // verus!
