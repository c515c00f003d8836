//! Glob selection: a set of compiled patterns and the test of a path against it.
//!
//! Compiling and matching are the `glob` crate's work. What it answers is named
//! here, not restated: the contracts say which calls are made and how their
//! answers combine.

use vstd::prelude::*;
use crate::text::{contains_char, views};

verus! {

/// `glob::Pattern`, a compiled pattern. Nothing of its inside is visible here.
#[verifier::external_type_specification]
#[verifier::external_body]
pub struct ExPattern(glob::Pattern);

/// `glob::PatternError`, what compiling a malformed pattern gives.
#[verifier::external_type_specification]
#[verifier::external_body]
pub struct ExPatternError(glob::PatternError);

/// The text a compiled pattern was made from: what `glob::Pattern::as_str` returns.
pub uninterp spec fn pattern_text(pattern: glob::Pattern) -> Seq<char>;

/// Whether `glob::Pattern::new` accepts the text.
pub uninterp spec fn glob_compiles(text: Seq<char>) -> bool;

/// What `glob::Pattern::matches_with` answers for the pattern compiled from
/// `pattern`, the candidate `path` and the three match options.
pub uninterp spec fn glob_matches_with(
    pattern: Seq<char>,
    path: Seq<char>,
    case_sensitive: bool,
    literal_separator: bool,
    literal_leading_dot: bool,
) -> bool;

/// A text that every platform reads alike: the glob crate takes a backslash for a
/// path separator on some targets and for an ordinary character on the others.
pub open spec fn portable(text: Seq<char>) -> bool {
    !text.contains('\\')
}

/// A pattern text that every platform compiles: portable, and well formed for
/// the glob crate.
pub open spec fn acceptable(text: Seq<char>) -> bool {
    portable(text) && glob_compiles(text)
}

/// A pattern text that is not known to be malformed: if it is portable, the
/// glob crate compiles it. Of a text with a backslash the platform decides.
pub open spec fn admissible(text: Seq<char>) -> bool {
    portable(text) ==> glob_compiles(text)
}

/// Whether one pattern selects the path. Matching is case sensitive; `*`, `?` and
/// a character class stay inside one path segment, only `**` crosses segments;
/// a leading dot is nothing special.
pub open spec fn pattern_selects(pattern: Seq<char>, path: Seq<char>) -> bool {
    glob_matches_with(pattern, path, true, true, false)
}

/// Whether any of the portable patterns selects the path.
pub open spec fn any_selects(patterns: Seq<Seq<char>>, path: Seq<char>) -> bool {
    exists|i: int|
        0 <= i < patterns.len() && portable(#[trigger] patterns[i]) && pattern_selects(
            patterns[i],
            path,
        )
}

/// Whether any of the patterns holds a backslash.
pub open spec fn any_unportable(patterns: Seq<Seq<char>>) -> bool {
    exists|i: int| 0 <= i < patterns.len() && !portable(#[trigger] patterns[i])
}

/// The texts of a list of patterns, in order.
pub open spec fn texts_of(patterns: Seq<&str>) -> Seq<Seq<char>> {
    patterns.map_values(|p: &str| p@)
}

/// Calls `glob::Pattern::new`. A compiled pattern remembers its text. For a
/// portable text the call succeeds exactly when `glob_compiles` says so; of
/// another text only the first is claimed.
#[verifier::external_body]
fn compile(text: &str) -> (r: Result<glob::Pattern, glob::PatternError>)
    ensures
        r matches Ok(p) ==> pattern_text(p) == text@,
        portable(text@) ==> (r is Ok <==> glob_compiles(text@)),
{
    glob::Pattern::new(text)
}

/// `glob::Pattern::as_str` hands back the text that the pattern was compiled
/// from.
pub assume_specification[ glob::Pattern::as_str ](pattern: &glob::Pattern) -> (text: &str)
    ensures
        text@ == pattern_text(*pattern),
;

/// Calls `glob::Pattern::matches_with` with the three options given. Where
/// pattern and path are both portable the answer is the named one.
#[verifier::external_body]
fn compiled_matches(
    pattern: &glob::Pattern,
    path: &str,
    case_sensitive: bool,
    literal_separator: bool,
    literal_leading_dot: bool,
) -> (hit: bool)
    ensures
        portable(pattern_text(*pattern)) && portable(path@) ==> hit == glob_matches_with(
            pattern_text(*pattern),
            path@,
            case_sensitive,
            literal_separator,
            literal_leading_dot,
        ),
{
    pattern.matches_with(
        path,
        glob::MatchOptions {
            case_sensitive,
            require_literal_separator: literal_separator,
            require_literal_leading_dot: literal_leading_dot,
        },
    )
}

/// The first pattern of a list that the glob crate does not compile.
#[derive(Clone, Copy, Debug, PartialEq, Eq, Structural)]
pub struct InvalidPattern {
    /// Its place in the list.
    pub index: usize,
}

/// A set of glob patterns, compiled once.
#[derive(Debug)]
pub struct PathSelector {
    patterns: Vec<glob::Pattern>,
}

impl View for PathSelector {
    type V = Seq<Seq<char>>;

    /// The pattern texts, in the order given at construction.
    closed spec fn view(&self) -> Seq<Seq<char>> {
        self.patterns@.map_values(|p: glob::Pattern| pattern_text(p))
    }
}

/// Whether the text holds no backslash.
fn is_portable(text: &str) -> (ok: bool)
    ensures
        ok == portable(text@),
{
    !contains_char(text, '\\')
}

impl PathSelector {
    #[verifier::type_invariant]
    spec fn every_pattern_admissible(self) -> bool {
        forall|i: int|
            0 <= i < self.patterns@.len() ==> admissible(#[trigger] pattern_text(self.patterns@[i]))
    }

    /// Compiles the patterns. Every one of them must be well formed, which can
    /// be said beforehand of portable patterns only; `try_new` takes any list
    /// and reports the first pattern that does not compile.
    pub fn new(patterns: Vec<&str>) -> (selector: Self)
        requires
            forall|i: int| 0 <= i < patterns@.len() ==> acceptable(#[trigger] patterns@[i]@),
        ensures
            selector@ == texts_of(patterns@),
    {
        let mut compiled: Vec<glob::Pattern> = Vec::new();
        let mut i: usize = 0;
        while i < patterns.len()
            invariant
                i <= patterns@.len(),
                compiled@.len() == i,
                forall|j: int|
                    0 <= j < patterns@.len() ==> acceptable(#[trigger] patterns@[j]@),
                forall|j: int|
                    0 <= j < i ==> pattern_text(#[trigger] compiled@[j]) == patterns@[j]@,
            decreases patterns@.len() - i,
        {
            let text: &str = patterns[i];
            let pattern = compile(text).unwrap();
            compiled.push(pattern);
            i += 1;
        }
        PathSelector { patterns: compiled }
    }

    /// Compiles the patterns, or names the first that the glob crate does not
    /// compile. A list of acceptable patterns always succeeds, and a portable
    /// pattern that is malformed always fails; whether a pattern with a
    /// backslash compiles is the platform's to say.
    pub fn try_new(patterns: Vec<&str>) -> (r: Result<Self, InvalidPattern>)
        ensures
            match r {
                Ok(selector) => {
                    &&& selector@ == texts_of(patterns@)
                    &&& forall|i: int|
                        0 <= i < patterns@.len() ==> admissible(#[trigger] patterns@[i]@)
                },
                Err(e) => {
                    &&& e.index < patterns@.len()
                    &&& !acceptable(patterns@[e.index as int]@)
                    &&& forall|i: int| 0 <= i < e.index ==> admissible(#[trigger] patterns@[i]@)
                },
            },
    {
        let mut compiled: Vec<glob::Pattern> = Vec::new();
        let mut all_portable = true;
        let mut i: usize = 0;
        while i < patterns.len()
            invariant
                i <= patterns@.len(),
                compiled@.len() == i,
                forall|j: int| 0 <= j < i ==> admissible(#[trigger] patterns@[j]@),
                forall|j: int|
                    0 <= j < i ==> pattern_text(#[trigger] compiled@[j]) == patterns@[j]@,
                all_portable ==> forall|j: int| 0 <= j < i ==> portable(#[trigger] patterns@[j]@),
            decreases patterns@.len() - i,
        {
            let text: &str = patterns[i];
            match compile(text) {
                Ok(pattern) => {
                    compiled.push(pattern);
                },
                Err(_) => {
                    return Err(InvalidPattern { index: i });
                },
            }
            if !is_portable(text) {
                all_portable = false;
            }
            i += 1;
        }
        if all_portable {
            // Every pattern is acceptable, which is what `new` asks for.
            Ok(Self::new(patterns))
        } else {
            Ok(PathSelector { patterns: compiled })
        }
    }

    /// Whether any pattern selects the path. An empty selector selects nothing.
    /// A portable path is selected if a portable pattern selects it, and only
    /// then, unless the selector holds a pattern with a backslash: what such a
    /// pattern selects, and whether a path with a backslash is selected,
    /// depends on the platform, and nothing is stated of it.
    pub fn matches(&self, path: &str) -> (hit: bool)
        ensures
            self@.len() == 0 ==> !hit,
            portable(path@) && any_selects(self@, path@) ==> hit,
            portable(path@) && hit ==> any_selects(self@, path@) || any_unportable(self@),
    {
        let mut hit = false;
        let mut i: usize = 0;
        while i < self.patterns.len()
            invariant
                i <= self.patterns@.len(),
                self@.len() == self.patterns@.len(),
                forall|j: int|
                    0 <= j < self.patterns@.len() ==> #[trigger] self@[j] == pattern_text(
                        self.patterns@[j],
                    ),
                i == 0 ==> !hit,
                portable(path@) ==> ((exists|j: int|
                    0 <= j < i && portable(#[trigger] self@[j]) && pattern_selects(self@[j], path@))
                    ==> hit),
                portable(path@) && hit ==> exists|j: int|
                    0 <= j < i && (!portable(#[trigger] self@[j]) || pattern_selects(
                        self@[j],
                        path@,
                    )),
            decreases self.patterns@.len() - i,
        {
            let selected = compiled_matches(&self.patterns[i], path, true, true, false);
            assert(portable(path@) && portable(self@[i as int]) ==> selected == pattern_selects(
                self@[i as int],
                path@,
            ));
            if selected {
                hit = true;
            }
            i += 1;
        }
        hit
    }

    /// The texts of the patterns, in order. Each is admissible.
    pub fn texts(&self) -> (texts: Vec<String>)
        ensures
            views(texts@) == self@,
            forall|i: int| 0 <= i < self@.len() ==> admissible(#[trigger] self@[i]),
    {
        proof {
            use_type_invariant(self);
        }
        let mut texts: Vec<String> = Vec::new();
        let mut i: usize = 0;
        while i < self.patterns.len()
            invariant
                i <= self.patterns@.len(),
                texts@.len() == i,
                forall|j: int| 0 <= j < i ==> texts@[j]@ == pattern_text(self.patterns@[j]),
            decreases self.patterns@.len() - i,
        {
            texts.push(self.patterns[i].as_str().to_owned());
            i += 1;
        }
        texts
    }

    /// The compiled patterns, in order.
    pub fn patterns(&self) -> (compiled: &[glob::Pattern])
        ensures
            compiled@.map_values(|p: glob::Pattern| pattern_text(p)) == self@,
    {
        self.patterns.as_slice()
    }
}

} // verus!
