//! Compiled regular expressions, as the rest of the library sees them.
//!
//! A `Pattern` keeps the text it was compiled from. Its model is that text,
//! and what a search finds is stated as a function of the text and of the
//! haystack.

use vstd::prelude::*;

verus! {

#[verifier::external_type_specification]
#[verifier::external_body]
pub struct ExRegex(regex::Regex);

#[verifier::external_type_specification]
#[verifier::external_body]
pub struct ExRegexError(regex::Error);

/// Whether `regex::Regex::new` accepts the pattern text.
pub uninterp spec fn regex_compiles(pattern: Seq<char>) -> bool;

/// Whether the regex of the pattern text matches anywhere in the haystack.
pub uninterp spec fn regex_is_match(pattern: Seq<char>, haystack: Seq<char>) -> bool;

/// The text that the named group took in the first match of the regex of the
/// pattern text in the haystack; `None` where there is no match or the group
/// took no part in it.
pub uninterp spec fn regex_named_group(
    pattern: Seq<char>,
    haystack: Seq<char>,
    name: Seq<char>,
) -> Option<Seq<char>>;

/// Whether `part` stands in `whole` as a contiguous run of characters.
pub open spec fn is_piece_of(part: Seq<char>, whole: Seq<char>) -> bool {
    exists|i: int| 0 <= i && i + part.len() <= whole.len() && #[trigger] whole.subrange(i, i + part.len()) == part
}

/// Relies on `regex::Regex::new`: it fails exactly on the pattern texts that
/// it refuses, which depends on the text alone (the builder's default limits
/// are fixed).
#[verifier::external_body]
fn compile(source: &str) -> (r: Result<regex::Regex, regex::Error>)
    ensures
        r is Ok <==> regex_compiles(source@),
{
    regex::Regex::new(source)
}

/// Relies on `Clone` of `regex::Regex`: the copy is the same compiled regex.
pub assume_specification[ <regex::Regex as Clone>::clone ](r: &regex::Regex) -> regex::Regex;

/// A regular expression together with the text it was compiled from.
///
/// The fields are private and set only by `Pattern::new` and
/// `Pattern::clone`, so `compiled` is always what `regex::Regex::new` made
/// of `source`.
pub struct Pattern {
    source: String,
    compiled: regex::Regex,
}

impl View for Pattern {
    type V = Seq<char>;

    closed spec fn view(&self) -> Seq<char> {
        self.source@
    }
}

/// Relies on `regex::Regex::is_match`: whether the regex matches anywhere in
/// the haystack, which depends on the pattern text and the haystack alone.
#[verifier::external_body]
fn search(p: &Pattern, haystack: &str) -> (r: bool)
    ensures
        r == regex_is_match(p@, haystack@),
{
    p.compiled.is_match(haystack)
}

/// Relies on `regex::Regex::captures`, `regex::Captures::name` and
/// `regex::Match::as_str`: the text of the named group in the first match,
/// `None` where nothing matches or the group did not take part. That text is
/// `&haystack[start..end]`, a contiguous run of the haystack.
#[verifier::external_body]
fn named_group(p: &Pattern, haystack: &str, name: &str) -> (r: Option<String>)
    ensures
        match r {
            Some(g) => regex_named_group(p@, haystack@, name@) == Some(g@),
            None => regex_named_group(p@, haystack@, name@) is None,
        },
        r matches Some(g) ==> is_piece_of(g@, haystack@),
{
    let caps = p.compiled.captures(haystack)?;
    let m = caps.name(name)?;
    Some(m.as_str().to_string())
}

impl Pattern {
    /// Compiles `source`; fails exactly where the regex engine refuses it.
    pub fn new(source: &str) -> (r: Result<Pattern, regex::Error>)
        ensures
            r is Ok <==> regex_compiles(source@),
            r matches Ok(p) ==> p@ == source@,
    {
        match compile(source) {
            Ok(compiled) => Ok(Pattern { source: source.to_owned(), compiled }),
            Err(e) => Err(e),
        }
    }

    /// The text the pattern was compiled from.
    pub fn as_str(&self) -> (r: &str)
        ensures
            r@ == self@,
    {
        self.source.as_str()
    }

    /// Whether the pattern matches anywhere in `haystack`.
    pub fn is_match(&self, haystack: &str) -> (r: bool)
        ensures
            r == regex_is_match(self@, haystack@),
    {
        search(self, haystack)
    }

    /// The text of the group `name` in the first match in `haystack`.
    pub fn named_group(&self, haystack: &str, name: &str) -> (r: Option<String>)
        ensures
            match r {
                Some(g) => regex_named_group(self@, haystack@, name@) == Some(g@),
                None => regex_named_group(self@, haystack@, name@) is None,
            },
            r matches Some(g) ==> is_piece_of(g@, haystack@),
    {
        named_group(self, haystack, name)
    }
}

impl Clone for Pattern {
    fn clone(&self) -> (r: Pattern)
        ensures
            r@ == self@,
    {
        Pattern { source: self.source.clone(), compiled: self.compiled.clone() }
    }
}

} // verus!
