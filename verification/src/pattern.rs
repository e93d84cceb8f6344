//! The regular expression that lines are tested against.
//!
//! Compiling and matching are the work of the `regex` crate. What a search
//! finds is not spelled out here: it has a name, [`pattern_matches`], and
//! the contracts of this crate speak of that name.

use vstd::prelude::*;

verus! {

/// `regex::bytes::Regex`, a compiled regular expression that searches
/// bytes. Nothing is known of what is inside one.
#[verifier::external_type_specification]
#[verifier::external_body]
pub struct ExRegex(regex::bytes::Regex);

/// `regex::Error`, the fault that `regex::bytes::Regex::new` reports.
/// Nothing is known of what is inside one.
#[verifier::external_type_specification]
#[verifier::external_body]
pub struct ExRegexError(regex::Error);

/// Whether the regular expression written as `pattern` finds a match
/// anywhere in `haystack`.
pub uninterp spec fn pattern_matches(pattern: Seq<char>, haystack: Seq<u8>) -> bool;

/// Why a pattern was turned down.
#[derive(Debug)]
pub struct PatternError {
    message: String,
}

impl View for PatternError {
    type V = Seq<char>;

    /// The account of the fault.
    closed spec fn view(&self) -> Seq<char> {
        self.message@
    }
}

impl PatternError {
    /// What is wrong with the pattern, in words.
    pub fn message(&self) -> (text: &str)
        ensures
            text@ == self@,
    {
        self.message.as_str()
    }
}

/// A regular expression, compiled once and then only read.
///
/// `compiled` is always what the text in `source` compiles to: `new` is the
/// only place that makes a `Pattern`, and nothing changes one afterwards.
#[derive(Debug)]
pub struct Pattern {
    source: String,
    compiled: regex::bytes::Regex,
}

impl View for Pattern {
    type V = Seq<char>;

    /// The text that the pattern was compiled from.
    closed spec fn view(&self) -> Seq<char> {
        self.source@
    }
}

/// Calls `regex::bytes::Regex::new`. Nothing is claimed of when a text is
/// accepted: that depends on its syntax and on a limit to the size of the
/// compiled form, which is measured in the memory of the machine at hand.
#[verifier::external_body]
fn compile(source: &str) -> Result<regex::bytes::Regex, regex::Error> {
    regex::bytes::Regex::new(source)
}

/// Calls `regex::bytes::Regex::is_match` on the compiled form of `pattern`.
/// By its documentation it returns true if and only if the expression
/// matches somewhere in the haystack; the contract gives that answer its
/// name, for the text that `pattern` was compiled from.
#[verifier::external_body]
fn search(pattern: &Pattern, haystack: &[u8]) -> (found: bool)
    ensures
        found == pattern_matches(pattern@, haystack@),
{
    pattern.compiled.is_match(haystack)
}

impl Pattern {
    /// Compiles `source`. Whether a text is accepted is for the matcher to
    /// say; one that it turns down gives the matcher's own account of the
    /// fault.
    pub fn new(source: &str) -> (made: Result<Pattern, PatternError>)
        ensures
            made matches Ok(pattern) ==> pattern@ == source@,
    {
        Pattern::from_outcome(source, compile(source))
    }

    /// What `new` makes of the outcome of compiling `source`: the compiled
    /// form together with its text, or the fault put in words.
    ///
    /// `outcome` has to be that of compiling `source`, which is why this is
    /// not for use outside `new`.
    fn from_outcome(
        source: &str,
        outcome: Result<regex::bytes::Regex, regex::Error>,
    ) -> (made: Result<Pattern, PatternError>)
        ensures
            made is Ok <==> outcome is Ok,
            made matches Ok(pattern) ==> pattern@ == source@,
    {
        match outcome {
            Ok(compiled) => Ok(Pattern { source: source.to_owned(), compiled }),
            Err(fault) => Err(PatternError { message: fault.to_string() }),
        }
    }

    /// The text that the pattern was compiled from.
    pub fn as_str(&self) -> (text: &str)
        ensures
            text@ == self@,
    {
        self.source.as_str()
    }

    /// Whether the pattern matches anywhere in `haystack`.
    pub fn is_match(&self, haystack: &[u8]) -> (found: bool)
        ensures
            found == pattern_matches(self@, haystack@),
    {
        search(self, haystack)
    }
}

} // verus!
