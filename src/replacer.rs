//! The replacement strategies and the choice between them.

use vstd::prelude::*;
use vstd::string::StringExecFns;

use crate::engine::{pattern_compiles, regex_replace_all, regex_replaced};
use crate::literal::{literal_replaced, replace_literal};

verus! {

/// A pattern that the regex engine rejected.
#[derive(Debug)]
pub struct PatternSyntaxError {
    /// The pattern as it was handed to the engine.
    pub pattern: String,
    /// The engine's account of the problem.
    pub cause: regex::Error,
}

/// Rewrites a body of text, replacing what `from` selects by `to`.
pub trait TextReplacer {
    /// Whether this replacer can work with `from` at all.
    spec fn spec_accepts(&self, from: Seq<char>) -> bool;

    /// The rewritten body, where `from` is accepted.
    spec fn spec_replace(&self, from: Seq<char>, to: Seq<char>, text: Seq<char>) -> Seq<char>;

    /// Replaces in `text` what `from` selects by `to`, or reports why `from`
    /// cannot be used.
    fn replace(&self, from: &str, to: &str, text: &str) -> (r: Result<String, PatternSyntaxError>)
        ensures
            r is Ok <==> self.spec_accepts(from@),
            r matches Ok(s) ==> s@ == self.spec_replace(from@, to@, text@),
    ;
}

/// Whether matches must start at a word boundary.
#[derive(Debug, Clone, Copy, PartialEq, Eq, Structural)]
pub enum WholeWordsOnly {
    Enabled,
    Disabled,
}

impl From<bool> for WholeWordsOnly {
    fn from(whole_words_only_is_enabled: bool) -> (r: Self) {
        if whole_words_only_is_enabled {
            WholeWordsOnly::Enabled
        } else {
            WholeWordsOnly::Disabled
        }
    }
}

impl vstd::std_specs::convert::FromSpecImpl<bool> for WholeWordsOnly {
    open spec fn obeys_from_spec() -> bool {
        true
    }

    open spec fn from_spec(v: bool) -> Self {
        if v {
            WholeWordsOnly::Enabled
        } else {
            WholeWordsOnly::Disabled
        }
    }
}

/// Whether letters match regardless of case.
#[derive(Debug, Clone, Copy, PartialEq, Eq, Structural)]
pub enum CaseInsensitivity {
    Enabled,
    Disabled,
}

impl From<bool> for CaseInsensitivity {
    fn from(case_insensitivity_is_enabled: bool) -> (r: Self) {
        if case_insensitivity_is_enabled {
            CaseInsensitivity::Enabled
        } else {
            CaseInsensitivity::Disabled
        }
    }
}

impl vstd::std_specs::convert::FromSpecImpl<bool> for CaseInsensitivity {
    open spec fn obeys_from_spec() -> bool {
        true
    }

    open spec fn from_spec(v: bool) -> Self {
        if v {
            CaseInsensitivity::Enabled
        } else {
            CaseInsensitivity::Disabled
        }
    }
}

/// Literal replacement: `from` is plain text, matched exactly and anywhere.
#[derive(Debug, Default)]
pub struct StdTextReplacer {}

impl TextReplacer for StdTextReplacer {
    open spec fn spec_accepts(&self, from: Seq<char>) -> bool {
        true
    }

    open spec fn spec_replace(&self, from: Seq<char>, to: Seq<char>, text: Seq<char>) -> Seq<char> {
        literal_replaced(from, to, text)
    }

    fn replace(&self, from: &str, to: &str, text: &str) -> (r: Result<String, PatternSyntaxError>) {
        Ok(replace_literal(from, to, text))
    }
}

/// The modifier that makes a pattern match regardless of case: `(?i)`.
pub open spec fn case_prefix(case_insensitivity: CaseInsensitivity) -> Seq<char> {
    match case_insensitivity {
        CaseInsensitivity::Enabled => seq!['(', '?', 'i', ')'],
        CaseInsensitivity::Disabled => seq![],
    }
}

/// The anchor that makes a pattern start at a word boundary: `\b`.
pub open spec fn boundary_prefix(whole_words: WholeWordsOnly) -> Seq<char> {
    match whole_words {
        WholeWordsOnly::Enabled => seq!['\\', 'b'],
        WholeWordsOnly::Disabled => seq![],
    }
}

/// Pattern replacement: `from` is a regular expression, adjusted by the two flags.
#[derive(Debug)]
pub struct RegexTextReplacer {
    pub case_insensitivity: CaseInsensitivity,
    pub whole_words: WholeWordsOnly,
}

impl RegexTextReplacer {
    pub fn new(case_insensitivity: CaseInsensitivity, whole_words: WholeWordsOnly) -> (r: Self)
        ensures
            r.case_insensitivity == case_insensitivity,
            r.whole_words == whole_words,
    {
        RegexTextReplacer { case_insensitivity, whole_words }
    }

    /// The pattern handed to the engine for `from`: the case modifier, then
    /// the word-boundary anchor, each only where its flag is on, then `from`.
    pub open spec fn spec_pattern(&self, from: Seq<char>) -> Seq<char> {
        case_prefix(self.case_insensitivity) + boundary_prefix(self.whole_words) + from
    }

    pub fn pattern(&self, from: &str) -> (r: String)
        ensures
            r@ == self.spec_pattern(from@),
    {
        let mut p = String::new();
        match self.case_insensitivity {
            CaseInsensitivity::Enabled => {
                p.append("(?i)");
                proof {
                    reveal_strlit("(?i)");
                }
            },
            CaseInsensitivity::Disabled => {},
        }
        match self.whole_words {
            WholeWordsOnly::Enabled => {
                p.append("\\b");
                proof {
                    reveal_strlit("\\b");
                }
            },
            WholeWordsOnly::Disabled => {},
        }
        p.append(from);
        assert(p@ =~= self.spec_pattern(from@));
        p
    }
}

/// The case-insensitive pattern for `from` is the case-sensitive one, under
/// the same word-boundary flag, with the `(?i)` modifier in front.
pub proof fn lemma_case_insensitive_pattern(
    insensitive: RegexTextReplacer,
    sensitive: RegexTextReplacer,
    from: Seq<char>,
)
    requires
        insensitive.case_insensitivity == CaseInsensitivity::Enabled,
        sensitive.case_insensitivity == CaseInsensitivity::Disabled,
        insensitive.whole_words == sensitive.whole_words,
    ensures
        insensitive.spec_pattern(from) == seq!['(', '?', 'i', ')'] + sensitive.spec_pattern(from),
{
    assert(insensitive.spec_pattern(from) =~= seq!['(', '?', 'i', ')'] + sensitive.spec_pattern(
        from,
    ));
}

/// In whole-word mode the pattern for `from` places the word-boundary anchor
/// `\b` directly before `from`, after the case modifier if any.
pub proof fn lemma_whole_word_pattern(r: RegexTextReplacer, from: Seq<char>)
    requires
        r.whole_words == WholeWordsOnly::Enabled,
    ensures
        r.spec_pattern(from) == case_prefix(r.case_insensitivity) + (seq!['\\', 'b'] + from),
{
    assert(r.spec_pattern(from) =~= case_prefix(r.case_insensitivity) + (seq!['\\', 'b'] + from));
}

impl Default for RegexTextReplacer {
    fn default() -> (r: Self)
        ensures
            r.case_insensitivity == CaseInsensitivity::Disabled,
            r.whole_words == WholeWordsOnly::Disabled,
    {
        RegexTextReplacer {
            case_insensitivity: CaseInsensitivity::Disabled,
            whole_words: WholeWordsOnly::Disabled,
        }
    }
}

impl TextReplacer for RegexTextReplacer {
    open spec fn spec_accepts(&self, from: Seq<char>) -> bool {
        pattern_compiles(self.spec_pattern(from))
    }

    open spec fn spec_replace(&self, from: Seq<char>, to: Seq<char>, text: Seq<char>) -> Seq<char> {
        regex_replaced(self.spec_pattern(from), to, text)
    }

    fn replace(&self, from: &str, to: &str, text: &str) -> (r: Result<String, PatternSyntaxError>)
        ensures
            r matches Err(e) ==> e.pattern@ == self.spec_pattern(from@),
    {
        let pattern = self.pattern(from);
        match regex_replace_all(pattern.as_str(), to, text) {
            Ok(s) => Ok(s),
            Err(cause) => Err(PatternSyntaxError { pattern, cause }),
        }
    }
}

/// The strategy chosen for one run: literal, or pattern with its flags.
#[derive(Debug)]
pub enum Replacer {
    Literal(StdTextReplacer),
    Pattern(RegexTextReplacer),
}

impl TextReplacer for Replacer {
    open spec fn spec_accepts(&self, from: Seq<char>) -> bool {
        match self {
            Replacer::Literal(l) => l.spec_accepts(from),
            Replacer::Pattern(p) => p.spec_accepts(from),
        }
    }

    open spec fn spec_replace(&self, from: Seq<char>, to: Seq<char>, text: Seq<char>) -> Seq<char> {
        match self {
            Replacer::Literal(l) => l.spec_replace(from, to, text),
            Replacer::Pattern(p) => p.spec_replace(from, to, text),
        }
    }

    fn replace(&self, from: &str, to: &str, text: &str) -> (r: Result<String, PatternSyntaxError>)
        ensures
            r matches Err(e) ==> (self matches Replacer::Pattern(p) && e.pattern@ == p.spec_pattern(
                from@,
            )),
    {
        match self {
            Replacer::Literal(l) => l.replace(from, to, text),
            Replacer::Pattern(p) => p.replace(from, to, text),
        }
    }
}

/// The strategy for a pair of flags: literal when both are off, otherwise
/// pattern replacement carrying both flags.
pub open spec fn chosen_replacer(
    case_insensitivity: CaseInsensitivity,
    whole_words: WholeWordsOnly,
) -> Replacer {
    if case_insensitivity == CaseInsensitivity::Disabled && whole_words == WholeWordsOnly::Disabled {
        Replacer::Literal(StdTextReplacer {  })
    } else {
        Replacer::Pattern(RegexTextReplacer { case_insensitivity, whole_words })
    }
}

/// Chooses the strategy: literal when both flags are off, otherwise pattern
/// replacement carrying both flags.
pub fn make_text_replacer(
    case_insensitivity: CaseInsensitivity,
    whole_words: WholeWordsOnly,
) -> (r: Replacer)
    ensures
        r == chosen_replacer(case_insensitivity, whole_words),
{
    match (case_insensitivity, whole_words) {
        (CaseInsensitivity::Enabled, whole_words) => Replacer::Pattern(
            RegexTextReplacer::new(CaseInsensitivity::Enabled, whole_words),
        ),
        (case_insensitivity, WholeWordsOnly::Enabled) => Replacer::Pattern(
            RegexTextReplacer::new(case_insensitivity, WholeWordsOnly::Enabled),
        ),
        (CaseInsensitivity::Disabled, _) => Replacer::Literal(StdTextReplacer {}),
    }
}

} // verus!
