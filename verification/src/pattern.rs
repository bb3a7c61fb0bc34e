//! Compiled regular expressions.
use regex::{Regex, RegexBuilder};
use vstd::prelude::*;

use crate::number::dec_of;

verus! {

/// `regex::Regex`, a compiled regular expression.
#[verifier::external_type_specification]
#[verifier::external_body]
pub struct ExRegex(Regex);

/// Whether a regular expression matches somewhere in a text.
pub uninterp spec fn pattern_finds(
    expression: Seq<char>,
    ignore_case: bool,
    text: Seq<char>,
) -> bool;

/// Why a text is no regular expression; none where it is one. The bound on the
/// nesting is part of what counts as one.
pub uninterp spec fn syntax_problem(
    expression: Seq<char>,
    ignore_case: bool,
    nest_limit: u32,
) -> Option<Seq<char>>;

/// The bound on the compiled size of a query, in bytes.
pub const PATTERN_LIMIT: usize = 2_097_152;

/// The bound on the nesting of a query.
pub const PATTERN_NESTING: u32 = 128;

/// Why an expression was not compiled, in words.
#[derive(Debug)]
pub enum PatternError {
    /// It is no regular expression.
    Syntax(String),
    /// Its program would be larger than the limit.
    TooLarge(usize, String),
}

/// The words for an expression whose program would be too large.
pub open spec fn too_large_text(limit: usize) -> Seq<char> {
    "Compiled regex exceeds size limit of "@ + dec_of(limit as nat) + " bytes."@
}

/// A regular expression with its compiled form. The fields are private to this
/// module, and only `compile` makes a value, so the compiled form is always that
/// of the expression.
pub struct Pattern {
    expression: String,
    ignore_case: bool,
    compiled: Regex,
}

/// What a `Pattern` stands for.
pub struct PatternView {
    pub expression: Seq<char>,
    pub ignore_case: bool,
}

impl View for Pattern {
    type V = PatternView;

    closed spec fn view(&self) -> PatternView {
        PatternView { expression: self.expression@, ignore_case: self.ignore_case }
    }
}

/// `regex::RegexBuilder` compiles an expression under limits on the size of the
/// program, of its lazy automaton and on its nesting. What comes out is that
/// expression with that case rule. A text that is no regular expression is
/// refused before any program is made; whether it is one, and the words of the
/// refusal, depend on the text, the case rule and the bound on the nesting. A
/// text that is one is refused only where its program exceeds the size limit,
/// and the refusal tells the limit. When that is, is not stated: the size of a
/// program depends on the machine. The bound on the nesting bounds the depth to
/// which compiling recurses, and the one on the size keeps the states and groups
/// of a program countable.
#[verifier::external_body]
pub(crate) fn compile(
    expression: &str,
    ignore_case: bool,
    size_limit: usize,
    automaton_limit: usize,
    nest_limit: u32,
) -> (r: Result<Pattern, PatternError>)
    requires
        size_limit == PATTERN_LIMIT,
        automaton_limit == PATTERN_LIMIT,
        nest_limit <= PATTERN_NESTING,
    ensures
        match r {
            Ok(p) => p@ == (PatternView { expression: expression@, ignore_case })
                && syntax_problem(expression@, ignore_case, nest_limit) is None,
            Err(PatternError::Syntax(m)) => syntax_problem(expression@, ignore_case, nest_limit)
                == Some(m@),
            Err(PatternError::TooLarge(limit, m)) => limit == size_limit && m@ == too_large_text(
                limit,
            ) && syntax_problem(expression@, ignore_case, nest_limit) is None,
        },
{
    let mut builder = RegexBuilder::new(expression);
    builder.case_insensitive(ignore_case).size_limit(size_limit);
    builder.dfa_size_limit(automaton_limit).nest_limit(nest_limit);
    match builder.build() {
        Ok(compiled) => Ok(Pattern { expression: expression.to_owned(), ignore_case, compiled }),
        Err(error) => {
            let message = error.to_string();
            match error {
                regex::Error::CompiledTooBig(limit) => Err(PatternError::TooLarge(limit, message)),
                _ => Err(PatternError::Syntax(message)),
            }
        },
    }
}

/// `regex::Regex::is_match` tells whether the expression matches somewhere in
/// the text. That depends on the expression, its case rule and the text alone;
/// how a regular expression matches is not restated here.
#[verifier::external_body]
pub(crate) fn is_match(pattern: &Pattern, text: &str) -> (b: bool)
    ensures
        b == pattern_finds(pattern@.expression, pattern@.ignore_case, text@),
{
    pattern.compiled.is_match(text)
}

} // verus!
