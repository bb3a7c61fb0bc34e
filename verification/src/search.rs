//! Search over the registry-data model, whatever it was read from.
use vstd::prelude::*;
use vstd::slice::slice_subrange;

use crate::model::{
    fold_char, fold_str, folded, long_name_of, path_text, preview_of, type_id_of, type_name_of,
    utf16_from_bytes, utf16_strings, BlockView, DataView, EntryView, Hive, KeyBlock, PathView,
    RegData, RegPath, ValueEntry, ValueName,
};
use crate::number::{
    dec_of, hex_of, push_dec, push_hex, push_short_hex, short_hex_of, to_dec,
};
use crate::pattern::{
    compile, is_match, pattern_finds, syntax_problem, too_large_text, Pattern, PatternError,
    PatternView, PATTERN_LIMIT, PATTERN_NESTING,
};
use crate::text::{
    chars_of, concat, contains_text, debug_text, find_char, first_of, has_text, is_text, join,
    joined, lower_char, lowered, string_of, text_at, to_debug, to_upper, uppered, views,
    views_concat, views_push,
};

verus! {

/// Where in a key a match was found.
#[derive(Clone, Copy, PartialEq, Eq, Debug, Structural)]
pub enum Field {
    Key,
    Name,
    Type,
    Data,
}

/// A match.
#[derive(Debug)]
pub struct Match {
    pub field: Field,
    pub path: RegPath,
    pub name: Option<ValueName>,
    pub type_label: Option<&'static str>,
    pub data: Option<String>,
    pub exact: Option<ValueEntry>,
}

/// What a `Match` stands for: the key, and the value unless the key itself was
/// matched.
pub struct MatchView {
    pub field: Field,
    pub path: PathView,
    pub value: Option<EntryView>,
}

impl Match {
    /// The parts that describe the value agree with the value.
    pub open spec fn wf(&self) -> bool {
        match self.exact {
            None => self.name is None && self.type_label is None && self.data is None,
            Some(v) => {
                &&& self.name is Some && self.name->0@ == v@.name
                &&& self.type_label is Some && self.type_label->0@ == type_name_of(
                    type_id_of(v@.data),
                )
                &&& self.data is Some && self.data->0@ == preview_of(v@.data)
            },
        }
    }
}

impl View for Match {
    type V = MatchView;

    open spec fn view(&self) -> MatchView {
        MatchView {
            field: self.field,
            path: self.path@,
            value: match self.exact {
                Some(v) => Some(v@),
                None => None,
            },
        }
    }
}

/// How a query is to be read.
#[derive(Clone, Copy, PartialEq, Eq, Debug, Structural)]
pub enum Mode {
    Substring,
    Glob,
    Regex,
}

/// A query.
pub enum Matcher {
    Substring { needle: String, exact_case: bool },
    Pattern(Pattern),
}

/// What a `Matcher` stands for.
pub enum MatcherView {
    Substring { needle: Seq<char>, exact_case: bool },
    Pattern(PatternView),
}

impl View for Matcher {
    type V = MatcherView;

    open spec fn view(&self) -> MatcherView {
        match self {
            Matcher::Substring { needle, exact_case } => MatcherView::Substring {
                needle: needle@,
                exact_case: *exact_case,
            },
            Matcher::Pattern(p) => MatcherView::Pattern(p@),
        }
    }
}

/// A query matches a text.
pub open spec fn finds(m: MatcherView, text: Seq<char>) -> bool {
    match m {
        MatcherView::Substring { needle, exact_case } => if exact_case {
            contains_text(text, needle)
        } else {
            contains_text(folded(text), needle)
        },
        MatcherView::Pattern(p) => pattern_finds(p.expression, p.ignore_case, text),
    }
}

/// A query that looks for a piece of text.
pub open spec fn substring_query(pattern: Seq<char>, case_sensitive: bool) -> MatcherView {
    MatcherView::Substring {
        needle: if case_sensitive {
            pattern
        } else {
            folded(pattern)
        },
        exact_case: case_sensitive,
    }
}

/// The expression of a character that is no wildcard.
pub open spec fn literal_char(c: char) -> Seq<char> {
    if c == '\\' {
        "\\\\"@
    } else if c == '[' || c == ']' || c == '(' || c == ')' || c == '{' || c == '}' || c == '.' || c
        == '+' || c == '^' || c == '$' || c == '|' {
        seq!['\\', c]
    } else {
        seq![c]
    }
}

/// The expression of a glob without its anchors: `**` is anything, `*` anything
/// within a component and `?` one character of a component.
pub open spec fn glob_body(glob: Seq<char>) -> Seq<char>
    decreases glob.len(),
{
    if glob.len() == 0 {
        Seq::empty()
    } else if glob[0] == '*' && glob.len() > 1 && glob[1] == '*' {
        ".*"@ + glob_body(glob.skip(2))
    } else if glob[0] == '*' {
        "[^\\\\]*"@ + glob_body(glob.skip(1))
    } else if glob[0] == '?' {
        "[^\\\\]"@ + glob_body(glob.skip(1))
    } else {
        literal_char(glob[0]) + glob_body(glob.skip(1))
    }
}

/// The expression of a glob, which has to match a whole text.
pub open spec fn glob_expression(glob: Seq<char>) -> Seq<char> {
    "^"@ + glob_body(glob) + "$"@
}

/// The regular expression of a query.
pub open spec fn query_expression(pattern: Seq<char>, mode: Mode) -> Seq<char> {
    if mode == Mode::Glob {
        glob_expression(pattern)
    } else {
        pattern
    }
}

/// A query that is a regular expression.
pub open spec fn pattern_query(pattern: Seq<char>, mode: Mode, case_sensitive: bool) -> MatcherView {
    MatcherView::Pattern(
        PatternView { expression: query_expression(pattern, mode), ignore_case: !case_sensitive },
    )
}

/// What a query compiles to.
pub open spec fn query_of(pattern: Seq<char>, mode: Mode, case_sensitive: bool) -> MatcherView {
    if mode == Mode::Substring {
        substring_query(pattern, case_sensitive)
    } else {
        pattern_query(pattern, mode, case_sensitive)
    }
}

/// No character of a glob is special.
pub open spec fn is_plain(glob: Seq<char>) -> bool {
    forall|i: int|
        0 <= i < glob.len() ==> (#[trigger] glob[i]) != '*' && glob[i] != '?' && literal_char(
            glob[i],
        ) == seq![glob[i]]
}

proof fn plain_bodies_are_literal(glob: Seq<char>)
    requires
        is_plain(glob),
    ensures
        glob_body(glob) == glob,
    decreases glob.len(),
{
    if glob.len() > 0 {
        let rest = glob.skip(1);
        assert(is_plain(rest)) by {
            assert forall|i: int| 0 <= i < rest.len() implies (#[trigger] rest[i]) != '*' && rest[i]
                != '?' && literal_char(rest[i]) == seq![rest[i]] by {
                assert(rest[i] == glob[i + 1]);
            }
        }
        plain_bodies_are_literal(rest);
        assert(glob[0] != '*');
        assert(seq![glob[0]] + rest =~= glob);
    } else {
        assert(glob_body(glob) =~= glob);
    }
}

/// A glob without special characters stands for itself between its anchors.
pub proof fn plain_globs_are_literal(glob: Seq<char>)
    requires
        is_plain(glob),
    ensures
        glob_expression(glob) == "^"@ + glob + "$"@,
{
    plain_bodies_are_literal(glob);
}

fn push_literal(out: &mut String, c: char)
    ensures
        final(out)@ == old(out)@ + literal_char(c),
{
    let ghost before = out@;
    if c == '\\' {
        out.append("\\\\");
    } else if c == '[' || c == ']' || c == '(' || c == ')' || c == '{' || c == '}' || c == '.' || c
        == '+' || c == '^' || c == '$' || c == '|' {
        out.push('\\');
        out.push(c);
        assert(out@ =~= before + literal_char(c));
    } else {
        out.push(c);
        assert(out@ =~= before + literal_char(c));
    }
}

/// The regular expression of a glob. A backslash separates components and
/// escapes nothing.
pub fn glob_regex(glob: &str) -> (out: String)
    ensures
        out@ == glob_expression(glob@),
{
    let chars = chars_of(glob);
    let mut out = "^".to_owned();
    let mut i: usize = 0;
    assert(glob@.skip(0) =~= glob@);
    while i < chars.len()
        invariant
            chars@ == glob@,
            i <= chars.len(),
            "^"@ + glob_body(glob@) == out@ + glob_body(glob@.skip(i as int)),
        decreases chars.len() - i,
    {
        let ghost before = out@;
        let ghost rest = glob@.skip(i as int);
        let c = chars[i];
        assert(rest[0] == c);
        assert(rest.skip(1) =~= glob@.skip(i + 1));
        if c == '*' && i + 1 < chars.len() && chars[i + 1] == '*' {
            assert(rest[1] == '*');
            assert(rest.skip(2) =~= glob@.skip(i + 2));
            out.append(".*");
            i += 2;
        } else if c == '*' {
            out.append("[^\\\\]*");
            i += 1;
        } else if c == '?' {
            out.append("[^\\\\]");
            i += 1;
        } else {
            push_literal(&mut out, c);
            i += 1;
        }
        assert(before + glob_body(rest) =~= out@ + glob_body(glob@.skip(i as int)));
    }
    assert(glob@.skip(i as int) =~= Seq::<char>::empty());
    assert(out@ + Seq::<char>::empty() =~= out@);
    out.append("$");
    out
}

/// The regular expression that a query is compiled from.
pub open spec fn expression_of(pattern: Seq<char>, mode: Mode) -> Seq<char> {
    if mode == Mode::Glob {
        glob_expression(pattern)
    } else {
        pattern
    }
}

/// A query is looked for as it is, or its expression is a regular one.
pub open spec fn is_sound(pattern: Seq<char>, mode: Mode, case_sensitive: bool) -> bool {
    mode == Mode::Substring || syntax_problem(
        expression_of(pattern, mode),
        !case_sensitive,
        PATTERN_NESTING,
    ) is None
}

/// Why a query is refused where it is: its expression is no regular one, or else
/// it is too large.
pub open spec fn refusal_of(pattern: Seq<char>, mode: Mode, case_sensitive: bool) -> Seq<char> {
    match syntax_problem(expression_of(pattern, mode), !case_sensitive, PATTERN_NESTING) {
        Some(problem) => problem,
        None => too_large_text(PATTERN_LIMIT),
    }
}

impl Matcher {
    /// Compiles a query. Looking for a piece of text always succeeds; what is no
    /// regular expression is refused, and of the others only what is too large.
    pub fn compile(pattern: &str, mode: Mode, case_sensitive: bool) -> (r: Result<Self, String>)
        ensures
            match r {
                Ok(m) => m@ == query_of(pattern@, mode, case_sensitive) && is_sound(
                    pattern@,
                    mode,
                    case_sensitive,
                ),
                Err(e) => mode != Mode::Substring && e@ == refusal_of(
                    pattern@,
                    mode,
                    case_sensitive,
                ),
            },
    {
        if mode == Mode::Substring {
            let needle = if case_sensitive {
                pattern.to_owned()
            } else {
                fold_str(pattern)
            };
            return Ok(Matcher::Substring { needle, exact_case: case_sensitive });
        }
        let expression = if mode == Mode::Glob {
            glob_regex(pattern)
        } else {
            pattern.to_owned()
        };
        Matcher::compiled(
            compile(
                expression.as_str(),
                !case_sensitive,
                PATTERN_LIMIT,
                PATTERN_LIMIT,
                PATTERN_NESTING,
            ),
        )
    }

    /// The query that a compiled expression makes, or the error it met.
    pub fn compiled(result: Result<Pattern, PatternError>) -> (r: Result<Self, String>)
        ensures
            match (result, r) {
                (Ok(p), Ok(m)) => m@ == MatcherView::Pattern(p@),
                (Err(PatternError::Syntax(e)), Err(f)) => f@ == e@,
                (Err(PatternError::TooLarge(_, e)), Err(f)) => f@ == e@,
                _ => false,
            },
    {
        match result {
            Ok(p) => Ok(Matcher::Pattern(p)),
            Err(PatternError::Syntax(e)) => Err(e),
            Err(PatternError::TooLarge(_, e)) => Err(e),
        }
    }

    /// Whether the query matches a text.
    pub fn matches(&self, text: &str) -> (b: bool)
        ensures
            b == finds(self@, text@),
    {
        match self {
            Matcher::Substring { needle, exact_case } => {
                let n = chars_of(needle.as_str());
                if *exact_case {
                    let t = chars_of(text);
                    has_text(t.as_slice(), n.as_slice())
                } else {
                    let t = chars_of(fold_str(text).as_str());
                    has_text(t.as_slice(), n.as_slice())
                }
            },
            Matcher::Pattern(p) => is_match(p, text),
        }
    }
}

// ---------------------------------------------------------------------------
// Filters
// ---------------------------------------------------------------------------

/// The hive whose abbreviation `s` is, in any ASCII case.
pub open spec fn hive_abbreviated(s: Seq<char>) -> Option<Hive> {
    if uppered(s) == "HKCU"@ {
        Some(Hive::Hkcu)
    } else if uppered(s) == "HKLM"@ {
        Some(Hive::Hklm)
    } else if uppered(s) == "HKCR"@ {
        Some(Hive::Hkcr)
    } else if uppered(s) == "HKU"@ {
        Some(Hive::Hku)
    } else if uppered(s) == "HKCC"@ {
        Some(Hive::Hkcc)
    } else {
        None
    }
}

/// A pattern with the abbreviation of its hive written in full.
pub open spec fn full_root(pattern: Seq<char>) -> Seq<char> {
    let i = first_of(pattern, '\\');
    let rest = if i < pattern.len() {
        pattern.skip(i + 1)
    } else {
        Seq::empty()
    };
    match hive_abbreviated(pattern.take(i)) {
        None => pattern,
        Some(hive) => if rest.len() == 0 {
            long_name_of(hive)
        } else {
            long_name_of(hive) + "\\"@ + rest
        },
    }
}

fn abbreviated_hive(s: &[char]) -> (r: Option<Hive>)
    ensures
        r == hive_abbreviated(s@),
{
    let upper = to_upper(s);
    let up = upper.as_slice();
    if is_text(up, "HKCU") {
        Some(Hive::Hkcu)
    } else if is_text(up, "HKLM") {
        Some(Hive::Hklm)
    } else if is_text(up, "HKCR") {
        Some(Hive::Hkcr)
    } else if is_text(up, "HKU") {
        Some(Hive::Hku)
    } else if is_text(up, "HKCC") {
        Some(Hive::Hkcc)
    } else {
        None
    }
}

/// Writes out the abbreviation of a pattern's hive.
pub fn expand_root_alias(pattern: &str) -> (r: String)
    ensures
        r@ == full_root(pattern@),
{
    let chars = chars_of(pattern);
    let s = chars.as_slice();
    let i = find_char(s, '\\');
    match abbreviated_hive(slice_subrange(s, 0, i)) {
        None => pattern.to_owned(),
        Some(hive) => {
            if i < s.len() && i + 1 < s.len() {
                let mut out = concat(hive.long_name(), "\\");
                out.append(string_of(slice_subrange(s, i + 1, s.len())).as_str());
                out
            } else {
                assert(i < s.len() ==> s@.skip(i + 1) =~= Seq::<char>::empty());
                hive.long_name().to_owned()
            }
        },
    }
}

/// Some query matches a text.
pub open spec fn any_finds(ms: Seq<MatcherView>, text: Seq<char>) -> bool {
    exists|i: int| 0 <= i < ms.len() && finds(#[trigger] ms[i], text)
}

/// A text passes: some query of `include` matches, or there is none, and none
/// of `exclude` does.
pub open spec fn passes(
    include_queries: Seq<MatcherView>,
    exclude_queries: Seq<MatcherView>,
    text: Seq<char>,
) -> bool {
    (include_queries.len() == 0 || any_finds(include_queries, text)) && !any_finds(
        exclude_queries,
        text,
    )
}

fn any_matches(ms: &Vec<Matcher>, text: &str) -> (b: bool)
    ensures
        b == any_finds(views(ms@), text@),
{
    for i in 0..ms.len()
        invariant
            forall|j: int| 0 <= j < i ==> !finds(#[trigger] views(ms@)[j], text@),
    {
        if ms[i].matches(text) {
            assert(finds(views(ms@)[i as int], text@));
            return true;
        }
    }
    false
}

/// What glob patterns compile to.
pub open spec fn globs_of(patterns: Seq<Seq<char>>, case_sensitive: bool) -> Seq<MatcherView> {
    patterns.map_values(|p: Seq<char>| query_of(p, Mode::Glob, case_sensitive))
}

/// Compiling the queries first failed at the `i`th of them.
pub open spec fn refused_at(results: Seq<Result<Matcher, String>>, i: int) -> bool {
    0 <= i < results.len() && results[i] is Err && forall|j: int|
        0 <= j < i ==> #[trigger] results[j] is Ok
}

/// The queries that compiling several gave, or the first failure and its place.
pub fn gather(results: Vec<Result<Matcher, String>>) -> (r: Result<
    Vec<Matcher>,
    (usize, String),
>)
    ensures
        match r {
            Ok(ms) => ms@.len() == results@.len() && forall|i: int|
                0 <= i < ms@.len() ==> #[trigger] results@[i] == Ok::<Matcher, String>(ms@[i]),
            Err((i, e)) => refused_at(results@, i as int) && results@[i as int] == Err::<
                Matcher,
                String,
            >(e),
        },
{
    let ghost all = results@;
    let count: usize = results.len();
    let mut rest = results;
    let mut out: Vec<Matcher> = Vec::new();
    let mut i: usize = 0;
    while rest.len() > 0
        invariant
            i == out@.len(),
            i + rest@.len() == count,
            count == all.len(),
            all == results@,
            rest@ == all.skip(i as int),
            forall|j: int| 0 <= j < i ==> #[trigger] all[j] == Ok::<Matcher, String>(out@[j]),
        decreases rest@.len(),
    {
        let first = rest.remove(0);
        assert(first == all[i as int]);
        assert(rest@ =~= all.skip(i + 1));
        match first {
            Ok(m) => {
                out.push(m);
                i += 1;
            },
            Err(e) => {
                return Err((i, e));
            },
        }
    }
    Ok(out)
}

/// Every glob is a regular expression.
pub open spec fn all_sound(globs: Seq<Seq<char>>, case_sensitive: bool) -> bool {
    forall|i: int| 0 <= i < globs.len() ==> is_sound(#[trigger] globs[i], Mode::Glob, case_sensitive)
}

/// The `i`th glob may be the first that is refused: those before it are regular
/// expressions.
pub open spec fn first_refused(globs: Seq<Seq<char>>, case_sensitive: bool, i: int) -> bool {
    0 <= i < globs.len() && all_sound(globs.take(i), case_sensitive)
}

/// A message says why the first glob that is refused is.
pub open spec fn tells_refusal(
    message: Seq<char>,
    globs: Seq<Seq<char>>,
    case_sensitive: bool,
) -> bool {
    exists|i: int|
        #[trigger] first_refused(globs, case_sensitive, i) && message == refusal_of(
            globs[i],
            Mode::Glob,
            case_sensitive,
        )
}

fn compile_each(globs: &[String], case_sensitive: bool) -> (results: Vec<Result<Matcher, String>>)
    ensures
        results@.len() == globs@.len(),
        forall|i: int| 0 <= i < results@.len() ==> compiled_from(#[trigger] results@[i], globs@[i]@, case_sensitive),
{
    let mut results: Vec<Result<Matcher, String>> = Vec::new();
    for i in 0..globs.len()
        invariant
            results@.len() == i,
            forall|j: int| 0 <= j < i ==> compiled_from(#[trigger] results@[j], globs@[j]@, case_sensitive),
    {
        results.push(Matcher::compile(globs[i].as_str(), Mode::Glob, case_sensitive));
    }
    results
}

/// What compiling a glob gives.
pub open spec fn compiled_from(
    result: Result<Matcher, String>,
    glob: Seq<char>,
    case_sensitive: bool,
) -> bool {
    match result {
        Ok(m) => m@ == query_of(glob, Mode::Glob, case_sensitive) && is_sound(
            glob,
            Mode::Glob,
            case_sensitive,
        ),
        Err(e) => e@ == refusal_of(glob, Mode::Glob, case_sensitive),
    }
}

/// Compiles glob patterns; fails with the error of the first that is refused.
pub fn glob_matchers(patterns: &[String], case_sensitive: bool) -> (r: Result<
    Vec<Matcher>,
    String,
>)
    ensures
        match r {
            Ok(ms) => views(ms@) == globs_of(views(patterns@), case_sensitive) && all_sound(
                views(patterns@),
                case_sensitive,
            ),
            Err(e) => tells_refusal(e@, views(patterns@), case_sensitive),
        },
        patterns@.len() == 0 ==> r is Ok,
{
    let ghost all = views(patterns@);
    let results = compile_each(patterns, case_sensitive);
    let ghost compiled = results@;
    match gather(results) {
        Ok(ms) => {
            assert forall|j: int| 0 <= j < ms@.len() implies ms@[j]@ == query_of(
                all[j],
                Mode::Glob,
                case_sensitive,
            ) && is_sound(#[trigger] all[j], Mode::Glob, case_sensitive) by {
                assert(compiled[j] == Ok::<Matcher, String>(ms@[j]));
                assert(compiled_from(compiled[j], patterns@[j]@, case_sensitive));
            }
            assert(views(ms@) =~= globs_of(all, case_sensitive));
            Ok(ms)
        },
        Err((i, e)) => {
            proof {
                let k = i as int;
                assert(compiled_from(compiled[k], patterns@[k]@, case_sensitive));
                assert forall|j: int| 0 <= j < k implies is_sound(
                    #[trigger] all.take(k)[j],
                    Mode::Glob,
                    case_sensitive,
                ) by {
                    assert(compiled[j] is Ok);
                    assert(compiled_from(compiled[j], patterns@[j]@, case_sensitive));
                }
                assert(first_refused(all, case_sensitive, k));
            }
            Err(e)
        },
    }
}

/// Patterns with the abbreviations of their hives written in full.
pub open spec fn full_roots(patterns: Seq<Seq<char>>) -> Seq<Seq<char>> {
    patterns.map_values(|p: Seq<char>| full_root(p))
}

/// A message names the first of `patterns` that is refused, as it was written,
/// and says why.
pub open spec fn blames(
    message: Seq<char>,
    kind: Seq<char>,
    patterns: Seq<Seq<char>>,
    case_sensitive: bool,
) -> bool {
    exists|i: int|
        #[trigger] first_refused(full_roots(patterns), case_sensitive, i) && message
            == invalid_text(
            kind,
            patterns[i],
            refusal_of(full_root(patterns[i]), Mode::Glob, case_sensitive),
        )
}

/// The queries that compiling key patterns gave. The first failure is told with
/// the pattern as it was written.
pub fn key_queries(results: Vec<Result<Matcher, String>>, patterns: &[String], kind: &str) -> (r:
    Result<Vec<Matcher>, String>)
    requires
        results@.len() == patterns@.len(),
    ensures
        match r {
            Ok(ms) => ms@.len() == results@.len() && forall|i: int|
                0 <= i < ms@.len() ==> #[trigger] results@[i] == Ok::<Matcher, String>(ms@[i]),
            Err(m) => exists|i: int, e: String|
                refused_at(results@, i) && results@[i] == Err::<Matcher, String>(e) && m@
                    == #[trigger] invalid_text(kind@, patterns@[i]@, e@),
        },
{
    match gather(results) {
        Ok(ms) => Ok(ms),
        Err((i, e)) => {
            let message = invalid_pattern(kind, patterns[i].as_str(), e.as_str());
            assert(message@ == invalid_text(kind@, patterns@[i as int]@, e@));
            Err(message)
        },
    }
}

fn key_matchers(patterns: &[String], kind: &str, case_sensitive: bool) -> (r: Result<
    Vec<Matcher>,
    String,
>)
    ensures
        match r {
            Ok(ms) => views(ms@) == globs_of(full_roots(views(patterns@)), case_sensitive)
                && all_sound(full_roots(views(patterns@)), case_sensitive),
            Err(m) => blames(m@, kind@, views(patterns@), case_sensitive),
        },
        patterns@.len() == 0 ==> r is Ok,
{
    let ghost all = full_roots(views(patterns@));
    let mut globs: Vec<String> = Vec::new();
    for i in 0..patterns.len()
        invariant
            all == full_roots(views(patterns@)),
            globs@.len() == i,
            forall|j: int| 0 <= j < i ==> (#[trigger] globs@[j])@ == all[j],
    {
        assert(all[i as int] == full_root(patterns@[i as int]@));
        globs.push(expand_root_alias(patterns[i].as_str()));
    }
    let results = compile_each(globs.as_slice(), case_sensitive);
    let ghost compiled = results@;
    match key_queries(results, patterns, kind) {
        Ok(ms) => {
            assert forall|j: int| 0 <= j < ms@.len() implies ms@[j]@ == query_of(
                all[j],
                Mode::Glob,
                case_sensitive,
            ) && is_sound(#[trigger] all[j], Mode::Glob, case_sensitive) by {
                assert(compiled[j] == Ok::<Matcher, String>(ms@[j]));
                assert(compiled_from(compiled[j], globs@[j]@, case_sensitive));
            }
            assert(views(ms@) =~= globs_of(all, case_sensitive));
            Ok(ms)
        },
        Err(m) => {
            proof {
                let (k, e) = choose|i: int, e: String|
                    refused_at(compiled, i) && compiled[i] == Err::<Matcher, String>(e) && m@
                        == #[trigger] invalid_text(kind@, patterns@[i]@, e@);
                assert(compiled_from(compiled[k], globs@[k]@, case_sensitive));
                assert forall|j: int| 0 <= j < k implies is_sound(
                    #[trigger] all.take(k)[j],
                    Mode::Glob,
                    case_sensitive,
                ) by {
                    assert(compiled[j] is Ok);
                    assert(compiled_from(compiled[j], globs@[j]@, case_sensitive));
                }
                assert(first_refused(all, case_sensitive, k));
                assert(views(patterns@)[k] == patterns@[k]@);
            }
            Err(m)
        },
    }
}

/// The words for a key pattern that was refused.
pub open spec fn invalid_text(kind: Seq<char>, pattern: Seq<char>, error: Seq<char>) -> Seq<char> {
    "invalid "@ + kind + " pattern "@ + debug_text(pattern) + ": "@ + error
}

/// The message for a key pattern that was refused.
pub fn invalid_pattern(kind: &str, pattern: &str, error: &str) -> (r: String)
    ensures
        r@ == invalid_text(kind@, pattern@, error@),
{
    let mut out = concat("invalid ", kind);
    out.append(" pattern ");
    out.append(to_debug(pattern).as_str());
    out.append(": ");
    out.append(error);
    out
}

/// The words for a value pattern that was refused.
pub open spec fn invalid_value_text(kind: Seq<char>, error: Seq<char>) -> Seq<char> {
    "invalid "@ + kind + " value pattern: "@ + error
}

/// A message says why the first of the value patterns that is refused is.
pub open spec fn blames_value(
    message: Seq<char>,
    kind: Seq<char>,
    patterns: Seq<Seq<char>>,
) -> bool {
    exists|e: Seq<char>|
        tells_refusal(e, patterns, false) && message == #[trigger] invalid_value_text(kind, e)
}

/// The message for a value pattern that was refused.
pub fn invalid_value_pattern(kind: &str, error: &str) -> (r: String)
    ensures
        r@ == invalid_value_text(kind@, error@),
{
    let mut out = concat("invalid ", kind);
    out.append(" value pattern: ");
    out.append(error);
    out
}

/// A message names the first key pattern that is refused; those to include come
/// before those to exclude.
pub open spec fn key_globs_refused(
    message: Seq<char>,
    include_globs: Seq<Seq<char>>,
    exclude_globs: Seq<Seq<char>>,
    case_sensitive: bool,
) -> bool {
    blames(message, "include"@, include_globs, case_sensitive) || (all_sound(
        full_roots(include_globs),
        case_sensitive,
    ) && blames(message, "exclude"@, exclude_globs, case_sensitive))
}

/// Which keys are looked at.
pub struct Filters {
    pub include_queries: Vec<Matcher>,
    pub exclude_queries: Vec<Matcher>,
}

/// What a pair of filter lists stands for.
pub struct FiltersView {
    pub include_queries: Seq<MatcherView>,
    pub exclude_queries: Seq<MatcherView>,
}

impl View for Filters {
    type V = FiltersView;

    open spec fn view(&self) -> FiltersView {
        FiltersView {
            include_queries: views(self.include_queries@),
            exclude_queries: views(self.exclude_queries@),
        }
    }
}

impl FiltersView {
    /// A text passes.
    pub open spec fn allows(self, text: Seq<char>) -> bool {
        passes(self.include_queries, self.exclude_queries, text)
    }

    /// There is something to filter by.
    pub open spec fn active(self) -> bool {
        self.include_queries.len() != 0 || self.exclude_queries.len() != 0
    }
}

impl Filters {
    /// Compiles globs over key paths; the hives may be abbreviated.
    pub fn compile_globs(
        include_globs: &[String],
        exclude_globs: &[String],
        case_sensitive: bool,
    ) -> (r: Result<Self, String>)
        ensures
            match r {
                Ok(f) => f@ == (FiltersView {
                    include_queries: globs_of(full_roots(views(include_globs@)), case_sensitive),
                    exclude_queries: globs_of(full_roots(views(exclude_globs@)), case_sensitive),
                }) && all_sound(full_roots(views(include_globs@)), case_sensitive) && all_sound(
                    full_roots(views(exclude_globs@)),
                    case_sensitive,
                ),
                Err(m) => key_globs_refused(
                    m@,
                    views(include_globs@),
                    views(exclude_globs@),
                    case_sensitive,
                ),
            },
            include_globs@.len() == 0 && exclude_globs@.len() == 0 ==> r is Ok,
    {
        let include_queries = match key_matchers(include_globs, "include", case_sensitive) {
            Ok(ms) => ms,
            Err(e) => {
                return Err(e);
            },
        };
        let exclude_queries = match key_matchers(exclude_globs, "exclude", case_sensitive) {
            Ok(ms) => ms,
            Err(e) => {
                return Err(e);
            },
        };
        Ok(Filters { include_queries, exclude_queries })
    }

    /// Whether a key path passes.
    pub fn allows(&self, path: &str) -> (b: bool)
        ensures
            b == self@.allows(path@),
    {
        (self.include_queries.len() == 0 || any_matches(&self.include_queries, path))
            && !any_matches(&self.exclude_queries, path)
    }
}

/// The name by which a value is filtered: `@` for the default value.
pub open spec fn filter_name(name: Option<Seq<char>>) -> Seq<char> {
    match name {
        None => "@"@,
        Some(n) => n,
    }
}

/// The name by which a value is filtered.
pub fn value_filter_name(name: &ValueName) -> (r: String)
    ensures
        r@ == filter_name(name@),
{
    match name {
        ValueName::Default => "@".to_owned(),
        ValueName::Named(n) => n.clone(),
    }
}

/// Which values are looked at.
pub struct ValueFilters {
    pub include_queries: Vec<Matcher>,
    pub exclude_queries: Vec<Matcher>,
}

impl View for ValueFilters {
    type V = FiltersView;

    open spec fn view(&self) -> FiltersView {
        FiltersView {
            include_queries: views(self.include_queries@),
            exclude_queries: views(self.exclude_queries@),
        }
    }
}

impl ValueFilters {
    /// Compiles globs over value names.
    pub fn compile_globs(include_globs: &[String], exclude_globs: &[String]) -> (r: Result<
        Self,
        String,
    >)
        ensures
            match r {
                Ok(f) => f@ == (FiltersView {
                    include_queries: globs_of(views(include_globs@), false),
                    exclude_queries: globs_of(views(exclude_globs@), false),
                }) && all_sound(views(include_globs@), false) && all_sound(
                    views(exclude_globs@),
                    false,
                ),
                Err(m) => blames_value(m@, "include"@, views(include_globs@)) || (all_sound(
                    views(include_globs@),
                    false,
                ) && blames_value(m@, "exclude"@, views(exclude_globs@))),
            },
            include_globs@.len() == 0 && exclude_globs@.len() == 0 ==> r is Ok,
    {
        let included = glob_matchers(include_globs, false);
        let excluded = glob_matchers(exclude_globs, false);
        ValueFilters::compiled(included, excluded)
    }

    /// The filters that compiling both lists gave. A failure tells which list it
    /// is of; one among the names to include comes first.
    pub fn compiled(
        included: Result<Vec<Matcher>, String>,
        excluded: Result<Vec<Matcher>, String>,
    ) -> (r: Result<Self, String>)
        ensures
            match (included, excluded) {
                (Err(e), _) => r matches Err(m) && m@ == invalid_value_text("include"@, e@),
                (_, Err(e)) => r matches Err(m) && m@ == invalid_value_text("exclude"@, e@),
                (Ok(i), Ok(x)) => r == Ok::<ValueFilters, String>(
                    (ValueFilters { include_queries: i, exclude_queries: x }),
                ),
            },
    {
        let include_queries = match included {
            Ok(ms) => ms,
            Err(e) => {
                return Err(invalid_value_pattern("include", e.as_str()));
            },
        };
        let exclude_queries = match excluded {
            Ok(ms) => ms,
            Err(e) => {
                return Err(invalid_value_pattern("exclude", e.as_str()));
            },
        };
        Ok(ValueFilters { include_queries, exclude_queries })
    }

    /// Whether there is something to filter by.
    pub fn is_active(&self) -> (b: bool)
        ensures
            b == self@.active(),
    {
        self.include_queries.len() != 0 || self.exclude_queries.len() != 0
    }

    /// Whether a value passes.
    pub fn allows(&self, name: &ValueName) -> (b: bool)
        ensures
            b == self@.allows(filter_name(name@)),
    {
        let text = value_filter_name(name);
        (self.include_queries.len() == 0 || any_matches(&self.include_queries, text.as_str()))
            && !any_matches(&self.exclude_queries, text.as_str())
    }
}

// ---------------------------------------------------------------------------
// Finding
// ---------------------------------------------------------------------------

/// The forms in which data is searched.
pub open spec fn data_forms(d: DataView) -> Seq<Seq<char>> {
    match d {
        DataView::Delete => seq!["delete"@],
        DataView::Sz(text) => seq![text],
        DataView::Dword(n) => seq![dec_of(n as nat), "0x"@ + hex_of(n as nat, 8)],
        DataView::Hex { bytes, .. } => seq![
            joined(bytes.map_values(|b: u8| hex_of(b as nat, 2)), " "@),
        ] + (match utf16_strings(bytes) {
            Some(texts) => texts,
            None => Seq::empty(),
        }),
    }
}

/// The text in which a type is searched: its name, and its id in decimal and
/// hexadecimal.
pub open spec fn type_form(d: DataView) -> Seq<char> {
    match type_id_of(d) {
        Some(id) => type_name_of(Some(id)) + " "@ + dec_of(id as nat) + " 0x"@ + short_hex_of(
            id as nat,
        ),
        None => type_name_of(None),
    }
}

/// The name in which a value is searched.
pub open spec fn search_name(name: Option<Seq<char>>) -> Seq<char> {
    match name {
        None => Seq::empty(),
        Some(n) => n,
    }
}

/// What is searched for, and where.
pub struct SearchView {
    pub query: MatcherView,
    pub fields: Seq<Field>,
    pub filters: FiltersView,
    pub value_filters: FiltersView,
}

/// One match where a condition holds.
pub open spec fn match_if(b: bool, m: MatchView) -> Seq<MatchView> {
    if b {
        seq![m]
    } else {
        Seq::empty()
    }
}

impl SearchView {
    /// A field is looked at: it is listed, or none is.
    pub open spec fn wants(self, field: Field) -> bool {
        self.fields.len() == 0 || self.fields.contains(field)
    }

    /// A key is looked at.
    pub open spec fn visits(self, key: BlockView) -> bool {
        self.filters.allows(path_text(key.path))
    }

    /// The match of a key's own path. Filtering by value names suppresses it.
    pub open spec fn key_hit(self, key: BlockView) -> Seq<MatchView> {
        match_if(
            !self.value_filters.active() && self.wants(Field::Key) && finds(
                self.query,
                path_text(key.path),
            ),
            MatchView { field: Field::Key, path: key.path, value: None },
        )
    }

    /// The match of a value's name.
    pub open spec fn name_hit(self, key: BlockView, v: EntryView) -> Seq<MatchView> {
        match_if(
            self.wants(Field::Name) && finds(self.query, search_name(v.name)),
            MatchView { field: Field::Name, path: key.path, value: Some(v) },
        )
    }

    /// The match of a value's type.
    pub open spec fn type_hit(self, key: BlockView, v: EntryView) -> Seq<MatchView> {
        match_if(
            self.wants(Field::Type) && finds(self.query, type_form(v.data)),
            MatchView { field: Field::Type, path: key.path, value: Some(v) },
        )
    }

    /// The match of a value's data.
    pub open spec fn data_hit(self, key: BlockView, v: EntryView) -> Seq<MatchView> {
        let forms = data_forms(v.data);
        match_if(
            self.wants(Field::Data) && exists|i: int|
                0 <= i < forms.len() && finds(self.query, #[trigger] forms[i]),
            MatchView { field: Field::Data, path: key.path, value: Some(v) },
        )
    }

    /// The matches of a value.
    pub open spec fn value_hits(self, key: BlockView, v: EntryView) -> Seq<MatchView> {
        if self.value_filters.allows(filter_name(v.name)) {
            self.name_hit(key, v) + self.type_hit(key, v) + self.data_hit(key, v)
        } else {
            Seq::empty()
        }
    }

    /// The matches of values, in order.
    pub open spec fn values_hits(self, key: BlockView, values: Seq<EntryView>) -> Seq<MatchView>
        decreases values.len(),
    {
        if values.len() == 0 {
            Seq::empty()
        } else {
            self.values_hits(key, values.drop_last()) + self.value_hits(key, values.last())
        }
    }

    /// The matches of a key and its values.
    pub open spec fn key_hits(self, key: BlockView) -> Seq<MatchView> {
        if self.visits(key) {
            self.key_hit(key) + self.values_hits(key, key.values)
        } else {
            Seq::empty()
        }
    }

    /// All matches, in order.
    pub open spec fn all_hits(self, keys: Seq<BlockView>) -> Seq<MatchView>
        decreases keys.len(),
    {
        if keys.len() == 0 {
            Seq::empty()
        } else {
            self.all_hits(keys.drop_last()) + self.key_hits(keys.last())
        }
    }

    /// The match, if any, that is found before a limit of zero ends the search:
    /// the key's own, or the name of the first value that passes.
    pub open spec fn first_of_key(self, key: BlockView, values: Seq<EntryView>) -> Seq<MatchView>
        decreases values.len(),
    {
        if self.key_hit(key).len() != 0 {
            self.key_hit(key)
        } else if values.len() == 0 {
            Seq::empty()
        } else if self.value_filters.allows(filter_name(values[0].name)) {
            self.name_hit(key, values[0])
        } else {
            self.first_of_key(key, values.skip(1))
        }
    }

    /// What a limit of zero finds: it ends the search within the first key that
    /// is looked at.
    pub open spec fn unlimited_none(self, keys: Seq<BlockView>) -> Seq<MatchView>
        decreases keys.len(),
    {
        if keys.len() == 0 {
            Seq::empty()
        } else if self.visits(keys[0]) {
            self.first_of_key(keys[0], keys[0].values)
        } else {
            self.unlimited_none(keys.skip(1))
        }
    }

    /// The matches up to a limit.
    pub open spec fn hits(self, keys: Seq<BlockView>, limit: nat) -> Seq<MatchView> {
        if limit == 0 {
            self.unlimited_none(keys)
        } else if self.all_hits(keys).len() <= limit {
            self.all_hits(keys)
        } else {
            self.all_hits(keys).take(limit as int)
        }
    }
}

/// `a` is the beginning of `b`.
pub open spec fn prefix_of(a: Seq<MatchView>, b: Seq<MatchView>) -> bool {
    a.len() <= b.len() && b.take(a.len() as int) == a
}

proof fn values_hits_grow(q: SearchView, key: BlockView, values: Seq<EntryView>, n: int)
    requires
        0 <= n <= values.len(),
    ensures
        prefix_of(q.values_hits(key, values.take(n)), q.values_hits(key, values)),
    decreases values.len() - n,
{
    if n < values.len() {
        let a = q.values_hits(key, values.take(n));
        let b = q.values_hits(key, values.take(n + 1));
        let c = q.values_hits(key, values);
        assert(values.take(n + 1).drop_last() =~= values.take(n));
        values_hits_grow(q, key, values, n + 1);
        assert(b.take(a.len() as int) =~= a);
        assert(c.take(a.len() as int) =~= c.take(b.len() as int).take(a.len() as int));
    } else {
        assert(values.take(n) =~= values);
        let c = q.values_hits(key, values);
        assert(c.take(c.len() as int) =~= c);
    }
}

proof fn all_hits_grow(q: SearchView, keys: Seq<BlockView>, n: int)
    requires
        0 <= n <= keys.len(),
    ensures
        prefix_of(q.all_hits(keys.take(n)), q.all_hits(keys)),
    decreases keys.len() - n,
{
    if n < keys.len() {
        let a = q.all_hits(keys.take(n));
        let b = q.all_hits(keys.take(n + 1));
        let c = q.all_hits(keys);
        assert(keys.take(n + 1).drop_last() =~= keys.take(n));
        all_hits_grow(q, keys, n + 1);
        assert(b.take(a.len() as int) =~= a);
        assert(c.take(a.len() as int) =~= c.take(b.len() as int).take(a.len() as int));
    } else {
        assert(keys.take(n) =~= keys);
        let c = q.all_hits(keys);
        assert(c.take(c.len() as int) =~= c);
    }
}

/// Never more matches than asked for, where at least one is asked for.
pub proof fn limit_bounds_the_matches(q: SearchView, keys: Seq<BlockView>, limit: nat)
    requires
        limit > 0,
    ensures
        q.hits(keys, limit).len() <= limit,
        prefix_of(q.hits(keys, limit), q.all_hits(keys)),
{
    let all = q.all_hits(keys);
    assert(all.take(all.len() as int) =~= all);
}

/// With a filter on value names no match is of a key alone.
pub proof fn value_filters_suppress_key_matches(q: SearchView, keys: Seq<BlockView>)
    requires
        q.value_filters.active(),
    ensures
        forall|i: int|
            0 <= i < q.all_hits(keys).len() ==> (#[trigger] q.all_hits(keys)[i]).field
                != Field::Key,
    decreases keys.len(),
{
    if keys.len() > 0 {
        value_filters_suppress_key_matches(q, keys.drop_last());
        values_are_not_keys(q, keys.last(), keys.last().values);
        let a = q.all_hits(keys.drop_last());
        let b = q.key_hits(keys.last());
        assert forall|i: int| 0 <= i < q.all_hits(keys).len() implies (#[trigger] q.all_hits(
            keys,
        )[i]).field != Field::Key by {
            if i < a.len() {
                assert(q.all_hits(keys)[i] == a[i]);
            } else {
                assert(q.all_hits(keys)[i] == b[i - a.len()]);
            }
        }
    }
}

proof fn values_are_not_keys(q: SearchView, key: BlockView, values: Seq<EntryView>)
    ensures
        forall|i: int|
            0 <= i < q.values_hits(key, values).len() ==> (#[trigger] q.values_hits(
                key,
                values,
            )[i]).field != Field::Key,
    decreases values.len(),
{
    if values.len() > 0 {
        values_are_not_keys(q, key, values.drop_last());
    }
}

fn wanted(fields: &[Field], field: Field) -> (b: bool)
    ensures
        b == (fields@.len() == 0 || fields@.contains(field)),
{
    if fields.len() == 0 {
        return true;
    }
    for i in 0..fields.len()
        invariant
            forall|j: int| 0 <= j < i ==> fields@[j] != field,
    {
        if fields[i] == field {
            assert(fields@[i as int] == field);
            return true;
        }
    }
    false
}

/// The forms in which data is searched.
pub fn searchable_data(data: &RegData) -> (out: Vec<String>)
    ensures
        views(out@) == data_forms(data@),
{
    broadcast use {views_push, views_concat};

    let mut out: Vec<String> = Vec::new();
    match data {
        RegData::Delete => {
            out.push("delete".to_owned());
            assert(views(out@) =~= data_forms(data@));
        },
        RegData::Sz(text) => {
            out.push(text.clone());
            assert(views(out@) =~= data_forms(data@));
        },
        RegData::Dword(n) => {
            out.push(to_dec(*n as u64));
            let mut hex = "0x".to_owned();
            push_hex(&mut hex, *n as u64, 8);
            out.push(hex);
            assert(views(out@) =~= data_forms(data@));
        },
        RegData::Hex { bytes, .. } => {
            let mut digits: Vec<String> = Vec::new();
            for i in 0..bytes.len()
                invariant
                    views(digits@) =~= bytes@.take(i as int).map_values(
                        |b: u8| hex_of(b as nat, 2),
                    ),
            {
                let mut one = String::new();
                push_hex(&mut one, bytes[i] as u64, 2);
                assert(one@ =~= hex_of(bytes@[i as int] as nat, 2));
                let ghost before = digits@;
                digits.push(one);
                assert(views(digits@) == views(before).push(one@));
            }
            assert(bytes@.take(bytes@.len() as int) =~= bytes@);
            let hex = join(digits.as_slice(), " ");
            out.push(hex);
            let mut texts = utf16_from_bytes(bytes.as_slice());
            let ghost more = views(texts@);
            let ghost before = out@;
            out.append(&mut texts);
            assert(views(out@) =~= views(before) + more);
            assert(views(before) =~= seq![hex@]);
        },
    }
    out
}

fn type_text(data: &RegData) -> (r: String)
    ensures
        r@ == type_form(data@),
{
    match data.type_id() {
        Some(id) => {
            let mut out = concat(data.type_label(), " ");
            push_dec(&mut out, id as u64);
            out.append(" 0x");
            push_short_hex(&mut out, id as u64);
            out
        },
        None => data.type_label().to_owned(),
    }
}

fn value_match(field: Field, key: &KeyBlock, value: &ValueEntry) -> (r: Match)
    ensures
        r@ == (MatchView { field, path: key@.path, value: Some(value@) }),
        r.wf(),
{
    Match {
        field,
        path: key.path.clone(),
        name: Some(value.name.clone()),
        type_label: Some(value.data.type_label()),
        data: Some(value.data.preview()),
        exact: Some(value.clone()),
    }
}

fn data_matches(query: &Matcher, data: &RegData) -> (b: bool)
    ensures
        b == exists|i: int|
            0 <= i < data_forms(data@).len() && finds(query@, #[trigger] data_forms(data@)[i]),
{
    let forms = searchable_data(data);
    let ghost all = data_forms(data@);
    for i in 0..forms.len()
        invariant
            all == data_forms(data@),
            views(forms@) == all,
            forall|j: int| 0 <= j < i ==> !finds(query@, #[trigger] all[j]),
    {
        assert(all[i as int] == forms@[i as int]@);
        if query.matches(forms[i].as_str()) {
            assert(finds(query@, all[i as int]));
            return true;
        }
    }
    false
}

/// All matches in hand agree with their values.
pub open spec fn all_wf(found: Seq<Match>) -> bool {
    forall|i: int| 0 <= i < found.len() ==> (#[trigger] found[i]).wf()
}

/// Appends the matches of a value until the limit is reached; tells whether it
/// was.
fn find_in_value(
    found: &mut Vec<Match>,
    key: &KeyBlock,
    value: &ValueEntry,
    query: &Matcher,
    fields: &[Field],
    limit: usize,
    Ghost(q): Ghost<SearchView>,
) -> (full: bool)
    requires
        q.query == query@,
        q.fields == fields@,
        q.value_filters.allows(filter_name(value@.name)),
        old(found)@.len() < limit || limit == 0,
        all_wf(old(found)@),
    ensures
        all_wf(final(found)@),
        prefix_of(
            views(final(found)@),
            views(old(found)@) + q.value_hits(key@, value@),
        ),
        limit > 0 ==> full == (final(found)@.len() >= limit) && final(found)@.len() <= limit,
        limit > 0 && !full ==> views(final(found)@) == views(old(found)@) + q.value_hits(
            key@,
            value@,
        ),
        limit == 0 ==> full && views(final(found)@) == views(old(found)@) + q.name_hit(
            key@,
            value@,
        ),
{
    broadcast use views_push;

    let ghost start = views(found@);
    let ghost n = q.name_hit(key@, value@);
    let ghost t = q.type_hit(key@, value@);
    let ghost d = q.data_hit(key@, value@);
    let name = value.name.api();
    assert(name@ == search_name(value@.name));
    if wanted(fields, Field::Name) && query.matches(name.as_str()) {
        let m = value_match(Field::Name, key, value);
        let ghost before = found@;
        found.push(m);
        assert(views(found@) == views(before).push(m@));
    }
    assert(views(found@) =~= start + n);
    proof {
        let whole = start + (n + t + d);
        assert(whole.take((start + n).len() as int) =~= start + n);
        assert(whole.take((start + n + t).len() as int) =~= start + n + t);
        assert(whole.take((start + n + t + d).len() as int) =~= start + n + t + d);
        assert(whole =~= start + n + t + d);
    }
    if found.len() >= limit {
        return true;
    }
    let ty = type_text(&value.data);
    if wanted(fields, Field::Type) && query.matches(ty.as_str()) {
        let m = value_match(Field::Type, key, value);
        let ghost before = found@;
        found.push(m);
        assert(views(found@) == views(before).push(m@));
    }
    assert(views(found@) =~= start + n + t);
    if found.len() >= limit {
        return true;
    }
    if wanted(fields, Field::Data) && data_matches(query, &value.data) {
        let m = value_match(Field::Data, key, value);
        let ghost before = found@;
        found.push(m);
        assert(views(found@) == views(before).push(m@));
    }
    assert(views(found@) =~= start + n + t + d);
    found.len() >= limit
}

/// Searches keys and their values. An empty list of fields means all of them.
/// At most `limit` matches are given, the first in order, but for a limit of
/// zero, which ends the search within the first key that is looked at.
pub fn find(
    keys: &[KeyBlock],
    query: &Matcher,
    fields: &[Field],
    filters: &Filters,
    value_filters: &ValueFilters,
    limit: usize,
) -> (found: Vec<Match>)
    ensures
        views(found@) == (SearchView {
            query: query@,
            fields: fields@,
            filters: filters@,
            value_filters: value_filters@,
        }).hits(views(keys@), limit as nat),
        all_wf(found@),
{
    broadcast use views_push;

    let ghost q = SearchView {
        query: query@,
        fields: fields@,
        filters: filters@,
        value_filters: value_filters@,
    };
    let ghost all = views(keys@);
    let mut found: Vec<Match> = Vec::new();
    assert(views(found@) =~= Seq::<MatchView>::empty());
    assert(all.take(0) =~= Seq::<BlockView>::empty());
    assert(all.skip(0) =~= all);
    for k in 0..keys.len()
        invariant
            q == (SearchView {
                query: query@,
                fields: fields@,
                filters: filters@,
                value_filters: value_filters@,
            }),
            all == views(keys@),
            all_wf(found@),
            limit > 0 ==> found@.len() < limit,
            limit > 0 ==> views(found@) == q.all_hits(all.take(k as int)),
            limit == 0 ==> found@.len() == 0 && q.unlimited_none(all) == q.unlimited_none(
                all.skip(k as int),
            ),
    {
        let key = &keys[k];
        let ghost kv = all[k as int];
        let ghost start = views(found@);
        proof {
            assert(kv == key@);
            assert(all.take(k + 1).drop_last() =~= all.take(k as int));
            assert(all.take(k + 1).last() == kv);
            assert(all.skip(k as int)[0] == kv);
            assert(all.skip(k as int).skip(1) =~= all.skip(k + 1));
            all_hits_grow(q, all, k + 1);
        }
        let path = key.path.to_string();
        if filters.allows(path.as_str()) {
            if !value_filters.is_active() && wanted(fields, Field::Key) && query.matches(
                path.as_str(),
            ) {
                let m = Match {
                    field: Field::Key,
                    path: key.path.clone(),
                    name: None,
                    type_label: None,
                    data: None,
                    exact: None,
                };
                let ghost before = found@;
                found.push(m);
                proof {
                    assert(views(found@) == views(before).push(m@));
                    assert(views(found@) =~= start + q.key_hit(kv));
                    let c = q.all_hits(all);
                    let b = q.all_hits(all.take(k + 1));
                    assert(limit > 0 ==> b.take((start + q.key_hit(kv)).len() as int) =~= start
                        + q.key_hit(kv));
                    assert(limit > 0 ==> c.take((start + q.key_hit(kv)).len() as int) =~= c.take(
                        b.len() as int,
                    ).take((start + q.key_hit(kv)).len() as int));
                }
                if found.len() >= limit {
                    proof {
                        if limit == 0 {
                            assert(start =~= Seq::<MatchView>::empty());
                            assert(start + q.key_hit(kv) =~= q.key_hit(kv));
                        } else {
                            let c = q.all_hits(all);
                            assert(c.take(c.len() as int) =~= c);
                        }
                    }
                    return found;
                }
            }
            assert(views(found@) =~= start + q.key_hit(kv));
            let ghost opened = views(found@);
            let ghost values = kv.values;
            let mut full = false;
            let mut v: usize = 0;
            assert(values == views(key.values@));
            assert(values.take(0) =~= Seq::<EntryView>::empty());
            assert(values.skip(0) =~= values);
            assert(opened =~= opened + q.values_hits(kv, values.take(0)));
            while v < key.values.len() && !full
                invariant
                    kv == key@,
                    values == views(key.values@),
                    values == kv.values,
                    q.query == query@,
                    q.fields == fields@,
                    q.value_filters == value_filters@,
                    v <= key.values.len(),
                    all_wf(found@),
                    opened == start + q.key_hit(kv),
                    limit > 0 ==> found@.len() <= limit && full == (found@.len() >= limit),
                    limit > 0 && !full ==> views(found@) == opened + q.values_hits(
                        kv,
                        values.take(v as int),
                    ),
                    limit > 0 && full ==> prefix_of(
                        views(found@),
                        opened + q.values_hits(kv, values),
                    ),
                    limit == 0 ==> start.len() == 0 && q.key_hit(kv).len() == 0,
                    limit == 0 && !full ==> found@.len() == 0 && q.first_of_key(kv, values)
                        == q.first_of_key(kv, values.skip(v as int)),
                    limit == 0 && full ==> views(found@) == q.first_of_key(kv, values),
                decreases key.values.len() - v,
            {
                let value = &key.values[v];
                let ghost vv = values[v as int];
                let ghost before = views(found@);
                proof {
                    assert(vv == value@);
                    assert(values.take(v + 1).drop_last() =~= values.take(v as int));
                    assert(values.take(v + 1).last() == vv);
                    assert(values.skip(v as int)[0] == vv);
                    assert(values.skip(v as int).skip(1) =~= values.skip(v + 1));
                    values_hits_grow(q, kv, values, v + 1);
                }
                if value_filters.allows(&value.name) {
                    full = find_in_value(&mut found, key, value, query, fields, limit, Ghost(q));
                    proof {
                        let now = views(found@);
                        let hits = q.value_hits(kv, vv);
                        let upto = q.values_hits(kv, values.take(v + 1));
                        let whole = q.values_hits(kv, values);
                        if limit > 0 {
                            assert(before + hits =~= opened + upto);
                            if full {
                                assert((opened + whole).take((opened + upto).len() as int)
                                    =~= opened + upto);
                                assert((opened + whole).take(now.len() as int) =~= (opened
                                    + upto).take(now.len() as int));
                            }
                        } else {
                            assert(before =~= Seq::<MatchView>::empty());
                            assert(before + q.name_hit(kv, vv) =~= q.name_hit(kv, vv));
                        }
                    }
                } else {
                    proof {
                        assert(limit > 0 ==> opened + q.values_hits(kv, values.take(v + 1))
                            =~= opened + q.values_hits(kv, values.take(v as int)));
                    }
                }
                v += 1;
            }
            proof {
                let b = q.all_hits(all.take(k + 1));
                let c = q.all_hits(all);
                let now = views(found@);
                if limit > 0 {
                    assert(b =~= opened + q.values_hits(kv, values));
                    if full {
                        assert(now == b.take(now.len() as int));
                        assert(c.take(now.len() as int) =~= c.take(b.len() as int).take(
                            now.len() as int,
                        ));
                        assert(c.take(c.len() as int) =~= c);
                    } else {
                        assert(values.take(values.len() as int) =~= values);
                    }
                } else if !full {
                    assert(values.skip(values.len() as int) =~= Seq::<EntryView>::empty());
                    assert(now =~= Seq::<MatchView>::empty());
                }
            }
            if full || found.len() >= limit {
                return found;
            }
        } else {
            assert(limit > 0 ==> q.all_hits(all.take(k + 1)) =~= q.all_hits(all.take(k as int)));
        }
    }
    proof {
        assert(all.take(all.len() as int) =~= all);
        assert(all.skip(all.len() as int) =~= Seq::<BlockView>::empty());
        if limit == 0 {
            assert(views(found@) =~= Seq::<MatchView>::empty());
        }
    }
    found
}

// ---------------------------------------------------------------------------
// What queries and searches find
// ---------------------------------------------------------------------------

/// A case-sensitive text query matches a text exactly where the query occurs in
/// it, character for character.
pub proof fn exact_queries_find_their_text(pattern: Seq<char>, text: Seq<char>)
    ensures
        finds(query_of(pattern, Mode::Substring, true), text) <==> exists|i: int|
            0 <= i && i + pattern.len() <= text.len() && #[trigger] text.subrange(
                i,
                i + pattern.len(),
            ) == pattern,
        finds(query_of(pattern, Mode::Substring, true), pattern),
{
    let m = query_of(pattern, Mode::Substring, true);
    if finds(m, text) {
        let i = choose|i: int| text_at(text, pattern, i);
        assert(text.subrange(i, i + pattern.len()) == pattern);
    }
    if exists|i: int|
        0 <= i && i + pattern.len() <= text.len() && #[trigger] text.subrange(i, i + pattern.len())
            == pattern {
        let i = choose|i: int|
            0 <= i && i + pattern.len() <= text.len() && #[trigger] text.subrange(
                i,
                i + pattern.len(),
            ) == pattern;
        assert(text_at(text, pattern, i));
    }
    assert(pattern.subrange(0, pattern.len() as int) =~= pattern);
    assert(text_at(pattern, pattern, 0));
}

/// A text query that ignores case matches exactly where a piece of the text is
/// the query but for case; the case of the query makes no difference, nor does
/// that of the text.
pub proof fn loose_queries_ignore_case(pattern: Seq<char>, text: Seq<char>)
    ensures
        finds(query_of(pattern, Mode::Substring, false), text) <==> exists|i: int|
            0 <= i && i + pattern.len() <= text.len() && folded(
                #[trigger] text.subrange(i, i + pattern.len()),
            ) == folded(pattern),
        lowered(pattern) == lowered(text) ==> finds(
            query_of(pattern, Mode::Substring, false),
            text,
        ),
        finds(query_of(pattern, Mode::Substring, true), text) ==> finds(
            query_of(pattern, Mode::Substring, false),
            text,
        ),
{
    let m = query_of(pattern, Mode::Substring, false);
    let n = pattern.len() as int;
    let needle = folded(pattern);
    assert(needle.len() == n);
    assert(folded(text).len() == text.len());
    if finds(m, text) {
        let i = choose|i: int| text_at(folded(text), needle, i);
        assert(folded(text.subrange(i, i + n)) =~= folded(text).subrange(i, i + n));
        assert(folded(text.subrange(i, i + n)) == needle);
    }
    if exists|i: int|
        0 <= i && i + pattern.len() <= text.len() && folded(
            #[trigger] text.subrange(i, i + pattern.len()),
        ) == folded(pattern) {
        let i = choose|i: int|
            0 <= i && i + pattern.len() <= text.len() && folded(
                #[trigger] text.subrange(i, i + pattern.len()),
            ) == folded(pattern);
        assert(folded(text.subrange(i, i + n)) =~= folded(text).subrange(i, i + n));
        assert(text_at(folded(text), needle, i));
    }
    if lowered(pattern) == lowered(text) {
        assert(lowered(text).len() == text.len() && lowered(pattern).len() == n);
        assert forall|i: int| 0 <= i < n implies folded(text)[i] == needle[i] by {
            assert(lowered(text)[i] == lowered(pattern)[i]);
            same_letters_fold_alike(text[i], pattern[i]);
        }
        assert(folded(text) =~= needle);
        assert(folded(text).subrange(0, n) =~= needle);
        assert(text_at(folded(text), needle, 0));
    }
    if finds(query_of(pattern, Mode::Substring, true), text) {
        let i = choose|i: int| text_at(text, pattern, i);
        assert(folded(text).subrange(i, i + n) =~= folded(text.subrange(i, i + n)));
        assert(text_at(folded(text), needle, i));
    }
}

proof fn same_letters_fold_alike(a: char, b: char)
    requires
        lower_char(a) == lower_char(b),
    ensures
        fold_char(a) == fold_char(b),
{
    vstd::utf8::char_u32_cast(a, a as u32);
    vstd::utf8::char_u32_cast(b, b as u32);
}

/// A filter lets pass what one of the patterns to be kept matches, or anything
/// where there are none, unless one of the patterns to be left out matches it.
pub proof fn filters_keep_and_leave_out(f: FiltersView, text: Seq<char>, i: int)
    ensures
        0 <= i < f.exclude_queries.len() && finds(f.exclude_queries[i], text) ==> !f.allows(text),
        f.include_queries.len() > 0 && (forall|k: int|
            0 <= k < f.include_queries.len() ==> !finds(#[trigger] f.include_queries[k], text))
            ==> !f.allows(text),
        0 <= i < f.include_queries.len() && finds(f.include_queries[i], text) && (forall|k: int|
            0 <= k < f.exclude_queries.len() ==> !finds(#[trigger] f.exclude_queries[k], text))
            ==> f.allows(text),
        f.include_queries.len() == 0 && f.exclude_queries.len() == 0 ==> f.allows(text),
        f.active() <==> f.include_queries.len() > 0 || f.exclude_queries.len() > 0,
{
}

/// A match tells the truth: it is of a key that was searched and let pass, and of
/// a value of that key where it is of one; and the query matches what the field
/// names.
pub open spec fn truthful(q: SearchView, keys: Seq<BlockView>, m: MatchView) -> bool {
    exists|k: int|
        #![trigger keys[k]]
        0 <= k < keys.len() && keys[k].path == m.path && q.filters.allows(path_text(keys[k].path))
            && (q.fields.len() == 0 || q.fields.contains(m.field)) && match m.value {
            None => m.field == Field::Key && finds(q.query, path_text(m.path))
                && !q.value_filters.active(),
            Some(v) => keys[k].values.contains(v) && truthful_value(q, m.field, v),
        }
}

/// A match of a value tells the truth.
pub open spec fn truthful_value(q: SearchView, field: Field, v: EntryView) -> bool {
    &&& q.value_filters.allows(filter_name(v.name))
    &&& field != Field::Key
    &&& field == Field::Name ==> finds(
        q.query,
        if v.name is None {
            Seq::<char>::empty()
        } else {
            v.name->0
        },
    )
    &&& field == Field::Type ==> finds(q.query, type_form(v.data))
    &&& field == Field::Data ==> exists|i: int|
        0 <= i < data_forms(v.data).len() && finds(q.query, #[trigger] data_forms(v.data)[i])
}

proof fn value_hits_are_truthful(
    q: SearchView,
    key: BlockView,
    values: Seq<EntryView>,
    i: int,
)
    requires
        0 <= i < q.values_hits(key, values).len(),
    ensures
        ({
            let m = q.values_hits(key, values)[i];
            &&& m.path == key.path
            &&& m.value is Some
            &&& values.contains(m.value->0)
            &&& truthful_value(q, m.field, m.value->0)
            &&& q.fields.len() == 0 || q.fields.contains(m.field)
        }),
    decreases values.len(),
{
    let front = q.values_hits(key, values.drop_last());
    let all = q.values_hits(key, values);
    if i < front.len() {
        value_hits_are_truthful(q, key, values.drop_last(), i);
        assert(all[i] == front[i]);
        let v = front[i].value->0;
        let k = choose|k: int| 0 <= k < values.drop_last().len() && values.drop_last()[k] == v;
        assert(values[k] == v);
    } else {
        let v = values.last();
        assert(values[values.len() - 1] == v);
        let m = q.value_hits(key, v)[i - front.len()];
        assert(all[i] == m);
    }
}

/// Every match tells the truth.
pub proof fn matches_tell_the_truth(q: SearchView, keys: Seq<BlockView>, i: int)
    requires
        0 <= i < q.all_hits(keys).len(),
    ensures
        truthful(q, keys, q.all_hits(keys)[i]),
    decreases keys.len(),
{
    let front = q.all_hits(keys.drop_last());
    let all = q.all_hits(keys);
    if i < front.len() {
        matches_tell_the_truth(q, keys.drop_last(), i);
        assert(all[i] == front[i]);
        let m = front[i];
        let k = choose|k: int|
            #![trigger keys.drop_last()[k]]
            0 <= k < keys.drop_last().len() && keys.drop_last()[k].path == m.path
                && q.filters.allows(path_text(keys.drop_last()[k].path)) && (q.fields.len() == 0
                || q.fields.contains(m.field)) && match m.value {
                None => m.field == Field::Key && finds(q.query, path_text(m.path))
                    && !q.value_filters.active(),
                Some(v) => keys.drop_last()[k].values.contains(v) && truthful_value(
                    q,
                    m.field,
                    v,
                ),
            };
        assert(keys[k] == keys.drop_last()[k]);
    } else {
        let key = keys.last();
        let j = i - front.len();
        assert(keys[keys.len() - 1] == key);
        assert(all[i] == q.key_hits(key)[j]);
        let own = q.key_hit(key);
        if j >= own.len() {
            assert(q.key_hits(key)[j] == q.values_hits(key, key.values)[j - own.len()]);
            value_hits_are_truthful(q, key, key.values, j - own.len());
        }
    }
}

proof fn value_hits_are_complete(
    q: SearchView,
    key: BlockView,
    values: Seq<EntryView>,
    v: int,
    field: Field,
)
    requires
        0 <= v < values.len(),
        q.fields.len() == 0 || q.fields.contains(field),
        truthful_value(q, field, values[v]),
    ensures
        q.values_hits(key, values).contains(
            MatchView { field, path: key.path, value: Some(values[v]) },
        ),
    decreases values.len(),
{
    let front = q.values_hits(key, values.drop_last());
    let last = q.value_hits(key, values.last());
    let all = q.values_hits(key, values);
    let m = MatchView { field, path: key.path, value: Some(values[v]) };
    if v < values.len() - 1 {
        assert(values.drop_last()[v] == values[v]);
        value_hits_are_complete(q, key, values.drop_last(), v, field);
        let k = choose|k: int| 0 <= k < front.len() && front[k] == m;
        assert(all[k] == m);
    } else {
        let n = q.name_hit(key, values[v]);
        let t = q.type_hit(key, values[v]);
        let d = q.data_hit(key, values[v]);
        let at = match field {
            Field::Name => 0int,
            Field::Type => n.len() as int,
            _ => (n + t).len() as int,
        };
        assert(last == n + t + d);
        assert(last[at] == m);
        assert(all[front.len() + at] == m);
    }
}

/// Nothing is overlooked: what the query matches in a key that passes, or in a
/// value of it that passes, is among the matches, for each field that is looked
/// at.
pub proof fn nothing_is_overlooked(
    q: SearchView,
    keys: Seq<BlockView>,
    k: int,
    v: int,
    field: Field,
)
    requires
        0 <= k < keys.len(),
        q.filters.allows(path_text(keys[k].path)),
        q.fields.len() == 0 || q.fields.contains(field),
    ensures
        field == Field::Key && !q.value_filters.active() && finds(q.query, path_text(keys[k].path))
            ==> q.all_hits(keys).contains(
            MatchView { field, path: keys[k].path, value: None },
        ),
        0 <= v < keys[k].values.len() && truthful_value(q, field, keys[k].values[v])
            ==> q.all_hits(keys).contains(
            MatchView { field, path: keys[k].path, value: Some(keys[k].values[v]) },
        ),
    decreases keys.len(),
{
    let front = q.all_hits(keys.drop_last());
    let last = q.key_hits(keys.last());
    let all = q.all_hits(keys);
    let own = MatchView { field, path: keys[k].path, value: None };
    let of_value = MatchView { field, path: keys[k].path, value: Some(keys[k].values[v]) };
    if k < keys.len() - 1 {
        assert(keys.drop_last()[k] == keys[k]);
        nothing_is_overlooked(q, keys.drop_last(), k, v, field);
        if front.contains(own) {
            let j = choose|j: int| 0 <= j < front.len() && front[j] == own;
            assert(all[j] == own);
        }
        if front.contains(of_value) {
            let j = choose|j: int| 0 <= j < front.len() && front[j] == of_value;
            assert(all[j] == of_value);
        }
    } else {
        let key = keys.last();
        let hit = q.key_hit(key);
        let values = q.values_hits(key, key.values);
        if field == Field::Key && !q.value_filters.active() && finds(q.query, path_text(key.path)) {
            assert(hit[0] == own);
            assert(last[0] == own);
            assert(all[front.len() as int] == own);
        }
        if 0 <= v < key.values.len() && truthful_value(q, field, key.values[v]) {
            value_hits_are_complete(q, key, key.values, v, field);
            let j = choose|j: int| 0 <= j < values.len() && values[j] == of_value;
            assert(last[hit.len() + j] == of_value);
            assert(all[front.len() + hit.len() + j] == of_value);
        }
    }
}

/// What is searched in the data of a value: a text is searched as it stands, a
/// number in decimal and in hexadecimal, and bytes in hexadecimal and as the
/// texts that they store.
pub proof fn data_is_searched_as_it_reads(d: DataView, texts: Seq<Seq<char>>, i: int)
    ensures
        d matches DataView::Sz(s) ==> data_forms(d) == seq![s],
        d matches DataView::Dword(n) ==> data_forms(d).contains(dec_of(n as nat)),
        d matches DataView::Hex { ty, bytes } ==> (bytes == crate::model::list_bytes(texts)
            && crate::model::listable(texts) && 0 <= i < texts.len() ==> data_forms(d).contains(
            texts[i],
        )),
{
    if let DataView::Dword(n) = d {
        assert(data_forms(d)[0] == dec_of(n as nat));
    }
    if let DataView::Hex { ty, bytes } = d {
        if bytes == crate::model::list_bytes(texts) && crate::model::listable(texts) && 0 <= i
            < texts.len() {
            crate::model::string_lists_read_back(texts);
            assert(data_forms(d)[1 + i] == texts[i]);
        }
    }
}

} // verus!
