//! Where registry data is read from, and what is asked of it.
use vstd::prelude::*;

use crate::exit::{done_result, failed, plain_error, usage, usage_error, ErrorView, ExitError};
use crate::model::{path_named, same_key, BlockView, Hive, KeyBlock, PathView, RegPath};
use crate::paths::{lies_below, path_is_within};
use crate::search::{Match, Matcher};
use crate::text::{concat3, copy_opt, debug_text, opt_str, opt_text, to_debug, views};
use crate::views::ViewChoice;

verus! {

// ---------------------------------------------------------------------------
// Sources
// ---------------------------------------------------------------------------

/// An optional key.
pub open spec fn opt_path(p: Option<RegPath>) -> Option<PathView> {
    match p {
        Some(p) => Some(p@),
        None => None,
    }
}

/// The key that `--root-as` names, if it is given; it has to be absolute.
pub open spec fn root_named(root: Option<Seq<char>>) -> Result<Option<PathView>, ErrorView> {
    match root {
        None => Ok(None),
        Some(r) => match path_named(r) {
            Some(p) => Ok(Some(p)),
            None => Err(
                usage_error(
                    "--root-as "@ + debug_text(r) + " is not an absolute registry key"@,
                ),
            ),
        },
    }
}

/// The key that `--root-as` names, if it is given.
pub fn parse_root_as(root: Option<&str>) -> (r: Result<Option<RegPath>, ExitError>)
    ensures
        match r {
            Ok(p) => root_named(opt_str(root)) == Ok::<Option<PathView>, ErrorView>(opt_path(p)),
            Err(e) => root_named(opt_str(root)) == Err::<Option<PathView>, ErrorView>(e@),
        },
{
    match root {
        None => Ok(None),
        Some(text) => match RegPath::parse(text) {
            Some(p) => Ok(Some(p)),
            None => Err(
                usage(
                    concat3(
                        "--root-as ",
                        to_debug(text).as_str(),
                        " is not an absolute registry key",
                    ),
                ),
            ),
        },
    }
}

/// Where registry data comes from.
#[derive(Debug)]
pub enum SourceKind {
    /// A live key.
    Live(RegPath),
    /// A file, a pipe or standard input.
    Input,
}

/// What a `SourceKind` stands for.
pub enum SourceKindView {
    Live(PathView),
    Input,
}

impl View for SourceKind {
    type V = SourceKindView;

    open spec fn view(&self) -> SourceKindView {
        match self {
            SourceKind::Live(p) => SourceKindView::Live(p@),
            SourceKind::Input => SourceKindView::Input,
        }
    }
}

/// What a source is. A text that reads as a key is a live key; anything else is
/// an input of this computer, which has to be there.
pub open spec fn source_of(
    spec: Seq<char>,
    computer: Option<Seq<char>>,
    present: bool,
) -> Result<SourceKindView, ErrorView> {
    match path_named(spec) {
        Some(p) => Ok(SourceKindView::Live(p)),
        None => match computer {
            Some(c) => Err(
                usage_error(
                    "--computer "@ + debug_text(c)
                        + " requires SOURCE to be an HKLM or HKU registry path"@,
                ),
            ),
            None => if present {
                Ok(SourceKindView::Input)
            } else {
                Err(
                    plain_error(
                        debug_text(spec)
                            + " is neither an existing file nor a registry path starting with a known root"@,
                    ),
                )
            },
        },
    }
}

/// What a source is. `present` tells whether there is a file of that name, or
/// the name is that of a stream.
pub fn read_source(spec: &str, computer: Option<&str>, present: bool) -> (r: Result<
    SourceKind,
    ExitError,
>)
    ensures
        match r {
            Ok(k) => source_of(spec@, opt_str(computer), present) == Ok::<
                SourceKindView,
                ErrorView,
            >(k@),
            Err(e) => source_of(spec@, opt_str(computer), present) == Err::<
                SourceKindView,
                ErrorView,
            >(e@),
        },
{
    if let Some(p) = RegPath::parse(spec) {
        return Ok(SourceKind::Live(p));
    }
    if let Some(c) = computer {
        return Err(
            usage(
                concat3(
                    "--computer ",
                    to_debug(c).as_str(),
                    " requires SOURCE to be an HKLM or HKU registry path",
                ),
            ),
        );
    }
    if !present {
        return Err(
            failed(
                crate::text::concat(
                    to_debug(spec).as_str(),
                    " is neither an existing file nor a registry path starting with a known root",
                ),
            ),
        );
    }
    Ok(SourceKind::Input)
}

/// A live key is never read as a file, whatever files there are.
pub proof fn keys_are_never_files(
    spec: Seq<char>,
    computer: Option<Seq<char>>,
    present: bool,
    p: PathView,
)
    requires
        path_named(spec) == Some(p),
    ensures
        source_of(spec, computer, present) == Ok::<SourceKindView, ErrorView>(
            SourceKindView::Live(p),
        ),
{
}

// ---------------------------------------------------------------------------
// Expected fingerprints
// ---------------------------------------------------------------------------

/// The fingerprints that are expected.
#[derive(Debug)]
pub struct Expectations {
    pub any: Option<String>,
    pub bits32: Option<String>,
    pub bits64: Option<String>,
}

/// Why expectations do not fit a source. A live key in both views has one
/// fingerprint for each, any other source has one.
pub open spec fn expectation_error(e: Expectations, live: bool, both: bool) -> Option<Seq<char>> {
    let split = e.bits32 is Some || e.bits64 is Some;
    if live && both {
        if e.any is Some {
            Some("--expect is ambiguous with --view both; use --expect-32 and --expect-64"@)
        } else if e.bits32 is Some != e.bits64 is Some {
            Some("--view both requires --expect-32 and --expect-64 together"@)
        } else {
            None
        }
    } else if split {
        Some(
            if live {
                "--expect-32/--expect-64 require --view both"@
            } else {
                "--expect-32/--expect-64 require a live registry key with --view both"@
            },
        )
    } else {
        None
    }
}

/// Whether expectations fit a source.
pub fn check_expectations(e: &Expectations, live: bool, both: bool) -> (r: Result<(), ExitError>)
    ensures
        done_result(r) == match expectation_error(*e, live, both) {
            Some(m) => Err::<(), ErrorView>(usage_error(m)),
            None => Ok(()),
        },
{
    if live && both {
        if e.any.is_some() {
            return Err(
                usage(
                    "--expect is ambiguous with --view both; use --expect-32 and --expect-64".to_owned(),
                ),
            );
        }
        if e.bits32.is_some() != e.bits64.is_some() {
            return Err(
                usage("--view both requires --expect-32 and --expect-64 together".to_owned()),
            );
        }
    } else if e.bits32.is_some() || e.bits64.is_some() {
        return Err(
            usage(
                (if live {
                    "--expect-32/--expect-64 require --view both"
                } else {
                    "--expect-32/--expect-64 require a live registry key with --view both"
                }).to_owned(),
            ),
        );
    }
    Ok(())
}

/// The fingerprint that is expected of a view.
pub fn expected_of(e: &Expectations, both: bool, wide: bool) -> (r: Option<String>)
    ensures
        opt_text(r) == opt_text(
            if !both {
                e.any
            } else if wide {
                e.bits64
            } else {
                e.bits32
            },
        ),
{
    if !both {
        copy_opt(&e.any)
    } else if wide {
        copy_opt(&e.bits64)
    } else {
        copy_opt(&e.bits32)
    }
}

/// Expectations that fit are of every view or of none: no view goes unchecked
/// beside one that is checked.
pub proof fn every_view_is_checked_or_none(e: Expectations)
    requires
        expectation_error(e, true, true) is None,
    ensures
        e.bits32 is Some <==> e.bits64 is Some,
{
}

/// What is asked of a command that can take a file only without options of live
/// keys.
pub fn check_file_options(command: &str, has_root_as: bool, view: ViewChoice) -> (r: Result<
    (),
    ExitError,
>)
    ensures
        done_result(r) == if has_root_as {
            Err::<(), ErrorView>(
                usage_error(command@ + " --root-as requires SOURCE to be a live registry key"@),
            )
        } else if view != ViewChoice::Native {
            Err(usage_error(command@ + " --view requires SOURCE to be a live registry key"@))
        } else {
            Ok(())
        },
{
    if has_root_as {
        return Err(
            usage(
                crate::text::concat(
                    command,
                    " --root-as requires SOURCE to be a live registry key",
                ),
            ),
        );
    }
    if view != ViewChoice::Native {
        return Err(
            usage(
                crate::text::concat(command, " --view requires SOURCE to be a live registry key"),
            ),
        );
    }
    Ok(())
}

// ---------------------------------------------------------------------------
// Searches
// ---------------------------------------------------------------------------

/// The query of a search, from what compiling it gave.
pub fn search_query(query: &str, compiled: Result<Matcher, String>) -> (r: Result<
    Matcher,
    ExitError,
>)
    ensures
        match (compiled, r) {
            (Ok(m), Ok(q)) => q == m,
            (Err(e), Err(x)) => x@ == usage_error(
                "invalid search pattern "@ + debug_text(query@) + ": "@ + e@,
            ),
            _ => false,
        },
{
    match compiled {
        Ok(m) => Ok(m),
        Err(e) => {
            let mut message = concat3("invalid search pattern ", to_debug(query).as_str(), ": ");
            message.append(e.as_str());
            Err(usage(message))
        },
    }
}

/// The first `limit` matches, and whether there were more. The search looked for
/// one more than the limit.
pub fn cut_matches(mut found: Vec<Match>, limit: usize) -> (r: (Vec<Match>, bool))
    ensures
        r.1 == (found@.len() > limit),
        r.0@ == if found@.len() > limit {
            found@.take(limit as int)
        } else {
            found@
        },
{
    let truncated = found.len() > limit;
    if truncated {
        found.truncate(limit);
    }
    (found, truncated)
}

// ---------------------------------------------------------------------------
// Comparing with a hive
// ---------------------------------------------------------------------------

/// A key belongs to a subtree of a hive.
pub open spec fn in_subtree(p: PathView, root: PathView) -> bool {
    p.hive == Hive::Hkcu && (same_key(p, root)
        || lies_below(p, root))
}

/// The first key from `i` on that does not belong to the subtree.
pub open spec fn outside_subtree(keys: Seq<BlockView>, root: PathView, i: int) -> Option<PathView>
    decreases keys.len() - i,
{
    if i >= keys.len() {
        None
    } else if !in_subtree(keys[i].path, root) {
        Some(keys[i].path)
    } else {
        outside_subtree(keys, root, i + 1)
    }
}

/// The words for a key outside the subtree.
pub open spec fn outside_text(p: PathView, root: PathView) -> Seq<char> {
    "desired key "@ + crate::model::path_text(p) + " is outside hive diff subtree "@ + (if root.sub.len()
        == 0 {
        "\\"@
    } else {
        root.sub
    }) + "; use --strip-root or narrow the file"@
}

/// A subtree of a hive is compared only with keys that belong to it.
pub fn check_hive_scope(keys: &Vec<KeyBlock>, root: &RegPath) -> (r: Result<(), ExitError>)
    ensures
        done_result(r) == match outside_subtree(views(keys@), root@, 0) {
            Some(p) => Err::<(), ErrorView>(usage_error(outside_text(p, root@))),
            None => Ok(()),
        },
{
    let ghost all = views(keys@);
    for i in 0..keys.len()
        invariant
            all == views(keys@),
            outside_subtree(all, root@, 0) == outside_subtree(all, root@, i as int),
    {
        assert(all[i as int] == keys@[i as int]@);
        let path = &keys[i].path;
        if path.hive != Hive::Hkcu || !(path.is_same_key(root) || path_is_within(path, root)) {
            let mut message = concat3(
                "desired key ",
                path.to_string().as_str(),
                " is outside hive diff subtree ",
            );
            if root.sub.as_str().is_empty() {
                message.append("\\");
            } else {
                message.append(root.sub.as_str());
            }
            message.append("; use --strip-root or narrow the file");
            return Err(usage(message));
        }
    }
    Ok(())
}

} // verus!
