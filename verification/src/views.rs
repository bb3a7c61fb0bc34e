//! Registry views, and the files that belong to each of them.
use vstd::prelude::*;

use crate::saved_plan::{label_of_view, RegistryView, Snapshot};
use crate::text::{chars_of, concat3, ends, ends_with, opt_str, opt_text, string_of};

verus! {

/// The views that a command works on.
#[derive(Clone, Copy, Debug, PartialEq, Eq, Structural)]
pub enum ViewChoice {
    Native,
    Bits32,
    Bits64,
    Both,
}

/// The views of a choice, in order.
pub open spec fn views_of(choice: ViewChoice) -> Seq<RegistryView> {
    match choice {
        ViewChoice::Native => seq![RegistryView::Native],
        ViewChoice::Bits32 => seq![RegistryView::Bits32],
        ViewChoice::Bits64 => seq![RegistryView::Bits64],
        ViewChoice::Both => seq![RegistryView::Bits32, RegistryView::Bits64],
    }
}

/// The views of a choice, in order.
pub fn selected_views(choice: ViewChoice) -> (out: Vec<RegistryView>)
    ensures
        out@ == views_of(choice),
{
    let mut out: Vec<RegistryView> = Vec::new();
    match choice {
        ViewChoice::Native => {
            out.push(RegistryView::Native);
        },
        ViewChoice::Bits32 => {
            out.push(RegistryView::Bits32);
        },
        ViewChoice::Bits64 => {
            out.push(RegistryView::Bits64);
        },
        ViewChoice::Both => {
            out.push(RegistryView::Bits32);
            out.push(RegistryView::Bits64);
        },
    }
    assert(out@ =~= views_of(choice));
    out
}

/// The only view of a choice.
pub fn view_of(choice: ViewChoice) -> (r: RegistryView)
    requires
        choice != ViewChoice::Both,
    ensures
        views_of(choice) == seq![r],
{
    let r = match choice {
        ViewChoice::Native => RegistryView::Native,
        ViewChoice::Bits32 => RegistryView::Bits32,
        _ => RegistryView::Bits64,
    };
    assert(views_of(choice) =~= seq![r]);
    r
}

/// A text, or another where there is none.
pub open spec fn or_text(s: Option<Seq<char>>, other: Seq<char>) -> Seq<char> {
    match s {
        Some(t) => t,
        None => other,
    }
}

/// The name of a view's file: the label goes between the stem and the extension
/// of the common name.
pub open spec fn view_name(
    stem: Option<Seq<char>>,
    extension: Option<Seq<char>>,
    label: Seq<char>,
) -> Seq<char> {
    let s = or_text(stem, "undo"@);
    let e = or_text(extension, Seq::empty());
    if e.len() == 0 {
        s + "."@ + label
    } else {
        s + "."@ + label + "."@ + e
    }
}

/// The name of a view's file, from the stem and the extension of the common
/// name; none where only one view is worked on and the common name serves.
pub fn view_undo_path(
    stem: Option<&str>,
    extension: Option<&str>,
    label: &str,
    multiple: bool,
) -> (r: Option<String>)
    ensures
        opt_text(r) == (if multiple {
            Some(view_name(opt_str(stem), opt_str(extension), label@))
        } else {
            None
        }),
{
    if !multiple {
        return None;
    }
    let s = match stem {
        Some(t) => t,
        None => "undo",
    };
    let mut out = concat3(s, ".", label);
    if let Some(e) = extension {
        if !e.is_empty() {
            out.append(".");
            out.append(e);
        }
    }
    Some(out)
}

/// A text without the mark of a view at its end.
pub open spec fn unmarked(s: Seq<char>) -> Option<Seq<char>> {
    if ends(s, ".32"@) || ends(s, ".64"@) {
        Some(s.take(s.len() - 3))
    } else {
        None
    }
}

/// Where an undo file goes.
#[derive(Clone, Copy, Debug, PartialEq, Eq, Structural)]
pub enum UndoPlace {
    /// Nowhere, for nothing is written.
    Nowhere,
    /// Where it was asked for.
    Requested,
    /// Beside the input.
    BesideInput,
    /// With the temporary files.
    Temporary,
}

/// Where the undo file of a change in a hive goes.
pub fn hive_undo_path(dry_run: bool, requested: bool, has_input: bool) -> (r: UndoPlace)
    ensures
        r == (if dry_run {
            UndoPlace::Nowhere
        } else if requested {
            UndoPlace::Requested
        } else if has_input {
            UndoPlace::BesideInput
        } else {
            UndoPlace::Temporary
        }),
{
    if dry_run {
        UndoPlace::Nowhere
    } else if requested {
        UndoPlace::Requested
    } else if has_input {
        UndoPlace::BesideInput
    } else {
        UndoPlace::Temporary
    }
}

/// The name of the undo file of each view: those of several views are marked.
pub open spec fn undo_names(
    chosen: Seq<RegistryView>,
    stem: Option<Seq<char>>,
    extension: Option<Seq<char>>,
) -> Seq<Option<Seq<char>>> {
    chosen.map_values(
        |v: RegistryView|
            if chosen.len() > 1 {
                Some(view_name(stem, extension, label_of_view(v)))
            } else {
                None
            },
    )
}

/// The name of the undo file of each view, from the common name; none where the
/// common name itself is meant.
pub fn direct_mutation_undo_paths(
    chosen: &Vec<RegistryView>,
    stem: Option<&str>,
    extension: Option<&str>,
) -> (out: Vec<Option<String>>)
    ensures
        out@.map_values(|n: Option<String>| opt_text(n)) == undo_names(
            chosen@,
            opt_str(stem),
            opt_str(extension),
        ),
{
    let mut out: Vec<Option<String>> = Vec::new();
    for i in 0..chosen.len()
        invariant
            out@.len() == i,
            forall|k: int|
                0 <= k < i ==> opt_text(#[trigger] out@[k]) == undo_names(
                    chosen@,
                    opt_str(stem),
                    opt_str(extension),
                )[k],
    {
        let name = view_undo_path(stem, extension, chosen[i].label(), chosen.len() > 1);
        out.push(name);
    }
    assert(out@.map_values(|n: Option<String>| opt_text(n)) =~= undo_names(
        chosen@,
        opt_str(stem),
        opt_str(extension),
    ));
    out
}

/// The positions of the snapshots that could not be read in full, in order.
pub open spec fn incomplete_of(snapshots: Seq<Snapshot>) -> Seq<int>
    decreases snapshots.len(),
{
    if snapshots.len() == 0 {
        Seq::empty()
    } else {
        let before = incomplete_of(snapshots.drop_last());
        if snapshots.last().unreadable@.len() != 0 {
            before.push(snapshots.len() - 1)
        } else {
            before
        }
    }
}

/// The positions of the snapshots that could not be read in full.
pub fn incomplete_views(snapshots: &Vec<Snapshot>) -> (out: Vec<usize>)
    ensures
        out@.map_values(|i: usize| i as int) == incomplete_of(snapshots@),
{
    let mut out: Vec<usize> = Vec::new();
    assert(out@.map_values(|i: usize| i as int) =~= Seq::<int>::empty());
    assert(snapshots@.take(0) =~= Seq::<Snapshot>::empty());
    for i in 0..snapshots.len()
        invariant
            out@.map_values(|k: usize| k as int) == incomplete_of(snapshots@.take(i as int)),
    {
        assert(snapshots@.take(i + 1).drop_last() =~= snapshots@.take(i as int));
        assert(snapshots@.take(i + 1).last() == snapshots@[i as int]);
        if !snapshots[i].is_complete() {
            let ghost before = out@;
            out.push(i);
            assert(out@.map_values(|k: usize| k as int) =~= before.map_values(|k: usize| k as int).push(
                i as int,
            ));
        }
    }
    assert(snapshots@.take(snapshots@.len() as int) =~= snapshots@);
    out
}

/// Nothing is incomplete exactly where every snapshot was read in full.
pub proof fn complete_where_nothing_is_listed(snapshots: Seq<Snapshot>)
    ensures
        incomplete_of(snapshots).len() == 0 <==> forall|i: int|
            0 <= i < snapshots.len() ==> (#[trigger] snapshots[i]).unreadable@.len() == 0,
    decreases snapshots.len(),
{
    if snapshots.len() > 0 {
        let front = snapshots.drop_last();
        complete_where_nothing_is_listed(front);
        assert(snapshots.last() == snapshots[snapshots.len() - 1]);
        if incomplete_of(snapshots).len() == 0 {
            assert forall|i: int| 0 <= i < snapshots.len() implies (#[trigger] snapshots[i]).unreadable@.len()
                == 0 by {
                if i < front.len() {
                    assert(front[i] == snapshots[i]);
                }
            }
        } else if forall|i: int|
            0 <= i < snapshots.len() ==> (#[trigger] snapshots[i]).unreadable@.len() == 0 {
            assert forall|i: int| 0 <= i < front.len() implies (#[trigger] front[i]).unreadable@.len()
                == 0 by {
                assert(front[i] == snapshots[i]);
            }
        }
    }
}

/// The common name of the files of which one is named; none where the name is
/// the common one already.
pub open spec fn bundle_name(
    file_name: Option<Seq<char>>,
    stem: Option<Seq<char>>,
    extension: Option<Seq<char>>,
) -> Option<Seq<char>> {
    if file_name is Some && unmarked(file_name->0) is Some {
        unmarked(file_name->0)
    } else if stem is Some && unmarked(stem->0) is Some {
        let base = unmarked(stem->0)->0;
        let e = or_text(extension, Seq::empty());
        Some(
            if e.len() == 0 {
                base
            } else {
                base + "."@ + e
            },
        )
    } else {
        None
    }
}

fn unmark(s: &str) -> (r: Option<String>)
    ensures
        opt_text(r) == unmarked(s@),
{
    let chars = chars_of(s);
    let a = chars_of(".32");
    let b = chars_of(".64");
    proof {
        reveal_strlit(".32");
        reveal_strlit(".64");
    }
    if ends_with(chars.as_slice(), a.as_slice()) || ends_with(chars.as_slice(), b.as_slice()) {
        Some(string_of(vstd::slice::slice_subrange(chars.as_slice(), 0, chars.len() - 3)))
    } else {
        None
    }
}

/// The common name of the files of which one is named.
pub fn undo_bundle_base(
    file_name: Option<&str>,
    stem: Option<&str>,
    extension: Option<&str>,
) -> (r: Option<String>)
    ensures
        opt_text(r) == bundle_name(opt_str(file_name), opt_str(stem), opt_str(extension)),
{
    if let Some(name) = file_name {
        if let Some(base) = unmark(name) {
            return Some(base);
        }
    }
    let s = match stem {
        Some(s) => s,
        None => {
            return None;
        },
    };
    match unmark(s) {
        None => None,
        Some(base) => {
            if let Some(e) = extension {
                if !e.is_empty() {
                    return Some(concat3(base.as_str(), ".", e));
                }
            }
            Some(base)
        },
    }
}

/// The common name is found from the file of either view, where it has a stem
/// and an extension that is no mark of a view.
pub proof fn bundles_are_found_from_their_members(
    stem: Seq<char>,
    extension: Seq<char>,
    view: RegistryView,
)
    requires
        view != RegistryView::Native,
        extension.len() > 0,
        unmarked(view_name(Some(stem), Some(extension), label_of_view(view))) is None,
    ensures
        bundle_name(
            Some(view_name(Some(stem), Some(extension), label_of_view(view))),
            Some(stem + "."@ + label_of_view(view)),
            Some(extension),
        ) == Some(stem + "."@ + extension),
{
    member_stem_is_marked(stem, view);
}

/// The common name is found from the file of either view, where it has no
/// extension.
pub proof fn plain_bundles_are_found_from_their_members(stem: Seq<char>, view: RegistryView)
    requires
        view != RegistryView::Native,
    ensures
        bundle_name(
            Some(view_name(Some(stem), None, label_of_view(view))),
            Some(stem),
            Some(label_of_view(view)),
        ) == Some(stem),
{
    member_stem_is_marked(stem, view);
}

proof fn member_stem_is_marked(stem: Seq<char>, view: RegistryView)
    requires
        view != RegistryView::Native,
    ensures
        unmarked(stem + "."@ + label_of_view(view)) == Some(stem),
{
    reveal_strlit(".");
    reveal_strlit("32");
    reveal_strlit("64");
    reveal_strlit(".32");
    reveal_strlit(".64");
    let s = stem + "."@ + label_of_view(view);
    if view == RegistryView::Bits32 {
        assert(s.skip(s.len() - 3) =~= ".32"@);
    } else {
        assert(s.skip(s.len() - 3) =~= ".64"@);
    }
    assert(s.take(s.len() - 3) =~= stem);
}

} // verus!
