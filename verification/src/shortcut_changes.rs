//! Creating, deleting and listing shortcuts as commands do.
use vstd::prelude::*;

use crate::exit::{failed, usage, usage_error, ErrorView, ExitError};
use crate::json::{jbool, json_bool, json_string, jstr};
use crate::number::{dec_of, push_dec};
use crate::shortcut::{
    icon_of, inspect, inspect_outcome, parse_icon_spec, validate, validity, CreateOptions,
    LinkFacts, LinkInfo, LinkView, OptionsFacts, OptionsView, ShowStyle,
};
use crate::shortcut_manifest::ActionView;
use crate::text::{
    chars_of, concat, concat3, is_text, join, joined, lowered, opt_str, opt_text,
    same_ignoring_case, views, views_push,
};

verus! {

// ---------------------------------------------------------------------------
// One shortcut
// ---------------------------------------------------------------------------

/// The options that were asked for, with the icon's specification taken apart.
pub open spec fn requested(
    target: Seq<char>,
    output: Seq<char>,
    workdir: Option<Seq<char>>,
    arguments: Option<Seq<char>>,
    description: Option<Seq<char>>,
    icon: Option<Seq<char>>,
    style: ShowStyle,
) -> Result<OptionsView, ErrorView> {
    let plain = OptionsView {
        target,
        output,
        working_directory: workdir,
        arguments,
        description,
        icon_path: None,
        icon_index: 0,
        style,
    };
    match icon {
        None => Ok(plain),
        Some(spec) => match icon_of(spec) {
            Ok((path, index)) => Ok(
                OptionsView { icon_path: Some(path), icon_index: index as i32, ..plain },
            ),
            Err(e) => Err(usage_error(e)),
        },
    }
}

/// The options that were asked for.
pub fn requested_options(
    target: String,
    output: String,
    workdir: Option<String>,
    arguments: Option<String>,
    description: Option<String>,
    icon: Option<&str>,
    style: ShowStyle,
) -> (r: Result<CreateOptions, ExitError>)
    ensures
        match r {
            Ok(o) => requested(
                target@,
                output@,
                opt_text(workdir),
                opt_text(arguments),
                opt_text(description),
                opt_str(icon),
                style,
            ) == Ok::<OptionsView, ErrorView>(o@),
            Err(e) => requested(
                target@,
                output@,
                opt_text(workdir),
                opt_text(arguments),
                opt_text(description),
                opt_str(icon),
                style,
            ) == Err::<OptionsView, ErrorView>(e@),
        },
{
    let (icon_path, icon_index) = match icon {
        None => (None, 0i32),
        Some(spec) => match parse_icon_spec(spec) {
            Ok((path, index)) => (Some(path), index),
            Err(e) => {
                return Err(usage(e));
            },
        },
    };
    Ok(
        CreateOptions {
            target,
            output,
            working_directory: workdir,
            arguments,
            description,
            icon_path,
            icon_index,
            style,
        },
    )
}

/// A link and what was done with it, as a line.
pub open spec fn link_line(action: Seq<char>, l: LinkView, dry_run: bool) -> Seq<char> {
    (if dry_run {
        "Would"@
    } else {
        "Shortcut"@
    }) + " "@ + action + " -> "@ + l.file + (if action != "delete"@ {
        " (target: "@ + l.target + ")"@
    } else {
        Seq::empty()
    })
}

/// A link and what was done with it, as a line.
pub fn link_info_text(action: &str, info: &LinkInfo, dry_run: bool) -> (out: String)
    ensures
        out@ == link_line(action@, info@, dry_run),
{
    let mut out = concat3(
        if dry_run {
            "Would"
        } else {
            "Shortcut"
        },
        " ",
        action,
    );
    out.append(" -> ");
    out.append(info.file.as_str());
    if !is_text(chars_of(action).as_slice(), "delete") {
        out.append(concat3(" (target: ", info.target.as_str(), ")").as_str());
    } else {
        assert(out@ + Seq::<char>::empty() =~= out@);
    }
    out
}

// ---------------------------------------------------------------------------
// Several
// ---------------------------------------------------------------------------

/// An action that can be carried out.
#[derive(Debug)]
pub enum PreparedShortcutAction {
    Create(CreateOptions),
    Delete(String),
}

impl View for PreparedShortcutAction {
    type V = ActionView;

    open spec fn view(&self) -> ActionView {
        match self {
            PreparedShortcutAction::Create(o) => ActionView::Create(o@),
            PreparedShortcutAction::Delete(p) => ActionView::Delete(p@),
        }
    }
}

/// The file that an action changes.
pub open spec fn destination(a: ActionView) -> Seq<char> {
    match a {
        ActionView::Create(o) => o.output,
        ActionView::Delete(p) => p,
    }
}

/// The name of an action.
pub open spec fn operation_name(a: ActionView) -> Seq<char> {
    match a {
        ActionView::Create(_) => "create"@,
        ActionView::Delete(_) => "delete"@,
    }
}

impl PreparedShortcutAction {
    /// The file that the action changes.
    pub fn path(&self) -> (r: &str)
        ensures
            r@ == destination(self@),
    {
        match self {
            PreparedShortcutAction::Create(o) => o.output.as_str(),
            PreparedShortcutAction::Delete(p) => p.as_str(),
        }
    }

    /// The name of the action.
    pub fn operation(&self) -> (r: &'static str)
        ensures
            r@ == operation_name(self@),
    {
        match self {
            PreparedShortcutAction::Create(_) => "create",
            PreparedShortcutAction::Delete(_) => "delete",
        }
    }
}

/// An action that can be carried out, or why it cannot.
pub open spec fn action_result(r: Result<PreparedShortcutAction, ExitError>) -> Result<
    ActionView,
    ErrorView,
> {
    match r {
        Ok(a) => Ok(a@),
        Err(e) => Err(e@),
    }
}

/// Checks that a shortcut can be written. Its options are resolved already.
pub fn prepare_create(options: CreateOptions, facts: &OptionsFacts) -> (r: Result<
    PreparedShortcutAction,
    ExitError,
>)
    ensures
        action_result(r) == match validity(options@, *facts) {
            Ok(_) => Ok::<ActionView, ErrorView>(ActionView::Create(options@)),
            Err(e) => Err(usage_error(e)),
        },
{
    match validate(&options, facts) {
        Ok(_) => Ok(PreparedShortcutAction::Create(options)),
        Err(e) => Err(usage(e)),
    }
}

/// Checks that a file is a shortcut that can be deleted.
pub fn prepare_delete(path: &str, extension: Option<&str>, facts: LinkFacts) -> (r: Result<
    PreparedShortcutAction,
    ExitError,
>)
    ensures
        action_result(r) == match inspect_outcome(path@, opt_str(extension), facts) {
            Ok(l) => Ok::<ActionView, ErrorView>(ActionView::Delete(l.file)),
            Err(e) => Err(crate::exit::plain_error(e)),
        },
{
    match inspect(path, extension, facts) {
        Ok(info) => Ok(PreparedShortcutAction::Delete(info.file)),
        Err(e) => Err(failed(e)),
    }
}

/// Two actions change the same file.
pub open spec fn collide(a: ActionView, b: ActionView) -> bool {
    lowered(destination(a)) == lowered(destination(b))
}

/// Some action changes the file that `a` changes.
pub open spec fn taken(actions: Seq<ActionView>, a: ActionView) -> bool {
    exists|i: int| 0 <= i < actions.len() && collide(#[trigger] actions[i], a)
}

/// No file is changed twice.
pub open spec fn distinct(actions: Seq<ActionView>) -> bool {
    forall|i: int, j: int|
        0 <= i < j < actions.len() ==> !collide(#[trigger] actions[i], #[trigger] actions[j])
}

/// The words for a file that is changed twice.
pub open spec fn changed_twice(path: Seq<char>) -> Seq<char> {
    "shortcut manifest changes "@ + path
        + " more than once; split dependent changes into separate invocations"@
}

/// Adds an action to those that will be carried out together.
pub fn add_action(prepared: &mut Vec<PreparedShortcutAction>, action: PreparedShortcutAction) -> (r:
    Result<(), ExitError>)
    ensures
        match r {
            Ok(_) => !taken(views(old(prepared)@), action@) && views(final(prepared)@) == views(
                old(prepared)@,
            ).push(action@),
            Err(e) => taken(views(old(prepared)@), action@) && final(prepared)@ == old(prepared)@
                && e@ == usage_error(changed_twice(destination(action@))),
        },
        distinct(views(old(prepared)@)) ==> distinct(views(final(prepared)@)),
{
    broadcast use views_push;

    let ghost all = views(prepared@);
    let wanted = chars_of(action.path());
    for i in 0..prepared.len()
        invariant
            prepared@ == old(prepared)@,
            all == views(prepared@),
            wanted@ == destination(action@),
            forall|j: int| 0 <= j < i ==> !collide(#[trigger] all[j], action@),
    {
        let other = chars_of(prepared[i].path());
        if same_ignoring_case(other.as_slice(), wanted.as_slice()) {
            assert(collide(all[i as int], action@));
            let mut message = concat("shortcut manifest changes ", action.path());
            message.append(" more than once; split dependent changes into separate invocations");
            return Err(usage(message));
        }
    }
    prepared.push(action);
    assert(views(prepared@) == all.push(action@));
    Ok(())
}

/// What is said where an action failed: what became of those before it.
pub open spec fn failure_text(index: nat, error: Seq<char>, problems: Seq<Seq<char>>) -> Seq<char> {
    "shortcut action "@ + dec_of(index + 1) + " failed: "@ + error + "; "@ + (if problems.len()
        == 0 {
        "all earlier shortcut actions were rolled back"@
    } else {
        "rollback failures: "@ + joined(problems, "; "@)
    })
}

/// What is said where an action failed.
pub fn apply_failure(index: usize, error: &str, problems: &Vec<String>) -> (r: ExitError)
    requires
        index < u64::MAX,
    ensures
        r@ == crate::exit::plain_error(failure_text(index as nat, error@, views(problems@))),
{
    let mut message = "shortcut action ".to_owned();
    push_dec(&mut message, index as u64 + 1);
    message.append(" failed: ");
    message.append(error);
    message.append("; ");
    if problems.len() == 0 {
        message.append("all earlier shortcut actions were rolled back");
    } else {
        message.append(concat("rollback failures: ", join(problems.as_slice(), "; ").as_str()).as_str());
    }
    failed(message)
}

/// An action as JSON.
pub open spec fn action_json(a: ActionView) -> Seq<char> {
    "{\"operation\":"@ + json_string(operation_name(a)) + ",\"path\":"@ + json_string(
        destination(a),
    ) + "}"@
}

/// What became of actions, as JSON.
pub open spec fn manifest_json(actions: Seq<ActionView>, dry_run: bool, failed: bool) -> Seq<char> {
    "{\"schemaVersion\":1,\"command\":\"lnk.apply\",\"dryRun\":"@ + json_bool(dry_run)
        + ",\"failed\":"@ + json_bool(failed) + ",\"actions\":["@ + joined(
        actions.map_values(|a: ActionView| action_json(a)),
        ","@,
    ) + "]}"@
}

/// What became of actions, as JSON.
pub fn manifest_result_json(
    actions: &Vec<PreparedShortcutAction>,
    dry_run: bool,
    has_failed: bool,
) -> (out: String)
    ensures
        out@ == manifest_json(views(actions@), dry_run, has_failed),
{
    broadcast use views_push;

    let ghost all = views(actions@);
    let mut items: Vec<String> = Vec::new();
    for i in 0..actions.len()
        invariant
            all == views(actions@),
            views(items@) =~= all.take(i as int).map_values(|a: ActionView| action_json(a)),
    {
        let mut one = "{\"operation\":".to_owned();
        one.append(jstr(actions[i].operation()).as_str());
        one.append(",\"path\":");
        one.append(jstr(actions[i].path()).as_str());
        one.append("}");
        let ghost before = items@;
        items.push(one);
        assert(views(items@) == views(before).push(one@));
    }
    assert(all.take(all.len() as int) =~= all);
    let mut out = "{\"schemaVersion\":1,\"command\":\"lnk.apply\",\"dryRun\":".to_owned();
    out.append(jbool(dry_run));
    out.append(",\"failed\":");
    out.append(jbool(has_failed));
    out.append(",\"actions\":[");
    out.append(join(items.as_slice(), ",").as_str());
    out.append("]}");
    out
}

/// What became of actions, line by line.
pub open spec fn manifest_lines(
    actions: Seq<ActionView>,
    dry_run: bool,
    failed: bool,
) -> Seq<Seq<char>> {
    seq![
        (if dry_run {
            "Would apply "@
        } else {
            "Applied "@
        }) + dec_of(actions.len()) + " shortcut action(s)"@ + (if failed {
            " (failed and rolled back)"@
        } else {
            ""@
        }),
    ] + actions.map_values(
        |a: ActionView| "  "@ + operation_name(a) + " "@ + destination(a),
    )
}

/// What became of actions, line by line.
pub fn manifest_result_text(
    actions: &Vec<PreparedShortcutAction>,
    dry_run: bool,
    has_failed: bool,
) -> (out: Vec<String>)
    ensures
        views(out@) == manifest_lines(views(actions@), dry_run, has_failed),
{
    broadcast use views_push;

    let ghost all = views(actions@);
    let mut head = (if dry_run {
        "Would apply "
    } else {
        "Applied "
    }).to_owned();
    push_dec(&mut head, actions.len() as u64);
    head.append(" shortcut action(s)");
    head.append(
        if has_failed {
            " (failed and rolled back)"
        } else {
            ""
        },
    );
    let mut out: Vec<String> = Vec::new();
    let ghost first = head@;
    out.push(head);
    for i in 0..actions.len()
        invariant
            all == views(actions@),
            views(out@) =~= seq![first] + all.take(i as int).map_values(
                |a: ActionView| "  "@ + operation_name(a) + " "@ + destination(a),
            ),
    {
        let mut one = concat3("  ", actions[i].operation(), " ");
        one.append(actions[i].path());
        let ghost before = out@;
        out.push(one);
        assert(views(out@) == views(before).push(one@));
    }
    assert(all.take(all.len() as int) =~= all);
    out
}

// ---------------------------------------------------------------------------
// Laws
// ---------------------------------------------------------------------------

/// However the name of a file is capitalised, it is changed once at most: an
/// action is refused exactly where an earlier one changes its file.
pub proof fn no_shortcut_changes_twice(actions: Seq<ActionView>, a: ActionView)
    requires
        distinct(actions),
    ensures
        distinct(actions.push(a)) <==> !taken(actions, a),
{
    let more = actions.push(a);
    if taken(actions, a) {
        let i = choose|i: int| 0 <= i < actions.len() && collide(#[trigger] actions[i], a);
        assert(collide(more[i], more[actions.len() as int]));
    } else {
        assert forall|i: int, j: int| 0 <= i < j < more.len() implies !collide(
            #[trigger] more[i],
            #[trigger] more[j],
        ) by {
            assert(more[i] == actions[i]);
            if j < actions.len() {
                assert(more[j] == actions[j]);
            }
        }
    }
}

} // verus!
