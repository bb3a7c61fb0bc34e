//! The questions that are asked before something is changed.
use vstd::prelude::*;

use crate::number::{dec_of, push_dec};
use crate::text::{debug_text, to_debug};

verus! {

/// What is about to be done.
#[derive(Debug)]
pub enum Question {
    /// Write a shortcut.
    CreateShortcut { existed: bool, output: String, target: String },
    /// Delete a shortcut.
    DeleteShortcut { file: String },
    /// Change several shortcuts.
    ApplyShortcuts { count: usize },
    /// Apply keys to the live registry.
    Import { blocks: usize },
    /// Take a change back.
    Undo { blocks: usize, views: usize },
    /// Apply a saved plan.
    ApplyPlan { plan: String, views: usize },
    /// Apply a batch.
    Batch { operations: usize, views: usize },
    /// Copy or move a value.
    CopyValue {
        moves: bool,
        source: String,
        source_name: String,
        dest: String,
        dest_name: String,
        both: bool,
    },
    /// Restore a backup.
    Restore { file: String, dest: String, merges: bool },
    /// Copy or move a subtree.
    Copy { moves: bool, source: String, dest: String, merges: bool },
    /// Copy or move a subtree in both views.
    CopyBoth { moves: bool, source: String, dest: String, merges: bool },
    /// Apply a copy plan.
    ApplyCopyPlan { operation: String, source: String, dest: String, both: bool },
    /// Set a value of a live key.
    SetValue { value: String, key: String },
    /// Delete from the live registry.
    DeleteLive { key: String },
    /// Set a value in a hive.
    HiveSet { subkey: String, value: String },
    /// Delete from a hive.
    HiveDelete { subkey: String, only: Option<String> },
    /// Copy or move a subtree in a hive.
    HiveCopy { moves: bool, source: String, dest: String, merges: bool },
    /// Copy or move a value in a hive.
    HiveCopyValue {
        moves: bool,
        source: String,
        source_value: String,
        dest: String,
        dest_value: String,
        overwrite: bool,
    },
    /// Import into a hive.
    HiveImport { blocks: usize, input: String },
    /// Take a change of a hive back.
    HiveUndo { blocks: usize, input: String },
    /// Synchronize a hive.
    HiveSync { blocks: usize, prune: bool, prune_keys: bool },
    /// Apply a batch to a hive.
    HiveBatch { operations: usize },
}

/// One of two texts.
pub open spec fn either(b: bool, yes: Seq<char>, no: Seq<char>) -> Seq<char> {
    if b {
        yes
    } else {
        no
    }
}

pub(crate) fn pick(b: bool, yes: &str, no: &str) -> (r: String)
    ensures
        r@ == either(b, yes@, no@),
{
    if b {
        yes.to_owned()
    } else {
        no.to_owned()
    }
}

pub(crate) fn push_either(out: &mut String, b: bool, yes: &str, no: &str)
    ensures
        final(out)@ == old(out)@ + either(b, yes@, no@),
{
    if b {
        out.append(yes);
    } else {
        out.append(no);
    }
}

/// The name of a value behind its key, where there is one.
pub open spec fn behind(value: Option<String>) -> Seq<char> {
    match value {
        Some(name) => "\\"@ + name@,
        None => Seq::empty(),
    }
}

fn push_behind(out: &mut String, value: &Option<String>)
    ensures
        final(out)@ == old(out)@ + behind(*value),
{
    match value {
        Some(name) => {
            out.append(crate::text::concat("\\", name.as_str()).as_str());
        },
        None => {
            assert(out@ + Seq::<char>::empty() =~= out@);
        },
    }
}

/// The words of a question.
pub open spec fn question_text(q: Question) -> Seq<char> {
    match q {
        Question::CreateShortcut { existed, output, target } => either(existed, "Replace"@, "Create"@)
            + " native shortcut "@ + output@ + " -> "@ + target@ + "?"@,
        Question::DeleteShortcut { file } => "Delete native shortcut "@ + file@ + "?"@,
        Question::ApplyShortcuts { count } => "Apply "@ + dec_of(count as nat)
            + " native shortcut action(s)?"@,
        Question::Import { blocks } => "Apply "@ + dec_of(blocks as nat)
            + " key block(s) to the live registry?"@,
        Question::Undo { blocks, views } => "Undo "@ + dec_of(blocks as nat)
            + " key block(s) in "@ + dec_of(views as nat) + " registry view(s)?"@,
        Question::ApplyPlan { plan, views } => "Apply verified saved plan "@ + plan@ + " to "@
            + dec_of(views as nat) + " registry view(s)?"@,
        Question::Batch { operations, views } => "Apply "@ + dec_of(operations as nat)
            + " batch operation(s) atomically to "@ + dec_of(views as nat) + " registry view(s)?"@,
        Question::CopyValue { moves, source, source_name, dest, dest_name, both } => either(moves, "Move value"@, "Copy value"@)
            + " "@ + source@ + "\\"@ + source_name@ + " -> "@ + dest@ + "\\"@ + dest_name@
            + either(both, " in both views"@, ""@) + "?"@,
        Question::Restore { file, dest, merges } => "Restore "@ + file@ + " -> "@ + dest@
            + either(merges, " (merge)"@, ""@) + "?"@,
        Question::Copy { moves, source, dest, merges } => either(moves, "Move"@, "Copy"@) + " "@
            + source@ + " -> "@ + dest@
            + either(merges, " (merge into existing destination)"@, ""@) + "?"@,
        Question::CopyBoth { moves, source, dest, merges } => either(moves, "Move"@, "Copy"@)
            + " "@ + source@ + " -> "@ + dest@ + " in both views"@
            + either(merges, " (merge into existing destinations)"@, ""@) + "?"@,
        Question::ApplyCopyPlan { operation, source, dest, both } => "Apply verified "@
            + operation@ + " plan "@ + source@ + " -> "@ + dest@
            + either(both, " in both views"@, ""@) + "?"@,
        Question::SetValue { value, key } => "Set value "@ + debug_text(value@) + " under "@
            + key@ + "?"@,
        Question::DeleteLive { key } => "Delete "@ + key@ + "?"@,
        Question::HiveSet { subkey, value } => "Set value "@ + subkey@ + "\\"@ + value@
            + " in the hive?"@,
        Question::HiveDelete { subkey, only } => "Delete "@ + subkey@ + behind(only)
            + " from the hive?"@,
        Question::HiveCopy { moves, source, dest, merges } => either(moves, "Move"@, "Copy"@)
            + " hive subtree "@ + source@ + " -> "@ + dest@
            + either(merges, " (merge into existing destination)"@, ""@) + "?"@,
        Question::HiveCopyValue { moves, source, source_value, dest, dest_value, overwrite } => either(moves, "Move"@, "Copy"@)
            + " hive value "@ + source@ + "\\"@ + source_value@ + " -> "@ + dest@ + "\\"@
            + dest_value@ + either(overwrite, " (overwrite)"@, ""@) + "?"@,
        Question::HiveImport { blocks, input } => "Import "@ + dec_of(blocks as nat)
            + " key block(s) from "@ + input@ + " into the hive?"@,
        Question::HiveUndo { blocks, input } => "Undo "@ + dec_of(blocks as nat)
            + " key block(s) from "@ + input@ + " in the hive?"@,
        Question::HiveSync { blocks, prune, prune_keys } => "Synchronize "@
            + dec_of(blocks as nat) + " key block(s) into the hive"@
            + either(prune, " (prune values)"@, ""@)
            + either(prune_keys, " (prune subtrees)"@, ""@) + "?"@,
        Question::HiveBatch { operations } => "Apply "@ + dec_of(operations as nat)
            + " batch operation(s) atomically inside this hive?"@,
    }
}

impl Question {
    /// The words of the question.
    pub fn text(&self) -> (out: String)
        ensures
            out@ == question_text(*self),
    {
        let mut out = String::new();
        match self {
            Question::CreateShortcut { existed, output, target } => {
                out = pick(*existed, "Replace", "Create");
                out.append(" native shortcut ");
                out.append(output.as_str());
                out.append(" -> ");
                out.append(target.as_str());
                out.append("?");
            },
            Question::DeleteShortcut { file } => {
                out = "Delete native shortcut ".to_owned();
                out.append(file.as_str());
                out.append("?");
            },
            Question::ApplyShortcuts { count } => {
                out = "Apply ".to_owned();
                push_dec(&mut out, *count as u64);
                out.append(" native shortcut action(s)?");
            },
            Question::Import { blocks } => {
                out = "Apply ".to_owned();
                push_dec(&mut out, *blocks as u64);
                out.append(" key block(s) to the live registry?");
            },
            Question::Undo { blocks, views } => {
                out = "Undo ".to_owned();
                push_dec(&mut out, *blocks as u64);
                out.append(" key block(s) in ");
                push_dec(&mut out, *views as u64);
                out.append(" registry view(s)?");
            },
            Question::ApplyPlan { plan, views } => {
                out = "Apply verified saved plan ".to_owned();
                out.append(plan.as_str());
                out.append(" to ");
                push_dec(&mut out, *views as u64);
                out.append(" registry view(s)?");
            },
            Question::Batch { operations, views } => {
                out = "Apply ".to_owned();
                push_dec(&mut out, *operations as u64);
                out.append(" batch operation(s) atomically to ");
                push_dec(&mut out, *views as u64);
                out.append(" registry view(s)?");
            },
            Question::CopyValue { moves, source, source_name, dest, dest_name, both } => {
                out = pick(*moves, "Move value", "Copy value");
                out.append(" ");
                out.append(source.as_str());
                out.append("\\");
                out.append(source_name.as_str());
                out.append(" -> ");
                out.append(dest.as_str());
                out.append("\\");
                out.append(dest_name.as_str());
                push_either(&mut out, *both, " in both views", "");
                out.append("?");
            },
            Question::Restore { file, dest, merges } => {
                out = "Restore ".to_owned();
                out.append(file.as_str());
                out.append(" -> ");
                out.append(dest.as_str());
                push_either(&mut out, *merges, " (merge)", "");
                out.append("?");
            },
            Question::Copy { moves, source, dest, merges } => {
                out = pick(*moves, "Move", "Copy");
                out.append(" ");
                out.append(source.as_str());
                out.append(" -> ");
                out.append(dest.as_str());
                push_either(&mut out, *merges, " (merge into existing destination)", "");
                out.append("?");
            },
            Question::CopyBoth { moves, source, dest, merges } => {
                out = pick(*moves, "Move", "Copy");
                out.append(" ");
                out.append(source.as_str());
                out.append(" -> ");
                out.append(dest.as_str());
                out.append(" in both views");
                push_either(&mut out, *merges, " (merge into existing destinations)", "");
                out.append("?");
            },
            Question::ApplyCopyPlan { operation, source, dest, both } => {
                out = "Apply verified ".to_owned();
                out.append(operation.as_str());
                out.append(" plan ");
                out.append(source.as_str());
                out.append(" -> ");
                out.append(dest.as_str());
                push_either(&mut out, *both, " in both views", "");
                out.append("?");
            },
            Question::SetValue { value, key } => {
                out = "Set value ".to_owned();
                out.append(to_debug(value.as_str()).as_str());
                out.append(" under ");
                out.append(key.as_str());
                out.append("?");
            },
            Question::DeleteLive { key } => {
                out = "Delete ".to_owned();
                out.append(key.as_str());
                out.append("?");
            },
            Question::HiveSet { subkey, value } => {
                out = "Set value ".to_owned();
                out.append(subkey.as_str());
                out.append("\\");
                out.append(value.as_str());
                out.append(" in the hive?");
            },
            Question::HiveDelete { subkey, only } => {
                out = "Delete ".to_owned();
                out.append(subkey.as_str());
                push_behind(&mut out, only);
                out.append(" from the hive?");
            },
            Question::HiveCopy { moves, source, dest, merges } => {
                out = pick(*moves, "Move", "Copy");
                out.append(" hive subtree ");
                out.append(source.as_str());
                out.append(" -> ");
                out.append(dest.as_str());
                push_either(&mut out, *merges, " (merge into existing destination)", "");
                out.append("?");
            },
            Question::HiveCopyValue { moves, source, source_value, dest, dest_value, overwrite } => {
                out = pick(*moves, "Move", "Copy");
                out.append(" hive value ");
                out.append(source.as_str());
                out.append("\\");
                out.append(source_value.as_str());
                out.append(" -> ");
                out.append(dest.as_str());
                out.append("\\");
                out.append(dest_value.as_str());
                push_either(&mut out, *overwrite, " (overwrite)", "");
                out.append("?");
            },
            Question::HiveImport { blocks, input } => {
                out = "Import ".to_owned();
                push_dec(&mut out, *blocks as u64);
                out.append(" key block(s) from ");
                out.append(input.as_str());
                out.append(" into the hive?");
            },
            Question::HiveUndo { blocks, input } => {
                out = "Undo ".to_owned();
                push_dec(&mut out, *blocks as u64);
                out.append(" key block(s) from ");
                out.append(input.as_str());
                out.append(" in the hive?");
            },
            Question::HiveSync { blocks, prune, prune_keys } => {
                out = "Synchronize ".to_owned();
                push_dec(&mut out, *blocks as u64);
                out.append(" key block(s) into the hive");
                push_either(&mut out, *prune, " (prune values)", "");
                push_either(&mut out, *prune_keys, " (prune subtrees)", "");
                out.append("?");
            },
            Question::HiveBatch { operations } => {
                out = "Apply ".to_owned();
                push_dec(&mut out, *operations as u64);
                out.append(" batch operation(s) atomically inside this hive?");
            },
        }
        out
    }
}

} // verus!
