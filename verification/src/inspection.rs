//! What is told of files, formats and the machine without changing anything.
use vstd::prelude::*;

use crate::exit::Exit;
use crate::json::{jbool, jopt_string, json_bool, json_opt, json_string, jstr};
use crate::model::{long_name_of, BlockView, Hive, KeyBlock, RegFile, ValueEntry};
use crate::number::{dec_of, push_dec};
use crate::parts::{json_spaced, json_spaced_strings};
use crate::redirect::{mapping_of, Confidence, Policy};
use crate::select::{capped, count_values, total_values};
use crate::selfcheck::{any_warning, Finding, FindingView, Verdict};
use crate::text::{join, joined, opt_text, views, views_push};
use crate::writer::{file_json, to_json, value_json, value_to_json};

verus! {

// ---------------------------------------------------------------------------
// Inspecting files
// ---------------------------------------------------------------------------

/// Some key belongs to a hive.
pub open spec fn holds_hive(keys: Seq<BlockView>, hive: Hive) -> bool {
    exists|i: int| 0 <= i < keys.len() && (#[trigger] keys[i]).path.hive == hive
}

fn has_hive(keys: &Vec<KeyBlock>, hive: Hive) -> (b: bool)
    ensures
        b == holds_hive(views(keys@), hive),
{
    let ghost all = views(keys@);
    for i in 0..keys.len()
        invariant
            all == views(keys@),
            forall|j: int| 0 <= j < i ==> (#[trigger] all[j]).path.hive != hive,
    {
        if keys[i].path.hive == hive {
            assert(all[i as int].path.hive == hive);
            return true;
        }
    }
    false
}

/// The hives in the order of their names.
pub open spec fn hive_order() -> Seq<Hive> {
    seq![Hive::Hkcr, Hive::Hkcc, Hive::Hkcu, Hive::Hklm, Hive::Hku]
}

/// The names of the hives that keys belong to, out of `hives`.
pub open spec fn hive_names(keys: Seq<BlockView>, hives: Seq<Hive>) -> Seq<Seq<char>>
    decreases hives.len(),
{
    if hives.len() == 0 {
        Seq::empty()
    } else {
        let before = hive_names(keys, hives.drop_last());
        if holds_hive(keys, hives.last()) {
            before.push(long_name_of(hives.last()))
        } else {
            before
        }
    }
}

/// The names of the hives that keys belong to, in order.
pub fn hives_of(keys: &Vec<KeyBlock>) -> (out: Vec<String>)
    ensures
        views(out@) == hive_names(views(keys@), hive_order()),
{
    broadcast use views_push;

    let hives: [Hive; 5] = [Hive::Hkcr, Hive::Hkcc, Hive::Hkcu, Hive::Hklm, Hive::Hku];
    let ghost all = hive_order();
    assert(hives@ =~= all);
    let mut out: Vec<String> = Vec::new();
    assert(views(out@) =~= Seq::<Seq<char>>::empty());
    assert(all.take(0) =~= Seq::<Hive>::empty());
    for i in 0..5
        invariant
            all == hive_order(),
            hives@ == all,
            views(out@) == hive_names(views(keys@), all.take(i as int)),
    {
        assert(all.take(i + 1).drop_last() =~= all.take(i as int));
        let hive = hives[i];
        if has_hive(keys, hive) {
            let one = hive.long_name().to_owned();
            let ghost before = out@;
            out.push(one);
            assert(views(out@) == views(before).push(one@));
        }
    }
    assert(all.take(5) =~= all);
    out
}

/// The number of blocks that delete a key.
pub open spec fn deletes_in(keys: Seq<BlockView>) -> nat
    decreases keys.len(),
{
    if keys.len() == 0 {
        0
    } else {
        deletes_in(keys.drop_last()) + if keys.last().delete {
            1nat
        } else {
            0
        }
    }
}

/// The number of keys that have no per-user equivalent.
pub open spec fn refused_in(keys: Seq<BlockView>) -> nat
    decreases keys.len(),
{
    if keys.len() == 0 {
        0
    } else {
        refused_in(keys.drop_last()) + if mapping_of(keys.last().path, Policy::Auto).confidence
            == Confidence::Refuse {
            1nat
        } else {
            0
        }
    }
}

/// The number of blocks that delete a key.
pub fn count_deletes(keys: &Vec<KeyBlock>) -> (n: usize)
    ensures
        n == deletes_in(views(keys@)),
{
    let ghost all = views(keys@);
    let mut n: usize = 0;
    assert(all.take(0) =~= Seq::<BlockView>::empty());
    for i in 0..keys.len()
        invariant
            all == views(keys@),
            n <= i,
            n == deletes_in(all.take(i as int)),
    {
        assert(all.take(i + 1).drop_last() =~= all.take(i as int));
        assert(all.take(i + 1).last() == keys@[i as int]@);
        if keys[i].delete {
            n += 1;
        }
    }
    assert(all.take(all.len() as int) =~= all);
    n
}

/// The number of keys that have no per-user equivalent.
pub fn count_refused(keys: &Vec<KeyBlock>) -> (n: usize)
    ensures
        n == refused_in(views(keys@)),
{
    let ghost all = views(keys@);
    let mut n: usize = 0;
    assert(all.take(0) =~= Seq::<BlockView>::empty());
    for i in 0..keys.len()
        invariant
            all == views(keys@),
            n <= i,
            n == refused_in(all.take(i as int)),
    {
        assert(all.take(i + 1).drop_last() =~= all.take(i as int));
        assert(all.take(i + 1).last() == keys@[i as int]@);
        if crate::redirect::map(&keys[i].path, Policy::Auto).confidence == Confidence::Refuse {
            n += 1;
        }
    }
    assert(all.take(all.len() as int) =~= all);
    n
}

/// A value as exact JSON, or `null`.
pub open spec fn opt_value_json(v: Option<ValueEntry>) -> Seq<char> {
    match v {
        Some(v) => value_json(v@),
        None => "null"@,
    }
}

fn push_opt_value(out: &mut String, v: &Option<ValueEntry>)
    ensures
        final(out)@ == old(out)@ + opt_value_json(*v),
{
    match v {
        Some(v) => out.append(value_to_json(v).as_str()),
        None => out.append("null"),
    }
}

/// A value that a file gives twice.
#[derive(Debug)]
pub struct FoundConflict {
    pub path: String,
    pub value: String,
    pub first_line: usize,
    pub last_line: usize,
    pub old: String,
    pub new: String,
    pub old_exact: Option<ValueEntry>,
    pub new_exact: Option<ValueEntry>,
}

/// A value that a file gives twice, as JSON.
pub open spec fn found_conflict_json(d: FoundConflict) -> Seq<char> {
    "{\"path\":"@ + json_string(d.path@) + ",\"value\":"@ + json_string(d.value@)
        + ",\"firstLine\":"@ + dec_of(d.first_line as nat) + ",\"lastLine\":"@
        + dec_of(d.last_line as nat) + ",\"old\":"@ + json_string(d.old@) + ",\"new\":"@
        + json_string(d.new@) + ",\"oldExact\":"@ + opt_value_json(d.old_exact)
        + ",\"newExact\":"@ + opt_value_json(d.new_exact) + "}"@
}

impl FoundConflict {
    /// A value that a file gives twice, as JSON.
    pub fn to_json(&self) -> (out: String)
        ensures
            out@ == found_conflict_json(*self),
    {
        let mut out = "{\"path\":".to_owned();
        out.append(jstr(self.path.as_str()).as_str());
        out.append(",\"value\":");
        out.append(jstr(self.value.as_str()).as_str());
        out.append(",\"firstLine\":");
        push_dec(&mut out, self.first_line as u64);
        out.append(",\"lastLine\":");
        push_dec(&mut out, self.last_line as u64);
        out.append(",\"old\":");
        out.append(jstr(self.old.as_str()).as_str());
        out.append(",\"new\":");
        out.append(jstr(self.new.as_str()).as_str());
        out.append(",\"oldExact\":");
        push_opt_value(&mut out, &self.old_exact);
        out.append(",\"newExact\":");
        push_opt_value(&mut out, &self.new_exact);
        out.append("}");
        out
    }
}

/// Conflicts as JSON, with commas between them.
pub open spec fn found_conflict_items(items: Seq<FoundConflict>) -> Seq<char> {
    joined(items.map_values(|d: FoundConflict| found_conflict_json(d)), ","@)
}

fn found_conflict_list(items: &Vec<FoundConflict>) -> (out: String)
    ensures
        out@ == found_conflict_items(items@),
{
    broadcast use views_push;

    let mut parts: Vec<String> = Vec::new();
    for i in 0..items.len()
        invariant
            views(parts@) =~= items@.take(i as int).map_values(
                |d: FoundConflict| found_conflict_json(d),
            ),
    {
        let one = items[i].to_json();
        let ghost before = parts@;
        parts.push(one);
        assert(views(parts@) == views(before).push(one@));
    }
    assert(items@.take(items@.len() as int) =~= items@);
    join(parts.as_slice(), ",")
}

/// What a file holds.
#[derive(Debug)]
pub struct Inspection {
    pub label: String,
    pub format: String,
    pub dialect: Option<String>,
    pub encoding: Option<String>,
    pub data: RegFile,
    pub notes: Vec<String>,
    pub losses: Vec<String>,
    pub conflicts: Vec<FoundConflict>,
}

/// What a file holds, as JSON.
pub open spec fn inspection_json(d: Inspection) -> Seq<char> {
    "{\"file\": "@ + json_string(d.label@) + ", \"format\": "@ + json_string(d.format@)
        + ", \"dialect\": "@ + json_opt(opt_text(d.dialect)) + ", \"encoding\": "@
        + json_opt(opt_text(d.encoding)) + ", \"keys\": "@ + dec_of(d.data.keys@.len())
        + ", \"values\": "@ + dec_of(capped(total_values(views(d.data.keys@))) as nat)
        + ", \"keyDeletes\": "@ + dec_of(deletes_in(views(d.data.keys@))) + ", \"hives\": ["@
        + json_spaced(hive_names(views(d.data.keys@), hive_order())) + "], \"notes\": ["@
        + json_spaced(views(d.notes@)) + "], \"losses\": ["@ + json_spaced(views(d.losses@))
        + "], \"conflicts\": ["@ + found_conflict_items(d.conflicts@) + "], \"data\": "@
        + file_json(d.data@) + "}"@
}

impl Inspection {
    /// What a file holds, as JSON.
    pub fn to_json(&self) -> (out: String)
        ensures
            out@ == inspection_json(*self),
    {
        let mut out = "{\"file\": ".to_owned();
        out.append(jstr(self.label.as_str()).as_str());
        out.append(", \"format\": ");
        out.append(jstr(self.format.as_str()).as_str());
        out.append(", \"dialect\": ");
        out.append(jopt_string(&self.dialect).as_str());
        out.append(", \"encoding\": ");
        out.append(jopt_string(&self.encoding).as_str());
        out.append(", \"keys\": ");
        push_dec(&mut out, self.data.keys.len() as u64);
        out.append(", \"values\": ");
        push_dec(&mut out, count_values(&self.data.keys) as u64);
        out.append(", \"keyDeletes\": ");
        push_dec(&mut out, count_deletes(&self.data.keys) as u64);
        out.append(", \"hives\": [");
        out.append(json_spaced_strings(hives_of(&self.data.keys).as_slice()).as_str());
        out.append("], \"notes\": [");
        out.append(json_spaced_strings(self.notes.as_slice()).as_str());
        out.append("], \"losses\": [");
        out.append(json_spaced_strings(self.losses.as_slice()).as_str());
        out.append("], \"conflicts\": [");
        out.append(found_conflict_list(&self.conflicts).as_str());
        out.append("], \"data\": ");
        out.append(to_json(&self.data).as_str());
        out.append("}");
        out
    }
}


// ---------------------------------------------------------------------------
// Formats
// ---------------------------------------------------------------------------

/// An input format: its name, its usual file and what it is.
#[derive(Clone, Copy, Debug)]
pub struct FormatEntry {
    pub name: &'static str,
    pub typical: &'static str,
    pub notes: &'static str,
}

/// What a `FormatEntry` stands for.
pub open spec fn entry_of(e: FormatEntry) -> (Seq<char>, Seq<char>, Seq<char>) {
    (e.name@, e.typical@, e.notes@)
}

/// The input formats.
pub open spec fn known_formats() -> Seq<(Seq<char>, Seq<char>, Seq<char>)> {
    seq![
        ("reg"@, ".reg"@, "regedit's own text format, UTF-16 or ANSI REGEDIT4"@),
        (
            "pol"@,
            "Registry.pol"@,
            "Group Policy PReg binary; readable and writable with exact-state guards"@,
        ),
        (
            "admx"@,
            ".admx + .adml"@,
            "policy template; concrete enabled/disabled values, elements reported"@,
        ),
        (
            "gpp"@,
            "Registry.xml"@,
            "Group Policy Preferences; actions C/R/U/D, Collections traversed"@,
        ),
        ("inf"@, ".inf"@, "[AddReg]/[DelReg] sections, with [Strings] token substitution"@),
        ("json"@, ".json"@, "compact {path: {name: value}} or explicit {\"keys\": [...]}"@),
        ("csv"@, ".csv / .tsv"@, "header row naming key, name, type, data in any order"@),
        ("ini"@, ".ini / .cfg"@, "[HKEY_...] sections, optional :type suffix on each name"@),
        ("hive"@, "NTUSER.DAT"@, "not read here - use `regx hive <FILE>`"@),
    ]
}

/// The input formats.
pub fn format_table() -> (out: Vec<FormatEntry>)
    ensures
        out@.map_values(|e: FormatEntry| entry_of(e)) == known_formats(),
{
    let out = vec![
        FormatEntry {
            name: "reg",
            typical: ".reg",
            notes: "regedit's own text format, UTF-16 or ANSI REGEDIT4",
        },
        FormatEntry {
            name: "pol",
            typical: "Registry.pol",
            notes: "Group Policy PReg binary; readable and writable with exact-state guards",
        },
        FormatEntry {
            name: "admx",
            typical: ".admx + .adml",
            notes: "policy template; concrete enabled/disabled values, elements reported",
        },
        FormatEntry {
            name: "gpp",
            typical: "Registry.xml",
            notes: "Group Policy Preferences; actions C/R/U/D, Collections traversed",
        },
        FormatEntry {
            name: "inf",
            typical: ".inf",
            notes: "[AddReg]/[DelReg] sections, with [Strings] token substitution",
        },
        FormatEntry {
            name: "json",
            typical: ".json",
            notes: "compact {path: {name: value}} or explicit {\"keys\": [...]}",
        },
        FormatEntry {
            name: "csv",
            typical: ".csv / .tsv",
            notes: "header row naming key, name, type, data in any order",
        },
        FormatEntry {
            name: "ini",
            typical: ".ini / .cfg",
            notes: "[HKEY_...] sections, optional :type suffix on each name",
        },
        FormatEntry {
            name: "hive",
            typical: "NTUSER.DAT",
            notes: "not read here - use `regx hive <FILE>`",
        },
    ];
    assert(out@.map_values(|e: FormatEntry| entry_of(e)) =~= known_formats());
    out
}

/// A format as JSON.
pub open spec fn format_json(e: (Seq<char>, Seq<char>, Seq<char>)) -> Seq<char> {
    "  {\"format\": "@ + json_string(e.0) + ", \"typical\": "@ + json_string(e.1) + ", \"notes\": "@
        + json_string(e.2) + "}"@
}

/// The input formats as JSON.
pub fn formats_json() -> (out: String)
    ensures
        out@ == "[\n"@ + joined(
            known_formats().map_values(|e: (Seq<char>, Seq<char>, Seq<char>)| format_json(e)),
            ",\n"@,
        ) + "\n]"@,
{
    broadcast use views_push;

    let table = format_table();
    let ghost all = known_formats();
    let mut items: Vec<String> = Vec::new();
    for i in 0..table.len()
        invariant
            table@.map_values(|e: FormatEntry| entry_of(e)) == all,
            views(items@) =~= all.take(i as int).map_values(
                |e: (Seq<char>, Seq<char>, Seq<char>)| format_json(e),
            ),
    {
        assert(all[i as int] == entry_of(table@[i as int]));
        let mut one = "  {\"format\": ".to_owned();
        one.append(jstr(table[i].name).as_str());
        one.append(", \"typical\": ");
        one.append(jstr(table[i].typical).as_str());
        one.append(", \"notes\": ");
        one.append(jstr(table[i].notes).as_str());
        one.append("}");
        let ghost before = items@;
        items.push(one);
        assert(views(items@) == views(before).push(one@));
    }
    assert(all.take(all.len() as int) =~= all);
    let mut out = "[\n".to_owned();
    out.append(join(items.as_slice(), ",\n").as_str());
    out.append("\n]");
    out
}

// ---------------------------------------------------------------------------
// Companion files
// ---------------------------------------------------------------------------

/// A reason not to trust a file.
#[derive(Debug)]
pub struct Risk {
    pub kind: String,
    pub explanation: String,
}

/// A reason not to trust a file, as JSON.
pub open spec fn risk_json(d: Risk) -> Seq<char> {
    "{\"kind\":"@ + json_string(d.kind@) + ",\"explanation\":"@ + json_string(d.explanation@)
        + "}"@
}

impl Risk {
    /// A reason not to trust a file, as JSON.
    pub fn to_json(&self) -> (out: String)
        ensures
            out@ == risk_json(*self),
    {
        let mut out = "{\"kind\":".to_owned();
        out.append(jstr(self.kind.as_str()).as_str());
        out.append(",\"explanation\":");
        out.append(jstr(self.explanation.as_str()).as_str());
        out.append("}");
        out
    }
}

/// The kinds of risks as JSON.
pub open spec fn risk_kinds(risks: Seq<Risk>) -> Seq<char> {
    joined(risks.map_values(|r: Risk| json_string(r.kind@)), ", "@)
}

/// Risks as JSON.
pub open spec fn risk_details(risks: Seq<Risk>) -> Seq<char> {
    joined(risks.map_values(|r: Risk| risk_json(r)), ", "@)
}

fn risk_kind_list(risks: &Vec<Risk>) -> (out: String)
    ensures
        out@ == risk_kinds(risks@),
{
    broadcast use views_push;

    let mut parts: Vec<String> = Vec::new();
    for i in 0..risks.len()
        invariant
            views(parts@) =~= risks@.take(i as int).map_values(|r: Risk| json_string(r.kind@)),
    {
        let one = jstr(risks[i].kind.as_str());
        let ghost before = parts@;
        parts.push(one);
        assert(views(parts@) == views(before).push(one@));
    }
    assert(risks@.take(risks@.len() as int) =~= risks@);
    join(parts.as_slice(), ", ")
}

fn risk_list(risks: &Vec<Risk>) -> (out: String)
    ensures
        out@ == risk_details(risks@),
{
    broadcast use views_push;

    let mut parts: Vec<String> = Vec::new();
    for i in 0..risks.len()
        invariant
            views(parts@) =~= risks@.take(i as int).map_values(|r: Risk| risk_json(r)),
    {
        let one = risks[i].to_json();
        let ghost before = parts@;
        parts.push(one);
        assert(views(parts@) == views(before).push(one@));
    }
    assert(risks@.take(risks@.len() as int) =~= risks@);
    join(parts.as_slice(), ", ")
}

/// A file that belongs to a program.
#[derive(Debug)]
pub struct Companion {
    pub path: String,
    pub resolved_path: String,
    pub origin: String,
    pub rank: u32,
    pub format: Option<String>,
    pub size: u64,
    pub risks: Vec<Risk>,
}

/// A file that belongs to a program, as JSON.
pub open spec fn companion_json(d: Companion) -> Seq<char> {
    "    {\"path\": "@ + json_string(d.path@) + ", \"resolvedPath\": "@
        + json_string(d.resolved_path@) + ", \"origin\": "@ + json_string(d.origin@)
        + ", \"rank\": "@ + dec_of(d.rank as nat) + ", \"format\": "@
        + json_opt(opt_text(d.format)) + ", \"size\": "@ + dec_of(d.size as nat)
        + ", \"risks\": ["@ + risk_kinds(d.risks@) + "], \"riskDetails\": ["@
        + risk_details(d.risks@) + "]}"@
}

impl Companion {
    /// A file that belongs to a program, as JSON.
    pub fn to_json(&self) -> (out: String)
        ensures
            out@ == companion_json(*self),
    {
        let mut out = "    {\"path\": ".to_owned();
        out.append(jstr(self.path.as_str()).as_str());
        out.append(", \"resolvedPath\": ");
        out.append(jstr(self.resolved_path.as_str()).as_str());
        out.append(", \"origin\": ");
        out.append(jstr(self.origin.as_str()).as_str());
        out.append(", \"rank\": ");
        push_dec(&mut out, self.rank as u64);
        out.append(", \"format\": ");
        out.append(jopt_string(&self.format).as_str());
        out.append(", \"size\": ");
        push_dec(&mut out, self.size);
        out.append(", \"risks\": [");
        out.append(risk_kind_list(&self.risks).as_str());
        out.append("], \"riskDetails\": [");
        out.append(risk_list(&self.risks).as_str());
        out.append("]}");
        out
    }
}

/// Companion files as JSON.
pub open spec fn companion_items(found: Seq<Companion>) -> Seq<char> {
    joined(found.map_values(|c: Companion| companion_json(c)), ",\n"@)
}

fn companion_list(found: &Vec<Companion>) -> (out: String)
    ensures
        out@ == companion_items(found@),
{
    broadcast use views_push;

    let mut parts: Vec<String> = Vec::new();
    for i in 0..found.len()
        invariant
            views(parts@) =~= found@.take(i as int).map_values(|c: Companion| companion_json(c)),
    {
        let one = found[i].to_json();
        let ghost before = parts@;
        parts.push(one);
        assert(views(parts@) == views(before).push(one@));
    }
    assert(found@.take(found@.len() as int) =~= found@);
    join(parts.as_slice(), ",\n")
}

/// The files that were found beside a program.
#[derive(Debug)]
pub struct Discovery {
    pub executable: Option<String>,
    pub anchor: String,
    pub stem: String,
    pub policy: bool,
    pub registry_pointer: bool,
    pub strict: bool,
    pub notes: Vec<String>,
    pub searched: Vec<String>,
    /// The number of files that carry a risk.
    pub risky: usize,
    pub found: Vec<Companion>,
}

/// The files that were found beside a program, as JSON.
pub open spec fn discovery_json(d: Discovery) -> Seq<char> {
    "{\n  \"executable\": "@ + json_opt(opt_text(d.executable)) + ",\n  \"anchor\": "@
        + json_string(d.anchor@) + ",\n  \"stem\": "@ + json_string(d.stem@)
        + ",\n  \"policy\": "@ + json_bool(d.policy) + ",\n  \"registryPointer\": "@
        + json_bool(d.registry_pointer) + ",\n  \"strict\": "@ + json_bool(d.strict)
        + ",\n  \"notes\": ["@ + json_spaced(views(d.notes@)) + "],\n  \"searched\": ["@
        + json_spaced(views(d.searched@)) + "],\n  \"risky\": "@ + dec_of(d.risky as nat)
        + ",\n  \"found\": [\n"@ + companion_items(d.found@) + "\n  ]\n}"@
}

impl Discovery {
    /// The files that were found beside a program, as JSON.
    pub fn to_json(&self) -> (out: String)
        ensures
            out@ == discovery_json(*self),
    {
        let mut out = "{\n  \"executable\": ".to_owned();
        out.append(jopt_string(&self.executable).as_str());
        out.append(",\n  \"anchor\": ");
        out.append(jstr(self.anchor.as_str()).as_str());
        out.append(",\n  \"stem\": ");
        out.append(jstr(self.stem.as_str()).as_str());
        out.append(",\n  \"policy\": ");
        out.append(jbool(self.policy));
        out.append(",\n  \"registryPointer\": ");
        out.append(jbool(self.registry_pointer));
        out.append(",\n  \"strict\": ");
        out.append(jbool(self.strict));
        out.append(",\n  \"notes\": [");
        out.append(json_spaced_strings(self.notes.as_slice()).as_str());
        out.append("],\n  \"searched\": [");
        out.append(json_spaced_strings(self.searched.as_slice()).as_str());
        out.append("],\n  \"risky\": ");
        push_dec(&mut out, self.risky as u64);
        out.append(",\n  \"found\": [\n");
        out.append(companion_list(&self.found).as_str());
        out.append("\n  ]\n}");
        out
    }

    /// How the search ends: with `strict` a risk counts.
    pub fn exit(&self) -> (r: Exit)
        ensures
            r == if self.strict && self.risky > 0 {
                Exit::Partial
            } else {
                Exit::Success
            },
    {
        if self.strict && self.risky > 0 {
            Exit::Partial
        } else {
            Exit::Success
        }
    }
}

// ---------------------------------------------------------------------------
// Self-check
// ---------------------------------------------------------------------------

/// The name of a verdict.
pub open spec fn verdict_name(v: Verdict) -> Seq<char> {
    match v {
        Verdict::Fine => "ok"@,
        Verdict::Note => "note"@,
        Verdict::Warn => "warn"@,
    }
}

fn name_verdict(v: Verdict) -> (r: &'static str)
    ensures
        r@ == verdict_name(v),
{
    match v {
        Verdict::Fine => "ok",
        Verdict::Note => "note",
        Verdict::Warn => "warn",
    }
}

/// The line of a finding.
pub open spec fn finding_line(f: FindingView, last: bool) -> Seq<char> {
    "  {\"area\": "@ + json_string(f.area) + ", \"verdict\": "@ + json_string(
        verdict_name(f.verdict),
    ) + ", \"detail\": "@ + json_string(f.detail) + (if last {
        "}\n"@
    } else {
        "},\n"@
    })
}

/// The first `n` findings, each on a line of its own.
pub open spec fn finding_lines(findings: Seq<FindingView>, n: int) -> Seq<char>
    decreases n,
{
    if n <= 0 {
        Seq::empty()
    } else {
        finding_lines(findings, n - 1) + finding_line(findings[n - 1], n == findings.len())
    }
}

/// A self-check as JSON.
pub open spec fn self_check_json(
    findings: Seq<FindingView>,
    policy: Seq<Seq<char>>,
) -> Seq<char> {
    "{\"findings\":[\n"@ + finding_lines(findings, findings.len() as int) + "],\"policy\":["@
        + crate::json::json_list(policy) + "]}"@
}

/// A self-check as JSON. `policy` describes the policy line by line.
pub fn self_check_document(findings: &Vec<Finding>, policy: &Vec<String>) -> (out: String)
    ensures
        out@ == self_check_json(views(findings@), views(policy@)),
{
    let ghost all = views(findings@);
    let mut lines = String::new();
    for i in 0..findings.len()
        invariant
            all == views(findings@),
            lines@ == finding_lines(all, i as int),
    {
        let f = &findings[i];
        assert(all[i as int] == f@);
        let mut one = "  {\"area\": ".to_owned();
        one.append(jstr(f.area).as_str());
        one.append(", \"verdict\": ");
        one.append(jstr(name_verdict(f.verdict)).as_str());
        one.append(", \"detail\": ");
        one.append(jstr(f.detail.as_str()).as_str());
        one.append(
            if i + 1 == findings.len() {
                "}\n"
            } else {
                "},\n"
            },
        );
        lines.append(one.as_str());
    }
    let mut out = "{\"findings\":[\n".to_owned();
    out.append(lines.as_str());
    out.append("],\"policy\":[");
    out.append(crate::json::json_strings(policy.as_slice()).as_str());
    out.append("]}");
    out
}

/// How a self-check ends: a warning counts.
pub fn self_check_exit(findings: &Vec<Finding>) -> (r: Exit)
    ensures
        r == if exists|i: int|
            0 <= i < findings@.len() && (#[trigger] findings@[i]).verdict == Verdict::Warn {
            Exit::Partial
        } else {
            Exit::Success
        },
{
    if any_warning(findings) {
        Exit::Partial
    } else {
        Exit::Success
    }
}

// ---------------------------------------------------------------------------
// Laws
// ---------------------------------------------------------------------------

/// The hive of every key is named.
pub proof fn every_hive_is_named(keys: Seq<BlockView>, i: int)
    requires
        0 <= i < keys.len(),
    ensures
        hive_names(keys, hive_order()).contains(long_name_of(keys[i].path.hive)),
{
    let h = keys[i].path.hive;
    assert(holds_hive(keys, h));
    let o = hive_order();
    let k: int = match h {
        Hive::Hkcr => 0,
        Hive::Hkcc => 1,
        Hive::Hkcu => 2,
        Hive::Hklm => 3,
        Hive::Hku => 4,
    };
    assert(o[k] == h);
    named_from(keys, o, k);
}

proof fn named_from(keys: Seq<BlockView>, hives: Seq<Hive>, k: int)
    requires
        0 <= k < hives.len(),
        holds_hive(keys, hives[k]),
    ensures
        hive_names(keys, hives).contains(long_name_of(hives[k])),
    decreases hives.len(),
{
    let before = hive_names(keys, hives.drop_last());
    let all = hive_names(keys, hives);
    if k == hives.len() - 1 {
        assert(all[before.len() as int] == long_name_of(hives[k]));
    } else {
        named_from(keys, hives.drop_last(), k);
        let j = choose|j: int| 0 <= j < before.len() && before[j] == long_name_of(hives[k]);
        assert(all[j] == before[j]);
    }
}

} // verus!
