//! What is told of a machine, a file or a request, and what it rests on.
use vstd::prelude::*;

use crate::audit::{action_of, anchor_failed, AnchorFailure, AuditAction, AuditRequest};
use crate::command::{script_writes, writes, HiveOpKind};
use crate::encoding::{decode_outcome, encoding_of, manifest_outcome, SourceEncoding};
use crate::exit::Exit;
use crate::input::{
    claims_stdout, conflicts_end, validate_refusal, ConflictPolicy, DataFormat, Stage,
    ValidateRequest,
};
use crate::inspection::{deletes_in, refused_in};
use crate::model::BlockView;
use crate::number::dec_of_int;
use crate::preparing::{unusable, NamedInput};
use crate::redirect::{label_of, mapping_of, Confidence, Policy};
use crate::selfcheck::{
    applocker_finding, collections, dword_of, findings_of, hkcu_finding, location_finding,
    risky_location, srp_finding, wdac_finding, web_finding, zone_of, Facts, Verdict,
};
use crate::shell::{folder_outcome, KnownFolder};
use crate::shortcut::{icon_of, OptionsView, ShowStyle};
use crate::shortcut_changes::{collide, destination, requested};
use crate::shortcut_manifest::ActionView;
use crate::text::{joined, lowered, text_at, trimmed};
use crate::text_laws::{joined_parts_come_apart, lacks};
use crate::utf16::{decoding_gives_back_the_text, units_be, units_of};

verus! {

// ---------------------------------------------------------------------------
// The machine
// ---------------------------------------------------------------------------

/// A number that is stored low byte first is read as what it is, where its type
/// and its length are those of such a number.
pub proof fn stored_numbers_are_read(n: u32, ty: u32, bytes: Seq<u8>)
    ensures
        dword_of(
            4,
            seq![
                (n % 0x100) as u8,
                (n / 0x100 % 0x100) as u8,
                (n / 0x1_0000 % 0x100) as u8,
                (n / 0x100_0000) as u8,
            ],
        ) == Some(n),
        dword_of(ty, bytes) is Some <==> ty == 4 && bytes.len() == 4,
{
    let a = n % 0x100;
    let b = n / 0x100 % 0x100;
    let c = n / 0x1_0000 % 0x100;
    let d = n / 0x100_0000;
    assert(n == a + 0x100 * b + 0x1_0000 * c + 0x100_0000 * d && a < 0x100 && b < 0x100 && c
        < 0x100 && d < 0x100) by (bit_vector)
        requires
            a == n % 0x100,
            b == n / 0x100 % 0x100,
            c == n / 0x1_0000 % 0x100,
            d == n / 0x100_0000,
    ;
}

/// A wide process is fine, a narrow one is warned of.
pub proof fn narrow_processes_are_warned_of(f: Facts)
    ensures
        findings_of(f)[0].verdict == Verdict::Fine <==> f.wide_process,
        findings_of(f)[0].verdict == Verdict::Warn <==> !f.wide_process,
{
}

/// An elevated process is warned of, one that is not is fine, and one that
/// could not be asked is noted.
pub proof fn elevation_is_warned_of(f: Facts)
    ensures
        findings_of(f)[1].verdict == Verdict::Warn <==> f.elevated == Some(true),
        findings_of(f)[1].verdict == Verdict::Fine <==> f.elevated == Some(false),
        findings_of(f)[1].verdict == Verdict::Note <==> f.elevated is None,
{
}

/// A path in lower case is risky where it goes through one of four directories.
pub proof fn risky_places_are_told(lower: Seq<char>)
    ensures
        risky_location(lower) is Some <==> exists|i: int| {
            ||| #[trigger] text_at(lower, "\\temp\\"@, i)
            ||| text_at(lower, "\\downloads\\"@, i)
            ||| text_at(lower, "\\appdata\\"@, i)
            ||| text_at(lower, "\\users\\public\\"@, i)
        },
        risky_location(lower) matches Some(p) ==> crate::text::contains_text(lower, p),
{
    if risky_location(lower) is Some {
        let p = risky_location(lower)->0;
        let i = choose|i: int| text_at(lower, p, i);
        assert(text_at(lower, "\\temp\\"@, i) || text_at(lower, "\\downloads\\"@, i) || text_at(
            lower,
            "\\appdata\\"@,
            i,
        ) || text_at(lower, "\\users\\public\\"@, i));
    }
}

/// The location is warned of where it is risky and fine otherwise, and the
/// finding begins with it.
pub proof fn risky_locations_are_warned_of(executable: Seq<char>)
    ensures
        location_finding(Some(executable)).verdict == Verdict::Warn <==> risky_location(
            crate::text::lowercase_of(executable),
        ) is Some,
        location_finding(Some(executable)).verdict == Verdict::Fine <==> risky_location(
            crate::text::lowercase_of(executable),
        ) is None,
        location_finding(Some(executable)).detail.len() >= executable.len(),
        location_finding(Some(executable)).detail.take(executable.len() as int) == executable,
{
    assert(location_finding(Some(executable)).detail.take(executable.len() as int) =~= executable);
}

proof fn zone_is_found(lines: Seq<Seq<char>>, i: int, k: int, zone: Seq<char>)
    requires
        0 <= i <= k < lines.len(),
        trimmed(lines[k]) == "ZoneId="@ + zone,
        forall|j: int|
            i <= j < k ==> !crate::text::begins(trimmed(#[trigger] lines[j]), "ZoneId="@),
    ensures
        crate::selfcheck::zone_from(lines, i) == zone,
    decreases k - i,
{
    reveal_strlit("ZoneId=");
    if i < k {
        zone_is_found(lines, i + 1, k, zone);
    } else {
        assert(trimmed(lines[k]).take(7) =~= "ZoneId="@);
        assert(trimmed(lines[k]).skip(7) =~= zone);
    }
}

/// The zone of a file is what its stream names first, and a file of the
/// internet or an untrusted one is warned of.
pub proof fn zones_are_read(
    executable: Seq<char>,
    lines: Seq<Seq<char>>,
    k: int,
    zone: Seq<char>,
)
    requires
        0 <= k < lines.len(),
        forall|j: int| 0 <= j < lines.len() ==> lacks(#[trigger] lines[j], '\n'),
        trimmed(lines[k]) == "ZoneId="@ + zone,
        forall|j: int|
            0 <= j < k ==> !crate::text::begins(trimmed(#[trigger] lines[j]), "ZoneId="@),
    ensures
        zone_of(joined(lines, seq!['\n'])) == zone,
        web_finding(Some(executable), Some(joined(lines, seq!['\n']))).verdict == (if zone == "3"@
            || zone == "4"@ {
            Verdict::Warn
        } else {
            Verdict::Note
        }),
        web_finding(Some(executable), None).verdict == Verdict::Fine,
        web_finding(None, None).verdict == Verdict::Note,
{
    joined_parts_come_apart(lines, '\n');
    zone_is_found(lines, 0, k, zone);
}

/// Rules are listed for each collection that has any, and only their
/// enforcement is warned of.
pub proof fn enforced_rules_are_warned_of(f: Facts)
    ensures
        applocker_finding(f).verdict == Verdict::Fine <==> {
            &&& f.exe_mode is None
            &&& f.dll_mode is None
            &&& f.msi_mode is None
            &&& f.script_mode is None
            &&& f.appx_mode is None
        },
        applocker_finding(f).verdict == Verdict::Warn <==> {
            ||| f.exe_mode == Some(1u32)
            ||| f.dll_mode == Some(1u32)
            ||| f.msi_mode == Some(1u32)
            ||| f.script_mode == Some(1u32)
            ||| f.appx_mode == Some(1u32)
        },
        f.exe_mode is Some ==> collections(f).len() > 0 && collections(f)[0] == "Exe="@ + (
        if f.exe_mode == Some(0u32) {
            "audit"@
        } else if f.exe_mode == Some(1u32) {
            "enforce"@
        } else {
            "?"@
        }),
        f.appx_mode is Some ==> collections(f).len() > 0 && collections(f).last() == "Appx="@ + (
        if f.appx_mode == Some(0u32) {
            "audit"@
        } else if f.appx_mode == Some(1u32) {
            "enforce"@
        } else {
            "?"@
        }),
{
    reveal_strlit("Exe=");
    reveal_strlit("Exe");
    reveal_strlit("Appx=");
    reveal_strlit("Appx");
    reveal_strlit("=");
    assert("Exe"@ + "="@ =~= "Exe="@);
    assert("Appx"@ + "="@ =~= "Appx="@);
}

/// A restriction is warned of at its two narrow levels, fine where it restricts
/// nothing or is not there, and noted otherwise.
pub proof fn restrictions_are_warned_of(level: Option<u32>)
    ensures
        srp_finding(level).verdict == Verdict::Warn <==> level == Some(0u32) || level == Some(
            0x1000u32,
        ),
        srp_finding(level).verdict == Verdict::Fine <==> level is None || level == Some(
            0x4_0000u32,
        ),
{
}

/// Code integrity is warned of where the hypervisor enforces it, and a software
/// key that cannot be written where that is so.
pub proof fn other_limits_are_warned_of(
    virtualization: Option<u32>,
    hypervisor: Option<u32>,
    active: nat,
    error: Option<Seq<char>>,
)
    ensures
        wdac_finding(virtualization, hypervisor, active).verdict == Verdict::Warn <==> hypervisor
            == Some(1u32),
        wdac_finding(virtualization, hypervisor, active).verdict != Verdict::Fine,
        hkcu_finding(error).verdict == Verdict::Warn <==> error is Some,
        hkcu_finding(error).verdict == Verdict::Fine <==> error is None,
{
}

/// Each finding is made of the facts of its own area.
pub proof fn findings_rest_on_their_facts(f: Facts)
    ensures
        findings_of(f)[3] == location_finding(crate::text::opt_text(f.executable)),
        findings_of(f)[4] == web_finding(
            crate::text::opt_text(f.executable),
            crate::text::opt_text(f.zone_stream),
        ),
        findings_of(f)[5] == applocker_finding(f),
        findings_of(f)[6] == srp_finding(f.restriction_level),
        findings_of(f)[7] == wdac_finding(
            f.virtualization,
            f.hypervisor,
            f.active_policies as nat,
        ),
        findings_of(f)[8] == hkcu_finding(crate::text::opt_text(f.hkcu_error)),
{
}

// ---------------------------------------------------------------------------
// Files
// ---------------------------------------------------------------------------

/// The bytes of units, high byte first.
pub open spec fn high_first(units: Seq<u16>) -> Seq<u8> {
    Seq::new(
        2 * units.len(),
        |i: int|
            if i % 2 == 0 {
                (units[i / 2] / 256) as u8
            } else {
                (units[i / 2] % 256) as u8
            },
    )
}

/// A text is read back from its UTF-16 bytes with the high byte first, behind
/// their mark, as a file and as a manifest.
pub proof fn high_first_files_read_back(text: Seq<char>, ansi: Option<Seq<char>>)
    ensures
        decode_outcome(seq![0xfeu8, 0xffu8] + high_first(units_of(text)), ansi) == Ok::<
            (Seq<char>, SourceEncoding),
            Seq<char>,
        >((text, SourceEncoding::Utf16Be)),
        manifest_outcome(seq![0xfeu8, 0xffu8] + high_first(units_of(text))) == Ok::<
            Seq<char>,
            Seq<char>,
        >(text),
        encoding_of(seq![0xfeu8, 0xffu8] + high_first(units_of(text))) == SourceEncoding::Utf16Be,
{
    let units = units_of(text);
    let body = high_first(units);
    let bytes = seq![0xfeu8, 0xffu8] + body;
    assert forall|i: int| 0 <= i < units.len() implies units_be(body)[i] == units[i] by {
        assert((2 * i) / 2 == i && (2 * i + 1) / 2 == i);
        assert((2 * i) % 2 == 0 && (2 * i + 1) % 2 == 1);
        assert(body[2 * i] == (units[i] / 256) as u8);
        assert(body[2 * i + 1] == (units[i] % 256) as u8);
    }
    assert(units_be(body) =~= units);
    decoding_gives_back_the_text(text);
    assert(bytes.take(2) =~= seq![0xfeu8, 0xffu8]);
    assert(bytes.take(2)[0] == 0xfeu8);
    assert(bytes.skip(2) =~= body);
}

/// Bytes that have no mark and are no UTF-8 are read by the system's code page,
/// and refused where it cannot read them.
pub proof fn other_bytes_go_to_the_code_page(bytes: Seq<u8>, ansi: Option<Seq<char>>)
    requires
        bytes.len() > 0 ==> bytes[0] < 0xef,
        !vstd::utf8::valid_utf8(bytes),
    ensures
        decode_outcome(bytes, ansi) is Ok <==> ansi is Some,
        ansi matches Some(text) ==> decode_outcome(bytes, ansi) == Ok::<
            (Seq<char>, SourceEncoding),
            Seq<char>,
        >((text, SourceEncoding::Ansi)),
        manifest_outcome(bytes) is Err,
{
    assert(bytes.len() >= 2 ==> bytes.take(2)[0] == bytes[0]);
    assert(bytes.len() >= 3 ==> bytes.take(3)[0] == bytes[0]);
}

/// The keys that a file deletes are counted, and those that have no place for
/// the user.
pub proof fn counts_are_of_the_keys(keys: Seq<BlockView>)
    ensures
        deletes_in(keys) == keys.filter(|b: BlockView| b.delete).len(),
        refused_in(keys) == keys.filter(
            |b: BlockView| mapping_of(b.path, Policy::Auto).confidence == Confidence::Refuse,
        ).len(),
    decreases keys.len(),
{
    reveal(Seq::filter);
    if keys.len() > 0 {
        counts_are_of_the_keys(keys.drop_last());
    }
}

/// Confidences are told apart by their names.
pub proof fn confidences_are_told_apart(a: Confidence, b: Confidence)
    requires
        label_of(a) == label_of(b),
    ensures
        a == b,
{
    reveal_strlit("refuse");
    reveal_strlit("low");
    reveal_strlit("medium");
    reveal_strlit("high");
    assert("refuse"@[0] == 'r' && "low"@[0] == 'l' && "medium"@[0] == 'm' && "high"@[0] == 'h');
}

/// An input is named where something of it would be lost, or where it
/// contradicts itself and that is not allowed; without one every input passes.
pub proof fn unusable_inputs_are_named(
    inputs: Seq<NamedInput>,
    policy: ConflictPolicy,
    operation: Seq<char>,
    i: int,
)
    requires
        0 <= i <= inputs.len(),
    ensures
        unusable(inputs, policy, operation, i) is None <==> forall|k: int|
            i <= k < inputs.len() ==> (#[trigger] inputs[k]).outcome.losses@.len() == 0 && (policy
                == ConflictPolicy::LastWins || inputs[k].outcome.conflicts@.len() == 0),
        unusable(inputs, policy, operation, i) matches Some(why) ==> exists|k: int|
            i <= k < inputs.len() && (#[trigger] inputs[k]).label@ == why.0 && (
            inputs[k].outcome.losses@.len() > 0 || inputs[k].outcome.conflicts@.len() > 0),
    decreases inputs.len() - i,
{
    if i < inputs.len() {
        unusable_inputs_are_named(inputs, policy, operation, i + 1);
        assert(inputs[i].label@ == inputs[i].label@);
    }
}

/// Conflicts are refused where they are not allowed and there are any.
pub proof fn conflicts_are_refused_unless_allowed(
    count: nat,
    policy: ConflictPolicy,
    operation: Seq<char>,
    stage: Stage,
)
    ensures
        conflicts_end(count, policy, operation, stage) is Err <==> count > 0 && policy
            == ConflictPolicy::Error,
        conflicts_end(count, policy, operation, stage) matches Err(e) ==> e.code == Exit::Parse,
{
}

// ---------------------------------------------------------------------------
// Requests
// ---------------------------------------------------------------------------

/// Validation is refused where it would repair several inputs, rewrite a
/// stream, or keep a copy of one.
pub proof fn validation_is_refused_on_streams(q: ValidateRequest)
    ensures
        validate_refusal(q) is None <==> (q.fix ==> q.files == 1) && (q.fix && q.stream
            ==> q.has_out) && !(q.backup && q.stream),
{
}

/// Two documents meet on standard output where a report as JSON is asked for
/// and the data goes there in another form than text or JSON.
pub proof fn one_document_goes_to_standard_output(json: bool, has_out: bool, to: DataFormat)
    ensures
        claims_stdout(json, has_out, to) <==> json && !has_out && (to == DataFormat::Csv || to
            == DataFormat::Pol),
{
}

/// A script changes the hive where one of its operations does or cannot be
/// read; reading it more does not undo that.
pub proof fn scripts_write_where_an_operation_does(
    ops: Seq<Option<HiveOpKind>>,
    op: Option<HiveOpKind>,
)
    ensures
        !script_writes(Seq::empty()),
        script_writes(ops.push(op)) <==> script_writes(ops) || op is None || writes(op->0),
        !writes(HiveOpKind::Info) && !writes(HiveOpKind::Ls) && !writes(HiveOpKind::Query)
            && !writes(HiveOpKind::Stats) && !writes(HiveOpKind::Fingerprint) && !writes(
            HiveOpKind::Probe,
        ) && !writes(HiveOpKind::Permissions) && !writes(HiveOpKind::Search) && !writes(
            HiveOpKind::Diff,
        ) && !writes(HiveOpKind::Export),
        writes(HiveOpKind::SetValue) && writes(HiveOpKind::DeleteKey) && writes(HiveOpKind::CopyKey)
            && writes(HiveOpKind::MoveKey) && writes(HiveOpKind::CopyValue) && writes(
            HiveOpKind::MoveValue,
        ) && writes(HiveOpKind::Import) && writes(HiveOpKind::Undo) && writes(HiveOpKind::Sync)
            && writes(HiveOpKind::BatchFile),
{
    let more = ops.push(op);
    if script_writes(ops) {
        let i = choose|i: int|
            0 <= i < ops.len() && (#[trigger] ops[i] matches Some(op) ==> writes(op));
        assert(more[i] == ops[i]);
    }
    assert(more[ops.len() as int] == op);
    if script_writes(more) && !(op is None || writes(op->0)) {
        let i = choose|i: int|
            0 <= i < more.len() && (#[trigger] more[i] matches Some(op) ==> writes(op));
        assert(ops[i] == more[i]);
    }
}

/// A log is rotated only where that is asked for and it is no dry run, and an
/// anchor is written only where that is asked for.
pub proof fn logs_are_treated_as_asked(q: AuditRequest)
    ensures
        action_of(q) == AuditAction::Rotate <==> q.rotates && !q.dry_run,
        action_of(q) == AuditAction::RehearseRotation <==> q.rotates && q.dry_run,
        action_of(q) == AuditAction::CheckChain <==> q.chains && !q.rotates,
        action_of(q) == AuditAction::CheckForAnchor <==> q.writes && !q.rotates && !q.chains,
        action_of(q) == AuditAction::CheckWithAnchor <==> q.verifies && !q.writes && !q.rotates
            && !q.chains,
{
}

/// A forged anchor ends the run as partial, and no failure of an anchor passes
/// as a success.
pub proof fn forged_anchors_are_told(f: AnchorFailure, anchor: Seq<char>)
    ensures
        anchor_failed(f, anchor) is Ok <==> f is Forged,
        anchor_failed(f, anchor) matches Ok((exit, _)) ==> exit == Exit::Partial,
        anchor_failed(f, anchor) matches Err(e) ==> e.code != Exit::Success,
        f matches AnchorFailure::BadInput(why) ==> (anchor_failed(f, anchor) matches Err(e)
            && e.code == Exit::Usage && e.message == why@),
{
}

// ---------------------------------------------------------------------------
// Shortcuts and folders
// ---------------------------------------------------------------------------

/// Each option of a shortcut is what was asked for under its name, and the icon
/// is the file and the index that were written for it.
pub proof fn shortcuts_are_requested_as_written(
    target: Seq<char>,
    output: Seq<char>,
    workdir: Option<Seq<char>>,
    arguments: Option<Seq<char>>,
    description: Option<Seq<char>>,
    icon: Option<Seq<char>>,
    style: ShowStyle,
)
    ensures
        requested(target, output, workdir, arguments, description, icon, style) matches Ok(o) ==> {
            &&& o.target == target
            &&& o.output == output
            &&& o.working_directory == workdir
            &&& o.arguments == arguments
            &&& o.description == description
            &&& o.style == style
            &&& icon is None ==> o.icon_path is None && o.icon_index == 0
            &&& icon matches Some(s) ==> (icon_of(s) matches Ok((path, index)) && o.icon_path
                == Some(path))
        },
        requested(target, output, workdir, arguments, description, icon, style) is Err <==> icon
            is Some && icon_of(icon->0) is Err,
{
}

/// A shortcut asked for with an icon's file and index has both.
pub proof fn requested_icons_are_kept(
    target: Seq<char>,
    output: Seq<char>,
    style: ShowStyle,
    path: Seq<char>,
    index: i32,
)
    requires
        path.len() > 0,
        crate::text_laws::trim_free(path),
    ensures
        requested(
            target,
            output,
            None,
            None,
            None,
            Some(path + seq![','] + dec_of_int(index as int)),
            style,
        ) matches Ok(o) && o.icon_path == Some(path) && o.icon_index == index,
{
    crate::link_laws::icons_read_back(path, index);
}

/// Two actions collide where they change the same file, in any case.
pub proof fn actions_collide_on_one_file(o: OptionsView, path: Seq<char>)
    ensures
        destination(ActionView::Create(o)) == o.output,
        destination(ActionView::Delete(path)) == path,
        collide(ActionView::Create(o), ActionView::Delete(path)) <==> lowered(o.output) == lowered(
            path,
        ),
{
}

proof fn zero_is_first(units: Seq<u16>, rest: Seq<u16>)
    requires
        !units.contains(0),
    ensures
        crate::shell::first_zero(units + seq![0u16] + rest) == units.len(),
    decreases units.len(),
{
    let all = units + seq![0u16] + rest;
    if units.len() == 0 {
        assert(all[0] == 0);
    } else {
        assert(all[0] == units[0]);
        assert(units.contains(units[0]));
        let tail = units.skip(1);
        assert(all.skip(1) =~= tail + seq![0u16] + rest);
        assert(!tail.contains(0)) by {
            if tail.contains(0) {
                let i = choose|i: int| 0 <= i < tail.len() && tail[i] == 0;
                assert(units[i + 1] == 0);
                assert(units.contains(units[i + 1]));
            }
        }
        zero_is_first(tail, rest);
    }
}

/// The path of a folder is the text that the system gave before its terminator:
/// the first answer where it is good, else the second.
pub proof fn folders_are_where_the_system_says(
    folder: KnownFolder,
    hr: i32,
    path: Seq<char>,
    rest: Seq<u16>,
    fallback: i32,
    buffer: Seq<u16>,
)
    requires
        !units_of(path).contains(0),
        units_of(path).len() < 32_768,
    ensures
        hr >= 0 ==> folder_outcome(
            folder,
            hr,
            Some(units_of(path) + seq![0u16] + rest),
            fallback,
            buffer,
        ) == Ok::<Seq<char>, Seq<char>>(path),
        hr < 0 && fallback >= 0 ==> folder_outcome(
            folder,
            hr,
            None,
            fallback,
            units_of(path) + seq![0u16] + rest,
        ) == Ok::<Seq<char>, Seq<char>>(path),
        hr < 0 && fallback < 0 ==> folder_outcome(folder, hr, None, fallback, buffer) is Err,
{
    let units = units_of(path);
    let all = units + seq![0u16] + rest;
    zero_is_first(units, rest);
    decoding_gives_back_the_text(path);
    assert(all.take(units.len() as int) =~= units);
}

/// A check of a log ends well exactly where the log is intact.
pub proof fn only_intact_logs_pass(intact: bool)
    ensures
        crate::audit::intact_exit(intact) == Exit::Success <==> intact,
        crate::audit::intact_exit(intact) == Exit::Partial <==> !intact,
{
}

/// An input goes by its path, unless it is standard input or a pipe that has a
/// name of its own.
pub proof fn inputs_go_by_their_names(path: Seq<char>, pipe: Seq<char>)
    ensures
        crate::args::label_of_input("-"@, None) == "<stdin>"@,
        path != "-"@ ==> crate::args::label_of_input(path, None) == path,
        path != "-"@ ==> crate::args::label_of_input(path, Some(pipe)) == pipe,
{
}

/// A count is told as it is where it fits, and as the largest that fits where
/// it does not.
pub proof fn counts_are_capped(n: nat)
    ensures
        n <= usize::MAX ==> crate::select::capped(n) == n,
        n > usize::MAX ==> crate::select::capped(n) == usize::MAX,
{
}

/// The bits of a number are those of its two's complement.
pub proof fn bits_are_of_the_complement(n: i32)
    ensures
        crate::shell::bits_of(n) < 0x1_0000_0000,
        (crate::shell::bits_of(n) - n) % 0x1_0000_0000 == 0,
{
}

/// Up to sixteen bytes are shown one by one, of more the first sixteen; how
/// many there are is always told.
pub proof fn bytes_are_shown_up_to_sixteen(bytes: Seq<u8>, more: Seq<u8>)
    requires
        bytes.len() <= 16,
    ensures
        crate::model::hex_preview_of(bytes) == joined(
            bytes.map_values(|b: u8| crate::number::hex_of(b as nat, 2)),
            " "@,
        ) + " ["@ + crate::number::dec_of(bytes.len()) + " bytes]"@,
        bytes.len() == 16 && more.len() > 0 ==> crate::model::hex_preview_of(bytes + more)
            == joined(bytes.map_values(|b: u8| crate::number::hex_of(b as nat, 2)), " "@) + " ..."@
            + " ["@ + crate::number::dec_of(bytes.len() + more.len()) + " bytes]"@,
{
    let shown = joined(bytes.map_values(|b: u8| crate::number::hex_of(b as nat, 2)), " "@);
    assert(shown + Seq::<char>::empty() =~= shown);
    if bytes.len() == 16 {
        assert((bytes + more).take(16) =~= bytes);
    }
}

} // verus!
