//! What is asked of audit logs, and what checking them reports.
use vstd::prelude::*;

use crate::exit::{done_result, failed, plain_error, usage, usage_error, ErrorView, Exit, ExitError};
use crate::json::{jbool, json_bool, json_list, json_string, json_strings, jstr};
use crate::number::{dec_of, push_dec};
use crate::text::{concat3, join, joined, views, views_push};

verus! {

/// The least number of bytes of a key that signs anchors.
pub const LEAST_KEY: usize = 32;

/// The greatest number of bytes of a key that signs anchors.
pub const GREATEST_KEY: usize = 65_536;

/// A key signs or checks an anchor; without one to write or to check it is
/// refused.
pub fn check_anchor_request(has_key: bool, writes: bool, verifies: bool) -> (r: Result<
    (),
    ExitError,
>)
    ensures
        done_result(r) == if has_key && !writes && !verifies {
            Err::<(), ErrorView>(
                usage_error("--anchor-key requires --write-anchor or --verify-anchor"@),
            )
        } else {
            Ok(())
        },
{
    if has_key && !writes && !verifies {
        return Err(
            usage("--anchor-key requires --write-anchor or --verify-anchor".to_owned()),
        );
    }
    Ok(())
}

/// A key that signs anchors is neither too short nor too long.
pub fn check_anchor_key(key: &[u8]) -> (r: Result<(), ExitError>)
    ensures
        done_result(r) == if LEAST_KEY <= key@.len() <= GREATEST_KEY {
            Ok::<(), ErrorView>(())
        } else {
            Err(usage_error("audit anchor key must contain 32 to 65536 raw bytes"@))
        },
{
    if key.len() < LEAST_KEY || key.len() > GREATEST_KEY {
        return Err(usage("audit anchor key must contain 32 to 65536 raw bytes".to_owned()));
    }
    Ok(())
}

/// A place where a log is broken, and why.
#[derive(Debug)]
pub struct Break {
    /// The line of a log, or the number of a segment in a chain, from one.
    pub place: usize,
    pub problem: String,
}

/// What checking a log gave.
#[derive(Debug)]
pub struct Verification {
    pub records: usize,
    pub sessions: usize,
    pub broken: Vec<Break>,
}

/// How checking ends.
pub open spec fn intact_exit(intact: bool) -> Exit {
    if intact {
        Exit::Success
    } else {
        Exit::Partial
    }
}

impl Verification {
    /// Whether nothing was changed.
    pub fn is_intact(&self) -> (b: bool)
        ensures
            b == (self.broken@.len() == 0),
    {
        self.broken.len() == 0
    }

    /// How checking ends.
    pub fn exit(&self) -> (r: Exit)
        ensures
            r == intact_exit(self.broken@.len() == 0),
    {
        if self.is_intact() {
            Exit::Success
        } else {
            Exit::Partial
        }
    }

    /// A broken log is not rotated: a break must not be hidden in an archive.
    pub fn may_rotate(&self) -> (b: bool)
        ensures
            b == (self.broken@.len() == 0),
    {
        self.is_intact()
    }

    /// Neither an empty nor a broken log is anchored.
    pub fn may_anchor(&self) -> (b: bool)
        ensures
            b == (self.broken@.len() == 0 && self.records != 0),
    {
        self.is_intact() && self.records != 0
    }
}

/// A break in a chain of segments as JSON.
pub open spec fn segment_json(b: Break) -> Seq<char> {
    "{\"segment\":"@ + dec_of(b.place as nat) + ",\"problem\":"@ + json_string(b.problem@) + "}"@
}

/// A break in a log as JSON.
pub open spec fn line_json(b: Break) -> Seq<char> {
    "    {\"line\": "@ + dec_of(b.place as nat) + ", \"problem\": "@ + json_string(b.problem@) + "}"@
}

/// Breaks in a chain as JSON.
pub open spec fn segment_items(items: Seq<Break>) -> Seq<char> {
    joined(items.map_values(|b: Break| segment_json(b)), ","@)
}

/// Breaks in a log as JSON.
pub open spec fn line_items(items: Seq<Break>) -> Seq<char> {
    joined(items.map_values(|b: Break| line_json(b)), ",\n"@)
}

fn segment_list(items: &Vec<Break>) -> (out: String)
    ensures
        out@ == segment_items(items@),
{
    broadcast use views_push;

    let mut parts: Vec<String> = Vec::new();
    for i in 0..items.len()
        invariant
            views(parts@) =~= items@.take(i as int).map_values(|b: Break| segment_json(b)),
    {
        let mut one = "{\"segment\":".to_owned();
        push_dec(&mut one, items[i].place as u64);
        one.append(",\"problem\":");
        one.append(jstr(items[i].problem.as_str()).as_str());
        one.append("}");
        let ghost before = parts@;
        parts.push(one);
        assert(views(parts@) == views(before).push(one@));
    }
    assert(items@.take(items@.len() as int) =~= items@);
    join(parts.as_slice(), ",")
}

fn line_list(items: &Vec<Break>) -> (out: String)
    ensures
        out@ == line_items(items@),
{
    broadcast use views_push;

    let mut parts: Vec<String> = Vec::new();
    for i in 0..items.len()
        invariant
            views(parts@) =~= items@.take(i as int).map_values(|b: Break| line_json(b)),
    {
        let mut one = "    {\"line\": ".to_owned();
        push_dec(&mut one, items[i].place as u64);
        one.append(", \"problem\": ");
        one.append(jstr(items[i].problem.as_str()).as_str());
        one.append("}");
        let ghost before = parts@;
        parts.push(one);
        assert(views(parts@) == views(before).push(one@));
    }
    assert(items@.take(items@.len() as int) =~= items@);
    join(parts.as_slice(), ",\n")
}

/// A log that could be rotated.
#[derive(Debug)]
pub struct RotationPlan {
    pub file: String,
    pub archive: String,
    pub records: usize,
}

/// A log that could be rotated, as JSON.
pub open spec fn rotation_plan_json(d: RotationPlan) -> Seq<char> {
    "{\"file\":"@ + json_string(d.file@) + ",\"archive\":"@ + json_string(d.archive@)
        + ",\"dryRun\":true,\"records\":"@ + dec_of(d.records as nat)
        + ",\"archiveBytes\":null,\"archiveSha256\":null,\"eligible\":true}"@
}

impl RotationPlan {
    /// A log that could be rotated, as JSON.
    pub fn to_json(&self) -> (out: String)
        ensures
            out@ == rotation_plan_json(*self),
    {
        let mut out = "{\"file\":".to_owned();
        out.append(jstr(self.file.as_str()).as_str());
        out.append(",\"archive\":");
        out.append(jstr(self.archive.as_str()).as_str());
        out.append(",\"dryRun\":true,\"records\":");
        push_dec(&mut out, self.records as u64);
        out.append(",\"archiveBytes\":null,\"archiveSha256\":null,\"eligible\":true}");
        out
    }
}

/// A log that was rotated.
#[derive(Debug)]
pub struct Rotation {
    pub file: String,
    pub archive: String,
    pub records: usize,
    pub previous_hash: String,
    pub archive_bytes: u64,
    pub archive_sha256: String,
}

/// A log that was rotated, as JSON.
pub open spec fn rotation_json(d: Rotation) -> Seq<char> {
    "{\"file\":"@ + json_string(d.file@) + ",\"archive\":"@ + json_string(d.archive@)
        + ",\"dryRun\":false,\"records\":"@ + dec_of(d.records as nat) + ",\"previousHash\":"@
        + json_string(d.previous_hash@) + ",\"archiveBytes\":"@ + dec_of(d.archive_bytes as nat)
        + ",\"archiveSha256\":"@ + json_string(d.archive_sha256@) + ",\"rotated\":true}"@
}

impl Rotation {
    /// A log that was rotated, as JSON.
    pub fn to_json(&self) -> (out: String)
        ensures
            out@ == rotation_json(*self),
    {
        let mut out = "{\"file\":".to_owned();
        out.append(jstr(self.file.as_str()).as_str());
        out.append(",\"archive\":");
        out.append(jstr(self.archive.as_str()).as_str());
        out.append(",\"dryRun\":false,\"records\":");
        push_dec(&mut out, self.records as u64);
        out.append(",\"previousHash\":");
        out.append(jstr(self.previous_hash.as_str()).as_str());
        out.append(",\"archiveBytes\":");
        push_dec(&mut out, self.archive_bytes);
        out.append(",\"archiveSha256\":");
        out.append(jstr(self.archive_sha256.as_str()).as_str());
        out.append(",\"rotated\":true}");
        out
    }
}

/// What checking a chain of rotated logs gave.
#[derive(Debug)]
pub struct ChainReport {
    pub files: Vec<String>,
    pub verification: Verification,
}

/// What checking a chain of rotated logs gave, as JSON.
pub open spec fn chain_report_json(d: ChainReport) -> Seq<char> {
    "{\"files\":["@ + json_list(views(d.files@)) + "],\"records\":"@
        + dec_of(d.verification.records as nat) + ",\"sessions\":"@
        + dec_of(d.verification.sessions as nat) + ",\"intact\":"@
        + json_bool(d.verification.broken@.len() == 0) + ",\"broken\":["@
        + segment_items(d.verification.broken@) + "]}"@
}

impl ChainReport {
    /// What checking a chain of rotated logs gave, as JSON.
    pub fn to_json(&self) -> (out: String)
        ensures
            out@ == chain_report_json(*self),
    {
        let mut out = "{\"files\":[".to_owned();
        out.append(json_strings(self.files.as_slice()).as_str());
        out.append("],\"records\":");
        push_dec(&mut out, self.verification.records as u64);
        out.append(",\"sessions\":");
        push_dec(&mut out, self.verification.sessions as u64);
        out.append(",\"intact\":");
        out.append(jbool(self.verification.is_intact()));
        out.append(",\"broken\":[");
        out.append(segment_list(&self.verification.broken).as_str());
        out.append("]}");
        out
    }
}

/// A log that could be anchored.
#[derive(Debug)]
pub struct AnchorPlan {
    pub file: String,
    pub anchor: String,
    pub records: usize,
    pub signed: bool,
}

/// A log that could be anchored, as JSON.
pub open spec fn anchor_plan_json(d: AnchorPlan) -> Seq<char> {
    "{\"file\":"@ + json_string(d.file@) + ",\"anchor\":"@ + json_string(d.anchor@)
        + ",\"dryRun\":true,\"records\":"@ + dec_of(d.records as nat) + ",\"signed\":"@
        + json_bool(d.signed) + ",\"anchorBytes\":null,\"anchorSha256\":null,\"eligible\":true}"@
}

impl AnchorPlan {
    /// A log that could be anchored, as JSON.
    pub fn to_json(&self) -> (out: String)
        ensures
            out@ == anchor_plan_json(*self),
    {
        let mut out = "{\"file\":".to_owned();
        out.append(jstr(self.file.as_str()).as_str());
        out.append(",\"anchor\":");
        out.append(jstr(self.anchor.as_str()).as_str());
        out.append(",\"dryRun\":true,\"records\":");
        push_dec(&mut out, self.records as u64);
        out.append(",\"signed\":");
        out.append(jbool(self.signed));
        out.append(",\"anchorBytes\":null,\"anchorSha256\":null,\"eligible\":true}");
        out
    }
}

/// A log that was anchored.
#[derive(Debug)]
pub struct Anchor {
    pub file: String,
    pub anchor: String,
    pub records: usize,
    pub sha256: String,
    pub tail_hash: String,
    pub signed: bool,
    pub anchor_bytes: u64,
    pub anchor_sha256: String,
}

/// A log that was anchored, as JSON.
pub open spec fn anchor_json(d: Anchor) -> Seq<char> {
    "{\"file\":"@ + json_string(d.file@) + ",\"anchor\":"@ + json_string(d.anchor@)
        + ",\"dryRun\":false,\"records\":"@ + dec_of(d.records as nat) + ",\"sha256\":"@
        + json_string(d.sha256@) + ",\"tailHash\":"@ + json_string(d.tail_hash@) + ",\"signed\":"@
        + json_bool(d.signed) + ",\"anchorBytes\":"@ + dec_of(d.anchor_bytes as nat)
        + ",\"anchorSha256\":"@ + json_string(d.anchor_sha256@) + ",\"written\":true}"@
}

impl Anchor {
    /// A log that was anchored, as JSON.
    pub fn to_json(&self) -> (out: String)
        ensures
            out@ == anchor_json(*self),
    {
        let mut out = "{\"file\":".to_owned();
        out.append(jstr(self.file.as_str()).as_str());
        out.append(",\"anchor\":");
        out.append(jstr(self.anchor.as_str()).as_str());
        out.append(",\"dryRun\":false,\"records\":");
        push_dec(&mut out, self.records as u64);
        out.append(",\"sha256\":");
        out.append(jstr(self.sha256.as_str()).as_str());
        out.append(",\"tailHash\":");
        out.append(jstr(self.tail_hash.as_str()).as_str());
        out.append(",\"signed\":");
        out.append(jbool(self.signed));
        out.append(",\"anchorBytes\":");
        push_dec(&mut out, self.anchor_bytes);
        out.append(",\"anchorSha256\":");
        out.append(jstr(self.anchor_sha256.as_str()).as_str());
        out.append(",\"written\":true}");
        out
    }
}

/// What checking a log against its anchor gave.
#[derive(Debug)]
pub struct AnchorCheck {
    pub file: String,
    pub anchor: String,
    pub records: usize,
    pub chain_intact: bool,
    pub anchor_matches: bool,
    pub expected_sha256: String,
    pub actual_sha256: String,
    pub expected_tail: String,
    pub actual_tail: String,
    pub signed: bool,
}

/// What checking a log against its anchor gave, as JSON.
pub open spec fn anchor_check_json(d: AnchorCheck) -> Seq<char> {
    "{\"file\":"@ + json_string(d.file@) + ",\"anchor\":"@ + json_string(d.anchor@)
        + ",\"records\":"@ + dec_of(d.records as nat) + ",\"chainIntact\":"@
        + json_bool(d.chain_intact) + ",\"anchorMatches\":"@ + json_bool(d.anchor_matches)
        + ",\"intact\":"@ + json_bool(d.chain_intact && d.anchor_matches)
        + ",\"expectedSha256\":"@ + json_string(d.expected_sha256@) + ",\"actualSha256\":"@
        + json_string(d.actual_sha256@) + ",\"expectedTailHash\":"@
        + json_string(d.expected_tail@) + ",\"actualTailHash\":"@ + json_string(d.actual_tail@)
        + ",\"signed\":"@ + json_bool(d.signed) + ",\"signatureValid\":"@ + json_bool(d.signed)
        + "}"@
}

impl AnchorCheck {
    /// What checking a log against its anchor gave, as JSON.
    pub fn to_json(&self) -> (out: String)
        ensures
            out@ == anchor_check_json(*self),
    {
        let mut out = "{\"file\":".to_owned();
        out.append(jstr(self.file.as_str()).as_str());
        out.append(",\"anchor\":");
        out.append(jstr(self.anchor.as_str()).as_str());
        out.append(",\"records\":");
        push_dec(&mut out, self.records as u64);
        out.append(",\"chainIntact\":");
        out.append(jbool(self.chain_intact));
        out.append(",\"anchorMatches\":");
        out.append(jbool(self.anchor_matches));
        out.append(",\"intact\":");
        out.append(jbool(self.chain_intact && self.anchor_matches));
        out.append(",\"expectedSha256\":");
        out.append(jstr(self.expected_sha256.as_str()).as_str());
        out.append(",\"actualSha256\":");
        out.append(jstr(self.actual_sha256.as_str()).as_str());
        out.append(",\"expectedTailHash\":");
        out.append(jstr(self.expected_tail.as_str()).as_str());
        out.append(",\"actualTailHash\":");
        out.append(jstr(self.actual_tail.as_str()).as_str());
        out.append(",\"signed\":");
        out.append(jbool(self.signed));
        out.append(",\"signatureValid\":");
        out.append(jbool(self.signed));
        out.append("}");
        out
    }

    /// How checking ends: the chain has to be intact and the anchor has to match.
    pub fn exit(&self) -> (r: Exit)
        ensures
            r == intact_exit(self.chain_intact && self.anchor_matches),
    {
        if self.chain_intact && self.anchor_matches {
            Exit::Success
        } else {
            Exit::Partial
        }
    }
}

/// What checking a log gave.
#[derive(Debug)]
pub struct LogReport {
    pub file: String,
    pub verification: Verification,
}

/// What checking a log gave, as JSON.
pub open spec fn log_report_json(d: LogReport) -> Seq<char> {
    "{\n  \"file\": "@ + json_string(d.file@) + ",\n  \"records\": "@
        + dec_of(d.verification.records as nat) + ",\n  \"sessions\": "@
        + dec_of(d.verification.sessions as nat) + ",\n  \"intact\": "@
        + json_bool(d.verification.broken@.len() == 0) + ",\n  \"broken\": [\n"@
        + line_items(d.verification.broken@) + "\n  ]\n}"@
}

impl LogReport {
    /// What checking a log gave, as JSON.
    pub fn to_json(&self) -> (out: String)
        ensures
            out@ == log_report_json(*self),
    {
        let mut out = "{\n  \"file\": ".to_owned();
        out.append(jstr(self.file.as_str()).as_str());
        out.append(",\n  \"records\": ");
        push_dec(&mut out, self.verification.records as u64);
        out.append(",\n  \"sessions\": ");
        push_dec(&mut out, self.verification.sessions as u64);
        out.append(",\n  \"intact\": ");
        out.append(jbool(self.verification.is_intact()));
        out.append(",\n  \"broken\": [\n");
        out.append(line_list(&self.verification.broken).as_str());
        out.append("\n  ]\n}");
        out
    }
}

// ---------------------------------------------------------------------------
// What is done with a log
// ---------------------------------------------------------------------------

/// What is asked of a log.
#[derive(Clone, Copy, Debug, PartialEq, Eq, Structural)]
pub struct AuditRequest {
    /// The log is to be rotated.
    pub rotates: bool,
    /// Rotated logs are to be checked with it.
    pub chains: bool,
    /// An anchor is to be written.
    pub writes: bool,
    /// An anchor is to be checked.
    pub verifies: bool,
    pub dry_run: bool,
}

/// What is done with a log first.
#[derive(Clone, Copy, Debug, PartialEq, Eq, Structural)]
pub enum AuditAction {
    /// The log is checked, to tell whether it could be rotated.
    RehearseRotation,
    Rotate,
    CheckChain,
    /// The log is checked before an anchor is written.
    CheckForAnchor,
    /// The log is checked before its anchor is.
    CheckWithAnchor,
    CheckLog,
}

/// Which of several requests is served: rotating comes before checking a chain,
/// that before writing an anchor, and that before checking one.
pub open spec fn action_of(q: AuditRequest) -> AuditAction {
    if q.rotates && q.dry_run {
        AuditAction::RehearseRotation
    } else if q.rotates {
        AuditAction::Rotate
    } else if q.chains {
        AuditAction::CheckChain
    } else if q.writes {
        AuditAction::CheckForAnchor
    } else if q.verifies {
        AuditAction::CheckWithAnchor
    } else {
        AuditAction::CheckLog
    }
}

/// What is asked of a log, or why it is refused. `key` holds the bytes of the
/// key where one is given.
pub fn serve_audit(q: AuditRequest, key: Option<&[u8]>) -> (r: Result<AuditAction, ExitError>)
    ensures
        match (r, key) {
            (Err(e), Some(k)) => if !q.writes && !q.verifies {
                e@ == usage_error("--anchor-key requires --write-anchor or --verify-anchor"@)
            } else {
                !(LEAST_KEY <= k@.len() <= GREATEST_KEY) && e@ == usage_error(
                    "audit anchor key must contain 32 to 65536 raw bytes"@,
                )
            },
            (Err(_), None) => false,
            (Ok(a), Some(k)) => (q.writes || q.verifies) && LEAST_KEY <= k@.len() <= GREATEST_KEY
                && a == action_of(q),
            (Ok(a), None) => a == action_of(q),
        },
{
    match check_anchor_request(key.is_some(), q.writes, q.verifies) {
        Ok(_) => {},
        Err(e) => {
            return Err(e);
        },
    }
    if let Some(k) = key {
        match check_anchor_key(k) {
            Ok(_) => {},
            Err(e) => {
                return Err(e);
            },
        }
    }
    if q.rotates {
        return if q.dry_run {
            Ok(AuditAction::RehearseRotation)
        } else {
            Ok(AuditAction::Rotate)
        };
    }
    if q.chains {
        return Ok(AuditAction::CheckChain);
    }
    if q.writes {
        return Ok(AuditAction::CheckForAnchor);
    }
    if q.verifies {
        return Ok(AuditAction::CheckWithAnchor);
    }
    Ok(AuditAction::CheckLog)
}

/// What is done with a log next.
#[derive(Clone, Copy, Debug, PartialEq, Eq, Structural)]
pub enum AuditStep {
    /// The run ends and says why it goes no further.
    Refuse(Exit),
    /// What was found out is reported, and the run ends.
    Report(Exit),
    WriteAnchor,
    CheckAnchor,
}

/// What is done with a log once it was checked or rotated. A broken log is
/// neither rotated nor anchored, and an empty one is not anchored.
pub open spec fn after_check(a: AuditAction, dry_run: bool, intact: bool, records: nat) -> AuditStep {
    match a {
        AuditAction::RehearseRotation => if intact {
            AuditStep::Report(Exit::Success)
        } else {
            AuditStep::Refuse(Exit::Partial)
        },
        AuditAction::Rotate => AuditStep::Report(Exit::Success),
        AuditAction::CheckForAnchor => if !intact || records == 0 {
            AuditStep::Refuse(Exit::Partial)
        } else if dry_run {
            AuditStep::Report(Exit::Success)
        } else {
            AuditStep::WriteAnchor
        },
        AuditAction::CheckWithAnchor => AuditStep::CheckAnchor,
        AuditAction::CheckChain => AuditStep::Report(intact_exit(intact)),
        AuditAction::CheckLog => AuditStep::Report(intact_exit(intact)),
    }
}

/// What is done with a log once it was checked or rotated.
pub fn next_audit_step(a: AuditAction, dry_run: bool, v: &Verification) -> (r: AuditStep)
    ensures
        r == after_check(a, dry_run, v.broken@.len() == 0, v.records as nat),
{
    match a {
        AuditAction::RehearseRotation => if v.may_rotate() {
            AuditStep::Report(Exit::Success)
        } else {
            AuditStep::Refuse(Exit::Partial)
        },
        AuditAction::Rotate => AuditStep::Report(Exit::Success),
        AuditAction::CheckForAnchor => if !v.may_anchor() {
            AuditStep::Refuse(Exit::Partial)
        } else if dry_run {
            AuditStep::Report(Exit::Success)
        } else {
            AuditStep::WriteAnchor
        },
        AuditAction::CheckWithAnchor => AuditStep::CheckAnchor,
        AuditAction::CheckChain => AuditStep::Report(v.exit()),
        AuditAction::CheckLog => AuditStep::Report(v.exit()),
    }
}

/// Why an anchor could not be checked.
#[derive(Debug)]
pub enum AnchorFailure {
    /// It is not authentic.
    Forged(String),
    /// It cannot be checked as was asked.
    BadInput(String),
    Other(String),
}

/// How a run ends whose anchor could not be checked: with what is said of a
/// forged one, or with an error.
pub open spec fn anchor_failed(f: AnchorFailure, anchor: Seq<char>) -> Result<
    (Exit, Seq<char>),
    ErrorView,
> {
    match f {
        AnchorFailure::Forged(e) => Ok(
            (
                Exit::Partial,
                "regx: audit anchor authentication failed for "@ + anchor + ": "@ + e@,
            ),
        ),
        AnchorFailure::BadInput(e) => Err(usage_error(e@)),
        AnchorFailure::Other(e) => Err(
            plain_error("cannot verify audit anchor "@ + anchor + ": "@ + e@),
        ),
    }
}

/// How a run ends whose anchor could not be checked.
pub fn fail_anchor(f: AnchorFailure, anchor: &str) -> (r: Result<(Exit, String), ExitError>)
    ensures
        match r {
            Ok((code, said)) => anchor_failed(f, anchor@) == Ok::<(Exit, Seq<char>), ErrorView>(
                (code, said@),
            ),
            Err(e) => anchor_failed(f, anchor@) == Err::<(Exit, Seq<char>), ErrorView>(e@),
        },
{
    match f {
        AnchorFailure::Forged(e) => {
            let mut said = concat3(
                "regx: audit anchor authentication failed for ",
                anchor,
                ": ",
            );
            said.append(e.as_str());
            Ok((Exit::Partial, said))
        },
        AnchorFailure::BadInput(e) => Err(usage(e)),
        AnchorFailure::Other(e) => {
            let mut message = concat3("cannot verify audit anchor ", anchor, ": ");
            message.append(e.as_str());
            Err(failed(message))
        },
    }
}

/// An anchor is written only of a log that was found intact and not empty, and
/// never in a rehearsal.
pub proof fn anchors_are_of_intact_logs(a: AuditAction, dry_run: bool, intact: bool, records: nat)
    ensures
        after_check(a, dry_run, intact, records) == AuditStep::WriteAnchor ==> intact && records > 0
            && !dry_run,
{
}

} // verus!
