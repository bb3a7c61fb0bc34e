//! What the environment does to a portable binary of a standard user.
//!
//! The probes report plain facts; what they mean is decided here.
use vstd::prelude::*;
use vstd::slice::slice_subrange;

use crate::number::{dec_of, hex_of, push_dec, push_hex};
use crate::text::{
    begins, chars_of, concat, concat3, contains_text, has_text, join, joined, lowercase_of,
    opt_text, split, split_by, starts_with, string_of, to_lowercase, trim, trimmed, views,
    views_push,
};

verus! {

/// How serious a finding is.
#[derive(Debug, Clone, Copy, PartialEq, Eq, Structural)]
pub enum Verdict {
    Fine,
    Note,
    Warn,
}

/// A finding about one area.
#[derive(Debug)]
pub struct Finding {
    pub area: &'static str,
    pub verdict: Verdict,
    pub detail: String,
}

/// What a `Finding` stands for.
pub struct FindingView {
    pub area: Seq<char>,
    pub verdict: Verdict,
    pub detail: Seq<char>,
}

impl View for Finding {
    type V = FindingView;

    open spec fn view(&self) -> FindingView {
        FindingView { area: self.area@, verdict: self.verdict, detail: self.detail@ }
    }
}

/// What the probes report.
pub struct Facts {
    /// The process has 64-bit pointers.
    pub wide_process: bool,
    /// Whether the process is elevated, where its token could be queried.
    pub elevated: Option<bool>,
    /// The last part of the integrity label's identifier, where it is known.
    pub integrity: Option<u32>,
    /// Whether the 64-bit registry view could be opened.
    pub view_64: bool,
    /// Whether the 32-bit registry view could be opened.
    pub view_32: bool,
    /// The path of the executable, where it is known.
    pub executable: Option<String>,
    /// The content of the executable's zone stream, where it has one.
    pub zone_stream: Option<String>,
    /// The enforcement mode of each rule collection, where it is set.
    pub exe_mode: Option<u32>,
    pub dll_mode: Option<u32>,
    pub msi_mode: Option<u32>,
    pub script_mode: Option<u32>,
    pub appx_mode: Option<u32>,
    /// The start mode of the identity service.
    pub service_start: Option<u32>,
    /// The default level of the software restriction policy.
    pub restriction_level: Option<u32>,
    /// Whether virtualization-based security is enabled.
    pub virtualization: Option<u32>,
    /// Whether the hypervisor enforces code integrity.
    pub hypervisor: Option<u32>,
    /// The number of active code-integrity policy files.
    pub active_policies: usize,
    /// Why the user's software key is not writable, if it is not.
    pub hkcu_error: Option<String>,
}

/// The number that four bytes of the number type hold.
pub open spec fn dword_of(ty: u32, bytes: Seq<u8>) -> Option<u32> {
    if ty != 4 || bytes.len() != 4 {
        None
    } else {
        Some(
            (bytes[0] + 0x100 * bytes[1] + 0x1_0000 * bytes[2] + 0x100_0000 * bytes[3]) as u32,
        )
    }
}

/// Reads a number from a stored value.
pub fn read_dword(ty: u32, bytes: &[u8]) -> (r: Option<u32>)
    ensures
        r == dword_of(ty, bytes@),
{
    if ty != 4 || bytes.len() != 4 {
        return None;
    }
    Some(
        bytes[0] as u32 + 0x100 * bytes[1] as u32 + 0x1_0000 * bytes[2] as u32 + 0x100_0000
            * bytes[3] as u32,
    )
}

// ---------------------------------------------------------------------------
// The process
// ---------------------------------------------------------------------------

/// What the width of the process means.
pub open spec fn process_finding(wide: bool) -> FindingView {
    if wide {
        FindingView {
            area: "process"@,
            verdict: Verdict::Fine,
            detail: "64-bit process. HKLM\\SOFTWARE resolves to the 64-bit view."@,
        }
    } else {
        FindingView {
            area: "process"@,
            verdict: Verdict::Warn,
            detail: "32-bit process. A 32-bit build is silently redirected to SOFTWARE\\WOW6432Node; ship an x64/arm64 binary or always pass --view."@,
        }
    }
}

fn process_identity(wide: bool) -> (r: Finding)
    ensures
        r@ == process_finding(wide),
{
    if wide {
        Finding {
            area: "process",
            verdict: Verdict::Fine,
            detail: "64-bit process. HKLM\\SOFTWARE resolves to the 64-bit view.".to_owned(),
        }
    } else {
        Finding {
            area: "process",
            verdict: Verdict::Warn,
            detail: "32-bit process. A 32-bit build is silently redirected to SOFTWARE\\WOW6432Node; ship an x64/arm64 binary or always pass --view.".to_owned(),
        }
    }
}

/// The name of an integrity level.
pub open spec fn integrity_name(rid: Option<u32>) -> Seq<char> {
    match rid {
        None => "integrity unknown"@,
        Some(r) => if r == 0x0000 {
            "untrusted integrity"@
        } else if r == 0x1000 {
            "low integrity"@
        } else if r == 0x2000 {
            "medium integrity"@
        } else if r == 0x2100 {
            "medium-plus integrity"@
        } else if r == 0x3000 {
            "high integrity"@
        } else if r == 0x4000 {
            "system integrity"@
        } else {
            "custom integrity"@
        },
    }
}

/// The name of an integrity level.
pub fn integrity_label(rid: Option<u32>) -> (r: &'static str)
    ensures
        r@ == integrity_name(rid),
{
    match rid {
        None => "integrity unknown",
        Some(r) => if r == 0x0000 {
            "untrusted integrity"
        } else if r == 0x1000 {
            "low integrity"
        } else if r == 0x2000 {
            "medium integrity"
        } else if r == 0x2100 {
            "medium-plus integrity"
        } else if r == 0x3000 {
            "high integrity"
        } else if r == 0x4000 {
            "system integrity"
        } else {
            "custom integrity"
        },
    }
}

/// What elevation means.
pub open spec fn elevation_finding(elevated: Option<bool>, rid: Option<u32>) -> FindingView {
    match elevated {
        Some(true) => FindingView {
            area: "elevation"@,
            verdict: Verdict::Warn,
            detail: "running ELEVATED. regx is designed for the standard-user path; writes will succeed here that fail for real users, so test unelevated."@,
        },
        Some(false) => FindingView {
            area: "elevation"@,
            verdict: Verdict::Fine,
            detail: "not elevated ("@ + integrity_name(rid)
                + "), as intended - the manifest is asInvoker and never prompts."@,
        },
        None => FindingView {
            area: "elevation"@,
            verdict: Verdict::Note,
            detail: "could not query the process token"@,
        },
    }
}

fn elevation(elevated: Option<bool>, rid: Option<u32>) -> (r: Finding)
    ensures
        r@ == elevation_finding(elevated, rid),
{
    match elevated {
        Some(true) => Finding {
            area: "elevation",
            verdict: Verdict::Warn,
            detail: "running ELEVATED. regx is designed for the standard-user path; writes will succeed here that fail for real users, so test unelevated.".to_owned(),
        },
        Some(false) => Finding {
            area: "elevation",
            verdict: Verdict::Fine,
            detail: concat3(
                "not elevated (",
                integrity_label(rid),
                "), as intended - the manifest is asInvoker and never prompts.",
            ),
        },
        None => Finding {
            area: "elevation",
            verdict: Verdict::Note,
            detail: "could not query the process token".to_owned(),
        },
    }
}

/// Which registry views can be opened.
pub open spec fn wow64_finding(view_64: bool, view_32: bool) -> FindingView {
    FindingView {
        area: "wow64"@,
        verdict: Verdict::Fine,
        detail: "registry views reachable: 64-bit="@ + crate::json::json_bool(view_64)
            + ", 32-bit="@ + crate::json::json_bool(view_32),
    }
}

fn wow64(view_64: bool, view_32: bool) -> (r: Finding)
    ensures
        r@ == wow64_finding(view_64, view_32),
{
    let mut detail = concat3(
        "registry views reachable: 64-bit=",
        crate::json::jbool(view_64),
        ", 32-bit=",
    );
    detail.append(crate::json::jbool(view_32));
    Finding { area: "wow64", verdict: Verdict::Fine, detail }
}

// ---------------------------------------------------------------------------
// The executable
// ---------------------------------------------------------------------------

/// The first commonly denied location that a path lies in.
pub open spec fn risky_location(lower: Seq<char>) -> Option<Seq<char>> {
    if contains_text(lower, "\\temp\\"@) {
        Some("\\temp\\"@)
    } else if contains_text(lower, "\\downloads\\"@) {
        Some("\\downloads\\"@)
    } else if contains_text(lower, "\\appdata\\"@) {
        Some("\\appdata\\"@)
    } else if contains_text(lower, "\\users\\public\\"@) {
        Some("\\users\\public\\"@)
    } else {
        None
    }
}

/// What the location of the executable means.
pub open spec fn location_finding(executable: Option<Seq<char>>) -> FindingView {
    let exe = match executable {
        Some(e) => e,
        None => "<unknown>"@,
    };
    match risky_location(lowercase_of(exe)) {
        Some(p) => FindingView {
            area: "image path"@,
            verdict: Verdict::Warn,
            detail: exe + " sits under "@ + p
                + " - the location AppLocker's and SRP's default rules deny for standard users. Sign the binary, or run it from an allowed path."@,
        },
        None => FindingView {
            area: "image path"@,
            verdict: Verdict::Fine,
            detail: exe + " is not in a commonly denied location"@,
        },
    }
}

fn find_risky(lower: &[char]) -> (r: Option<&'static str>)
    ensures
        crate::text::opt_str(r) == risky_location(lower@),
{
    let temp = chars_of("\\temp\\");
    let downloads = chars_of("\\downloads\\");
    let appdata = chars_of("\\appdata\\");
    let public = chars_of("\\users\\public\\");
    if has_text(lower, temp.as_slice()) {
        Some("\\temp\\")
    } else if has_text(lower, downloads.as_slice()) {
        Some("\\downloads\\")
    } else if has_text(lower, appdata.as_slice()) {
        Some("\\appdata\\")
    } else if has_text(lower, public.as_slice()) {
        Some("\\users\\public\\")
    } else {
        None
    }
}

fn image_location(executable: &Option<String>) -> (r: Finding)
    ensures
        r@ == location_finding(opt_text(*executable)),
{
    let exe = match executable {
        Some(e) => e.clone(),
        None => "<unknown>".to_owned(),
    };
    let lower = chars_of(to_lowercase(exe.as_str()).as_str());
    match find_risky(lower.as_slice()) {
        Some(p) => {
            let mut detail = concat3(exe.as_str(), " sits under ", p);
            detail.append(
                " - the location AppLocker's and SRP's default rules deny for standard users. Sign the binary, or run it from an allowed path.",
            );
            Finding { area: "image path", verdict: Verdict::Warn, detail }
        },
        None => Finding {
            area: "image path",
            verdict: Verdict::Fine,
            detail: concat(exe.as_str(), " is not in a commonly denied location"),
        },
    }
}

/// The zone that a stream names in the lines from `i` on; `?` where none does.
pub open spec fn zone_from(lines: Seq<Seq<char>>, i: int) -> Seq<char>
    decreases lines.len() - i,
{
    if i >= lines.len() {
        "?"@
    } else if begins(trimmed(lines[i]), "ZoneId="@) {
        trimmed(lines[i]).skip(7)
    } else {
        zone_from(lines, i + 1)
    }
}

/// The zone that a stream names.
pub open spec fn zone_of(stream: Seq<char>) -> Seq<char> {
    zone_from(split_by(stream, '\n'), 0)
}

/// The zone that a stream names.
pub fn read_zone(stream: &str) -> (r: String)
    ensures
        r@ == zone_of(stream@),
{
    let chars = chars_of(stream);
    let lines = split(chars.as_slice(), '\n');
    let mark = chars_of("ZoneId=");
    let ghost all = split_by(stream@, '\n');
    proof {
        reveal_strlit("ZoneId=");
    }
    for i in 0..lines.len()
        invariant
            all == views(lines@),
            mark@ == "ZoneId="@,
            mark@.len() == 7,
            zone_of(stream@) == zone_from(all, i as int),
    {
        assert(all[i as int] == lines@[i as int]@);
        let t = trim(lines[i].as_slice());
        if starts_with(t, mark.as_slice()) {
            return string_of(slice_subrange(t, 7, t.len()));
        }
    }
    "?".to_owned()
}

/// What the mark of the web means.
pub open spec fn web_finding(
    executable: Option<Seq<char>>,
    stream: Option<Seq<char>>,
) -> FindingView {
    if executable is None {
        FindingView {
            area: "mark-of-the-web"@,
            verdict: Verdict::Note,
            detail: "could not resolve the executable path"@,
        }
    } else {
        match stream {
            Some(s) => {
                let zone = zone_of(s);
                FindingView {
                    area: "mark-of-the-web"@,
                    verdict: if zone == "3"@ || zone == "4"@ {
                        Verdict::Warn
                    } else {
                        Verdict::Note
                    },
                    detail: "the binary carries ZoneId="@ + zone
                        + " (3 = internet, 4 = untrusted). SmartScreen and some AppLocker rules key off this; clear it with `Unblock-File`."@,
                }
            },
            None => FindingView {
                area: "mark-of-the-web"@,
                verdict: Verdict::Fine,
                detail: "no Zone.Identifier stream on the binary"@,
            },
        }
    }
}

fn mark_of_the_web(executable: &Option<String>, stream: &Option<String>) -> (r: Finding)
    ensures
        r@ == web_finding(opt_text(*executable), opt_text(*stream)),
{
    if executable.is_none() {
        return Finding {
            area: "mark-of-the-web",
            verdict: Verdict::Note,
            detail: "could not resolve the executable path".to_owned(),
        };
    }
    match stream {
        Some(s) => {
            let zone = read_zone(s.as_str());
            let warn = crate::text::same_str(zone.as_str(), "3") || crate::text::same_str(
                zone.as_str(),
                "4",
            );
            Finding {
                area: "mark-of-the-web",
                verdict: if warn {
                    Verdict::Warn
                } else {
                    Verdict::Note
                },
                detail: concat3(
                    "the binary carries ZoneId=",
                    zone.as_str(),
                    " (3 = internet, 4 = untrusted). SmartScreen and some AppLocker rules key off this; clear it with `Unblock-File`.",
                ),
            }
        },
        None => Finding {
            area: "mark-of-the-web",
            verdict: Verdict::Fine,
            detail: "no Zone.Identifier stream on the binary".to_owned(),
        },
    }
}

// ---------------------------------------------------------------------------
// Application control
// ---------------------------------------------------------------------------

/// The name of an enforcement mode.
pub open spec fn mode_name(mode: u32) -> Seq<char> {
    if mode == 0 {
        "audit"@
    } else if mode == 1 {
        "enforce"@
    } else {
        "?"@
    }
}

/// A rule collection and its mode, where it has one.
pub open spec fn collection(name: Seq<char>, mode: Option<u32>) -> Seq<Seq<char>> {
    match mode {
        Some(m) => seq![name + "="@ + mode_name(m)],
        None => Seq::empty(),
    }
}

/// The rule collections that have a mode.
pub open spec fn collections(f: Facts) -> Seq<Seq<char>> {
    collection("Exe"@, f.exe_mode) + collection("Dll"@, f.dll_mode) + collection(
        "Msi"@,
        f.msi_mode,
    ) + collection("Script"@, f.script_mode) + collection("Appx"@, f.appx_mode)
}

/// Some collection is enforced.
pub open spec fn enforcing(f: Facts) -> bool {
    f.exe_mode == Some(1u32) || f.dll_mode == Some(1u32) || f.msi_mode == Some(1u32)
        || f.script_mode == Some(1u32) || f.appx_mode == Some(1u32)
}

/// The name of the service's start mode.
pub open spec fn service_name(start: Option<u32>) -> Seq<char> {
    if start == Some(2u32) {
        "AppIDSvc=automatic"@
    } else if start == Some(3u32) {
        "AppIDSvc=manual"@
    } else if start == Some(4u32) {
        "AppIDSvc=disabled"@
    } else {
        "AppIDSvc=unknown"@
    }
}

/// What the rule collections mean.
pub open spec fn applocker_finding(f: Facts) -> FindingView {
    let modes = collections(f);
    let service = service_name(f.service_start);
    if modes.len() == 0 {
        FindingView {
            area: "applocker"@,
            verdict: Verdict::Fine,
            detail: "no AppLocker policy configured ("@ + service + ")"@,
        }
    } else {
        FindingView {
            area: "applocker"@,
            verdict: if enforcing(f) {
                Verdict::Warn
            } else {
                Verdict::Note
            },
            detail: "AppLocker policy present: "@ + joined(modes, ", "@) + " ("@ + service
                + "). "@ + (if enforcing(f) {
                "Enforcement is on - an unsigned binary outside an allowed path will be blocked."@
            } else {
                "Audit only for now, but the policy can be flipped to enforce centrally."@
            }),
        }
    }
}

fn push_collection(out: &mut Vec<String>, name: &str, mode: Option<u32>)
    ensures
        views(final(out)@) == views(old(out)@) + collection(name@, mode),
{
    broadcast use views_push;

    let ghost before = out@;
    match mode {
        Some(m) => {
            let shown = if m == 0 {
                "audit"
            } else if m == 1 {
                "enforce"
            } else {
                "?"
            };
            let one = concat3(name, "=", shown);
            out.push(one);
            assert(views(out@) =~= views(before) + seq![one@]);
        },
        None => {
            assert(views(out@) =~= views(before) + Seq::<Seq<char>>::empty());
        },
    }
}

fn is_one(mode: Option<u32>) -> (b: bool)
    ensures
        b == (mode == Some(1u32)),
{
    match mode {
        Some(m) => m == 1,
        None => false,
    }
}

fn applocker(f: &Facts) -> (r: Finding)
    ensures
        r@ == applocker_finding(*f),
{
    let mut modes: Vec<String> = Vec::new();
    assert(views(modes@) =~= Seq::<Seq<char>>::empty());
    push_collection(&mut modes, "Exe", f.exe_mode);
    push_collection(&mut modes, "Dll", f.dll_mode);
    push_collection(&mut modes, "Msi", f.msi_mode);
    push_collection(&mut modes, "Script", f.script_mode);
    push_collection(&mut modes, "Appx", f.appx_mode);
    assert(views(modes@) =~= collections(*f));
    let service = match f.service_start {
        Some(s) => if s == 2 {
            "AppIDSvc=automatic"
        } else if s == 3 {
            "AppIDSvc=manual"
        } else if s == 4 {
            "AppIDSvc=disabled"
        } else {
            "AppIDSvc=unknown"
        },
        None => "AppIDSvc=unknown",
    };
    if modes.len() == 0 {
        return Finding {
            area: "applocker",
            verdict: Verdict::Fine,
            detail: concat3("no AppLocker policy configured (", service, ")"),
        };
    }
    let enforced = is_one(f.exe_mode) || is_one(f.dll_mode) || is_one(f.msi_mode) || is_one(
        f.script_mode,
    ) || is_one(f.appx_mode);
    let mut detail = concat3(
        "AppLocker policy present: ",
        join(modes.as_slice(), ", ").as_str(),
        " (",
    );
    detail.append(service);
    detail.append("). ");
    detail.append(
        if enforced {
            "Enforcement is on - an unsigned binary outside an allowed path will be blocked."
        } else {
            "Audit only for now, but the policy can be flipped to enforce centrally."
        },
    );
    Finding {
        area: "applocker",
        verdict: if enforced {
            Verdict::Warn
        } else {
            Verdict::Note
        },
        detail,
    }
}

/// What the default level of the software restriction policy means.
pub open spec fn srp_finding(level: Option<u32>) -> FindingView {
    match level {
        Some(l) => if l == 0 {
            FindingView {
                area: "srp"@,
                verdict: Verdict::Warn,
                detail: "Software Restriction Policies default to Disallowed (whitelist mode); only explicitly allowed paths or publishers may execute."@,
            }
        } else if l == 0x1000 {
            FindingView {
                area: "srp"@,
                verdict: Verdict::Warn,
                detail: "SRP default level is Basic User - the process runs with a stripped token."@,
            }
        } else if l == 0x40000 {
            FindingView {
                area: "srp"@,
                verdict: Verdict::Fine,
                detail: "SRP present but default level is Unrestricted"@,
            }
        } else {
            FindingView {
                area: "srp"@,
                verdict: Verdict::Note,
                detail: "SRP DefaultLevel = 0x"@ + hex_of(l as nat, 8),
            }
        },
        None => FindingView {
            area: "srp"@,
            verdict: Verdict::Fine,
            detail: "no Software Restriction Policy configured"@,
        },
    }
}

fn srp(level: Option<u32>) -> (r: Finding)
    ensures
        r@ == srp_finding(level),
{
    match level {
        Some(l) => if l == 0 {
            Finding {
                area: "srp",
                verdict: Verdict::Warn,
                detail: "Software Restriction Policies default to Disallowed (whitelist mode); only explicitly allowed paths or publishers may execute.".to_owned(),
            }
        } else if l == 0x1000 {
            Finding {
                area: "srp",
                verdict: Verdict::Warn,
                detail: "SRP default level is Basic User - the process runs with a stripped token.".to_owned(),
            }
        } else if l == 0x40000 {
            Finding {
                area: "srp",
                verdict: Verdict::Fine,
                detail: "SRP present but default level is Unrestricted".to_owned(),
            }
        } else {
            let mut detail = "SRP DefaultLevel = 0x".to_owned();
            push_hex(&mut detail, l as u64, 8);
            Finding { area: "srp", verdict: Verdict::Note, detail }
        },
        None => Finding {
            area: "srp",
            verdict: Verdict::Fine,
            detail: "no Software Restriction Policy configured".to_owned(),
        },
    }
}

/// An optional number as `Some(n)` or `None`.
pub open spec fn shown(n: Option<u32>) -> Seq<char> {
    match n {
        Some(v) => "Some("@ + dec_of(v as nat) + ")"@,
        None => "None"@,
    }
}

fn show(n: Option<u32>) -> (r: String)
    ensures
        r@ == shown(n),
{
    match n {
        Some(v) => {
            let mut out = "Some(".to_owned();
            push_dec(&mut out, v as u64);
            out.append(")");
            out
        },
        None => "None".to_owned(),
    }
}

/// What code integrity means. Only enforcement is a warning: policy files are
/// there on a stock system.
pub open spec fn wdac_finding(
    virtualization: Option<u32>,
    hypervisor: Option<u32>,
    active: nat,
) -> FindingView {
    if hypervisor == Some(1u32) {
        FindingView {
            area: "wdac"@,
            verdict: Verdict::Warn,
            detail: "hypervisor-enforced code integrity is ON (VBS="@ + shown(virtualization)
                + ", "@ + dec_of(active)
                + " active policy file(s)). If the deployed policy includes user-mode rules, file location is irrelevant - only a signature or an explicit hash rule lets an unsigned binary run."@,
        }
    } else {
        FindingView {
            area: "wdac"@,
            verdict: Verdict::Note,
            detail: dec_of(active) + " code-integrity policy file(s) deployed, HVCI off (VBS="@
                + shown(virtualization)
                + "). Windows ships driver-blocklist policies here by default; this is not by itself an application-control policy. Verify with `Get-CIPolicyInfo` if it matters."@,
        }
    }
}

fn wdac(virtualization: Option<u32>, hypervisor: Option<u32>, active: usize) -> (r: Finding)
    ensures
        r@ == wdac_finding(virtualization, hypervisor, active as nat),
{
    if is_one(hypervisor) {
        let mut detail = concat3(
            "hypervisor-enforced code integrity is ON (VBS=",
            show(virtualization).as_str(),
            ", ",
        );
        push_dec(&mut detail, active as u64);
        detail.append(
            " active policy file(s)). If the deployed policy includes user-mode rules, file location is irrelevant - only a signature or an explicit hash rule lets an unsigned binary run.",
        );
        return Finding { area: "wdac", verdict: Verdict::Warn, detail };
    }
    let mut detail = crate::number::to_dec(active as u64);
    detail.append(" code-integrity policy file(s) deployed, HVCI off (VBS=");
    detail.append(show(virtualization).as_str());
    detail.append(
        "). Windows ships driver-blocklist policies here by default; this is not by itself an application-control policy. Verify with `Get-CIPolicyInfo` if it matters.",
    );
    Finding { area: "wdac", verdict: Verdict::Note, detail }
}

/// Whether the user's software key is writable.
pub open spec fn hkcu_finding(error: Option<Seq<char>>) -> FindingView {
    match error {
        None => FindingView {
            area: "hkcu"@,
            verdict: Verdict::Fine,
            detail: "HKCU\\Software is writable - the redirection target is usable"@,
        },
        Some(e) => FindingView {
            area: "hkcu"@,
            verdict: Verdict::Warn,
            detail: "HKCU\\Software is NOT writable: "@ + e,
        },
    }
}

fn hkcu_writable(error: &Option<String>) -> (r: Finding)
    ensures
        r@ == hkcu_finding(opt_text(*error)),
{
    match error {
        None => Finding {
            area: "hkcu",
            verdict: Verdict::Fine,
            detail: "HKCU\\Software is writable - the redirection target is usable".to_owned(),
        },
        Some(e) => Finding {
            area: "hkcu",
            verdict: Verdict::Warn,
            detail: concat("HKCU\\Software is NOT writable: ", e.as_str()),
        },
    }
}

// ---------------------------------------------------------------------------
// All of it
// ---------------------------------------------------------------------------

/// All findings, one for each area, always in this order.
pub open spec fn findings_of(f: Facts) -> Seq<FindingView> {
    seq![
        process_finding(f.wide_process),
        elevation_finding(f.elevated, f.integrity),
        wow64_finding(f.view_64, f.view_32),
        location_finding(opt_text(f.executable)),
        web_finding(opt_text(f.executable), opt_text(f.zone_stream)),
        applocker_finding(f),
        srp_finding(f.restriction_level),
        wdac_finding(f.virtualization, f.hypervisor, f.active_policies as nat),
        hkcu_finding(opt_text(f.hkcu_error)),
    ]
}

/// Judges what the probes report.
pub fn run(facts: &Facts) -> (out: Vec<Finding>)
    ensures
        views(out@) == findings_of(*facts),
{
    broadcast use views_push;

    let mut out: Vec<Finding> = Vec::new();
    out.push(process_identity(facts.wide_process));
    out.push(elevation(facts.elevated, facts.integrity));
    out.push(wow64(facts.view_64, facts.view_32));
    out.push(image_location(&facts.executable));
    out.push(mark_of_the_web(&facts.executable, &facts.zone_stream));
    out.push(applocker(facts));
    out.push(srp(facts.restriction_level));
    out.push(wdac(facts.virtualization, facts.hypervisor, facts.active_policies));
    out.push(hkcu_writable(&facts.hkcu_error));
    assert(views(out@) =~= findings_of(*facts));
    out
}

/// Every area is reported once, whatever the probes say.
pub proof fn every_area_is_reported(f: Facts)
    ensures
        findings_of(f).len() == 9,
        findings_of(f).map_values(|x: FindingView| x.area) == seq![
            "process"@,
            "elevation"@,
            "wow64"@,
            "image path"@,
            "mark-of-the-web"@,
            "applocker"@,
            "srp"@,
            "wdac"@,
            "hkcu"@,
        ],
{
    assert(findings_of(f).map_values(|x: FindingView| x.area) =~= seq![
        "process"@,
        "elevation"@,
        "wow64"@,
        "image path"@,
        "mark-of-the-web"@,
        "applocker"@,
        "srp"@,
        "wdac"@,
        "hkcu"@,
    ]);
}

/// Whether any finding is a warning.
pub fn any_warning(findings: &Vec<Finding>) -> (b: bool)
    ensures
        b == exists|i: int|
            0 <= i < findings@.len() && (#[trigger] findings@[i]).verdict == Verdict::Warn,
{
    for i in 0..findings.len()
        invariant
            forall|j: int| 0 <= j < i ==> (#[trigger] findings@[j]).verdict != Verdict::Warn,
    {
        if findings[i].verdict == Verdict::Warn {
            return true;
        }
    }
    false
}

} // verus!
