//! Where a machine-wide key would live per user, and how far to trust that.
//!
//! Writing a key under `HKEY_CURRENT_USER` always succeeds and may change
//! nothing, so every mapping carries a confidence and a reason.
use vstd::prelude::*;
use vstd::slice::slice_subrange;

use crate::model::{Hive, PathView, RegPath};
use crate::text::{
    begins, chars_of, concat, contains_text, has_text, lower_char, lowered, same_ignoring_case,
    starts_with, string_of, strip_start, stripped_start, text_at, to_upper, upper_char, uppered,
};

verus! {

/// How likely a mapping is to take effect.
#[derive(Clone, Copy, PartialEq, Eq, PartialOrd, Ord, Debug, Structural)]
pub enum Confidence {
    /// Cannot be mapped at all; applying it would be meaningless or harmful.
    Refuse,
    /// Valid, but very unlikely to take effect.
    Low,
    /// Works if the consuming application looks there.
    Medium,
    /// Documented per-user equivalent.
    High,
}

/// The name of a confidence.
pub open spec fn label_of(c: Confidence) -> Seq<char> {
    match c {
        Confidence::Refuse => "refuse"@,
        Confidence::Low => "low"@,
        Confidence::Medium => "medium"@,
        Confidence::High => "high"@,
    }
}

/// The place of a confidence in their order, the lowest first.
pub open spec fn rank_of(c: Confidence) -> int {
    match c {
        Confidence::Refuse => 0,
        Confidence::Low => 1,
        Confidence::Medium => 2,
        Confidence::High => 3,
    }
}

impl Confidence {
    /// The name.
    pub fn label(self) -> (r: &'static str)
        ensures
            r@ == label_of(self),
    {
        match self {
            Confidence::Refuse => "refuse",
            Confidence::Low => "low",
            Confidence::Medium => "medium",
            Confidence::High => "high",
        }
    }

    /// The place in the order.
    pub fn rank(self) -> (r: u8)
        ensures
            r == rank_of(self),
    {
        match self {
            Confidence::Refuse => 0,
            Confidence::Low => 1,
            Confidence::Medium => 2,
            Confidence::High => 3,
        }
    }
}

/// Where a key goes.
#[derive(Debug)]
pub struct Mapping {
    /// The destination; none where the key stays or is refused.
    pub to: Option<RegPath>,
    pub confidence: Confidence,
    pub reason: &'static str,
}

/// What a `Mapping` stands for.
pub struct MappingView {
    pub to: Option<PathView>,
    pub confidence: Confidence,
    pub reason: Seq<char>,
}

impl View for Mapping {
    type V = MappingView;

    open spec fn view(&self) -> MappingView {
        MappingView {
            to: match self.to {
                Some(p) => Some(p@),
                None => None,
            },
            confidence: self.confidence,
            reason: self.reason@,
        }
    }
}

/// What is to be redirected.
#[derive(Clone, Copy, PartialEq, Eq, Debug, Structural)]
pub enum Policy {
    /// Leave every path untouched.
    Off,
    /// Map everything that can be mapped.
    Auto,
    /// Only class registrations.
    ClassesOnly,
}

// ---------------------------------------------------------------------------
// Path components
// ---------------------------------------------------------------------------

/// What follows `prefix` in `sub`, by whole components and ignoring ASCII case,
/// without a leading backslash.
pub open spec fn without_prefix(sub: Seq<char>, prefix: Seq<char>) -> Option<Seq<char>> {
    let n = prefix.len() as int;
    if sub.len() < n || lowered(sub.take(n)) != lowered(prefix) {
        None
    } else if sub.len() == n {
        Some(Seq::empty())
    } else if sub[n] == '\\' {
        Some(stripped_start(sub.skip(n + 1), '\\'))
    } else {
        None
    }
}

/// `base` and `rest` with a backslash between them, or `base` alone.
pub open spec fn below(base: Seq<char>, rest: Seq<char>) -> Seq<char> {
    if rest.len() == 0 {
        base
    } else {
        base + "\\"@ + rest
    }
}

/// `sub` without the component that marks the 32-bit view.
pub open spec fn native_sub(sub: Seq<char>) -> Seq<char> {
    match without_prefix(sub, "SOFTWARE\\WOW6432Node"@) {
        Some(rest) => below("SOFTWARE"@, rest),
        None => sub,
    }
}

fn strip_prefix(sub: &[char], prefix: &str) -> (r: Option<Vec<char>>)
    ensures
        match r {
            Some(rest) => without_prefix(sub@, prefix@) == Some(rest@),
            None => without_prefix(sub@, prefix@) is None,
        },
{
    let p = chars_of(prefix);
    let n = p.len();
    if sub.len() < n {
        return None;
    }
    if !same_ignoring_case(slice_subrange(sub, 0, n), p.as_slice()) {
        return None;
    }
    if sub.len() == n {
        let none: Vec<char> = Vec::new();
        assert(none@ =~= Seq::<char>::empty());
        Some(none)
    } else if sub[n] == '\\' {
        Some(vstd::slice::slice_to_vec(strip_start(slice_subrange(sub, n + 1, sub.len()), '\\')))
    } else {
        None
    }
}

/// Strips a prefix of whole components, ignoring ASCII case.
pub fn strip_ci(sub: &str, prefix: &str) -> (r: Option<String>)
    ensures
        match r {
            Some(rest) => without_prefix(sub@, prefix@) == Some(rest@),
            None => without_prefix(sub@, prefix@) is None,
        },
{
    let s = chars_of(sub);
    match strip_prefix(s.as_slice(), prefix) {
        Some(rest) => Some(string_of(rest.as_slice())),
        None => None,
    }
}

fn join(base: &str, rest: &[char]) -> (r: String)
    ensures
        r@ == below(base@, rest@),
{
    if rest.len() == 0 {
        base.to_owned()
    } else {
        let mut out = concat(base, "\\");
        out.append(string_of(rest).as_str());
        out
    }
}

/// A 32-bit caller sees `SOFTWARE\WOW6432Node\X` as `SOFTWARE\X`; this is the
/// path without the component that says so.
pub fn strip_wow6432(sub: &str) -> (r: String)
    ensures
        r@ == native_sub(sub@),
{
    let s = chars_of(sub);
    match strip_prefix(s.as_slice(), "SOFTWARE\\WOW6432Node") {
        Some(rest) => join("SOFTWARE", rest.as_slice()),
        None => sub.to_owned(),
    }
}

// ---------------------------------------------------------------------------
// Mapping
// ---------------------------------------------------------------------------

/// A key that stays where it is.
pub open spec fn kept(reason: Seq<char>) -> MappingView {
    MappingView { to: None, confidence: Confidence::High, reason }
}

/// A key that is refused.
pub open spec fn refused(reason: Seq<char>) -> MappingView {
    MappingView { to: None, confidence: Confidence::Refuse, reason }
}

/// A key that goes below `HKEY_CURRENT_USER`.
pub open spec fn per_user(sub: Seq<char>, confidence: Confidence, reason: Seq<char>) -> MappingView {
    MappingView { to: Some(PathView { hive: Hive::Hkcu, sub }), confidence, reason }
}

/// A class registration, refused where it is protected by a per-user hash.
pub open spec fn class_mapping(m: MappingView, sub: Seq<char>) -> MappingView {
    if contains_text(uppered(sub), "\\USERCHOICE"@) {
        refused(
            "UserChoice is protected by a per-SID hash; file associations cannot be set via .reg"@,
        )
    } else {
        m
    }
}

/// The subtree belongs to the machine alone.
pub open spec fn machine_only(upper: Seq<char>) -> bool {
    begins(upper, "SYSTEM"@) || begins(upper, "HARDWARE"@) || begins(upper, "SAM"@) || begins(
        upper,
        "SECURITY"@,
    ) || begins(upper, "BCD"@)
}

/// `sub` is `prefix` or below it.
pub open spec fn within(sub: Seq<char>, prefix: Seq<char>) -> bool {
    without_prefix(sub, prefix) is Some
}

/// Where a key of `HKEY_LOCAL_MACHINE` goes, its subkey path being the native
/// one.
pub open spec fn machine_mapping(sub: Seq<char>, policy: Policy) -> MappingView {
    if machine_only(uppered(sub)) {
        refused("machine-only hive (services, drivers, SAM); no per-user equivalent exists"@)
    } else if within(sub, "SOFTWARE\\Classes"@) {
        let rest = without_prefix(sub, "SOFTWARE\\Classes"@)->0;
        class_mapping(
            per_user(
                below("SOFTWARE\\Classes"@, rest),
                Confidence::High,
                "class registration resolves per-user first"@,
            ),
            rest,
        )
    } else if policy == Policy::ClassesOnly {
        refused("--redirect classes-only: nothing outside Software\\Classes is mapped"@)
    } else if within(sub, "SOFTWARE\\Policies"@) {
        per_user(
            below("SOFTWARE\\Policies"@, without_prefix(sub, "SOFTWARE\\Policies"@)->0),
            Confidence::Low,
            "machine-scoped policies are read from HKLM by SYSTEM services, and Group Policy refresh wipes the HKCU\\Software\\Policies subtree"@,
        )
    } else if within(sub, "SOFTWARE\\Microsoft\\Windows\\CurrentVersion\\Policies"@) {
        per_user(
            sub,
            Confidence::Low,
            "the HKCU copy exists but is commonly locked down by Group Policy ACLs"@,
        )
    } else if within(sub, "SOFTWARE\\Microsoft\\Active Setup\\Installed Components"@) {
        refused(
            "Active Setup HKLM entries register components, while HKCU entries record per-user completion; they are not interchangeable"@,
        )
    } else if within(
        sub,
        "SOFTWARE\\Microsoft\\Windows\\CurrentVersion\\Explorer\\User Shell Folders"@,
    ) || within(sub, "SOFTWARE\\Microsoft\\Windows\\CurrentVersion\\Explorer\\Shell Folders"@) {
        refused(
            "User Shell Folders must be set in the existing HKCU profile (prefer the Windows Known Folder API); machine and user value sets are not interchangeable"@,
        )
    } else if within(sub, "SOFTWARE\\Microsoft\\Windows NT\\CurrentVersion\\Winlogon"@) {
        refused(
            "Winlogon Shell/Userinit are machine logon settings; redirecting them can break sign-in and has no safe per-user equivalent"@,
        )
    } else if within(sub, "SOFTWARE\\Microsoft\\Windows\\CurrentVersion\\Run"@) || within(
        sub,
        "SOFTWARE\\Microsoft\\Windows\\CurrentVersion\\RunOnce"@,
    ) || within(sub, "SOFTWARE\\Microsoft\\Windows NT\\CurrentVersion\\Windows"@) {
        per_user(
            sub,
            Confidence::High,
            "Windows reads the per-user copy of this key in addition to the machine copy"@,
        )
    } else if begins(uppered(sub), "SOFTWARE"@) {
        per_user(
            sub,
            Confidence::Medium,
            "per-user equivalent is valid only if the application falls back to HKCU"@,
        )
    } else {
        refused("unrecognised HKLM subtree; refusing to guess a per-user location"@)
    }
}

/// Where a key goes.
pub open spec fn mapping_of(p: PathView, policy: Policy) -> MappingView {
    match p.hive {
        Hive::Hkcu => kept("already under HKEY_CURRENT_USER"@),
        Hive::Hkcc => if policy == Policy::Off {
            kept("redirection disabled"@)
        } else {
            refused(
                "HKCC is a live view of the hardware profile; it has no per-user equivalent"@,
            )
        },
        Hive::Hku => MappingView {
            to: None,
            confidence: Confidence::Low,
            reason: "HKEY_USERS targets a specific SID; resolve it explicitly instead of redirecting"@,
        },
        Hive::Hkcr => if policy == Policy::Off {
            kept("redirection disabled"@)
        } else {
            class_mapping(
                per_user(
                    below("SOFTWARE\\Classes"@, p.sub),
                    Confidence::High,
                    "HKCR is a merged view; the per-user branch takes precedence"@,
                ),
                p.sub,
            )
        },
        Hive::Hklm => if policy == Policy::Off {
            kept("redirection disabled"@)
        } else {
            machine_mapping(native_sub(p.sub), policy)
        },
    }
}

fn keep(reason: &'static str) -> (r: Mapping)
    ensures
        r@ == kept(reason@),
{
    Mapping { to: None, confidence: Confidence::High, reason }
}

fn refuse(reason: &'static str) -> (r: Mapping)
    ensures
        r@ == refused(reason@),
{
    Mapping { to: None, confidence: Confidence::Refuse, reason }
}

fn to_hkcu(sub: String, confidence: Confidence, reason: &'static str) -> (r: Mapping)
    ensures
        r@ == per_user(sub@, confidence, reason@),
{
    Mapping { to: Some(RegPath { hive: Hive::Hkcu, sub }), confidence, reason }
}

/// Refuses what is protected by a per-user hash: the shell rejects it from a
/// file and silently resets the association.
fn maybe_userchoice(m: Mapping, sub: &[char]) -> (r: Mapping)
    ensures
        r@ == class_mapping(m@, sub@),
{
    let upper = to_upper(sub);
    let mark = chars_of("\\USERCHOICE");
    if has_text(upper.as_slice(), mark.as_slice()) {
        refuse(
            "UserChoice is protected by a per-SID hash; file associations cannot be set via .reg",
        )
    } else {
        m
    }
}

fn is_within(sub: &[char], prefix: &str) -> (r: bool)
    ensures
        r == within(sub@, prefix@),
{
    strip_prefix(sub, prefix).is_some()
}

fn begins_with(s: &[char], p: &str) -> (r: bool)
    ensures
        r == begins(s@, p@),
{
    let x = chars_of(p);
    starts_with(s, x.as_slice())
}

fn map_machine(sub: &[char], policy: Policy) -> (r: Mapping)
    ensures
        r@ == machine_mapping(sub@, policy),
{
    let upper_chars = to_upper(sub);
    let upper = upper_chars.as_slice();
    if begins_with(upper, "SYSTEM") || begins_with(upper, "HARDWARE") || begins_with(upper, "SAM")
        || begins_with(upper, "SECURITY") || begins_with(upper, "BCD") {
        return refuse(
            "machine-only hive (services, drivers, SAM); no per-user equivalent exists",
        );
    }
    if let Some(rest) = strip_prefix(sub, "SOFTWARE\\Classes") {
        let m = to_hkcu(
            join("SOFTWARE\\Classes", rest.as_slice()),
            Confidence::High,
            "class registration resolves per-user first",
        );
        return maybe_userchoice(m, rest.as_slice());
    }
    if policy == Policy::ClassesOnly {
        return refuse("--redirect classes-only: nothing outside Software\\Classes is mapped");
    }
    if let Some(rest) = strip_prefix(sub, "SOFTWARE\\Policies") {
        return to_hkcu(
            join("SOFTWARE\\Policies", rest.as_slice()),
            Confidence::Low,
            "machine-scoped policies are read from HKLM by SYSTEM services, and Group Policy refresh wipes the HKCU\\Software\\Policies subtree",
        );
    }
    if is_within(sub, "SOFTWARE\\Microsoft\\Windows\\CurrentVersion\\Policies") {
        return to_hkcu(
            string_of(sub),
            Confidence::Low,
            "the HKCU copy exists but is commonly locked down by Group Policy ACLs",
        );
    }
    if is_within(sub, "SOFTWARE\\Microsoft\\Active Setup\\Installed Components") {
        return refuse(
            "Active Setup HKLM entries register components, while HKCU entries record per-user completion; they are not interchangeable",
        );
    }
    if is_within(
        sub,
        "SOFTWARE\\Microsoft\\Windows\\CurrentVersion\\Explorer\\User Shell Folders",
    ) || is_within(
        sub,
        "SOFTWARE\\Microsoft\\Windows\\CurrentVersion\\Explorer\\Shell Folders",
    ) {
        return refuse(
            "User Shell Folders must be set in the existing HKCU profile (prefer the Windows Known Folder API); machine and user value sets are not interchangeable",
        );
    }
    if is_within(sub, "SOFTWARE\\Microsoft\\Windows NT\\CurrentVersion\\Winlogon") {
        return refuse(
            "Winlogon Shell/Userinit are machine logon settings; redirecting them can break sign-in and has no safe per-user equivalent",
        );
    }
    if is_within(sub, "SOFTWARE\\Microsoft\\Windows\\CurrentVersion\\Run") || is_within(
        sub,
        "SOFTWARE\\Microsoft\\Windows\\CurrentVersion\\RunOnce",
    ) || is_within(sub, "SOFTWARE\\Microsoft\\Windows NT\\CurrentVersion\\Windows") {
        return to_hkcu(
            string_of(sub),
            Confidence::High,
            "Windows reads the per-user copy of this key in addition to the machine copy",
        );
    }
    if begins_with(upper, "SOFTWARE") {
        return to_hkcu(
            string_of(sub),
            Confidence::Medium,
            "per-user equivalent is valid only if the application falls back to HKCU",
        );
    }
    refuse("unrecognised HKLM subtree; refusing to guess a per-user location")
}

/// Where a key would live per user.
pub fn map(path: &RegPath, policy: Policy) -> (r: Mapping)
    ensures
        r@ == mapping_of(path@, policy),
{
    match path.hive {
        Hive::Hkcu => {
            return keep("already under HKEY_CURRENT_USER");
        },
        Hive::Hku => {
            return Mapping {
                to: None,
                confidence: Confidence::Low,
                reason: "HKEY_USERS targets a specific SID; resolve it explicitly instead of redirecting",
            };
        },
        _ => {},
    }
    if policy == Policy::Off {
        return keep("redirection disabled");
    }
    if path.hive == Hive::Hkcc {
        return refuse(
            "HKCC is a live view of the hardware profile; it has no per-user equivalent",
        );
    }
    if path.hive == Hive::Hkcr {
        let sub = chars_of(path.sub.as_str());
        let m = to_hkcu(
            join("SOFTWARE\\Classes", sub.as_slice()),
            Confidence::High,
            "HKCR is a merged view; the per-user branch takes precedence",
        );
        return maybe_userchoice(m, sub.as_slice());
    }
    let native = strip_wow6432(path.sub.as_str());
    let sub = chars_of(native.as_str());
    map_machine(sub.as_slice(), policy)
}

// ---------------------------------------------------------------------------
// Laws
// ---------------------------------------------------------------------------

/// A redirected key always lands below `HKEY_CURRENT_USER`, and only a key of
/// the machine or of the merged class view is redirected.
pub proof fn destinations_are_per_user(p: PathView, policy: Policy)
    ensures
        mapping_of(p, policy).to matches Some(to) ==> to.hive == Hive::Hkcu && (p.hive
            == Hive::Hklm || p.hive == Hive::Hkcr) && policy != Policy::Off,
{
}

/// A refusal never has a destination.
pub proof fn refusals_have_no_destination(p: PathView, policy: Policy)
    ensures
        mapping_of(p, policy).confidence == Confidence::Refuse ==> mapping_of(p, policy).to
            is None,
{
}

/// With redirection off every key is left as it is.
pub proof fn off_leaves_every_path(p: PathView)
    ensures
        mapping_of(p, Policy::Off).to is None,
        mapping_of(p, Policy::Off).confidence != Confidence::Refuse,
{
}

/// A key that is per-user already stays, whatever the policy.
pub proof fn per_user_keys_stay(p: PathView, policy: Policy)
    requires
        p.hive == Hive::Hkcu,
    ensures
        mapping_of(p, policy).to is None,
        mapping_of(p, policy).confidence == Confidence::High,
{
}

/// A mapped key is mapped once: its destination stays where it is.
pub proof fn redirection_is_idempotent(p: PathView, policy: Policy, again: Policy)
    ensures
        mapping_of(p, policy).to matches Some(to) ==> mapping_of(to, again).to is None,
{
}

proof fn prefix_of_below(base: Seq<char>, rest: Seq<char>)
    requires
        rest.len() == 0 || rest[0] != '\\',
    ensures
        without_prefix(below(base, rest), base) == Some(rest),
{
    reveal_strlit("\\");
    let s = below(base, rest);
    assert(s.take(base.len() as int) =~= base);
    if rest.len() > 0 {
        assert(s.skip(base.len() as int + 1) =~= rest);
    } else {
        assert(rest =~= Seq::<char>::empty());
    }
}

/// With classes only, every destination is a class registration.
pub proof fn classes_only_maps_classes(p: PathView)
    ensures
        mapping_of(p, Policy::ClassesOnly).to matches Some(to) ==> begins(
            to.sub,
            "SOFTWARE\\Classes"@,
        ),
{
    let base = "SOFTWARE\\Classes"@;
    if let Some(to) = mapping_of(p, Policy::ClassesOnly).to {
        assert(to.sub.take(base.len() as int) =~= base);
    }
}

/// Which registry view produced a path makes no difference: a path below the
/// 32-bit alias is mapped as the same path without it.
pub proof fn views_are_mapped_alike(rest: Seq<char>, policy: Policy)
    requires
        rest.len() == 0 || rest[0] != '\\',
        !within(below("SOFTWARE"@, rest), "SOFTWARE\\WOW6432Node"@),
    ensures
        mapping_of(
            PathView { hive: Hive::Hklm, sub: below("SOFTWARE\\WOW6432Node"@, rest) },
            policy,
        ) == mapping_of(PathView { hive: Hive::Hklm, sub: below("SOFTWARE"@, rest) }, policy),
{
    prefix_of_below("SOFTWARE\\WOW6432Node"@, rest);
}

/// A key of the merged class view that is redirected keeps its subkey path, below
/// the per-user classes.
pub proof fn class_keys_keep_their_path(p: PathView, policy: Policy)
    requires
        p.hive == Hive::Hkcr,
    ensures
        mapping_of(p, policy).to matches Some(to) ==> {
            &&& to.hive == Hive::Hkcu
            &&& p.sub.len() == 0 ==> to.sub == "SOFTWARE\\Classes"@
            &&& p.sub.len() > 0 ==> to.sub == "SOFTWARE\\Classes\\"@ + p.sub
        },
{
    reveal_strlit("SOFTWARE\\Classes");
    reveal_strlit("SOFTWARE\\Classes\\");
    reveal_strlit("\\");
    assert("SOFTWARE\\Classes\\"@ =~= "SOFTWARE\\Classes"@ + "\\"@);
}

/// Different keys of the merged class view never land on one key.
pub proof fn class_keys_stay_apart(p: PathView, q: PathView, policy: Policy)
    requires
        p.hive == Hive::Hkcr,
        q.hive == Hive::Hkcr,
        mapping_of(p, policy).to is Some,
        mapping_of(p, policy).to == mapping_of(q, policy).to,
    ensures
        p.sub == q.sub,
{
    class_keys_keep_their_path(p, policy);
    class_keys_keep_their_path(q, policy);
    reveal_strlit("SOFTWARE\\Classes");
    reveal_strlit("SOFTWARE\\Classes\\");
    let head = "SOFTWARE\\Classes\\"@;
    if p.sub.len() > 0 && q.sub.len() > 0 {
        assert((head + p.sub).skip(head.len() as int) =~= p.sub);
        assert((head + q.sub).skip(head.len() as int) =~= q.sub);
    } else if p.sub.len() > 0 {
        assert((head + p.sub).len() > "SOFTWARE\\Classes"@.len());
    } else if q.sub.len() > 0 {
        assert((head + q.sub).len() > "SOFTWARE\\Classes"@.len());
    } else {
        assert(p.sub =~= q.sub);
    }
}

/// The text stands somewhere in a subkey path, in any ASCII case.
pub open spec fn spelled_in(sub: Seq<char>, text: Seq<char>) -> bool {
    exists|i: int|
        0 <= i && i + text.len() <= sub.len() && uppered(#[trigger] sub.subrange(i, i + text.len()))
            == text
}

proof fn spelled_is_contained(sub: Seq<char>, text: Seq<char>)
    ensures
        contains_text(uppered(sub), text) == spelled_in(sub, text),
{
    let n = text.len() as int;
    if contains_text(uppered(sub), text) {
        let i = choose|i: int| text_at(uppered(sub), text, i);
        assert(uppered(sub.subrange(i, i + n)) =~= uppered(sub).subrange(i, i + n));
        assert(uppered(sub.subrange(i, i + n)) == text);
    }
    if spelled_in(sub, text) {
        let i = choose|i: int|
            0 <= i && i + text.len() <= sub.len() && uppered(
                #[trigger] sub.subrange(i, i + text.len()),
            ) == text;
        assert(uppered(sub.subrange(i, i + n)) =~= uppered(sub).subrange(i, i + n));
        assert(text_at(uppered(sub), text, i));
    }
}

/// Of the merged class view everything is redirected with certainty, but for
/// the user's own choice of programs, which is refused.
pub proof fn only_user_choices_are_refused(p: PathView, policy: Policy)
    requires
        p.hive == Hive::Hkcr,
        policy != Policy::Off,
    ensures
        spelled_in(p.sub, "\\USERCHOICE"@) ==> mapping_of(p, policy).confidence
            == Confidence::Refuse && mapping_of(p, policy).to is None,
        !spelled_in(p.sub, "\\USERCHOICE"@) ==> mapping_of(p, policy).confidence
            == Confidence::High && mapping_of(p, policy).to is Some,
{
    spelled_is_contained(p.sub, "\\USERCHOICE"@);
}

/// A subkey path in which no name is empty.
pub open spec fn full_names(sub: Seq<char>) -> bool {
    &&& sub.len() > 0 ==> sub.last() != '\\'
    &&& forall|i: int| 0 <= i < sub.len() - 1 && #[trigger] sub[i] == '\\' ==> sub[i + 1] != '\\'
}

/// The subkey path lies at or below `prefix`, in any ASCII case.
pub open spec fn at_or_below(sub: Seq<char>, prefix: Seq<char>) -> bool {
    &&& sub.len() >= prefix.len()
    &&& lowered(sub.take(prefix.len() as int)) == lowered(prefix)
    &&& sub.len() > prefix.len() ==> sub[prefix.len() as int] == '\\'
}

proof fn within_is_at_or_below(sub: Seq<char>, prefix: Seq<char>)
    ensures
        within(sub, prefix) == at_or_below(sub, prefix),
{
}

proof fn full_names_are_kept(sub: Seq<char>, prefix: Seq<char>)
    requires
        full_names(sub),
        within(sub, prefix),
    ensures
        lowered(below(prefix, without_prefix(sub, prefix)->0)) == lowered(sub),
        sub.len() > prefix.len() ==> without_prefix(sub, prefix)->0 == sub.skip(
            prefix.len() as int + 1,
        ) && sub.len() > prefix.len() + 1,
{
    reveal_strlit("\\");
    let n = prefix.len() as int;
    let rest = without_prefix(sub, prefix)->0;
    let b = below(prefix, rest);
    if sub.len() > n {
        assert(sub[n] == '\\');
        assert(sub.len() > n + 1) by {
            if sub.len() == n + 1 {
                assert(sub.last() == sub[n]);
            }
        }
        assert(sub[n + 1] != '\\');
        assert(sub.skip(n + 1)[0] == sub[n + 1]);
        assert(rest =~= sub.skip(n + 1));
    }
    assert forall|i: int| 0 <= i < b.len() implies lowered(b)[i] == lowered(sub)[i] by {
        if i < n {
            assert(lowered(prefix)[i] == lowered(sub.take(n))[i]);
            assert(b[i] == prefix[i]);
        } else if i == n {
            assert(b[i] == '\\');
        } else {
            assert(b[i] == rest[i - n - 1]);
        }
    }
    assert(lowered(b) =~= lowered(sub));
}

/// The subkey path of a machine key as a program of the machine's own width
/// would name it: without the name that marks the 32-bit view.
pub open spec fn own_view(sub: Seq<char>) -> Seq<char> {
    let mark = "SOFTWARE\\WOW6432Node"@;
    if at_or_below(sub, mark) {
        "SOFTWARE"@ + sub.skip(mark.len() as int)
    } else {
        sub
    }
}

/// A machine key that is redirected keeps its subkey path, up to the case of its
/// first names; only the name that marks the 32-bit view is left out.
pub proof fn machine_keys_keep_their_path(p: PathView, policy: Policy)
    requires
        p.hive == Hive::Hklm,
        full_names(p.sub),
    ensures
        mapping_of(p, policy).to matches Some(to) ==> to.hive == Hive::Hkcu && lowered(to.sub)
            == lowered(own_view(p.sub)),
{
    reveal_strlit("SOFTWARE\\WOW6432Node");
    reveal_strlit("SOFTWARE");
    reveal_strlit("\\");
    let mark = "SOFTWARE\\WOW6432Node"@;
    let sub = native_sub(p.sub);
    within_is_at_or_below(p.sub, mark);
    if within(p.sub, mark) {
        full_names_are_kept(p.sub, mark);
        let rest = without_prefix(p.sub, mark)->0;
        if p.sub.len() > mark.len() {
            assert(p.sub.skip(mark.len() as int) =~= "\\"@ + rest);
            assert(sub =~= "SOFTWARE"@ + p.sub.skip(mark.len() as int));
        } else {
            assert(p.sub.skip(mark.len() as int) =~= Seq::<char>::empty());
            assert(sub =~= "SOFTWARE"@ + p.sub.skip(mark.len() as int));
        }
        assert(full_names(sub)) by {
            assert forall|i: int| 0 <= i < sub.len() - 1 && #[trigger] sub[i] == '\\' implies sub[i
                + 1] != '\\' by {
                assert(i >= 8);
                assert(sub[i] == p.sub[i + 12]);
                assert(sub[i + 1] == p.sub[i + 13]);
            }
            if p.sub.len() > mark.len() {
                assert(sub.last() == p.sub.last());
            } else {
                assert(sub =~= "SOFTWARE"@);
            }
        }
    }
    assert(sub == own_view(p.sub));
    if within(sub, "SOFTWARE\\Classes"@) {
        full_names_are_kept(sub, "SOFTWARE\\Classes"@);
    }
    if within(sub, "SOFTWARE\\Policies"@) {
        full_names_are_kept(sub, "SOFTWARE\\Policies"@);
    }
}

/// A class registration of the machine goes where the same key of the merged
/// class view goes.
pub proof fn classes_meet_in_one_place(rest: Seq<char>, policy: Policy)
    requires
        full_names(rest),
        rest.len() > 0 ==> rest[0] != '\\',
    ensures
        ({
            let machine = if rest.len() == 0 {
                "SOFTWARE\\Classes"@
            } else {
                "SOFTWARE\\Classes\\"@ + rest
            };
            mapping_of(PathView { hive: Hive::Hklm, sub: machine }, policy).to == mapping_of(
                PathView { hive: Hive::Hkcr, sub: rest },
                policy,
            ).to
        }),
{
    reveal_strlit("SOFTWARE\\Classes");
    reveal_strlit("SOFTWARE\\Classes\\");
    reveal_strlit("SOFTWARE\\WOW6432Node");
    reveal_strlit("\\");
    reveal_strlit("SYSTEM");
    reveal_strlit("HARDWARE");
    reveal_strlit("SAM");
    reveal_strlit("SECURITY");
    reveal_strlit("BCD");
    let base = "SOFTWARE\\Classes"@;
    let machine = if rest.len() == 0 {
        base
    } else {
        "SOFTWARE\\Classes\\"@ + rest
    };
    assert(machine =~= below(base, rest));
    prefix_of_below(base, rest);
    let mark = "SOFTWARE\\WOW6432Node"@;
    assert(without_prefix(machine, mark) is None) by {
        if machine.len() >= 20 {
            assert(lowered(machine.take(20))[9] == lower_char('C'));
            assert(lowered(mark)[9] == lower_char('W'));
        }
    }
    let upper = uppered(machine);
    assert(upper[0] == 'S' && upper[1] == 'O');
    assert(!machine_only(upper)) by {
        if begins(upper, "SYSTEM"@) {
            assert(upper.take(6)[1] == "SYSTEM"@[1]);
        }
        if begins(upper, "SAM"@) {
            assert(upper.take(3)[1] == "SAM"@[1]);
        }
        if begins(upper, "SECURITY"@) {
            assert(upper.take(8)[1] == "SECURITY"@[1]);
        }
        if begins(upper, "HARDWARE"@) {
            assert(upper.take(8)[0] == "HARDWARE"@[0]);
        }
        if begins(upper, "BCD"@) {
            assert(upper.take(3)[0] == "BCD"@[0]);
        }
    }
}

/// Under every policy but `Off`, a key of the machine or of the merged class view
/// is either redirected or refused.
pub proof fn machine_keys_never_stay(p: PathView, policy: Policy)
    requires
        p.hive == Hive::Hklm || p.hive == Hive::Hkcr,
        policy != Policy::Off,
    ensures
        mapping_of(p, policy).to is Some <==> mapping_of(p, policy).confidence
            != Confidence::Refuse,
{
}

/// The subkey path begins with a name that the machine keeps to itself.
pub open spec fn of_the_machine(sub: Seq<char>) -> bool {
    ||| sub.len() >= 6 && lowered(sub.take(6)) == "system"@
    ||| sub.len() >= 8 && lowered(sub.take(8)) == "hardware"@
    ||| sub.len() >= 3 && lowered(sub.take(3)) == "sam"@
    ||| sub.len() >= 8 && lowered(sub.take(8)) == "security"@
    ||| sub.len() >= 3 && lowered(sub.take(3)) == "bcd"@
}

proof fn cases_agree(sub: Seq<char>, upper: Seq<char>, lower: Seq<char>)
    requires
        upper.len() == lower.len(),
        forall|i: int|
            0 <= i < upper.len() ==> lower_char(#[trigger] upper[i]) == lower[i] && upper_char(
                lower[i],
            ) == upper[i] && 'a' <= lower[i] && lower[i] <= 'z',
    ensures
        begins(uppered(sub), upper) == (sub.len() >= lower.len() && lowered(
            sub.take(lower.len() as int),
        ) == lower),
{
    let n = lower.len() as int;
    if sub.len() >= n {
        if begins(uppered(sub), upper) {
            assert forall|i: int| 0 <= i < n implies lower_char(sub[i]) == lower[i] by {
                assert(uppered(sub).take(n)[i] == upper[i]);
                assert(upper_char(sub[i]) == upper[i]);
                letters_agree(sub[i], upper[i], lower[i]);
            }
            assert(lowered(sub.take(n)) =~= lower);
        }
        if lowered(sub.take(n)) == lower {
            assert forall|i: int| 0 <= i < n implies upper_char(sub[i]) == upper[i] by {
                assert(lowered(sub.take(n))[i] == lower[i]);
                letters_agree(sub[i], upper[i], lower[i]);
            }
            assert(uppered(sub).take(n) =~= upper);
        }
    }
}

proof fn letters_agree(c: char, upper: char, lower: char)
    requires
        'a' <= lower && lower <= 'z',
        upper_char(lower) == upper,
        lower_char(upper) == lower,
    ensures
        upper_char(c) == upper <==> lower_char(c) == lower,
{
    vstd::utf8::char_u32_cast(c, c as u32);
    vstd::utf8::char_u32_cast(lower, lower as u32);
    vstd::utf8::char_u32_cast(upper, upper as u32);
}

/// What belongs to the machine alone, its services, drivers and accounts, is
/// refused.
pub proof fn machine_hives_are_refused(p: PathView, policy: Policy)
    requires
        p.hive == Hive::Hklm,
        policy != Policy::Off,
        of_the_machine(p.sub),
    ensures
        mapping_of(p, policy).confidence == Confidence::Refuse,
        mapping_of(p, policy).to is None,
{
    reveal_strlit("SOFTWARE\\WOW6432Node");
    reveal_strlit("SYSTEM");
    reveal_strlit("HARDWARE");
    reveal_strlit("SAM");
    reveal_strlit("SECURITY");
    reveal_strlit("BCD");
    reveal_strlit("system");
    reveal_strlit("hardware");
    reveal_strlit("sam");
    reveal_strlit("security");
    reveal_strlit("bcd");
    cases_agree(p.sub, "SYSTEM"@, "system"@);
    cases_agree(p.sub, "HARDWARE"@, "hardware"@);
    cases_agree(p.sub, "SAM"@, "sam"@);
    cases_agree(p.sub, "SECURITY"@, "security"@);
    cases_agree(p.sub, "BCD"@, "bcd"@);
    let mark = "SOFTWARE\\WOW6432Node"@;
    assert(without_prefix(p.sub, mark) is None) by {
        if p.sub.len() >= 20 && lowered(p.sub.take(20)) == lowered(mark) {
            assert(lowered(mark)[0] == 's' && lowered(mark)[1] == 'o');
            assert(lowered(p.sub.take(20))[0] == lower_char(p.sub[0]));
            assert(lowered(p.sub.take(20))[1] == lower_char(p.sub[1]));
            if lowered(p.sub.take(6)) == "system"@ {
                assert(lowered(p.sub.take(6))[1] == lower_char(p.sub[1]));
            }
            if lowered(p.sub.take(8)) == "hardware"@ {
                assert(lowered(p.sub.take(8))[0] == lower_char(p.sub[0]));
            }
            if lowered(p.sub.take(3)) == "sam"@ {
                assert(lowered(p.sub.take(3))[1] == lower_char(p.sub[1]));
            }
            if lowered(p.sub.take(8)) == "security"@ {
                assert(lowered(p.sub.take(8))[1] == lower_char(p.sub[1]));
            }
            if lowered(p.sub.take(3)) == "bcd"@ {
                assert(lowered(p.sub.take(3))[0] == lower_char(p.sub[0]));
            }
        }
    }
}

proof fn places_part(sub: Seq<char>, a: Seq<char>, b: Seq<char>, i: int)
    requires
        at_or_below(sub, a),
        0 <= i < a.len(),
        i < b.len(),
        lowered(a)[i] != lowered(b)[i],
    ensures
        !within(sub, b),
{
    within_is_at_or_below(sub, b);
    if at_or_below(sub, b) {
        assert(lowered(sub.take(a.len() as int))[i] == lower_char(sub[i]));
        assert(lowered(sub.take(b.len() as int))[i] == lower_char(sub[i]));
    }
}

proof fn software_is_no_machine_hive(sub: Seq<char>)
    requires
        sub.len() >= 8,
        lowered(sub.take(8)) == "software"@,
    ensures
        !machine_only(uppered(sub)),
        begins(uppered(sub), "SOFTWARE"@),
{
    reveal_strlit("SYSTEM");
    reveal_strlit("HARDWARE");
    reveal_strlit("SAM");
    reveal_strlit("SECURITY");
    reveal_strlit("BCD");
    reveal_strlit("SOFTWARE");
    reveal_strlit("system");
    reveal_strlit("hardware");
    reveal_strlit("sam");
    reveal_strlit("security");
    reveal_strlit("bcd");
    reveal_strlit("software");
    cases_agree(sub, "SYSTEM"@, "system"@);
    cases_agree(sub, "HARDWARE"@, "hardware"@);
    cases_agree(sub, "SAM"@, "sam"@);
    cases_agree(sub, "SECURITY"@, "security"@);
    cases_agree(sub, "BCD"@, "bcd"@);
    cases_agree(sub, "SOFTWARE"@, "software"@);
    assert(lowered(sub.take(8))[0] == lower_char(sub[0]));
    assert(lowered(sub.take(8))[1] == lower_char(sub[1]));
    assert(lowered(sub.take(6))[1] == lower_char(sub[1]));
    assert(lowered(sub.take(3))[0] == lower_char(sub[0]));
    assert(lowered(sub.take(3))[1] == lower_char(sub[1]));
}

/// The marks of the places that are told apart: the first characters in which
/// they differ.
proof fn place_marks()
    ensures
        "SOFTWARE"@.len() == 8,
        "SOFTWARE\\WOW6432Node"@.len() == 20,
        "SOFTWARE\\Classes"@.len() == 16,
        "SOFTWARE\\Policies"@.len() == 17,
        lowered("SOFTWARE\\WOW6432Node"@)[9] == 'w',
        lowered("SOFTWARE\\Classes"@)[9] == 'c',
        lowered("SOFTWARE\\Policies"@)[9] == 'p',
        lowered("SOFTWARE\\WOW6432Node"@.take(8)) == "software"@,
        lowered("SOFTWARE\\Classes"@.take(8)) == "software"@,
        lowered("SOFTWARE\\Policies"@.take(8)) == "software"@,
{
    reveal_strlit("SOFTWARE");
    reveal_strlit("software");
    reveal_strlit("SOFTWARE\\WOW6432Node");
    reveal_strlit("SOFTWARE\\Classes");
    reveal_strlit("SOFTWARE\\Policies");
    assert(lowered("SOFTWARE\\WOW6432Node"@.take(8)) =~= "software"@);
    assert(lowered("SOFTWARE\\Classes"@.take(8)) =~= "software"@);
    assert(lowered("SOFTWARE\\Policies"@.take(8)) =~= "software"@);
}

proof fn software_below(sub: Seq<char>, place: Seq<char>)
    requires
        at_or_below(sub, place),
        place.len() >= 8,
        lowered(place.take(8)) == "software"@,
    ensures
        lowered(sub.take(8)) == "software"@,
        sub.len() >= 8,
{
    assert forall|i: int| 0 <= i < 8 implies lowered(sub.take(8))[i] == "software"@[i] by {
        assert(lowered(sub.take(place.len() as int))[i] == lowered(place)[i]);
        assert(lowered(place.take(8))[i] == "software"@[i]);
    }
    reveal_strlit("software");
    assert(lowered(sub.take(8)) =~= "software"@);
}

/// Policies of the machine are mapped with low confidence, and a class
/// registration with high confidence unless it is a user's choice.
pub proof fn classes_are_surer_than_policies(p: PathView)
    requires
        p.hive == Hive::Hklm,
    ensures
        at_or_below(p.sub, "SOFTWARE\\Policies"@) ==> mapping_of(p, Policy::Auto).confidence
            == Confidence::Low && mapping_of(p, Policy::Auto).to is Some,
        at_or_below(p.sub, "SOFTWARE\\Classes"@) ==> mapping_of(p, Policy::Auto) == mapping_of(
            p,
            Policy::ClassesOnly,
        ) && mapping_of(p, Policy::Auto).confidence == (if mapping_of(p, Policy::Auto).to is Some {
            Confidence::High
        } else {
            Confidence::Refuse
        }),
{
    place_marks();
    let sub = p.sub;
    let wow = "SOFTWARE\\WOW6432Node"@;
    let classes = "SOFTWARE\\Classes"@;
    let policies = "SOFTWARE\\Policies"@;
    within_is_at_or_below(sub, wow);
    within_is_at_or_below(sub, classes);
    within_is_at_or_below(sub, policies);
    if at_or_below(sub, policies) {
        software_below(sub, policies);
        software_is_no_machine_hive(sub);
        places_part(sub, policies, wow, 9);
        places_part(sub, policies, classes, 9);
    }
    if at_or_below(sub, classes) {
        software_below(sub, classes);
        software_is_no_machine_hive(sub);
        places_part(sub, classes, wow, 9);
    }
}

proof fn microsoft_marks()
    ensures
        lowered("SOFTWARE\\Microsoft"@)[9] == 'm',
        "SOFTWARE\\Microsoft"@.len() == 18,
        lowered("SOFTWARE\\Microsoft"@.take(8)) == "software"@,
{
    reveal_strlit("software");
    reveal_strlit("SOFTWARE\\Microsoft");
    assert(lowered("SOFTWARE\\Microsoft"@.take(8)) =~= "software"@);
}

proof fn microsoft_is_no_other_place(sub: Seq<char>, place: Seq<char>)
    requires
        at_or_below(sub, place),
        place.len() >= 18,
        place.take(18) == "SOFTWARE\\Microsoft"@,
    ensures
        !machine_only(uppered(sub)),
        begins(uppered(sub), "SOFTWARE"@),
        !within(sub, "SOFTWARE\\WOW6432Node"@),
        !within(sub, "SOFTWARE\\Classes"@),
        !within(sub, "SOFTWARE\\Policies"@),
        native_sub(sub) == sub,
{
    place_marks();
    microsoft_marks();
    assert(place.take(8) =~= place.take(18).take(8));
    software_below(sub, place);
    software_is_no_machine_hive(sub);
    assert(place[9] == place.take(18)[9]);
    assert(lowered(place)[9] == lowered(place.take(18))[9]);
    places_part(sub, place, "SOFTWARE\\WOW6432Node"@, 9);
    places_part(sub, place, "SOFTWARE\\Classes"@, 9);
    places_part(sub, place, "SOFTWARE\\Policies"@, 9);
}

/// What Windows runs at a sign-in is mapped with high confidence, to the same
/// key of the user.
pub proof fn what_is_run_is_mapped(p: PathView)
    requires
        p.hive == Hive::Hklm,
        at_or_below(p.sub, "SOFTWARE\\Microsoft\\Windows\\CurrentVersion\\Run"@) || at_or_below(
            p.sub,
            "SOFTWARE\\Microsoft\\Windows\\CurrentVersion\\RunOnce"@,
        ),
    ensures
        mapping_of(p, Policy::Auto).confidence == Confidence::High,
        mapping_of(p, Policy::Auto).to == Some(PathView { hive: Hive::Hkcu, sub: p.sub }),
{
    let run = "SOFTWARE\\Microsoft\\Windows\\CurrentVersion\\Run"@;
    let once = "SOFTWARE\\Microsoft\\Windows\\CurrentVersion\\RunOnce"@;
    let setup = "SOFTWARE\\Microsoft\\Active Setup\\Installed Components"@;
    let policies = "SOFTWARE\\Microsoft\\Windows\\CurrentVersion\\Policies"@;
    let folders =
        "SOFTWARE\\Microsoft\\Windows\\CurrentVersion\\Explorer\\User Shell Folders"@;
    let shell = "SOFTWARE\\Microsoft\\Windows\\CurrentVersion\\Explorer\\Shell Folders"@;
    let logon = "SOFTWARE\\Microsoft\\Windows NT\\CurrentVersion\\Winlogon"@;
    reveal_strlit("SOFTWARE\\Microsoft");
    reveal_strlit("SOFTWARE\\Microsoft\\Windows\\CurrentVersion\\Run");
    reveal_strlit("SOFTWARE\\Microsoft\\Windows\\CurrentVersion\\RunOnce");
    reveal_strlit("SOFTWARE\\Microsoft\\Active Setup\\Installed Components");
    reveal_strlit("SOFTWARE\\Microsoft\\Windows\\CurrentVersion\\Policies");
    reveal_strlit(
        "SOFTWARE\\Microsoft\\Windows\\CurrentVersion\\Explorer\\User Shell Folders",
    );
    reveal_strlit("SOFTWARE\\Microsoft\\Windows\\CurrentVersion\\Explorer\\Shell Folders");
    reveal_strlit("SOFTWARE\\Microsoft\\Windows NT\\CurrentVersion\\Winlogon");
    let place = if at_or_below(p.sub, run) {
        run
    } else {
        once
    };
    assert(place.take(18) =~= "SOFTWARE\\Microsoft"@);
    microsoft_is_no_other_place(p.sub, place);
    assert(lowered(place)[19] == 'w' && lowered(setup)[19] == 'a');
    assert(lowered(place)[26] == '\\' && lowered(logon)[26] == ' ');
    assert(lowered(place)[42] == 'r' && lowered(policies)[42] == 'p' && lowered(folders)[42] == 'e'
        && lowered(shell)[42] == 'e');
    places_part(p.sub, place, setup, 19);
    places_part(p.sub, place, logon, 26);
    places_part(p.sub, place, policies, 42);
    places_part(p.sub, place, folders, 42);
    places_part(p.sub, place, shell, 42);
    within_is_at_or_below(p.sub, run);
    within_is_at_or_below(p.sub, once);
}

/// Where the machine's key means another thing than the user's key of the same
/// name, nothing is mapped: components, shell folders and signing in.
pub proof fn other_meanings_are_refused(p: PathView)
    requires
        p.hive == Hive::Hklm,
        at_or_below(p.sub, "SOFTWARE\\Microsoft\\Active Setup\\Installed Components"@)
            || at_or_below(
            p.sub,
            "SOFTWARE\\Microsoft\\Windows\\CurrentVersion\\Explorer\\User Shell Folders"@,
        ) || at_or_below(
            p.sub,
            "SOFTWARE\\Microsoft\\Windows\\CurrentVersion\\Explorer\\Shell Folders"@,
        ) || at_or_below(p.sub, "SOFTWARE\\Microsoft\\Windows NT\\CurrentVersion\\Winlogon"@),
    ensures
        mapping_of(p, Policy::Auto).confidence == Confidence::Refuse,
        mapping_of(p, Policy::Auto).to is None,
{
    let setup = "SOFTWARE\\Microsoft\\Active Setup\\Installed Components"@;
    let policies = "SOFTWARE\\Microsoft\\Windows\\CurrentVersion\\Policies"@;
    let folders =
        "SOFTWARE\\Microsoft\\Windows\\CurrentVersion\\Explorer\\User Shell Folders"@;
    let shell = "SOFTWARE\\Microsoft\\Windows\\CurrentVersion\\Explorer\\Shell Folders"@;
    let logon = "SOFTWARE\\Microsoft\\Windows NT\\CurrentVersion\\Winlogon"@;
    reveal_strlit("SOFTWARE\\Microsoft");
    reveal_strlit("SOFTWARE\\Microsoft\\Active Setup\\Installed Components");
    reveal_strlit("SOFTWARE\\Microsoft\\Windows\\CurrentVersion\\Policies");
    reveal_strlit(
        "SOFTWARE\\Microsoft\\Windows\\CurrentVersion\\Explorer\\User Shell Folders",
    );
    reveal_strlit("SOFTWARE\\Microsoft\\Windows\\CurrentVersion\\Explorer\\Shell Folders");
    reveal_strlit("SOFTWARE\\Microsoft\\Windows NT\\CurrentVersion\\Winlogon");
    let place = if at_or_below(p.sub, setup) {
        setup
    } else if at_or_below(p.sub, folders) {
        folders
    } else if at_or_below(p.sub, shell) {
        shell
    } else {
        logon
    };
    assert(place.take(18) =~= "SOFTWARE\\Microsoft"@);
    microsoft_is_no_other_place(p.sub, place);
    within_is_at_or_below(p.sub, setup);
    within_is_at_or_below(p.sub, folders);
    within_is_at_or_below(p.sub, shell);
    within_is_at_or_below(p.sub, logon);
    assert(lowered(policies)[19] == 'w' && lowered(setup)[19] == 'a');
    assert(lowered(policies)[26] == '\\' && lowered(logon)[26] == ' ');
    assert(lowered(policies)[42] == 'p' && lowered(folders)[42] == 'e' && lowered(shell)[42] == 'e');
    if place == setup {
        places_part(p.sub, place, policies, 19);
    } else if place == logon {
        places_part(p.sub, place, policies, 26);
    } else {
        places_part(p.sub, place, policies, 42);
    }
}

/// A key of an application is mapped with medium confidence, to the same key of
/// the user; a key outside of the machine's software is never mapped.
pub proof fn applications_are_mapped_with_care(p: PathView, policy: Policy)
    requires
        p.hive == Hive::Hklm,
        policy != Policy::Off,
    ensures
        p.sub.len() >= 8 && lowered(p.sub.take(8)) == "software"@ && !at_or_below(
            p.sub,
            "SOFTWARE\\WOW6432Node"@,
        ) && !at_or_below(p.sub, "SOFTWARE\\Classes"@) && !at_or_below(
            p.sub,
            "SOFTWARE\\Policies"@,
        ) && !at_or_below(p.sub, "SOFTWARE\\Microsoft"@) ==> (if policy == Policy::Auto {
            mapping_of(p, policy).confidence == Confidence::Medium && mapping_of(p, policy).to
                == Some(PathView { hive: Hive::Hkcu, sub: p.sub })
        } else {
            mapping_of(p, policy).confidence == Confidence::Refuse && mapping_of(p, policy).to
                is None
        }),
        p.sub.len() < 8 || lowered(p.sub.take(8)) != "software"@ ==> mapping_of(
            p,
            policy,
        ).confidence == Confidence::Refuse && mapping_of(p, policy).to is None,
{
    place_marks();
    within_is_at_or_below(p.sub, "SOFTWARE\\WOW6432Node"@);
    within_is_at_or_below(p.sub, "SOFTWARE\\Classes"@);
    within_is_at_or_below(p.sub, "SOFTWARE\\Policies"@);
    if p.sub.len() >= 8 && lowered(p.sub.take(8)) == "software"@ {
        software_is_no_machine_hive(p.sub);
        if !at_or_below(p.sub, "SOFTWARE\\Microsoft"@) {
            nothing_of_microsoft(p.sub);
        }
    } else {
        reveal_strlit("software");
        reveal_strlit("SOFTWARE");
        cases_agree(p.sub, "SOFTWARE"@, "software"@);
        nothing_of_software(p.sub);
    }
}

proof fn not_at_a_place(sub: Seq<char>, root: Seq<char>, place: Seq<char>)
    requires
        !at_or_below(sub, root),
        root.len() < place.len(),
        place.take(root.len() as int) == root,
        place[root.len() as int] == '\\',
    ensures
        !within(sub, place),
{
    within_is_at_or_below(sub, place);
    if at_or_below(sub, place) {
        let n = root.len() as int;
        assert forall|i: int| 0 <= i < n implies lowered(sub.take(n))[i] == lowered(root)[i] by {
            assert(lowered(sub.take(place.len() as int))[i] == lowered(place)[i]);
            assert(place[i] == place.take(n)[i]);
        }
        assert(lowered(sub.take(n)) =~= lowered(root));
        assert(lowered(sub.take(place.len() as int))[n] == lowered(place)[n]);
        backslash_has_no_case(sub[n]);
    }
}

proof fn backslash_has_no_case(c: char)
    requires
        lower_char(c) == lower_char('\\'),
    ensures
        c == '\\',
{
    letter_or_itself(c);
}

proof fn letter_or_itself(c: char)
    ensures
        lower_char(c) == c || ('a' <= lower_char(c) && lower_char(c) <= 'z'),
{
    vstd::utf8::char_u32_cast(c, c as u32);
}

proof fn nothing_of_microsoft(sub: Seq<char>)
    requires
        !at_or_below(sub, "SOFTWARE\\Microsoft"@),
    ensures
        !within(sub, "SOFTWARE\\Microsoft\\Windows\\CurrentVersion\\Policies"@),
        !within(sub, "SOFTWARE\\Microsoft\\Active Setup\\Installed Components"@),
        !within(
            sub,
            "SOFTWARE\\Microsoft\\Windows\\CurrentVersion\\Explorer\\User Shell Folders"@,
        ),
        !within(sub, "SOFTWARE\\Microsoft\\Windows\\CurrentVersion\\Explorer\\Shell Folders"@),
        !within(sub, "SOFTWARE\\Microsoft\\Windows NT\\CurrentVersion\\Winlogon"@),
        !within(sub, "SOFTWARE\\Microsoft\\Windows\\CurrentVersion\\Run"@),
        !within(sub, "SOFTWARE\\Microsoft\\Windows\\CurrentVersion\\RunOnce"@),
        !within(sub, "SOFTWARE\\Microsoft\\Windows NT\\CurrentVersion\\Windows"@),
{
    let root = "SOFTWARE\\Microsoft"@;
    let a = "SOFTWARE\\Microsoft\\Windows\\CurrentVersion\\Policies"@;
    let b = "SOFTWARE\\Microsoft\\Active Setup\\Installed Components"@;
    let c = "SOFTWARE\\Microsoft\\Windows\\CurrentVersion\\Explorer\\User Shell Folders"@;
    let d = "SOFTWARE\\Microsoft\\Windows\\CurrentVersion\\Explorer\\Shell Folders"@;
    let e = "SOFTWARE\\Microsoft\\Windows NT\\CurrentVersion\\Winlogon"@;
    let f = "SOFTWARE\\Microsoft\\Windows\\CurrentVersion\\Run"@;
    let g = "SOFTWARE\\Microsoft\\Windows\\CurrentVersion\\RunOnce"@;
    let h = "SOFTWARE\\Microsoft\\Windows NT\\CurrentVersion\\Windows"@;
    reveal_strlit("SOFTWARE\\Microsoft");
    reveal_strlit("SOFTWARE\\Microsoft\\Windows\\CurrentVersion\\Policies");
    reveal_strlit("SOFTWARE\\Microsoft\\Active Setup\\Installed Components");
    reveal_strlit(
        "SOFTWARE\\Microsoft\\Windows\\CurrentVersion\\Explorer\\User Shell Folders",
    );
    reveal_strlit("SOFTWARE\\Microsoft\\Windows\\CurrentVersion\\Explorer\\Shell Folders");
    reveal_strlit("SOFTWARE\\Microsoft\\Windows NT\\CurrentVersion\\Winlogon");
    reveal_strlit("SOFTWARE\\Microsoft\\Windows\\CurrentVersion\\Run");
    reveal_strlit("SOFTWARE\\Microsoft\\Windows\\CurrentVersion\\RunOnce");
    reveal_strlit("SOFTWARE\\Microsoft\\Windows NT\\CurrentVersion\\Windows");
    assert(a.take(18) =~= root);
    assert(b.take(18) =~= root);
    assert(c.take(18) =~= root);
    assert(d.take(18) =~= root);
    assert(e.take(18) =~= root);
    assert(f.take(18) =~= root);
    assert(g.take(18) =~= root);
    assert(h.take(18) =~= root);
    not_at_a_place(sub, root, a);
    not_at_a_place(sub, root, b);
    not_at_a_place(sub, root, c);
    not_at_a_place(sub, root, d);
    not_at_a_place(sub, root, e);
    not_at_a_place(sub, root, f);
    not_at_a_place(sub, root, g);
    not_at_a_place(sub, root, h);
}

proof fn nothing_of_software(sub: Seq<char>)
    requires
        sub.len() < 8 || lowered(sub.take(8)) != "software"@,
    ensures
        !at_or_below(sub, "SOFTWARE"@),
        !within(sub, "SOFTWARE\\WOW6432Node"@),
        !within(sub, "SOFTWARE\\Classes"@),
        !within(sub, "SOFTWARE\\Policies"@),
        !at_or_below(sub, "SOFTWARE\\Microsoft"@),
        !within(sub, "SOFTWARE\\Microsoft\\Windows\\CurrentVersion\\Policies"@),
        !within(sub, "SOFTWARE\\Microsoft\\Active Setup\\Installed Components"@),
        !within(
            sub,
            "SOFTWARE\\Microsoft\\Windows\\CurrentVersion\\Explorer\\User Shell Folders"@,
        ),
        !within(sub, "SOFTWARE\\Microsoft\\Windows\\CurrentVersion\\Explorer\\Shell Folders"@),
        !within(sub, "SOFTWARE\\Microsoft\\Windows NT\\CurrentVersion\\Winlogon"@),
        !within(sub, "SOFTWARE\\Microsoft\\Windows\\CurrentVersion\\Run"@),
        !within(sub, "SOFTWARE\\Microsoft\\Windows\\CurrentVersion\\RunOnce"@),
        !within(sub, "SOFTWARE\\Microsoft\\Windows NT\\CurrentVersion\\Windows"@),
{
    let root = "SOFTWARE"@;
    reveal_strlit("SOFTWARE");
    reveal_strlit("software");
    reveal_strlit("SOFTWARE\\WOW6432Node");
    reveal_strlit("SOFTWARE\\Classes");
    reveal_strlit("SOFTWARE\\Policies");
    reveal_strlit("SOFTWARE\\Microsoft");
    assert(lowered(root) =~= "software"@);
    assert("SOFTWARE\\WOW6432Node"@.take(8) =~= root);
    assert("SOFTWARE\\Classes"@.take(8) =~= root);
    assert("SOFTWARE\\Policies"@.take(8) =~= root);
    assert("SOFTWARE\\Microsoft"@.take(8) =~= root);
    not_at_a_place(sub, root, "SOFTWARE\\WOW6432Node"@);
    not_at_a_place(sub, root, "SOFTWARE\\Classes"@);
    not_at_a_place(sub, root, "SOFTWARE\\Policies"@);
    not_at_a_place(sub, root, "SOFTWARE\\Microsoft"@);
    within_is_at_or_below(sub, "SOFTWARE\\Microsoft"@);
    nothing_of_microsoft(sub);
}

} // verus!
