//! Administrative policy over the tool itself.
//!
//! Policy is read from one machine-wide key and nowhere else, so the person it
//! restricts cannot lift it. A command-line flag can make it stricter, never
//! looser.
use vstd::prelude::*;

use crate::model::{
    fold_str, folded, folded_concat, hive_named, long_name_of, parse_hive, parse_path, path_named,
    path_text, short_name_of, utf16_from_bytes, utf16_strings, Hive, PathView, RegData, RegPath,
};
use crate::number::{dec_of, push_dec};
use crate::text::{
    begins, chars_of, concat, find_char, first_of, join, joined, lowered, same, starts_with,
    string_of, strip, strip_end, stripped, stripped_end, to_lower, trim, trimmed, views,
    views_push,
};

verus! {

/// What an administrator has imposed.
#[derive(Debug)]
pub struct Policy {
    /// A log path that the administrator requires, in addition to any other.
    pub audit_log: Option<String>,
    pub audit_redact: bool,
    /// `high`, `medium` or `low`; redirection may not go below this.
    pub min_confidence: Option<String>,
    /// Key path prefixes that must not be written to.
    pub deny_keys: Vec<String>,
    pub disable_hive: bool,
    pub require_confirm: bool,
    /// Whether the policy key exists at all.
    pub configured: bool,
}

/// What a `Policy` stands for.
pub struct PolicyView {
    pub audit_log: Option<Seq<char>>,
    pub audit_redact: bool,
    pub min_confidence: Option<Seq<char>>,
    pub deny_keys: Seq<Seq<char>>,
    pub disable_hive: bool,
    pub require_confirm: bool,
    pub configured: bool,
}

impl View for Policy {
    type V = PolicyView;

    open spec fn view(&self) -> PolicyView {
        PolicyView {
            audit_log: match self.audit_log {
                Some(s) => Some(s@),
                None => None,
            },
            audit_redact: self.audit_redact,
            min_confidence: match self.min_confidence {
                Some(s) => Some(s@),
                None => None,
            },
            deny_keys: views(self.deny_keys@),
            disable_hive: self.disable_hive,
            require_confirm: self.require_confirm,
            configured: self.configured,
        }
    }
}

/// The policy that constrains nothing.
pub open spec fn no_policy() -> PolicyView {
    PolicyView {
        audit_log: None,
        audit_redact: false,
        min_confidence: None,
        deny_keys: Seq::empty(),
        disable_hive: false,
        require_confirm: false,
        configured: false,
    }
}

impl Default for Policy {
    fn default() -> (r: Self)
        ensures
            r@ == no_policy(),
    {
        let r = Policy {
            audit_log: None,
            audit_redact: false,
            min_confidence: None,
            deny_keys: Vec::new(),
            disable_hive: false,
            require_confirm: false,
            configured: false,
        };
        assert(r@.deny_keys =~= Seq::<Seq<char>>::empty());
        r
    }
}

/// The values of the policy key, each as it was read; none where it is absent
/// or unreadable.
pub struct PolicyValues {
    pub audit_log: Option<RegData>,
    pub audit_redact: Option<RegData>,
    pub min_confidence: Option<RegData>,
    /// The raw bytes of the deny list.
    pub deny_keys: Option<Vec<u8>>,
    pub disable_hive: Option<RegData>,
    pub require_confirm: Option<RegData>,
}

/// The text that a setting holds: a string that is not blank, trimmed.
pub open spec fn string_setting(d: Option<RegData>) -> Option<Seq<char>> {
    match d {
        Some(RegData::Sz(s)) => if trimmed(s@).len() != 0 {
            Some(trimmed(s@))
        } else {
            None
        },
        _ => None,
    }
}

/// The flag that a setting holds: a number other than zero.
pub open spec fn flag_setting(d: Option<RegData>) -> bool {
    match d {
        Some(RegData::Dword(v)) => v != 0,
        _ => false,
    }
}

/// The texts that are not blank, trimmed.
pub open spec fn not_blank(texts: Seq<Seq<char>>) -> Seq<Seq<char>>
    decreases texts.len(),
{
    if texts.len() == 0 {
        Seq::empty()
    } else if trimmed(texts.last()).len() == 0 {
        not_blank(texts.drop_last())
    } else {
        not_blank(texts.drop_last()).push(trimmed(texts.last()))
    }
}

/// The list that a setting holds.
pub open spec fn list_setting(bytes: Option<Vec<u8>>) -> Seq<Seq<char>> {
    match bytes {
        Some(b) => match utf16_strings(b@) {
            Some(texts) => not_blank(texts),
            None => Seq::empty(),
        },
        None => Seq::empty(),
    }
}

/// The policy that the values of its key make.
pub open spec fn policy_of(values: Option<PolicyValues>) -> PolicyView {
    match values {
        None => no_policy(),
        Some(v) => PolicyView {
            audit_log: string_setting(v.audit_log),
            audit_redact: flag_setting(v.audit_redact),
            min_confidence: match string_setting(v.min_confidence) {
                Some(s) => Some(lowered(s)),
                None => None,
            },
            deny_keys: list_setting(v.deny_keys),
            disable_hive: flag_setting(v.disable_hive),
            require_confirm: flag_setting(v.require_confirm),
            configured: true,
        },
    }
}

fn read_string(d: &Option<RegData>) -> (r: Option<String>)
    ensures
        match r {
            Some(s) => string_setting(*d) == Some(s@),
            None => string_setting(*d) is None,
        },
{
    match d {
        Some(RegData::Sz(s)) => {
            let chars = chars_of(s.as_str());
            let t = trim(chars.as_slice());
            if t.len() != 0 {
                Some(string_of(t))
            } else {
                None
            }
        },
        _ => None,
    }
}

fn read_flag(d: &Option<RegData>) -> (r: bool)
    ensures
        r == flag_setting(*d),
{
    match d {
        Some(RegData::Dword(v)) => *v != 0,
        _ => false,
    }
}

fn read_list(bytes: &Option<Vec<u8>>) -> (out: Vec<String>)
    ensures
        views(out@) == list_setting(*bytes),
{
    broadcast use views_push;

    let mut out: Vec<String> = Vec::new();
    assert(views(out@) =~= Seq::<Seq<char>>::empty());
    if let Some(b) = bytes {
        let texts = utf16_from_bytes(b.as_slice());
        let ghost all = views(texts@);
        assert(all.take(0) =~= Seq::<Seq<char>>::empty());
        assert(utf16_strings(b@) is None ==> not_blank(all) =~= Seq::<Seq<char>>::empty());
        for i in 0..texts.len()
            invariant
                all == views(texts@),
                views(out@) == not_blank(all.take(i as int)),
        {
            assert(all.take(i + 1).drop_last() =~= all.take(i as int));
            assert(all.take(i + 1).last() == texts@[i as int]@);
            let chars = chars_of(texts[i].as_str());
            let t = trim(chars.as_slice());
            if t.len() != 0 {
                let text = string_of(t);
                let ghost before = out@;
                out.push(text);
                assert(views(out@) == views(before).push(text@));
            }
        }
        assert(all.take(all.len() as int) =~= all);
    }
    out
}

/// The policy sets something.
pub open spec fn constrains(p: PolicyView) -> bool {
    p.audit_log is Some || p.audit_redact || p.min_confidence is Some || p.deny_keys.len() != 0
        || p.disable_hive || p.require_confirm
}

/// A deny rule as it is compared: without trailing backslashes, and with the
/// name of its hive written in full.
pub open spec fn rule_text(rule: Seq<char>) -> Seq<char> {
    let r = stripped_end(rule, '\\');
    let i = first_of(r, '\\');
    match hive_named(r.take(i)) {
        Some(hive) => long_name_of(hive) + r.skip(i),
        None => r,
    }
}

/// `target` is `rule`, or below it by whole components.
pub open spec fn covers(rule: Seq<char>, target: Seq<char>) -> bool {
    target == rule || begins(target, rule + "\\"@)
}

/// A rule forbids writing to a key.
pub open spec fn rule_denies(rule: Seq<char>, p: PathView) -> bool {
    covers(folded(rule_text(rule)), folded(path_text(p)))
}

/// The subkey path that a rule speaks of.
pub open spec fn rule_sub(rule: Seq<char>) -> Seq<char> {
    match path_named(rule) {
        Some(p) => stripped(p.sub, '\\'),
        None => stripped(stripped(rule, '\\'), '\\'),
    }
}

/// A rule forbids writing to a subkey of a mounted hive, which has no hive of
/// its own: only the rule's subkey path counts, and an empty one matches
/// nothing.
pub open spec fn rule_denies_sub(rule: Seq<char>, sub: Seq<char>) -> bool {
    let r = folded(rule_sub(rule));
    r.len() != 0 && covers(r, folded(stripped(sub, '\\')))
}

/// The first rule that forbids writing to a key.
pub open spec fn denied_by(rules: Seq<Seq<char>>, p: PathView) -> Option<Seq<char>>
    decreases rules.len(),
{
    if rules.len() == 0 {
        None
    } else if rule_denies(rules[0], p) {
        Some(rules[0])
    } else {
        denied_by(rules.skip(1), p)
    }
}

/// The first rule that forbids writing to a subkey of a mounted hive.
pub open spec fn sub_denied_by(rules: Seq<Seq<char>>, sub: Seq<char>) -> Option<Seq<char>>
    decreases rules.len(),
{
    if rules.len() == 0 {
        None
    } else if rule_denies_sub(rules[0], sub) {
        Some(rules[0])
    } else {
        sub_denied_by(rules.skip(1), sub)
    }
}

/// The lines that describe a policy.
pub open spec fn description(p: PolicyView) -> Seq<Seq<char>> {
    if !p.configured {
        seq![
            "no administrative policy: HKLM\\SOFTWARE\\Policies\\regx does not exist"@,
        ]
    } else if !constrains(p) {
        seq!["HKLM\\SOFTWARE\\Policies\\regx exists but sets nothing"@]
    } else {
        described(p)
    }
}

/// One line where a condition holds.
pub open spec fn line_if(b: bool, line: Seq<char>) -> Seq<Seq<char>> {
    if b {
        seq![line]
    } else {
        Seq::empty()
    }
}

/// A line for every constraint in force.
pub open spec fn described(p: PolicyView) -> Seq<Seq<char>> {
    line_if(p.audit_log is Some, "audit log required at "@ + p.audit_log->0) + line_if(
        p.audit_redact,
        "audit values are redacted to digests"@,
    ) + line_if(p.min_confidence is Some, "redirection floor: "@ + p.min_confidence->0) + line_if(
        p.deny_keys.len() != 0,
        dec_of(p.deny_keys.len()) + " denied key prefix(es): "@ + joined(p.deny_keys, ", "@),
    ) + line_if(p.disable_hive, "the offline hive engine is disabled"@) + line_if(
        p.require_confirm,
        "-y is ignored; every write needs confirmation"@,
    )
}

fn push_line_if(out: &mut Vec<String>, b: bool, line: String)
    ensures
        views(final(out)@) == views(old(out)@) + line_if(b, line@),
{
    broadcast use views_push;

    let ghost before = out@;
    if b {
        out.push(line);
        assert(views(out@) =~= views(before) + seq![line@]);
    } else {
        assert(views(out@) =~= views(before) + Seq::<Seq<char>>::empty());
    }
}

/// Whether `target` is `rule` or below it.
fn is_covered(rule: &str, target: &str) -> (r: bool)
    ensures
        r == covers(rule@, target@),
{
    let t = chars_of(target);
    let whole = chars_of(rule);
    if same(t.as_slice(), whole.as_slice()) {
        return true;
    }
    let prefix = chars_of(concat(rule, "\\").as_str());
    starts_with(t.as_slice(), prefix.as_slice())
}

fn expand_rule(rule: &str) -> (r: String)
    ensures
        r@ == rule_text(rule@),
{
    let chars = chars_of(rule);
    let r = strip_end(chars.as_slice(), '\\');
    let i = find_char(r, '\\');
    match parse_hive(vstd::slice::slice_subrange(r, 0, i)) {
        Some(hive) => {
            let rest = string_of(vstd::slice::slice_subrange(r, i, r.len()));
            concat(hive.long_name(), rest.as_str())
        },
        None => string_of(r),
    }
}

fn rule_subkey(rule: &str) -> (r: String)
    ensures
        r@ == rule_sub(rule@),
{
    let chars = chars_of(rule);
    match parse_path(chars.as_slice()) {
        Some(p) => {
            let sub = chars_of(p.sub.as_str());
            string_of(strip(sub.as_slice(), '\\'))
        },
        None => string_of(strip(strip(chars.as_slice(), '\\'), '\\')),
    }
}

impl Policy {
    /// The policy that the values of the policy key make; without the key, one
    /// that constrains nothing.
    pub fn load(values: Option<PolicyValues>) -> (r: Policy)
        ensures
            r@ == policy_of(values),
    {
        match values {
            None => Policy::default(),
            Some(v) => {
                let min_confidence = match read_string(&v.min_confidence) {
                    Some(s) => {
                        let chars = chars_of(s.as_str());
                        let low = to_lower(chars.as_slice());
                        Some(string_of(low.as_slice()))
                    },
                    None => None,
                };
                Policy {
                    audit_log: read_string(&v.audit_log),
                    audit_redact: read_flag(&v.audit_redact),
                    min_confidence,
                    deny_keys: read_list(&v.deny_keys),
                    disable_hive: read_flag(&v.disable_hive),
                    require_confirm: read_flag(&v.require_confirm),
                    configured: true,
                }
            },
        }
    }

    /// Whether the policy sets anything.
    pub fn constrains_anything(&self) -> (r: bool)
        ensures
            r == constrains(self@),
    {
        self.audit_log.is_some() || self.audit_redact || self.min_confidence.is_some()
            || self.deny_keys.len() != 0 || self.disable_hive || self.require_confirm
    }

    /// The first rule that forbids writing to `path`. A rule covers its key and
    /// everything below it, by whole components and ignoring case.
    pub fn denies(&self, path: &RegPath) -> (r: Option<&str>)
        ensures
            match r {
                Some(rule) => denied_by(self@.deny_keys, path@) == Some(rule@),
                None => denied_by(self@.deny_keys, path@) is None,
            },
    {
        let target = fold_str(path.to_string().as_str());
        let ghost all = self@.deny_keys;
        assert(all.skip(0) =~= all);
        for i in 0..self.deny_keys.len()
            invariant
                all == views(self.deny_keys@),
                target@ == folded(path_text(path@)),
                denied_by(all, path@) == denied_by(all.skip(i as int), path@),
        {
            assert(all.skip(i as int)[0] == self.deny_keys@[i as int]@);
            assert(all.skip(i as int).skip(1) =~= all.skip(i + 1));
            let rule = self.deny_keys[i].as_str();
            let r = fold_str(expand_rule(rule).as_str());
            if is_covered(r.as_str(), target.as_str()) {
                return Some(rule);
            }
        }
        None
    }

    /// The first rule that forbids writing to `sub` inside a mounted hive.
    pub fn denies_hive_subkey(&self, sub: &str) -> (r: Option<&str>)
        ensures
            match r {
                Some(rule) => sub_denied_by(self@.deny_keys, sub@) == Some(rule@),
                None => sub_denied_by(self@.deny_keys, sub@) is None,
            },
    {
        let chars = chars_of(sub);
        let target = fold_str(string_of(strip(chars.as_slice(), '\\')).as_str());
        let ghost all = self@.deny_keys;
        assert(all.skip(0) =~= all);
        for i in 0..self.deny_keys.len()
            invariant
                all == views(self.deny_keys@),
                target@ == folded(stripped(sub@, '\\')),
                sub_denied_by(all, sub@) == sub_denied_by(all.skip(i as int), sub@),
        {
            assert(all.skip(i as int)[0] == self.deny_keys@[i as int]@);
            assert(all.skip(i as int).skip(1) =~= all.skip(i + 1));
            let rule = self.deny_keys[i].as_str();
            let r = fold_str(rule_subkey(rule).as_str());
            if !r.as_str().is_empty() && is_covered(r.as_str(), target.as_str()) {
                return Some(rule);
            }
        }
        None
    }

    /// Lines that describe what is in force.
    pub fn describe(&self) -> (out: Vec<String>)
        ensures
            views(out@) == description(self@),
    {
        broadcast use views_push;

        let mut out: Vec<String> = Vec::new();
        assert(views(out@) =~= Seq::<Seq<char>>::empty());
        if !self.configured {
            let line =
                "no administrative policy: HKLM\\SOFTWARE\\Policies\\regx does not exist".to_owned();
            out.push(line);
            assert(views(out@) =~= description(self@));
            return out;
        }
        if !self.constrains_anything() {
            let line = "HKLM\\SOFTWARE\\Policies\\regx exists but sets nothing".to_owned();
            out.push(line);
            assert(views(out@) =~= description(self@));
            return out;
        }
        match &self.audit_log {
            Some(p) => push_line_if(&mut out, true, concat("audit log required at ", p.as_str())),
            None => push_line_if(&mut out, false, String::new()),
        }
        push_line_if(
            &mut out,
            self.audit_redact,
            "audit values are redacted to digests".to_owned(),
        );
        match &self.min_confidence {
            Some(c) => push_line_if(&mut out, true, concat("redirection floor: ", c.as_str())),
            None => push_line_if(&mut out, false, String::new()),
        }
        let mut denied = String::new();
        push_dec(&mut denied, self.deny_keys.len() as u64);
        denied.append(" denied key prefix(es): ");
        denied.append(join(self.deny_keys.as_slice(), ", ").as_str());
        assert(denied@ =~= dec_of(self@.deny_keys.len()) + " denied key prefix(es): "@ + joined(
            self@.deny_keys,
            ", "@,
        ));
        push_line_if(&mut out, self.deny_keys.len() != 0, denied);
        push_line_if(
            &mut out,
            self.disable_hive,
            "the offline hive engine is disabled".to_owned(),
        );
        push_line_if(
            &mut out,
            self.require_confirm,
            "-y is ignored; every write needs confirmation".to_owned(),
        );
        assert(views(out@) =~= described(self@));
        out
    }
}

// ---------------------------------------------------------------------------
// Laws
// ---------------------------------------------------------------------------

/// What a text covers, it covers with everything below.
pub proof fn coverage_is_inherited(rule: Seq<char>, target: Seq<char>, more: Seq<char>)
    requires
        covers(rule, target),
    ensures
        covers(rule, target + "\\"@ + more),
{
    reveal_strlit("\\");
    let child = target + "\\"@ + more;
    let prefix = rule + "\\"@;
    if target == rule {
        assert(child.take(prefix.len() as int) =~= prefix);
    } else {
        assert(child.take(prefix.len() as int) =~= target.take(prefix.len() as int));
    }
}

/// A text covers only what equals it up to a component's end: a longer name in
/// the same place is another component.
pub proof fn coverage_stops_at_components(rule: Seq<char>, target: Seq<char>)
    requires
        covers(rule, target),
        target != rule,
    ensures
        target.len() > rule.len(),
        target[rule.len() as int] == '\\',
        target.take(rule.len() as int) == rule,
{
    reveal_strlit("\\");
    let prefix = rule + "\\"@;
    assert(target.take(prefix.len() as int)[rule.len() as int] == '\\');
    assert(target.take(rule.len() as int) =~= prefix.take(rule.len() as int));
    assert(prefix.take(rule.len() as int) =~= rule);
}

proof fn a_denying_rule_is_found(rules: Seq<Seq<char>>, p: PathView, i: int)
    requires
        0 <= i < rules.len(),
        rule_denies(rules[i], p),
    ensures
        denied_by(rules, p) is Some,
    decreases rules.len(),
{
    if !rule_denies(rules[0], p) {
        assert(rules.skip(1)[i - 1] == rules[i]);
        a_denying_rule_is_found(rules.skip(1), p, i - 1);
    }
}

proof fn the_found_rule_denies(rules: Seq<Seq<char>>, p: PathView) -> (i: int)
    requires
        denied_by(rules, p) is Some,
    ensures
        0 <= i < rules.len(),
        rule_denies(rules[i], p),
        denied_by(rules, p) == Some(rules[i]),
    decreases rules.len(),
{
    if rule_denies(rules[0], p) {
        0
    } else {
        let j = the_found_rule_denies(rules.skip(1), p);
        assert(rules.skip(1)[j] == rules[j + 1]);
        j + 1
    }
}

/// A key is denied exactly where some rule denies it.
pub proof fn denied_where_a_rule_denies(rules: Seq<Seq<char>>, p: PathView)
    ensures
        denied_by(rules, p) is Some <==> exists|i: int|
            0 <= i < rules.len() && rule_denies(#[trigger] rules[i], p),
{
    if denied_by(rules, p) is Some {
        let i = the_found_rule_denies(rules, p);
        assert(rule_denies(rules[i], p));
    }
    if exists|i: int| 0 <= i < rules.len() && rule_denies(#[trigger] rules[i], p) {
        let i = choose|i: int| 0 <= i < rules.len() && rule_denies(#[trigger] rules[i], p);
        a_denying_rule_is_found(rules, p, i);
    }
}

/// A denied key is denied with its whole subtree.
pub proof fn denial_covers_the_subtree(rules: Seq<Seq<char>>, p: PathView, more: Seq<char>)
    requires
        denied_by(rules, p) is Some,
        more.len() > 0,
    ensures
        denied_by(
            rules,
            PathView {
                hive: p.hive,
                sub: if p.sub.len() == 0 {
                    more
                } else {
                    p.sub + "\\"@ + more
                },
            },
        ) is Some,
{
    reveal_strlit("\\");
    let child = PathView {
        hive: p.hive,
        sub: if p.sub.len() == 0 {
            more
        } else {
            p.sub + "\\"@ + more
        },
    };
    let i = the_found_rule_denies(rules, p);
    let r = folded(rule_text(rules[i]));
    coverage_is_inherited(r, folded(path_text(p)), folded(more));
    assert(path_text(child) =~= path_text(p) + "\\"@ + more);
    assert(folded("\\"@) =~= "\\"@);
    folded_concat(path_text(p) + "\\"@, more);
    folded_concat(path_text(p), "\\"@);
    a_denying_rule_is_found(rules, child, i);
}

/// A denial is an exact match or a match up to a component's end, so a rule
/// never leaks onto a key whose name merely begins the same way.
pub proof fn denial_respects_components(rule: Seq<char>, p: PathView)
    requires
        rule_denies(rule, p),
    ensures
        ({
            let r = folded(rule_text(rule));
            let t = folded(path_text(p));
            t == r || (t.len() > r.len() && t.take(r.len() as int) == r && t[r.len() as int]
                == '\\')
        }),
{
    let r = folded(rule_text(rule));
    let t = folded(path_text(p));
    if t != r {
        coverage_stops_at_components(r, t);
    }
}

/// Denial ignores case: keys that fold alike are denied alike.
pub proof fn denial_ignores_case(rules: Seq<Seq<char>>, p: PathView, q: PathView)
    requires
        p.hive == q.hive,
        folded(p.sub) == folded(q.sub),
    ensures
        denied_by(rules, p) == denied_by(rules, q),
    decreases rules.len(),
{
    assert(p.sub.len() == folded(p.sub).len() && q.sub.len() == folded(q.sub).len());
    folded_concat(long_name_of(p.hive) + "\\"@, p.sub);
    folded_concat(long_name_of(q.hive) + "\\"@, q.sub);
    assert(folded(path_text(p)) == folded(path_text(q)));
    if rules.len() > 0 {
        denial_ignores_case(rules.skip(1), p, q);
    }
}

proof fn a_denying_sub_rule_is_found(rules: Seq<Seq<char>>, sub: Seq<char>, i: int)
    requires
        0 <= i < rules.len(),
        rule_denies_sub(rules[i], sub),
    ensures
        sub_denied_by(rules, sub) is Some,
    decreases rules.len(),
{
    if !rule_denies_sub(rules[0], sub) {
        assert(rules.skip(1)[i - 1] == rules[i]);
        a_denying_sub_rule_is_found(rules.skip(1), sub, i - 1);
    }
}

proof fn the_found_sub_rule_denies(rules: Seq<Seq<char>>, sub: Seq<char>) -> (i: int)
    requires
        sub_denied_by(rules, sub) is Some,
    ensures
        0 <= i < rules.len(),
        rule_denies_sub(rules[i], sub),
    decreases rules.len(),
{
    if rule_denies_sub(rules[0], sub) {
        0
    } else {
        let j = the_found_sub_rule_denies(rules.skip(1), sub);
        assert(rules.skip(1)[j] == rules[j + 1]);
        j + 1
    }
}

/// A subkey of a mounted hive is denied with its whole subtree.
pub proof fn sub_denial_covers_the_subtree(
    rules: Seq<Seq<char>>,
    sub: Seq<char>,
    more: Seq<char>,
)
    requires
        sub_denied_by(rules, sub) is Some,
        sub.len() > 0 && sub[0] != '\\' && sub.last() != '\\',
        more.len() > 0 && more.last() != '\\',
    ensures
        sub_denied_by(rules, sub + "\\"@ + more) is Some,
{
    reveal_strlit("\\");
    let child = sub + "\\"@ + more;
    let i = the_found_sub_rule_denies(rules, sub);
    let r = folded(rule_sub(rules[i]));
    assert(child[0] == sub[0] && child.last() == more.last());
    assert(stripped(sub, '\\') == sub);
    assert(stripped(child, '\\') == child);
    coverage_is_inherited(r, folded(sub), folded(more));
    assert(folded("\\"@) =~= "\\"@);
    folded_concat(sub + "\\"@, more);
    folded_concat(sub, "\\"@);
    a_denying_sub_rule_is_found(rules, child, i);
}

proof fn stripping_stops_before(a: Seq<char>, b: Seq<char>, c: char)
    requires
        a.len() > 0,
        a.last() != c,
    ensures
        stripped_end(a + b, c) == a + stripped_end(b, c),
    decreases b.len(),
{
    if b.len() == 0 {
        assert(a + b =~= a);
        assert(a + stripped_end(b, c) =~= a);
    } else {
        assert((a + b).last() == b.last());
        assert((a + b).drop_last() =~= a + b.drop_last());
        if b.last() == c {
            stripping_stops_before(a, b.drop_last(), c);
        }
    }
}

proof fn stripping_keeps_the_start(b: Seq<char>, c: char)
    ensures
        stripped_end(b, c).len() <= b.len(),
        stripped_end(b, c) == b.take(stripped_end(b, c).len() as int),
    decreases b.len(),
{
    if b.len() > 0 && b.last() == c {
        stripping_keeps_the_start(b.drop_last(), c);
        let n = stripped_end(b, c).len() as int;
        assert(b.drop_last().take(n) =~= b.take(n));
    } else {
        assert(b.take(b.len() as int) =~= b);
    }
}

proof fn rule_text_of_a_hive_rule(name: Seq<char>, hive: Hive, rest: Seq<char>)
    requires
        hive_named(name) == Some(hive),
        name.len() > 0,
        !name.contains('\\'),
        rest.len() == 0 || rest[0] == '\\',
    ensures
        rule_text(name + rest) == long_name_of(hive) + stripped_end(rest, '\\'),
{
    assert(name.last() != '\\') by {
        assert(name.contains(name.last()));
    }
    stripping_stops_before(name, rest, '\\');
    stripping_keeps_the_start(rest, '\\');
    let tail = stripped_end(rest, '\\');
    let r = name + tail;
    assert forall|j: int| 0 <= j < name.len() implies r[j] != '\\' by {
        assert(name.contains(name[j]));
    }
    crate::text::first_of_unique(r, '\\', name.len() as int);
    assert(r.take(name.len() as int) =~= name);
    assert(r.skip(name.len() as int) =~= tail);
}

/// A rule means the same whether its hive is abbreviated or written in full.
pub proof fn abbreviated_rules_mean_the_same(hive: Hive, rest: Seq<char>, p: PathView)
    requires
        rest.len() == 0 || rest[0] == '\\',
    ensures
        rule_denies(short_name_of(hive) + rest, p) == rule_denies(long_name_of(hive) + rest, p),
{
    crate::model::hive_reads_back(hive);
    crate::model::short_hive_reads_back(hive);
    rule_text_of_a_hive_rule(long_name_of(hive), hive, rest);
    rule_text_of_a_hive_rule(short_name_of(hive), hive, rest);
}

/// Without the policy key nothing is constrained, and nothing is denied.
pub proof fn no_policy_constrains_nothing(p: PathView, sub: Seq<char>)
    ensures
        !constrains(policy_of(None)),
        denied_by(policy_of(None).deny_keys, p) is None,
        sub_denied_by(policy_of(None).deny_keys, sub) is None,
{
}

} // verus!
