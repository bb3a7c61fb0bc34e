//! In-memory model of a `.reg` file.
//!
//! Data that has no lossless typed form is kept as raw bytes with its type id;
//! reading it as text is an accessor, never the stored form.
use vstd::prelude::*;
use vstd::slice::slice_subrange;

use crate::encoding::SourceEncoding;
use crate::number::{dec_of, hex_of, push_dec, push_hex};
use crate::text::{
    chars_of, concat, contains_char, find_char, first_of, first_of_unique, is_text, is_white, join,
    joined, string_of, strip, stripped, stripped_end, stripped_start, to_upper, to_uppercase, trim,
    trimmed, upper_char, uppercase_of, uppered, views, views_push,
};
use crate::utf16::{
    bytes_give_back_the_units, bytes_le, decode, decoded, decoding_gives_back_the_text,
    read_units_le, units_le, units_of,
};

verus! {

// ---------------------------------------------------------------------------
// Hives and paths
// ---------------------------------------------------------------------------

/// A predefined root key.
#[derive(Clone, Copy, PartialEq, Eq, Debug, Structural)]
pub enum Hive {
    Hklm,
    Hkcu,
    Hkcr,
    Hku,
    Hkcc,
}

/// The full name of a hive.
pub open spec fn long_name_of(hive: Hive) -> Seq<char> {
    match hive {
        Hive::Hklm => "HKEY_LOCAL_MACHINE"@,
        Hive::Hkcu => "HKEY_CURRENT_USER"@,
        Hive::Hkcr => "HKEY_CLASSES_ROOT"@,
        Hive::Hku => "HKEY_USERS"@,
        Hive::Hkcc => "HKEY_CURRENT_CONFIG"@,
    }
}

/// The abbreviation of a hive.
pub open spec fn short_name_of(hive: Hive) -> Seq<char> {
    match hive {
        Hive::Hklm => "HKLM"@,
        Hive::Hkcu => "HKCU"@,
        Hive::Hkcr => "HKCR"@,
        Hive::Hku => "HKU"@,
        Hive::Hkcc => "HKCC"@,
    }
}

/// `s` names `hive`, in full or by its abbreviation, in any ASCII case.
pub open spec fn names_hive(s: Seq<char>, hive: Hive) -> bool {
    uppered(s) == long_name_of(hive) || uppered(s) == short_name_of(hive)
}

/// The hive that `s` names.
pub open spec fn hive_named(s: Seq<char>) -> Option<Hive> {
    if names_hive(s, Hive::Hklm) {
        Some(Hive::Hklm)
    } else if names_hive(s, Hive::Hkcu) {
        Some(Hive::Hkcu)
    } else if names_hive(s, Hive::Hkcr) {
        Some(Hive::Hkcr)
    } else if names_hive(s, Hive::Hku) {
        Some(Hive::Hku)
    } else if names_hive(s, Hive::Hkcc) {
        Some(Hive::Hkcc)
    } else {
        None
    }
}

impl Hive {
    /// The hive that a text names.
    pub fn parse(s: &str) -> (r: Option<Hive>)
        ensures
            r == hive_named(s@),
    {
        let chars = chars_of(s);
        parse_hive(chars.as_slice())
    }

    /// The full name.
    pub fn long_name(self) -> (r: &'static str)
        ensures
            r@ == long_name_of(self),
    {
        match self {
            Hive::Hklm => "HKEY_LOCAL_MACHINE",
            Hive::Hkcu => "HKEY_CURRENT_USER",
            Hive::Hkcr => "HKEY_CLASSES_ROOT",
            Hive::Hku => "HKEY_USERS",
            Hive::Hkcc => "HKEY_CURRENT_CONFIG",
        }
    }
}

/// The hive that characters name.
pub fn parse_hive(s: &[char]) -> (r: Option<Hive>)
    ensures
        r == hive_named(s@),
{
    let up = to_upper(s);
    let up = up.as_slice();
    if is_text(up, "HKEY_LOCAL_MACHINE") || is_text(up, "HKLM") {
        Some(Hive::Hklm)
    } else if is_text(up, "HKEY_CURRENT_USER") || is_text(up, "HKCU") {
        Some(Hive::Hkcu)
    } else if is_text(up, "HKEY_CLASSES_ROOT") || is_text(up, "HKCR") {
        Some(Hive::Hkcr)
    } else if is_text(up, "HKEY_USERS") || is_text(up, "HKU") {
        Some(Hive::Hku)
    } else if is_text(up, "HKEY_CURRENT_CONFIG") || is_text(up, "HKCC") {
        Some(Hive::Hkcc)
    } else {
        None
    }
}

/// A key: a hive and the path of a subkey below it.
#[derive(PartialEq, Eq, Debug)]
pub struct RegPath {
    pub hive: Hive,
    /// Subkey path; empty for the hive itself.
    pub sub: String,
}

/// What a `RegPath` stands for.
pub struct PathView {
    pub hive: Hive,
    pub sub: Seq<char>,
}

impl View for RegPath {
    type V = PathView;

    open spec fn view(&self) -> PathView {
        PathView { hive: self.hive, sub: self.sub@ }
    }
}

impl Clone for RegPath {
    fn clone(&self) -> (r: Self)
        ensures
            r@ == self@,
    {
        RegPath { hive: self.hive, sub: self.sub.clone() }
    }
}

/// The path that a text names: trimmed, without a NUL, a hive name up to the
/// first backslash and a subkey path whose outer backslashes are dropped.
pub open spec fn path_named(raw: Seq<char>) -> Option<PathView> {
    let t = trimmed(raw);
    let i = first_of(t, '\\');
    let rest = if i < t.len() {
        t.skip(i + 1)
    } else {
        Seq::empty()
    };
    if t.contains('\0') {
        None
    } else {
        match hive_named(t.take(i)) {
            Some(hive) => Some(PathView { hive, sub: stripped(rest, '\\') }),
            None => None,
        }
    }
}

/// A path as text: the hive's full name, then a backslash and the subkey path
/// where there is one.
pub open spec fn path_text(p: PathView) -> Seq<char> {
    if p.sub.len() == 0 {
        long_name_of(p.hive)
    } else {
        long_name_of(p.hive) + "\\"@ + p.sub
    }
}

/// The character that `c` is compared as: its upper case where that is a single
/// character, and `c` itself otherwise.
pub open spec fn fold_char(c: char) -> char {
    if c as u32 <= 0x7f {
        upper_char(c)
    } else if uppercase_of(c).len() == 1 {
        uppercase_of(c)[0]
    } else {
        c
    }
}

/// The text that `s` is compared as.
pub open spec fn folded(s: Seq<char>) -> Seq<char> {
    s.map_values(|c: char| fold_char(c))
}

/// The text that a path is compared as.
pub open spec fn path_fold(p: PathView) -> Seq<char> {
    long_name_of(p.hive) + "\\"@ + folded(p.sub)
}

/// Folding goes through a text character by character.
pub broadcast proof fn folded_concat(s: Seq<char>, t: Seq<char>)
    ensures
        #[trigger] folded(s + t) == folded(s) + folded(t),
{
    assert(folded(s + t) =~= folded(s) + folded(t));
}

/// Folding keeps the number of characters and goes through a text character by
/// character. Folding a second time changes nothing where it changes no
/// character of the text; it changes none of ASCII.
pub proof fn folding_goes_by_character(s: Seq<char>, t: Seq<char>)
    ensures
        folded(s).len() == s.len(),
        folded(s + t) == folded(s) + folded(t),
        (forall|i: int|
            0 <= i < s.len() ==> fold_char(fold_char(#[trigger] s[i])) == fold_char(s[i]))
            <==> folded(folded(s)) == folded(s),
        (forall|i: int| 0 <= i < s.len() ==> #[trigger] s[i] as u32 <= 0x7f) ==> folded(folded(s))
            == folded(s),
{
    folded_concat(s, t);
    if forall|i: int| 0 <= i < s.len() ==> #[trigger] s[i] as u32 <= 0x7f {
        assert forall|i: int| 0 <= i < s.len() implies fold_char(fold_char(#[trigger] s[i]))
            == fold_char(s[i]) by {
            upper_case_stays(s[i]);
        }
    }
    if forall|i: int|
        0 <= i < s.len() ==> fold_char(fold_char(#[trigger] s[i])) == fold_char(s[i]) {
        assert(folded(folded(s)) =~= folded(s));
    }
    if folded(folded(s)) == folded(s) {
        assert forall|i: int| 0 <= i < s.len() implies fold_char(fold_char(#[trigger] s[i]))
            == fold_char(s[i]) by {
            assert(folded(folded(s))[i] == folded(s)[i]);
        }
    }
}

proof fn upper_case_stays(c: char)
    requires
        c as u32 <= 0x7f,
    ensures
        fold_char(c) as u32 <= 0x7f,
        fold_char(fold_char(c)) == fold_char(c),
{
}

/// Two paths are the same key.
pub open spec fn same_key(p: PathView, q: PathView) -> bool {
    p.hive == q.hive && folded(p.sub) == folded(q.sub)
}

impl RegPath {
    /// Reads a path; none where it has a NUL or no known hive.
    pub fn parse(raw: &str) -> (r: Option<RegPath>)
        ensures
            r is Some <==> path_named(raw@) is Some,
            r matches Some(p) ==> path_named(raw@) == Some(p@),
    {
        let chars = chars_of(raw);
        parse_path(chars.as_slice())
    }

    /// The text that the path is compared as. Key paths ignore case and keep
    /// it, so the path itself stays as it was written.
    pub fn fold(&self) -> (r: String)
        ensures
            r@ == path_fold(self@),
    {
        let mut out = concat(self.hive.long_name(), "\\");
        out.append(fold_str(self.sub.as_str()).as_str());
        out
    }

    /// The path as text.
    pub fn to_string(&self) -> (r: String)
        ensures
            r@ == path_text(self@),
    {
        if self.sub.as_str().is_empty() {
            self.hive.long_name().to_owned()
        } else {
            let mut out = concat(self.hive.long_name(), "\\");
            out.append(self.sub.as_str());
            out
        }
    }

    /// Whether both paths are the same key.
    pub fn is_same_key(&self, other: &RegPath) -> (r: bool)
        ensures
            r == same_key(self@, other@),
    {
        if self.hive != other.hive {
            return false;
        }
        let a = fold_str(self.sub.as_str());
        let b = fold_str(other.sub.as_str());
        a == b
    }
}

/// Reads a path from characters.
pub fn parse_path(raw: &[char]) -> (r: Option<RegPath>)
    ensures
        r is Some <==> path_named(raw@) is Some,
        r matches Some(p) ==> path_named(raw@) == Some(p@),
{
    let t = trim(raw);
    if contains_char(t, '\0') {
        return None;
    }
    let i = find_char(t, '\\');
    let head = slice_subrange(t, 0, i);
    let rest = if i < t.len() {
        slice_subrange(t, i + 1, t.len())
    } else {
        slice_subrange(t, t.len(), t.len())
    };
    assert(i == t.len() ==> rest@ =~= Seq::<char>::empty());
    match parse_hive(head) {
        Some(hive) => Some(RegPath { hive, sub: string_of(strip(rest, '\\')) }),
        None => None,
    }
}

/// Folds one character. A mapping that would expand is not applied, as the
/// registry compares names one character at a time.
pub fn fold_one(c: char) -> (r: char)
    ensures
        r == fold_char(c),
{
    let upper = to_uppercase(c);
    if upper.len() == 1 {
        upper[0]
    } else {
        c
    }
}

/// The text that a name or a path is compared as.
pub fn fold_str(s: &str) -> (r: String)
    ensures
        r@ == folded(s@),
{
    let chars = chars_of(s);
    let mut out = String::new();
    for i in 0..chars.len()
        invariant
            chars@ == s@,
            out@ =~= folded(s@.take(i as int)),
    {
        out.push(fold_one(chars[i]));
    }
    assert(s@.take(s@.len() as int) =~= s@);
    out
}

/// Whether two texts fold to the same text.
pub fn same_folded(a: &str, b: &str) -> (r: bool)
    ensures
        r == (folded(a@) == folded(b@)),
{
    let x = fold_str(a);
    let y = fold_str(b);
    x == y
}

/// The names of hives are upper case, and plain.
pub proof fn hive_names_are_upper_case(hive: Hive)
    ensures
        uppered(long_name_of(hive)) == long_name_of(hive),
        !long_name_of(hive).contains('\\'),
        !long_name_of(hive).contains('\0'),
        long_name_of(hive).len() > 0,
        !is_white(long_name_of(hive)[0]),
        !is_white(long_name_of(hive).last()),
{
    reveal_strlit("HKEY_LOCAL_MACHINE");
    reveal_strlit("HKEY_CURRENT_USER");
    reveal_strlit("HKEY_CLASSES_ROOT");
    reveal_strlit("HKEY_USERS");
    reveal_strlit("HKEY_CURRENT_CONFIG");
    assert(uppered(long_name_of(hive)) =~= long_name_of(hive));
}

proof fn long_names_are_distinct(a: Hive, b: Hive)
    requires
        a != b,
    ensures
        long_name_of(a) != long_name_of(b),
        long_name_of(a) != short_name_of(b),
{
    reveal_strlit("HKEY_LOCAL_MACHINE");
    reveal_strlit("HKEY_CURRENT_USER");
    reveal_strlit("HKEY_CLASSES_ROOT");
    reveal_strlit("HKEY_USERS");
    reveal_strlit("HKEY_CURRENT_CONFIG");
    reveal_strlit("HKLM");
    reveal_strlit("HKCU");
    reveal_strlit("HKCR");
    reveal_strlit("HKU");
    reveal_strlit("HKCC");
    let x = long_name_of(a);
    let y = long_name_of(b);
    assert(x.len() != y.len() || x[5] != y[5] || x[6] != y[6] || x[7] != y[7]);
    assert(x.len() > 4);
}

/// A hive is read back from its abbreviation.
pub proof fn short_hive_reads_back(hive: Hive)
    ensures
        hive_named(short_name_of(hive)) == Some(hive),
        short_name_of(hive).len() > 0,
        !short_name_of(hive).contains('\\'),
{
    reveal_strlit("HKEY_LOCAL_MACHINE");
    reveal_strlit("HKEY_CURRENT_USER");
    reveal_strlit("HKEY_CLASSES_ROOT");
    reveal_strlit("HKEY_USERS");
    reveal_strlit("HKEY_CURRENT_CONFIG");
    reveal_strlit("HKLM");
    reveal_strlit("HKCU");
    reveal_strlit("HKCR");
    reveal_strlit("HKU");
    reveal_strlit("HKCC");
    let s = short_name_of(hive);
    assert(uppered(s) =~= s);
    assert("HKLM"@[3] == 'M' && "HKCU"@[2] == 'C' && "HKCR"@[3] == 'R' && "HKU"@.len() == 3
        && "HKCC"@[3] == 'C');
    assert("HKLM"@[2] == 'L' && "HKCR"@[2] == 'C' && "HKCU"@[3] == 'U' && "HKCC"@[2] == 'C');
}

/// A hive is read back from its full name.
pub proof fn hive_reads_back(hive: Hive)
    ensures
        hive_named(long_name_of(hive)) == Some(hive),
        long_name_of(hive).len() > 0,
        !long_name_of(hive).contains('\\'),
{
    hive_names_are_upper_case(hive);
    if hive != Hive::Hklm {
        long_names_are_distinct(hive, Hive::Hklm);
    }
    if hive != Hive::Hkcu {
        long_names_are_distinct(hive, Hive::Hkcu);
    }
    if hive != Hive::Hkcr {
        long_names_are_distinct(hive, Hive::Hkcr);
    }
    if hive != Hive::Hku {
        long_names_are_distinct(hive, Hive::Hku);
    }
    if hive != Hive::Hkcc {
        long_names_are_distinct(hive, Hive::Hkcc);
    }
}

/// A path is read back from its text, where its subkey path has no NUL, no
/// outer backslash and no trailing white space.
pub proof fn path_reads_back(p: PathView)
    requires
        !p.sub.contains('\0'),
        p.sub.len() > 0 ==> p.sub[0] != '\\' && p.sub.last() != '\\' && !is_white(p.sub.last()),
    ensures
        path_named(path_text(p)) == Some(p),
{
    reveal_strlit("\\");
    let name = long_name_of(p.hive);
    let t = path_text(p);
    hive_names_are_upper_case(p.hive);
    hive_reads_back(p.hive);
    assert(t[0] == name[0]);
    if p.sub.len() > 0 {
        assert(t.last() == p.sub.last());
    }
    assert(trimmed(t) == t);
    assert(!t.contains('\0')) by {
        if t.contains('\0') {
            let k = choose|k: int| 0 <= k < t.len() && t[k] == '\0';
            if k < name.len() {
                assert(name[k] == '\0');
                assert(name.contains('\0'));
            } else if k > name.len() {
                assert(p.sub[k - name.len() - 1] == '\0');
                assert(p.sub.contains('\0'));
            }
        }
    }
    assert forall|j: int| 0 <= j < name.len() implies t[j] != '\\' by {
        assert(t[j] == name[j]);
        assert(name.contains(name[j]));
    }
    first_of_unique(t, '\\', name.len() as int);
    assert(t.take(name.len() as int) =~= name);
    if p.sub.len() > 0 {
        assert(t.skip(name.len() as int + 1) =~= p.sub);
        assert(stripped_start(p.sub, '\\') == p.sub);
        assert(stripped_end(p.sub, '\\') == p.sub);
    } else {
        assert(stripped(Seq::<char>::empty(), '\\') =~= p.sub);
    }
}

/// Two paths fold to the same text exactly where they are the same key.
pub proof fn fold_identifies_keys(p: PathView, q: PathView)
    ensures
        path_fold(p) == path_fold(q) <==> same_key(p, q),
{
    reveal_strlit("\\");
    let a = path_fold(p);
    let b = path_fold(q);
    if a == b {
        let n = long_name_of(p.hive);
        let m = long_name_of(q.hive);
        hive_names_are_upper_case(p.hive);
        hive_names_are_upper_case(q.hive);
        assert(a[n.len() as int] == '\\');
        assert(b[m.len() as int] == '\\');
        if n.len() < m.len() {
            assert(b[n.len() as int] == m[n.len() as int]);
            assert(m.contains('\\'));
        }
        if m.len() < n.len() {
            assert(a[m.len() as int] == n[m.len() as int]);
            assert(n.contains('\\'));
        }
        assert(a.take(n.len() as int) =~= n);
        assert(b.take(m.len() as int) =~= m);
        if p.hive != q.hive {
            long_names_are_distinct(p.hive, q.hive);
        }
        assert(a.skip(n.len() as int + 1) =~= folded(p.sub));
        assert(b.skip(m.len() as int + 1) =~= folded(q.sub));
    }
}

// ---------------------------------------------------------------------------
// Values
// ---------------------------------------------------------------------------

/// The name of a value.
#[derive(PartialEq, Eq, Debug)]
pub enum ValueName {
    /// The key's unnamed default value.
    Default,
    Named(String),
}

impl View for ValueName {
    type V = Option<Seq<char>>;

    /// The name; none for the default value.
    open spec fn view(&self) -> Option<Seq<char>> {
        match self {
            ValueName::Default => None,
            ValueName::Named(n) => Some(n@),
        }
    }
}

impl Clone for ValueName {
    fn clone(&self) -> (r: Self)
        ensures
            r@ == self@,
    {
        match self {
            ValueName::Default => ValueName::Default,
            ValueName::Named(n) => ValueName::Named(n.clone()),
        }
    }
}

/// A value name as text.
pub open spec fn name_text(name: Option<Seq<char>>) -> Seq<char> {
    match name {
        None => "(Default)"@,
        Some(n) => n,
    }
}

/// The name under which the registry stores a value: empty for the default.
pub open spec fn api_name(name: Option<Seq<char>>) -> Seq<char> {
    match name {
        None => Seq::empty(),
        Some(n) => n,
    }
}

/// Two names are the same value.
pub open spec fn same_name(a: Option<Seq<char>>, b: Option<Seq<char>>) -> bool {
    folded(api_name(a)) == folded(api_name(b))
}

impl ValueName {
    /// The name as text.
    pub fn to_string(&self) -> (r: String)
        ensures
            r@ == name_text(self@),
    {
        match self {
            ValueName::Default => "(Default)".to_owned(),
            ValueName::Named(n) => n.clone(),
        }
    }

    /// The name under which the registry stores the value.
    pub fn api(&self) -> (r: String)
        ensures
            r@ == api_name(self@),
    {
        match self {
            ValueName::Default => String::new(),
            ValueName::Named(n) => n.clone(),
        }
    }
}

/// Whether both names are the same value.
pub fn value_name_matches(entry: &ValueName, wanted: &ValueName) -> (r: bool)
    ensures
        r == same_name(entry@, wanted@),
{
    same_folded(entry.api().as_str(), wanted.api().as_str())
}

// Win32 registry type ids.
pub const REG_NONE: u32 = 0;

pub const REG_SZ: u32 = 1;

pub const REG_EXPAND_SZ: u32 = 2;

pub const REG_BINARY: u32 = 3;

pub const REG_DWORD: u32 = 4;

pub const REG_DWORD_BIG_ENDIAN: u32 = 5;

pub const REG_LINK: u32 = 6;

pub const REG_MULTI_SZ: u32 = 7;

pub const REG_QWORD: u32 = 11;

/// The data of a value.
#[derive(PartialEq, Eq, Debug)]
pub enum RegData {
    /// Deletes the value.
    Delete,
    /// Written as a quoted string; always `REG_SZ`.
    Sz(String),
    /// Written as `dword:xxxxxxxx`.
    Dword(u32),
    /// Written as `hex:` or `hex(N):`, its bytes verbatim.
    Hex { ty: u32, bytes: Vec<u8> },
}

/// What a `RegData` stands for.
pub enum DataView {
    Delete,
    Sz(Seq<char>),
    Dword(u32),
    Hex { ty: u32, bytes: Seq<u8> },
}

impl View for RegData {
    type V = DataView;

    open spec fn view(&self) -> DataView {
        match self {
            RegData::Delete => DataView::Delete,
            RegData::Sz(s) => DataView::Sz(s@),
            RegData::Dword(v) => DataView::Dword(*v),
            RegData::Hex { ty, bytes } => DataView::Hex { ty: *ty, bytes: bytes@ },
        }
    }
}

/// A copy of bytes.
pub fn copy_bytes(bytes: &[u8]) -> (out: Vec<u8>)
    ensures
        out@ == bytes@,
{
    vstd::slice::slice_to_vec(bytes)
}

impl Clone for RegData {
    fn clone(&self) -> (r: Self)
        ensures
            r@ == self@,
    {
        match self {
            RegData::Delete => RegData::Delete,
            RegData::Sz(s) => RegData::Sz(s.clone()),
            RegData::Dword(v) => RegData::Dword(*v),
            RegData::Hex { ty, bytes } => RegData::Hex {
                ty: *ty,
                bytes: copy_bytes(bytes.as_slice()),
            },
        }
    }
}

/// The type id of data; none for a deletion.
pub open spec fn type_id_of(d: DataView) -> Option<u32> {
    match d {
        DataView::Delete => None,
        DataView::Sz(_) => Some(REG_SZ),
        DataView::Dword(_) => Some(REG_DWORD),
        DataView::Hex { ty, .. } => Some(ty),
    }
}

/// The name of a type id.
pub open spec fn type_name_of(id: Option<u32>) -> Seq<char> {
    match id {
        None => "(delete)"@,
        Some(ty) => if ty == REG_NONE {
            "REG_NONE"@
        } else if ty == REG_SZ {
            "REG_SZ"@
        } else if ty == REG_EXPAND_SZ {
            "REG_EXPAND_SZ"@
        } else if ty == REG_BINARY {
            "REG_BINARY"@
        } else if ty == REG_DWORD {
            "REG_DWORD"@
        } else if ty == REG_DWORD_BIG_ENDIAN {
            "REG_DWORD_BIG_ENDIAN"@
        } else if ty == REG_LINK {
            "REG_LINK"@
        } else if ty == REG_MULTI_SZ {
            "REG_MULTI_SZ"@
        } else if ty == REG_QWORD {
            "REG_QWORD"@
        } else {
            "REG_<other>"@
        },
    }
}

/// A non-empty run of units as a list of one; nothing otherwise.
pub open spec fn closing(run: Seq<u16>) -> Seq<Seq<u16>> {
    if run.len() == 0 {
        Seq::empty()
    } else {
        seq![run]
    }
}

/// The non-empty runs of units between zero units, `run` being already read.
pub open spec fn runs_after(run: Seq<u16>, units: Seq<u16>) -> Seq<Seq<u16>>
    decreases units.len(),
{
    if units.len() == 0 {
        closing(run)
    } else if units[0] == 0 {
        closing(run) + runs_after(Seq::empty(), units.skip(1))
    } else {
        runs_after(run.push(units[0]), units.skip(1))
    }
}

/// The non-empty strings that UTF-16 bytes hold between their NULs; none where
/// the bytes are odd or a string is malformed.
pub open spec fn utf16_strings(bytes: Seq<u8>) -> Option<Seq<Seq<char>>> {
    let runs = runs_after(Seq::empty(), units_le(bytes));
    if bytes.len() % 2 == 0 && forall|i: int| 0 <= i < runs.len() ==> decoded(runs[i]) is Some {
        Some(runs.map_values(|r: Seq<u16>| decoded(r)->0))
    } else {
        None
    }
}

// ---------------------------------------------------------------------------
// Lists of strings
// ---------------------------------------------------------------------------

/// The units of strings, each with a NUL behind it.
pub open spec fn terminated(parts: Seq<Seq<char>>) -> Seq<u16>
    decreases parts.len(),
{
    if parts.len() == 0 {
        Seq::empty()
    } else {
        units_of(parts[0]) + (seq![0u16] + terminated(parts.skip(1)))
    }
}

/// The bytes that store a list of strings: each with a NUL behind it, and one
/// more NUL behind the list.
pub open spec fn list_bytes(parts: Seq<Seq<char>>) -> Seq<u8> {
    bytes_le(terminated(parts) + seq![0u16])
}

proof fn text_has_no_zero_unit(s: Seq<char>)
    requires
        !s.contains('\0'),
    ensures
        forall|i: int| 0 <= i < units_of(s).len() ==> #[trigger] units_of(s)[i] != 0,
        units_of(s).len() >= s.len(),
    decreases s.len(),
{
    if s.len() > 0 {
        let c = s[0];
        let rest = s.skip(1);
        assert(s.contains(c));
        assert(!rest.contains('\0')) by {
            if rest.contains('\0') {
                let k = choose|k: int| 0 <= k < rest.len() && rest[k] == '\0';
                assert(s[k + 1] == '\0');
                assert(s.contains('\0'));
            }
        }
        text_has_no_zero_unit(rest);
        vstd::utf8::char_is_scalar(c);
        vstd::utf8::char_u32_cast(c, c as u32);
        assert(c as u32 != 0) by {
            vstd::utf8::char_u32_cast('\0', 0);
        }
        let first = crate::utf16::units_of_char(c);
        assert forall|i: int| 0 <= i < units_of(s).len() implies #[trigger] units_of(s)[i] != 0 by {
            if i < first.len() {
                assert(units_of(s)[i] == first[i]);
            } else {
                assert(units_of(s)[i] == units_of(rest)[i - first.len()]);
            }
        }
    }
}

proof fn runs_take_in(run: Seq<u16>, more: Seq<u16>, rest: Seq<u16>)
    requires
        forall|i: int| 0 <= i < more.len() ==> #[trigger] more[i] != 0,
    ensures
        runs_after(run, more + rest) == runs_after(run + more, rest),
    decreases more.len(),
{
    if more.len() == 0 {
        assert(more + rest =~= rest);
        assert(run + more =~= run);
    } else {
        assert((more + rest)[0] == more[0]);
        assert((more + rest).skip(1) =~= more.skip(1) + rest);
        assert forall|i: int| 0 <= i < more.skip(1).len() implies #[trigger] more.skip(1)[i]
            != 0 by {
            assert(more.skip(1)[i] == more[i + 1]);
        }
        runs_take_in(run.push(more[0]), more.skip(1), rest);
        assert(run.push(more[0]) + more.skip(1) =~= run + more);
    }
}

/// Strings that a list can hold: none is empty, and none has a NUL.
pub open spec fn listable(parts: Seq<Seq<char>>) -> bool {
    forall|i: int|
        0 <= i < parts.len() ==> (#[trigger] parts[i]).len() > 0 && !parts[i].contains('\0')
}

proof fn runs_are_the_strings(parts: Seq<Seq<char>>)
    requires
        listable(parts),
    ensures
        runs_after(Seq::empty(), terminated(parts) + seq![0u16]) == parts.map_values(
            |p: Seq<char>| units_of(p),
        ),
    decreases parts.len(),
{
    let none = Seq::<u16>::empty();
    let end = seq![0u16];
    let all = parts.map_values(|p: Seq<char>| units_of(p));
    if parts.len() == 0 {
        assert(terminated(parts) + end =~= end);
        assert(end.skip(1) =~= none);
        assert(closing(none) + runs_after(none, none) =~= all);
        assert(runs_after(none, end) == closing(none) + runs_after(none, end.skip(1)));
    } else {
        let first = units_of(parts[0]);
        let others = parts.skip(1);
        let rest = terminated(others) + end;
        assert(listable(others)) by {
            assert forall|i: int| 0 <= i < others.len() implies (#[trigger] others[i]).len() > 0
                && !others[i].contains('\0') by {
                assert(others[i] == parts[i + 1]);
            }
        }
        text_has_no_zero_unit(parts[0]);
        assert(terminated(parts) + end =~= first + (end + rest));
        runs_take_in(none, first, end + rest);
        assert(none + first =~= first);
        assert((end + rest)[0] == 0);
        assert((end + rest).skip(1) =~= rest);
        runs_are_the_strings(others);
        assert(seq![first] + others.map_values(|p: Seq<char>| units_of(p)) =~= all);
    }
}

/// A list of strings is read back from the bytes that store it, in order and
/// without the terminators.
pub proof fn string_lists_read_back(parts: Seq<Seq<char>>)
    requires
        listable(parts),
    ensures
        utf16_strings(list_bytes(parts)) == Some(parts),
{
    let units = terminated(parts) + seq![0u16];
    let runs = parts.map_values(|p: Seq<char>| units_of(p));
    bytes_give_back_the_units(units);
    runs_are_the_strings(parts);
    assert forall|i: int| 0 <= i < runs.len() implies decoded(#[trigger] runs[i]) == Some(
        parts[i],
    ) by {
        decoding_gives_back_the_text(parts[i]);
    }
    assert(runs.map_values(|r: Seq<u16>| decoded(r)->0) =~= parts);
}

/// `bytes` end with `n` zero bytes.
pub open spec fn ends_in_zeros(bytes: Seq<u8>, n: nat) -> bool {
    n <= bytes.len() && forall|i: int| bytes.len() - n <= i < bytes.len() ==> bytes[i] == 0
}

/// The number that eight bytes hold, lowest byte first.
pub open spec fn qword_of(b: Seq<u8>) -> nat {
    (b[0] + 0x100 * b[1] + 0x1_0000 * b[2] + 0x100_0000 * b[3] + 0x1_0000_0000 * b[4]
        + 0x100_0000_0000 * b[5] + 0x1_0000_0000_0000 * b[6] + 0x100_0000_0000_0000 * b[7]) as nat
}

/// The first sixteen bytes in hexadecimal, then the number of bytes.
pub open spec fn hex_preview_of(bytes: Seq<u8>) -> Seq<char> {
    let head = if bytes.len() > 16 {
        bytes.take(16)
    } else {
        bytes
    };
    let more = if bytes.len() > 16 {
        " ..."@
    } else {
        Seq::empty()
    };
    joined(head.map_values(|b: u8| hex_of(b as nat, 2)), " "@) + more + " ["@ + dec_of(bytes.len())
        + " bytes]"@
}

/// Data as text for a reader. String data is shown as text only where it is
/// well formed and terminated; everything else is shown as bytes.
pub open spec fn preview_of(d: DataView) -> Seq<char> {
    match d {
        DataView::Delete => "<delete>"@,
        DataView::Sz(s) => s,
        DataView::Dword(v) => "0x"@ + hex_of(v as nat, 8) + " ("@ + dec_of(v as nat) + ")"@,
        DataView::Hex { ty, bytes } => if ty == REG_EXPAND_SZ || ty == REG_SZ || ty == REG_LINK {
            match utf16_strings(bytes) {
                Some(parts) => if ends_in_zeros(bytes, 2) && parts.len() <= 1 {
                    joined(parts, Seq::empty())
                } else {
                    hex_preview_of(bytes)
                },
                None => hex_preview_of(bytes),
            }
        } else if ty == REG_MULTI_SZ {
            match utf16_strings(bytes) {
                Some(parts) => if ends_in_zeros(bytes, 4) {
                    joined(parts, " | "@)
                } else {
                    hex_preview_of(bytes)
                },
                None => hex_preview_of(bytes),
            }
        } else if ty == REG_QWORD && bytes.len() == 8 {
            "0x"@ + hex_of(qword_of(bytes), 16) + " ("@ + dec_of(qword_of(bytes)) + ")"@
        } else {
            hex_preview_of(bytes)
        },
    }
}

impl RegData {
    /// The type id; none for a deletion.
    pub fn type_id(&self) -> (r: Option<u32>)
        ensures
            r == type_id_of(self@),
    {
        match self {
            RegData::Delete => None,
            RegData::Sz(_) => Some(REG_SZ),
            RegData::Dword(_) => Some(REG_DWORD),
            RegData::Hex { ty, .. } => Some(*ty),
        }
    }

    /// The name of the type.
    pub fn type_label(&self) -> (r: &'static str)
        ensures
            r@ == type_name_of(type_id_of(self@)),
    {
        match self.type_id() {
            None => "(delete)",
            Some(ty) => if ty == REG_NONE {
                "REG_NONE"
            } else if ty == REG_SZ {
                "REG_SZ"
            } else if ty == REG_EXPAND_SZ {
                "REG_EXPAND_SZ"
            } else if ty == REG_BINARY {
                "REG_BINARY"
            } else if ty == REG_DWORD {
                "REG_DWORD"
            } else if ty == REG_DWORD_BIG_ENDIAN {
                "REG_DWORD_BIG_ENDIAN"
            } else if ty == REG_LINK {
                "REG_LINK"
            } else if ty == REG_MULTI_SZ {
                "REG_MULTI_SZ"
            } else if ty == REG_QWORD {
                "REG_QWORD"
            } else {
                "REG_<other>"
            },
        }
    }

    /// The data as text for a reader; never used for writing.
    pub fn preview(&self) -> (r: String)
        ensures
            r@ == preview_of(self@),
    {
        match self {
            RegData::Delete => "<delete>".to_owned(),
            RegData::Sz(s) => s.clone(),
            RegData::Dword(v) => {
                let mut out = "0x".to_owned();
                push_hex(&mut out, *v as u64, 8);
                out.append(" (");
                push_dec(&mut out, *v as u64);
                out.append(")");
                out
            },
            RegData::Hex { ty, bytes } => {
                let b = bytes.as_slice();
                if *ty == REG_EXPAND_SZ || *ty == REG_SZ || *ty == REG_LINK {
                    match strict_utf16_strings(b) {
                        Some(parts) => if ends_with_zeros(b, 2) && parts.len() <= 1 {
                            let out = join(parts.as_slice(), "");
                            proof {
                                reveal_strlit("");
                                assert(""@ =~= Seq::<char>::empty());
                            }
                            out
                        } else {
                            hex_preview(b)
                        },
                        None => hex_preview(b),
                    }
                } else if *ty == REG_MULTI_SZ {
                    match strict_utf16_strings(b) {
                        Some(parts) => if ends_with_zeros(b, 4) {
                            join(parts.as_slice(), " | ")
                        } else {
                            hex_preview(b)
                        },
                        None => hex_preview(b),
                    }
                } else if *ty == REG_QWORD && b.len() == 8 {
                    let v: u64 = b[0] as u64 + 0x100 * b[1] as u64 + 0x1_0000 * b[2] as u64
                        + 0x100_0000 * b[3] as u64 + 0x1_0000_0000 * b[4] as u64
                        + 0x100_0000_0000 * b[5] as u64 + 0x1_0000_0000_0000 * b[6] as u64
                        + 0x100_0000_0000_0000 * b[7] as u64;
                    let mut out = "0x".to_owned();
                    push_hex(&mut out, v, 16);
                    out.append(" (");
                    push_dec(&mut out, v);
                    out.append(")");
                    out
                } else {
                    hex_preview(b)
                }
            },
        }
    }
}

/// Whether `bytes` end with `n` zero bytes.
pub fn ends_with_zeros(bytes: &[u8], n: usize) -> (r: bool)
    ensures
        r == ends_in_zeros(bytes@, n as nat),
{
    if n > bytes.len() {
        return false;
    }
    for k in 0..n
        invariant
            n <= bytes.len(),
            forall|i: int| bytes.len() - n <= i < bytes.len() - n + k ==> bytes@[i] == 0,
    {
        if bytes[bytes.len() - n + k] != 0 {
            return false;
        }
    }
    true
}

fn hex_preview(bytes: &[u8]) -> (r: String)
    ensures
        r@ == hex_preview_of(bytes@),
{
    broadcast use views_push;

    let n: usize = if bytes.len() > 16 {
        16
    } else {
        bytes.len()
    };
    let mut head: Vec<String> = Vec::new();
    for i in 0..n
        invariant
            n <= bytes.len(),
            views(head@) =~= bytes@.take(i as int).map_values(|b: u8| hex_of(b as nat, 2)),
    {
        let mut one = String::new();
        push_hex(&mut one, bytes[i] as u64, 2);
        assert(one@ =~= hex_of(bytes@[i as int] as nat, 2));
        let ghost before = head@;
        head.push(one);
        assert(views(head@) == views(before).push(one@));
    }
    assert(bytes.len() <= 16 ==> bytes@.take(n as int) =~= bytes@);
    let mut out = join(head.as_slice(), " ");
    if bytes.len() > 16 {
        out.append(" ...");
    } else {
        assert(out@ =~= out@ + Seq::<char>::empty());
    }
    out.append(" [");
    push_dec(&mut out, bytes.len() as u64);
    out.append(" bytes]");
    out
}

/// The strings that UTF-16 bytes hold between their NULs; nothing where the
/// bytes are odd or a string is malformed.
pub fn utf16_from_bytes(bytes: &[u8]) -> (r: Vec<String>)
    ensures
        views(r@) == (match utf16_strings(bytes@) {
            Some(parts) => parts,
            None => Seq::empty(),
        }),
{
    match strict_utf16_strings(bytes) {
        Some(parts) => parts,
        None => {
            let out: Vec<String> = Vec::new();
            assert(views(out@) =~= Seq::<Seq<char>>::empty());
            out
        },
    }
}

/// The non-empty runs of units between zero units.
fn split_units(units: &[u16]) -> (out: Vec<Vec<u16>>)
    ensures
        views(out@) == runs_after(Seq::empty(), units@),
{
    broadcast use views_push;

    let mut out: Vec<Vec<u16>> = Vec::new();
    let mut run: Vec<u16> = Vec::new();
    assert(units@.skip(0) =~= units@);
    assert(views(out@) + runs_after(run@, units@) =~= runs_after(run@, units@));
    for i in 0..units.len()
        invariant
            runs_after(Seq::empty(), units@) == views(out@) + runs_after(
                run@,
                units@.skip(i as int),
            ),
    {
        let ghost before = views(out@);
        let ghost rest = units@.skip(i as int);
        assert(rest[0] == units@[i as int]);
        assert(rest.skip(1) =~= units@.skip(i + 1));
        if units[i] == 0 {
            let ghost tail = runs_after(Seq::empty(), units@.skip(i + 1));
            if run.len() > 0 {
                let ghost closed = run@;
                out.push(run);
                assert(before + (seq![closed] + tail) =~= before.push(closed) + tail);
                run = Vec::new();
            } else {
                assert(before + (Seq::<Seq<u16>>::empty() + tail) =~= before + tail);
                assert(run@ =~= Seq::<u16>::empty());
            }
        } else {
            run.push(units[i]);
        }
    }
    assert(units@.skip(units@.len() as int) =~= Seq::<u16>::empty());
    let ghost before = views(out@);
    if run.len() > 0 {
        let ghost closed = run@;
        out.push(run);
        assert(before + seq![closed] =~= before.push(closed));
    } else {
        assert(before + Seq::<Seq<u16>>::empty() =~= before);
    }
    out
}

/// The strings that UTF-16 bytes hold between their NULs.
pub fn strict_utf16_strings(bytes: &[u8]) -> (r: Option<Vec<String>>)
    ensures
        r is Some <==> utf16_strings(bytes@) is Some,
        r matches Some(parts) ==> utf16_strings(bytes@) == Some(views(parts@)),
{
    broadcast use views_push;

    if bytes.len() % 2 != 0 {
        return None;
    }
    let units = read_units_le(bytes);
    let runs = split_units(units.as_slice());
    let ghost all = runs_after(Seq::empty(), units_le(bytes@));
    let mut out: Vec<String> = Vec::new();
    for i in 0..runs.len()
        invariant
            all == runs_after(Seq::empty(), units_le(bytes@)),
            views(runs@) == all,
            forall|j: int| 0 <= j < i ==> decoded(all[j]) is Some,
            views(out@) =~= all.take(i as int).map_values(|r: Seq<u16>| decoded(r)->0),
    {
        assert(all[i as int] == runs@[i as int]@);
        match decode(runs[i].as_slice()) {
            Some(chars) => {
                let text = string_of(chars.as_slice());
                let ghost before = out@;
                out.push(text);
                assert(views(out@) == views(before).push(text@));
            },
            None => {
                return None;
            },
        }
    }
    assert(all.take(all.len() as int) =~= all);
    Some(out)
}

// ---------------------------------------------------------------------------
// Entries, blocks and files
// ---------------------------------------------------------------------------

/// A value under a key.
#[derive(Debug)]
pub struct ValueEntry {
    pub name: ValueName,
    pub data: RegData,
    pub line: usize,
}

/// What a `ValueEntry` stands for.
pub struct EntryView {
    pub name: Option<Seq<char>>,
    pub data: DataView,
    pub line: usize,
}

impl View for ValueEntry {
    type V = EntryView;

    open spec fn view(&self) -> EntryView {
        EntryView { name: self.name@, data: self.data@, line: self.line }
    }
}

impl Clone for ValueEntry {
    fn clone(&self) -> (r: Self)
        ensures
            r@ == self@,
    {
        ValueEntry { name: self.name.clone(), data: self.data.clone(), line: self.line }
    }
}

/// A key and what is to happen to it.
#[derive(Debug)]
pub struct KeyBlock {
    pub path: RegPath,
    /// Deletes the key and everything below it.
    pub delete: bool,
    pub values: Vec<ValueEntry>,
    pub line: usize,
}

/// What a `KeyBlock` stands for.
pub struct BlockView {
    pub path: PathView,
    pub delete: bool,
    pub values: Seq<EntryView>,
    pub line: usize,
}

impl View for KeyBlock {
    type V = BlockView;

    open spec fn view(&self) -> BlockView {
        BlockView {
            path: self.path@,
            delete: self.delete,
            values: views(self.values@),
            line: self.line,
        }
    }
}

/// A copy of value entries.
pub fn copy_entries(entries: &[ValueEntry]) -> (out: Vec<ValueEntry>)
    ensures
        views(out@) == views(entries@),
{
    broadcast use views_push;

    let mut out: Vec<ValueEntry> = Vec::new();
    for i in 0..entries.len()
        invariant
            views(out@) =~= views(entries@).take(i as int),
    {
        let entry = entries[i].clone();
        let ghost before = out@;
        out.push(entry);
        assert(views(out@) == views(before).push(entry@));
    }
    assert(views(entries@).take(entries@.len() as int) =~= views(entries@));
    out
}

impl Clone for KeyBlock {
    fn clone(&self) -> (r: Self)
        ensures
            r@ == self@,
    {
        KeyBlock {
            path: self.path.clone(),
            delete: self.delete,
            values: copy_entries(self.values.as_slice()),
            line: self.line,
        }
    }
}

/// A copy of key blocks.
pub fn copy_blocks(blocks: &[KeyBlock]) -> (out: Vec<KeyBlock>)
    ensures
        views(out@) == views(blocks@),
{
    broadcast use views_push;

    let mut out: Vec<KeyBlock> = Vec::new();
    for i in 0..blocks.len()
        invariant
            views(out@) =~= views(blocks@).take(i as int),
    {
        let block = blocks[i].clone();
        let ghost before = out@;
        out.push(block);
        assert(views(out@) == views(before).push(block@));
    }
    assert(views(blocks@).take(blocks@.len() as int) =~= views(blocks@));
    out
}

/// The dialect of a `.reg` file.
#[derive(Clone, Copy, PartialEq, Eq, Debug, Structural)]
pub enum RegFormat {
    /// `Windows Registry Editor Version 5.00`
    V5,
    /// `REGEDIT4`
    V4,
}

/// The header line of a dialect.
pub open spec fn header_of(format: RegFormat) -> Seq<char> {
    match format {
        RegFormat::V5 => "Windows Registry Editor Version 5.00"@,
        RegFormat::V4 => "REGEDIT4"@,
    }
}

impl RegFormat {
    /// The header line.
    pub fn header(self) -> (r: &'static str)
        ensures
            r@ == header_of(self),
    {
        match self {
            RegFormat::V5 => "Windows Registry Editor Version 5.00",
            RegFormat::V4 => "REGEDIT4",
        }
    }
}

/// A parsed file.
#[derive(Debug)]
pub struct RegFile {
    pub format: RegFormat,
    pub encoding: SourceEncoding,
    pub keys: Vec<KeyBlock>,
}

/// What a `RegFile` stands for.
pub struct FileView {
    pub format: RegFormat,
    pub encoding: SourceEncoding,
    pub keys: Seq<BlockView>,
}

impl View for RegFile {
    type V = FileView;

    open spec fn view(&self) -> FileView {
        FileView { format: self.format, encoding: self.encoding, keys: views(self.keys@) }
    }
}

impl Clone for RegFile {
    fn clone(&self) -> (r: Self)
        ensures
            r@ == self@,
    {
        RegFile {
            format: self.format,
            encoding: self.encoding,
            keys: copy_blocks(self.keys.as_slice()),
        }
    }
}

} // verus!
