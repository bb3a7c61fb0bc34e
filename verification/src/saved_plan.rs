//! Versioned, digest-bound plan artifacts.
//!
//! A saved plan is not authority to write forever. It binds the exact source
//! bytes, the desired state of each registry view, and the current state needed
//! to undo it. All three are verified before the first write.
use vstd::prelude::*;

use crate::doc::{
    array, doc_text, doc_texts, field, field_text, field_texts, fields_text, list_text, object,
    object_text, sound, Doc,
};
use crate::document::{
    compact, count_at, json_compact, json_count_at, json_number_at, json_part_at, json_pretty,
    json_problem, json_text_at, nesting, number_at, part_at, pretty, problem, reads_as, text_at,
};
use crate::encoding::SourceEncoding;
use crate::json::{jbool, json_string, jstr};
use crate::model::{
    copy_blocks, BlockView, FileView, KeyBlock, RegFile, RegFormat,
};
use crate::number::{dec_of, push_dec, to_dec};
use crate::state_reader::{keys_at, read_keys};
use crate::sha256::{hash_hex, hash_of};
use crate::text::{
    concat, concat3, debug_text, same_str, text_result, to_debug, unit_result, views, views_push,
};
use crate::writer::{file_doc, file_json, files_are_sound, to_json};

verus! {

/// The version of the artifact's schema.
pub const SCHEMA_VERSION: u64 = 1;

/// A registry view.
#[derive(Clone, Copy, Debug, PartialEq, Eq, Structural)]
pub enum RegistryView {
    Native,
    Bits32,
    Bits64,
}

/// The label of a view.
pub open spec fn label_of_view(view: RegistryView) -> Seq<char> {
    match view {
        RegistryView::Native => "native"@,
        RegistryView::Bits32 => "32"@,
        RegistryView::Bits64 => "64"@,
    }
}

/// The place of a view in their order.
pub open spec fn rank_of_view(view: RegistryView) -> int {
    match view {
        RegistryView::Native => 0,
        RegistryView::Bits32 => 1,
        RegistryView::Bits64 => 2,
    }
}

/// The view that a label names.
pub open spec fn view_labelled(label: Seq<char>) -> Option<RegistryView> {
    if label == "native"@ {
        Some(RegistryView::Native)
    } else if label == "32"@ {
        Some(RegistryView::Bits32)
    } else if label == "64"@ {
        Some(RegistryView::Bits64)
    } else {
        None
    }
}

impl RegistryView {
    /// The label.
    pub fn label(self) -> (r: &'static str)
        ensures
            r@ == label_of_view(self),
    {
        match self {
            RegistryView::Native => "native",
            RegistryView::Bits32 => "32",
            RegistryView::Bits64 => "64",
        }
    }

    /// The place in the order.
    pub fn rank(self) -> (r: u8)
        ensures
            r == rank_of_view(self),
    {
        match self {
            RegistryView::Native => 0,
            RegistryView::Bits32 => 1,
            RegistryView::Bits64 => 2,
        }
    }

    /// The view that a label names.
    pub fn from_label(label: &str) -> (r: Option<RegistryView>)
        ensures
            r == view_labelled(label@),
    {
        if same_str(label, "native") {
            Some(RegistryView::Native)
        } else if same_str(label, "32") {
            Some(RegistryView::Bits32)
        } else if same_str(label, "64") {
            Some(RegistryView::Bits64)
        } else {
            None
        }
    }
}

/// A view is read back from its label.
pub proof fn views_read_back(view: RegistryView)
    ensures
        view_labelled(label_of_view(view)) == Some(view),
{
    reveal_strlit("native");
    reveal_strlit("32");
    reveal_strlit("64");
    assert("native"@.len() == 6 && "32"@.len() == 2 && "64"@.len() == 2);
    assert("32"@[0] == '3' && "64"@[0] == '6');
}

/// The state of one registry view in a plan.
#[derive(Debug)]
pub struct SavedView {
    pub label: String,
    pub view: RegistryView,
    pub desired: RegFile,
    pub current_digest: String,
}

/// What a `SavedView` stands for.
pub struct SavedState {
    pub label: Seq<char>,
    pub view: RegistryView,
    pub desired: FileView,
    pub current_digest: Seq<char>,
}

impl View for SavedView {
    type V = SavedState;

    open spec fn view(&self) -> SavedState {
        SavedState {
            label: self.label@,
            view: self.view,
            desired: self.desired@,
            current_digest: self.current_digest@,
        }
    }
}

/// A source file and the digest of its bytes.
#[derive(Debug)]
pub struct Source {
    pub path: String,
    pub sha256: String,
}

/// What a `Source` stands for.
pub struct SourceView {
    pub path: Seq<char>,
    pub sha256: Seq<char>,
}

impl View for Source {
    type V = SourceView;

    open spec fn view(&self) -> SourceView {
        SourceView { path: self.path@, sha256: self.sha256@ }
    }
}

/// A plan that was read and verified.
#[derive(Debug)]
pub struct Artifact {
    pub sources: Vec<Source>,
    pub views: Vec<SavedView>,
}

/// What an `Artifact` stands for.
pub struct ArtifactView {
    pub sources: Seq<SourceView>,
    pub views: Seq<SavedState>,
}

impl View for Artifact {
    type V = ArtifactView;

    open spec fn view(&self) -> ArtifactView {
        ArtifactView { sources: views(self.sources@), views: views(self.views@) }
    }
}

// ---------------------------------------------------------------------------
// Digests
// ---------------------------------------------------------------------------

/// The digest of a file's state.
pub open spec fn digest_of_file(f: FileView) -> Seq<char> {
    hash_of(vstd::utf8::encode_utf8(file_json(f)))
}

/// The digest of a file's state. It depends on the keys alone.
pub fn file_digest(file: &RegFile) -> (r: String)
    ensures
        r@ == digest_of_file(file@),
{
    let text = to_json(file);
    hash_hex(text.as_str().as_bytes())
}

/// What is needed to undo a change.
#[derive(Debug)]
pub struct Snapshot {
    pub file: RegFile,
    pub new_keys: Vec<String>,
    pub restored_values: usize,
    /// Targets that could not be read, and why.
    pub unreadable: Vec<(String, String)>,
}

impl Snapshot {
    /// Whether everything could be read.
    pub fn is_complete(&self) -> (b: bool)
        ensures
            b == (self.unreadable@.len() == 0),
    {
        self.unreadable.len() == 0
    }
}

/// The digest of the state that a snapshot restores.
pub fn snapshot_digest(snapshot: &Snapshot) -> (r: String)
    ensures
        r@ == digest_of_file(snapshot.file@),
{
    file_digest(&snapshot.file)
}

/// The digest of a file depends on its keys alone.
pub proof fn digests_depend_on_the_keys(a: FileView, b: FileView)
    requires
        a.keys == b.keys,
    ensures
        digest_of_file(a) == digest_of_file(b),
{
}

// ---------------------------------------------------------------------------
// Reading
// ---------------------------------------------------------------------------

/// The words for a field that is missing.
pub open spec fn missing_field(name: Seq<char>) -> Seq<char> {
    "saved plan is missing string field "@ + debug_text(name)
}

/// The text of a field, which has to be there.
pub open spec fn field_at(bytes: Seq<u8>, prefix: Seq<char>, name: Seq<char>) -> Result<
    Seq<char>,
    Seq<char>,
> {
    match json_text_at(bytes, prefix + "/"@ + name) {
        Some(text) => Ok(text),
        None => Err(missing_field(name)),
    }
}

fn string_field(bytes: &[u8], prefix: &str, name: &str) -> (r: Result<String, String>)
    ensures
        text_result(r) == field_at(bytes@, prefix@, name@),
{
    match text_at(bytes, concat3(prefix, "/", name).as_str()) {
        Some(text) => Ok(text),
        None => Err(concat("saved plan is missing string field ", to_debug(name).as_str())),
    }
}

/// The place of an element of an array.
pub open spec fn element(array: Seq<char>, i: nat) -> Seq<char> {
    array + "/"@ + dec_of(i)
}

fn element_at(array: &str, i: usize) -> (r: String)
    ensures
        r@ == element(array@, i as nat),
{
    let mut out = concat(array, "/");
    push_dec(&mut out, i as u64);
    out
}

/// The envelope of a plan is in order: its schema and version are known, and
/// its payload has the digest that it was saved with.
pub open spec fn envelope(bytes: Seq<u8>) -> Result<(), Seq<char>> {
    let schema = field_at(bytes, Seq::empty(), "schema"@);
    let version = json_number_at(bytes, "/schemaVersion"@);
    let payload = json_part_at(bytes, "/payload"@);
    let expected = field_at(bytes, Seq::empty(), "payloadSha256"@);
    if json_problem(bytes) is Some {
        Err("invalid saved-plan JSON: "@ + json_problem(bytes)->0)
    } else if schema is Err {
        Err(schema->Err_0)
    } else if schema->Ok_0 != "https://winregistry.org/schemas/saved-plan-v1.json"@ {
        Err("saved plan names an unknown schema"@)
    } else if version is None {
        Err("saved plan is missing an integer schemaVersion"@)
    } else if version->0 != SCHEMA_VERSION {
        Err(
            "unsupported saved-plan schemaVersion "@ + dec_of((version->0) as nat)
                + "; expected 1"@,
        )
    } else if payload is None {
        Err("saved plan is missing payload"@)
    } else if expected is Err {
        Err(expected->Err_0)
    } else if hash_of(payload->0) != expected->Ok_0 {
        Err(
            "saved-plan payload digest mismatch (expected "@ + expected->Ok_0 + ", found "@
                + hash_of(payload->0) + ")"@,
        )
    } else {
        Ok(())
    }
}

fn check_envelope(bytes: &[u8]) -> (r: Result<(), String>)
    ensures
        unit_result(r) == envelope(bytes@),
{
    if let Some(e) = problem(bytes) {
        return Err(concat("invalid saved-plan JSON: ", e.as_str()));
    }
    proof {
        reveal_strlit("");
        assert(""@ =~= Seq::<char>::empty());
    }
    let schema = match string_field(bytes, "", "schema") {
        Ok(s) => s,
        Err(e) => {
            return Err(e);
        },
    };
    if !same_str(schema.as_str(), "https://winregistry.org/schemas/saved-plan-v1.json") {
        return Err("saved plan names an unknown schema".to_owned());
    }
    let version = match number_at(bytes, "/schemaVersion") {
        Some(v) => v,
        None => {
            return Err("saved plan is missing an integer schemaVersion".to_owned());
        },
    };
    if version != SCHEMA_VERSION {
        let mut message = "unsupported saved-plan schemaVersion ".to_owned();
        push_dec(&mut message, version);
        message.append("; expected 1");
        return Err(message);
    }
    let payload = match part_at(bytes, "/payload") {
        Some(b) => b,
        None => {
            return Err("saved plan is missing payload".to_owned());
        },
    };
    let expected = match string_field(bytes, "", "payloadSha256") {
        Ok(s) => s,
        Err(e) => {
            return Err(e);
        },
    };
    let actual = hash_hex(payload.as_slice());
    if !same_str(actual.as_str(), expected.as_str()) {
        let mut message = concat3(
            "saved-plan payload digest mismatch (expected ",
            expected.as_str(),
            ", found ",
        );
        message.append(actual.as_str());
        message.append(")");
        return Err(message);
    }
    Ok(())
}

/// The sources from `i` on, behind those already read.
pub open spec fn sources_from(
    bytes: Seq<u8>,
    done: Seq<SourceView>,
    i: nat,
    count: nat,
) -> Result<Seq<SourceView>, Seq<char>>
    decreases count - i,
{
    let place = element("/payload/sources"@, i);
    if i >= count {
        Ok(done)
    } else {
        match field_at(bytes, place, "path"@) {
            Err(e) => Err(e),
            Ok(path) => match field_at(bytes, place, "sha256"@) {
                Err(e) => Err(e),
                Ok(sha256) => sources_from(
                    bytes,
                    done.push(SourceView { path, sha256 }),
                    i + 1,
                    count,
                ),
            },
        }
    }
}

/// The sources of a plan.
pub open spec fn plan_sources(bytes: Seq<u8>) -> Result<Seq<SourceView>, Seq<char>> {
    match json_count_at(bytes, "/payload/sources"@) {
        None => Err("saved-plan payload is missing sources"@),
        Some(n) => if n == 0 {
            Err("saved plan contains no source files"@)
        } else {
            sources_from(bytes, Seq::empty(), 0, n)
        },
    }
}

fn read_sources(bytes: &[u8]) -> (r: Result<Vec<Source>, String>)
    ensures
        match r {
            Ok(s) => plan_sources(bytes@) == Ok::<Seq<SourceView>, Seq<char>>(views(s@)),
            Err(e) => plan_sources(bytes@) == Err::<Seq<SourceView>, Seq<char>>(e@),
        },
{
    broadcast use views_push;

    let count = match count_at(bytes, "/payload/sources") {
        Some(n) => n,
        None => {
            return Err("saved-plan payload is missing sources".to_owned());
        },
    };
    if count == 0 {
        return Err("saved plan contains no source files".to_owned());
    }
    let mut out: Vec<Source> = Vec::new();
    assert(views(out@) =~= Seq::<SourceView>::empty());
    for i in 0..count
        invariant
            plan_sources(bytes@) == sources_from(bytes@, views(out@), i as nat, count as nat),
    {
        let place = element_at("/payload/sources", i);
        let path = match string_field(bytes, place.as_str(), "path") {
            Ok(s) => s,
            Err(e) => {
                return Err(e);
            },
        };
        let sha256 = match string_field(bytes, place.as_str(), "sha256") {
            Ok(s) => s,
            Err(e) => {
                return Err(e);
            },
        };
        let source = Source { path, sha256 };
        let ghost before = out@;
        out.push(source);
        assert(views(out@) == views(before).push(source@));
    }
    Ok(out)
}

/// The file of a desired state.
pub open spec fn desired_file(keys: Seq<BlockView>) -> FileView {
    FileView { format: RegFormat::V5, encoding: SourceEncoding::Utf16Le, keys }
}

/// The keys that were read for one view, or why they could not be.
pub open spec fn keys_view(r: Result<Vec<KeyBlock>, String>) -> Result<
    Seq<BlockView>,
    Seq<char>,
> {
    match r {
        Ok(keys) => Ok(views(keys@)),
        Err(e) => Err(e@),
    }
}

/// One view of a plan, its desired keys being `desired`.
pub open spec fn plan_view(
    bytes: Seq<u8>,
    i: nat,
    desired: Option<Result<Seq<BlockView>, Seq<char>>>,
) -> Result<SavedState, Seq<char>> {
    let place = element("/payload/views"@, i);
    match field_at(bytes, place, "view"@) {
        Err(e) => Err(e),
        Ok(label) => match view_labelled(label) {
            None => Err("saved plan has unknown registry view "@ + debug_text(label)),
            Some(view) => match desired {
                None => Err("view "@ + label + " is missing desired state"@),
                Some(Err(e)) => Err("invalid desired state for view "@ + label + ": "@ + e),
                Some(Ok(keys)) => {
                    let file = desired_file(keys);
                    match field_at(bytes, place, "desiredDigest"@) {
                        Err(e) => Err(e),
                        Ok(digest) => if digest_of_file(file) != digest {
                            Err(
                                "view "@ + label + " desired-state digest mismatch (expected "@
                                    + digest + ", found "@ + digest_of_file(file) + ")"@,
                            )
                        } else {
                            match field_at(bytes, place, "currentDigest"@) {
                                Err(e) => Err(e),
                                Ok(current_digest) => Ok(
                                    SavedState { label, view, desired: file, current_digest },
                                ),
                            }
                        },
                    }
                },
            },
        },
    }
}

/// What was read for a view, where the document has its desired state and it
/// was read at all.
pub open spec fn desired_of(
    bytes: Seq<u8>,
    i: nat,
    desired: Seq<Result<Seq<BlockView>, Seq<char>>>,
) -> Option<Result<Seq<BlockView>, Seq<char>>> {
    if json_part_at(bytes, element("/payload/views"@, i) + "/desired"@) is None || i
        >= desired.len() {
        None
    } else {
        Some(desired[i as int])
    }
}

/// The views from `i` on, behind those already read.
pub open spec fn views_from(
    bytes: Seq<u8>,
    desired: Seq<Result<Seq<BlockView>, Seq<char>>>,
    done: Seq<SavedState>,
    i: nat,
    count: nat,
) -> Result<Seq<SavedState>, Seq<char>>
    decreases count - i,
{
    if i >= count {
        Ok(done)
    } else {
        match plan_view(bytes, i, desired_of(bytes, i, desired)) {
            Err(e) => Err(e),
            Ok(v) => views_from(bytes, desired, done.push(v), i + 1, count),
        }
    }
}

/// At most two views in their order.
pub open spec fn in_order(vs: Seq<SavedState>) -> Seq<SavedState> {
    if vs.len() == 2 && rank_of_view(vs[1].view) < rank_of_view(vs[0].view) {
        seq![vs[1], vs[0]]
    } else {
        vs
    }
}

/// The views of a plan, which are all native or the two explicit ones.
pub open spec fn plan_views(
    bytes: Seq<u8>,
    desired: Seq<Result<Seq<BlockView>, Seq<char>>>,
) -> Result<Seq<SavedState>, Seq<char>> {
    match json_count_at(bytes, "/payload/views"@) {
        None => Err("saved-plan payload is missing views"@),
        Some(n) => if n == 0 {
            Err("saved plan contains no registry views"@)
        } else if n > 2 {
            Err("saved plan contains more than two registry views"@)
        } else {
            match views_from(bytes, desired, Seq::empty(), 0, n) {
                Err(e) => Err(e),
                Ok(vs) => {
                    let sorted = in_order(vs);
                    if sorted.len() == 2 && sorted[0].label == sorted[1].label {
                        Err("saved plan contains a duplicate registry view"@)
                    } else if sorted.len() == 2 && (sorted[0].view == RegistryView::Native
                        || sorted[1].view == RegistryView::Native) {
                        Err("saved plan cannot combine native with explicit registry views"@)
                    } else {
                        Ok(sorted)
                    }
                },
            }
        },
    }
}

/// The plan that a document holds.
pub open spec fn plan_of(
    bytes: Seq<u8>,
    desired: Seq<Result<Seq<BlockView>, Seq<char>>>,
) -> Result<ArtifactView, Seq<char>> {
    match envelope(bytes) {
        Err(e) => Err(e),
        Ok(_) => match plan_sources(bytes) {
            Err(e) => Err(e),
            Ok(sources) => match plan_views(bytes, desired) {
                Err(e) => Err(e),
                Ok(vs) => Ok(ArtifactView { sources, views: vs }),
            },
        },
    }
}

fn read_view(
    bytes: &[u8],
    i: usize,
    desired: Option<&Result<Vec<KeyBlock>, String>>,
) -> (r: Result<SavedView, String>)
    ensures
        ({
            let d = match desired {
                Some(k) => Some(keys_view(*k)),
                None => None,
            };
            match r {
                Ok(v) => plan_view(bytes@, i as nat, d) == Ok::<SavedState, Seq<char>>(v@),
                Err(e) => plan_view(bytes@, i as nat, d) == Err::<SavedState, Seq<char>>(e@),
            }
        }),
{
    let place = element_at("/payload/views", i);
    let label = match string_field(bytes, place.as_str(), "view") {
        Ok(s) => s,
        Err(e) => {
            return Err(e);
        },
    };
    let view = match RegistryView::from_label(label.as_str()) {
        Some(v) => v,
        None => {
            return Err(
                concat(
                    "saved plan has unknown registry view ",
                    to_debug(label.as_str()).as_str(),
                ),
            );
        },
    };
    let keys = match desired {
        None => {
            return Err(concat3("view ", label.as_str(), " is missing desired state"));
        },
        Some(Err(e)) => {
            let mut message = concat3("invalid desired state for view ", label.as_str(), ": ");
            message.append(e.as_str());
            return Err(message);
        },
        Some(Ok(keys)) => copy_blocks(keys.as_slice()),
    };
    let file = RegFile { format: RegFormat::V5, encoding: SourceEncoding::Utf16Le, keys };
    let digest = match string_field(bytes, place.as_str(), "desiredDigest") {
        Ok(s) => s,
        Err(e) => {
            return Err(e);
        },
    };
    let actual = file_digest(&file);
    if !same_str(actual.as_str(), digest.as_str()) {
        let mut message = concat3(
            "view ",
            label.as_str(),
            " desired-state digest mismatch (expected ",
        );
        message.append(digest.as_str());
        message.append(", found ");
        message.append(actual.as_str());
        message.append(")");
        return Err(message);
    }
    match string_field(bytes, place.as_str(), "currentDigest") {
        Ok(current_digest) => Ok(SavedView { label, view, desired: file, current_digest }),
        Err(e) => Err(e),
    }
}

/// What is read of the desired state of each view of a plan.
pub open spec fn desired_states(bytes: Seq<u8>) -> Seq<Result<Seq<BlockView>, Seq<char>>> {
    let count = match json_count_at(bytes, "/payload/views"@) {
        Some(n) => n,
        None => 0,
    };
    Seq::new(count, |i: int| keys_at(bytes, element("/payload/views"@, i as nat) + "/desired"@))
}

fn read_desired(bytes: &[u8]) -> (out: Vec<Result<Vec<KeyBlock>, String>>)
    ensures
        out@.map_values(|k: Result<Vec<KeyBlock>, String>| keys_view(k)) == desired_states(bytes@),
{
    let count = match count_at(bytes, "/payload/views") {
        Some(n) => n,
        None => 0,
    };
    let mut out: Vec<Result<Vec<KeyBlock>, String>> = Vec::new();
    for i in 0..count
        invariant
            out@.len() == i,
            forall|j: int|
                0 <= j < i ==> keys_view(#[trigger] out@[j]) == keys_at(
                    bytes@,
                    element("/payload/views"@, j as nat) + "/desired"@,
                ),
    {
        let place = concat(element_at("/payload/views", i).as_str(), "/desired");
        out.push(read_keys(bytes, place.as_str()));
    }
    assert(out@.map_values(|k: Result<Vec<KeyBlock>, String>| keys_view(k)) =~= desired_states(
        bytes@,
    ));
    out
}

/// Reads and verifies a plan.
pub fn load(bytes: &[u8]) -> (r: Result<Artifact, String>)
    ensures
        match r {
            Ok(a) => plan_of(bytes@, desired_states(bytes@)) == Ok::<ArtifactView, Seq<char>>(a@),
            Err(e) => plan_of(bytes@, desired_states(bytes@)) == Err::<ArtifactView, Seq<char>>(e@),
        },
{
    let desired = read_desired(bytes);
    load_with(bytes, &desired)
}

/// Verifies a plan. `desired` holds, for each view, the keys that were read from
/// its desired state.
pub fn load_with(bytes: &[u8], desired: &Vec<Result<Vec<KeyBlock>, String>>) -> (r: Result<
    Artifact,
    String,
>)
    ensures
        ({
            let d = desired@.map_values(|k: Result<Vec<KeyBlock>, String>| keys_view(k));
            match r {
                Ok(a) => plan_of(bytes@, d) == Ok::<ArtifactView, Seq<char>>(a@),
                Err(e) => plan_of(bytes@, d) == Err::<ArtifactView, Seq<char>>(e@),
            }
        }),
{
    broadcast use views_push;

    let ghost d = desired@.map_values(|k: Result<Vec<KeyBlock>, String>| keys_view(k));
    match check_envelope(bytes) {
        Ok(_) => {},
        Err(e) => {
            return Err(e);
        },
    }
    let sources = match read_sources(bytes) {
        Ok(s) => s,
        Err(e) => {
            return Err(e);
        },
    };
    let count = match count_at(bytes, "/payload/views") {
        Some(n) => n,
        None => {
            return Err("saved-plan payload is missing views".to_owned());
        },
    };
    if count == 0 {
        return Err("saved plan contains no registry views".to_owned());
    }
    if count > 2 {
        return Err("saved plan contains more than two registry views".to_owned());
    }
    let mut vs: Vec<SavedView> = Vec::new();
    assert(views(vs@) =~= Seq::<SavedState>::empty());
    for i in 0..count
        invariant
            d == desired@.map_values(|k: Result<Vec<KeyBlock>, String>| keys_view(k)),
            vs@.len() == i,
            count <= 2,
            views_from(bytes@, d, Seq::empty(), 0, count as nat) == views_from(
                bytes@,
                d,
                views(vs@),
                i as nat,
                count as nat,
            ),
            envelope(bytes@) is Ok,
            plan_sources(bytes@) == Ok::<Seq<SourceView>, Seq<char>>(views(sources@)),
            json_count_at(bytes@, "/payload/views"@) == Some(count as nat),
            0 < count,
    {
        let place = concat(element_at("/payload/views", i).as_str(), "/desired");
        let keys = if i < desired.len() && part_at(bytes, place.as_str()).is_some() {
            Some(&desired[i])
        } else {
            None
        };
        match read_view(bytes, i, keys) {
            Ok(v) => {
                let ghost before = vs@;
                vs.push(v);
                assert(views(vs@) == views(before).push(v@));
            },
            Err(e) => {
                return Err(e);
            },
        }
    }
    let ghost read = views(vs@);
    if vs.len() == 2 && vs[1].view.rank() < vs[0].view.rank() {
        let first = vs.remove(0);
        let ghost rest = vs@;
        vs.push(first);
        assert(views(vs@) == views(rest).push(first@));
        assert(views(vs@) =~= seq![read[1], read[0]]);
    }
    assert(views(vs@) =~= in_order(read));
    proof {
        if vs@.len() == 2 {
            assert(views(vs@)[0] == vs@[0]@ && views(vs@)[1] == vs@[1]@);
        }
    }
    if vs.len() == 2 && same_str(vs[0].label.as_str(), vs[1].label.as_str()) {
        return Err("saved plan contains a duplicate registry view".to_owned());
    }
    if vs.len() == 2 && (vs[0].view == RegistryView::Native || vs[1].view == RegistryView::Native) {
        return Err("saved plan cannot combine native with explicit registry views".to_owned());
    }
    Ok(Artifact { sources, views: vs })
}

// ---------------------------------------------------------------------------
// Verification of the sources
// ---------------------------------------------------------------------------

/// The verdict on the sources from `i` on.
pub open spec fn sources_changed(
    sources: Seq<SourceView>,
    now: Seq<Result<Vec<u8>, String>>,
    i: int,
) -> Result<(), Seq<char>>
    decreases sources.len() - i,
{
    if i >= sources.len() {
        Ok(())
    } else {
        match now[i] {
            Err(e) => Err("cannot re-read source "@ + sources[i].path + ": "@ + e@),
            Ok(bytes) => if hash_of(bytes@) != sources[i].sha256 {
                Err(
                    "source "@ + sources[i].path + " changed after planning (expected "@
                        + sources[i].sha256 + ", found "@ + hash_of(bytes@) + ")"@,
                )
            } else {
                sources_changed(sources, now, i + 1)
            },
        }
    }
}

/// Checks that the sources still have the bytes they were planned with. `now`
/// holds what each of them reads as.
pub fn verify_sources(artifact: &Artifact, now: &Vec<Result<Vec<u8>, String>>) -> (r: Result<
    (),
    String,
>)
    requires
        now@.len() == artifact.sources@.len(),
    ensures
        unit_result(r) == sources_changed(artifact@.sources, now@, 0),
{
    let ghost all = artifact@.sources;
    for i in 0..artifact.sources.len()
        invariant
            all == views(artifact.sources@),
            now@.len() == artifact.sources@.len(),
            sources_changed(all, now@, 0) == sources_changed(all, now@, i as int),
    {
        let source = &artifact.sources[i];
        assert(all[i as int] == source@);
        match &now[i] {
            Err(e) => {
                let mut message = concat3("cannot re-read source ", source.path.as_str(), ": ");
                message.append(e.as_str());
                return Err(message);
            },
            Ok(bytes) => {
                let actual = hash_hex(bytes.as_slice());
                if !same_str(actual.as_str(), source.sha256.as_str()) {
                    let mut message = concat3(
                        "source ",
                        source.path.as_str(),
                        " changed after planning (expected ",
                    );
                    message.append(source.sha256.as_str());
                    message.append(", found ");
                    message.append(actual.as_str());
                    message.append(")");
                    return Err(message);
                }
            },
        }
    }
    Ok(())
}

// ---------------------------------------------------------------------------
// Writing
// ---------------------------------------------------------------------------

/// A source file as it was found.
pub struct PlanSource {
    pub name: String,
    /// Standard input or a pipe, which cannot be read again.
    pub stream: bool,
    /// Its full path, or why there is none.
    pub canonical: Result<String, String>,
    /// Its bytes, or why they cannot be read.
    pub bytes: Result<Vec<u8>, String>,
}

/// A view with the state that is wanted and the state that is there.
pub struct PlanState {
    pub label: String,
    pub desired: RegFile,
    pub current: Snapshot,
}

/// The fields of a source.
pub open spec fn source_fields(path: Seq<char>, sha256: Seq<char>) -> Seq<(Seq<char>, Doc)> {
    seq![("path"@, Doc::Text(path)), ("sha256"@, Doc::Text(sha256))]
}

/// The sources of a plan as documents, or the first that cannot be used.
pub open spec fn source_docs(sources: Seq<PlanSource>, done: Seq<Doc>, i: int) -> Result<
    Seq<Doc>,
    Seq<char>,
>
    decreases sources.len() - i,
{
    if i >= sources.len() {
        Ok(done)
    } else {
        let s = sources[i];
        match (s.canonical, s.bytes) {
            (Err(e), _) => Err("cannot resolve source "@ + s.name@ + ": "@ + e@),
            (Ok(path), Err(e)) => Err("cannot read source "@ + path@ + ": "@ + e@),
            (Ok(path), Ok(bytes)) => source_docs(
                sources,
                done.push(Doc::Fields(source_fields(path@, hash_of(bytes@)))),
                i + 1,
            ),
        }
    }
}

/// The fields of a view.
pub open spec fn state_fields(s: PlanState) -> Seq<(Seq<char>, Doc)> {
    seq![
        ("view"@, Doc::Text(s.label@)),
        ("desiredDigest"@, Doc::Text(digest_of_file(s.desired@))),
        ("currentDigest"@, Doc::Text(digest_of_file(s.current.file@))),
        ("desired"@, file_doc(s.desired@)),
    ]
}

/// The views of a plan as documents, or the first whose state is incomplete.
pub open spec fn state_docs(states: Seq<PlanState>, done: Seq<Doc>, i: int) -> Result<
    Seq<Doc>,
    Seq<char>,
>
    decreases states.len() - i,
{
    if i >= states.len() {
        Ok(done)
    } else {
        let s = states[i];
        if s.current.unreadable@.len() != 0 {
            Err("view "@ + s.label@ + " has an incomplete current-state snapshot"@)
        } else {
            state_docs(states, done.push(Doc::Fields(state_fields(s))), i + 1)
        }
    }
}

/// The fields of the payload of a plan.
pub open spec fn payload_fields(
    tool: Seq<char>,
    version: Seq<char>,
    prune: bool,
    prune_keys: bool,
    sources: Seq<Doc>,
    states: Seq<Doc>,
) -> Seq<(Seq<char>, Doc)> {
    seq![
        ("tool"@, Doc::Text(tool)),
        ("toolVersion"@, Doc::Text(version)),
        ("prune"@, Doc::Flag(prune)),
        ("pruneKeys"@, Doc::Flag(prune_keys)),
        ("sources"@, Doc::List(sources)),
        ("views"@, Doc::List(states)),
    ]
}

/// The fields of the document of a payload.
pub open spec fn envelope_fields(digest: Seq<char>, payload: Doc) -> Seq<(Seq<char>, Doc)> {
    seq![
        ("schema"@, Doc::Text("https://winregistry.org/schemas/saved-plan-v1.json"@)),
        ("schemaVersion"@, Doc::Number(1)),
        ("payloadSha256"@, Doc::Text(digest)),
        ("payload"@, payload),
    ]
}

/// The text of the document of a payload.
pub open spec fn envelope_text(digest: Seq<char>, payload: Seq<char>) -> Seq<char> {
    object_text(
        seq![
            field_text(
                "schema"@,
                json_string("https://winregistry.org/schemas/saved-plan-v1.json"@),
            ),
            field_text("schemaVersion"@, dec_of(1)),
            field_text("payloadSha256"@, json_string(digest)),
            field_text("payload"@, payload),
        ],
    )
}

/// The document of a payload: its digest is taken of its compact form.
pub open spec fn sealed(payload: Seq<char>) -> Result<Seq<u8>, Seq<char>> {
    match json_compact(payload) {
        Err(e) => Err("cannot encode saved-plan payload: "@ + e),
        Ok(bytes) => match json_pretty(envelope_text(hash_of(bytes), payload)) {
            Err(e) => Err("cannot encode saved plan: "@ + e),
            Ok(document) => Ok(document.push(10u8)),
        },
    }
}

/// The document of a plan, or why none is written.
pub open spec fn saved(
    destination: Seq<char>,
    taken: bool,
    sources: Seq<PlanSource>,
    prune: bool,
    prune_keys: bool,
    states: Seq<PlanState>,
    tool: Seq<char>,
    version: Seq<char>,
) -> Result<Seq<u8>, Seq<char>> {
    if taken {
        Err(destination + " already exists; refusing to overwrite a saved plan"@)
    } else if exists|i: int| 0 <= i < sources.len() && (#[trigger] sources[i]).stream {
        Err("a saved plan requires regular source files; stream input cannot be re-verified"@)
    } else {
        match source_docs(sources, Seq::empty(), 0) {
            Err(e) => Err(e),
            Ok(from) => match state_docs(states, Seq::empty(), 0) {
                Err(e) => Err(e),
                Ok(to) => sealed(
                    doc_text(
                        Doc::Fields(payload_fields(tool, version, prune, prune_keys, from, to)),
                    ),
                ),
            },
        }
    }
}

/// The payload that a plan is saved with.
pub open spec fn plan_payload(
    sources: Seq<PlanSource>,
    prune: bool,
    prune_keys: bool,
    states: Seq<PlanState>,
    tool: Seq<char>,
    version: Seq<char>,
) -> Doc {
    Doc::Fields(
        payload_fields(
            tool,
            version,
            prune,
            prune_keys,
            source_docs(sources, Seq::empty(), 0)->Ok_0,
            state_docs(states, Seq::empty(), 0)->Ok_0,
        ),
    )
}

/// The document that a payload is saved in.
pub open spec fn plan_document(payload: Doc) -> Doc {
    Doc::Fields(envelope_fields(hash_of(json_compact(doc_text(payload))->Ok_0), payload))
}

/// The texts of documents, or the words of an error.
pub open spec fn texts_of(r: Result<Seq<Doc>, Seq<char>>) -> Result<Seq<Seq<char>>, Seq<char>> {
    match r {
        Ok(docs) => Ok(doc_texts(docs)),
        Err(e) => Err(e),
    }
}

/// Texts, or the words of an error.
pub open spec fn texts_result(r: Result<Vec<String>, String>) -> Result<
    Seq<Seq<char>>,
    Seq<char>,
> {
    match r {
        Ok(v) => Ok(views(v@)),
        Err(e) => Err(e@),
    }
}

fn render_source(path: &str, bytes: &[u8]) -> (out: String)
    ensures
        out@ == doc_text(Doc::Fields(source_fields(path@, hash_of(bytes@)))),
{
    let fields = vec![
        field("path", jstr(path).as_str()),
        field("sha256", jstr(hash_hex(bytes).as_str()).as_str()),
    ];
    proof {
        let fs = source_fields(path@, hash_of(bytes@));
        fields_text(fs);
        assert(views(fields@) =~= field_texts(fs));
    }
    object(fields.as_slice())
}

fn render_sources(sources: &Vec<PlanSource>) -> (r: Result<Vec<String>, String>)
    ensures
        texts_result(r) == texts_of(source_docs(sources@, Seq::empty(), 0)),
{
    broadcast use views_push;

    let mut out: Vec<String> = Vec::new();
    let ghost mut done: Seq<Doc> = Seq::empty();
    for i in 0..sources.len()
        invariant
            views(out@) =~= doc_texts(done),
            source_docs(sources@, Seq::empty(), 0) == source_docs(sources@, done, i as int),
    {
        let s = &sources[i];
        match (&s.canonical, &s.bytes) {
            (Err(e), _) => {
                let mut message = concat3("cannot resolve source ", s.name.as_str(), ": ");
                message.append(e.as_str());
                return Err(message);
            },
            (Ok(path), Err(e)) => {
                let mut message = concat3("cannot read source ", path.as_str(), ": ");
                message.append(e.as_str());
                return Err(message);
            },
            (Ok(path), Ok(bytes)) => {
                let one = render_source(path.as_str(), bytes.as_slice());
                let ghost before = out@;
                out.push(one);
                proof {
                    assert(views(out@) == views(before).push(one@));
                    done = done.push(Doc::Fields(source_fields(path@, hash_of(bytes@))));
                }
            },
        }
    }
    Ok(out)
}

fn render_state(s: &PlanState) -> (out: String)
    ensures
        out@ == doc_text(Doc::Fields(state_fields(*s))),
{
    let fields = vec![
        field("view", jstr(s.label.as_str()).as_str()),
        field("desiredDigest", jstr(file_digest(&s.desired).as_str()).as_str()),
        field("currentDigest", jstr(snapshot_digest(&s.current).as_str()).as_str()),
        field("desired", to_json(&s.desired).as_str()),
    ];
    proof {
        fields_text(state_fields(*s));
        assert(views(fields@) =~= field_texts(state_fields(*s)));
    }
    object(fields.as_slice())
}

fn render_states(states: &Vec<PlanState>) -> (r: Result<Vec<String>, String>)
    ensures
        texts_result(r) == texts_of(state_docs(states@, Seq::empty(), 0)),
{
    broadcast use views_push;

    let mut out: Vec<String> = Vec::new();
    let ghost mut done: Seq<Doc> = Seq::empty();
    for i in 0..states.len()
        invariant
            views(out@) =~= doc_texts(done),
            state_docs(states@, Seq::empty(), 0) == state_docs(states@, done, i as int),
    {
        let s = &states[i];
        if !s.current.is_complete() {
            return Err(
                concat3(
                    "view ",
                    s.label.as_str(),
                    " has an incomplete current-state snapshot",
                ),
            );
        }
        let one = render_state(s);
        let ghost before = out@;
        out.push(one);
        proof {
            assert(views(out@) == views(before).push(one@));
            done = done.push(Doc::Fields(state_fields(*s)));
        }
    }
    Ok(out)
}

/// Bytes, or the words of an error.
pub open spec fn bytes_result(r: Result<Vec<u8>, String>) -> Result<Seq<u8>, Seq<char>> {
    match r {
        Ok(b) => Ok(b@),
        Err(e) => Err(e@),
    }
}

/// Seals a payload. The text of a sound payload is always sealed, and what is
/// sealed reads as the document of that payload.
pub fn seal(payload: &str) -> (r: Result<Vec<u8>, String>)
    ensures
        bytes_result(r) == sealed(payload@),
        forall|d: Doc|
            payload@ == #[trigger] doc_text(d) && sound(d, (nesting() - 1) as nat) ==> r is Ok
                && reads_as((r->Ok_0)@, plan_document(d)),
{
    proof {
        assert forall|d: Doc| sound(d, (nesting() - 1) as nat) implies sound(d, nesting()) by {
            sound_deeper(d, (nesting() - 1) as nat, nesting());
        }
    }
    let bytes = match compact(payload) {
        Ok(b) => b,
        Err(e) => {
            return Err(concat("cannot encode saved-plan payload: ", e.as_str()));
        },
    };
    let digest = hash_hex(bytes.as_slice());
    let fields = vec![
        field(
            "schema",
            jstr("https://winregistry.org/schemas/saved-plan-v1.json").as_str(),
        ),
        field("schemaVersion", to_dec(1).as_str()),
        field("payloadSha256", jstr(digest.as_str()).as_str()),
        field("payload", payload),
    ];
    let text = object(fields.as_slice());
    proof {
        assert(views(fields@) =~= seq![
            field_text(
                "schema"@,
                json_string("https://winregistry.org/schemas/saved-plan-v1.json"@),
            ),
            field_text("schemaVersion"@, dec_of(1)),
            field_text("payloadSha256"@, json_string(digest@)),
            field_text("payload"@, payload@),
        ]);
        assert(text@ == envelope_text(digest@, payload@));
        assert forall|d: Doc|
            payload@ == #[trigger] doc_text(d) && sound(d, (nesting() - 1) as nat) implies text@
            == doc_text(plan_document(d)) && sound(plan_document(d), nesting()) by {
            let fs = envelope_fields(digest@, d);
            fields_text(fs);
            assert(field_texts(fs) =~= views(fields@));
            envelopes_are_sound(digest@, d);
        }
    }
    match pretty(text.as_str()) {
        Ok(mut document) => {
            document.push(10);
            Ok(document)
        },
        Err(e) => Err(concat("cannot encode saved plan: ", e.as_str())),
    }
}

/// What is sound at a depth is sound at a greater one.
pub proof fn sound_deeper(d: Doc, depth: nat, more: nat)
    requires
        sound(d, depth),
        depth <= more,
    ensures
        sound(d, more),
    decreases depth,
{
    match d {
        Doc::List(items) => {
            assert forall|i: int| 0 <= i < items.len() implies sound(
                #[trigger] items[i],
                (more - 1) as nat,
            ) by {
                sound_deeper(items[i], (depth - 1) as nat, (more - 1) as nat);
            }
        },
        Doc::Fields(fields) => {
            assert forall|i: int| 0 <= i < fields.len() implies sound(
                (#[trigger] fields[i]).1,
                (more - 1) as nat,
            ) by {
                sound_deeper(fields[i].1, (depth - 1) as nat, (more - 1) as nat);
            }
        },
        _ => {},
    }
}

/// The names in an envelope are different.
pub proof fn envelope_names()
    ensures
        "schema"@.len() == 6,
        "schemaVersion"@.len() == 13,
        "payloadSha256"@.len() == 13,
        "payload"@.len() == 7,
        "schemaVersion"@[0] == 's',
        "payloadSha256"@[0] == 'p',
{
    reveal_strlit("schema");
    reveal_strlit("schemaVersion");
    reveal_strlit("payloadSha256");
    reveal_strlit("payload");
}

/// The document of a sound payload is sound.
pub proof fn envelopes_are_sound(digest: Seq<char>, payload: Doc)
    requires
        sound(payload, (nesting() - 1) as nat),
    ensures
        sound(Doc::Fields(envelope_fields(digest, payload)), nesting()),
{
    let fs = envelope_fields(digest, payload);
    envelope_names();
    assert forall|i: int| 0 <= i < fs.len() implies sound(
        (#[trigger] fs[i]).1,
        (nesting() - 1) as nat,
    ) by {}
}

fn render_payload(
    tool: &str,
    version: &str,
    prune: bool,
    prune_keys: bool,
    from: &[String],
    to: &[String],
) -> (out: String)
    ensures
        forall|f: Seq<Doc>, t: Seq<Doc>|
            views(from@) == doc_texts(f) && views(to@) == doc_texts(t) ==> out@ == doc_text(
                Doc::Fields(
                    #[trigger] payload_fields(tool@, version@, prune, prune_keys, f, t),
                ),
            ),
{
    let fields = vec![
        field("tool", jstr(tool).as_str()),
        field("toolVersion", jstr(version).as_str()),
        field("prune", jbool(prune)),
        field("pruneKeys", jbool(prune_keys)),
        field("sources", array(from).as_str()),
        field("views", array(to).as_str()),
    ];
    proof {
        assert forall|f: Seq<Doc>, t: Seq<Doc>|
            views(from@) == doc_texts(f) && views(to@) == doc_texts(t) implies object_text(
            views(fields@),
        ) == doc_text(
            Doc::Fields(#[trigger] payload_fields(tool@, version@, prune, prune_keys, f, t)),
        ) by {
            let fs = payload_fields(tool@, version@, prune, prune_keys, f, t);
            list_text(f);
            list_text(t);
            fields_text(fs);
            assert(views(fields@) =~= field_texts(fs));
        }
    }
    object(fields.as_slice())
}

/// The document of a plan. `taken` tells whether the destination exists. A plan
/// with usable sources and complete states is always written, and what is
/// written reads as the document of its payload.
pub fn save(
    destination: &str,
    taken: bool,
    sources: &Vec<PlanSource>,
    prune: bool,
    prune_keys: bool,
    states: &Vec<PlanState>,
    tool: &str,
    version: &str,
) -> (r: Result<Vec<u8>, String>)
    ensures
        bytes_result(r) == saved(
            destination@,
            taken,
            sources@,
            prune,
            prune_keys,
            states@,
            tool@,
            version@,
        ),
        r is Ok <==> !taken && (forall|i: int|
            0 <= i < sources@.len() ==> !(#[trigger] sources@[i]).stream) && source_docs(
            sources@,
            Seq::empty(),
            0,
        ) is Ok && state_docs(states@, Seq::empty(), 0) is Ok,
        r matches Ok(b) ==> reads_as(
            b@,
            plan_document(plan_payload(sources@, prune, prune_keys, states@, tool@, version@)),
        ),
{
    if taken {
        return Err(concat(destination, " already exists; refusing to overwrite a saved plan"));
    }
    for i in 0..sources.len()
        invariant
            !taken,
            forall|j: int| 0 <= j < i ==> !(#[trigger] sources@[j]).stream,
    {
        if sources[i].stream {
            return Err(
                "a saved plan requires regular source files; stream input cannot be re-verified".to_owned(),
            );
        }
    }
    let from = match render_sources(sources) {
        Ok(v) => v,
        Err(e) => {
            return Err(e);
        },
    };
    let to = match render_states(states) {
        Ok(v) => v,
        Err(e) => {
            return Err(e);
        },
    };
    let payload = render_payload(tool, version, prune, prune_keys, from.as_slice(), to.as_slice());
    proof {
        let f = source_docs(sources@, Seq::empty(), 0)->Ok_0;
        let t = state_docs(states@, Seq::empty(), 0)->Ok_0;
        let fs = payload_fields(tool@, version@, prune, prune_keys, f, t);
        assert(payload@ == doc_text(Doc::Fields(fs)));
        payloads_are_sound(sources@, prune, prune_keys, states@, tool@, version@);
    }
    seal(payload.as_str())
}

proof fn sources_are_sound(sources: Seq<PlanSource>, done: Seq<Doc>, i: int)
    requires
        0 <= i <= sources.len(),
        forall|k: int| 0 <= k < done.len() ==> sound(#[trigger] done[k], 1),
        source_docs(sources, done, i) is Ok,
    ensures
        forall|k: int|
            0 <= k < (source_docs(sources, done, i)->Ok_0).len() ==> sound(
                #[trigger] (source_docs(sources, done, i)->Ok_0)[k],
                1,
            ),
    decreases sources.len() - i,
{
    if i < sources.len() {
        let s = sources[i];
        let path = s.canonical->Ok_0@;
        let digest = hash_of(s.bytes->Ok_0@);
        let fs = source_fields(path, digest);
        reveal_strlit("path");
        reveal_strlit("sha256");
        assert("path"@.len() == 4 && "sha256"@.len() == 6);
        assert forall|k: int| 0 <= k < fs.len() implies sound((#[trigger] fs[k]).1, 0) by {}
        assert(sound(Doc::Fields(fs), 1));
        sources_are_sound(sources, done.push(Doc::Fields(fs)), i + 1);
    }
}

/// The names in a view are different.
pub proof fn state_names()
    ensures
        "view"@.len() == 4,
        "desiredDigest"@.len() == 13,
        "currentDigest"@.len() == 13,
        "desired"@.len() == 7,
        "desiredDigest"@[0] == 'd',
        "currentDigest"@[0] == 'c',
{
    reveal_strlit("view");
    reveal_strlit("desiredDigest");
    reveal_strlit("currentDigest");
    reveal_strlit("desired");
}

proof fn states_are_sound(states: Seq<PlanState>, done: Seq<Doc>, i: int)
    requires
        0 <= i <= states.len(),
        forall|k: int| 0 <= k < done.len() ==> sound(#[trigger] done[k], 6),
        state_docs(states, done, i) is Ok,
    ensures
        forall|k: int|
            0 <= k < (state_docs(states, done, i)->Ok_0).len() ==> sound(
                #[trigger] (state_docs(states, done, i)->Ok_0)[k],
                6,
            ),
    decreases states.len() - i,
{
    if i < states.len() {
        let fs = state_fields(states[i]);
        state_names();
        files_are_sound(states[i].desired@);
        assert forall|k: int| 0 <= k < fs.len() implies sound((#[trigger] fs[k]).1, 5) by {}
        assert(sound(Doc::Fields(fs), 6));
        states_are_sound(states, done.push(Doc::Fields(fs)), i + 1);
    }
}

/// The names in a payload are different.
pub proof fn payload_names()
    ensures
        "tool"@.len() == 4,
        "toolVersion"@.len() == 11,
        "prune"@.len() == 5,
        "pruneKeys"@.len() == 9,
        "sources"@.len() == 7,
        "views"@.len() == 5,
        "prune"@[0] == 'p',
        "views"@[0] == 'v',
{
    reveal_strlit("tool");
    reveal_strlit("toolVersion");
    reveal_strlit("prune");
    reveal_strlit("pruneKeys");
    reveal_strlit("sources");
    reveal_strlit("views");
}

proof fn payloads_are_sound(
    sources: Seq<PlanSource>,
    prune: bool,
    prune_keys: bool,
    states: Seq<PlanState>,
    tool: Seq<char>,
    version: Seq<char>,
)
    requires
        source_docs(sources, Seq::empty(), 0) is Ok,
        state_docs(states, Seq::empty(), 0) is Ok,
    ensures
        sound(
            plan_payload(sources, prune, prune_keys, states, tool, version),
            (nesting() - 1) as nat,
        ),
{
    let f = source_docs(sources, Seq::empty(), 0)->Ok_0;
    let t = state_docs(states, Seq::empty(), 0)->Ok_0;
    sources_are_sound(sources, Seq::empty(), 0);
    states_are_sound(states, Seq::empty(), 0);
    assert(sound(Doc::List(f), 2));
    assert(sound(Doc::List(t), 7));
    sound_deeper(Doc::List(f), 2, 7);
    let fs = payload_fields(tool, version, prune, prune_keys, f, t);
    payload_names();
    assert forall|k: int| 0 <= k < fs.len() implies sound((#[trigger] fs[k]).1, 7) by {}
    assert(sound(Doc::Fields(fs), 8));
    sound_deeper(Doc::Fields(fs), 8, (nesting() - 1) as nat);
}

// ---------------------------------------------------------------------------
// Laws
// ---------------------------------------------------------------------------

/// A plan is only written where every view's current state was read in full.
pub proof fn saved_plans_are_complete(states: Seq<PlanState>, done: Seq<Doc>, i: int)
    requires
        0 <= i <= states.len(),
    ensures
        state_docs(states, done, i) is Ok <==> forall|k: int|
            i <= k < states.len() ==> (#[trigger] states[k]).current.unreadable@.len() == 0,
    decreases states.len() - i,
{
    if i < states.len() && states[i].current.unreadable@.len() == 0 {
        saved_plans_are_complete(states, done.push(Doc::Fields(state_fields(states[i]))), i + 1);
    }
}

/// A plan is only accepted where its payload has the digest that it was saved
/// with: whoever changes the payload has to change the digest too.
pub proof fn accepted_plans_bind_their_payload(
    bytes: Seq<u8>,
    desired: Seq<Result<Seq<BlockView>, Seq<char>>>,
)
    requires
        plan_of(bytes, desired) is Ok,
    ensures
        json_part_at(bytes, "/payload"@) is Some,
        field_at(bytes, Seq::empty(), "payloadSha256"@) == Ok::<Seq<char>, Seq<char>>(
            hash_of(json_part_at(bytes, "/payload"@)->0),
        ),
{
}

proof fn read_views_are_bound(
    bytes: Seq<u8>,
    desired: Seq<Result<Seq<BlockView>, Seq<char>>>,
    done: Seq<SavedState>,
    i: nat,
    count: nat,
)
    requires
        done.len() == i,
        i <= count,
        forall|k: int|
            0 <= k < done.len() ==> field_at(
                bytes,
                element("/payload/views"@, k as nat),
                "desiredDigest"@,
            ) == Ok::<Seq<char>, Seq<char>>(digest_of_file((#[trigger] done[k]).desired)),
        views_from(bytes, desired, done, i, count) is Ok,
    ensures
        ({
            let vs = views_from(bytes, desired, done, i, count)->Ok_0;
            &&& vs.len() == count
            &&& forall|k: int|
                0 <= k < vs.len() ==> field_at(
                    bytes,
                    element("/payload/views"@, k as nat),
                    "desiredDigest"@,
                ) == Ok::<Seq<char>, Seq<char>>(digest_of_file((#[trigger] vs[k]).desired))
        }),
    decreases count - i,
{
    if i < count {
        let v = plan_view(bytes, i, desired_of(bytes, i, desired))->Ok_0;
        let next = done.push(v);
        assert forall|k: int| 0 <= k < next.len() implies field_at(
            bytes,
            element("/payload/views"@, k as nat),
            "desiredDigest"@,
        ) == Ok::<Seq<char>, Seq<char>>(digest_of_file((#[trigger] next[k]).desired)) by {
            if k < done.len() {
                assert(next[k] == done[k]);
            }
        }
        read_views_are_bound(bytes, desired, next, i + 1, count);
    }
}

/// Every desired state of an accepted plan has a digest that the plan itself
/// records for one of its views.
#[verifier::rlimit(40)]
pub proof fn accepted_plans_bind_their_desired_states(
    bytes: Seq<u8>,
    desired: Seq<Result<Seq<BlockView>, Seq<char>>>,
    k: int,
)
    requires
        plan_of(bytes, desired) is Ok,
        0 <= k < (plan_of(bytes, desired)->Ok_0).views.len(),
    ensures
        exists|j: nat|
            field_at(bytes, #[trigger] element("/payload/views"@, j), "desiredDigest"@) == Ok::<
                Seq<char>,
                Seq<char>,
            >(digest_of_file((plan_of(bytes, desired)->Ok_0).views[k].desired)),
{
    let n = json_count_at(bytes, "/payload/views"@)->0;
    read_views_are_bound(bytes, desired, Seq::empty(), 0, n);
    let vs = views_from(bytes, desired, Seq::empty(), 0, n)->Ok_0;
    let sorted = in_order(vs);
    assert(sorted == (plan_of(bytes, desired)->Ok_0).views);
    let j: int = if sorted == vs {
        k
    } else {
        1 - k
    };
    assert(sorted[k] == vs[j]);
    assert(field_at(bytes, element("/payload/views"@, j as nat), "desiredDigest"@) == Ok::<
        Seq<char>,
        Seq<char>,
    >(digest_of_file(vs[j].desired)));
}

/// An accepted plan speaks of one view, or of the two explicit ones in order.
pub proof fn accepted_plans_have_sound_views(
    bytes: Seq<u8>,
    desired: Seq<Result<Seq<BlockView>, Seq<char>>>,
)
    requires
        plan_of(bytes, desired) is Ok,
    ensures
        ({
            let vs = (plan_of(bytes, desired)->Ok_0).views;
            ||| vs.len() == 1
            ||| vs.len() == 2 && vs[0].view == RegistryView::Bits32 && vs[1].view
                == RegistryView::Bits64
        }),
{
    let n = json_count_at(bytes, "/payload/views"@)->0;
    labels_name_their_views(bytes, desired, Seq::empty(), 0, n);
    let vs = views_from(bytes, desired, Seq::empty(), 0, n)->Ok_0;
    if n == 2 {
        assert(view_labelled(vs[0].label) == Some(vs[0].view));
        assert(view_labelled(vs[1].label) == Some(vs[1].view));
    }
}

proof fn labels_name_their_views(
    bytes: Seq<u8>,
    desired: Seq<Result<Seq<BlockView>, Seq<char>>>,
    done: Seq<SavedState>,
    i: nat,
    count: nat,
)
    requires
        done.len() == i,
        i <= count,
        forall|k: int|
            0 <= k < done.len() ==> view_labelled((#[trigger] done[k]).label) == Some(done[k].view),
        views_from(bytes, desired, done, i, count) is Ok,
    ensures
        ({
            let vs = views_from(bytes, desired, done, i, count)->Ok_0;
            &&& vs.len() == count
            &&& forall|k: int|
                0 <= k < vs.len() ==> view_labelled((#[trigger] vs[k]).label) == Some(vs[k].view)
        }),
    decreases count - i,
{
    if i < count {
        let v = plan_view(bytes, i, desired_of(bytes, i, desired))->Ok_0;
        let next = done.push(v);
        assert forall|k: int| 0 <= k < next.len() implies view_labelled((#[trigger] next[k]).label)
            == Some(next[k].view) by {
            if k < done.len() {
                assert(next[k] == done[k]);
            }
        }
        labels_name_their_views(bytes, desired, next, i + 1, count);
    }
}

/// Sources that still read as the bytes they were planned with pass, and only
/// those.
pub proof fn sources_pass_where_unchanged(
    sources: Seq<SourceView>,
    now: Seq<Result<Vec<u8>, String>>,
    i: int,
)
    requires
        now.len() == sources.len(),
        0 <= i <= sources.len(),
    ensures
        sources_changed(sources, now, i) is Ok <==> forall|k: int|
            i <= k < sources.len() ==> (#[trigger] now[k]) is Ok && hash_of((now[k]->Ok_0)@)
                == sources[k].sha256,
    decreases sources.len() - i,
{
    if i < sources.len() {
        sources_pass_where_unchanged(sources, now, i + 1);
    }
}

} // verus!
