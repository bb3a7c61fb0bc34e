//! What is saved in a plan is what is loaded from it.
use vstd::prelude::*;

use crate::doc::{
    at, child, count_in, decimals_are_slash_free, doc_text, field_found, item_found, number_in,
    slash_free, step, text_in, Doc,
};
use crate::document::{
    json_compact, json_count_at, json_number_at, json_part_at, json_text_at, plain, reads_as,
};
use crate::model::BlockView;
use crate::number::{dec_of, digit_char};
use crate::saved_plan::{
    desired_file, desired_of, desired_states, digest_of_file, element, envelope, envelope_fields, envelope_names,
    field_at, in_order, payload_fields, payload_names, plan_document, plan_of, plan_payload,
    plan_sources, plan_view, plan_views, source_docs, source_fields, sources_from, state_docs,
    state_fields, state_names, view_labelled, views_from, ArtifactView, PlanSource, PlanState,
    RegistryView, SavedState, SourceView,
};
use crate::sha256::hash_of;
use crate::state_reader::{
    keys_at, nul_free, recorded_keys_read_back, reread, reread_keys_are_written_alike,
};
use crate::writer::file_doc;

verus! {

/// A source as a plan records it.
pub open spec fn recorded_source(s: PlanSource) -> SourceView {
    SourceView { path: (s.canonical->Ok_0)@, sha256: hash_of((s.bytes->Ok_0)@) }
}

/// A view as a plan records it, with the keys that were read of its desired
/// state.
pub open spec fn recorded_state(s: PlanState, keys: Seq<BlockView>) -> SavedState {
    SavedState {
        label: s.label@,
        view: view_labelled(s.label@)->0,
        desired: desired_file(keys),
        current_digest: digest_of_file(s.current.file@),
    }
}

/// Views as a plan records them.
pub open spec fn recorded_states(states: Seq<PlanState>, read: Seq<Seq<BlockView>>) -> Seq<
    SavedState,
> {
    Seq::new(states.len(), |k: int| recorded_state(states[k], read[k]))
}

/// What was read of each desired state has the digest of that state.
pub open spec fn read_alike(
    states: Seq<PlanState>,
    read: Seq<Seq<BlockView>>,
    desired: Seq<Result<Seq<BlockView>, Seq<char>>>,
) -> bool {
    &&& desired.len() == states.len()
    &&& read.len() == states.len()
    &&& forall|k: int|
        0 <= k < states.len() ==> #[trigger] desired[k] == Ok::<Seq<BlockView>, Seq<char>>(read[k])
    &&& forall|k: int|
        0 <= k < states.len() ==> digest_of_file(desired_file(#[trigger] read[k]))
            == digest_of_file(states[k].desired@)
}

/// The views of a plan go together: one of any kind, or the two explicit ones.
pub open spec fn views_go_together(states: Seq<PlanState>) -> bool {
    let first = view_labelled(states[0].label@);
    let second = view_labelled(states[1].label@);
    ||| states.len() == 1 && first is Some
    ||| states.len() == 2 && first == Some(RegistryView::Bits32) && second == Some(
        RegistryView::Bits64,
    )
    ||| states.len() == 2 && first == Some(RegistryView::Bits64) && second == Some(
        RegistryView::Bits32,
    )
}

// ---------------------------------------------------------------------------
// Places
// ---------------------------------------------------------------------------

/// Decimal text has no tilde.
pub proof fn decimals_are_plain(n: nat)
    ensures
        plain(dec_of(n)),
    decreases n,
{
    let d = digit_char(n % 10);
    assert(d != '~') by {
        vstd::utf8::char_u32_cast(d, (48 + n % 10) as u32);
    }
    if n >= 10 {
        decimals_are_plain(n / 10);
        let s = dec_of(n / 10);
        assert forall|i: int| 0 <= i < dec_of(n).len() implies #[trigger] dec_of(n)[i] != '~' by {
            if i < s.len() {
                assert(dec_of(n)[i] == s[i]);
            }
        }
    }
}

proof fn plain_concat(a: Seq<char>, b: Seq<char>)
    requires
        plain(a),
        plain(b),
    ensures
        plain(a + b),
{
    assert forall|i: int| 0 <= i < (a + b).len() implies #[trigger] (a + b)[i] != '~' by {
        if i < a.len() {
            assert((a + b)[i] == a[i]);
        } else {
            assert((a + b)[i] == b[i - a.len()]);
        }
    }
}

/// The place of a field of an element of a list in the payload.
proof fn walk(d: Doc, list: Seq<char>, place: Seq<char>, i: nat, name: Seq<char>)
    requires
        slash_free(list),
        slash_free(name),
        plain(list),
        plain(name),
        place == "/"@ + "payload"@ + ("/"@ + list),
    ensures
        plain(element(place, i) + "/"@ + name),
        at(d, element(place, i) + "/"@ + name) == match child(d, "payload"@) {
            None => None,
            Some(p) => match child(p, list) {
                None => None,
                Some(l) => match child(l, dec_of(i)) {
                    None => None,
                    Some(e) => child(e, name),
                },
            },
        },
{
    reveal_strlit("/");
    reveal_strlit("payload");
    decimals_are_slash_free(i);
    decimals_are_plain(i);
    let empty = Seq::<char>::empty();
    let last = "/"@ + name + empty;
    let third = "/"@ + dec_of(i) + last;
    let second = "/"@ + list + third;
    let whole = "/"@ + "payload"@ + second;
    assert(whole =~= element(place, i) + "/"@ + name);
    assert(last[0] == '/' && third[0] == '/' && second[0] == '/');
    step(d, "payload"@, second);
    if let Some(p) = child(d, "payload"@) {
        step(p, list, third);
        if let Some(l) = child(p, list) {
            step(l, dec_of(i), last);
            if let Some(e) = child(l, dec_of(i)) {
                step(e, name, empty);
            }
        }
    }
    plain_concat("/"@, "payload"@);
    plain_concat("/"@, list);
    plain_concat("/"@ + "payload"@, "/"@ + list);
    plain_concat(place, "/"@);
    plain_concat(place + "/"@, dec_of(i));
    plain_concat(element(place, i), "/"@);
    plain_concat(element(place, i) + "/"@, name);
}

/// The place of a list in the payload.
proof fn walk_to_list(d: Doc, list: Seq<char>, place: Seq<char>)
    requires
        slash_free(list),
        plain(list),
        place == "/"@ + "payload"@ + ("/"@ + list),
    ensures
        plain(place),
        at(d, place) == match child(d, "payload"@) {
            None => None,
            Some(p) => child(p, list),
        },
{
    reveal_strlit("/");
    reveal_strlit("payload");
    let empty = Seq::<char>::empty();
    let second = "/"@ + list + empty;
    assert(second =~= "/"@ + list);
    assert("/"@ + "payload"@ + second =~= place);
    assert(second[0] == '/');
    step(d, "payload"@, second);
    if let Some(p) = child(d, "payload"@) {
        step(p, list, empty);
    }
    plain_concat("/"@, "payload"@);
    plain_concat("/"@, list);
    plain_concat("/"@ + "payload"@, "/"@ + list);
}

/// The place of a field of the document.
proof fn walk_to_field(d: Doc, name: Seq<char>)
    requires
        slash_free(name),
        plain(name),
    ensures
        plain(Seq::<char>::empty() + "/"@ + name),
        at(d, Seq::<char>::empty() + "/"@ + name) == child(d, name),
        Seq::<char>::empty() + "/"@ + name == "/"@ + name,
{
    reveal_strlit("/");
    let empty = Seq::<char>::empty();
    assert(empty + "/"@ + name =~= "/"@ + name + empty);
    assert(empty + "/"@ + name =~= "/"@ + name);
    step(d, name, empty);
    plain_concat("/"@, name);
}

// ---------------------------------------------------------------------------
// The parts of a document
// ---------------------------------------------------------------------------

proof fn envelope_children(digest: Seq<char>, payload: Doc)
    ensures
        ({
            let d = Doc::Fields(envelope_fields(digest, payload));
            &&& child(d, "schema"@) == Some(
                Doc::Text("https://winregistry.org/schemas/saved-plan-v1.json"@),
            )
            &&& child(d, "schemaVersion"@) == Some(Doc::Number(1))
            &&& child(d, "payloadSha256"@) == Some(Doc::Text(digest))
            &&& child(d, "payload"@) == Some(payload)
        }),
{
    let fs = envelope_fields(digest, payload);
    envelope_names();
    field_found(fs, 0);
    field_found(fs, 1);
    field_found(fs, 2);
    field_found(fs, 3);
}

proof fn payload_children(
    tool: Seq<char>,
    version: Seq<char>,
    prune: bool,
    prune_keys: bool,
    sources: Seq<Doc>,
    states: Seq<Doc>,
)
    ensures
        ({
            let p = Doc::Fields(payload_fields(tool, version, prune, prune_keys, sources, states));
            &&& child(p, "sources"@) == Some(Doc::List(sources))
            &&& child(p, "views"@) == Some(Doc::List(states))
        }),
{
    let fs = payload_fields(tool, version, prune, prune_keys, sources, states);
    payload_names();
    field_found(fs, 4);
    field_found(fs, 5);
}

proof fn source_children(path: Seq<char>, sha256: Seq<char>)
    ensures
        child(Doc::Fields(source_fields(path, sha256)), "path"@) == Some(Doc::Text(path)),
        child(Doc::Fields(source_fields(path, sha256)), "sha256"@) == Some(Doc::Text(sha256)),
{
    let fs = source_fields(path, sha256);
    reveal_strlit("path");
    reveal_strlit("sha256");
    assert("path"@.len() == 4 && "sha256"@.len() == 6);
    field_found(fs, 0);
    field_found(fs, 1);
}

proof fn state_children(s: PlanState)
    ensures
        ({
            let d = Doc::Fields(state_fields(s));
            &&& child(d, "view"@) == Some(Doc::Text(s.label@))
            &&& child(d, "desiredDigest"@) == Some(Doc::Text(digest_of_file(s.desired@)))
            &&& child(d, "currentDigest"@) == Some(Doc::Text(digest_of_file(s.current.file@)))
            &&& child(d, "desired"@) == Some(file_doc(s.desired@))
        }),
{
    let fs = state_fields(s);
    state_names();
    field_found(fs, 0);
    field_found(fs, 1);
    field_found(fs, 2);
    field_found(fs, 3);
}

proof fn source_docs_are(sources: Seq<PlanSource>, done: Seq<Doc>, i: int)
    requires
        0 <= i <= sources.len(),
        done.len() == i,
        source_docs(sources, done, i) is Ok,
        forall|k: int|
            0 <= k < i ==> #[trigger] done[k] == Doc::Fields(
                source_fields(recorded_source(sources[k]).path, recorded_source(sources[k]).sha256),
            ),
    ensures
        ({
            let docs = source_docs(sources, done, i)->Ok_0;
            &&& docs.len() == sources.len()
            &&& forall|k: int|
                0 <= k < sources.len() ==> #[trigger] docs[k] == Doc::Fields(
                    source_fields(
                        recorded_source(sources[k]).path,
                        recorded_source(sources[k]).sha256,
                    ),
                )
        }),
    decreases sources.len() - i,
{
    if i < sources.len() {
        let r = recorded_source(sources[i]);
        source_docs_are(sources, done.push(Doc::Fields(source_fields(r.path, r.sha256))), i + 1);
    }
}

proof fn state_docs_are(states: Seq<PlanState>, done: Seq<Doc>, i: int)
    requires
        0 <= i <= states.len(),
        done.len() == i,
        state_docs(states, done, i) is Ok,
        forall|k: int| 0 <= k < i ==> #[trigger] done[k] == Doc::Fields(state_fields(states[k])),
    ensures
        ({
            let docs = state_docs(states, done, i)->Ok_0;
            &&& docs.len() == states.len()
            &&& forall|k: int|
                0 <= k < states.len() ==> #[trigger] docs[k] == Doc::Fields(
                    state_fields(states[k]),
                )
        }),
    decreases states.len() - i,
{
    if i < states.len() {
        state_docs_are(states, done.push(Doc::Fields(state_fields(states[i]))), i + 1);
    }
}

// ---------------------------------------------------------------------------
// Reading them
// ---------------------------------------------------------------------------

proof fn place_names()
    ensures
        "/payload/sources"@ == "/"@ + "payload"@ + ("/"@ + "sources"@),
        "/payload/views"@ == "/"@ + "payload"@ + ("/"@ + "views"@),
        "/payload"@ == "/"@ + "payload"@,
        "/schemaVersion"@ == "/"@ + "schemaVersion"@,
        slash_free("sources"@) && plain("sources"@),
        slash_free("views"@) && plain("views"@),
        slash_free("payload"@) && plain("payload"@),
        slash_free("schema"@) && plain("schema"@),
        slash_free("schemaVersion"@) && plain("schemaVersion"@),
        slash_free("payloadSha256"@) && plain("payloadSha256"@),
{
    reveal_strlit("/payload/sources");
    reveal_strlit("/payload/views");
    reveal_strlit("/payload");
    reveal_strlit("/schemaVersion");
    reveal_strlit("/");
    reveal_strlit("sources");
    reveal_strlit("views");
    reveal_strlit("payload");
    reveal_strlit("schema");
    reveal_strlit("schemaVersion");
    reveal_strlit("payloadSha256");
    assert("/payload/sources"@ =~= "/"@ + "payload"@ + ("/"@ + "sources"@));
    assert("/payload/views"@ =~= "/"@ + "payload"@ + ("/"@ + "views"@));
    assert("/payload"@ =~= "/"@ + "payload"@);
    assert("/schemaVersion"@ =~= "/"@ + "schemaVersion"@);
}

proof fn field_names()
    ensures
        slash_free("path"@) && plain("path"@),
        slash_free("sha256"@) && plain("sha256"@),
        slash_free("view"@) && plain("view"@),
        slash_free("desiredDigest"@) && plain("desiredDigest"@),
        slash_free("currentDigest"@) && plain("currentDigest"@),
        slash_free("desired"@) && plain("desired"@),
        "/desired"@ == "/"@ + "desired"@,
{
    reveal_strlit("path");
    reveal_strlit("sha256");
    reveal_strlit("view");
    reveal_strlit("desiredDigest");
    reveal_strlit("currentDigest");
    reveal_strlit("desired");
    reveal_strlit("/desired");
    reveal_strlit("/");
    assert("/desired"@ =~= "/"@ + "desired"@);
}

proof fn envelope_reads(bytes: Seq<u8>, payload: Doc)
    requires
        reads_as(bytes, plan_document(payload)),
    ensures
        envelope(bytes) is Ok,
{
    let digest = hash_of(json_compact(doc_text(payload))->Ok_0);
    let d = plan_document(payload);
    place_names();
    envelope_children(digest, payload);
    walk_to_field(d, "schema"@);
    walk_to_field(d, "schemaVersion"@);
    walk_to_field(d, "payloadSha256"@);
    walk_to_field(d, "payload"@);
    let empty = Seq::<char>::empty();
    assert(json_text_at(bytes, empty + "/"@ + "schema"@) == text_in(d, empty + "/"@ + "schema"@));
    assert(json_number_at(bytes, "/schemaVersion"@) == number_in(d, "/schemaVersion"@));
    assert(json_text_at(bytes, empty + "/"@ + "payloadSha256"@) == text_in(
        d,
        empty + "/"@ + "payloadSha256"@,
    ));
    assert(plain("/payload"@));
    assert(at(d, "/payload"@) == Some(payload));
    assert(json_part_at(bytes, "/payload"@) is Some);
}

proof fn source_reads(bytes: Seq<u8>, d: Doc, p: Doc, docs: Seq<Doc>, i: nat, s: SourceView)
    requires
        reads_as(bytes, d),
        child(d, "payload"@) == Some(p),
        child(p, "sources"@) == Some(Doc::List(docs)),
        i < docs.len(),
        docs[i as int] == Doc::Fields(source_fields(s.path, s.sha256)),
    ensures
        ({
            let place = element("/payload/sources"@, i);
            &&& field_at(bytes, place, "path"@) == Ok::<Seq<char>, Seq<char>>(s.path)
            &&& field_at(bytes, place, "sha256"@) == Ok::<Seq<char>, Seq<char>>(s.sha256)
        }),
{
    let place = element("/payload/sources"@, i);
    place_names();
    field_names();
    item_found(docs, i as int);
    source_children(s.path, s.sha256);
    walk(d, "sources"@, "/payload/sources"@, i, "path"@);
    walk(d, "sources"@, "/payload/sources"@, i, "sha256"@);
    assert(json_text_at(bytes, place + "/"@ + "path"@) == text_in(d, place + "/"@ + "path"@));
    assert(json_text_at(bytes, place + "/"@ + "sha256"@) == text_in(d, place + "/"@ + "sha256"@));
}

proof fn sources_read(
    bytes: Seq<u8>,
    d: Doc,
    p: Doc,
    docs: Seq<Doc>,
    sources: Seq<PlanSource>,
    done: Seq<SourceView>,
    i: nat,
)
    requires
        reads_as(bytes, d),
        child(d, "payload"@) == Some(p),
        child(p, "sources"@) == Some(Doc::List(docs)),
        docs.len() == sources.len(),
        forall|k: int|
            0 <= k < sources.len() ==> #[trigger] docs[k] == Doc::Fields(
                source_fields(recorded_source(sources[k]).path, recorded_source(sources[k]).sha256),
            ),
        i <= sources.len(),
        done == sources.take(i as int).map_values(|s: PlanSource| recorded_source(s)),
    ensures
        sources_from(bytes, done, i, sources.len()) == Ok::<Seq<SourceView>, Seq<char>>(
            sources.map_values(|s: PlanSource| recorded_source(s)),
        ),
    decreases sources.len() - i,
{
    if i < sources.len() {
        let s = recorded_source(sources[i as int]);
        source_reads(bytes, d, p, docs, i, s);
        assert(done.push(s) =~= sources.take(i as int + 1).map_values(
            |s: PlanSource| recorded_source(s),
        ));
        sources_read(bytes, d, p, docs, sources, done.push(s), i + 1);
    } else {
        assert(sources.take(i as int) =~= sources);
    }
}

proof fn view_reads(
    bytes: Seq<u8>,
    d: Doc,
    p: Doc,
    docs: Seq<Doc>,
    i: nat,
    s: PlanState,
    keys: Seq<BlockView>,
    desired: Seq<Result<Seq<BlockView>, Seq<char>>>,
)
    requires
        reads_as(bytes, d),
        child(d, "payload"@) == Some(p),
        child(p, "views"@) == Some(Doc::List(docs)),
        i < docs.len(),
        docs[i as int] == Doc::Fields(state_fields(s)),
        view_labelled(s.label@) is Some,
        i < desired.len(),
        desired[i as int] == Ok::<Seq<BlockView>, Seq<char>>(keys),
        digest_of_file(desired_file(keys)) == digest_of_file(s.desired@),
    ensures
        plan_view(bytes, i, desired_of(bytes, i, desired)) == Ok::<SavedState, Seq<char>>(
            recorded_state(s, keys),
        ),
{
    let place = element("/payload/views"@, i);
    place_names();
    field_names();
    item_found(docs, i as int);
    state_children(s);
    walk(d, "views"@, "/payload/views"@, i, "view"@);
    walk(d, "views"@, "/payload/views"@, i, "desiredDigest"@);
    walk(d, "views"@, "/payload/views"@, i, "currentDigest"@);
    walk(d, "views"@, "/payload/views"@, i, "desired"@);
    assert(place + "/desired"@ =~= place + "/"@ + "desired"@);
    assert(json_text_at(bytes, place + "/"@ + "view"@) == text_in(d, place + "/"@ + "view"@));
    assert(json_text_at(bytes, place + "/"@ + "desiredDigest"@) == text_in(
        d,
        place + "/"@ + "desiredDigest"@,
    ));
    assert(json_text_at(bytes, place + "/"@ + "currentDigest"@) == text_in(
        d,
        place + "/"@ + "currentDigest"@,
    ));
    assert(json_part_at(bytes, place + "/desired"@) is Some);
}

proof fn views_read(
    bytes: Seq<u8>,
    d: Doc,
    p: Doc,
    docs: Seq<Doc>,
    states: Seq<PlanState>,
    read: Seq<Seq<BlockView>>,
    desired: Seq<Result<Seq<BlockView>, Seq<char>>>,
    done: Seq<SavedState>,
    i: nat,
)
    requires
        reads_as(bytes, d),
        child(d, "payload"@) == Some(p),
        child(p, "views"@) == Some(Doc::List(docs)),
        docs.len() == states.len(),
        read_alike(states, read, desired),
        forall|k: int|
            0 <= k < states.len() ==> #[trigger] docs[k] == Doc::Fields(state_fields(states[k])),
        forall|k: int|
            0 <= k < states.len() ==> view_labelled((#[trigger] states[k]).label@) is Some,
        i <= states.len(),
        done == recorded_states(states, read).take(i as int),
    ensures
        views_from(bytes, desired, done, i, states.len()) == Ok::<Seq<SavedState>, Seq<char>>(
            recorded_states(states, read),
        ),
    decreases states.len() - i,
{
    let all = recorded_states(states, read);
    if i < states.len() {
        let s = states[i as int];
        let keys = read[i as int];
        assert(desired[i as int] == Ok::<Seq<BlockView>, Seq<char>>(keys));
        view_reads(bytes, d, p, docs, i, s, keys, desired);
        let v = recorded_state(s, keys);
        assert(done.push(v) =~= all.take(i as int + 1));
        views_read(bytes, d, p, docs, states, read, desired, done.push(v), i + 1);
    } else {
        assert(all.take(i as int) =~= all);
    }
}

proof fn all_sources_read(bytes: Seq<u8>, d: Doc, p: Doc, sources: Seq<PlanSource>)
    requires
        reads_as(bytes, d),
        child(d, "payload"@) == Some(p),
        source_docs(sources, Seq::empty(), 0) is Ok,
        child(p, "sources"@) == Some(Doc::List(source_docs(sources, Seq::empty(), 0)->Ok_0)),
        sources.len() > 0,
    ensures
        plan_sources(bytes) == Ok::<Seq<SourceView>, Seq<char>>(
            sources.map_values(|s: PlanSource| recorded_source(s)),
        ),
{
    let from = source_docs(sources, Seq::empty(), 0)->Ok_0;
    source_docs_are(sources, Seq::empty(), 0);
    place_names();
    walk_to_list(d, "sources"@, "/payload/sources"@);
    assert(json_count_at(bytes, "/payload/sources"@) == count_in(d, "/payload/sources"@));
    let none = Seq::<SourceView>::empty();
    assert(none =~= sources.take(0).map_values(|s: PlanSource| recorded_source(s)));
    sources_read(bytes, d, p, from, sources, none, 0);
}

proof fn recorded_views_stand(states: Seq<PlanState>, read: Seq<Seq<BlockView>>)
    requires
        views_go_together(states),
    ensures
        ({
            let vs = in_order(recorded_states(states, read));
            vs.len() == 2 ==> vs[0].label != vs[1].label && vs[0].view != RegistryView::Native
                && vs[1].view != RegistryView::Native
        }),
        forall|k: int|
            0 <= k < states.len() ==> view_labelled((#[trigger] states[k]).label@) is Some,
{
    let vs = recorded_states(states, read);
    if states.len() == 2 {
        assert(vs[0] == recorded_state(states[0], read[0]));
        assert(vs[1] == recorded_state(states[1], read[1]));
    }
}

proof fn all_views_read(
    bytes: Seq<u8>,
    d: Doc,
    p: Doc,
    states: Seq<PlanState>,
    read: Seq<Seq<BlockView>>,
    desired: Seq<Result<Seq<BlockView>, Seq<char>>>,
)
    requires
        reads_as(bytes, d),
        child(d, "payload"@) == Some(p),
        state_docs(states, Seq::empty(), 0) is Ok,
        child(p, "views"@) == Some(Doc::List(state_docs(states, Seq::empty(), 0)->Ok_0)),
        views_go_together(states),
        read_alike(states, read, desired),
    ensures
        plan_views(bytes, desired) == Ok::<Seq<SavedState>, Seq<char>>(
            in_order(recorded_states(states, read)),
        ),
{
    let to = state_docs(states, Seq::empty(), 0)->Ok_0;
    state_docs_are(states, Seq::empty(), 0);
    place_names();
    walk_to_list(d, "views"@, "/payload/views"@);
    assert(json_count_at(bytes, "/payload/views"@) == count_in(d, "/payload/views"@));
    let none = Seq::<SavedState>::empty();
    assert(none =~= recorded_states(states, read).take(0));
    recorded_views_stand(states, read);
    views_read(bytes, d, p, to, states, read, desired, none, 0);
}

/// A saved plan is loaded as it was saved, whoever reads its desired states. Let
/// bytes read as the document that `save` writes for some sources and states, as
/// `save` promises of what it returns, and let each desired state be read as
/// keys with the digest of that state. Then the plan is accepted, with the path
/// and the digest of every source, and with the label, the keys that were read
/// and the digest of the current state of every view, the 32-bit view first.
pub proof fn saved_plans_are_accepted(
    bytes: Seq<u8>,
    sources: Seq<PlanSource>,
    prune: bool,
    prune_keys: bool,
    states: Seq<PlanState>,
    tool: Seq<char>,
    version: Seq<char>,
    read: Seq<Seq<BlockView>>,
    desired: Seq<Result<Seq<BlockView>, Seq<char>>>,
)
    requires
        source_docs(sources, Seq::empty(), 0) is Ok,
        state_docs(states, Seq::empty(), 0) is Ok,
        reads_as(
            bytes,
            plan_document(plan_payload(sources, prune, prune_keys, states, tool, version)),
        ),
        sources.len() > 0,
        views_go_together(states),
        read_alike(states, read, desired),
    ensures
        plan_of(bytes, desired) == Ok::<ArtifactView, Seq<char>>(
            ArtifactView {
                sources: sources.map_values(|s: PlanSource| recorded_source(s)),
                views: in_order(recorded_states(states, read)),
            },
        ),
{
    let payload = plan_payload(sources, prune, prune_keys, states, tool, version);
    let from = source_docs(sources, Seq::empty(), 0)->Ok_0;
    let to = state_docs(states, Seq::empty(), 0)->Ok_0;
    envelope_reads(bytes, payload);
    envelope_children(hash_of(json_compact(doc_text(payload))->Ok_0), payload);
    payload_children(tool, version, prune, prune_keys, from, to);
    all_sources_read(bytes, plan_document(payload), payload, sources);
    all_views_read(bytes, plan_document(payload), payload, states, read, desired);
}

proof fn desired_reads(bytes: Seq<u8>, d: Doc, p: Doc, docs: Seq<Doc>, i: nat, s: PlanState)
    requires
        reads_as(bytes, d),
        child(d, "payload"@) == Some(p),
        child(p, "views"@) == Some(Doc::List(docs)),
        i < docs.len(),
        docs[i as int] == Doc::Fields(state_fields(s)),
        nul_free(s.desired@.keys),
    ensures
        keys_at(bytes, element("/payload/views"@, i) + "/desired"@) == Ok::<
            Seq<BlockView>,
            Seq<char>,
        >(reread(s.desired@.keys)),
{
    let place = element("/payload/views"@, i);
    place_names();
    field_names();
    item_found(docs, i as int);
    state_children(s);
    walk(d, "views"@, "/payload/views"@, i, "desired"@);
    assert(place + "/desired"@ =~= place + "/"@ + "desired"@);
    recorded_keys_read_back(bytes, d, place + "/desired"@, s.desired@);
}

/// What was saved is what is loaded. Let bytes read as the document that `save`
/// writes for some sources and states, as `save` promises of what it returns,
/// and let no path or name among the desired keys hold a NUL. Then `load` accepts the plan, and gives back the path and the digest of every
/// source, and the label, the desired keys and the digest of the current state
/// of every view, the 32-bit view first. The desired keys are those that were saved, but
/// for the way in which their data is told; they have the same digest.
pub proof fn saved_plans_load_back(
    bytes: Seq<u8>,
    sources: Seq<PlanSource>,
    prune: bool,
    prune_keys: bool,
    states: Seq<PlanState>,
    tool: Seq<char>,
    version: Seq<char>,
)
    requires
        source_docs(sources, Seq::empty(), 0) is Ok,
        state_docs(states, Seq::empty(), 0) is Ok,
        reads_as(
            bytes,
            plan_document(plan_payload(sources, prune, prune_keys, states, tool, version)),
        ),
        sources.len() > 0,
        views_go_together(states),
        forall|k: int| 0 <= k < states.len() ==> nul_free((#[trigger] states[k]).desired@.keys),
    ensures
        ({
            let read = states.map_values(|s: PlanState| reread(s.desired@.keys));
            &&& plan_of(bytes, desired_states(bytes)) == Ok::<ArtifactView, Seq<char>>(
                ArtifactView {
                    sources: sources.map_values(|s: PlanSource| recorded_source(s)),
                    views: in_order(recorded_states(states, read)),
                },
            )
            &&& forall|k: int|
                0 <= k < states.len() ==> digest_of_file(
                    recorded_state(#[trigger] states[k], read[k]).desired,
                ) == digest_of_file(states[k].desired@)
        }),
{
    let payload = plan_payload(sources, prune, prune_keys, states, tool, version);
    let d = plan_document(payload);
    let from = source_docs(sources, Seq::empty(), 0)->Ok_0;
    let to = state_docs(states, Seq::empty(), 0)->Ok_0;
    let read = states.map_values(|s: PlanState| reread(s.desired@.keys));
    let desired = desired_states(bytes);
    envelope_children(hash_of(json_compact(doc_text(payload))->Ok_0), payload);
    payload_children(tool, version, prune, prune_keys, from, to);
    state_docs_are(states, Seq::empty(), 0);
    place_names();
    walk_to_list(d, "views"@, "/payload/views"@);
    assert(json_count_at(bytes, "/payload/views"@) == count_in(d, "/payload/views"@));
    assert(desired.len() == states.len());
    assert forall|k: int| 0 <= k < states.len() implies #[trigger] desired[k] == Ok::<
        Seq<BlockView>,
        Seq<char>,
    >(read[k]) by {
        assert(nul_free(states[k].desired@.keys));
        desired_reads(bytes, d, payload, to, k as nat, states[k]);
    }
    assert forall|k: int| 0 <= k < states.len() implies digest_of_file(
        desired_file(#[trigger] read[k]),
    ) == digest_of_file(states[k].desired@) by {
        reread_keys_are_written_alike(states[k].desired@.keys);
    }
    assert forall|k: int| 0 <= k < states.len() implies digest_of_file(
        recorded_state(#[trigger] states[k], read[k]).desired,
    ) == digest_of_file(states[k].desired@) by {
        assert(digest_of_file(desired_file(read[k])) == digest_of_file(states[k].desired@));
    }
    saved_plans_are_accepted(
        bytes,
        sources,
        prune,
        prune_keys,
        states,
        tool,
        version,
        read,
        desired,
    );
}

/// A plan whose payload was changed after it was saved is refused for that. Let
/// bytes read as a plan that still records the digest of the payload that was
/// saved but holds another, and let the two have different digests. Then `load`
/// tells of the mismatch, whatever the other payload holds.
pub proof fn changed_payloads_are_refused(
    bytes: Seq<u8>,
    payload: Doc,
    other: Doc,
    desired: Seq<Result<Seq<BlockView>, Seq<char>>>,
)
    requires
        ({
            let digest = hash_of(json_compact(doc_text(payload))->Ok_0);
            &&& reads_as(bytes, Doc::Fields(envelope_fields(digest, other)))
            &&& hash_of(json_compact(doc_text(other))->Ok_0) != digest
        }),
    ensures
        plan_of(bytes, desired) == Err::<ArtifactView, Seq<char>>(
            "saved-plan payload digest mismatch (expected "@ + hash_of(
                json_compact(doc_text(payload))->Ok_0,
            ) + ", found "@ + hash_of(json_compact(doc_text(other))->Ok_0) + ")"@,
        ),
{
    let digest = hash_of(json_compact(doc_text(payload))->Ok_0);
    let d = Doc::Fields(envelope_fields(digest, other));
    place_names();
    envelope_children(digest, other);
    walk_to_field(d, "schema"@);
    walk_to_field(d, "schemaVersion"@);
    walk_to_field(d, "payloadSha256"@);
    walk_to_field(d, "payload"@);
    let empty = Seq::<char>::empty();
    assert(json_text_at(bytes, empty + "/"@ + "schema"@) == text_in(d, empty + "/"@ + "schema"@));
    assert(json_number_at(bytes, "/schemaVersion"@) == number_in(d, "/schemaVersion"@));
    assert(json_text_at(bytes, empty + "/"@ + "payloadSha256"@) == text_in(
        d,
        empty + "/"@ + "payloadSha256"@,
    ));
    assert(plain("/payload"@));
    assert(at(d, "/payload"@) == Some(other));
    assert(json_part_at(bytes, "/payload"@) is Some);
}

} // verus!
