//! A shortcut manifest means what it says.
use vstd::prelude::*;

use crate::shortcut::{icon_of, ShowStyle};
use crate::shortcut_manifest::{
    after_manifest_line, after_manifest_lines, block_action, closed_state, create_names,
    delete_names, field_value, first_unknown, manifest_of, value_of, ActionView, BlockKind,
    BlockState, FieldsView, ManifestState, MAX_ACTIONS,
};
use crate::text::{begins_char, first_of, is_white, joined, lower_char, lowered, trimmed};
use crate::text_laws::{joined_parts_come_apart, lacks, trim_free, trimming_leaves_the_text};

verus! {

// ---------------------------------------------------------------------------
// Fields
// ---------------------------------------------------------------------------

/// No name stands twice.
pub open spec fn distinct_names(fields: FieldsView) -> bool {
    forall|i: int, j: int|
        0 <= i < j < fields.len() ==> (#[trigger] fields[i]).0 != (#[trigger] fields[j]).0
}

/// Where no name stands twice, a field is found by its name, and where none has
/// the name, none is found.
pub proof fn fields_are_found(fields: FieldsView, name: Seq<char>)
    requires
        distinct_names(fields),
    ensures
        forall|i: int|
            0 <= i < fields.len() && (#[trigger] fields[i]).0 == name ==> field_value(fields, name)
                == Some(fields[i].1),
        field_value(fields, name) is Some ==> exists|i: int|
            0 <= i < fields.len() && (#[trigger] fields[i]).0 == name && field_value(fields, name)
                == Some(fields[i].1),
    decreases fields.len(),
{
    if fields.len() > 0 {
        let rest = fields.skip(1);
        assert(distinct_names(rest)) by {
            assert forall|i: int, j: int| 0 <= i < j < rest.len() implies (#[trigger] rest[i]).0
                != (#[trigger] rest[j]).0 by {
                assert(rest[i] == fields[i + 1] && rest[j] == fields[j + 1]);
            }
        }
        fields_are_found(rest, name);
        assert forall|i: int| 0 <= i < fields.len() && (#[trigger] fields[i]).0 == name implies
            field_value(fields, name) == Some(fields[i].1) by {
            if i > 0 {
                assert(rest[i - 1] == fields[i]);
                assert(fields[0].0 != fields[i].0);
            }
        }
        if field_value(fields, name) is Some {
            if fields[0].0 != name {
                let k = choose|k: int|
                    0 <= k < rest.len() && (#[trigger] rest[k]).0 == name && field_value(rest, name)
                        == Some(rest[k].1);
                assert(fields[k + 1] == rest[k]);
            }
        }
    }
}

/// The line of a field: its name, `=`, and its value in quotes.
pub open spec fn field_line(name: Seq<char>, value: Seq<char>) -> Seq<char> {
    name + (seq!['='] + (seq!['"'] + value + seq!['"']))
}

/// A name that a field can have.
pub open spec fn is_field_name(name: Seq<char>) -> bool {
    &&& name.len() > 0
    &&& trim_free(name)
    &&& lacks(name, '=')
    &&& lacks(name, '\n')
    &&& name[0] != '[' && name[0] != '#' && name[0] != ';'
}

/// A value that stands in quotes on one line.
pub open spec fn is_field_value(value: Seq<char>) -> bool {
    lacks(value, '"') && lacks(value, '\n')
}

proof fn first_equals(name: Seq<char>, rest: Seq<char>)
    requires
        lacks(name, '='),
        rest.len() > 0,
        rest[0] == '=',
    ensures
        first_of(name + rest, '=') == name.len(),
    decreases name.len(),
{
    if name.len() == 0 {
        assert(name + rest =~= rest);
    } else {
        assert((name + rest)[0] == name[0]);
        assert((name + rest).skip(1) =~= name.skip(1) + rest);
        assert forall|i: int| 0 <= i < name.skip(1).len() implies #[trigger] name.skip(1)[i]
            != '=' by {
            assert(name.skip(1)[i] == name[i + 1]);
        }
        first_equals(name.skip(1), rest);
    }
}

proof fn field_lines_read(st: ManifestState, line: nat, name: Seq<char>, value: Seq<char>)
    requires
        st.current is Some,
        is_field_name(name),
        is_field_value(value),
    ensures
        ({
            let block = st.current->0;
            let r = after_manifest_line(st, line, field_line(name, value));
            &&& field_value(block.fields, lowered(name)) is Some ==> r is Err
            &&& field_value(block.fields, lowered(name)) is None ==> r == Ok::<
                ManifestState,
                Seq<char>,
            >(
                ManifestState {
                    current: Some(
                        BlockState {
                            fields: block.fields.push((lowered(name), value)),
                            ..block
                        },
                    ),
                    ..st
                },
            )
        }),
{
    let t = field_line(name, value);
    let quoted = seq!['"'] + value + seq!['"'];
    let rest = seq!['='] + quoted;
    let none = Seq::<char>::empty();
    assert(t[0] == name[0]);
    assert(t.last() == '"');
    assert(!is_white('"'));
    trimming_leaves_the_text(none, t, none);
    trimming_leaves_the_text(none, name, none);
    trimming_leaves_the_text(none, quoted, none);
    first_equals(name, rest);
    assert(t.take(name.len() as int) =~= name);
    assert(t.skip(name.len() as int + 1) =~= quoted);
    assert(lowered(name).len() == name.len());
    let inner = quoted.skip(1);
    assert(quoted[0] == '"');
    assert(inner.last() == '"');
    assert(inner.drop_last() =~= value);
    assert(!value.contains('"')) by {
        if value.contains('"') {
            let k = choose|k: int| 0 <= k < value.len() && value[k] == '"';
            assert(value[k] != '"');
        }
    }
}

// ---------------------------------------------------------------------------
// One block
// ---------------------------------------------------------------------------

/// The fields of a block: each name in lower case, with its value.
pub open spec fn fields_of(names: Seq<Seq<char>>, values: Seq<Seq<char>>) -> FieldsView {
    Seq::new(names.len(), |k: int| (lowered(names[k]), values[k]))
}

/// The lines of a block: its header, then its fields.
pub open spec fn block_lines(
    header: Seq<char>,
    names: Seq<Seq<char>>,
    values: Seq<Seq<char>>,
) -> Seq<Seq<char>> {
    seq![header] + Seq::new(names.len(), |k: int| field_line(names[k], values[k]))
}

/// Fields that a block can be written with.
pub open spec fn writable_fields(names: Seq<Seq<char>>, values: Seq<Seq<char>>) -> bool {
    &&& names.len() == values.len()
    &&& forall|k: int| 0 <= k < names.len() ==> is_field_name(#[trigger] names[k])
    &&& forall|k: int| 0 <= k < values.len() ==> is_field_value(#[trigger] values[k])
}

proof fn fields_read(
    st: ManifestState,
    lines: Seq<Seq<char>>,
    names: Seq<Seq<char>>,
    values: Seq<Seq<char>>,
    k: int,
)
    requires
        writable_fields(names, values),
        0 <= k <= names.len(),
        lines.len() == names.len() + 1,
        forall|j: int|
            0 <= j < names.len() ==> lines[j + 1] == field_line(#[trigger] names[j], values[j]),
        st.current is Some,
        st.current->0.fields == fields_of(names, values).take(k),
        distinct_names(fields_of(names, values).take(k)),
    ensures
        ({
            let all = fields_of(names, values);
            let r = after_manifest_lines(st, lines, k + 1);
            &&& distinct_names(all) ==> r == Ok::<ManifestState, Seq<char>>(
                ManifestState {
                    current: Some(BlockState { fields: all, ..st.current->0 }),
                    ..st
                },
            )
            &&& !distinct_names(all) ==> r is Err
        }),
    decreases names.len() - k,
{
    let all = fields_of(names, values);
    let some = all.take(k);
    if k == names.len() {
        assert(some =~= all);
    } else {
        assert(lines[k + 1] == field_line(names[k], values[k]));
        assert(is_field_name(names[k]));
        assert(is_field_value(values[k]));
        field_lines_read(st, (k + 2) as nat, names[k], values[k]);
        fields_are_found(some, lowered(names[k]));
        if field_value(some, lowered(names[k])) is Some {
            let i = choose|i: int|
                0 <= i < some.len() && (#[trigger] some[i]).0 == lowered(names[k]) && field_value(
                    some,
                    lowered(names[k]),
                ) == Some(some[i].1);
            assert(all[i] == some[i]);
            assert(all[k].0 == lowered(names[k]));
            assert(!distinct_names(all));
        } else {
            let more = all.take(k + 1);
            assert(more =~= some.push((lowered(names[k]), values[k])));
            assert(distinct_names(more)) by {
                assert forall|i: int, j: int| 0 <= i < j < more.len() implies (#[trigger] more[i]).0
                    != (#[trigger] more[j]).0 by {
                    if j < k {
                        assert(more[i] == some[i] && more[j] == some[j]);
                    } else {
                        assert(more[i] == some[i]);
                        if some[i].0 == lowered(names[k]) {
                            assert(field_value(some, lowered(names[k])) == Some(some[i].1));
                        }
                    }
                }
            }
            let next = ManifestState {
                current: Some(BlockState { fields: more, ..st.current->0 }),
                ..st
            };
            fields_read(next, lines, names, values, k + 1);
            assert(BlockState { fields: all, ..next.current->0 } == (BlockState {
                fields: all,
                ..st.current->0
            }));
        }
    }
}

/// A header that opens a block of a kind.
pub open spec fn opens(header: Seq<char>, kind: BlockKind) -> bool {
    lowered(header) == match kind {
        BlockKind::Create => seq!['[', 's', 'h', 'o', 'r', 't', 'c', 'u', 't', ']'],
        BlockKind::Delete => seq![
            '[', 'd', 'e', 'l', 'e', 't', 'e', '_', 's', 'h', 'o', 'r', 't', 'c', 'u', 't', ']',
        ],
    }
}

proof fn letters_are_plain(c: char)
    requires
        'a' <= lower_char(c) && lower_char(c) <= 'z' || lower_char(c) == '[' || lower_char(c) == ']'
            || lower_char(c) == '_',
    ensures
        !is_white(c),
        c != '\n',
        lower_char(c) == '[' ==> c == '[',
        lower_char(c) == ']' ==> c == ']',
{
    vstd::utf8::char_u32_cast(c, c as u32);
}

proof fn headers_read(header: Seq<char>, kind: BlockKind, line: nat, st: ManifestState)
    requires
        opens(header, kind),
        closed_state(st) is Ok,
    ensures
        lacks(header, '\n'),
        after_manifest_line(st, line, header) == Ok::<ManifestState, Seq<char>>(
            ManifestState {
                actions: closed_state(st)->Ok_0,
                current: Some(BlockState { kind, line, fields: Seq::empty() }),
            },
        ),
{
    reveal_strlit("SHORTCUT");
    reveal_strlit("DELETE_SHORTCUT");
    let none = Seq::<char>::empty();
    let low = lowered(header);
    let n = header.len() as int;
    assert(low.len() == n);
    assert forall|i: int| 0 <= i < n implies !is_white(#[trigger] header[i]) && header[i]
        != '\n' by {
        assert(low[i] == lower_char(header[i]));
        letters_are_plain(header[i]);
    }
    assert(low[0] == lower_char(header[0]) && low[n - 1] == lower_char(header[n - 1]));
    letters_are_plain(header[0]);
    letters_are_plain(header[n - 1]);
    assert(header.last() == header[n - 1]);
    trimming_leaves_the_text(none, header, none);
    let name = header.subrange(1, n - 1);
    assert(name[0] == header[1] && name.last() == header[n - 2]);
    trimming_leaves_the_text(none, name, none);
    assert(lowered(name) =~= low.subrange(1, n - 1));
    match kind {
        BlockKind::Create => {
            assert(lowered("SHORTCUT"@) =~= low.subrange(1, n - 1));
        },
        BlockKind::Delete => {
            assert(lowered("DELETE_SHORTCUT"@) =~= low.subrange(1, n - 1));
            assert(lowered("SHORTCUT"@).len() == 8);
        },
    }
}

/// What a manifest of one block gives: the action of its fields.
proof fn block_reads(
    header: Seq<char>,
    kind: BlockKind,
    names: Seq<Seq<char>>,
    values: Seq<Seq<char>>,
)
    requires
        opens(header, kind),
        writable_fields(names, values),
    ensures
        ({
            let all = fields_of(names, values);
            let r = manifest_of(joined(block_lines(header, names, values), seq!['\n']));
            &&& r is Ok ==> distinct_names(all) && r == Ok::<Seq<ActionView>, Seq<char>>(
                seq![block_action(kind, 1, all)->Ok_0],
            ) && block_action(kind, 1, all) is Ok
            &&& distinct_names(all) && block_action(kind, 1, all) is Ok ==> r is Ok
        }),
{
    let lines = block_lines(header, names, values);
    let all = fields_of(names, values);
    let start = ManifestState { actions: Seq::empty(), current: None };
    headers_read(header, kind, 1, start);
    assert forall|i: int| 0 <= i < lines.len() implies lacks(#[trigger] lines[i], '\n') by {
        if i > 0 {
            let k = i - 1;
            assert(is_field_name(names[k]));
            assert(is_field_value(values[k]));
            let t = field_line(names[k], values[k]);
            assert(lines[i] == t);
            assert forall|j: int| 0 <= j < t.len() implies #[trigger] t[j] != '\n' by {
                let a = names[k].len() as int;
                if j < a {
                    assert(t[j] == names[k][j]);
                } else if a + 2 <= j < a + 2 + values[k].len() {
                    assert(t[j] == values[k][j - a - 2]);
                }
            }
        } else {
            assert(lines[0] == header);
        }
    }
    joined_parts_come_apart(lines, '\n');
    let opened = ManifestState {
        actions: Seq::empty(),
        current: Some(BlockState { kind, line: 1, fields: Seq::empty() }),
    };
    assert(lines[0] == header);
    assert(all.take(0) =~= Seq::<(Seq<char>, Seq<char>)>::empty());
    fields_read(opened, lines, names, values, 0);
    assert(after_manifest_lines(start, lines, 0) == after_manifest_lines(opened, lines, 1));
    if distinct_names(all) && block_action(kind, 1, all) is Ok {
        assert(Seq::<ActionView>::empty().push(block_action(kind, 1, all)->Ok_0) =~= seq![
            block_action(kind, 1, all)->Ok_0,
        ]);
    }
}

/// The names are all different, none of them unknown, and not two of them mean
/// one field.
pub open spec fn sound_names(names: Seq<Seq<char>>) -> bool {
    forall|i: int, j: int|
        0 <= i < j < names.len() ==> lowered(#[trigger] names[i]) != lowered(#[trigger] names[j])
}

/// An accepted block that creates a shortcut means what its fields say, in
/// whatever order and case they stand: the target is the value of `Target`, the
/// output that of `Output`, and each other option that of the field of its name,
/// or of its other name. An option without a field is absent, and the shortcut
/// is shown normally where no style is named.
pub proof fn accepted_blocks_mean_their_fields(
    header: Seq<char>,
    names: Seq<Seq<char>>,
    values: Seq<Seq<char>>,
    k: int,
)
    requires
        opens(header, BlockKind::Create),
        writable_fields(names, values),
        0 <= k < names.len(),
    ensures
        manifest_of(joined(block_lines(header, names, values), seq!['\n'])) matches Ok(actions)
            ==> {
            &&& actions.len() == 1
            &&& actions[0] is Create
            &&& ({
                let o = actions[0]->Create_0;
                let n = lowered(names[k]);
                &&& n == "target"@ ==> o.target == values[k] && values[k].len() > 0
                &&& n == "output"@ ==> o.output == values[k] && values[k].len() > 0
                &&& n == "workdir"@ || n == "workingdirectory"@ ==> o.working_directory == Some(
                    values[k],
                )
                &&& n == "args"@ || n == "arguments"@ ==> o.arguments == Some(values[k])
                &&& n == "description"@ ==> o.description == Some(values[k])
                &&& n == "icon"@ ==> icon_of(values[k]) is Ok && o.icon_path == Some(
                    icon_of(values[k])->Ok_0.0,
                ) && o.icon_index == icon_of(values[k])->Ok_0.1 as i32
                &&& n == "style"@ && lowered(values[k]) == "normal"@ ==> o.style
                    == ShowStyle::Normal
                &&& n == "style"@ && lowered(values[k]) == "hidden"@ ==> o.style
                    == ShowStyle::Hidden
                &&& n == "style"@ && lowered(values[k]) == "minimized"@ ==> o.style
                    == ShowStyle::Minimized
            })
        },
{
    reveal_strlit("normal");
    reveal_strlit("hidden");
    reveal_strlit("minimized");
    let all = fields_of(names, values);
    block_reads(header, BlockKind::Create, names, values);
    if manifest_of(joined(block_lines(header, names, values), seq!['\n'])) is Ok {
        let n = lowered(names[k]);
        assert(all[k] == (n, values[k]));
        fields_are_found(all, n);
        assert(field_value(all, n) == Some(values[k]));
        assert("normal"@[0] == 'n' && "hidden"@[0] == 'h' && "minimized"@[0] == 'm');
    }
}

/// Some field has the name.
pub open spec fn has_field(names: Seq<Seq<char>>, name: Seq<char>) -> bool {
    exists|k: int| 0 <= k < names.len() && lowered(#[trigger] names[k]) == name
}

/// An option for which an accepted block has no field is absent; the target and
/// the output are never absent, and no other fields stand in an accepted block.
pub proof fn absent_fields_leave_options_out(
    header: Seq<char>,
    names: Seq<Seq<char>>,
    values: Seq<Seq<char>>,
    k: int,
)
    requires
        opens(header, BlockKind::Create),
        writable_fields(names, values),
    ensures
        manifest_of(joined(block_lines(header, names, values), seq!['\n'])) matches Ok(actions)
            ==> {
            let o = actions[0]->Create_0;
            &&& has_field(names, "target"@) && has_field(names, "output"@)
            &&& !has_field(names, "workdir"@) && !has_field(names, "workingdirectory"@)
                ==> o.working_directory is None
            &&& !has_field(names, "args"@) && !has_field(names, "arguments"@) ==> o.arguments
                is None
            &&& !has_field(names, "description"@) ==> o.description is None
            &&& !has_field(names, "icon"@) ==> o.icon_path is None && o.icon_index == 0
            &&& !has_field(names, "style"@) ==> o.style == ShowStyle::Normal
            &&& 0 <= k < names.len() ==> ({
                let n = lowered(names[k]);
                n == "target"@ || n == "output"@ || n == "workdir"@ || n == "workingdirectory"@
                    || n == "args"@ || n == "arguments"@ || n == "description"@ || n == "icon"@ || n
                    == "style"@
            })
        },
{
    reveal_strlit("normal");
    let all = fields_of(names, values);
    block_reads(header, BlockKind::Create, names, values);
    if manifest_of(joined(block_lines(header, names, values), seq!['\n'])) is Ok {
        absent_is_none(names, values, "target"@);
        absent_is_none(names, values, "output"@);
        absent_is_none(names, values, "workdir"@);
        absent_is_none(names, values, "workingdirectory"@);
        absent_is_none(names, values, "args"@);
        absent_is_none(names, values, "arguments"@);
        absent_is_none(names, values, "description"@);
        absent_is_none(names, values, "icon"@);
        absent_is_none(names, values, "style"@);
        assert(lowered("normal"@) =~= "normal"@);
        if 0 <= k < names.len() {
            unknown_is_reported(all, create_names(), k);
            assert(all[k].0 == lowered(names[k]));
        }
    }
}

proof fn absent_is_none(names: Seq<Seq<char>>, values: Seq<Seq<char>>, name: Seq<char>)
    requires
        writable_fields(names, values),
        distinct_names(fields_of(names, values)),
    ensures
        field_value(fields_of(names, values), name) is Some ==> has_field(names, name),
{
    let all = fields_of(names, values);
    fields_are_found(all, name);
    if field_value(all, name) is Some {
        let i = choose|i: int|
            0 <= i < all.len() && (#[trigger] all[i]).0 == name && field_value(all, name) == Some(
                all[i].1,
            );
        assert(lowered(names[i]) == name);
    }
}

proof fn unknown_is_reported(fields: FieldsView, allowed: Seq<Seq<char>>, k: int)
    requires
        0 <= k < fields.len(),
        first_unknown(fields, allowed) is None,
    ensures
        allowed.contains(fields[k].0),
    decreases fields.len(),
{
    if k < fields.len() - 1 {
        assert(fields.drop_last()[k] == fields[k]);
        unknown_is_reported(fields.drop_last(), allowed, k);
    }
}

/// A block that names a target and an output, and nothing besides but known
/// fields of which no two mean the same, is accepted, unless its icon or style
/// is none.
pub proof fn sound_blocks_are_accepted(
    header: Seq<char>,
    names: Seq<Seq<char>>,
    values: Seq<Seq<char>>,
    target: int,
    output: int,
)
    requires
        opens(header, BlockKind::Create),
        writable_fields(names, values),
        sound_names(names),
        0 <= target < names.len(),
        0 <= output < names.len(),
        lowered(names[target]) == "target"@,
        lowered(names[output]) == "output"@,
        values[target].len() > 0,
        values[output].len() > 0,
        forall|k: int|
            0 <= k < names.len() ==> ({
                let n = lowered(#[trigger] names[k]);
                n == "target"@ || n == "output"@ || n == "workdir"@ || n == "args"@ || n
                    == "description"@
            }),
    ensures
        manifest_of(joined(block_lines(header, names, values), seq!['\n'])) is Ok,
{
    reveal_strlit("target");
    reveal_strlit("output");
    reveal_strlit("workdir");
    reveal_strlit("workingdirectory");
    reveal_strlit("args");
    reveal_strlit("arguments");
    reveal_strlit("description");
    reveal_strlit("icon");
    reveal_strlit("style");
    reveal_strlit("normal");
    let all = fields_of(names, values);
    block_reads(header, BlockKind::Create, names, values);
    assert(distinct_names(all)) by {
        assert forall|i: int, j: int| 0 <= i < j < all.len() implies (#[trigger] all[i]).0 != (
        #[trigger] all[j]).0 by {
            assert(lowered(names[i]) != lowered(names[j]));
        }
    }
    let allowed = create_names();
    assert(allowed[0] == "target"@ && allowed[1] == "output"@ && allowed[2] == "workdir"@
        && allowed[4] == "args"@ && allowed[6] == "description"@);
    assert forall|k: int| 0 <= k < all.len() implies allowed.contains((#[trigger] all[k]).0) by {
        assert(all[k].0 == lowered(names[k]));
    }
    known_fields_pass(all, allowed);
    fields_are_found(all, "target"@);
    fields_are_found(all, "output"@);
    assert(all[target] == (lowered(names[target]), values[target]));
    assert(all[output] == (lowered(names[output]), values[output]));
    absent_is_none(names, values, "workingdirectory"@);
    absent_is_none(names, values, "arguments"@);
    absent_is_none(names, values, "icon"@);
    absent_is_none(names, values, "style"@);
    assert("target"@.len() == 6 && "output"@.len() == 6 && "workdir"@.len() == 7 && "args"@.len()
        == 4 && "description"@.len() == 11 && "workingdirectory"@.len() == 16
        && "arguments"@.len() == 9 && "icon"@.len() == 4 && "style"@.len() == 5);
    assert("args"@[0] == 'a' && "icon"@[0] == 'i');
    assert(lowered("normal"@) =~= "normal"@);
}

proof fn known_fields_pass(fields: FieldsView, allowed: Seq<Seq<char>>)
    requires
        forall|k: int| 0 <= k < fields.len() ==> allowed.contains((#[trigger] fields[k]).0),
    ensures
        first_unknown(fields, allowed) is None,
    decreases fields.len(),
{
    if fields.len() > 0 {
        let front = fields.drop_last();
        assert forall|k: int| 0 <= k < front.len() implies allowed.contains(
            (#[trigger] front[k]).0,
        ) by {
            assert(front[k] == fields[k]);
        }
        known_fields_pass(front, allowed);
        assert(allowed.contains(fields[fields.len() - 1].0));
    }
}

/// A block that deletes a shortcut deletes the file that it names, as its `Path`
/// or its `Output`.
pub proof fn deletion_blocks_mean_their_path(
    header: Seq<char>,
    name: Seq<char>,
    value: Seq<char>,
)
    requires
        opens(header, BlockKind::Delete),
        is_field_name(name),
        is_field_value(value),
        lowered(name) == "path"@ || lowered(name) == "output"@,
        value.len() > 0,
    ensures
        manifest_of(joined(block_lines(header, seq![name], seq![value]), seq!['\n'])) == Ok::<
            Seq<ActionView>,
            Seq<char>,
        >(seq![ActionView::Delete(value)]),
{
    reveal_strlit("path");
    reveal_strlit("output");
    let names = seq![name];
    let values = seq![value];
    let all = fields_of(names, values);
    block_reads(header, BlockKind::Delete, names, values);
    assert(distinct_names(all));
    let allowed = delete_names();
    assert(allowed[0] == "path"@ && allowed[1] == "output"@);
    assert(all[0] == (lowered(name), value));
    assert forall|k: int| 0 <= k < all.len() implies allowed.contains((#[trigger] all[k]).0) by {
        assert(k == 0);
    }
    known_fields_pass(all, allowed);
    fields_are_found(all, "path"@);
    fields_are_found(all, "output"@);
    assert("path"@.len() == 4 && "output"@.len() == 6);
}

// ---------------------------------------------------------------------------
// Several blocks
// ---------------------------------------------------------------------------

/// The line of a block tells only where errors are.
proof fn lines_do_not_matter(kind: BlockKind, fields: FieldsView, a: nat, b: nat)
    ensures
        block_action(kind, a, fields) is Ok ==> block_action(kind, b, fields) == block_action(
            kind,
            a,
            fields,
        ),
{
}

/// The same block, wherever it stands.
spec fn same_block(a: Option<BlockState>, b: Option<BlockState>) -> bool {
    match (a, b) {
        (None, None) => true,
        (Some(x), Some(y)) => x.kind == y.kind && x.fields == y.fields,
        _ => false,
    }
}

proof fn lines_go_on(
    first: Seq<ActionView>,
    st: ManifestState,
    next: ManifestState,
    lines: Seq<Seq<char>>,
    i: int,
    all: Seq<Seq<char>>,
    offset: int,
)
    requires
        0 <= i <= lines.len(),
        0 <= offset,
        all.len() == offset + lines.len(),
        forall|k: int| 0 <= k < lines.len() ==> all[offset + k] == #[trigger] lines[k],
        after_manifest_lines(st, lines, i) is Ok,
        closed_state(after_manifest_lines(st, lines, i)->Ok_0) is Ok,
        st.current is None ==> st.actions.len() == 0 && closed_state(next) == Ok::<
            Seq<ActionView>,
            Seq<char>,
        >(first),
        st.current is Some ==> next.actions == first + st.actions && same_block(
            st.current,
            next.current,
        ),
    ensures
        after_manifest_lines(next, all, offset + i) is Ok,
        closed_state(after_manifest_lines(next, all, offset + i)->Ok_0) == Ok::<
            Seq<ActionView>,
            Seq<char>,
        >(first + closed_state(after_manifest_lines(st, lines, i)->Ok_0)->Ok_0),
    decreases lines.len() - i,
{
    if i == lines.len() {
        match st.current {
            None => {
                assert(first + st.actions =~= first);
            },
            Some(block) => {
                let other = next.current->0;
                lines_do_not_matter(block.kind, block.fields, block.line, other.line);
                let a = block_action(block.kind, block.line, block.fields)->Ok_0;
                assert((first + st.actions).push(a) =~= first + st.actions.push(a));
            },
        }
    } else {
        assert(all[offset + i] == lines[i]);
        let t = trimmed(lines[i]);
        let one = after_manifest_line(st, (i + 1) as nat, lines[i])->Ok_0;
        let line = (offset + i + 1) as nat;
        if t.len() == 0 || begins_char(t, '#') || begins_char(t, ';') {
            lines_go_on(first, st, next, lines, i + 1, all, offset);
        } else if begins_char(t, '[') {
            let kind = one.current->0.kind;
            if let Some(block) = st.current {
                let other = next.current->0;
                lines_do_not_matter(block.kind, block.fields, block.line, other.line);
                let a = block_action(block.kind, block.line, block.fields)->Ok_0;
                assert((first + st.actions).push(a) =~= first + st.actions.push(a));
            } else {
                assert(first + st.actions =~= first);
            }
            let other = ManifestState {
                actions: first + one.actions,
                current: Some(BlockState { kind, line, fields: Seq::empty() }),
            };
            assert(after_manifest_line(next, line, lines[i]) == Ok::<ManifestState, Seq<char>>(
                other,
            ));
            lines_go_on(first, one, other, lines, i + 1, all, offset);
        } else {
            let other = ManifestState {
                actions: next.actions,
                current: Some(
                    BlockState { fields: one.current->0.fields, ..next.current->0 },
                ),
            };
            assert(after_manifest_line(next, line, lines[i]) == Ok::<ManifestState, Seq<char>>(
                other,
            )) by {
                let k = first_of(t, '=');
                quotes_do_not_depend_on_lines(trimmed(t.skip(k + 1)), (i + 1) as nat, line);
            }
            lines_go_on(first, one, other, lines, i + 1, all, offset);
        }
    }
}

proof fn quotes_do_not_depend_on_lines(value: Seq<char>, a: nat, b: nat)
    ensures
        value_of(value, a) is Ok ==> value_of(value, b) == value_of(value, a),
{
}

proof fn lines_begin(
    st: ManifestState,
    lines: Seq<Seq<char>>,
    i: int,
    all: Seq<Seq<char>>,
)
    requires
        0 <= i <= lines.len(),
        lines.len() <= all.len(),
        forall|k: int| 0 <= k < lines.len() ==> all[k] == #[trigger] lines[k],
        after_manifest_lines(st, lines, i) is Ok,
    ensures
        after_manifest_lines(st, all, i) == after_manifest_lines(
            after_manifest_lines(st, lines, i)->Ok_0,
            all,
            lines.len() as int,
        ),
    decreases lines.len() - i,
{
    if i < lines.len() {
        assert(all[i] == lines[i]);
        lines_begin(
            after_manifest_line(st, (i + 1) as nat, lines[i])->Ok_0,
            lines,
            i + 1,
            all,
        );
    }
}

/// Manifests add up: one behind the other, two accepted manifests ask for what
/// the first asks for and then for what the second does, up to the limit.
pub proof fn manifests_add_up(a: Seq<Seq<char>>, b: Seq<Seq<char>>)
    requires
        a.len() > 0,
        b.len() > 0,
        forall|i: int| 0 <= i < a.len() ==> lacks(#[trigger] a[i], '\n'),
        forall|i: int| 0 <= i < b.len() ==> lacks(#[trigger] b[i], '\n'),
        manifest_of(joined(a, seq!['\n'])) is Ok,
        manifest_of(joined(b, seq!['\n'])) is Ok,
    ensures
        ({
            let x = manifest_of(joined(a, seq!['\n']))->Ok_0;
            let y = manifest_of(joined(b, seq!['\n']))->Ok_0;
            x.len() + y.len() <= MAX_ACTIONS ==> manifest_of(joined(a + b, seq!['\n'])) == Ok::<
                Seq<ActionView>,
                Seq<char>,
            >(x + y)
        }),
{
    let all = a + b;
    let start = ManifestState { actions: Seq::empty(), current: None };
    assert forall|i: int| 0 <= i < all.len() implies lacks(#[trigger] all[i], '\n') by {
        if i < a.len() {
            assert(all[i] == a[i]);
        } else {
            assert(all[i] == b[i - a.len()]);
        }
    }
    joined_parts_come_apart(a, '\n');
    joined_parts_come_apart(b, '\n');
    joined_parts_come_apart(all, '\n');
    let st = after_manifest_lines(start, a, 0)->Ok_0;
    let x = closed_state(st)->Ok_0;
    lines_begin(start, a, 0, all);
    assert forall|k: int| 0 <= k < b.len() implies all[a.len() + k] == #[trigger] b[k] by {
    }
    lines_go_on(x, start, st, b, 0, all, a.len() as int);
}

} // verus!
