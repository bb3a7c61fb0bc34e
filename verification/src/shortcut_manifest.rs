//! Parser for declarative shortcut manifests.
//!
//! A manifest is a list of blocks with `Name=Value` fields:
//!
//! ```text
//! [SHORTCUT]
//! Target=C:\Program Files\Acme\Acme.exe
//! Output=shell:Startup\Acme.lnk
//!
//! [DELETE_SHORTCUT]
//! Path=shell:Startup\Old Acme.lnk
//! ```
use vstd::prelude::*;
use vstd::slice::slice_subrange;

use crate::number::{dec_of, push_dec};
use crate::shortcut::{icon_of, parse_icon_spec, CreateOptions, OptionsView, ShowStyle};
use crate::text::{
    begins_char, chars_of, comes_before, concat, concat3, contains_char, debug_text, ends_char,
    ends_with_char, find_char, first_of, is_text, lowered, same_ignoring_case, same_str, split,
    split_by, starts_with_char, string_of, text_less, text_result, to_debug, to_lower, trim,
    trimmed, unit_result, views, views_push,
};

verus! {

/// The most actions that a manifest may hold.
pub const MAX_ACTIONS: usize = 1_000;

/// What a block asks for.
#[derive(Debug, PartialEq, Eq)]
pub enum Action {
    Create(CreateOptions),
    Delete(String),
}

/// What an `Action` stands for.
pub enum ActionView {
    Create(OptionsView),
    Delete(Seq<char>),
}

impl View for Action {
    type V = ActionView;

    open spec fn view(&self) -> ActionView {
        match self {
            Action::Create(o) => ActionView::Create(o@),
            Action::Delete(p) => ActionView::Delete(p@),
        }
    }
}

/// A parsed manifest.
#[derive(Debug, PartialEq, Eq)]
pub struct Manifest {
    pub actions: Vec<Action>,
}

/// The kind of a block.
#[derive(Clone, Copy, Debug, PartialEq, Eq, Structural)]
pub enum BlockKind {
    Create,
    Delete,
}

/// The fields of a block, in the order of its lines; no name occurs twice.
pub type FieldsView = Seq<(Seq<char>, Seq<char>)>;

/// A field: its name in lower case and its value.
#[derive(Debug)]
pub struct FieldEntry {
    pub name: String,
    pub value: String,
}

impl View for FieldEntry {
    type V = (Seq<char>, Seq<char>);

    open spec fn view(&self) -> (Seq<char>, Seq<char>) {
        (self.name@, self.value@)
    }
}

/// The value of a field.
pub open spec fn field_value(fields: FieldsView, name: Seq<char>) -> Option<Seq<char>>
    decreases fields.len(),
{
    if fields.len() == 0 {
        None
    } else if fields[0].0 == name {
        Some(fields[0].1)
    } else {
        field_value(fields.skip(1), name)
    }
}

/// A copy of the value of a field.
fn get_field(fields: &Vec<FieldEntry>, name: &str) -> (r: Option<String>)
    ensures
        crate::text::opt_text(r) == field_value(views(fields@), name@),
{
    let ghost all = views(fields@);
    assert(all.skip(0) =~= all);
    for i in 0..fields.len()
        invariant
            all == views(fields@),
            field_value(all, name@) == field_value(all.skip(i as int), name@),
    {
        assert(all.skip(i as int)[0] == fields@[i as int]@);
        assert(all.skip(i as int).skip(1) =~= all.skip(i + 1));
        if same_str(fields[i].name.as_str(), name) {
            return Some(fields[i].value.clone());
        }
    }
    None
}

// ---------------------------------------------------------------------------
// Values
// ---------------------------------------------------------------------------

/// The words that place a message at a line.
pub open spec fn at_line(line: nat, message: Seq<char>) -> Seq<char> {
    "line "@ + dec_of(line) + ": "@ + message
}

/// The words that place a message at a block.
pub open spec fn at_block(line: nat, message: Seq<char>) -> Seq<char> {
    "block at line "@ + dec_of(line) + ": "@ + message
}

fn line_message(line: usize, message: &str) -> (r: String)
    ensures
        r@ == at_line(line as nat, message@),
{
    let mut out = "line ".to_owned();
    push_dec(&mut out, line as u64);
    out.append(": ");
    out.append(message);
    out
}

fn block_message(line: usize, message: &str) -> (r: String)
    ensures
        r@ == at_block(line as nat, message@),
{
    let mut out = "block at line ".to_owned();
    push_dec(&mut out, line as u64);
    out.append(": ");
    out.append(message);
    out
}

/// A value without its quotes. Quotes stand around the whole value or nowhere.
pub open spec fn value_of(value: Seq<char>, line: nat) -> Result<Seq<char>, Seq<char>> {
    if begins_char(value, '"') {
        let rest = value.skip(1);
        if !ends_char(rest, '"') {
            Err(at_line(line, "unterminated quoted value"@))
        } else if rest.drop_last().contains('"') {
            Err(at_line(line, "embedded quote is not supported in a quoted manifest value"@))
        } else {
            Ok(rest.drop_last())
        }
    } else if ends_char(value, '"') {
        Err(at_line(line, "unmatched quote in manifest value"@))
    } else {
        Ok(value)
    }
}

/// Takes the quotes off a value.
pub fn unquote(value: &[char], line: usize) -> (r: Result<String, String>)
    ensures
        text_result(r) == value_of(value@, line as nat),
{
    if starts_with_char(value, '"') {
        let rest = slice_subrange(value, 1, value.len());
        if !ends_with_char(rest, '"') {
            return Err(line_message(line, "unterminated quoted value"));
        }
        let inner = slice_subrange(rest, 0, rest.len() - 1);
        assert(inner@ =~= rest@.drop_last());
        if contains_char(inner, '"') {
            return Err(
                line_message(
                    line,
                    "embedded quote is not supported in a quoted manifest value",
                ),
            );
        }
        Ok(string_of(inner))
    } else {
        if ends_with_char(value, '"') {
            return Err(line_message(line, "unmatched quote in manifest value"));
        }
        Ok(string_of(value))
    }
}

// ---------------------------------------------------------------------------
// Blocks
// ---------------------------------------------------------------------------

/// A name is one of `allowed`.
pub open spec fn is_allowed(name: Seq<char>, allowed: Seq<Seq<char>>) -> bool {
    allowed.contains(name)
}

/// Of the names that are not allowed, the one that comes first.
pub open spec fn first_unknown(fields: FieldsView, allowed: Seq<Seq<char>>) -> Option<Seq<char>>
    decreases fields.len(),
{
    if fields.len() == 0 {
        None
    } else {
        let before = first_unknown(fields.drop_last(), allowed);
        let name = fields.last().0;
        if is_allowed(name, allowed) {
            before
        } else {
            match before {
                None => Some(name),
                Some(other) => if text_less(name, other) {
                    Some(name)
                } else {
                    before
                },
            }
        }
    }
}

/// The names of a block that creates a link.
pub open spec fn create_names() -> Seq<Seq<char>> {
    seq![
        "target"@,
        "output"@,
        "workdir"@,
        "workingdirectory"@,
        "args"@,
        "arguments"@,
        "description"@,
        "icon"@,
        "style"@,
    ]
}

/// The names of a block that deletes a link.
pub open spec fn delete_names() -> Seq<Seq<char>> {
    seq!["path"@, "output"@]
}

/// The names that a block may use.
pub open spec fn names_of(kind: BlockKind) -> Seq<Seq<char>> {
    match kind {
        BlockKind::Create => create_names(),
        BlockKind::Delete => delete_names(),
    }
}

fn is_known(kind: BlockKind, name: &str) -> (b: bool)
    ensures
        b == is_allowed(name@, names_of(kind)),
{
    let ghost names = names_of(kind);
    match kind {
        BlockKind::Create => {
            proof {
                assert(names[0] == "target"@ && names[1] == "output"@ && names[2] == "workdir"@
                    && names[3] == "workingdirectory"@ && names[4] == "args"@ && names[5]
                    == "arguments"@ && names[6] == "description"@ && names[7] == "icon"@ && names[8]
                    == "style"@);
            }
            same_str(name, "target") || same_str(name, "output") || same_str(name, "workdir")
                || same_str(name, "workingdirectory") || same_str(name, "args") || same_str(
                name,
                "arguments",
            ) || same_str(name, "description") || same_str(name, "icon") || same_str(name, "style")
        },
        BlockKind::Delete => {
            proof {
                assert(names[0] == "path"@ && names[1] == "output"@);
            }
            same_str(name, "path") || same_str(name, "output")
        },
    }
}

/// The refusal of a block with an unknown field.
pub open spec fn unknown_refused(
    fields: FieldsView,
    kind: BlockKind,
    line: nat,
) -> Result<(), Seq<char>> {
    match first_unknown(fields, names_of(kind)) {
        Some(name) => Err(at_block(line, "unknown field "@ + debug_text(name))),
        None => Ok(()),
    }
}

/// Refuses a block with an unknown field.
fn reject_unknown(fields: &Vec<FieldEntry>, kind: BlockKind, line: usize) -> (r: Result<
    (),
    String,
>)
    ensures
        unit_result(r) == unknown_refused(views(fields@), kind, line as nat),
{
    let ghost all = views(fields@);
    let mut worst: Option<String> = None;
    assert(all.take(0) =~= Seq::<(Seq<char>, Seq<char>)>::empty());
    for i in 0..fields.len()
        invariant
            all == views(fields@),
            crate::text::opt_text(worst) == first_unknown(all.take(i as int), names_of(kind)),
    {
        assert(all.take(i + 1).drop_last() =~= all.take(i as int));
        assert(all.take(i + 1).last() == fields@[i as int]@);
        let name = fields[i].name.as_str();
        if !is_known(kind, name) {
            let replace = match &worst {
                None => true,
                Some(other) => {
                    let x = chars_of(name);
                    let y = chars_of(other.as_str());
                    comes_before(x.as_slice(), y.as_slice())
                },
            };
            if replace {
                worst = Some(name.to_owned());
            }
        }
    }
    assert(all.take(all.len() as int) =~= all);
    match worst {
        Some(name) => Err(
            block_message(
                line,
                concat("unknown field ", to_debug(name.as_str()).as_str()).as_str(),
            ),
        ),
        None => Ok(()),
    }
}

/// The refusal of a block that uses both names of one field.
pub open spec fn aliases_refused(
    fields: FieldsView,
    left: Seq<char>,
    right: Seq<char>,
    line: nat,
) -> Result<(), Seq<char>> {
    if field_value(fields, left) is Some && field_value(fields, right) is Some {
        Err(at_block(line, left + " and "@ + right + " are aliases; specify only one"@))
    } else {
        Ok(())
    }
}

/// Refuses a block that uses both names of one field.
fn reject_alias_pair(fields: &Vec<FieldEntry>, left: &str, right: &str, line: usize) -> (r: Result<
    (),
    String,
>)
    ensures
        unit_result(r) == aliases_refused(views(fields@), left@, right@, line as nat),
{
    if get_field(fields, left).is_some() && get_field(fields, right).is_some() {
        let mut message = concat3(left, " and ", right);
        message.append(" are aliases; specify only one");
        return Err(block_message(line, message.as_str()));
    }
    Ok(())
}

/// A value that has to be there and not be empty.
pub open spec fn required_value(
    fields: FieldsView,
    name: Seq<char>,
    line: nat,
) -> Result<Seq<char>, Seq<char>> {
    match field_value(fields, name) {
        Some(v) => if v.len() != 0 {
            Ok(v)
        } else {
            Err(at_block(line, "[SHORTCUT] requires "@ + name))
        },
        None => Err(at_block(line, "[SHORTCUT] requires "@ + name)),
    }
}

/// Reads a value that has to be there.
fn required(fields: &Vec<FieldEntry>, name: &str, line: usize) -> (r: Result<String, String>)
    ensures
        text_result(r) == required_value(views(fields@), name@, line as nat),
{
    if let Some(v) = get_field(fields, name) {
        if !v.as_str().is_empty() {
            return Ok(v);
        }
    }
    Err(block_message(line, concat("[SHORTCUT] requires ", name).as_str()))
}

/// The value of a field under either of its names.
pub open spec fn either(
    fields: FieldsView,
    left: Seq<char>,
    right: Seq<char>,
) -> Option<Seq<char>> {
    match field_value(fields, left) {
        Some(v) => Some(v),
        None => field_value(fields, right),
    }
}

fn get_either(fields: &Vec<FieldEntry>, left: &str, right: &str) -> (r: Option<String>)
    ensures
        crate::text::opt_text(r) == either(views(fields@), left@, right@),
{
    match get_field(fields, left) {
        Some(v) => Some(v),
        None => get_field(fields, right),
    }
}

/// The icon of a block.
pub open spec fn icon_value(fields: FieldsView, line: nat) -> Result<
    (Option<Seq<char>>, int),
    Seq<char>,
> {
    match field_value(fields, "icon"@) {
        None => Ok((None, 0)),
        Some(spec) => match icon_of(spec) {
            Ok((path, index)) => Ok((Some(path), index)),
            Err(e) => Err(at_block(line, e)),
        },
    }
}

fn get_icon(fields: &Vec<FieldEntry>, line: usize) -> (r: Result<(Option<String>, i32), String>)
    ensures
        match r {
            Ok((path, index)) => icon_value(views(fields@), line as nat) == Ok::<
                (Option<Seq<char>>, int),
                Seq<char>,
            >((crate::text::opt_text(path), index as int)),
            Err(e) => icon_value(views(fields@), line as nat) == Err::<
                (Option<Seq<char>>, int),
                Seq<char>,
            >(e@),
        },
{
    match get_field(fields, "icon") {
        None => Ok((None, 0)),
        Some(spec) => match parse_icon_spec(spec.as_str()) {
            Ok((path, index)) => Ok((Some(path), index)),
            Err(e) => Err(block_message(line, e.as_str())),
        },
    }
}

/// The style of a block; `normal` where none is given.
pub open spec fn style_value(fields: FieldsView, line: nat) -> Result<ShowStyle, Seq<char>> {
    let name = match field_value(fields, "style"@) {
        Some(v) => lowered(v),
        None => lowered("normal"@),
    };
    if name == "normal"@ {
        Ok(ShowStyle::Normal)
    } else if name == "hidden"@ {
        Ok(ShowStyle::Hidden)
    } else if name == "minimized"@ {
        Ok(ShowStyle::Minimized)
    } else {
        Err(
            at_block(
                line,
                "unsupported Style="@ + debug_text(name)
                    + "; expected normal, hidden, or minimized"@,
            ),
        )
    }
}

fn get_style(fields: &Vec<FieldEntry>, line: usize) -> (r: Result<ShowStyle, String>)
    ensures
        match r {
            Ok(style) => style_value(views(fields@), line as nat) == Ok::<ShowStyle, Seq<char>>(
                style,
            ),
            Err(e) => style_value(views(fields@), line as nat) == Err::<ShowStyle, Seq<char>>(e@),
        },
{
    let given = match get_field(fields, "style") {
        Some(v) => v,
        None => "normal".to_owned(),
    };
    let chars = chars_of(given.as_str());
    let low = to_lower(chars.as_slice());
    let name = low.as_slice();
    if is_text(name, "normal") {
        Ok(ShowStyle::Normal)
    } else if is_text(name, "hidden") {
        Ok(ShowStyle::Hidden)
    } else if is_text(name, "minimized") {
        Ok(ShowStyle::Minimized)
    } else {
        let shown = to_debug(string_of(name).as_str());
        Err(
            block_message(
                line,
                concat3(
                    "unsupported Style=",
                    shown.as_str(),
                    "; expected normal, hidden, or minimized",
                ).as_str(),
            ),
        )
    }
}

/// The action of a block that creates a link.
pub open spec fn create_action(fields: FieldsView, line: nat) -> Result<ActionView, Seq<char>> {
    let unknown = unknown_refused(fields, BlockKind::Create, line);
    let workdirs = aliases_refused(fields, "workdir"@, "workingdirectory"@, line);
    let args = aliases_refused(fields, "args"@, "arguments"@, line);
    let target = required_value(fields, "target"@, line);
    let output = required_value(fields, "output"@, line);
    let icon = icon_value(fields, line);
    let style = style_value(fields, line);
    if unknown is Err {
        Err(unknown->Err_0)
    } else if workdirs is Err {
        Err(workdirs->Err_0)
    } else if args is Err {
        Err(args->Err_0)
    } else if target is Err {
        Err(target->Err_0)
    } else if output is Err {
        Err(output->Err_0)
    } else if icon is Err {
        Err(icon->Err_0)
    } else if style is Err {
        Err(style->Err_0)
    } else {
        Ok(
            ActionView::Create(
                OptionsView {
                    target: target->Ok_0,
                    output: output->Ok_0,
                    working_directory: either(fields, "workdir"@, "workingdirectory"@),
                    arguments: either(fields, "args"@, "arguments"@),
                    description: field_value(fields, "description"@),
                    icon_path: (icon->Ok_0).0,
                    icon_index: (icon->Ok_0).1 as i32,
                    style: style->Ok_0,
                },
            ),
        )
    }
}

/// The action of a block that deletes a link.
pub open spec fn delete_action(fields: FieldsView, line: nat) -> Result<ActionView, Seq<char>> {
    let unknown = unknown_refused(fields, BlockKind::Delete, line);
    let paths = aliases_refused(fields, "path"@, "output"@, line);
    let path = either(fields, "path"@, "output"@);
    if unknown is Err {
        Err(unknown->Err_0)
    } else if paths is Err {
        Err(paths->Err_0)
    } else if path is Some && (path->0).len() != 0 {
        Ok(ActionView::Delete(path->0))
    } else {
        Err(at_block(line, "[DELETE_SHORTCUT] requires Path"@))
    }
}

/// The action of a block.
pub open spec fn block_action(kind: BlockKind, line: nat, fields: FieldsView) -> Result<
    ActionView,
    Seq<char>,
> {
    match kind {
        BlockKind::Create => create_action(fields, line),
        BlockKind::Delete => delete_action(fields, line),
    }
}

/// An action, or the words of an error.
pub open spec fn action_result(r: Result<Action, String>) -> Result<ActionView, Seq<char>> {
    match r {
        Ok(a) => Ok(a@),
        Err(e) => Err(e@),
    }
}

fn read_create(fields: &Vec<FieldEntry>, line: usize) -> (r: Result<Action, String>)
    ensures
        action_result(r) == create_action(views(fields@), line as nat),
{
    match reject_unknown(fields, BlockKind::Create, line) {
        Ok(_) => {},
        Err(e) => {
            return Err(e);
        },
    }
    match reject_alias_pair(fields, "workdir", "workingdirectory", line) {
        Ok(_) => {},
        Err(e) => {
            return Err(e);
        },
    }
    match reject_alias_pair(fields, "args", "arguments", line) {
        Ok(_) => {},
        Err(e) => {
            return Err(e);
        },
    }
    let target = match required(fields, "target", line) {
        Ok(v) => v,
        Err(e) => {
            return Err(e);
        },
    };
    let output = match required(fields, "output", line) {
        Ok(v) => v,
        Err(e) => {
            return Err(e);
        },
    };
    let (icon_path, icon_index) = match get_icon(fields, line) {
        Ok(icon) => icon,
        Err(e) => {
            return Err(e);
        },
    };
    let style = match get_style(fields, line) {
        Ok(style) => style,
        Err(e) => {
            return Err(e);
        },
    };
    Ok(
        Action::Create(
            CreateOptions {
                target,
                output,
                working_directory: get_either(fields, "workdir", "workingdirectory"),
                arguments: get_either(fields, "args", "arguments"),
                description: get_field(fields, "description"),
                icon_path,
                icon_index,
                style,
            },
        ),
    )
}

fn read_delete(fields: &Vec<FieldEntry>, line: usize) -> (r: Result<Action, String>)
    ensures
        action_result(r) == delete_action(views(fields@), line as nat),
{
    match reject_unknown(fields, BlockKind::Delete, line) {
        Ok(_) => {},
        Err(e) => {
            return Err(e);
        },
    }
    match reject_alias_pair(fields, "path", "output", line) {
        Ok(_) => {},
        Err(e) => {
            return Err(e);
        },
    }
    if let Some(path) = get_either(fields, "path", "output") {
        if !path.as_str().is_empty() {
            return Ok(Action::Delete(path));
        }
    }
    Err(block_message(line, "[DELETE_SHORTCUT] requires Path"))
}

/// A block that is being read.
pub struct Block {
    pub kind: BlockKind,
    pub line: usize,
    pub fields: Vec<FieldEntry>,
}

/// What a `Block` stands for.
pub struct BlockState {
    pub kind: BlockKind,
    pub line: nat,
    pub fields: FieldsView,
}

impl View for Block {
    type V = BlockState;

    open spec fn view(&self) -> BlockState {
        BlockState { kind: self.kind, line: self.line as nat, fields: views(self.fields@) }
    }
}

/// The actions with that of a block behind them.
pub open spec fn with_block(actions: Seq<ActionView>, block: BlockState) -> Result<
    Seq<ActionView>,
    Seq<char>,
> {
    match block_action(block.kind, block.line, block.fields) {
        Ok(a) => Ok(actions.push(a)),
        Err(e) => Err(e),
    }
}

/// A block that is read adds one action of its own kind behind the others.
pub proof fn blocks_add_their_own_action(actions: Seq<ActionView>, block: BlockState)
    ensures
        with_block(actions, block) matches Ok(after) ==> {
            &&& after.len() == actions.len() + 1
            &&& after.drop_last() == actions
            &&& after.last() is Create == (block.kind == BlockKind::Create)
            &&& after.last() is Delete == (block.kind == BlockKind::Delete)
        },
{
    if let Ok(after) = with_block(actions, block) {
        assert(after.drop_last() =~= actions);
    }
}

/// Appends the action of a block.
fn push_block(actions: &mut Vec<Action>, block: Block) -> (r: Result<(), String>)
    ensures
        match r {
            Ok(_) => with_block(views(old(actions)@), block@) == Ok::<Seq<ActionView>, Seq<char>>(
                views(final(actions)@),
            ) && final(actions)@.drop_last() == old(actions)@,
            Err(e) => with_block(views(old(actions)@), block@) == Err::<Seq<ActionView>, Seq<char>>(
                e@,
            ) && final(actions)@ == old(actions)@,
        },
{
    broadcast use views_push;

    let action = match block.kind {
        BlockKind::Create => read_create(&block.fields, block.line),
        BlockKind::Delete => read_delete(&block.fields, block.line),
    };
    match action {
        Ok(a) => {
            let ghost before = actions@;
            actions.push(a);
            assert(views(actions@) == views(before).push(a@));
            assert(actions@.drop_last() =~= before);
            Ok(())
        },
        Err(e) => Err(e),
    }
}

// ---------------------------------------------------------------------------
// Manifests
// ---------------------------------------------------------------------------

/// What has been read of a manifest.
pub struct ManifestState {
    pub actions: Seq<ActionView>,
    pub current: Option<BlockState>,
}

/// The kind of block that a name stands for.
pub open spec fn kind_named(name: Seq<char>) -> Option<BlockKind> {
    if lowered(name) == lowered("SHORTCUT"@) {
        Some(BlockKind::Create)
    } else if lowered(name) == lowered("DELETE_SHORTCUT"@) {
        Some(BlockKind::Delete)
    } else {
        None
    }
}

/// The state with its open block closed.
pub open spec fn closed_state(st: ManifestState) -> Result<Seq<ActionView>, Seq<char>> {
    match st.current {
        None => Ok(st.actions),
        Some(block) => with_block(st.actions, block),
    }
}

/// The state after a line that opens a block.
pub open spec fn after_header(st: ManifestState, line: nat, t: Seq<char>) -> Result<
    ManifestState,
    Seq<char>,
> {
    if !ends_char(t, ']') {
        Err(at_line(line, "unterminated manifest block"@))
    } else {
        match closed_state(st) {
            Err(e) => Err(e),
            Ok(actions) => {
                let name = trimmed(t.subrange(1, t.len() - 1));
                match kind_named(name) {
                    None => Err(
                        at_line(
                            line,
                            "unsupported block ["@ + name
                                + "]; expected [SHORTCUT] or [DELETE_SHORTCUT]"@,
                        ),
                    ),
                    Some(kind) => Ok(
                        ManifestState {
                            actions,
                            current: Some(BlockState { kind, line, fields: Seq::empty() }),
                        },
                    ),
                }
            },
        }
    }
}

/// The state after a field.
pub open spec fn after_field(st: ManifestState, line: nat, t: Seq<char>) -> Result<
    ManifestState,
    Seq<char>,
> {
    match st.current {
        None => Err(
            at_line(line, "field appears before a [SHORTCUT] or [DELETE_SHORTCUT] block"@),
        ),
        Some(block) => {
            let i = first_of(t, '=');
            let name = lowered(trimmed(t.take(i)));
            if i >= t.len() {
                Err(at_line(line, "expected Name=Value"@))
            } else if name.len() == 0 {
                Err(at_line(line, "field name is empty"@))
            } else {
                match value_of(trimmed(t.skip(i + 1)), line) {
                    Err(e) => Err(e),
                    Ok(value) => if field_value(block.fields, name) is Some {
                        Err(at_line(line, "duplicate field "@ + debug_text(name)))
                    } else {
                        Ok(
                            ManifestState {
                                current: Some(
                                    BlockState { fields: block.fields.push((name, value)), ..block },
                                ),
                                ..st
                            },
                        )
                    },
                }
            }
        },
    }
}

/// The state after a line.
pub open spec fn after_manifest_line(st: ManifestState, line: nat, raw: Seq<char>) -> Result<
    ManifestState,
    Seq<char>,
> {
    let t = trimmed(raw);
    if t.len() == 0 || begins_char(t, '#') || begins_char(t, ';') {
        Ok(st)
    } else if begins_char(t, '[') {
        after_header(st, line, t)
    } else {
        after_field(st, line, t)
    }
}

/// The state after the lines from `i` on.
pub open spec fn after_manifest_lines(st: ManifestState, lines: Seq<Seq<char>>, i: int) -> Result<
    ManifestState,
    Seq<char>,
>
    decreases lines.len() - i,
{
    if i >= lines.len() {
        Ok(st)
    } else {
        match after_manifest_line(st, (i + 1) as nat, lines[i]) {
            Err(e) => Err(e),
            Ok(next) => after_manifest_lines(next, lines, i + 1),
        }
    }
}

/// The actions of a manifest.
pub open spec fn manifest_of(text: Seq<char>) -> Result<Seq<ActionView>, Seq<char>> {
    let start = ManifestState { actions: Seq::empty(), current: None };
    match after_manifest_lines(start, split_by(text, '\n'), 0) {
        Err(e) => Err(e),
        Ok(st) => match closed_state(st) {
            Err(e) => Err(e),
            Ok(actions) => if actions.len() == 0 {
                Err("shortcut manifest contains no actions"@)
            } else if actions.len() > MAX_ACTIONS {
                Err("shortcut manifest exceeds the 1000-action limit"@)
            } else {
                Ok(actions)
            },
        },
    }
}

/// A manifest is never empty and never above the limit.
pub proof fn manifests_are_bounded(text: Seq<char>)
    ensures
        manifest_of(text) matches Ok(actions) ==> 1 <= actions.len() <= MAX_ACTIONS,
{
}

/// An open block as a view.
pub open spec fn current_view(b: Option<Block>) -> Option<BlockState> {
    match b {
        Some(b) => Some(b@),
        None => None,
    }
}

fn read_kind(name: &[char]) -> (r: Option<BlockKind>)
    ensures
        r == kind_named(name@),
{
    let create = chars_of("SHORTCUT");
    let delete = chars_of("DELETE_SHORTCUT");
    if same_ignoring_case(name, create.as_slice()) {
        Some(BlockKind::Create)
    } else if same_ignoring_case(name, delete.as_slice()) {
        Some(BlockKind::Delete)
    } else {
        None
    }
}

/// Reads a field into a block.
fn read_field(block: &mut Block, line: usize, t: &[char], Ghost(st): Ghost<ManifestState>) -> (r:
    Result<(), String>)
    requires
        st.current == Some(old(block)@),
    ensures
        match r {
            Ok(_) => after_field(st, line as nat, t@) == Ok::<ManifestState, Seq<char>>(
                ManifestState { current: Some(final(block)@), ..st },
            ),
            Err(e) => after_field(st, line as nat, t@) == Err::<ManifestState, Seq<char>>(e@),
        },
{
    broadcast use views_push;

    let i = find_char(t, '=');
    if i >= t.len() {
        return Err(line_message(line, "expected Name=Value"));
    }
    let low = to_lower(trim(slice_subrange(t, 0, i)));
    let name = string_of(low.as_slice());
    if low.len() == 0 {
        return Err(line_message(line, "field name is empty"));
    }
    let value = match unquote(trim(slice_subrange(t, i + 1, t.len())), line) {
        Ok(value) => value,
        Err(e) => {
            return Err(e);
        },
    };
    if get_field(&block.fields, name.as_str()).is_some() {
        return Err(
            line_message(
                line,
                concat("duplicate field ", to_debug(name.as_str()).as_str()).as_str(),
            ),
        );
    }
    let entry = FieldEntry { name, value };
    let ghost before = block.fields@;
    block.fields.push(entry);
    assert(views(block.fields@) == views(before).push(entry@));
    Ok(())
}

/// Parses a manifest.
pub fn parse(text: &str) -> (r: Result<Manifest, String>)
    ensures
        match r {
            Ok(m) => manifest_of(text@) == Ok::<Seq<ActionView>, Seq<char>>(views(m.actions@)),
            Err(e) => manifest_of(text@) == Err::<Seq<ActionView>, Seq<char>>(e@),
        },
{
    let chars = chars_of(text);
    let lines = split(chars.as_slice(), '\n');
    let ghost all = split_by(text@, '\n');
    let mut actions: Vec<Action> = Vec::new();
    let mut current: Option<Block> = None;
    let ghost start = ManifestState { actions: Seq::empty(), current: None };
    assert(views(actions@) =~= start.actions);
    for i in 0..lines.len()
        invariant
            all == split_by(text@, '\n'),
            all == views(lines@),
            start == (ManifestState { actions: Seq::empty(), current: None }),
            after_manifest_lines(start, all, 0) == after_manifest_lines(
                ManifestState { actions: views(actions@), current: current_view(current) },
                all,
                i as int,
            ),
    {
        let ghost st = ManifestState {
            actions: views(actions@),
            current: current_view(current),
        };
        let line = i + 1;
        assert(all[i as int] == lines@[i as int]@);
        let t = trim(lines[i].as_slice());
        let filler = t.len() == 0 || starts_with_char(t, '#') || starts_with_char(t, ';');
        if !filler && starts_with_char(t, '[') {
            if !ends_with_char(t, ']') {
                return Err(line_message(line, "unterminated manifest block"));
            }
            let open = current.take();
            if let Some(block) = open {
                match push_block(&mut actions, block) {
                    Ok(_) => {},
                    Err(e) => {
                        return Err(e);
                    },
                }
            }
            proof {
                assert(t@.len() >= 2) by {
                    if t@.len() == 1 {
                        assert(t@.last() == t@[0]);
                    }
                }
            }
            let name = trim(slice_subrange(t, 1, t.len() - 1));
            match read_kind(name) {
                None => {
                    return Err(
                        line_message(
                            line,
                            concat3(
                                "unsupported block [",
                                string_of(name).as_str(),
                                "]; expected [SHORTCUT] or [DELETE_SHORTCUT]",
                            ).as_str(),
                        ),
                    );
                },
                Some(kind) => {
                    let fields: Vec<FieldEntry> = Vec::new();
                    assert(views(fields@) =~= Seq::<(Seq<char>, Seq<char>)>::empty());
                    current = Some(Block { kind, line, fields });
                },
            }
        } else if !filler {
            let open = current.take();
            match open {
                None => {
                    return Err(
                        line_message(
                            line,
                            "field appears before a [SHORTCUT] or [DELETE_SHORTCUT] block",
                        ),
                    );
                },
                Some(mut block) => {
                    match read_field(&mut block, line, t, Ghost(st)) {
                        Ok(_) => {},
                        Err(e) => {
                            return Err(e);
                        },
                    }
                    current = Some(block);
                },
            }
        }
    }
    if let Some(block) = current {
        match push_block(&mut actions, block) {
            Ok(_) => {},
            Err(e) => {
                return Err(e);
            },
        }
    }
    if actions.len() == 0 {
        return Err("shortcut manifest contains no actions".to_owned());
    }
    if actions.len() > MAX_ACTIONS {
        return Err("shortcut manifest exceeds the 1000-action limit".to_owned());
    }
    Ok(Manifest { actions })
}

} // verus!
