//! Native shell links: what to write into one, and what was read from one.
use vstd::prelude::*;
use vstd::slice::slice_subrange;

use crate::number::{hex_of, push_hex, read_i32, signed};
use crate::shell::{
    bits_of, find_zero, first_zero, resolve_path, resolve_text, resolved, to_bits, Folders, FoldersView,
};
use crate::text::{
    chars_of, concat, concat3, contains_char, copy_opt, last_of, last_of_is_last, lowered, opt_str,
    opt_text, rfind_char, same_ignoring_case, same_str, string_of, text_result, trim, trimmed,
    unit_result,
};
use crate::utf16::{decode, decoded, encode, units_of};

verus! {

/// How the target's window opens.
#[derive(Clone, Copy, Debug, PartialEq, Eq, Structural)]
pub enum ShowStyle {
    Normal,
    Hidden,
    Minimized,
}

/// The name of a style.
pub open spec fn style_name(style: ShowStyle) -> Seq<char> {
    match style {
        ShowStyle::Normal => "normal"@,
        ShowStyle::Hidden => "hidden"@,
        ShowStyle::Minimized => "minimized"@,
    }
}

/// The show command of a style: a link cannot hide a window, only minimise it.
pub open spec fn show_command(style: ShowStyle) -> i32 {
    match style {
        ShowStyle::Normal => 1,
        ShowStyle::Hidden => 7,
        ShowStyle::Minimized => 7,
    }
}

/// The style of a show command.
pub open spec fn style_shown(command: i32) -> ShowStyle {
    if command == 7 {
        ShowStyle::Minimized
    } else {
        ShowStyle::Normal
    }
}

impl ShowStyle {
    /// The name.
    pub fn as_str(self) -> (r: &'static str)
        ensures
            r@ == style_name(self),
    {
        match self {
            ShowStyle::Normal => "normal",
            ShowStyle::Hidden => "hidden",
            ShowStyle::Minimized => "minimized",
        }
    }

    /// The show command.
    pub fn win32(self) -> (r: i32)
        ensures
            r == show_command(self),
    {
        match self {
            ShowStyle::Normal => 1,
            ShowStyle::Hidden => 7,
            ShowStyle::Minimized => 7,
        }
    }

    /// The style of a show command.
    pub fn from_win32(value: i32) -> (r: Self)
        ensures
            r == style_shown(value),
    {
        if value == 7 {
            ShowStyle::Minimized
        } else {
            ShowStyle::Normal
        }
    }
}

/// A style read back from a link shows the window as the style written did.
pub proof fn styles_show_alike(style: ShowStyle)
    ensures
        show_command(style_shown(show_command(style))) == show_command(style),
{
}

/// What a link is to hold.
#[derive(Debug, PartialEq, Eq)]
pub struct CreateOptions {
    pub target: String,
    pub output: String,
    pub working_directory: Option<String>,
    pub arguments: Option<String>,
    pub description: Option<String>,
    pub icon_path: Option<String>,
    pub icon_index: i32,
    pub style: ShowStyle,
}

/// What a `CreateOptions` stands for.
pub struct OptionsView {
    pub target: Seq<char>,
    pub output: Seq<char>,
    pub working_directory: Option<Seq<char>>,
    pub arguments: Option<Seq<char>>,
    pub description: Option<Seq<char>>,
    pub icon_path: Option<Seq<char>>,
    pub icon_index: i32,
    pub style: ShowStyle,
}

impl View for CreateOptions {
    type V = OptionsView;

    open spec fn view(&self) -> OptionsView {
        OptionsView {
            target: self.target@,
            output: self.output@,
            working_directory: opt_text(self.working_directory),
            arguments: opt_text(self.arguments),
            description: opt_text(self.description),
            icon_path: opt_text(self.icon_path),
            icon_index: self.icon_index,
            style: self.style,
        }
    }
}

/// What a link holds.
#[derive(Debug, PartialEq, Eq)]
pub struct LinkInfo {
    pub file: String,
    pub target: String,
    pub working_directory: Option<String>,
    pub arguments: String,
    pub description: String,
    pub icon_path: Option<String>,
    pub icon_index: i32,
    pub style: ShowStyle,
}

/// What a `LinkInfo` stands for.
pub struct LinkView {
    pub file: Seq<char>,
    pub target: Seq<char>,
    pub working_directory: Option<Seq<char>>,
    pub arguments: Seq<char>,
    pub description: Seq<char>,
    pub icon_path: Option<Seq<char>>,
    pub icon_index: i32,
    pub style: ShowStyle,
}

impl View for LinkInfo {
    type V = LinkView;

    open spec fn view(&self) -> LinkView {
        LinkView {
            file: self.file@,
            target: self.target@,
            working_directory: opt_text(self.working_directory),
            arguments: self.arguments@,
            description: self.description@,
            icon_path: opt_text(self.icon_path),
            icon_index: self.icon_index,
            style: self.style,
        }
    }
}

/// A text, or nothing where there is none.
pub open spec fn or_empty(s: Option<Seq<char>>) -> Seq<char> {
    match s {
        Some(t) => t,
        None => Seq::empty(),
    }
}

/// A text, or none where it is empty.
pub open spec fn unless_empty(s: Seq<char>) -> Option<Seq<char>> {
    if s.len() == 0 {
        None
    } else {
        Some(s)
    }
}

fn text_or_empty(s: &Option<String>) -> (r: String)
    ensures
        r@ == or_empty(opt_text(*s)),
{
    match s {
        Some(t) => t.clone(),
        None => String::new(),
    }
}

fn none_if_empty(s: String) -> (r: Option<String>)
    ensures
        opt_text(r) == unless_empty(s@),
{
    if s.as_str().is_empty() {
        None
    } else {
        Some(s)
    }
}

// ---------------------------------------------------------------------------
// Icons
// ---------------------------------------------------------------------------

/// An icon's file and index: what follows the last comma where that is a
/// number, and index 0 otherwise.
pub open spec fn icon_of(spec: Seq<char>) -> Result<(Seq<char>, int), Seq<char>> {
    let t = trimmed(spec);
    let i = last_of(t, ',');
    if t.len() == 0 {
        Err("shortcut icon specification is empty"@)
    } else if i >= 0 && signed(trimmed(t.skip(i + 1))) is Some {
        let path = trimmed(t.take(i));
        if path.len() == 0 {
            Err("shortcut icon path is empty"@)
        } else {
            Ok((path, signed(trimmed(t.skip(i + 1)))->0))
        }
    } else {
        Ok((t, 0))
    }
}

/// Reads an icon specification.
pub fn parse_icon_spec(spec: &str) -> (r: Result<(String, i32), String>)
    ensures
        match r {
            Ok((path, index)) => icon_of(spec@) == Ok::<(Seq<char>, int), Seq<char>>(
                (path@, index as int),
            ),
            Err(e) => icon_of(spec@) == Err::<(Seq<char>, int), Seq<char>>(e@),
        },
{
    let chars = chars_of(spec);
    let t = trim(chars.as_slice());
    if t.len() == 0 {
        return Err("shortcut icon specification is empty".to_owned());
    }
    proof {
        last_of_is_last(t@, ',');
    }
    if let Some(i) = rfind_char(t, ',') {
        if let Some(index) = read_i32(trim(slice_subrange(t, i + 1, t.len()))) {
            let path = trim(slice_subrange(t, 0, i));
            if path.len() == 0 {
                return Err("shortcut icon path is empty".to_owned());
            }
            return Ok((string_of(path), index));
        }
    }
    Ok((string_of(t), 0))
}

// ---------------------------------------------------------------------------
// Resolving
// ---------------------------------------------------------------------------

/// An optional text with its tokens resolved.
pub open spec fn opt_resolved(s: Option<Seq<char>>, folders: FoldersView) -> Result<
    Option<Seq<char>>,
    Seq<char>,
> {
    match s {
        None => Ok(None),
        Some(t) => match resolved(t, folders) {
            Ok(u) => Ok(Some(u)),
            Err(e) => Err(e),
        },
    }
}

/// Options with their folder tokens resolved, or the first error in the order
/// target, output, working directory, arguments, icon.
pub open spec fn resolved_options(o: OptionsView, folders: FoldersView) -> Result<
    OptionsView,
    Seq<char>,
> {
    let target = resolved(o.target, folders);
    let output = resolved(o.output, folders);
    let working_directory = opt_resolved(o.working_directory, folders);
    let arguments = opt_resolved(o.arguments, folders);
    let icon_path = opt_resolved(o.icon_path, folders);
    if target is Err {
        Err(target->Err_0)
    } else if output is Err {
        Err(output->Err_0)
    } else if working_directory is Err {
        Err(working_directory->Err_0)
    } else if arguments is Err {
        Err(arguments->Err_0)
    } else if icon_path is Err {
        Err(icon_path->Err_0)
    } else {
        Ok(
            OptionsView {
                target: target->Ok_0,
                output: output->Ok_0,
                working_directory: working_directory->Ok_0,
                arguments: arguments->Ok_0,
                icon_path: icon_path->Ok_0,
                ..o
            },
        )
    }
}

fn resolve_opt(s: &Option<String>, folders: &Folders) -> (r: Result<Option<String>, String>)
    ensures
        match r {
            Ok(t) => opt_resolved(opt_text(*s), folders@) == Ok::<Option<Seq<char>>, Seq<char>>(
                opt_text(t),
            ),
            Err(e) => opt_resolved(opt_text(*s), folders@) == Err::<Option<Seq<char>>, Seq<char>>(
                e@,
            ),
        },
{
    match s {
        None => Ok(None),
        Some(t) => match resolve_text(t.as_str(), folders) {
            Ok(u) => Ok(Some(u)),
            Err(e) => Err(e),
        },
    }
}

/// Resolves the folder tokens of options. The description is left as it is.
pub fn resolve_options(options: &CreateOptions, folders: &Folders) -> (r: Result<
    CreateOptions,
    String,
>)
    ensures
        match r {
            Ok(o) => resolved_options(options@, folders@) == Ok::<OptionsView, Seq<char>>(o@),
            Err(e) => resolved_options(options@, folders@) == Err::<OptionsView, Seq<char>>(e@),
        },
{
    let target = match resolve_path(options.target.as_str(), folders) {
        Ok(s) => s,
        Err(e) => {
            return Err(e);
        },
    };
    let output = match resolve_path(options.output.as_str(), folders) {
        Ok(s) => s,
        Err(e) => {
            return Err(e);
        },
    };
    let working_directory = match resolve_opt(&options.working_directory, folders) {
        Ok(s) => s,
        Err(e) => {
            return Err(e);
        },
    };
    let arguments = match resolve_opt(&options.arguments, folders) {
        Ok(s) => s,
        Err(e) => {
            return Err(e);
        },
    };
    let icon_path = match resolve_opt(&options.icon_path, folders) {
        Ok(s) => s,
        Err(e) => {
            return Err(e);
        },
    };
    Ok(
        CreateOptions {
            target,
            output,
            working_directory,
            arguments,
            description: copy_opt(&options.description),
            icon_path,
            icon_index: options.icon_index,
            style: options.style,
        },
    )
}

// ---------------------------------------------------------------------------
// Validation
// ---------------------------------------------------------------------------

/// What the file system says of the paths of options.
pub struct OptionsFacts {
    pub target_absolute: bool,
    /// Whether the target is a regular file, or why it cannot be inspected.
    pub target_file: Result<bool, String>,
    pub output_absolute: bool,
    pub output_extension: Option<String>,
    /// The output's directory and whether it exists; none where there is none.
    pub output_parent: Option<(String, bool)>,
    /// Whether the working directory is absolute and exists.
    pub workdir_usable: bool,
    /// Whether the icon is absolute and a file.
    pub icon_usable: bool,
}

/// An extension is that of a link.
pub open spec fn is_lnk(extension: Option<Seq<char>>) -> bool {
    extension is Some && lowered(extension->0) == lowered("lnk"@)
}

/// Whether an extension is that of a link, in any ASCII case.
pub fn has_lnk_extension(extension: Option<&str>) -> (b: bool)
    ensures
        b == is_lnk(opt_str(extension)),
{
    match extension {
        Some(e) => {
            let x = chars_of(e);
            let y = chars_of("lnk");
            same_ignoring_case(x.as_slice(), y.as_slice())
        },
        None => false,
    }
}

/// An optional text has a NUL.
pub open spec fn holds_nul(s: Option<Seq<char>>) -> bool {
    s is Some && (s->0).contains('\0')
}

/// The verdict on options, by the first thing that is wrong with them.
pub open spec fn validity(o: OptionsView, facts: OptionsFacts) -> Result<(), Seq<char>> {
    if !facts.target_absolute {
        Err("shortcut target must be an absolute path: "@ + o.target)
    } else if facts.target_file is Err {
        Err("cannot inspect shortcut target "@ + o.target + ": "@ + (facts.target_file->Err_0)@)
    } else if !(facts.target_file->Ok_0) {
        Err("shortcut target is not a regular file: "@ + o.target)
    } else if !facts.output_absolute {
        Err("shortcut output must resolve to an absolute path: "@ + o.output)
    } else if !is_lnk(opt_text(facts.output_extension)) {
        Err("shortcut output must use the .lnk extension: "@ + o.output)
    } else if facts.output_parent is None {
        Err("shortcut output has no parent directory"@)
    } else if !(facts.output_parent->0).1 {
        Err("shortcut output directory does not exist: "@ + (facts.output_parent->0).0@)
    } else if o.working_directory is Some && !facts.workdir_usable {
        Err(
            "shortcut working directory must be an existing absolute directory: "@
                + o.working_directory->0,
        )
    } else if o.icon_path is Some && !facts.icon_usable {
        Err("shortcut icon must be an existing absolute file: "@ + o.icon_path->0)
    } else if holds_nul(o.arguments) {
        Err("shortcut arguments contains a NUL character"@)
    } else if holds_nul(o.description) {
        Err("shortcut description contains a NUL character"@)
    } else {
        Ok(())
    }
}

fn has_nul(s: &Option<String>) -> (b: bool)
    ensures
        b == holds_nul(opt_text(*s)),
{
    match s {
        Some(t) => {
            let chars = chars_of(t.as_str());
            contains_char(chars.as_slice(), '\0')
        },
        None => false,
    }
}

/// Checks options against what the file system says.
pub fn validate(options: &CreateOptions, facts: &OptionsFacts) -> (r: Result<(), String>)
    ensures
        unit_result(r) == validity(options@, *facts),
{
    let target = options.target.as_str();
    let output = options.output.as_str();
    if !facts.target_absolute {
        return Err(concat("shortcut target must be an absolute path: ", target));
    }
    match &facts.target_file {
        Err(error) => {
            let mut message = concat3("cannot inspect shortcut target ", target, ": ");
            message.append(error.as_str());
            return Err(message);
        },
        Ok(is_file) => {
            if !*is_file {
                return Err(concat("shortcut target is not a regular file: ", target));
            }
        },
    }
    if !facts.output_absolute {
        return Err(concat("shortcut output must resolve to an absolute path: ", output));
    }
    let extension = match &facts.output_extension {
        Some(e) => Some(e.as_str()),
        None => None,
    };
    if !has_lnk_extension(extension) {
        return Err(concat("shortcut output must use the .lnk extension: ", output));
    }
    match &facts.output_parent {
        None => {
            return Err("shortcut output has no parent directory".to_owned());
        },
        Some((parent, exists)) => {
            if !*exists {
                return Err(concat("shortcut output directory does not exist: ", parent.as_str()));
            }
        },
    }
    if let Some(workdir) = &options.working_directory {
        if !facts.workdir_usable {
            return Err(
                concat(
                    "shortcut working directory must be an existing absolute directory: ",
                    workdir.as_str(),
                ),
            );
        }
    }
    if let Some(icon) = &options.icon_path {
        if !facts.icon_usable {
            return Err(
                concat("shortcut icon must be an existing absolute file: ", icon.as_str()),
            );
        }
    }
    if has_nul(&options.arguments) {
        return Err("shortcut arguments contains a NUL character".to_owned());
    }
    if has_nul(&options.description) {
        return Err("shortcut description contains a NUL character".to_owned());
    }
    Ok(())
}

/// Why a valid link is not written: the file is there and may not be replaced.
pub open spec fn creation_barred(
    o: OptionsView,
    facts: OptionsFacts,
    exists_already: bool,
    overwrite: bool,
) -> Result<(), Seq<char>> {
    match validity(o, facts) {
        Err(e) => Err(e),
        Ok(_) => if exists_already && !overwrite {
            Err("shortcut already exists (use -y to replace it): "@ + o.output)
        } else {
            Ok(())
        },
    }
}

/// Whether a link may be written.
pub fn may_create(
    options: &CreateOptions,
    facts: &OptionsFacts,
    exists_already: bool,
    overwrite: bool,
) -> (r: Result<(), String>)
    ensures
        unit_result(r) == creation_barred(options@, *facts, exists_already, overwrite),
{
    match validate(options, facts) {
        Err(e) => Err(e),
        Ok(_) => if exists_already && !overwrite {
            Err(
                concat(
                    "shortcut already exists (use -y to replace it): ",
                    options.output.as_str(),
                ),
            )
        } else {
            Ok(())
        },
    }
}

/// One property to be set on a link.
#[derive(Debug)]
pub enum LinkStep {
    Target(String),
    Arguments(String),
    WorkingDirectory(String),
    Description(String),
    Icon(String, i32),
    Show(i32),
}

/// What a `LinkStep` stands for.
pub enum StepView {
    Target(Seq<char>),
    Arguments(Seq<char>),
    WorkingDirectory(Seq<char>),
    Description(Seq<char>),
    Icon(Seq<char>, i32),
    Show(i32),
}

impl View for LinkStep {
    type V = StepView;

    open spec fn view(&self) -> StepView {
        match self {
            LinkStep::Target(s) => StepView::Target(s@),
            LinkStep::Arguments(s) => StepView::Arguments(s@),
            LinkStep::WorkingDirectory(s) => StepView::WorkingDirectory(s@),
            LinkStep::Description(s) => StepView::Description(s@),
            LinkStep::Icon(s, i) => StepView::Icon(s@, *i),
            LinkStep::Show(c) => StepView::Show(*c),
        }
    }
}

/// The properties to be set, in order; a missing one is not set.
pub open spec fn steps_of(o: OptionsView) -> Seq<StepView> {
    seq![StepView::Target(o.target)] + (match o.arguments {
        Some(s) => seq![StepView::Arguments(s)],
        None => Seq::empty(),
    }) + (match o.working_directory {
        Some(s) => seq![StepView::WorkingDirectory(s)],
        None => Seq::empty(),
    }) + (match o.description {
        Some(s) => seq![StepView::Description(s)],
        None => Seq::empty(),
    }) + (match o.icon_path {
        Some(s) => seq![StepView::Icon(s, o.icon_index)],
        None => Seq::empty(),
    }) + seq![StepView::Show(show_command(o.style))]
}

/// The properties to be set on a new link, in order.
pub fn create_steps(options: &CreateOptions) -> (out: Vec<LinkStep>)
    ensures
        crate::text::views(out@) == steps_of(options@),
{
    broadcast use crate::text::views_push;

    let mut out: Vec<LinkStep> = Vec::new();
    out.push(LinkStep::Target(options.target.clone()));
    if let Some(s) = &options.arguments {
        out.push(LinkStep::Arguments(s.clone()));
    }
    if let Some(s) = &options.working_directory {
        out.push(LinkStep::WorkingDirectory(s.clone()));
    }
    if let Some(s) = &options.description {
        out.push(LinkStep::Description(s.clone()));
    }
    if let Some(s) = &options.icon_path {
        out.push(LinkStep::Icon(s.clone(), options.icon_index));
    }
    out.push(LinkStep::Show(options.style.win32()));
    assert(crate::text::views(out@) =~= steps_of(options@));
    out
}

// ---------------------------------------------------------------------------
// Reading
// ---------------------------------------------------------------------------

/// The properties of a link as the system reports them.
pub struct LinkFields {
    pub target: String,
    pub working_directory: String,
    pub arguments: String,
    pub description: String,
    pub icon_path: String,
    pub icon_index: i32,
    pub show: i32,
}

/// What a link's properties say.
pub open spec fn link_of(file: Seq<char>, f: LinkFields) -> LinkView {
    LinkView {
        file,
        target: f.target@,
        working_directory: unless_empty(f.working_directory@),
        arguments: f.arguments@,
        description: f.description@,
        icon_path: unless_empty(f.icon_path@),
        icon_index: f.icon_index,
        style: style_shown(f.show),
    }
}

/// What the system says of a file that should be a link.
pub struct LinkFacts {
    /// Whether it is a regular file and no symbolic link, or why it cannot be
    /// inspected.
    pub regular: Result<bool, String>,
    /// Its properties, or why they cannot be read.
    pub fields: Result<LinkFields, String>,
}

/// A link read from a file, or what is wrong with it.
pub open spec fn link_outcome(path: Seq<char>, facts: LinkFacts) -> Result<LinkView, Seq<char>> {
    match facts.regular {
        Err(e) => Err("cannot inspect shortcut "@ + path + ": "@ + e@),
        Ok(regular) => if !regular {
            Err("shortcut is not a regular non-symlink file: "@ + path)
        } else {
            match facts.fields {
                Ok(f) => Ok(link_of(path, f)),
                Err(e) => Err(e@),
            }
        },
    }
}

/// A link named by its path, which has to have a link's extension.
pub open spec fn inspect_outcome(
    path: Seq<char>,
    extension: Option<Seq<char>>,
    facts: LinkFacts,
) -> Result<LinkView, Seq<char>> {
    if !is_lnk(extension) {
        Err("shortcut path must use the .lnk extension: "@ + path)
    } else {
        link_outcome(path, facts)
    }
}

/// A link, or the words of an error.
pub open spec fn link_result(r: Result<LinkInfo, String>) -> Result<LinkView, Seq<char>> {
    match r {
        Ok(info) => Ok(info@),
        Err(e) => Err(e@),
    }
}

/// Reads a link whose path needs no check.
pub fn inspect_inner(path: &str, facts: LinkFacts) -> (r: Result<LinkInfo, String>)
    ensures
        link_result(r) == link_outcome(path@, facts),
{
    match facts.regular {
        Err(e) => {
            let mut message = concat3("cannot inspect shortcut ", path, ": ");
            message.append(e.as_str());
            Err(message)
        },
        Ok(regular) => {
            if !regular {
                return Err(concat("shortcut is not a regular non-symlink file: ", path));
            }
            match facts.fields {
                Ok(f) => Ok(
                    LinkInfo {
                        file: path.to_owned(),
                        target: f.target,
                        working_directory: none_if_empty(f.working_directory),
                        arguments: f.arguments,
                        description: f.description,
                        icon_path: none_if_empty(f.icon_path),
                        icon_index: f.icon_index,
                        style: ShowStyle::from_win32(f.show),
                    },
                ),
                Err(e) => Err(e),
            }
        },
    }
}

/// Reads a link. `path` is resolved already; `extension` is its extension.
pub fn inspect(path: &str, extension: Option<&str>, facts: LinkFacts) -> (r: Result<
    LinkInfo,
    String,
>)
    ensures
        link_result(r) == inspect_outcome(path@, opt_str(extension), facts),
{
    if !has_lnk_extension(extension) {
        return Err(concat("shortcut path must use the .lnk extension: ", path));
    }
    inspect_inner(path, facts)
}

// ---------------------------------------------------------------------------
// Verification of what was written
// ---------------------------------------------------------------------------

/// Two paths are the same up to the case of ASCII letters.
pub open spec fn paths_alike(a: Seq<char>, b: Seq<char>) -> bool {
    lowered(a) == lowered(b)
}

/// Two optional paths are the same, or both missing.
pub open spec fn opt_paths_alike(a: Option<Seq<char>>, b: Option<Seq<char>>) -> bool {
    match (a, b) {
        (Some(x), Some(y)) => paths_alike(x, y),
        (None, None) => true,
        _ => false,
    }
}

/// A link holds what was asked for.
pub open spec fn holds(o: OptionsView, l: LinkView) -> bool {
    &&& paths_alike(o.target, l.target)
    &&& or_empty(o.arguments) == l.arguments
    &&& opt_paths_alike(o.working_directory, l.working_directory)
    &&& or_empty(o.description) == l.description
    &&& o.icon_index == l.icon_index
    &&& opt_paths_alike(o.icon_path, l.icon_path)
    &&& show_command(o.style) == show_command(l.style)
}

/// Whether two paths are the same up to the case of ASCII letters.
pub fn same_path(left: &str, right: &str) -> (b: bool)
    ensures
        b == paths_alike(left@, right@),
{
    let x = chars_of(left);
    let y = chars_of(right);
    same_ignoring_case(x.as_slice(), y.as_slice())
}

/// Whether two optional paths are the same.
pub fn same_optional_path(left: &Option<String>, right: &Option<String>) -> (b: bool)
    ensures
        b == opt_paths_alike(opt_text(*left), opt_text(*right)),
{
    match (left, right) {
        (Some(x), Some(y)) => same_path(x.as_str(), y.as_str()),
        (None, None) => true,
        _ => false,
    }
}

/// Checks that a link holds what was asked for.
pub fn verify(expected: &CreateOptions, actual: &LinkInfo) -> (r: Result<(), String>)
    ensures
        r is Ok <==> holds(expected@, actual@),
        r matches Err(e) ==> e@
            == "native Shell Link verification did not match the requested fields"@,
{
    let arguments = text_or_empty(&expected.arguments);
    let description = text_or_empty(&expected.description);
    if !same_path(expected.target.as_str(), actual.target.as_str()) || !same_str(
        arguments.as_str(),
        actual.arguments.as_str(),
    ) || !same_optional_path(&expected.working_directory, &actual.working_directory) || !same_str(
        description.as_str(),
        actual.description.as_str(),
    ) || expected.icon_index != actual.icon_index || !same_optional_path(
        &expected.icon_path,
        &actual.icon_path,
    ) || expected.style.win32() != actual.style.win32() {
        return Err(
            "native Shell Link verification did not match the requested fields".to_owned(),
        );
    }
    Ok(())
}

/// The link that options ask for.
pub open spec fn planned(o: OptionsView) -> LinkView {
    LinkView {
        file: o.output,
        target: o.target,
        working_directory: o.working_directory,
        arguments: or_empty(o.arguments),
        description: or_empty(o.description),
        icon_path: o.icon_path,
        icon_index: o.icon_index,
        style: o.style,
    }
}

/// The link that options ask for.
pub fn planned_link_info(options: &CreateOptions) -> (r: LinkInfo)
    ensures
        r@ == planned(options@),
{
    LinkInfo {
        file: options.output.clone(),
        target: options.target.clone(),
        working_directory: copy_opt(&options.working_directory),
        arguments: text_or_empty(&options.arguments),
        description: text_or_empty(&options.description),
        icon_path: copy_opt(&options.icon_path),
        icon_index: options.icon_index,
        style: options.style,
    }
}

/// The link that options ask for passes their verification.
pub proof fn planned_links_verify(o: OptionsView)
    ensures
        holds(o, planned(o)),
{
}

/// A link that was written with the properties asked for and read back passes
/// the verification, where no optional property is the empty text.
pub proof fn written_links_verify(o: OptionsView, f: LinkFields)
    requires
        o.working_directory != Some(Seq::<char>::empty()),
        o.icon_path != Some(Seq::<char>::empty()),
        f.target@ == o.target,
        f.arguments@ == or_empty(o.arguments),
        f.working_directory@ == or_empty(o.working_directory),
        f.description@ == or_empty(o.description),
        f.icon_path@ == or_empty(o.icon_path),
        f.icon_index == o.icon_index,
        f.show == show_command(o.style),
    ensures
        holds(o, link_of(o.output, f)),
{
    styles_show_alike(o.style);
    if let Some(w) = o.working_directory {
        assert(w.len() == 0 ==> w =~= Seq::<char>::empty());
    }
    if let Some(i) = o.icon_path {
        assert(i.len() == 0 ==> i =~= Seq::<char>::empty());
    }
}

// ---------------------------------------------------------------------------
// Text for the system, and from it
// ---------------------------------------------------------------------------

/// The terminated code units of a text, which may have no NUL of its own.
pub open spec fn wide_outcome(text: Seq<char>, complaint: Seq<char>) -> Result<
    Seq<u16>,
    Seq<char>,
> {
    if text.contains('\0') {
        Err(complaint)
    } else {
        Ok(units_of(text).push(0))
    }
}

/// Code units, or the words of an error.
pub open spec fn wide_result(r: Result<Vec<u16>, String>) -> Result<Seq<u16>, Seq<char>> {
    match r {
        Ok(u) => Ok(u@),
        Err(e) => Err(e@),
    }
}

fn to_wide(text: &str, complaint: String) -> (r: Result<Vec<u16>, String>)
    ensures
        wide_result(r) == wide_outcome(text@, complaint@),
{
    let chars = chars_of(text);
    if contains_char(chars.as_slice(), '\0') {
        return Err(complaint);
    }
    let mut units = encode(chars.as_slice());
    units.push(0);
    Ok(units)
}

/// The terminated code units of a path.
pub fn wide_path(path: &str) -> (r: Result<Vec<u16>, String>)
    ensures
        wide_result(r) == wide_outcome(path@, "path contains a NUL character: "@ + path@),
{
    to_wide(path, concat("path contains a NUL character: ", path))
}

/// The terminated code units of a text.
pub fn wide_text(text: &str, field: &str) -> (r: Result<Vec<u16>, String>)
    ensures
        wide_result(r) == wide_outcome(text@, field@ + " contains a NUL character"@),
{
    to_wide(text, concat(field, " contains a NUL character"))
}

/// The text in front of a buffer's terminator.
pub open spec fn buffer_text(buffer: Seq<u16>) -> Result<Seq<char>, Seq<char>> {
    let n = first_zero(buffer);
    if n >= buffer.len() {
        Err("Shell Link string is not NUL-terminated"@)
    } else {
        match decoded(buffer.take(n)) {
            Some(text) => Ok(text),
            None => Err("Shell Link contains malformed UTF-16"@),
        }
    }
}

/// Reads the text of a buffer that the system filled.
pub fn buffer_to_string(buffer: &[u16]) -> (r: Result<String, String>)
    ensures
        text_result(r) == buffer_text(buffer@),
{
    let n = find_zero(buffer);
    if n >= buffer.len() {
        return Err("Shell Link string is not NUL-terminated".to_owned());
    }
    match decode(slice_subrange(buffer, 0, n)) {
        Some(text) => Ok(string_of(text.as_slice())),
        None => Err("Shell Link contains malformed UTF-16".to_owned()),
    }
}

proof fn units_have_no_zero(text: Seq<char>)
    requires
        !text.contains('\0'),
    ensures
        forall|i: int| 0 <= i < units_of(text).len() ==> (#[trigger] units_of(text)[i]) != 0,
    decreases text.len(),
{
    if text.len() > 0 {
        let rest = text.skip(1);
        assert(text[0] != '\0') by {
            assert(text.contains(text[0]));
        }
        assert(!rest.contains('\0')) by {
            if rest.contains('\0') {
                let k = choose|k: int| 0 <= k < rest.len() && rest[k] == '\0';
                assert(text[k + 1] == '\0');
            }
        }
        units_have_no_zero(rest);
        let head = crate::utf16::units_of_char(text[0]);
        vstd::utf8::char_is_scalar(text[0]);
        if text[0] as u32 == 0 {
            vstd::utf8::char_u32_cast(text[0], 0u32);
            vstd::utf8::char_u32_cast('\0', 0u32);
        }
        assert forall|i: int| 0 <= i < units_of(text).len() implies (#[trigger] units_of(text)[i])
            != 0 by {
            if i >= head.len() {
                assert(units_of(text)[i] == units_of(rest)[i - head.len()]);
            }
        }
    }
}

proof fn first_zero_at_end(units: Seq<u16>)
    requires
        forall|i: int| 0 <= i < units.len() ==> (#[trigger] units[i]) != 0,
    ensures
        first_zero(units.push(0)) == units.len(),
    decreases units.len(),
{
    if units.len() > 0 {
        let rest = units.skip(1);
        assert forall|i: int| 0 <= i < rest.len() implies (#[trigger] rest[i]) != 0 by {
            assert(rest[i] == units[i + 1]);
        }
        first_zero_at_end(rest);
        assert(units.push(0).skip(1) =~= rest.push(0));
        assert(units.push(0)[0] == units[0]);
    }
}

/// A text that was handed to the system is read back from its buffer.
pub proof fn wide_text_reads_back(text: Seq<char>, complaint: Seq<char>)
    ensures
        wide_outcome(text, complaint) matches Ok(units) ==> buffer_text(units) == Ok::<
            Seq<char>,
            Seq<char>,
        >(text),
{
    if !text.contains('\0') {
        let units = units_of(text);
        units_have_no_zero(text);
        first_zero_at_end(units);
        assert(units.push(0).take(units.len() as int) =~= units);
        crate::utf16::decoding_gives_back_the_text(text);
    }
}

/// The words for a failed call.
pub open spec fn hr_text(operation: Seq<char>, hr: i32) -> Seq<char> {
    operation + " failed with HRESULT 0x"@ + hex_of(bits_of(hr), 8)
}

/// The words for a failed call.
pub fn hr_error(operation: &str, hr: i32) -> (r: String)
    ensures
        r@ == hr_text(operation@, hr),
{
    let mut out = concat(operation, " failed with HRESULT 0x");
    push_hex(&mut out, to_bits(hr), 8);
    out
}

/// Whether a call succeeded: its result is not negative.
pub fn check_hr(operation: &str, hr: i32) -> (r: Result<(), String>)
    ensures
        unit_result(r) == (if hr >= 0 {
            Ok::<(), Seq<char>>(())
        } else {
            Err(hr_text(operation@, hr))
        }),
{
    if hr >= 0 {
        Ok(())
    } else {
        Err(hr_error(operation, hr))
    }
}

} // verus!
