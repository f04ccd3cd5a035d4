//! Laying out a new project.
//!
//! Nothing is written here. What has to be written comes out as a list of
//! steps, in the order in which they have to be taken.

use crate::package::{name_text, Name, NameView};
use crate::util::text::{join, join_path};
use vstd::prelude::*;

verus! {

/// What a new project is made from.
#[derive(Debug)]
pub struct NewCtx {
    /// The directory of the project.
    pub path: String,
    pub name: Name,
    /// The author's name and e-mail address.
    pub author: Option<(String, String)>,
    /// Whether the project is a program; otherwise it is a library.
    pub bin: bool,
}

/// A `NewCtx` as plain values.
pub struct NewCtxView {
    pub path: Seq<char>,
    pub name: NameView,
    pub author: Option<(Seq<char>, Seq<char>)>,
    pub bin: bool,
}

impl View for NewCtx {
    type V = NewCtxView;

    open spec fn view(&self) -> NewCtxView {
        NewCtxView {
            path: self.path@,
            name: self.name@,
            author: match self.author {
                Some((author, email)) => Some((author@, email@)),
                None => None,
            },
            bin: self.bin,
        }
    }
}

/// One thing to do on disk.
#[derive(Debug, PartialEq, Eq)]
pub enum Step {
    /// Make this directory, and those above it that are missing.
    CreateDir { path: String },
    /// Write this file.
    Write { path: String, contents: String },
}

/// A `Step` as plain values.
pub enum StepView {
    CreateDir { path: Seq<char> },
    Write { path: Seq<char>, contents: Seq<char> },
}

impl View for Step {
    type V = StepView;

    open spec fn view(&self) -> StepView {
        match self {
            Step::CreateDir { path } => StepView::CreateDir { path: path@ },
            Step::Write { path, contents } => StepView::Write {
                path: path@,
                contents: contents@,
            },
        }
    }
}

/// The steps of a plan as plain values.
pub open spec fn steps_view(steps: Seq<Step>) -> Seq<StepView> {
    steps.map_values(|s: Step| s@)
}

/// What `inflector::cases::pascalcase::to_pascal_case` makes of `s`: the
/// words of `s` run together, each with a capital first letter.
pub uninterp spec fn pascal_case(s: Seq<char>) -> Seq<char>;

/// Calls `inflector::cases::pascalcase::to_pascal_case`.
///
/// Believed, not proved: the result depends on the text alone. The call
/// reserves room for twice the text before it reads it; like every
/// `String` that the library builds, that room is taken to be there.
#[verifier::external_body]
fn to_pascal_case(s: &str) -> (r: String)
    ensures
        r@ == pascal_case(s@),
{
    inflector::cases::pascalcase::to_pascal_case(s)
}

/// The entry for the author in a manifest: name and address, or nothing
/// where no author is known.
pub open spec fn author_text(author: Option<(Seq<char>, Seq<char>)>) -> Seq<char> {
    match author {
        Some((author, email)) => author + " <"@ + email + ">"@,
        None => seq![],
    }
}

/// The section of a manifest that names what is built: the program with
/// its main file, or the library with its root module.
pub open spec fn target_text(name: NameView, bin: bool) -> Seq<char> {
    if bin {
        "[[targets.bin]]\nname = \""@ + name.name + "\"\nmain = \"src/Main.idr\"\n\n"@
    } else {
        "[targets.lib]\npath = \"src/\"\nmods = [\n    \""@ + name.group + "."@ + name.name
            + "\"\n]\n\n"@
    }
}

/// The manifest of a new project.
pub open spec fn manifest_text(ctx: NewCtxView) -> Seq<char> {
    "[package]\nname = \""@ + name_text(ctx.name) + "\"\nversion = \"0.1.0\"\nauthors = ["@
        + author_text(ctx.author) + "]\n\n[dependencies]\n\n"@ + target_text(ctx.name, ctx.bin)
}

/// The directory of the root module of a library, below the project.
pub open spec fn module_dir(group: Seq<char>) -> Seq<char> {
    "src/"@ + group
}

/// The file of the root module of a library, below the project.
pub open spec fn module_file(group: Seq<char>, name: Seq<char>) -> Seq<char> {
    "src/"@ + group + "/"@ + name + ".idr"@
}

/// What the file of the root module of a library holds.
pub open spec fn module_text(group: Seq<char>, name: Seq<char>) -> Seq<char> {
    "module "@ + group + "."@ + name + "\n\n"@
}

/// The steps that fill the directory of a new project: the manifest, then
/// the source directory with its first file. `group` and `name` are the
/// names of the library's root module.
pub open spec fn init_steps(ctx: NewCtxView, group: Seq<char>, name: Seq<char>) -> Seq<
    StepView,
> {
    let manifest = StepView::Write {
        path: join(ctx.path, "elba.toml"@),
        contents: manifest_text(ctx),
    };
    if ctx.bin {
        seq![
            manifest,
            StepView::CreateDir { path: join(ctx.path, "src"@) },
            StepView::Write { path: join(ctx.path, "src/Main.idr"@), contents: "module Main\n\n"@ },
        ]
    } else {
        seq![
            manifest,
            StepView::CreateDir { path: join(ctx.path, module_dir(group)) },
            StepView::Write {
                path: join(ctx.path, module_file(group, name)),
                contents: module_text(group, name),
            },
        ]
    }
}

/// What is said where the directory of a new project is there already.
pub open spec fn exists_text(path: Seq<char>) -> Seq<char> {
    "destination `"@ + path
        + "` already exists\n\ncreate a new `elba.toml` manifest file in the directory instead"@
}

/// Writes the manifest of a new project.
fn manifest_of(ctx: &NewCtx) -> (r: String)
    ensures
        r@ == manifest_text(ctx@),
{
    let mut r = "[package]\nname = \"".to_owned();
    r.append(ctx.name.as_str());
    r.append("\"\nversion = \"0.1.0\"\nauthors = [");
    if let Some((author, email)) = &ctx.author {
        r.append(author.as_str());
        r.append(" <");
        r.append(email.as_str());
        r.append(">");
    }
    r.append("]\n\n[dependencies]\n\n");
    if ctx.bin {
        r.append("[[targets.bin]]\nname = \"");
        r.append(ctx.name.name());
        r.append("\"\nmain = \"src/Main.idr\"\n\n");
    } else {
        r.append("[targets.lib]\npath = \"src/\"\nmods = [\n    \"");
        r.append(ctx.name.group());
        r.append(".");
        r.append(ctx.name.name());
        r.append("\"\n]\n\n");
    }
    proof {
        assert(r@ =~= manifest_text(ctx@));
    }
    r
}

/// Plans the files of a new project, where `group` and `name` are the
/// names of the library's root module.
pub fn init_with(ctx: NewCtx, group: &str, name: &str) -> (r: Vec<Step>)
    ensures
        steps_view(r@) == init_steps(ctx@, group@, name@),
{
    let mut steps: Vec<Step> = Vec::new();
    steps.push(
        Step::Write {
            path: join_path(ctx.path.as_str(), "elba.toml"),
            contents: manifest_of(&ctx),
        },
    );
    if !ctx.bin {
        let mut dir = "src/".to_owned();
        dir.append(group);
        let mut file = "src/".to_owned();
        file.append(group);
        file.append("/");
        file.append(name);
        file.append(".idr");
        let mut contents = "module ".to_owned();
        contents.append(group);
        contents.append(".");
        contents.append(name);
        contents.append("\n\n");
        proof {
            assert(file@ =~= module_file(group@, name@));
            assert(contents@ =~= module_text(group@, name@));
        }
        steps.push(Step::CreateDir { path: join_path(ctx.path.as_str(), dir.as_str()) });
        steps.push(Step::Write { path: join_path(ctx.path.as_str(), file.as_str()), contents });
    } else {
        steps.push(Step::CreateDir { path: join_path(ctx.path.as_str(), "src") });
        steps.push(
            Step::Write {
                path: join_path(ctx.path.as_str(), "src/Main.idr"),
                contents: "module Main\n\n".to_owned(),
            },
        );
    }
    proof {
        assert(steps_view(steps@) =~= init_steps(ctx@, group@, name@));
    }
    steps
}

/// Plans the files of a new project in a directory that is there. The root
/// module of a library is named after the package, group and name each in
/// Pascal case.
pub fn init(ctx: NewCtx) -> (r: Vec<Step>)
    ensures
        steps_view(r@) == init_steps(
            ctx@,
            pascal_case(ctx@.name.group),
            pascal_case(ctx@.name.name),
        ),
{
    let group = to_pascal_case(ctx.name.group());
    let name = to_pascal_case(ctx.name.name());
    init_with(ctx, group.as_str(), name.as_str())
}

/// Plans a new project: its directory, then its files. `exists` says
/// whether something stands at the project's path already; if so, nothing
/// is planned and the error says why.
pub fn new(ctx: NewCtx, exists: bool) -> (r: Result<Vec<Step>, String>)
    ensures
        match r {
            Ok(steps) => !exists && steps_view(steps@) == seq![
                StepView::CreateDir { path: ctx@.path },
            ] + init_steps(ctx@, pascal_case(ctx@.name.group), pascal_case(ctx@.name.name)),
            Err(message) => exists && message@ == exists_text(ctx@.path),
        },
{
    if exists {
        let mut message = "destination `".to_owned();
        message.append(ctx.path.as_str());
        message.append(
            "` already exists\n\ncreate a new `elba.toml` manifest file in the directory instead",
        );
        return Err(message);
    }
    let mut steps: Vec<Step> = Vec::new();
    steps.push(Step::CreateDir { path: ctx.path.clone() });
    let ghost view = ctx@;
    let mut rest = init(ctx);
    let ghost rest_view = steps_view(rest@);
    steps.append(&mut rest);
    proof {
        assert(steps_view(steps@) =~= seq![StepView::CreateDir { path: view.path }] + rest_view);
    }
    Ok(steps)
}

} // verus!
