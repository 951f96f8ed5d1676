//! Putting a project under version control.

use crate::assets::{AssetName, Assets};
use crate::effects::{
    add_line, done, failing, info, no_lines, performing, plain, notice, running, warning, Action,
    ActionView, Command, CommandView, Kind, Line, LineView, Next, NextView, Reply, Step,
    StepView,
};
use crate::text::{child, concat2, concat3, copy_texts, list2, list3};
use vstd::prelude::*;

verus! {

/// `git` with these arguments, run in `dir`.
pub open spec fn git(args: Seq<Seq<char>>, dir: Seq<Seq<char>>) -> CommandView {
    CommandView { program: "git"@, args, dir }
}

/// `git` with these arguments, run in `dir`.
fn git_command(args: Vec<String>, dir: &Vec<String>) -> (r: Command)
    ensures
        r.deep_view() == git(args.deep_view(), dir.deep_view()),
{
    Command { program: "git".to_owned(), args, dir: copy_texts(dir) }
}

/// The command that tells whether git can be run at all.
pub open spec fn version_query() -> CommandView {
    git(seq!["--version"@], Seq::empty())
}

/// The command that tells whether git can be run at all: it is installed
/// where the command exits with success.
pub fn git_version() -> (r: Command)
    ensures
        r.deep_view() == version_query(),
{
    let mut args: Vec<String> = Vec::new();
    args.push("--version".to_owned());
    assert(args.deep_view() =~= seq!["--version"@]);
    let dir: Vec<String> = Vec::new();
    assert(dir.deep_view() =~= Seq::empty());
    git_command(args, &dir)
}

/// Whether the reply to `git_version` says that git is installed: it ran and
/// exited with success.
pub fn is_git_installed(reply: &Reply) -> (r: bool)
    ensures
        r == (reply is Yes),
{
    match reply {
        Reply::Yes(_) => true,
        _ => false,
    }
}

/// How far the set-up of the workflow has come.
#[derive(Clone, Copy, Debug, PartialEq, Eq, Structural)]
pub enum CiStage {
    Begin,
    /// The workflow directory has been asked for.
    Directory,
    /// The workflow file has been asked for.
    File,
    Finished,
}

/// The next stage and step of the workflow set-up below `path` for the
/// project `name`.
pub open spec fn ci_step(
    path: Seq<Seq<char>>,
    name: Seq<char>,
    assets: Assets,
    stage: CiStage,
    reply: Reply,
) -> (CiStage, StepView) {
    let workflows = path.push(".github"@).push("workflows"@);
    match stage {
        CiStage::Begin => (
            CiStage::Directory,
            performing(
                seq![info("Setting up CI/CD workflows..."@)],
                ActionView::CreateDirAll { path: workflows },
            ),
        ),
        CiStage::Directory => if reply is Yes {
            (
                CiStage::File,
                performing(
                    Seq::empty(),
                    ActionView::Write {
                        path: workflows.push("general.yaml"@),
                        content: assets.text(AssetName::Workflow),
                    },
                ),
            )
        } else {
            (
                CiStage::Finished,
                failing(
                    Seq::empty(),
                    Kind::Io,
                    "Failed to create .github/workflows directory."@,
                    reply.text(),
                ),
            )
        },
        CiStage::File => if reply is Yes {
            (
                CiStage::Finished,
                done(seq![info("Created CI/CD workflow for project "@ + name + "."@)]),
            )
        } else {
            (
                CiStage::Finished,
                failing(
                    Seq::empty(),
                    Kind::Io,
                    "Failed to create CI/CD workflow file."@,
                    reply.text(),
                ),
            )
        },
        CiStage::Finished => (CiStage::Finished, done(Seq::empty())),
    }
}

/// One step of the workflow set-up: creates `.github/workflows` below
/// `project_path` and writes the workflow into it. The reply at `Begin` is
/// not looked at.
pub fn setup_ci(
    project_path: &Vec<String>,
    project_name: &str,
    assets: &Assets,
    stage: CiStage,
    reply: &Reply,
) -> (r: (CiStage, Step))
    ensures
        (r.0, r.1.deep_view()) == ci_step(
            project_path.deep_view(),
            project_name@,
            *assets,
            stage,
            *reply,
        ),
{
    let github = child(project_path, ".github");
    let workflows_dir = child(&github, "workflows");
    let fine = match reply {
        Reply::Yes(_) => true,
        _ => false,
    };
    match stage {
        CiStage::Begin => {
            let mut lines = no_lines();
            add_line(&mut lines, Line::info("Setting up CI/CD workflows...".to_owned()));
            assert(lines.deep_view() =~= seq![info("Setting up CI/CD workflows..."@)]);
            (CiStage::Directory, Step::perform(lines, Action::CreateDirAll { path: workflows_dir }))
        },
        CiStage::Directory => {
            if fine {
                let action = Action::Write {
                    path: child(&workflows_dir, "general.yaml"),
                    content: assets.get(AssetName::Workflow).to_owned(),
                };
                (CiStage::File, Step::perform(no_lines(), action))
            } else {
                (
                    CiStage::Finished,
                    Step::fail(
                        no_lines(),
                        Kind::Io,
                        "Failed to create .github/workflows directory.".to_owned(),
                        reply.message().to_owned(),
                    ),
                )
            }
        },
        CiStage::File => {
            if fine {
                let mut lines = no_lines();
                add_line(
                    &mut lines,
                    Line::info(concat3("Created CI/CD workflow for project ", project_name, ".")),
                );
                assert(lines.deep_view() =~= seq![
                    info("Created CI/CD workflow for project "@ + project_name@ + "."@),
                ]);
                (CiStage::Finished, Step::done(lines))
            } else {
                (
                    CiStage::Finished,
                    Step::fail(
                        no_lines(),
                        Kind::Io,
                        "Failed to create CI/CD workflow file.".to_owned(),
                        reply.message().to_owned(),
                    ),
                )
            }
        },
        CiStage::Finished => (CiStage::Finished, Step::done(no_lines())),
    }
}

/// How far the creation of a repository has come.
#[derive(Clone, Copy, Debug, PartialEq, Eq, Structural)]
pub enum RepoStage {
    Begin,
    /// `git init` has been asked for.
    Init,
    /// The ignore file has been asked for.
    Ignore,
    /// The workflow is being set up.
    Ci(CiStage),
    /// `git add` has been asked for.
    Add,
    /// `git commit` has been asked for.
    Commit,
    Finished,
}

/// The step that stages the files of the project at `path`.
pub open spec fn staging(path: Seq<Seq<char>>, lines: Seq<LineView>) -> (RepoStage, StepView) {
    (RepoStage::Add, running(lines, git(seq!["add"@, "."@], path)))
}

/// What follows a step of the workflow set-up inside the creation of a
/// repository: its request or its failure, or the staging once it is done.
pub open spec fn repo_after_ci(path: Seq<Seq<char>>, inner: (CiStage, StepView)) -> (
    RepoStage,
    StepView,
) {
    match inner.1.next {
        NextView::Perform(_) => (RepoStage::Ci(inner.0), inner.1),
        NextView::Fail(_) => (RepoStage::Finished, inner.1),
        NextView::Done => staging(path, inner.1.lines),
    }
}

/// The next stage and step of the creation of a repository at `path` for
/// the project `name`.
pub open spec fn repo_step(
    path: Seq<Seq<char>>,
    init_ci: bool,
    name: Seq<char>,
    assets: Assets,
    stage: RepoStage,
    reply: Reply,
) -> (RepoStage, StepView) {
    match stage {
        RepoStage::Begin => (
            RepoStage::Init,
            running(
                seq![info("Setting up Git repository..."@)],
                git(seq!["init"@, "-b"@, "main"@], path),
            ),
        ),
        RepoStage::Init => match reply {
            Reply::Yes(_) => (
                RepoStage::Ignore,
                performing(
                    Seq::empty(),
                    ActionView::Write {
                        path: path.push(".gitignore"@),
                        content: assets.text(AssetName::Gitignore),
                    },
                ),
            ),
            Reply::No(output) => (
                RepoStage::Finished,
                failing(
                    Seq::empty(),
                    Kind::ExternalTool,
                    "Failed to initialize git repository. Git output: "@ + output@,
                    Seq::empty(),
                ),
            ),
            Reply::Failed(message) => (
                RepoStage::Finished,
                failing(Seq::empty(), Kind::ExternalTool, "Failed to run git init."@, message@),
            ),
        },
        RepoStage::Ignore => if reply is Yes {
            if init_ci {
                repo_after_ci(path, ci_step(path, name, assets, CiStage::Begin, reply))
            } else {
                staging(path, Seq::empty())
            }
        } else {
            (
                RepoStage::Finished,
                failing(Seq::empty(), Kind::Io, "Failed to create .gitignore file."@, reply.text()),
            )
        },
        RepoStage::Ci(inner) => repo_after_ci(path, ci_step(path, name, assets, inner, reply)),
        RepoStage::Add => match reply {
            Reply::Yes(_) => (
                RepoStage::Commit,
                running(
                    Seq::empty(),
                    git(seq!["commit"@, "-m"@, "Initial commit for "@ + name], path),
                ),
            ),
            Reply::No(output) => (
                RepoStage::Finished,
                failing(
                    Seq::empty(),
                    Kind::ExternalTool,
                    "Failed to stage files. Git output: "@ + output@,
                    Seq::empty(),
                ),
            ),
            Reply::Failed(message) => (
                RepoStage::Finished,
                failing(Seq::empty(), Kind::ExternalTool, "Failed to run git add."@, message@),
            ),
        },
        RepoStage::Commit => match reply {
            Reply::Yes(_) => (
                RepoStage::Finished,
                done(seq![info("Git repository initialized with initial commit."@)]),
            ),
            Reply::No(_) => (
                RepoStage::Finished,
                done(
                    seq![
                        warning("Warning: Failed to create initial commit."@),
                        warning("You may need to configure git user.name and user.email."@),
                    ],
                ),
            ),
            Reply::Failed(message) => (
                RepoStage::Finished,
                failing(Seq::empty(), Kind::ExternalTool, "Failed to run git commit."@, message@),
            ),
        },
        RepoStage::Finished => (RepoStage::Finished, done(Seq::empty())),
    }
}

/// Stages the files of the project.
fn stage_files(project_path: &Vec<String>, lines: Vec<Line>) -> (r: (RepoStage, Step))
    ensures
        (r.0, r.1.deep_view()) == staging(project_path.deep_view(), lines.deep_view()),
{
    (RepoStage::Add, Step::run(lines, git_command(list2("add", "."), project_path)))
}

/// Goes on after a step of the workflow set-up.
fn repo_continue(project_path: &Vec<String>, inner: (CiStage, Step)) -> (r: (RepoStage, Step))
    ensures
        (r.0, r.1.deep_view()) == repo_after_ci(
            project_path.deep_view(),
            (inner.0, inner.1.deep_view()),
        ),
{
    let (stage, step) = inner;
    match step.next {
        Next::Perform(_) => (RepoStage::Ci(stage), step),
        Next::Fail(_) => (RepoStage::Finished, step),
        Next::Done => stage_files(project_path, step.lines),
    }
}

/// One step of the creation of a repository in `project_path`: `git init`,
/// the ignore file, the workflow where it is asked for, `git add` and the
/// first commit.
///
/// A command that cannot be started or exits with an error ends the work
/// with a failure, and so does a file that cannot be written. Only the
/// commit may fail: that gives two warnings and success. The reply at
/// `Begin` is not looked at.
pub fn init_repo(
    project_path: &Vec<String>,
    init_ci: bool,
    project_name: &str,
    assets: &Assets,
    stage: RepoStage,
    reply: &Reply,
) -> (r: (RepoStage, Step))
    ensures
        (r.0, r.1.deep_view()) == repo_step(
            project_path.deep_view(),
            init_ci,
            project_name@,
            *assets,
            stage,
            *reply,
        ),
{
    match stage {
        RepoStage::Begin => {
            let mut lines = no_lines();
            add_line(&mut lines, Line::info("Setting up Git repository...".to_owned()));
            assert(lines.deep_view() =~= seq![info("Setting up Git repository..."@)]);
            (
                RepoStage::Init,
                Step::run(lines, git_command(list3("init", "-b", "main"), project_path)),
            )
        },
        RepoStage::Init => match reply {
            Reply::Yes(_) => {
                let action = Action::Write {
                    path: child(project_path, ".gitignore"),
                    content: assets.get(AssetName::Gitignore).to_owned(),
                };
                (RepoStage::Ignore, Step::perform(no_lines(), action))
            },
            Reply::No(output) => (
                RepoStage::Finished,
                Step::fail(
                    no_lines(),
                    Kind::ExternalTool,
                    concat2("Failed to initialize git repository. Git output: ", output.as_str()),
                    String::new(),
                ),
            ),
            Reply::Failed(message) => (
                RepoStage::Finished,
                Step::fail(
                    no_lines(),
                    Kind::ExternalTool,
                    "Failed to run git init.".to_owned(),
                    message.clone(),
                ),
            ),
        },
        RepoStage::Ignore => match reply {
            Reply::Yes(_) => {
                if init_ci {
                    let inner = setup_ci(project_path, project_name, assets, CiStage::Begin, reply);
                    repo_continue(project_path, inner)
                } else {
                    stage_files(project_path, no_lines())
                }
            },
            _ => (
                RepoStage::Finished,
                Step::fail(
                    no_lines(),
                    Kind::Io,
                    "Failed to create .gitignore file.".to_owned(),
                    reply.message().to_owned(),
                ),
            ),
        },
        RepoStage::Ci(inner) => {
            let next = setup_ci(project_path, project_name, assets, inner, reply);
            repo_continue(project_path, next)
        },
        RepoStage::Add => match reply {
            Reply::Yes(_) => {
                let note = concat2("Initial commit for ", project_name);
                (
                    RepoStage::Commit,
                    Step::run(
                        no_lines(),
                        git_command(list3("commit", "-m", note.as_str()), project_path),
                    ),
                )
            },
            Reply::No(output) => (
                RepoStage::Finished,
                Step::fail(
                    no_lines(),
                    Kind::ExternalTool,
                    concat2("Failed to stage files. Git output: ", output.as_str()),
                    String::new(),
                ),
            ),
            Reply::Failed(message) => (
                RepoStage::Finished,
                Step::fail(
                    no_lines(),
                    Kind::ExternalTool,
                    "Failed to run git add.".to_owned(),
                    message.clone(),
                ),
            ),
        },
        RepoStage::Commit => match reply {
            Reply::Yes(_) => {
                let mut lines = no_lines();
                add_line(
                    &mut lines,
                    Line::info("Git repository initialized with initial commit.".to_owned()),
                );
                assert(lines.deep_view() =~= seq![
                    info("Git repository initialized with initial commit."@),
                ]);
                (RepoStage::Finished, Step::done(lines))
            },
            Reply::No(_) => {
                let mut lines = no_lines();
                add_line(
                    &mut lines,
                    Line::warning("Warning: Failed to create initial commit.".to_owned()),
                );
                add_line(
                    &mut lines,
                    Line::warning(
                        "You may need to configure git user.name and user.email.".to_owned(),
                    ),
                );
                assert(lines.deep_view() =~= seq![
                    warning("Warning: Failed to create initial commit."@),
                    warning("You may need to configure git user.name and user.email."@),
                ]);
                (RepoStage::Finished, Step::done(lines))
            },
            Reply::Failed(message) => (
                RepoStage::Finished,
                Step::fail(
                    no_lines(),
                    Kind::ExternalTool,
                    "Failed to run git commit.".to_owned(),
                    message.clone(),
                ),
            ),
        },
        RepoStage::Finished => (RepoStage::Finished, Step::done(no_lines())),
    }
}

/// How far the set-up of version control in an existing repository has come.
#[derive(Clone, Copy, Debug, PartialEq, Eq, Structural)]
pub enum SetupStage {
    Begin,
    /// Git has been asked whether this is a repository.
    Repository,
    /// The ignore file has been looked for.
    Probe,
    /// The ignore file has been asked for.
    Ignore,
    /// The workflow is being set up.
    Ci(CiStage),
    Finished,
}

/// The name of the project: that of the working directory, or `project`
/// where it has none that is text.
pub open spec fn project_name_of(directory: Reply) -> Seq<char> {
    match directory {
        Reply::Yes(name) => name@,
        _ => "project"@,
    }
}

/// The last step of the set-up.
pub open spec fn setup_end(init_ci: bool, lines: Seq<LineView>) -> (SetupStage, StepView) {
    let complete = lines.push(info("Git setup complete."@));
    if init_ci {
        (SetupStage::Finished, done(complete))
    } else {
        (
            SetupStage::Finished,
            done(
                complete + seq![
                    plain(""@),
                    notice("To add CI/CD workflows later:"@),
                    plain("  nih-bootstrap git --ci"@),
                ],
            ),
        )
    }
}

/// What follows a step of the workflow set-up inside the set-up of version
/// control: its request or its failure, or the last step once it is done.
pub open spec fn setup_after_ci(init_ci: bool, inner: (CiStage, StepView)) -> (
    SetupStage,
    StepView,
) {
    match inner.1.next {
        NextView::Perform(_) => (SetupStage::Ci(inner.0), inner.1),
        NextView::Fail(_) => (SetupStage::Finished, inner.1),
        NextView::Done => setup_end(init_ci, inner.1.lines),
    }
}

/// What follows once the ignore file is there: the workflow where it is
/// asked for, else the last step.
pub open spec fn setup_after_ignore(
    init_ci: bool,
    directory: Reply,
    assets: Assets,
    lines: Seq<LineView>,
    reply: Reply,
) -> (SetupStage, StepView) {
    if init_ci {
        let inner = ci_step(Seq::empty(), project_name_of(directory), assets, CiStage::Begin, reply);
        setup_after_ci(
            init_ci,
            (inner.0, StepView { lines: lines + inner.1.lines, next: inner.1.next }),
        )
    } else {
        setup_end(init_ci, lines)
    }
}

/// The next stage and step of the set-up of version control in the working
/// directory.
pub open spec fn setup_step(
    init_ci: bool,
    directory: Reply,
    assets: Assets,
    stage: SetupStage,
    reply: Reply,
) -> (SetupStage, StepView) {
    match stage {
        SetupStage::Begin => (
            SetupStage::Repository,
            running(
                seq![info("Setting up Git..."@)],
                git(seq!["rev-parse"@, "--git-dir"@], Seq::empty()),
            ),
        ),
        SetupStage::Repository => match reply {
            Reply::Failed(message) => (
                SetupStage::Finished,
                failing(Seq::empty(), Kind::ExternalTool, "Failed to check git status"@, message@),
            ),
            Reply::No(_) => (
                SetupStage::Finished,
                failing(
                    Seq::empty(),
                    Kind::Precondition,
                    "Not in a git repository. Run 'git init' first."@,
                    Seq::empty(),
                ),
            ),
            Reply::Yes(_) => match directory {
                Reply::Failed(message) => (
                    SetupStage::Finished,
                    failing(Seq::empty(), Kind::Io, message@, Seq::empty()),
                ),
                _ => (
                    SetupStage::Probe,
                    performing(Seq::empty(), ActionView::PathExists { path: seq![".gitignore"@] }),
                ),
            },
        },
        SetupStage::Probe => if reply is Yes {
            setup_after_ignore(init_ci, directory, assets, Seq::empty(), reply)
        } else {
            (
                SetupStage::Ignore,
                performing(
                    Seq::empty(),
                    ActionView::Write {
                        path: seq![".gitignore"@],
                        content: assets.text(AssetName::Gitignore),
                    },
                ),
            )
        },
        SetupStage::Ignore => if reply is Yes {
            setup_after_ignore(
                init_ci,
                directory,
                assets,
                seq![info("Created .gitignore file."@)],
                reply,
            )
        } else {
            (
                SetupStage::Finished,
                failing(Seq::empty(), Kind::Io, "Failed to create .gitignore"@, reply.text()),
            )
        },
        SetupStage::Ci(inner) => setup_after_ci(
            init_ci,
            ci_step(Seq::empty(), project_name_of(directory), assets, inner, reply),
        ),
        SetupStage::Finished => (SetupStage::Finished, done(Seq::empty())),
    }
}

/// The name of the project in the working directory.
fn project_name(directory: &Reply) -> (r: &str)
    ensures
        r@ == project_name_of(*directory),
{
    match directory {
        Reply::Yes(name) => name.as_str(),
        _ => "project",
    }
}

/// Ends the set-up.
fn finish_setup(init_ci: bool, lines: Vec<Line>) -> (r: (SetupStage, Step))
    ensures
        (r.0, r.1.deep_view()) == setup_end(init_ci, lines.deep_view()),
{
    let mut lines = lines;
    let ghost first = lines.deep_view();
    add_line(&mut lines, Line::info("Git setup complete.".to_owned()));
    if !init_ci {
        add_line(&mut lines, Line::plain("".to_owned()));
        add_line(&mut lines, Line::notice("To add CI/CD workflows later:".to_owned()));
        add_line(&mut lines, Line::plain("  nih-bootstrap git --ci".to_owned()));
        assert(lines.deep_view() =~= first.push(info("Git setup complete."@)) + seq![
            plain(""@),
            notice("To add CI/CD workflows later:"@),
            plain("  nih-bootstrap git --ci"@),
        ]);
    }
    (SetupStage::Finished, Step::done(lines))
}

/// Goes on after a step of the workflow set-up.
fn setup_continue(init_ci: bool, inner: (CiStage, Step)) -> (r: (SetupStage, Step))
    ensures
        (r.0, r.1.deep_view()) == setup_after_ci(init_ci, (inner.0, inner.1.deep_view())),
{
    let (stage, step) = inner;
    match step.next {
        Next::Perform(_) => (SetupStage::Ci(stage), step),
        Next::Fail(_) => (SetupStage::Finished, step),
        Next::Done => finish_setup(init_ci, step.lines),
    }
}

/// Goes on once the ignore file is there.
fn setup_workflow(
    init_ci: bool,
    directory: &Reply,
    assets: &Assets,
    lines: Vec<Line>,
    reply: &Reply,
) -> (r: (SetupStage, Step))
    ensures
        (r.0, r.1.deep_view()) == setup_after_ignore(
            init_ci,
            *directory,
            *assets,
            lines.deep_view(),
            *reply,
        ),
{
    if init_ci {
        let here: Vec<String> = Vec::new();
        assert(here.deep_view() =~= Seq::empty());
        let (stage, step) = setup_ci(&here, project_name(directory), assets, CiStage::Begin, reply);
        setup_continue(init_ci, (stage, step.after(lines)))
    } else {
        finish_setup(init_ci, lines)
    }
}

/// One step of the set-up of version control in the working directory,
/// which must be a repository already: the ignore file where there is none,
/// and the workflow where it is asked for.
///
/// `directory` answers what the working directory is called: `Yes` with its
/// name, `No` where it has none that is text, `Failed` where the directory
/// cannot be found out. Where git says that this is no repository the set-up
/// fails and changes nothing. The reply at `Begin` is not looked at.
pub fn setup(
    init_ci: bool,
    directory: &Reply,
    assets: &Assets,
    stage: SetupStage,
    reply: &Reply,
) -> (r: (SetupStage, Step))
    ensures
        (r.0, r.1.deep_view()) == setup_step(init_ci, *directory, *assets, stage, *reply),
{
    let mut ignore: Vec<String> = Vec::new();
    ignore.push(".gitignore".to_owned());
    assert(ignore.deep_view() =~= seq![".gitignore"@]);
    match stage {
        SetupStage::Begin => {
            let mut lines = no_lines();
            add_line(&mut lines, Line::info("Setting up Git...".to_owned()));
            assert(lines.deep_view() =~= seq![info("Setting up Git..."@)]);
            let here: Vec<String> = Vec::new();
            assert(here.deep_view() =~= Seq::empty());
            (
                SetupStage::Repository,
                Step::run(lines, git_command(list2("rev-parse", "--git-dir"), &here)),
            )
        },
        SetupStage::Repository => match reply {
            Reply::Failed(message) => (
                SetupStage::Finished,
                Step::fail(
                    no_lines(),
                    Kind::ExternalTool,
                    "Failed to check git status".to_owned(),
                    message.clone(),
                ),
            ),
            Reply::No(_) => (
                SetupStage::Finished,
                Step::fail(
                    no_lines(),
                    Kind::Precondition,
                    "Not in a git repository. Run 'git init' first.".to_owned(),
                    String::new(),
                ),
            ),
            Reply::Yes(_) => match directory {
                Reply::Failed(message) => (
                    SetupStage::Finished,
                    Step::fail(no_lines(), Kind::Io, message.clone(), String::new()),
                ),
                _ => (
                    SetupStage::Probe,
                    Step::perform(no_lines(), Action::PathExists { path: ignore }),
                ),
            },
        },
        SetupStage::Probe => match reply {
            Reply::Yes(_) => setup_workflow(init_ci, directory, assets, no_lines(), reply),
            _ => {
                let action = Action::Write {
                    path: ignore,
                    content: assets.get(AssetName::Gitignore).to_owned(),
                };
                (SetupStage::Ignore, Step::perform(no_lines(), action))
            },
        },
        SetupStage::Ignore => match reply {
            Reply::Yes(_) => {
                let mut lines = no_lines();
                add_line(&mut lines, Line::info("Created .gitignore file.".to_owned()));
                assert(lines.deep_view() =~= seq![info("Created .gitignore file."@)]);
                setup_workflow(init_ci, directory, assets, lines, reply)
            },
            _ => (
                SetupStage::Finished,
                Step::fail(
                    no_lines(),
                    Kind::Io,
                    "Failed to create .gitignore".to_owned(),
                    reply.message().to_owned(),
                ),
            ),
        },
        SetupStage::Ci(inner) => {
            let here: Vec<String> = Vec::new();
            assert(here.deep_view() =~= Seq::empty());
            let next = setup_ci(&here, project_name(directory), assets, inner, reply);
            setup_continue(init_ci, next)
        },
        SetupStage::Finished => (SetupStage::Finished, Step::done(no_lines())),
    }
}

} // verus!
