//! Creating a new plugin project.

use crate::assets::{AssetName, Assets};
use crate::commands::git::{git_version, init_repo, repo_step, version_query, RepoStage};
use crate::config::Config;
use crate::effects::{
    add_line, done, failing, info, no_lines, notice, performing, plain, running, warning, Action,
    ActionView, Kind, Line, LineView, Next, NextView, Reply, Step, StepView,
};
use crate::templates::{project_plan, TemplateContext, TemplateRenderer};
use crate::text::{
    ascii_lower, ascii_upper, chars_of, child, concat2, concat3, join, joined, list2,
    to_ascii_lower, to_ascii_upper,
};
use vstd::prelude::*;

verus! {

/// Whether a character parts the words of a name.
pub open spec fn is_separator(c: char) -> bool {
    c == '_' || c == '-' || c == ' '
}

/// The name as an identifier: each hyphen and each space becomes an
/// underscore, and each ASCII capital its small letter.
pub open spec fn underscored(name: Seq<char>) -> Seq<char> {
    Seq::new(
        name.len(),
        |i: int|
            if name[i] == '-' || name[i] == ' ' {
                '_'
            } else {
                ascii_lower(name[i])
            },
    )
}

/// What the character at position `at` gives to the capitalized name:
/// nothing where it is a separator, its capital where it starts the text or
/// follows a separator, else itself.
pub open spec fn capital_piece(s: Seq<char>, at: int) -> Seq<char> {
    if is_separator(s[at]) {
        Seq::empty()
    } else if at == 0 || is_separator(s[at - 1]) {
        seq![ascii_upper(s[at])]
    } else {
        seq![s[at]]
    }
}

/// The capitalized form of the first `upto` characters of `s`.
pub open spec fn capitalized_upto(s: Seq<char>, upto: int) -> Seq<char>
    decreases upto,
{
    if upto <= 0 {
        Seq::empty()
    } else {
        capitalized_upto(s, upto - 1) + capital_piece(s, upto - 1)
    }
}

/// The name with its words run together, each starting with a capital.
pub open spec fn capitalized(s: Seq<char>) -> Seq<char> {
    capitalized_upto(s, s.len() as int)
}

/// Turns a project name into an identifier: hyphens and spaces become
/// underscores, ASCII capitals become small letters.
pub fn underscore_name(name: &str) -> (r: String)
    ensures
        r@ == underscored(name@),
{
    let chars = chars_of(name);
    let mut out = String::new();
    let mut i: usize = 0;
    while i < chars.len()
        invariant
            i <= chars.len(),
            chars@ == name@,
            out@ == underscored(name@).take(i as int),
        decreases chars.len() - i,
    {
        let c = chars[i];
        if c == '-' || c == ' ' {
            out.push('_');
        } else {
            out.push(to_ascii_lower(c));
        }
        assert(out@ =~= underscored(name@).take(i + 1));
        i += 1;
    }
    assert(underscored(name@).take(chars.len() as int) =~= underscored(name@));
    out
}

/// Runs the words of a name together: underscores, hyphens and spaces are
/// dropped, and the character after each of them, like the first one, is
/// replaced by its ASCII capital.
pub fn to_camelcase(s: &str) -> (r: String)
    ensures
        r@ == capitalized(s@),
{
    let chars = chars_of(s);
    let mut result = String::new();
    let mut capitalize_next = true;
    let mut i: usize = 0;
    while i < chars.len()
        invariant
            i <= chars.len(),
            chars@ == s@,
            result@ == capitalized_upto(s@, i as int),
            capitalize_next == (i == 0 || is_separator(s@[i - 1])),
        decreases chars.len() - i,
    {
        let c = chars[i];
        if c == '_' || c == '-' || c == ' ' {
            capitalize_next = true;
            assert(result@ =~= capitalized_upto(s@, i + 1));
        } else if !capitalize_next {
            result.push(c);
        } else {
            result.push(to_ascii_upper(c));
            capitalize_next = false;
        }
        i += 1;
    }
    result
}

/// Separators are alike: two names of the same length that have their
/// separators at the same places and agree everywhere else give the same
/// capitalized name.
pub proof fn lemma_separators_are_alike(first: Seq<char>, second: Seq<char>)
    requires
        first.len() == second.len(),
        forall|i: int|
            0 <= i < first.len() ==> is_separator(first[i]) == is_separator(#[trigger] second[i]),
        forall|i: int|
            0 <= i < first.len() && !is_separator(first[i]) ==> first[i] == #[trigger] second[i],
    ensures
        capitalized(first) == capitalized(second),
{
    lemma_alike_upto(first, second, first.len() as int);
}

proof fn lemma_alike_upto(first: Seq<char>, second: Seq<char>, upto: int)
    requires
        first.len() == second.len(),
        0 <= upto <= first.len(),
        forall|i: int|
            0 <= i < first.len() ==> is_separator(first[i]) == is_separator(#[trigger] second[i]),
        forall|i: int|
            0 <= i < first.len() && !is_separator(first[i]) ==> first[i] == #[trigger] second[i],
    ensures
        capitalized_upto(first, upto) == capitalized_upto(second, upto),
    decreases upto,
{
    if upto > 0 {
        lemma_alike_upto(first, second, upto - 1);
        assert(is_separator(first[upto - 1]) == is_separator(second[upto - 1]));
        if upto > 1 {
            assert(is_separator(first[upto - 2]) == is_separator(second[upto - 2]));
        }
    }
}

/// The line that opens the creation of a project.
pub fn banner(name: &str) -> (r: Line)
    ensures
        r.deep_view() == info("Creating new plugin: "@ + name@ + "."@),
{
    Line::info(concat3("Creating new plugin: ", name, "."))
}

/// What to do after the project has been created; see `show_next_steps`.
pub open spec fn next_steps(path: Seq<char>, name: Seq<char>, git_initialized: bool) -> Seq<
    LineView,
> {
    seq![plain(""@), info("Next steps:"@), plain("  cd "@ + path)] + (if git_initialized {
        Seq::empty()
    } else {
        seq![
            plain("  git init"@),
            plain("  git add ."@),
            plain("  git commit -m 'Initial commit for "@ + name + "'"@),
        ]
    }) + seq![
        plain(""@),
        info("To build project into a VST3 plugin:"@),
        plain("  cargo xtask bundle "@ + name + " --release"@),
        plain(""@),
        info("To check dependencies: "@),
        plain("  nih-bootstrap deps"@),
    ]
}

/// The last lines after the creation of a project; see `show_farewell`.
pub open spec fn farewell(git_installed: bool, git_initialized: bool) -> Seq<LineView> {
    (if git_installed && !git_initialized {
        seq![notice("To add git and CI/CD later:"@), plain("  nih-bootstrap git --ci"@)]
    } else {
        Seq::empty()
    }) + seq![plain(""@), plain("Happy coding! \u{1F680}"@)]
}

/// The lines that tell what to do with the new project at `path`: how to
/// enter it, how to put it under version control where that has not been
/// done, how to build it and how to check the dependencies.
pub fn show_next_steps(path: &str, name: &str, git_initialized: bool) -> (r: Vec<Line>)
    ensures
        r.deep_view() == next_steps(path@, name@, git_initialized),
{
    let mut lines = no_lines();
    add_line(&mut lines, Line::plain("".to_owned()));
    add_line(&mut lines, Line::info("Next steps:".to_owned()));
    add_line(&mut lines, Line::plain(concat2("  cd ", path)));
    if !git_initialized {
        add_line(&mut lines, Line::plain("  git init".to_owned()));
        add_line(&mut lines, Line::plain("  git add .".to_owned()));
        add_line(
            &mut lines,
            Line::plain(concat3("  git commit -m 'Initial commit for ", name, "'")),
        );
    }
    add_line(&mut lines, Line::plain("".to_owned()));
    add_line(&mut lines, Line::info("To build project into a VST3 plugin:".to_owned()));
    add_line(&mut lines, Line::plain(concat3("  cargo xtask bundle ", name, " --release")));
    add_line(&mut lines, Line::plain("".to_owned()));
    add_line(&mut lines, Line::info("To check dependencies: ".to_owned()));
    add_line(&mut lines, Line::plain("  nih-bootstrap deps".to_owned()));
    assert(lines.deep_view() =~= next_steps(path@, name@, git_initialized));
    lines
}

/// The last lines: how to add version control later, where git is there and
/// the project is not under it, and the farewell.
pub fn show_farewell(git_installed: bool, git_initialized: bool) -> (r: Vec<Line>)
    ensures
        r.deep_view() == farewell(git_installed, git_initialized),
{
    let mut lines = no_lines();
    if git_installed && !git_initialized {
        add_line(&mut lines, Line::notice("To add git and CI/CD later:".to_owned()));
        add_line(&mut lines, Line::plain("  nih-bootstrap git --ci".to_owned()));
    }
    add_line(&mut lines, Line::plain("".to_owned()));
    add_line(&mut lines, Line::plain("Happy coding! \u{1F680}".to_owned()));
    assert(lines.deep_view() =~= farewell(git_installed, git_initialized));
    lines
}

/// What a project is created from.
#[derive(Clone, Debug, PartialEq, Eq)]
pub struct Project {
    /// The name as the user gave it.
    pub name: String,
    /// The directory in which the project's own directory is made.
    pub path: String,
    /// The project's own directory as it is shown to the user.
    pub shown: String,
    pub description: String,
    pub init_git: bool,
    pub init_ci: bool,
    pub gui: String,
    pub config: Config,
    pub assets: Assets,
}

/// The path that a request is about; for a command, the directory it runs
/// in.
pub open spec fn request_path(action: ActionView) -> Seq<Seq<char>> {
    match action {
        ActionView::PathExists { path } => path,
        ActionView::CreateDirAll { path } => path,
        ActionView::Write { path, content } => path,
        ActionView::Run { command } => command.dir,
    }
}

/// Whether the request at position `k` of a project's plan writes a
/// rendered template: the three sources and the manifest of the package, the
/// manifest of the build helper and the manifest of the workspace.
pub open spec fn writes_template(k: int) -> bool {
    1 <= k <= 4 || k == 7 || k == 8
}

/// How far the creation of a project has come.
#[derive(Clone, Copy, Debug, PartialEq, Eq, Structural)]
pub enum Stage {
    Begin,
    /// The project's directory has been looked for.
    Probed,
    /// The project's directory has been asked for.
    Root,
    /// The request at this position of the file tree has been made.
    Rendering(usize),
    /// Git has been looked for before the repository is made.
    Git,
    /// The repository is being made.
    Repo(RepoStage),
    /// Git has been looked for again, to tell whether the project is under
    /// version control.
    Recheck,
    /// Git has been looked for once more, for the last lines; the flag says
    /// whether the project is under version control.
    Farewell(bool),
    Finished,
}

impl Project {
    /// The project's own directory.
    pub open spec fn target(&self) -> Seq<Seq<char>> {
        seq![self.path@, self.name@]
    }

    /// The value of each placeholder.
    pub open spec fn values(&self) -> Seq<Seq<char>> {
        seq![
            self.name@,
            underscored(self.name@),
            capitalized(self.name@),
            self.description@,
            self.config.authors@,
            self.config.cargo_pkg_version@,
            self.config.vendor@,
            self.config.vendor_url@,
            self.config.vendor_email@,
            self.config.nih_plug_git@,
        ]
    }

    /// The requests that lay out the project's files: the file tree of the
    /// package and the build helper, then the ignore file of version control,
    /// which every project gets.
    pub open spec fn plan(&self) -> Seq<ActionView> {
        project_plan(self.target(), underscored(self.name@), self.values(), self.assets).push(
            ActionView::Write {
                path: self.target().push(".gitignore"@),
                content: self.assets.text(AssetName::Gitignore),
            },
        )
    }

    /// The file of the request at position `k` as it is shown to the user:
    /// the project's directory as shown, and below it the components that
    /// follow the directory in the request's path, parted by `/`.
    pub open spec fn shown_file(&self, k: int) -> Seq<char> {
        self.shown@ + "/"@ + joined(request_path(self.plan()[k]).skip(2), "/"@)
    }

    /// The step that ends the creation after the request at position `k` has
    /// failed. The failure of a rendered template names the file and keeps
    /// the system's message as its cause, and so does that of the ignore file;
    /// any other failure carries the system's message alone.
    pub open spec fn write_failure(&self, k: int, reply: Reply) -> StepView {
        if writes_template(k) {
            failing(
                Seq::empty(),
                Kind::Io,
                "Failed to write file: "@ + self.shown_file(k),
                reply.text(),
            )
        } else if k == 11 {
            failing(Seq::empty(), Kind::Io, "Failed to create .gitignore file."@, reply.text())
        } else {
            failing(Seq::empty(), Kind::Io, reply.text(), Seq::empty())
        }
    }

    /// The step that tells what to do next and looks for git a last time.
    pub open spec fn closing(&self, lines: Seq<LineView>, git_initialized: bool) -> (
        Stage,
        StepView,
    ) {
        (
            Stage::Farewell(git_initialized),
            running(lines + next_steps(self.shown@, self.name@, git_initialized), version_query()),
        )
    }

    /// The step that looks for git again after the attempt to make a
    /// repository.
    pub open spec fn recheck(&self, lines: Seq<LineView>) -> (Stage, StepView) {
        (Stage::Recheck, running(lines, version_query()))
    }

    /// What follows once every file is written.
    pub open spec fn files_done(&self, lines: Seq<LineView>) -> (Stage, StepView) {
        let created = lines.push(info("Project files created at '"@ + self.shown@ + "'."@));
        if self.init_git {
            (Stage::Git, running(created, version_query()))
        } else {
            self.closing(created, false)
        }
    }

    /// The step that makes the request at position `k` of the file tree, or
    /// what follows the last one.
    pub open spec fn rendering(&self, k: int, lines: Seq<LineView>) -> (Stage, StepView) {
        if 0 <= k < self.plan().len() && k <= usize::MAX {
            (Stage::Rendering(k as usize), performing(lines, self.plan()[k]))
        } else {
            self.files_done(lines)
        }
    }

    /// What follows a step of the making of the repository: its request; or,
    /// once it is over, a line on success or two warnings on failure, and git
    /// is looked for again. A failure there does not fail the creation.
    pub open spec fn after_repo(&self, inner: (RepoStage, StepView)) -> (Stage, StepView) {
        match inner.1.next {
            NextView::Perform(_) => (Stage::Repo(inner.0), inner.1),
            NextView::Done => self.recheck(
                inner.1.lines.push(info("Git repository initialized."@)),
            ),
            NextView::Fail(failure) => self.recheck(
                inner.1.lines + seq![
                    warning("Warning: Failed to initialize git: "@ + failure.message + "."@),
                    warning("You can manually run 'git init'."@),
                ],
            ),
        }
    }

    /// The next stage and step of the creation of the project.
    pub open spec fn created(&self, stage: Stage, reply: Reply) -> (Stage, StepView) {
        match stage {
            Stage::Begin => (
                Stage::Probed,
                performing(Seq::empty(), ActionView::PathExists { path: self.target() }),
            ),
            Stage::Probed => if reply is Yes {
                (
                    Stage::Finished,
                    failing(
                        Seq::empty(),
                        Kind::Precondition,
                        "Directory '"@ + self.shown@ + "' already exists!"@,
                        Seq::empty(),
                    ),
                )
            } else {
                (
                    Stage::Root,
                    performing(Seq::empty(), ActionView::CreateDirAll { path: self.target() }),
                )
            },
            Stage::Root => if reply is Yes {
                self.rendering(0, seq![info("Creating project structure..."@)])
            } else {
                (Stage::Finished, failing(Seq::empty(), Kind::Io, reply.text(), Seq::empty()))
            },
            Stage::Rendering(k) => if reply is Yes {
                self.rendering(k + 1, Seq::empty())
            } else {
                (Stage::Finished, self.write_failure(k as int, reply))
            },
            Stage::Git => if reply is Yes {
                self.after_repo(
                    repo_step(
                        self.target(),
                        self.init_ci,
                        self.name@,
                        self.assets,
                        RepoStage::Begin,
                        reply,
                    ),
                )
            } else {
                self.recheck(
                    seq![
                        warning("Warining: Git is not installed. Skipping Git initialization."@),
                        warning("Install Git and run 'git init'."@),
                    ],
                )
            },
            Stage::Repo(inner) => self.after_repo(
                repo_step(self.target(), self.init_ci, self.name@, self.assets, inner, reply),
            ),
            Stage::Recheck => self.closing(Seq::empty(), reply is Yes),
            Stage::Farewell(git_initialized) => (
                Stage::Finished,
                done(farewell(reply is Yes, git_initialized)),
            ),
            Stage::Finished => (Stage::Finished, done(Seq::empty())),
        }
    }

    /// Tells what to do next and looks for git a last time.
    fn close(&self, lines: Vec<Line>, git_initialized: bool) -> (r: (Stage, Step))
        ensures
            (r.0, r.1.deep_view()) == self.closing(lines.deep_view(), git_initialized),
    {
        let steps = show_next_steps(self.shown.as_str(), self.name.as_str(), git_initialized);
        let step = Step::run(steps, git_version()).after(lines);
        (Stage::Farewell(git_initialized), step)
    }

    /// Goes on once every file is written.
    fn finish_files(&self, lines: Vec<Line>) -> (r: (Stage, Step))
        ensures
            (r.0, r.1.deep_view()) == self.files_done(lines.deep_view()),
    {
        let mut lines = lines;
        add_line(
            &mut lines,
            Line::info(concat3("Project files created at '", self.shown.as_str(), "'.")),
        );
        if self.init_git {
            (Stage::Git, Step::run(lines, git_version()))
        } else {
            self.close(lines, false)
        }
    }

    /// The requests that lay out the project's files.
    pub fn requests(&self) -> (r: Vec<Action>)
        ensures
            r.deep_view() == self.plan(),
    {
        let underscored = underscore_name(self.name.as_str());
        let camelcase = to_camelcase(self.name.as_str());
        let renderer = TemplateRenderer::new(self.gui.as_str());
        let target_path = list2(self.path.as_str(), self.name.as_str());
        let context = TemplateContext {
            project_name: self.name.as_str(),
            underscored_name: underscored.as_str(),
            camelcase_name: camelcase.as_str(),
            description: self.description.as_str(),
            config: &self.config,
        };
        assert(context.values() =~= self.values());
        let mut plan = renderer.render_project(&target_path, &context, &self.assets);
        let ghost tree = plan.deep_view();
        let ignore = Action::Write {
            path: child(&target_path, ".gitignore"),
            content: self.assets.get(AssetName::Gitignore).to_owned(),
        };
        plan.push(ignore);
        assert(plan.deep_view() =~= tree.push(ignore.deep_view()));
        plan
    }

    /// The file of the request at `path`, which lies below the project's
    /// directory, as it is shown to the user.
    fn show_file(&self, path: &Vec<String>) -> (r: String)
        requires
            path.len() >= 2,
        ensures
            r@ == self.shown@ + "/"@ + joined(path.deep_view().skip(2), "/"@),
    {
        let mut parts: Vec<&str> = Vec::new();
        let mut i: usize = 2;
        while i < path.len()
            invariant
                2 <= i <= path.len(),
                parts.deep_view() == path.deep_view().subrange(2, i as int),
            decreases path.len() - i,
        {
            let ghost before = parts.deep_view();
            parts.push(path[i].as_str());
            assert(parts.deep_view() =~= before.push(path@[i as int]@));
            assert(parts.deep_view() =~= path.deep_view().subrange(2, i + 1));
            i += 1;
        }
        assert(path.deep_view().subrange(2, path.len() as int) =~= path.deep_view().skip(2));
        let below = join(&parts, "/");
        concat3(self.shown.as_str(), "/", below.as_str())
    }

    /// Ends the creation after the request at position `k` has failed.
    fn fail_write(&self, k: usize, reply: &Reply) -> (r: Step)
        ensures
            r.deep_view() == self.write_failure(k as int, *reply),
    {
        if (1 <= k && k <= 4) || k == 7 || k == 8 {
            let plan = self.requests();
            assert(plan.deep_view().len() == 12);
            assert(plan.deep_view()[k as int] == plan@[k as int].deep_view());
            match &plan[k] {
                Action::Write { path, content } => {
                    assert(path.deep_view().len() >= 3);
                    let file = self.show_file(path);
                    Step::fail(
                        no_lines(),
                        Kind::Io,
                        concat2("Failed to write file: ", file.as_str()),
                        reply.message().to_owned(),
                    )
                },
                _ => Step::fail(no_lines(), Kind::Io, String::new(), String::new()),
            }
        } else if k == 11 {
            Step::fail(
                no_lines(),
                Kind::Io,
                "Failed to create .gitignore file.".to_owned(),
                reply.message().to_owned(),
            )
        } else {
            Step::fail(no_lines(), Kind::Io, reply.message().to_owned(), String::new())
        }
    }

    /// Makes the request at position `k` of the file tree, or goes on after
    /// the last one.
    fn render_from(&self, k: usize, lines: Vec<Line>) -> (r: (Stage, Step))
        ensures
            (r.0, r.1.deep_view()) == self.rendering(k as int, lines.deep_view()),
    {
        let mut plan = self.requests();
        if k < plan.len() {
            let ghost all = plan.deep_view();
            let ghost held = plan@;
            let action = plan.swap_remove(k);
            assert(action.deep_view() == all[k as int]) by {
                assert(all[k as int] == held[k as int].deep_view());
            }
            (Stage::Rendering(k), Step::perform(lines, action))
        } else {
            assert(plan.deep_view().len() == plan.len());
            self.finish_files(lines)
        }
    }

    /// Goes on after a step of the making of the repository.
    fn continue_repo(&self, inner: (RepoStage, Step)) -> (r: (Stage, Step))
        ensures
            (r.0, r.1.deep_view()) == self.after_repo((inner.0, inner.1.deep_view())),
    {
        let (stage, step) = inner;
        let Step { lines, next } = step;
        match next {
            Next::Perform(action) => (Stage::Repo(stage), Step::perform(lines, action)),
            Next::Done => {
                let mut lines = lines;
                add_line(&mut lines, Line::info("Git repository initialized.".to_owned()));
                (Stage::Recheck, Step::run(lines, git_version()))
            },
            Next::Fail(failure) => {
                let mut lines = lines;
                let ghost first = lines.deep_view();
                add_line(
                    &mut lines,
                    Line::warning(
                        concat3(
                            "Warning: Failed to initialize git: ",
                            failure.message.as_str(),
                            ".",
                        ),
                    ),
                );
                add_line(&mut lines, Line::warning("You can manually run 'git init'.".to_owned()));
                assert(lines.deep_view() =~= first + seq![
                    warning("Warning: Failed to initialize git: "@ + failure.message@ + "."@),
                    warning("You can manually run 'git init'."@),
                ]);
                (Stage::Recheck, Step::run(lines, git_version()))
            },
        }
    }
}

/// One step of the creation of a project: refuses a directory that is there
/// already, makes the directory, writes the file tree and the ignore file,
/// puts the project under version control where that is asked for, and tells
/// what to do next.
///
/// A request of the file tree that fails ends the creation with that failure,
/// which names the file where a rendered template could not be written; what
/// was written before it stays. Nothing that goes wrong with git fails
/// the creation: it gives warnings. The reply at `Begin` is not looked at.
pub fn run(project: &Project, stage: Stage, reply: &Reply) -> (r: (Stage, Step))
    ensures
        (r.0, r.1.deep_view()) == project.created(stage, *reply),
{
    let fine = match reply {
        Reply::Yes(_) => true,
        _ => false,
    };
    match stage {
        Stage::Begin => {
            let target_path = list2(project.path.as_str(), project.name.as_str());
            (Stage::Probed, Step::perform(no_lines(), Action::PathExists { path: target_path }))
        },
        Stage::Probed => {
            if fine {
                (
                    Stage::Finished,
                    Step::fail(
                        no_lines(),
                        Kind::Precondition,
                        concat3("Directory '", project.shown.as_str(), "' already exists!"),
                        String::new(),
                    ),
                )
            } else {
                let target_path = list2(project.path.as_str(), project.name.as_str());
                (
                    Stage::Root,
                    Step::perform(no_lines(), Action::CreateDirAll { path: target_path }),
                )
            }
        },
        Stage::Root => {
            if fine {
                let mut lines = no_lines();
                add_line(&mut lines, Line::info("Creating project structure...".to_owned()));
                assert(lines.deep_view() =~= seq![info("Creating project structure..."@)]);
                project.render_from(0, lines)
            } else {
                (
                    Stage::Finished,
                    Step::fail(no_lines(), Kind::Io, reply.message().to_owned(), String::new()),
                )
            }
        },
        Stage::Rendering(k) => {
            if !fine {
                (Stage::Finished, project.fail_write(k, reply))
            } else if k < usize::MAX {
                project.render_from(k + 1, no_lines())
            } else {
                project.finish_files(no_lines())
            }
        },
        Stage::Git => {
            if fine {
                let target_path = list2(project.path.as_str(), project.name.as_str());
                let inner = init_repo(
                    &target_path,
                    project.init_ci,
                    project.name.as_str(),
                    &project.assets,
                    RepoStage::Begin,
                    reply,
                );
                project.continue_repo(inner)
            } else {
                let mut lines = no_lines();
                add_line(
                    &mut lines,
                    Line::warning(
                        "Warining: Git is not installed. Skipping Git initialization.".to_owned(),
                    ),
                );
                add_line(&mut lines, Line::warning("Install Git and run 'git init'.".to_owned()));
                assert(lines.deep_view() =~= seq![
                    warning("Warining: Git is not installed. Skipping Git initialization."@),
                    warning("Install Git and run 'git init'."@),
                ]);
                (Stage::Recheck, Step::run(lines, git_version()))
            }
        },
        Stage::Repo(inner) => {
            let target_path = list2(project.path.as_str(), project.name.as_str());
            let next = init_repo(
                &target_path,
                project.init_ci,
                project.name.as_str(),
                &project.assets,
                inner,
                reply,
            );
            project.continue_repo(next)
        },
        Stage::Recheck => project.close(no_lines(), fine),
        Stage::Farewell(git_initialized) => (
            Stage::Finished,
            Step::done(show_farewell(fine, git_initialized)),
        ),
        Stage::Finished => (Stage::Finished, Step::done(no_lines())),
    }
}

} // verus!
