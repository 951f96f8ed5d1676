use nih_bootstrap::assets::Assets;
use nih_bootstrap::commands::dependencies::{check_and_install, Check, CheckStage};
use nih_bootstrap::commands::git::{
    git_version, init_repo, is_git_installed, setup, setup_ci, CiStage, RepoStage, SetupStage,
};
use nih_bootstrap::commands::init::{banner, run, show_farewell, show_next_steps, Project, Stage};
use nih_bootstrap::config::Config;
use nih_bootstrap::effects::{Action, Command, Failure, Kind, Line, Next, Reply, Step, Stream, Tone};
use nih_bootstrap::platform::linux::Linux;
use nih_bootstrap::platform::windows::Windows;
use std::collections::{BTreeMap, BTreeSet};

fn strings(parts: &[&str]) -> Vec<String> {
    parts.iter().map(|p| p.to_string()).collect()
}

fn yes() -> Reply {
    Reply::Yes(String::new())
}

fn no() -> Reply {
    Reply::No(String::new())
}

fn plain(text: &str) -> Line {
    Line { stream: Stream::Stdout, tone: Tone::Plain, text: text.to_string() }
}

fn info(text: &str) -> Line {
    Line { stream: Stream::Stdout, tone: Tone::Info, text: text.to_string() }
}

fn notice(text: &str) -> Line {
    Line { stream: Stream::Stdout, tone: Tone::Caution, text: text.to_string() }
}

fn warning(text: &str) -> Line {
    Line { stream: Stream::Stderr, tone: Tone::Caution, text: text.to_string() }
}

fn git(args: &[&str], dir: &[&str]) -> Command {
    Command { program: "git".to_string(), args: strings(args), dir: strings(dir) }
}

fn assets() -> Assets {
    Assets {
        project_main: "// main of %%PROJECT_NAME%%".to_string(),
        lib_iced: "pub struct %%PROJECT_NAME_CAMELCASE%%;".to_string(),
        editor: "// editor".to_string(),
        project_manifest: "name = \"%%PROJECT_NAME_UNDERSCORED%%\"\ndescription = \"%%PROJECT_DESCRIPTION%%\"\nauthors = [\"%%AUTHORS%%\"]\n".to_string(),
        xtask_main: "fn main() {}".to_string(),
        xtask_manifest: "version = \"%%CARGO_PACKAGE_VERSION%%\"".to_string(),
        workspace_manifest: "members = [\"%%PROJECT_NAME_UNDERSCORED%%\", \"xtask\"]".to_string(),
        cargo_config: "[alias]".to_string(),
        gitignore: "target/\n".to_string(),
        workflow: "name: general\n".to_string(),
        default_config: String::new(),
    }
}

fn project(name: &str, path: &str, description: &str, init_git: bool, init_ci: bool) -> Project {
    Project {
        name: name.to_string(),
        path: path.to_string(),
        shown: format!("{}/{}", path, name),
        description: description.to_string(),
        init_git,
        init_ci,
        gui: "iced".to_string(),
        config: Config {
            authors: "Ada".to_string(),
            cargo_pkg_version: "0.3.1".to_string(),
            vendor: "Analytical".to_string(),
            vendor_url: "https://example.org".to_string(),
            vendor_email: "ada@example.org".to_string(),
            nih_plug_git: "https://example.org/nih-plug.git".to_string(),
        },
        assets: assets(),
    }
}

/// A file system and a set of programs that live in memory.
struct World {
    dirs: BTreeSet<Vec<String>>,
    files: BTreeMap<Vec<String>, String>,
    git_installed: bool,
    failing_git: Option<(String, String)>,
    unknown_packages: BTreeSet<String>,
    dpkg_installed: bool,
    failing_apt: Option<String>,
    read_only: Option<String>,
    requests: Vec<Action>,
    printed: Vec<Line>,
}

impl World {
    fn new() -> World {
        World {
            dirs: BTreeSet::new(),
            files: BTreeMap::new(),
            git_installed: true,
            failing_git: None,
            unknown_packages: BTreeSet::new(),
            dpkg_installed: true,
            failing_apt: None,
            read_only: None,
            requests: Vec::new(),
            printed: Vec::new(),
        }
    }

    fn make_dirs(&mut self, path: &[String]) {
        for end in 1..=path.len() {
            self.dirs.insert(path[..end].to_vec());
        }
    }

    fn run_program(&mut self, command: &Command) -> Reply {
        match command.program.as_str() {
            "git" => {
                if !self.git_installed {
                    return Reply::Failed("No such file or directory (os error 2)".to_string());
                }
                if let Some((verb, output)) = &self.failing_git {
                    if command.args[0] == *verb {
                        return Reply::No(output.clone());
                    }
                }
                match command.args[0].as_str() {
                    "init" => {
                        let mut repository = command.dir.clone();
                        repository.push(".git".to_string());
                        self.make_dirs(&repository);
                        yes()
                    }
                    "rev-parse" => {
                        if self.dirs.contains(&strings(&[".git"])) {
                            yes()
                        } else {
                            Reply::No("fatal: not a git repository".to_string())
                        }
                    }
                    _ => yes(),
                }
            }
            "dpkg" => {
                if !self.dpkg_installed {
                    Reply::Failed("No such file or directory (os error 2)".to_string())
                } else if self.unknown_packages.contains(&command.args[1]) {
                    Reply::No(format!("dpkg-query: no packages found matching {}", command.args[1]))
                } else {
                    yes()
                }
            }
            "sudo" => match &self.failing_apt {
                Some(verb) if command.args[1] == *verb => Reply::No("E: Could not get lock".to_string()),
                _ => yes(),
            },
            other => Reply::Failed(format!("{}: not found", other)),
        }
    }

    fn answer(&mut self, action: &Action) -> Reply {
        self.requests.push(action.clone());
        match action {
            Action::PathExists { path } => {
                if self.dirs.contains(path) || self.files.contains_key(path) {
                    yes()
                } else {
                    no()
                }
            }
            Action::CreateDirAll { path } => {
                self.make_dirs(path);
                yes()
            }
            Action::Write { path, content } => {
                if self.read_only.as_deref() == path.last().map(|s| s.as_str()) {
                    return Reply::Failed("Permission denied (os error 13)".to_string());
                }
                let parent = path[..path.len() - 1].to_vec();
                if !parent.is_empty() && !self.dirs.contains(&parent) {
                    return Reply::Failed("No such file or directory (os error 2)".to_string());
                }
                self.files.insert(path.clone(), content.clone());
                yes()
            }
            Action::Run { command } => self.run_program(command),
        }
    }

    fn take(&mut self, step: Step) -> Result<Option<Reply>, Failure> {
        self.printed.extend(step.lines);
        match step.next {
            Next::Perform(action) => Ok(Some(self.answer(&action))),
            Next::Done => Ok(None),
            Next::Fail(failure) => Err(failure),
        }
    }

    fn commands(&self) -> Vec<Command> {
        self.requests
            .iter()
            .filter_map(|a| match a {
                Action::Run { command } => Some(command.clone()),
                _ => None,
            })
            .collect()
    }

    fn texts(&self) -> Vec<&str> {
        self.printed.iter().map(|l| l.text.as_str()).collect()
    }
}

fn create(world: &mut World, project: &Project) -> Result<(), Failure> {
    world.printed.push(banner(&project.name));
    let mut stage = Stage::Begin;
    let mut reply = yes();
    for _ in 0..100 {
        let (next, step) = run(project, stage, &reply);
        stage = next;
        match world.take(step)? {
            Some(answer) => reply = answer,
            None => {
                assert_eq!(stage, Stage::Finished);
                return Ok(());
            }
        }
    }
    panic!("the creation does not end");
}

fn check<P: nih_bootstrap::platform::Platform>(
    world: &mut World,
    platform: &P,
    install: bool,
) -> Result<(), Failure> {
    let mut state = Check::new();
    let mut reply = yes();
    for _ in 0..100 {
        let (next, step) = check_and_install(platform, install, state, &reply);
        state = next;
        match world.take(step)? {
            Some(answer) => reply = answer,
            None => {
                assert_eq!(state.stage, CheckStage::Finished);
                return Ok(());
            }
        }
    }
    panic!("the check does not end");
}

fn set_up(world: &mut World, init_ci: bool, directory: &Reply) -> Result<(), Failure> {
    let assets = assets();
    let mut stage = SetupStage::Begin;
    let mut reply = yes();
    for _ in 0..100 {
        let (next, step) = setup(init_ci, directory, &assets, stage, &reply);
        stage = next;
        match world.take(step)? {
            Some(answer) => reply = answer,
            None => return Ok(()),
        }
    }
    panic!("the set-up does not end");
}

const TREE: [&[&str]; 7] = [
    &["my_plugin", "src", "main.rs"],
    &["my_plugin", "src", "lib.rs"],
    &["my_plugin", "src", "editor.rs"],
    &["my_plugin", "Cargo.toml"],
    &["xtask", "src", "main.rs"],
    &["xtask", "Cargo.toml"],
    &["Cargo.toml"],
];

fn below(root: &[&str], rest: &[&str]) -> Vec<String> {
    let mut path = strings(root);
    path.extend(strings(rest));
    path
}

#[test]
fn project_is_created_end_to_end_without_git() {
    let mut world = World::new();
    let project = project("My Plugin", "/tmp/out", "test", false, false);
    assert_eq!(create(&mut world, &project), Ok(()));
    let manifest = &world.files[&strings(&["/tmp/out", "My Plugin", "my_plugin", "Cargo.toml"])];
    assert!(manifest.contains("test"));
    assert!(!manifest.contains("%%PROJECT_DESCRIPTION%%"));
    assert_eq!(manifest, "name = \"my_plugin\"\ndescription = \"test\"\nauthors = [\"Ada\"]\n");
    for file in TREE {
        assert!(world.files.contains_key(&below(&["/tmp/out", "My Plugin"], file)));
    }
    assert!(world.files.contains_key(&strings(&["/tmp/out", "My Plugin", ".cargo", "config.toml"])));
    assert_eq!(world.files[&strings(&["/tmp/out", "My Plugin", ".gitignore"])], "target/\n");
    assert_eq!(world.files.len(), 9);
    assert_eq!(
        world.files[&strings(&["/tmp/out", "My Plugin", "my_plugin", "src", "lib.rs"])],
        "pub struct MyPlugin;"
    );
    assert!(!world.dirs.contains(&strings(&["/tmp/out", "My Plugin", ".git"])));
    assert_eq!(world.commands(), vec![git(&["--version"], &[])]);
    assert_eq!(
        world.printed,
        vec![
            info("Creating new plugin: My Plugin."),
            info("Creating project structure..."),
            info("Project files created at '/tmp/out/My Plugin'."),
            plain(""),
            info("Next steps:"),
            plain("  cd /tmp/out/My Plugin"),
            plain("  git init"),
            plain("  git add ."),
            plain("  git commit -m 'Initial commit for My Plugin'"),
            plain(""),
            info("To build project into a VST3 plugin:"),
            plain("  cargo xtask bundle My Plugin --release"),
            plain(""),
            info("To check dependencies: "),
            plain("  nih-bootstrap deps"),
            notice("To add git and CI/CD later:"),
            plain("  nih-bootstrap git --ci"),
            plain(""),
            plain("Happy coding! \u{1F680}"),
        ]
    );
}

#[test]
fn project_is_not_created_twice() {
    let mut world = World::new();
    let project = project("My Plugin", "/tmp/out", "test", false, false);
    assert_eq!(create(&mut world, &project), Ok(()));
    let files = world.files.clone();
    let dirs = world.dirs.clone();
    world.requests.clear();
    let again = create(&mut world, &project);
    assert_eq!(
        again,
        Err(Failure {
            kind: Kind::Precondition,
            message: "Directory '/tmp/out/My Plugin' already exists!".to_string(),
            cause: String::new(),
        })
    );
    assert_eq!(world.files, files);
    assert_eq!(world.dirs, dirs);
    assert_eq!(
        world.requests,
        vec![Action::PathExists { path: strings(&["/tmp/out", "My Plugin"]) }]
    );
}

#[test]
fn project_is_created_though_git_is_not_installed() {
    let mut world = World::new();
    world.git_installed = false;
    let project = project("foo", ".", "d", true, false);
    assert_eq!(create(&mut world, &project), Ok(()));
    for file in [
        &["foo", "src", "main.rs"][..],
        &["foo", "src", "lib.rs"],
        &["foo", "src", "editor.rs"],
        &["foo", "Cargo.toml"],
        &["xtask", "src", "main.rs"],
        &["xtask", "Cargo.toml"],
        &["Cargo.toml"],
        &[".cargo", "config.toml"],
        &[".gitignore"],
    ] {
        assert!(world.files.contains_key(&below(&[".", "foo"], file)));
    }
    assert!(world.printed.contains(&warning(
        "Warining: Git is not installed. Skipping Git initialization."
    )));
    assert!(world.printed.contains(&warning("Install Git and run 'git init'.")));
    assert!(world.printed.contains(&plain("  git init")));
    assert!(!world.printed.contains(&notice("To add git and CI/CD later:")));
    assert_eq!(world.commands(), vec![git_version(), git_version(), git_version()]);
    assert!(!world.dirs.contains(&strings(&[".", "foo", ".git"])));
}

#[test]
fn project_is_put_under_version_control() {
    let mut world = World::new();
    let project = project("foo", "work", "d", true, true);
    assert_eq!(create(&mut world, &project), Ok(()));
    assert!(world.dirs.contains(&strings(&["work", "foo", ".git"])));
    assert_eq!(world.files[&strings(&["work", "foo", ".gitignore"])], "target/\n");
    assert_eq!(
        world.files[&strings(&["work", "foo", ".github", "workflows", "general.yaml"])],
        "name: general\n"
    );
    assert_eq!(
        world.commands(),
        vec![
            git(&["--version"], &[]),
            git(&["init", "-b", "main"], &["work", "foo"]),
            git(&["add", "."], &["work", "foo"]),
            git(&["commit", "-m", "Initial commit for foo"], &["work", "foo"]),
            git(&["--version"], &[]),
            git(&["--version"], &[]),
        ]
    );
    assert_eq!(
        world.texts(),
        vec![
            "Creating new plugin: foo.",
            "Creating project structure...",
            "Project files created at 'work/foo'.",
            "Setting up Git repository...",
            "Setting up CI/CD workflows...",
            "Created CI/CD workflow for project foo.",
            "Git repository initialized with initial commit.",
            "Git repository initialized.",
            "",
            "Next steps:",
            "  cd work/foo",
            "",
            "To build project into a VST3 plugin:",
            "  cargo xtask bundle foo --release",
            "",
            "To check dependencies: ",
            "  nih-bootstrap deps",
            "",
            "Happy coding! \u{1F680}",
        ]
    );
}

#[test]
fn failing_git_init_only_warns() {
    let mut world = World::new();
    world.failing_git = Some(("init".to_string(), "boom".to_string()));
    let project = project("foo", "work", "d", true, false);
    assert_eq!(create(&mut world, &project), Ok(()));
    assert!(world.printed.contains(&warning(
        "Warning: Failed to initialize git: Failed to initialize git repository. Git output: boom."
    )));
    assert!(world.printed.contains(&warning("You can manually run 'git init'.")));
    assert!(!world.printed.contains(&info("Git repository initialized.")));
    assert_eq!(world.files[&strings(&["work", "foo", ".gitignore"])], "target/\n");
    assert!(!world.dirs.contains(&strings(&["work", "foo", ".git"])));
    assert!(!world.printed.contains(&plain("  git init")));
}

#[test]
fn failing_commit_warns_and_counts_as_success() {
    let mut world = World::new();
    world.failing_git = Some(("commit".to_string(), "who are you".to_string()));
    let project = project("foo", "work", "d", true, false);
    assert_eq!(create(&mut world, &project), Ok(()));
    assert!(world.printed.contains(&warning("Warning: Failed to create initial commit.")));
    assert!(world.printed.contains(&warning(
        "You may need to configure git user.name and user.email."
    )));
    assert!(world.printed.contains(&info("Git repository initialized.")));
}

#[test]
fn failing_write_ends_the_creation() {
    let mut world = World::new();
    world.read_only = Some("editor.rs".to_string());
    let project = project("foo", "work", "d", true, false);
    assert_eq!(
        create(&mut world, &project),
        Err(Failure {
            kind: Kind::Io,
            message: "Failed to write file: work/foo/foo/src/editor.rs".to_string(),
            cause: "Permission denied (os error 13)".to_string(),
        })
    );
    assert!(world.files.contains_key(&strings(&["work", "foo", "foo", "src", "lib.rs"])));
    assert!(!world.files.contains_key(&strings(&["work", "foo", "foo", "Cargo.toml"])));
    assert!(world.commands().is_empty());
}

#[test]
fn creation_steps_one_by_one() {
    let project = project("foo", "work", "d", false, false);
    let (stage, step) = run(&project, Stage::Begin, &no());
    assert_eq!(stage, Stage::Probed);
    assert_eq!(
        step,
        Step {
            lines: Vec::new(),
            next: Next::Perform(Action::PathExists { path: strings(&["work", "foo"]) }),
        }
    );
    let (stage, step) = run(&project, Stage::Probed, &no());
    assert_eq!(stage, Stage::Root);
    assert_eq!(step.next, Next::Perform(Action::CreateDirAll { path: strings(&["work", "foo"]) }));
    let (stage, step) = run(&project, Stage::Root, &Reply::Failed("denied".to_string()));
    assert_eq!(stage, Stage::Finished);
    assert_eq!(
        step.next,
        Next::Fail(Failure { kind: Kind::Io, message: "denied".to_string(), cause: String::new() })
    );
    let (stage, step) = run(&project, Stage::Rendering(9), &yes());
    assert_eq!(stage, Stage::Rendering(10));
    assert!(matches!(step.next, Next::Perform(Action::Write { .. })));
    let (stage, step) = run(&project, Stage::Rendering(10), &yes());
    assert_eq!(stage, Stage::Rendering(11));
    assert_eq!(
        step.next,
        Next::Perform(Action::Write {
            path: strings(&["work", "foo", ".gitignore"]),
            content: "target/\n".to_string(),
        })
    );
    let (stage, step) = run(&project, Stage::Rendering(11), &yes());
    assert_eq!(stage, Stage::Farewell(false));
    assert_eq!(step.next, Next::Perform(Action::Run { command: git_version() }));
    let (stage, _) = run(&project, Stage::Rendering(usize::MAX), &yes());
    assert_eq!(stage, Stage::Farewell(false));
    let (stage, step) = run(&project, Stage::Finished, &yes());
    assert_eq!((stage, step), (Stage::Finished, Step { lines: Vec::new(), next: Next::Done }));
}

#[test]
fn next_steps_depend_on_version_control() {
    assert_eq!(
        show_next_steps("out/p", "p", true),
        vec![
            plain(""),
            info("Next steps:"),
            plain("  cd out/p"),
            plain(""),
            info("To build project into a VST3 plugin:"),
            plain("  cargo xtask bundle p --release"),
            plain(""),
            info("To check dependencies: "),
            plain("  nih-bootstrap deps"),
        ]
    );
    assert_eq!(show_next_steps("out/p", "p", false).len(), 12);
    assert_eq!(
        show_next_steps("out/p", "p", false)[5],
        plain("  git commit -m 'Initial commit for p'")
    );
}

#[test]
fn farewell_offers_git_only_where_it_helps() {
    let last = vec![plain(""), plain("Happy coding! \u{1F680}")];
    assert_eq!(show_farewell(false, false), last);
    assert_eq!(show_farewell(true, true), last);
    assert_eq!(show_farewell(false, true), last);
    assert_eq!(
        show_farewell(true, false),
        vec![
            notice("To add git and CI/CD later:"),
            plain("  nih-bootstrap git --ci"),
            plain(""),
            plain("Happy coding! \u{1F680}"),
        ]
    );
}

#[test]
fn git_counts_as_installed_only_where_it_ran_well() {
    assert!(is_git_installed(&yes()));
    assert!(!is_git_installed(&no()));
    assert!(!is_git_installed(&Reply::Failed("not found".to_string())));
    assert_eq!(git_version(), git(&["--version"], &[]));
}

#[test]
fn repository_steps_fail_hard_on_their_own() {
    let assets = assets();
    let path = strings(&["p"]);
    let (stage, step) =
        init_repo(&path, false, "p", &assets, RepoStage::Init, &Reply::Failed("no git".to_string()));
    assert_eq!(stage, RepoStage::Finished);
    assert_eq!(
        step.next,
        Next::Fail(Failure {
            kind: Kind::ExternalTool,
            message: "Failed to run git init.".to_string(),
            cause: "no git".to_string(),
        })
    );
    let (_, step) =
        init_repo(&path, false, "p", &assets, RepoStage::Add, &Reply::No("locked".to_string()));
    assert_eq!(
        step.next,
        Next::Fail(Failure {
            kind: Kind::ExternalTool,
            message: "Failed to stage files. Git output: locked".to_string(),
            cause: String::new(),
        })
    );
    let (_, step) =
        init_repo(&path, false, "p", &assets, RepoStage::Add, &Reply::Failed("gone".to_string()));
    assert_eq!(
        step.next,
        Next::Fail(Failure {
            kind: Kind::ExternalTool,
            message: "Failed to run git add.".to_string(),
            cause: "gone".to_string(),
        })
    );
    let (_, step) =
        init_repo(&path, false, "p", &assets, RepoStage::Commit, &Reply::Failed("gone".to_string()));
    assert_eq!(
        step.next,
        Next::Fail(Failure {
            kind: Kind::ExternalTool,
            message: "Failed to run git commit.".to_string(),
            cause: "gone".to_string(),
        })
    );
    let (_, step) =
        init_repo(&path, true, "p", &assets, RepoStage::Ignore, &Reply::Failed("full".to_string()));
    assert_eq!(
        step.next,
        Next::Fail(Failure {
            kind: Kind::Io,
            message: "Failed to create .gitignore file.".to_string(),
            cause: "full".to_string(),
        })
    );
    let (stage, step) = init_repo(&path, false, "p", &assets, RepoStage::Ignore, &yes());
    assert_eq!(stage, RepoStage::Add);
    assert_eq!(step.next, Next::Perform(Action::Run { command: git(&["add", "."], &["p"]) }));
    let (stage, step) = init_repo(&path, true, "p", &assets, RepoStage::Ignore, &yes());
    assert_eq!(stage, RepoStage::Ci(CiStage::Directory));
    assert_eq!(
        step,
        Step {
            lines: vec![info("Setting up CI/CD workflows...")],
            next: Next::Perform(Action::CreateDirAll {
                path: strings(&["p", ".github", "workflows"])
            }),
        }
    );
}

#[test]
fn workflow_steps() {
    let assets = assets();
    let path = strings(&["p"]);
    let (stage, step) = setup_ci(&path, "p", &assets, CiStage::Directory, &yes());
    assert_eq!(stage, CiStage::File);
    assert_eq!(
        step.next,
        Next::Perform(Action::Write {
            path: strings(&["p", ".github", "workflows", "general.yaml"]),
            content: "name: general\n".to_string(),
        })
    );
    let (_, step) =
        setup_ci(&path, "p", &assets, CiStage::Directory, &Reply::Failed("denied".to_string()));
    assert_eq!(
        step.next,
        Next::Fail(Failure {
            kind: Kind::Io,
            message: "Failed to create .github/workflows directory.".to_string(),
            cause: "denied".to_string(),
        })
    );
    let (_, step) = setup_ci(&path, "p", &assets, CiStage::File, &Reply::Failed("full".to_string()));
    assert_eq!(
        step.next,
        Next::Fail(Failure {
            kind: Kind::Io,
            message: "Failed to create CI/CD workflow file.".to_string(),
            cause: "full".to_string(),
        })
    );
    let (stage, step) = setup_ci(&path, "p", &assets, CiStage::File, &yes());
    assert_eq!(stage, CiStage::Finished);
    assert_eq!(
        step,
        Step { lines: vec![info("Created CI/CD workflow for project p.")], next: Next::Done }
    );
}

#[test]
fn set_up_needs_a_repository() {
    let mut world = World::new();
    let result = set_up(&mut world, true, &Reply::Yes("here".to_string()));
    assert_eq!(
        result,
        Err(Failure {
            kind: Kind::Precondition,
            message: "Not in a git repository. Run 'git init' first.".to_string(),
            cause: String::new(),
        })
    );
    assert!(world.files.is_empty());
    assert!(world.dirs.is_empty());
    assert_eq!(world.commands(), vec![git(&["rev-parse", "--git-dir"], &[])]);
}

#[test]
fn set_up_fails_where_git_cannot_be_started() {
    let mut world = World::new();
    world.git_installed = false;
    let result = set_up(&mut world, false, &Reply::Yes("here".to_string()));
    assert_eq!(
        result,
        Err(Failure {
            kind: Kind::ExternalTool,
            message: "Failed to check git status".to_string(),
            cause: "No such file or directory (os error 2)".to_string(),
        })
    );
}

#[test]
fn set_up_writes_the_ignore_file_and_the_workflow() {
    let mut world = World::new();
    world.make_dirs(&strings(&[".git"]));
    assert_eq!(set_up(&mut world, true, &Reply::Yes("here".to_string())), Ok(()));
    assert_eq!(world.files[&strings(&[".gitignore"])], "target/\n");
    assert_eq!(world.files[&strings(&[".github", "workflows", "general.yaml"])], "name: general\n");
    assert_eq!(
        world.printed,
        vec![
            info("Setting up Git..."),
            info("Created .gitignore file."),
            info("Setting up CI/CD workflows..."),
            info("Created CI/CD workflow for project here."),
            info("Git setup complete."),
        ]
    );
}

#[test]
fn set_up_keeps_an_ignore_file_that_is_there() {
    let mut world = World::new();
    world.make_dirs(&strings(&[".git"]));
    world.files.insert(strings(&[".gitignore"]), "mine\n".to_string());
    assert_eq!(set_up(&mut world, false, &no()), Ok(()));
    assert_eq!(world.files[&strings(&[".gitignore"])], "mine\n");
    assert_eq!(world.files.len(), 1);
    assert_eq!(
        world.printed,
        vec![
            info("Setting up Git..."),
            info("Git setup complete."),
            plain(""),
            notice("To add CI/CD workflows later:"),
            plain("  nih-bootstrap git --ci"),
        ]
    );
}

#[test]
fn set_up_names_a_nameless_directory_project() {
    let mut world = World::new();
    world.make_dirs(&strings(&[".git"]));
    assert_eq!(set_up(&mut world, true, &no()), Ok(()));
    assert!(world.printed.contains(&info("Created CI/CD workflow for project project.")));
}

#[test]
fn set_up_fails_without_a_working_directory() {
    let mut world = World::new();
    world.make_dirs(&strings(&[".git"]));
    let result = set_up(&mut world, true, &Reply::Failed("gone".to_string()));
    assert_eq!(
        result,
        Err(Failure { kind: Kind::Io, message: "gone".to_string(), cause: String::new() })
    );
    assert!(world.files.is_empty());
}

#[test]
fn check_finds_nothing_missing() {
    let mut world = World::new();
    assert_eq!(check(&mut world, &Linux, false), Ok(()));
    assert_eq!(
        world.printed,
        vec![
            info("Checking dependencies for Linux."),
            info("All required dependencies are installed."),
        ]
    );
    assert_eq!(world.commands().len(), 14);
    assert_eq!(
        world.commands()[0],
        Command {
            program: "dpkg".to_string(),
            args: strings(&["-l", "libasound2-dev"]),
            dir: Vec::new(),
        }
    );
}

#[test]
fn check_lists_what_is_missing_and_how_to_install_it() {
    let mut world = World::new();
    world.unknown_packages.insert("libxcursor-dev".to_string());
    world.unknown_packages.insert("libx11-dev".to_string());
    assert_eq!(check(&mut world, &Linux, false), Ok(()));
    assert_eq!(
        world.printed,
        vec![
            info("Checking dependencies for Linux."),
            plain(""),
            notice("Missing dependencies:"),
            plain("  - libx11-dev - X11 client-side library (development headers)"),
            plain("  - libxcursor-dev - X cursor management library (development files)"),
            plain(""),
            notice("To install missing dependencies:"),
            plain("sudo apt-get update && sudo apt-get install -y libx11-dev libxcursor-dev"),
            plain(""),
            plain("Or run: nih-bootstrap deps --install to install them automatically."),
        ]
    );
    assert_eq!(world.commands().len(), 14);
}

#[test]
fn check_installs_what_is_missing() {
    let mut world = World::new();
    world.unknown_packages.insert("libx11-dev".to_string());
    assert_eq!(check(&mut world, &Linux, true), Ok(()));
    let commands = world.commands();
    assert_eq!(commands.len(), 16);
    assert_eq!(commands[14].args, strings(&["apt-get", "update"]));
    assert_eq!(commands[15].args, strings(&["apt-get", "install", "-y", "libx11-dev"]));
    assert_eq!(
        world.texts(),
        vec![
            "Checking dependencies for Linux.",
            "",
            "Missing dependencies:",
            "  - libx11-dev - X11 client-side library (development headers)",
            "",
            "Installing missing dependencies...",
            "Installation complete.",
        ]
    );
}

#[test]
fn check_fails_where_the_package_lists_cannot_be_updated() {
    let mut world = World::new();
    world.unknown_packages.insert("libx11-dev".to_string());
    world.failing_apt = Some("update".to_string());
    assert_eq!(
        check(&mut world, &Linux, true),
        Err(Failure {
            kind: Kind::ExternalTool,
            message: "Failed to update package lists.".to_string(),
            cause: "E: Could not get lock".to_string(),
        })
    );
    assert_eq!(world.commands().len(), 15);
}

#[test]
fn check_fails_where_the_installation_fails() {
    let mut world = World::new();
    world.unknown_packages.insert("libx11-dev".to_string());
    world.failing_apt = Some("install".to_string());
    assert_eq!(
        check(&mut world, &Linux, true),
        Err(Failure {
            kind: Kind::ExternalTool,
            message: "Failed to install dependencies.".to_string(),
            cause: "E: Could not get lock".to_string(),
        })
    );
}

#[test]
fn check_counts_packages_as_present_where_dpkg_cannot_be_started() {
    let mut world = World::new();
    world.dpkg_installed = false;
    world.unknown_packages.insert("libx11-dev".to_string());
    assert_eq!(check(&mut world, &Linux, true), Ok(()));
    assert_eq!(world.commands().len(), 14);
    assert!(world.printed.contains(&info("All required dependencies are installed.")));
}

#[test]
fn check_on_windows_asks_nothing() {
    let mut world = World::new();
    assert_eq!(check(&mut world, &Windows, true), Ok(()));
    assert!(world.requests.is_empty());
    assert_eq!(
        world.printed,
        vec![
            info("Checking dependencies for Windows."),
            info("All required dependencies are installed."),
        ]
    );
}

#[test]
fn check_records_each_answer() {
    let (state, step) = check_and_install(&Linux, false, Check::new(), &yes());
    assert_eq!(state, Check { stage: CheckStage::Asked(0), absent: Vec::new() });
    assert!(matches!(step.next, Next::Perform(Action::Run { .. })));
    let (state, _) = check_and_install(&Linux, false, state, &no());
    assert_eq!(state, Check { stage: CheckStage::Asked(1), absent: vec![true] });
    let (state, _) = check_and_install(&Linux, false, state, &Reply::Failed("x".to_string()));
    assert_eq!(state, Check { stage: CheckStage::Asked(2), absent: vec![true, false] });
    let (state, step) = check_and_install(
        &Linux,
        true,
        Check { stage: CheckStage::Installing(0), absent: vec![true] },
        &Reply::Failed("sudo: not found".to_string()),
    );
    assert_eq!(state.stage, CheckStage::Finished);
    assert_eq!(
        step.next,
        Next::Fail(Failure {
            kind: Kind::ExternalTool,
            message: "sudo: not found".to_string(),
            cause: String::new(),
        })
    );
}

#[test]
fn failing_writes_name_rendered_files_only() {
    let project = project("foo", "work", "d", false, false);
    let denied = Reply::Failed("denied".to_string());
    let failure = |k: usize| match run(&project, Stage::Rendering(k), &denied).1.next {
        Next::Fail(failure) => failure,
        other => panic!("no failure: {:?}", other),
    };
    let named = |file: &str| Failure {
        kind: Kind::Io,
        message: format!("Failed to write file: work/foo/{}", file),
        cause: "denied".to_string(),
    };
    let bare =
        Failure { kind: Kind::Io, message: "denied".to_string(), cause: String::new() };
    assert_eq!(failure(0), bare);
    assert_eq!(failure(1), named("foo/src/main.rs"));
    assert_eq!(failure(2), named("foo/src/lib.rs"));
    assert_eq!(failure(3), named("foo/src/editor.rs"));
    assert_eq!(failure(4), named("foo/Cargo.toml"));
    assert_eq!(failure(5), bare);
    assert_eq!(failure(6), bare);
    assert_eq!(failure(7), named("xtask/Cargo.toml"));
    assert_eq!(failure(8), named("Cargo.toml"));
    assert_eq!(failure(9), bare);
    assert_eq!(failure(10), bare);
    assert_eq!(
        failure(11),
        Failure {
            kind: Kind::Io,
            message: "Failed to create .gitignore file.".to_string(),
            cause: "denied".to_string(),
        }
    );
    assert_eq!(failure(12), bare);
}

#[test]
fn capitalized_name_keeps_inner_capitals() {
    let mut world = World::new();
    let project = project("MyPlugin", "work", "d", false, false);
    assert_eq!(create(&mut world, &project), Ok(()));
    assert_eq!(
        world.files[&strings(&["work", "MyPlugin", "myplugin", "src", "lib.rs"])],
        "pub struct MyPlugin;"
    );
    assert_eq!(
        world.files[&strings(&["work", "MyPlugin", "Cargo.toml"])],
        "members = [\"myplugin\", \"xtask\"]"
    );
}

#[test]
fn plan_of_a_project_ends_with_the_ignore_file() {
    let project = project("foo", "work", "d", true, false);
    let plan = project.requests();
    assert_eq!(plan.len(), 12);
    assert_eq!(
        plan[11],
        Action::Write { path: strings(&["work", "foo", ".gitignore"]), content: "target/\n".to_string() }
    );
    assert_eq!(
        plan[10],
        Action::Write {
            path: strings(&["work", "foo", ".cargo", "config.toml"]),
            content: "[alias]".to_string(),
        }
    );
}
