//! What holds of every run of a command.

use crate::commands::dependencies::{asking, checked, names, CheckStage};
use crate::commands::git::{
    ci_step, repo_step, setup_step, version_query, CiStage, RepoStage, SetupStage,
};
use crate::commands::init::{Project, Stage};
use crate::assets::Assets;
use crate::effects::{info, ActionView, Kind, LineView, NextView, Reply};
use crate::platform::{missing, Platform};
use vstd::prelude::*;

verus! {

/// A project is never created over a directory that is there already: the
/// first request only looks for the directory, and where it is found the
/// creation ends at once, with a failed precondition and without another
/// request.
pub proof fn lemma_existing_directory_is_refused(project: Project, first: Reply, found: Reply)
    requires
        found is Yes,
    ensures
        project.created(Stage::Begin, first).0 == Stage::Probed,
        project.created(Stage::Begin, first).1.next == NextView::Perform(
            ActionView::PathExists { path: project.target() },
        ),
        project.created(Stage::Probed, found).0 == Stage::Finished,
        project.created(Stage::Probed, found).1.next is Fail,
        project.created(Stage::Probed, found).1.next->Fail_0.kind == Kind::Precondition,
{
}

/// The file tree is written in the order of the plan: after the request at
/// one position has succeeded, the request at the next position follows.
pub proof fn lemma_tree_is_written_in_order(project: Project, k: usize, reply: Reply)
    requires
        reply is Yes,
        k + 1 < project.plan().len(),
    ensures
        project.created(Stage::Rendering(k), reply).0 == Stage::Rendering((k + 1) as usize),
        project.created(Stage::Rendering(k), reply).1.next == NextView::Perform(
            project.plan()[k + 1],
        ),
{
    assert(project.plan().len() == 12);
}

/// Whether the creation has reached the part that deals with version
/// control and the last lines.
pub open spec fn past_files(stage: Stage) -> bool {
    stage is Git || stage is Repo || stage is Recheck || stage is Farewell || stage is Finished
}

/// Once every file is written nothing fails the creation any more, whatever
/// git answers: each later step either makes a request or ends with success,
/// and the creation stays in that part.
pub proof fn lemma_git_never_fails_creation(project: Project, stage: Stage, reply: Reply)
    requires
        past_files(stage),
    ensures
        !(project.created(stage, reply).1.next is Fail),
        past_files(project.created(stage, reply).0),
{
}

/// Whether the creation is in a part that a project without version control
/// goes through.
pub open spec fn without_git(stage: Stage) -> bool {
    !(stage is Git || stage is Repo || stage is Recheck)
}

/// Where version control is not asked for, no repository is made: the
/// creation never reaches the part that makes one, and the only command it
/// ever runs is the one that looks for git.
pub proof fn lemma_no_repository_unless_asked(project: Project, stage: Stage, reply: Reply)
    requires
        !project.init_git,
        without_git(stage),
    ensures
        without_git(project.created(stage, reply).0),
        project.created(stage, reply).1.next matches NextView::Perform(
            ActionView::Run { command },
        ) ==> command == version_query(),
{
    assert(project.plan().len() == 12);
    if stage is Root || stage is Rendering {
        let k = if stage is Root {
            0
        } else {
            stage->Rendering_0 + 1
        };
        if 0 <= k < 12 {
            assert(!(project.plan()[k] is Run));
        }
    }
}

/// The set-up of version control changes nothing outside a repository: its
/// first request only asks git, and where git says no the set-up ends at
/// once with a failed precondition.
pub proof fn lemma_setup_needs_repository(
    init_ci: bool,
    directory: Reply,
    assets: Assets,
    first: Reply,
    answer: Reply,
)
    requires
        answer is No,
    ensures
        setup_step(init_ci, directory, assets, SetupStage::Begin, first).0
            == SetupStage::Repository,
        setup_step(init_ci, directory, assets, SetupStage::Begin, first).1.next is Perform,
        setup_step(init_ci, directory, assets, SetupStage::Begin, first).1.next->Perform_0 is Run,
        setup_step(init_ci, directory, assets, SetupStage::Repository, answer).0
            == SetupStage::Finished,
        setup_step(init_ci, directory, assets, SetupStage::Repository, answer).1.next is Fail,
        setup_step(init_ci, directory, assets, SetupStage::Repository, answer).1.next->Fail_0.kind
            == Kind::Precondition,
{
}

/// A check that installs nothing cannot fail while it asks and reports.
proof fn lemma_asking_never_fails<P: Platform>(
    platform: &P,
    k: int,
    absent: Seq<bool>,
    lines: Seq<LineView>,
)
    ensures
        !(asking(platform, false, k, absent, lines).2.next is Fail),
        !(asking(platform, false, k, absent, lines).0 is Installing),
    decreases platform.packages().len() - k,
{
    let packages = platform.packages();
    if !(k < 0 || k >= packages.len() || k > usize::MAX) {
        if platform.probe(packages[k]) is None {
            lemma_asking_never_fails(platform, k + 1, absent.push(false), lines);
        }
    }
}

/// Checking without installing always succeeds: whatever the package
/// database answers, no step of such a check ends with a failure, and none
/// starts an installation.
pub proof fn lemma_check_alone_never_fails<P: Platform>(
    platform: &P,
    stage: CheckStage,
    absent: Seq<bool>,
    reply: Reply,
)
    requires
        !(stage is Installing),
    ensures
        !(checked(platform, false, stage, absent, reply).2.next is Fail),
        !(checked(platform, false, stage, absent, reply).0 is Installing),
{
    match stage {
        CheckStage::Begin => {
            lemma_asking_never_fails(
                platform,
                0,
                Seq::empty(),
                seq![info("Checking dependencies for "@ + platform.label() + "."@)],
            );
        },
        CheckStage::Asked(k) => {
            lemma_asking_never_fails(platform, k + 1, absent.push(reply is No), Seq::empty());
        },
        _ => {},
    }
}

/// How many requests the workflow set-up can still make.
pub open spec fn ci_rank(stage: CiStage) -> int {
    match stage {
        CiStage::Begin => 3,
        CiStage::Directory => 2,
        CiStage::File => 1,
        CiStage::Finished => 0,
    }
}

/// How many requests the making of a repository can still make.
pub open spec fn repo_rank(stage: RepoStage) -> int {
    match stage {
        RepoStage::Begin => 9,
        RepoStage::Init => 8,
        RepoStage::Ignore => 7,
        RepoStage::Ci(inner) => 3 + ci_rank(inner),
        RepoStage::Add => 2,
        RepoStage::Commit => 1,
        RepoStage::Finished => 0,
    }
}

/// How many requests the set-up of version control can still make.
pub open spec fn setup_rank(stage: SetupStage) -> int {
    match stage {
        SetupStage::Begin => 8,
        SetupStage::Repository => 7,
        SetupStage::Probe => 6,
        SetupStage::Ignore => 5,
        SetupStage::Ci(inner) => 1 + ci_rank(inner),
        SetupStage::Finished => 0,
    }
}

/// How many requests the creation of a project can still make.
pub open spec fn rank(stage: Stage) -> int {
    match stage {
        Stage::Begin => 41,
        Stage::Probed => 40,
        Stage::Root => 39,
        Stage::Rendering(k) => if k < 12 {
            38 - k
        } else {
            26
        },
        Stage::Git => 20,
        Stage::Repo(inner) => 10 + repo_rank(inner),
        Stage::Recheck => 5,
        Stage::Farewell(_) => 4,
        Stage::Finished => 0,
    }
}

/// The workflow set-up comes to an end: each step leaves fewer requests to
/// make, and a step that makes no request is the last.
pub proof fn lemma_workflow_ends(
    path: Seq<Seq<char>>,
    name: Seq<char>,
    assets: Assets,
    stage: CiStage,
    reply: Reply,
)
    ensures
        stage != CiStage::Finished ==> ci_rank(ci_step(path, name, assets, stage, reply).0)
            < ci_rank(stage),
        !(ci_step(path, name, assets, stage, reply).1.next is Perform) ==> ci_step(
            path,
            name,
            assets,
            stage,
            reply,
        ).0 == CiStage::Finished,
{
}

/// The making of a repository comes to an end: each step leaves fewer
/// requests to make, and a step that makes no request is the last.
pub proof fn lemma_repository_ends(
    path: Seq<Seq<char>>,
    init_ci: bool,
    name: Seq<char>,
    assets: Assets,
    stage: RepoStage,
    reply: Reply,
)
    ensures
        stage != RepoStage::Finished ==> repo_rank(
            repo_step(path, init_ci, name, assets, stage, reply).0,
        ) < repo_rank(stage),
        !(repo_step(path, init_ci, name, assets, stage, reply).1.next is Perform) ==> repo_step(
            path,
            init_ci,
            name,
            assets,
            stage,
            reply,
        ).0 == RepoStage::Finished,
{
}

/// The set-up of version control comes to an end: each step leaves fewer
/// requests to make, and a step that makes no request is the last.
pub proof fn lemma_setup_ends(
    init_ci: bool,
    directory: Reply,
    assets: Assets,
    stage: SetupStage,
    reply: Reply,
)
    ensures
        stage != SetupStage::Finished ==> setup_rank(
            setup_step(init_ci, directory, assets, stage, reply).0,
        ) < setup_rank(stage),
        !(setup_step(init_ci, directory, assets, stage, reply).1.next is Perform) ==> setup_step(
            init_ci,
            directory,
            assets,
            stage,
            reply,
        ).0 == SetupStage::Finished,
{
}

/// The creation of a project comes to an end, whatever the replies are:
/// each step leaves fewer requests to make, and a step that makes no request
/// is the last.
pub proof fn lemma_creation_ends(project: Project, stage: Stage, reply: Reply)
    ensures
        stage != Stage::Finished ==> rank(project.created(stage, reply).0) < rank(stage),
        !(project.created(stage, reply).1.next is Perform) ==> project.created(stage, reply).0
            == Stage::Finished,
{
    assert(project.plan().len() == 12);
}

/// The part of a dependency check that a stage belongs to: the parts follow
/// each other downwards.
pub open spec fn check_phase(stage: CheckStage) -> int {
    match stage {
        CheckStage::Begin => 3,
        CheckStage::Asked(_) => 2,
        CheckStage::Installing(_) => 1,
        CheckStage::Finished => 0,
    }
}

/// Asking from position `k` on asks about a package at that position or a
/// later one, or leaves the asking behind.
proof fn lemma_asking_moves_on<P: Platform>(
    platform: &P,
    install: bool,
    k: int,
    absent: Seq<bool>,
    lines: Seq<LineView>,
)
    requires
        0 <= k,
    ensures
        asking(platform, install, k, absent, lines).0 matches CheckStage::Asked(m) ==> k <= m
            < platform.packages().len(),
        !(asking(platform, install, k, absent, lines).0 is Begin),
        !(asking(platform, install, k, absent, lines).2.next is Perform) ==> asking(
            platform,
            install,
            k,
            absent,
            lines,
        ).0 == CheckStage::Finished,
    decreases platform.packages().len() - k,
{
    let packages = platform.packages();
    if !(k < 0 || k >= packages.len() || k > usize::MAX) {
        if platform.probe(packages[k]) is None {
            lemma_asking_moves_on(platform, install, k + 1, absent.push(false), lines);
        }
    }
}

/// A dependency check comes to an end, whatever the replies are: it never
/// goes back to an earlier part, within the asking each step asks about a
/// later package of the list, within the installation each step runs the
/// next command, and a step that makes no request is the last.
pub proof fn lemma_check_ends<P: Platform>(
    platform: &P,
    install: bool,
    stage: CheckStage,
    absent: Seq<bool>,
    reply: Reply,
)
    ensures
        check_phase(checked(platform, install, stage, absent, reply).0) <= check_phase(stage),
        !(checked(platform, install, stage, absent, reply).0 is Begin),
        stage is Asked && checked(platform, install, stage, absent, reply).0 is Asked
            ==> stage->Asked_0 < checked(platform, install, stage, absent, reply).0->Asked_0
            < platform.packages().len(),
        stage is Installing && checked(platform, install, stage, absent, reply).0 is Installing
            ==> checked(platform, install, stage, absent, reply).0->Installing_0
            == stage->Installing_0 + 1 && stage->Installing_0 + 1 < platform.installs(
            names(missing(platform.packages(), absent)),
        ).len(),
        !(checked(platform, install, stage, absent, reply).2.next is Perform) ==> checked(
            platform,
            install,
            stage,
            absent,
            reply,
        ).0 == CheckStage::Finished,
{
    match stage {
        CheckStage::Begin => {
            lemma_asking_moves_on(
                platform,
                install,
                0,
                Seq::empty(),
                seq![info("Checking dependencies for "@ + platform.label() + "."@)],
            );
        },
        CheckStage::Asked(k) => {
            lemma_asking_moves_on(
                platform,
                install,
                k + 1,
                absent.push(reply is No),
                Seq::empty(),
            );
        },
        _ => {},
    }
}

} // verus!
