//! Checking for the native packages that a plugin build needs.

use crate::effects::{
    add_line, done, failing, info, no_lines, notice, plain, running, Kind, Line, LineView, Reply,
    Step, StepView,
};
use crate::platform::{missing, Platform};
use crate::text::concat3;
use vstd::prelude::*;

verus! {

/// One native package that a build needs.
#[derive(Clone, Copy, Debug, PartialEq, Eq)]
pub struct Dependency {
    pub name: &'static str,
    pub info: &'static str,
}

/// A dependency as a value of specifications.
pub struct DependencyView {
    pub name: Seq<char>,
    pub info: Seq<char>,
}

impl DeepView for Dependency {
    type V = DependencyView;

    open spec fn deep_view(&self) -> DependencyView {
        DependencyView { name: self.name@, info: self.info@ }
    }
}

/// A dependency with this name and description.
pub open spec fn package(name: Seq<char>, info: Seq<char>) -> DependencyView {
    DependencyView { name, info }
}

/// The names of the dependencies, in order.
pub open spec fn names(dependencies: Seq<DependencyView>) -> Seq<Seq<char>> {
    Seq::new(dependencies.len(), |i: int| dependencies[i].name)
}

/// The names of the dependencies, in order.
pub fn names_of(dependencies: &[Dependency]) -> (r: Vec<&'static str>)
    ensures
        r.deep_view() == names(dependencies.deep_view()),
{
    let mut out: Vec<&'static str> = Vec::new();
    let mut i: usize = 0;
    while i < dependencies.len()
        invariant
            i <= dependencies.len(),
            out.len() == i,
            forall|k: int| 0 <= k < i ==> out@[k]@ == dependencies@[k].name@,
        decreases dependencies.len() - i,
    {
        out.push(dependencies[i].name);
        i += 1;
    }
    assert(out.deep_view() =~= names(dependencies.deep_view()));
    out
}

/// How far a dependency check has come.
#[derive(Clone, Copy, Debug, PartialEq, Eq, Structural)]
pub enum CheckStage {
    /// Nothing has been asked yet.
    Begin,
    /// The package database has been asked for the package at this position.
    Asked(usize),
    /// The install command at this position is running.
    Installing(usize),
    /// The check is over.
    Finished,
}

/// The state of a dependency check.
#[derive(Clone, Debug, PartialEq, Eq)]
pub struct Check {
    pub stage: CheckStage,
    /// For each package asked about so far, whether the database reported
    /// it as unknown.
    pub absent: Vec<bool>,
}

/// The line that names one missing package.
pub open spec fn package_line(dependency: DependencyView) -> LineView {
    plain("  - "@ + dependency.name + " - "@ + dependency.info)
}

/// The lines that name the missing packages.
pub open spec fn package_lines(found: Seq<DependencyView>) -> Seq<LineView> {
    Seq::new(found.len(), |i: int| package_line(found[i]))
}

/// The step that runs the install command at position `k`, or reports the
/// end of the installation where there is none.
pub open spec fn installing<P: Platform>(
    platform: &P,
    absent: Seq<bool>,
    k: int,
    lines: Seq<LineView>,
) -> (CheckStage, StepView) {
    let commands = platform.installs(names(missing(platform.packages(), absent)));
    if 0 <= k < commands.len() && k <= usize::MAX {
        (CheckStage::Installing(k as usize), running(lines, commands[k].command))
    } else {
        (CheckStage::Finished, done(lines.push(info("Installation complete."@))))
    }
}

/// What is reported once every package has its answer: that nothing is
/// missing; or the missing packages, followed by their installation or by
/// the instructions for it.
pub open spec fn concluded<P: Platform>(
    platform: &P,
    install: bool,
    absent: Seq<bool>,
    lines: Seq<LineView>,
) -> (CheckStage, StepView) {
    let found = missing(platform.packages(), absent);
    if found.len() == 0 {
        (
            CheckStage::Finished,
            done(lines.push(info("All required dependencies are installed."@))),
        )
    } else {
        let listed = lines + seq![plain(""@), notice("Missing dependencies:"@)] + package_lines(
            found,
        );
        if install {
            installing(
                platform,
                absent,
                0,
                listed + seq![plain(""@), info("Installing missing dependencies..."@)],
            )
        } else {
            (
                CheckStage::Finished,
                done(
                    listed + seq![
                        plain(""@),
                        notice("To install missing dependencies:"@),
                        plain(platform.instructions(names(found))),
                        plain(""@),
                        plain(
                            "Or run: nih-bootstrap deps --install to install them automatically."@,
                        ),
                    ],
                ),
            )
        }
    }
}

/// The step that asks about the package at position `k`, or about the next
/// one that the platform can ask about; a package that it cannot ask about
/// counts as present. After the last package comes the report.
pub open spec fn asking<P: Platform>(
    platform: &P,
    install: bool,
    k: int,
    absent: Seq<bool>,
    lines: Seq<LineView>,
) -> (CheckStage, Seq<bool>, StepView)
    decreases platform.packages().len() - k,
{
    let packages = platform.packages();
    if k < 0 || k >= packages.len() || k > usize::MAX {
        let (stage, step) = concluded(platform, install, absent, lines);
        (stage, absent, step)
    } else {
        match platform.probe(packages[k]) {
            Some(command) => (CheckStage::Asked(k as usize), absent, running(lines, command)),
            None => asking(platform, install, k + 1, absent.push(false), lines),
        }
    }
}

/// The next stage, the answers so far and the next step of a dependency
/// check, given the reply to its last request.
pub open spec fn checked<P: Platform>(
    platform: &P,
    install: bool,
    stage: CheckStage,
    absent: Seq<bool>,
    reply: Reply,
) -> (CheckStage, Seq<bool>, StepView) {
    match stage {
        CheckStage::Begin => asking(
            platform,
            install,
            0,
            Seq::empty(),
            seq![info("Checking dependencies for "@ + platform.label() + "."@)],
        ),
        CheckStage::Asked(k) => asking(
            platform,
            install,
            k + 1,
            absent.push(reply is No),
            Seq::empty(),
        ),
        CheckStage::Installing(k) => {
            let commands = platform.installs(names(missing(platform.packages(), absent)));
            if k >= commands.len() {
                (CheckStage::Finished, absent, done(Seq::empty()))
            } else {
                match reply {
                    Reply::Yes(_) => {
                        let (stage, step) = installing(platform, absent, k + 1, Seq::empty());
                        (stage, absent, step)
                    },
                    Reply::No(output) => (
                        CheckStage::Finished,
                        absent,
                        failing(Seq::empty(), Kind::ExternalTool, commands[k as int].complaint, output@),
                    ),
                    Reply::Failed(message) => (
                        CheckStage::Finished,
                        absent,
                        failing(Seq::empty(), Kind::ExternalTool, message@, Seq::empty()),
                    ),
                }
            }
        },
        CheckStage::Finished => (CheckStage::Finished, absent, done(Seq::empty())),
    }
}

impl Check {
    /// A check that has asked nothing yet.
    pub fn new() -> (r: Check)
        ensures
            r.stage == CheckStage::Begin,
            r.absent@ == Seq::<bool>::empty(),
    {
        Check { stage: CheckStage::Begin, absent: Vec::new() }
    }
}

/// Runs the install command at position `k`, or reports the end of the
/// installation.
fn install_from<P: Platform>(platform: &P, absent: Vec<bool>, k: usize, lines: Vec<Line>) -> (r: (
    Check,
    Step,
))
    ensures
        r.0.absent@ == absent@,
        (r.0.stage, r.1.deep_view()) == installing(platform, absent@, k as int, lines.deep_view()),
{
    let found = platform.check_dependencies(&absent);
    let mut commands = platform.install_dependencies(found.as_slice());
    if k < commands.len() {
        let ghost all = commands.deep_view();
        let ghost held = commands@;
        let invocation = commands.swap_remove(k);
        assert(invocation.deep_view() == all[k as int]) by {
            assert(all[k as int] == held[k as int].deep_view());
        }
        (Check { stage: CheckStage::Installing(k), absent }, Step::run(lines, invocation.command))
    } else {
        let mut lines = lines;
        add_line(&mut lines, Line::info("Installation complete.".to_owned()));
        (Check { stage: CheckStage::Finished, absent }, Step::done(lines))
    }
}

/// Reports what is missing and starts the installation where it is asked
/// for.
fn conclude<P: Platform>(platform: &P, install: bool, absent: Vec<bool>, lines: Vec<Line>) -> (r: (
    Check,
    Step,
))
    ensures
        r.0.absent@ == absent@,
        (r.0.stage, r.1.deep_view()) == concluded(platform, install, absent@, lines.deep_view()),
{
    let found = platform.check_dependencies(&absent);
    let mut lines = lines;
    let ghost first = lines.deep_view();
    if found.len() == 0 {
        add_line(&mut lines, Line::info("All required dependencies are installed.".to_owned()));
        return (Check { stage: CheckStage::Finished, absent }, Step::done(lines));
    }
    add_line(&mut lines, Line::plain("".to_owned()));
    add_line(&mut lines, Line::notice("Missing dependencies:".to_owned()));
    let ghost head = first + seq![plain(""@), notice("Missing dependencies:"@)];
    assert(lines.deep_view() =~= head);
    let mut i: usize = 0;
    while i < found.len()
        invariant
            i <= found.len(),
            lines.deep_view() == head + package_lines(found.deep_view()).take(i as int),
        decreases found.len() - i,
    {
        let dependency = &found[i];
        let mut text = concat3("  - ", dependency.name, " - ");
        text.append(dependency.info);
        let ghost before = lines.deep_view();
        add_line(&mut lines, Line::plain(text));
        assert(package_lines(found.deep_view()).take(i + 1) =~= package_lines(
            found.deep_view(),
        ).take(i as int).push(package_line(found@[i as int].deep_view())));
        assert(lines.deep_view() =~= head + package_lines(found.deep_view()).take(i + 1));
        i += 1;
    }
    assert(package_lines(found.deep_view()).take(found.len() as int) =~= package_lines(
        found.deep_view(),
    ));
    let ghost listed = lines.deep_view();
    if install {
        add_line(&mut lines, Line::plain("".to_owned()));
        add_line(&mut lines, Line::info("Installing missing dependencies...".to_owned()));
        assert(lines.deep_view() =~= listed + seq![
            plain(""@),
            info("Installing missing dependencies..."@),
        ]);
        install_from(platform, absent, 0, lines)
    } else {
        add_line(&mut lines, Line::plain("".to_owned()));
        add_line(&mut lines, Line::notice("To install missing dependencies:".to_owned()));
        add_line(&mut lines, Line::plain(platform.install_instructions(found.as_slice())));
        add_line(&mut lines, Line::plain("".to_owned()));
        add_line(
            &mut lines,
            Line::plain(
                "Or run: nih-bootstrap deps --install to install them automatically.".to_owned(),
            ),
        );
        assert(lines.deep_view() =~= listed + seq![
            plain(""@),
            notice("To install missing dependencies:"@),
            plain(platform.instructions(names(found.deep_view()))),
            plain(""@),
            plain("Or run: nih-bootstrap deps --install to install them automatically."@),
        ]);
        (Check { stage: CheckStage::Finished, absent }, Step::done(lines))
    }
}

/// Asks about the package at position `k` or the next one that can be asked
/// about, and reports after the last.
fn ask_from<P: Platform>(
    platform: &P,
    install: bool,
    k: usize,
    absent: Vec<bool>,
    lines: Vec<Line>,
) -> (r: (Check, Step))
    ensures
        (r.0.stage, r.0.absent@, r.1.deep_view()) == asking(
            platform,
            install,
            k as int,
            absent@,
            lines.deep_view(),
        ),
{
    let packages = platform.required();
    let ghost goal = asking(platform, install, k as int, absent@, lines.deep_view());
    let mut seen = absent;
    let mut at = k;
    while at < packages.len()
        invariant
            packages.deep_view() == platform.packages(),
            goal == asking(platform, install, k as int, absent@, lines.deep_view()),
            asking(platform, install, at as int, seen@, lines.deep_view()) == goal,
        decreases packages.len() - at,
    {
        assert(packages.deep_view()[at as int] == packages@[at as int].deep_view());
        assert(packages.deep_view().len() == packages.len());
        let asked = platform.query(&packages[at]);
        match asked {
            Some(command) => {
                assert(platform.probe(platform.packages()[at as int]) == Some(command.deep_view()));
                return (
                    Check { stage: CheckStage::Asked(at), absent: seen },
                    Step::run(lines, command),
                );
            },
            None => {
                seen.push(false);
                at += 1;
            },
        }
    }
    conclude(platform, install, seen, lines)
}

/// One step of the dependency check: asks the package database about each
/// required package in turn, then lists what is missing, and either installs
/// it or says how to.
///
/// The reply to a query decides whether its package is missing: only a `No`
/// does. The first install command that does not exit with success ends the
/// check with a failure. The reply at `Begin` is not looked at.
pub fn check_and_install<P: Platform>(platform: &P, install: bool, state: Check, reply: &Reply) -> (r:
    (Check, Step))
    ensures
        (r.0.stage, r.0.absent@, r.1.deep_view()) == checked(
            platform,
            install,
            state.stage,
            state.absent@,
            *reply,
        ),
{
    let Check { stage, absent } = state;
    match stage {
        CheckStage::Begin => {
            let mut lines = no_lines();
            add_line(
                &mut lines,
                Line::info(concat3("Checking dependencies for ", platform.name(), ".")),
            );
            assert(lines.deep_view() =~= seq![
                info("Checking dependencies for "@ + platform.label() + "."@),
            ]);
            ask_from(platform, install, 0, Vec::new(), lines)
        },
        CheckStage::Asked(k) => {
            let mut absent = absent;
            let no = match reply {
                Reply::No(_) => true,
                _ => false,
            };
            absent.push(no);
            if k < usize::MAX {
                ask_from(platform, install, k + 1, absent, no_lines())
            } else {
                conclude(platform, install, absent, no_lines())
            }
        },
        CheckStage::Installing(k) => {
            let found = platform.check_dependencies(&absent);
            let mut commands = platform.install_dependencies(found.as_slice());
            if k >= commands.len() {
                return (Check { stage: CheckStage::Finished, absent }, Step::done(no_lines()));
            }
            match reply {
                Reply::Yes(_) => install_from(platform, absent, k + 1, no_lines()),
                Reply::No(output) => {
                    let ghost all = commands.deep_view();
        let ghost held = commands@;
                    let invocation = commands.swap_remove(k);
                    assert(invocation.deep_view() == all[k as int]) by {
                        assert(all[k as int] == held[k as int].deep_view());
                    }
                    (
                        Check { stage: CheckStage::Finished, absent },
                        Step::fail(
                            no_lines(),
                            Kind::ExternalTool,
                            invocation.complaint,
                            output.clone(),
                        ),
                    )
                },
                Reply::Failed(message) => (
                    Check { stage: CheckStage::Finished, absent },
                    Step::fail(no_lines(), Kind::ExternalTool, message.clone(), String::new()),
                ),
            }
        },
        CheckStage::Finished => (
            Check { stage: CheckStage::Finished, absent },
            Step::done(no_lines()),
        ),
    }
}

} // verus!
