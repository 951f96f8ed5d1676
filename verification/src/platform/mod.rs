//! What each operating system needs before a plugin can be built on it.

pub mod laws;
pub mod linux;
pub mod unsupported;
pub mod windows;

use crate::commands::dependencies::{names, Dependency, DependencyView};
use crate::effects::{Command, CommandView};
use crate::platform::linux::Linux;
use crate::platform::unsupported::Unsupported;
use crate::platform::windows::Windows;
use crate::text::same_text;
use vstd::prelude::*;

verus! {

/// A command of the package manager, with what to say when it exits with an
/// error.
#[derive(Clone, Debug, PartialEq, Eq)]
pub struct Invocation {
    pub command: Command,
    pub complaint: String,
}

/// An invocation as a value of specifications.
pub struct InvocationView {
    pub command: CommandView,
    pub complaint: Seq<char>,
}

impl DeepView for Invocation {
    type V = InvocationView;

    open spec fn deep_view(&self) -> InvocationView {
        InvocationView { command: self.command.deep_view(), complaint: self.complaint@ }
    }
}

/// The packages of `packages` that are missing, in the order of `packages`.
/// `absent` says for each position whether the package database reported
/// the package there as unknown; a position without an entry counts as
/// present.
pub open spec fn missing(packages: Seq<DependencyView>, absent: Seq<bool>) -> Seq<DependencyView>
    decreases packages.len(),
{
    if packages.len() == 0 {
        Seq::empty()
    } else {
        let last = packages.len() - 1;
        let before = missing(packages.drop_last(), absent);
        if last < absent.len() && absent[last] {
            before.push(packages[last])
        } else {
            before
        }
    }
}

/// Picks the packages that are missing; see `missing`.
pub fn missing_among(packages: &Vec<Dependency>, absent: &Vec<bool>) -> (r: Vec<Dependency>)
    ensures
        r.deep_view() == missing(packages.deep_view(), absent@),
{
    let mut out: Vec<Dependency> = Vec::new();
    let mut i: usize = 0;
    let ghost all = packages.deep_view();
    assert(all.take(0) =~= Seq::empty());
    while i < packages.len()
        invariant
            i <= packages.len(),
            all == packages.deep_view(),
            out.deep_view() == missing(all.take(i as int), absent@),
        decreases packages.len() - i,
    {
        let ghost before = out.deep_view();
        assert(all.take(i + 1).drop_last() =~= all.take(i as int));
        assert(all.take(i + 1)[i as int] == packages@[i as int].deep_view());
        if i < absent.len() && absent[i] {
            out.push(packages[i]);
            assert(out.deep_view() =~= before.push(packages@[i as int].deep_view()));
        }
        i += 1;
    }
    assert(all.take(packages.len() as int) =~= all);
    out
}

/// An operating system on which plugins are built.
pub trait Platform {
    /// The name of the system.
    spec fn label(&self) -> Seq<char>;

    /// The native packages that a build needs, in a fixed order.
    spec fn packages(&self) -> Seq<DependencyView>;

    /// How the package database is asked for one package, if the system has
    /// one.
    spec fn probe(&self, dependency: DependencyView) -> Option<CommandView>;

    /// The commands that install the packages with these names.
    spec fn installs(&self, names: Seq<Seq<char>>) -> Seq<InvocationView>;

    /// One shell command line that installs the packages with these names.
    spec fn instructions(&self, names: Seq<Seq<char>>) -> Seq<char>;

    /// The name of the system.
    fn name(&self) -> (r: &'static str)
        ensures
            r@ == self.label(),
    ;

    /// The native packages that a build needs, in a fixed order.
    fn required(&self) -> (r: Vec<Dependency>)
        ensures
            r.deep_view() == self.packages(),
    ;

    /// The command that asks the package database for one package: it exits
    /// with success where the package is known to it.
    fn query(&self, dependency: &Dependency) -> (r: Option<Command>)
        ensures
            r.deep_view() == self.probe(dependency.deep_view()),
    ;

    /// The required packages that are missing, in the order of the list.
    /// `absent` says for each required package, in order, whether the package
    /// database reported it as unknown.
    fn check_dependencies(&self, absent: &Vec<bool>) -> (r: Vec<Dependency>)
        ensures
            r.deep_view() == missing(self.packages(), absent@),
    ;

    /// The commands that install the packages, to be run in order. Each must
    /// exit with success before the next one runs.
    fn install_dependencies(&self, dependencies: &[Dependency]) -> (r: Vec<Invocation>)
        ensures
            r.deep_view() == self.installs(names(dependencies.deep_view())),
    ;

    /// One shell command line that installs the packages.
    fn install_instructions(&self, dependencies: &[Dependency]) -> (r: String)
        ensures
            r@ == self.instructions(names(dependencies.deep_view())),
    ;
}

/// The platform that the tool runs on.
#[derive(Clone, Copy, Debug, PartialEq, Eq)]
pub enum CurrentPlatform {
    Linux(Linux),
    Windows(Windows),
    Unsupported(Unsupported),
}

impl Platform for CurrentPlatform {
    open spec fn label(&self) -> Seq<char> {
        match self {
            CurrentPlatform::Linux(p) => p.label(),
            CurrentPlatform::Windows(p) => p.label(),
            CurrentPlatform::Unsupported(p) => p.label(),
        }
    }

    open spec fn packages(&self) -> Seq<DependencyView> {
        match self {
            CurrentPlatform::Linux(p) => p.packages(),
            CurrentPlatform::Windows(p) => p.packages(),
            CurrentPlatform::Unsupported(p) => p.packages(),
        }
    }

    open spec fn probe(&self, dependency: DependencyView) -> Option<CommandView> {
        match self {
            CurrentPlatform::Linux(p) => p.probe(dependency),
            CurrentPlatform::Windows(p) => p.probe(dependency),
            CurrentPlatform::Unsupported(p) => p.probe(dependency),
        }
    }

    open spec fn installs(&self, names: Seq<Seq<char>>) -> Seq<InvocationView> {
        match self {
            CurrentPlatform::Linux(p) => p.installs(names),
            CurrentPlatform::Windows(p) => p.installs(names),
            CurrentPlatform::Unsupported(p) => p.installs(names),
        }
    }

    open spec fn instructions(&self, names: Seq<Seq<char>>) -> Seq<char> {
        match self {
            CurrentPlatform::Linux(p) => p.instructions(names),
            CurrentPlatform::Windows(p) => p.instructions(names),
            CurrentPlatform::Unsupported(p) => p.instructions(names),
        }
    }

    fn name(&self) -> (r: &'static str) {
        match self {
            CurrentPlatform::Linux(p) => p.name(),
            CurrentPlatform::Windows(p) => p.name(),
            CurrentPlatform::Unsupported(p) => p.name(),
        }
    }

    fn required(&self) -> (r: Vec<Dependency>) {
        match self {
            CurrentPlatform::Linux(p) => p.required(),
            CurrentPlatform::Windows(p) => p.required(),
            CurrentPlatform::Unsupported(p) => p.required(),
        }
    }

    fn query(&self, dependency: &Dependency) -> (r: Option<Command>) {
        match self {
            CurrentPlatform::Linux(p) => p.query(dependency),
            CurrentPlatform::Windows(p) => p.query(dependency),
            CurrentPlatform::Unsupported(p) => p.query(dependency),
        }
    }

    fn check_dependencies(&self, absent: &Vec<bool>) -> (r: Vec<Dependency>) {
        match self {
            CurrentPlatform::Linux(p) => p.check_dependencies(absent),
            CurrentPlatform::Windows(p) => p.check_dependencies(absent),
            CurrentPlatform::Unsupported(p) => p.check_dependencies(absent),
        }
    }

    fn install_dependencies(&self, dependencies: &[Dependency]) -> (r: Vec<Invocation>) {
        match self {
            CurrentPlatform::Linux(p) => p.install_dependencies(dependencies),
            CurrentPlatform::Windows(p) => p.install_dependencies(dependencies),
            CurrentPlatform::Unsupported(p) => p.install_dependencies(dependencies),
        }
    }

    fn install_instructions(&self, dependencies: &[Dependency]) -> (r: String) {
        match self {
            CurrentPlatform::Linux(p) => p.install_instructions(dependencies),
            CurrentPlatform::Windows(p) => p.install_instructions(dependencies),
            CurrentPlatform::Unsupported(p) => p.install_instructions(dependencies),
        }
    }
}

/// The platform for the operating system that goes by the name `os`:
/// `linux` and `windows` have one of their own, every other name gets the
/// platform that needs nothing.
pub fn current(os: &str) -> (r: CurrentPlatform)
    ensures
        r == (if os@ == "linux"@ {
            CurrentPlatform::Linux(Linux)
        } else if os@ == "windows"@ {
            CurrentPlatform::Windows(Windows)
        } else {
            CurrentPlatform::Unsupported(Unsupported)
        }),
{
    if same_text(os, "linux") {
        CurrentPlatform::Linux(Linux)
    } else if same_text(os, "windows") {
        CurrentPlatform::Windows(Windows)
    } else {
        CurrentPlatform::Unsupported(Unsupported)
    }
}

} // verus!
