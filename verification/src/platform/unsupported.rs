//! Any other system: nothing is known to be needed.

use crate::commands::dependencies::{Dependency, DependencyView};
use crate::effects::{Command, CommandView};
use crate::platform::{Invocation, InvocationView, Platform};
use vstd::prelude::*;

verus! {

/// A system without a list of packages of its own.
#[derive(Clone, Copy, Debug, PartialEq, Eq)]
pub struct Unsupported;

impl Platform for Unsupported {
    open spec fn label(&self) -> Seq<char> {
        "Unsupported"@
    }

    open spec fn packages(&self) -> Seq<DependencyView> {
        Seq::empty()
    }

    open spec fn probe(&self, dependency: DependencyView) -> Option<CommandView> {
        None
    }

    open spec fn installs(&self, names: Seq<Seq<char>>) -> Seq<InvocationView> {
        Seq::empty()
    }

    open spec fn instructions(&self, names: Seq<Seq<char>>) -> Seq<char> {
        Seq::empty()
    }

    fn name(&self) -> (r: &'static str) {
        "Unsupported"
    }

    fn required(&self) -> (r: Vec<Dependency>) {
        let out: Vec<Dependency> = Vec::new();
        assert(out.deep_view() =~= Seq::empty());
        out
    }

    fn query(&self, dependency: &Dependency) -> (r: Option<Command>) {
        None
    }

    fn check_dependencies(&self, absent: &Vec<bool>) -> (r: Vec<Dependency>) {
        let missing: Vec<Dependency> = Vec::new();
        assert(missing.deep_view() =~= Seq::empty());
        missing
    }

    fn install_dependencies(&self, dependencies: &[Dependency]) -> (r: Vec<Invocation>) {
        let out: Vec<Invocation> = Vec::new();
        assert(out.deep_view() =~= Seq::empty());
        out
    }

    fn install_instructions(&self, dependencies: &[Dependency]) -> (r: String) {
        String::new()
    }
}

} // verus!
