//! Linux with the Debian package tools.

use crate::commands::dependencies::{names_of, package, Dependency, DependencyView};
use crate::effects::{Command, CommandView};
use crate::platform::{missing_among, Invocation, InvocationView, Platform};
use crate::text::{concat2, join, joined};
use vstd::prelude::*;

verus! {

/// Linux.
#[derive(Clone, Copy, Debug, PartialEq, Eq)]
pub struct Linux;

/// The fourteen development packages that a build needs on Linux.
pub open spec fn linux_packages() -> Seq<DependencyView> {
    seq![
        package("libasound2-dev"@, "shared library for ALSA applications -- development files"@),
        package("libjack-jackd2-dev"@, "JACK Audio Connection Kit (development files)"@),
        package("libx11-dev"@, "X11 client-side library (development headers)"@),
        package("libx11-xcb-dev"@, "Xlib/XCB interface library (development headers)"@),
        package("libxcb1-dev"@, "X C Binding, development files"@),
        package(
            "libxcb-util-dev"@,
            "utility libraries for X C Binding -- atom, aux and event"@,
        ),
        package("libxcb-render0-dev"@, "X C Binding, render extension, development files"@),
        package("libxcb-shape0-dev"@, "X C Binding, shape extension, development files"@),
        package("libxcb-xfixes0-dev"@, "X C Binding, xfixes extension, development files"@),
        package(
            "libxcb-icccm4-dev"@,
            "utility libraries for X C Binding -- icccm, development files"@,
        ),
        package("libxcb-dri2-0-dev"@, "lX C Binding, dri2 extension, development files"@),
        package("mesa-common-dev"@, "Developer documentation for Mesa"@),
        package("libgl1-mesa-dev"@, "transitional dummy package"@),
        package("libxcursor-dev"@, "X cursor management library (development files)"@),
    ]
}

/// `sudo apt-get` with these arguments, run in the caller's directory.
pub open spec fn apt_get(args: Seq<Seq<char>>) -> CommandView {
    CommandView { program: "sudo"@, args: seq!["apt-get"@] + args, dir: Seq::empty() }
}

/// Builds a command that runs in the caller's directory.
fn command(program: &str, args: Vec<String>) -> (r: Command)
    ensures
        r.deep_view() == (CommandView {
            program: program@,
            args: args.deep_view(),
            dir: Seq::empty(),
        }),
{
    let dir: Vec<String> = Vec::new();
    assert(dir.deep_view() =~= Seq::empty());
    Command { program: program.to_owned(), args, dir }
}

impl Platform for Linux {
    open spec fn label(&self) -> Seq<char> {
        "Linux"@
    }

    open spec fn packages(&self) -> Seq<DependencyView> {
        linux_packages()
    }

    open spec fn probe(&self, dependency: DependencyView) -> Option<CommandView> {
        Some(
            CommandView {
                program: "dpkg"@,
                args: seq!["-l"@, dependency.name],
                dir: Seq::empty(),
            },
        )
    }

    open spec fn installs(&self, names: Seq<Seq<char>>) -> Seq<InvocationView> {
        seq![
            InvocationView {
                command: apt_get(seq!["update"@]),
                complaint: "Failed to update package lists."@,
            },
            InvocationView {
                command: apt_get(seq!["install"@, "-y"@] + names),
                complaint: "Failed to install dependencies."@,
            },
        ]
    }

    open spec fn instructions(&self, names: Seq<Seq<char>>) -> Seq<char> {
        "sudo apt-get update && sudo apt-get install -y "@ + joined(names, " "@)
    }

    fn name(&self) -> (r: &'static str) {
        "Linux"
    }

    fn required(&self) -> (r: Vec<Dependency>) {
        let mut deps: Vec<Dependency> = Vec::new();
        deps.push(
            Dependency {
                name: "libasound2-dev",
                info: "shared library for ALSA applications -- development files",
            },
        );
        deps.push(
            Dependency {
                name: "libjack-jackd2-dev",
                info: "JACK Audio Connection Kit (development files)",
            },
        );
        deps.push(
            Dependency {
                name: "libx11-dev",
                info: "X11 client-side library (development headers)",
            },
        );
        deps.push(
            Dependency {
                name: "libx11-xcb-dev",
                info: "Xlib/XCB interface library (development headers)",
            },
        );
        deps.push(Dependency { name: "libxcb1-dev", info: "X C Binding, development files" });
        deps.push(
            Dependency {
                name: "libxcb-util-dev",
                info: "utility libraries for X C Binding -- atom, aux and event",
            },
        );
        deps.push(
            Dependency {
                name: "libxcb-render0-dev",
                info: "X C Binding, render extension, development files",
            },
        );
        deps.push(
            Dependency {
                name: "libxcb-shape0-dev",
                info: "X C Binding, shape extension, development files",
            },
        );
        deps.push(
            Dependency {
                name: "libxcb-xfixes0-dev",
                info: "X C Binding, xfixes extension, development files",
            },
        );
        deps.push(
            Dependency {
                name: "libxcb-icccm4-dev",
                info: "utility libraries for X C Binding -- icccm, development files",
            },
        );
        deps.push(
            Dependency {
                name: "libxcb-dri2-0-dev",
                info: "lX C Binding, dri2 extension, development files",
            },
        );
        deps.push(Dependency { name: "mesa-common-dev", info: "Developer documentation for Mesa" });
        deps.push(Dependency { name: "libgl1-mesa-dev", info: "transitional dummy package" });
        deps.push(
            Dependency {
                name: "libxcursor-dev",
                info: "X cursor management library (development files)",
            },
        );
        assert(deps.deep_view() =~= linux_packages());
        deps
    }

    fn query(&self, dependency: &Dependency) -> (r: Option<Command>) {
        let mut args: Vec<String> = Vec::new();
        args.push("-l".to_owned());
        args.push(dependency.name.to_owned());
        assert(args.deep_view() =~= seq!["-l"@, dependency.name@]);
        Some(command("dpkg", args))
    }

    fn check_dependencies(&self, absent: &Vec<bool>) -> (r: Vec<Dependency>) {
        let deps = self.required();
        missing_among(&deps, absent)
    }

    fn install_dependencies(&self, dependencies: &[Dependency]) -> (r: Vec<Invocation>) {
        let packages = names_of(dependencies);
        let mut update: Vec<String> = Vec::new();
        update.push("apt-get".to_owned());
        update.push("update".to_owned());
        assert(update.deep_view() =~= seq!["apt-get"@] + seq!["update"@]);
        let mut install: Vec<String> = Vec::new();
        install.push("apt-get".to_owned());
        install.push("install".to_owned());
        install.push("-y".to_owned());
        let mut i: usize = 0;
        while i < packages.len()
            invariant
                i <= packages.len(),
                install.deep_view() == seq!["apt-get"@] + (seq!["install"@, "-y"@]
                    + packages.deep_view().take(i as int)),
            decreases packages.len() - i,
        {
            let ghost before = install.deep_view();
            install.push(packages[i].to_owned());
            assert(install.deep_view() =~= before.push(packages@[i as int]@));
            assert(packages.deep_view().take(i + 1) =~= packages.deep_view().take(i as int).push(
                packages@[i as int]@,
            ));
            assert(install.deep_view() =~= seq!["apt-get"@] + (seq!["install"@, "-y"@]
                + packages.deep_view().take(i + 1)));
            i += 1;
        }
        assert(packages.deep_view().take(packages.len() as int) =~= packages.deep_view());
        let mut out: Vec<Invocation> = Vec::new();
        out.push(
            Invocation {
                command: command("sudo", update),
                complaint: "Failed to update package lists.".to_owned(),
            },
        );
        out.push(
            Invocation {
                command: command("sudo", install),
                complaint: "Failed to install dependencies.".to_owned(),
            },
        );
        assert(out.deep_view() =~= self.installs(packages.deep_view()));
        out
    }

    fn install_instructions(&self, dependencies: &[Dependency]) -> (r: String) {
        let deps = names_of(dependencies);
        let packages = join(&deps, " ");
        concat2("sudo apt-get update && sudo apt-get install -y ", packages.as_str())
    }
}

} // verus!
