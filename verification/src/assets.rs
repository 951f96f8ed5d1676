//! The static texts that projects are made from.

use vstd::prelude::*;

verus! {

/// The name of one static text.
#[derive(Clone, Copy, Debug, PartialEq, Eq, Structural)]
pub enum AssetName {
    /// The entry point of the stand-alone program.
    ProjectMain,
    /// The plugin itself, for the iced interface.
    LibIced,
    /// The plugin's editor window.
    Editor,
    /// The manifest of the plugin's package.
    ProjectManifest,
    /// The entry point of the build helper.
    XtaskMain,
    /// The manifest of the build helper.
    XtaskManifest,
    /// The manifest of the workspace that holds both.
    WorkspaceManifest,
    /// The alias that starts the build helper.
    CargoConfig,
    /// The paths that version control leaves alone.
    Gitignore,
    /// The continuous-integration workflow.
    Workflow,
    /// The built-in configuration document.
    DefaultConfig,
}

impl AssetName {
    /// Where the text is kept, relative to the tool's own sources.
    pub open spec fn location(self) -> Seq<char> {
        match self {
            AssetName::ProjectMain => "templates/project/main.txt"@,
            AssetName::LibIced => "templates/project/lib_iced.txt"@,
            AssetName::Editor => "templates/project/editor.txt"@,
            AssetName::ProjectManifest => "templates/project/cargo_project.txt"@,
            AssetName::XtaskMain => "templates/xtask/main.rs"@,
            AssetName::XtaskManifest => "templates/xtask/cargo_xtask.txt"@,
            AssetName::WorkspaceManifest => "templates/xtask/cargo_workspace.txt"@,
            AssetName::CargoConfig => "templates/xtask/cargo_config.toml"@,
            AssetName::Gitignore => "templates/git/gitignore.txt"@,
            AssetName::Workflow => "templates/git/ci_cd_general.yaml"@,
            AssetName::DefaultConfig => "data/general_info.toml"@,
        }
    }

    /// Where the text is kept, relative to the tool's own sources.
    pub fn file(self) -> (r: &'static str)
        ensures
            r@ == self.location(),
    {
        match self {
            AssetName::ProjectMain => "templates/project/main.txt",
            AssetName::LibIced => "templates/project/lib_iced.txt",
            AssetName::Editor => "templates/project/editor.txt",
            AssetName::ProjectManifest => "templates/project/cargo_project.txt",
            AssetName::XtaskMain => "templates/xtask/main.rs",
            AssetName::XtaskManifest => "templates/xtask/cargo_xtask.txt",
            AssetName::WorkspaceManifest => "templates/xtask/cargo_workspace.txt",
            AssetName::CargoConfig => "templates/xtask/cargo_config.toml",
            AssetName::Gitignore => "templates/git/gitignore.txt",
            AssetName::Workflow => "templates/git/ci_cd_general.yaml",
            AssetName::DefaultConfig => "data/general_info.toml",
        }
    }
}

/// The table of static texts. It is filled once and only read afterwards.
#[derive(Clone, Debug, PartialEq, Eq)]
pub struct Assets {
    pub project_main: String,
    pub lib_iced: String,
    pub editor: String,
    pub project_manifest: String,
    pub xtask_main: String,
    pub xtask_manifest: String,
    pub workspace_manifest: String,
    pub cargo_config: String,
    pub gitignore: String,
    pub workflow: String,
    pub default_config: String,
}

impl Assets {
    /// The text kept under `name`.
    pub open spec fn text(&self, name: AssetName) -> Seq<char> {
        match name {
            AssetName::ProjectMain => self.project_main@,
            AssetName::LibIced => self.lib_iced@,
            AssetName::Editor => self.editor@,
            AssetName::ProjectManifest => self.project_manifest@,
            AssetName::XtaskMain => self.xtask_main@,
            AssetName::XtaskManifest => self.xtask_manifest@,
            AssetName::WorkspaceManifest => self.workspace_manifest@,
            AssetName::CargoConfig => self.cargo_config@,
            AssetName::Gitignore => self.gitignore@,
            AssetName::Workflow => self.workflow@,
            AssetName::DefaultConfig => self.default_config@,
        }
    }

    /// The text kept under `name`.
    pub fn get(&self, name: AssetName) -> (r: &str)
        ensures
            r@ == self.text(name),
    {
        match name {
            AssetName::ProjectMain => self.project_main.as_str(),
            AssetName::LibIced => self.lib_iced.as_str(),
            AssetName::Editor => self.editor.as_str(),
            AssetName::ProjectManifest => self.project_manifest.as_str(),
            AssetName::XtaskMain => self.xtask_main.as_str(),
            AssetName::XtaskManifest => self.xtask_manifest.as_str(),
            AssetName::WorkspaceManifest => self.workspace_manifest.as_str(),
            AssetName::CargoConfig => self.cargo_config.as_str(),
            AssetName::Gitignore => self.gitignore.as_str(),
            AssetName::Workflow => self.workflow.as_str(),
            AssetName::DefaultConfig => self.default_config.as_str(),
        }
    }
}

} // verus!
