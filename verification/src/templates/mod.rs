//! Placeholder substitution and the file tree of a new project.

pub mod laws;

use crate::assets::{AssetName, Assets};
use crate::config::Config;
use crate::effects::{Action, ActionView};
use crate::text::{child, copy_texts, replace, replaced, same_text};
use vstd::prelude::*;

verus! {

/// The values that the placeholders of a template stand for.
pub struct TemplateContext<'a> {
    pub project_name: &'a str,
    pub underscored_name: &'a str,
    pub camelcase_name: &'a str,
    pub description: &'a str,
    pub config: &'a Config,
}

/// Renders the files of a project for one interface framework.
pub struct TemplateRenderer {
    gui_framework: String,
}

/// The placeholders, in the order in which they are replaced.
pub open spec fn tokens() -> Seq<Seq<char>> {
    seq![
        "%%PROJECT_NAME%%"@,
        "%%PROJECT_NAME_UNDERSCORED%%"@,
        "%%PROJECT_NAME_CAMELCASE%%"@,
        "%%PROJECT_DESCRIPTION%%"@,
        "%%AUTHORS%%"@,
        "%%CARGO_PACKAGE_VERSION%%"@,
        "%%VENDOR%%"@,
        "%%URL%%"@,
        "%%EMAIL%%"@,
        "%%NIH_PLUG_GIT%%"@,
    ]
}

/// `text` after each placeholder of `keys`, in order, has been replaced by
/// the value at the same position of `values`.
pub open spec fn substituted(text: Seq<char>, keys: Seq<Seq<char>>, values: Seq<Seq<char>>) -> Seq<
    char,
>
    decreases keys.len(),
{
    if keys.len() == 0 || values.len() != keys.len() {
        text
    } else {
        replaced(
            substituted(text, keys.drop_last(), values.drop_last()),
            keys.last(),
            values.last(),
        )
    }
}

impl<'a> TemplateContext<'a> {
    /// The value of each placeholder, in the order of `tokens`.
    pub open spec fn values(&self) -> Seq<Seq<char>> {
        seq![
            self.project_name@,
            self.underscored_name@,
            self.camelcase_name@,
            self.description@,
            self.config.authors@,
            self.config.cargo_pkg_version@,
            self.config.vendor@,
            self.config.vendor_url@,
            self.config.vendor_email@,
            self.config.nih_plug_git@,
        ]
    }

    /// `template` with every placeholder replaced by its value.
    pub open spec fn rendered(&self, template: Seq<char>) -> Seq<char> {
        filled(template, self.values())
    }

    /// The placeholders and values as they are applied, one pair after another.
    fn pairs(&self) -> (r: Vec<(&'static str, &'a str)>)
        ensures
            r.len() == 10,
            forall|i: int| 0 <= i < 10 ==> (#[trigger] r@[i]).0@ == tokens()[i],
            forall|i: int| 0 <= i < 10 ==> (#[trigger] r@[i]).1@ == self.values()[i],
    {
        let mut out: Vec<(&'static str, &'a str)> = Vec::new();
        out.push(("%%PROJECT_NAME%%", self.project_name));
        out.push(("%%PROJECT_NAME_UNDERSCORED%%", self.underscored_name));
        out.push(("%%PROJECT_NAME_CAMELCASE%%", self.camelcase_name));
        out.push(("%%PROJECT_DESCRIPTION%%", self.description));
        out.push(("%%AUTHORS%%", self.config.authors.as_str()));
        out.push(("%%CARGO_PACKAGE_VERSION%%", self.config.cargo_pkg_version.as_str()));
        out.push(("%%VENDOR%%", self.config.vendor.as_str()));
        out.push(("%%URL%%", self.config.vendor_url.as_str()));
        out.push(("%%EMAIL%%", self.config.vendor_email.as_str()));
        out.push(("%%NIH_PLUG_GIT%%", self.config.nih_plug_git.as_str()));
        out
    }

    /// Replaces every placeholder of `template` by its value: first every
    /// occurrence of the first placeholder, then of the second in what came out,
    /// and so on. A placeholder without an occurrence changes nothing, and text
    /// that is no placeholder is kept as it is.
    pub fn render(&self, template: &str) -> (r: String)
        ensures
            r@ == self.rendered(template@),
    {
        let pairs = self.pairs();
        let mut out = template.to_owned();
        let ghost keys = tokens();
        let ghost values = self.values();
        let mut i: usize = 0;
        while i < 10
            invariant
                i <= 10,
                pairs.len() == 10,
                keys == tokens(),
                values == self.values(),
                forall|k: int| 0 <= k < 10 ==> (#[trigger] pairs@[k]).0@ == keys[k],
                forall|k: int| 0 <= k < 10 ==> (#[trigger] pairs@[k]).1@ == values[k],
                out@ == substituted(template@, keys.take(i as int), values.take(i as int)),
            decreases 10 - i,
        {
            let pair = pairs[i];
            out = replace(out.as_str(), pair.0, pair.1);
            proof {
                assert(keys.take(i + 1).drop_last() =~= keys.take(i as int));
                assert(values.take(i + 1).drop_last() =~= values.take(i as int));
                assert(keys.take(i + 1).last() == pairs@[i as int].0@);
                assert(values.take(i + 1).last() == pairs@[i as int].1@);
            }
            i += 1;
        }
        assert(keys.take(10) =~= keys);
        assert(values.take(10) =~= values);
        out
    }
}

/// `template` with every placeholder replaced by its value; `values` holds
/// the values in the order of `tokens`.
pub open spec fn filled(template: Seq<char>, values: Seq<Seq<char>>) -> Seq<char> {
    substituted(template, tokens(), values)
}

/// The requests that lay out the build helper, the workspace manifest and
/// the build alias below `target`.
pub open spec fn xtask_plan(target: Seq<Seq<char>>, values: Seq<Seq<char>>, assets: Assets) -> Seq<
    ActionView,
> {
    seq![
        ActionView::CreateDirAll { path: target.push("xtask"@).push("src"@) },
        ActionView::Write {
            path: target.push("xtask"@).push("src"@).push("main.rs"@),
            content: assets.text(AssetName::XtaskMain),
        },
        ActionView::Write {
            path: target.push("xtask"@).push("Cargo.toml"@),
            content: filled(assets.text(AssetName::XtaskManifest), values),
        },
        ActionView::Write {
            path: target.push("Cargo.toml"@),
            content: filled(assets.text(AssetName::WorkspaceManifest), values),
        },
        ActionView::CreateDirAll { path: target.push(".cargo"@) },
        ActionView::Write {
            path: target.push(".cargo"@).push("config.toml"@),
            content: assets.text(AssetName::CargoConfig),
        },
    ]
}

/// The requests that lay out a whole project below `target`: the package
/// named by the underscored name with its three sources and its manifest,
/// then what `xtask_plan` lists.
pub open spec fn project_plan(
    target: Seq<Seq<char>>,
    package_name: Seq<char>,
    values: Seq<Seq<char>>,
    assets: Assets,
) -> Seq<ActionView> {
    let package = target.push(package_name);
    seq![
        ActionView::CreateDirAll { path: package.push("src"@) },
        ActionView::Write {
            path: package.push("src"@).push("main.rs"@),
            content: filled(assets.text(AssetName::ProjectMain), values),
        },
        ActionView::Write {
            path: package.push("src"@).push("lib.rs"@),
            content: filled(assets.text(AssetName::LibIced), values),
        },
        ActionView::Write {
            path: package.push("src"@).push("editor.rs"@),
            content: filled(assets.text(AssetName::Editor), values),
        },
        ActionView::Write {
            path: package.push("Cargo.toml"@),
            content: filled(assets.text(AssetName::ProjectManifest), values),
        },
    ] + xtask_plan(target, values, assets)
}

impl TemplateRenderer {
    /// The framework that was asked for.
    pub closed spec fn framework(&self) -> Seq<char> {
        self.gui_framework@
    }

    /// A renderer for the named interface framework.
    pub fn new(gui_framework: &str) -> (r: Self)
        ensures
            r.framework() == gui_framework@,
    {
        Self { gui_framework: gui_framework.to_owned() }
    }

    /// The requests that create a project below `target_path`, in the order in
    /// which they are to be carried out. The first one that fails ends the
    /// work; what was written before it stays.
    pub fn render_project(
        &self,
        target_path: &Vec<String>,
        context: &TemplateContext,
        assets: &Assets,
    ) -> (r: Vec<Action>)
        ensures
            r.deep_view() == project_plan(
                target_path.deep_view(),
                context.underscored_name@,
                context.values(),
                *assets,
            ),
    {
        let project_dir = child(target_path, context.underscored_name);
        let src_dir = child(&project_dir, "src");
        let mut plan: Vec<Action> = Vec::new();
        plan.push(Action::CreateDirAll { path: copy_texts(&src_dir) });
        plan.push(
            self.render_file(child(&src_dir, "main.rs"), assets.get(AssetName::ProjectMain), context),
        );
        plan.push(
            self.render_file(child(&src_dir, "lib.rs"), assets.get(self.get_lib_template()), context),
        );
        plan.push(
            self.render_file(
                child(&src_dir, "editor.rs"),
                assets.get(self.get_editor_template()),
                context,
            ),
        );
        plan.push(
            self.render_file(
                child(&project_dir, "Cargo.toml"),
                assets.get(AssetName::ProjectManifest),
                context,
            ),
        );
        let ghost head = plan.deep_view();
        let mut tail = self.create_xtask_project(target_path, context, assets);
        let ghost rest = tail.deep_view();
        plan.append(&mut tail);
        assert(plan.deep_view() =~= head + rest);
        assert(plan.deep_view() =~= project_plan(
            target_path.deep_view(),
            context.underscored_name@,
            context.values(),
            *assets,
        ));
        plan
    }

    /// The template of the plugin itself. There is one variant, and it is used
    /// whatever framework was asked for.
    pub fn get_lib_template(&self) -> (r: AssetName)
        ensures
            r == AssetName::LibIced,
    {
        if same_text(self.gui_framework.as_str(), "iced") {
            AssetName::LibIced
        } else {
            AssetName::LibIced
        }
    }

    /// The template of the editor window. There is one variant, and it is used
    /// whatever framework was asked for.
    pub fn get_editor_template(&self) -> (r: AssetName)
        ensures
            r == AssetName::Editor,
    {
        if same_text(self.gui_framework.as_str(), "iced") {
            AssetName::Editor
        } else {
            AssetName::Editor
        }
    }

    /// The request that writes `template`, rendered for `context`, to `path`.
    pub fn render_file(&self, path: Vec<String>, template: &str, context: &TemplateContext) -> (r:
        Action)
        ensures
            r.deep_view() == (ActionView::Write {
                path: path.deep_view(),
                content: context.rendered(template@),
            }),
    {
        Action::Write { path, content: context.render(template) }
    }

    /// The requests that lay out the build helper below `target_path`, the
    /// workspace manifest and the build alias.
    pub fn create_xtask_project(
        &self,
        target_path: &Vec<String>,
        context: &TemplateContext,
        assets: &Assets,
    ) -> (r: Vec<Action>)
        ensures
            r.deep_view() == xtask_plan(target_path.deep_view(), context.values(), *assets),
    {
        let xtask_dir = child(target_path, "xtask");
        let src_dir = child(&xtask_dir, "src");
        let mut plan: Vec<Action> = Vec::new();
        plan.push(Action::CreateDirAll { path: copy_texts(&src_dir) });
        plan.push(
            Action::Write {
                path: child(&src_dir, "main.rs"),
                content: assets.get(AssetName::XtaskMain).to_owned(),
            },
        );
        plan.push(
            self.render_file(
                child(&xtask_dir, "Cargo.toml"),
                assets.get(AssetName::XtaskManifest),
                context,
            ),
        );
        plan.push(
            self.render_file(
                child(target_path, "Cargo.toml"),
                assets.get(AssetName::WorkspaceManifest),
                context,
            ),
        );
        let cargo_config_dir = child(target_path, ".cargo");
        plan.push(Action::CreateDirAll { path: copy_texts(&cargo_config_dir) });
        plan.push(
            Action::Write {
                path: child(&cargo_config_dir, "config.toml"),
                content: assets.get(AssetName::CargoConfig).to_owned(),
            },
        );
        assert(plan.deep_view() =~= xtask_plan(target_path.deep_view(), context.values(), *assets));
        plan
    }
}

} // verus!
