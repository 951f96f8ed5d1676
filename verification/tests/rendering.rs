use nih_bootstrap::assets::{AssetName, Assets};
use nih_bootstrap::commands::init::{to_camelcase, underscore_name};
use nih_bootstrap::config::Config;
use nih_bootstrap::effects::Action;
use nih_bootstrap::templates::{TemplateContext, TemplateRenderer};
use nih_bootstrap::text::{chars_of, join, replace, same_text, string_of};

fn config() -> Config {
    Config {
        authors: "Ada <ada@example.org>".to_string(),
        cargo_pkg_version: "0.3.1".to_string(),
        vendor: "Analytical".to_string(),
        vendor_url: "https://example.org".to_string(),
        vendor_email: "ada@example.org".to_string(),
        nih_plug_git: "https://example.org/nih-plug.git".to_string(),
    }
}

fn assets() -> Assets {
    Assets {
        project_main: "fn main() { %%PROJECT_NAME_UNDERSCORED%%::run(); }".to_string(),
        lib_iced: "pub struct %%PROJECT_NAME_CAMELCASE%%;".to_string(),
        editor: "// editor of %%PROJECT_NAME%%".to_string(),
        project_manifest: "name = \"%%PROJECT_NAME_UNDERSCORED%%\"\ndescription = \"%%PROJECT_DESCRIPTION%%\"\n".to_string(),
        xtask_main: "fn main() { /* %%PROJECT_NAME%% stays */ }".to_string(),
        xtask_manifest: "authors = [\"%%AUTHORS%%\"]".to_string(),
        workspace_manifest: "members = [\"%%PROJECT_NAME_UNDERSCORED%%\", \"xtask\"]".to_string(),
        cargo_config: "[alias]\nxtask = \"run --package xtask --\"\n".to_string(),
        gitignore: "target/\n".to_string(),
        workflow: "name: general\n".to_string(),
        default_config: String::new(),
    }
}

fn path(parts: &[&str]) -> Vec<String> {
    parts.iter().map(|p| p.to_string()).collect()
}

#[test]
fn replace_swaps_every_occurrence() {
    assert_eq!(replace("a%%X%%b%%X%%", "%%X%%", "yy"), "ayybyy");
}

#[test]
fn replace_scans_from_the_left_without_overlap() {
    assert_eq!(replace("aaa", "aa", "b"), "ba");
    assert_eq!(replace("%%X%%X%%", "%%X%%", "-"), "-X%%");
}

#[test]
fn replace_without_occurrence_keeps_the_text() {
    assert_eq!(replace("plain text", "%%X%%", "y"), "plain text");
    assert_eq!(replace("", "%%X%%", "y"), "");
    assert_eq!(replace("%%X%", "%%X%%", "y"), "%%X%");
}

#[test]
fn replace_with_empty_pattern_keeps_the_text() {
    assert_eq!(replace("abc", "", "-"), "abc");
}

#[test]
fn replace_can_delete() {
    assert_eq!(replace("a-b-c", "-", ""), "abc");
}

#[test]
fn replace_handles_text_beyond_ascii() {
    assert_eq!(replace("gr\u{fc}n %%X%% \u{1F680}", "%%X%%", "\u{e9}"), "gr\u{fc}n \u{e9} \u{1F680}");
}

#[test]
fn chars_and_strings_convert_both_ways() {
    let chars = chars_of("a\u{1F680}b");
    assert_eq!(chars, vec!['a', '\u{1F680}', 'b']);
    assert_eq!(string_of(&chars), "a\u{1F680}b");
}

#[test]
fn same_text_compares_characters() {
    assert!(same_text("iced", "iced"));
    assert!(!same_text("iced", "ice"));
    assert!(!same_text("iced", "egui"));
    assert!(same_text("", ""));
}

#[test]
fn join_puts_the_separator_between() {
    assert_eq!(join(&vec!["a", "b", "c"], " "), "a b c");
    assert_eq!(join(&vec!["a"], " "), "a");
    assert_eq!(join(&Vec::new(), " "), "");
}

#[test]
fn capitalized_name_from_underscores() {
    assert_eq!(to_camelcase("my_cool_plugin"), "MyCoolPlugin");
}

#[test]
fn capitalized_name_from_hyphens_and_spaces() {
    assert_eq!(to_camelcase("my-cool-plugin"), "MyCoolPlugin");
    assert_eq!(to_camelcase("my cool plugin"), "MyCoolPlugin");
}

#[test]
fn capitalized_name_edge_cases() {
    assert_eq!(to_camelcase(""), "");
    assert_eq!(to_camelcase("___"), "");
    assert_eq!(to_camelcase("a"), "A");
    assert_eq!(to_camelcase("_a__b_"), "AB");
    assert_eq!(to_camelcase("already_Upper"), "AlreadyUpper");
    assert_eq!(to_camelcase("1st_try"), "1stTry");
    assert_eq!(to_camelcase("\u{e9}t\u{e9}_plugin"), "\u{e9}t\u{e9}Plugin");
}

#[test]
fn underscored_name_is_an_identifier() {
    assert_eq!(underscore_name("My Plugin"), "my_plugin");
    assert_eq!(underscore_name("my-cool-plugin"), "my_cool_plugin");
    assert_eq!(underscore_name("my_cool_plugin"), "my_cool_plugin");
    assert_eq!(underscore_name(""), "");
}

#[test]
fn render_replaces_each_of_the_placeholders() {
    let config = config();
    let context = TemplateContext {
        project_name: "my-plugin",
        underscored_name: "my_plugin",
        camelcase_name: "MyPlugin",
        description: "a test",
        config: &config,
    };
    let template = "%%PROJECT_NAME%%|%%PROJECT_NAME_UNDERSCORED%%|%%PROJECT_NAME_CAMELCASE%%|\
%%PROJECT_DESCRIPTION%%|%%AUTHORS%%|%%CARGO_PACKAGE_VERSION%%|%%VENDOR%%|%%URL%%|%%EMAIL%%|\
%%NIH_PLUG_GIT%%";
    assert_eq!(
        context.render(template),
        "my-plugin|my_plugin|MyPlugin|a test|Ada <ada@example.org>|0.3.1|Analytical|\
https://example.org|ada@example.org|https://example.org/nih-plug.git"
    );
}

#[test]
fn render_leaves_no_placeholder_behind() {
    let config = config();
    let context = TemplateContext {
        project_name: "my-plugin",
        underscored_name: "my_plugin",
        camelcase_name: "MyPlugin",
        description: "a test",
        config: &config,
    };
    let out = context.render("%%VENDOR%% %%VENDOR%% by %%AUTHORS%% <%%EMAIL%%> %%URL%%");
    for token in [
        "%%PROJECT_NAME%%",
        "%%PROJECT_NAME_UNDERSCORED%%",
        "%%PROJECT_NAME_CAMELCASE%%",
        "%%PROJECT_DESCRIPTION%%",
        "%%AUTHORS%%",
        "%%CARGO_PACKAGE_VERSION%%",
        "%%VENDOR%%",
        "%%URL%%",
        "%%EMAIL%%",
        "%%NIH_PLUG_GIT%%",
    ] {
        assert!(!out.contains(token));
    }
    assert_eq!(
        out,
        "Analytical Analytical by Ada <ada@example.org> <ada@example.org> https://example.org"
    );
}

#[test]
fn render_keeps_unknown_markers_and_plain_text() {
    let config = config();
    let context = TemplateContext {
        project_name: "p",
        underscored_name: "p",
        camelcase_name: "P",
        description: "d",
        config: &config,
    };
    assert_eq!(context.render("100%% of %%UNKNOWN%% stays"), "100%% of %%UNKNOWN%% stays");
    assert_eq!(context.render(""), "");
}

#[test]
fn render_with_empty_value_deletes_the_placeholder() {
    let config = config();
    let context = TemplateContext {
        project_name: "p",
        underscored_name: "p",
        camelcase_name: "P",
        description: "",
        config: &config,
    };
    assert_eq!(context.render("[%%PROJECT_DESCRIPTION%%]"), "[]");
}

#[test]
fn render_applies_placeholders_one_after_another() {
    let config = config();
    let context = TemplateContext {
        project_name: "p",
        underscored_name: "p",
        camelcase_name: "P",
        description: "see %%URL%%",
        config: &config,
    };
    assert_eq!(context.render("%%PROJECT_DESCRIPTION%%"), "see https://example.org");
}

#[test]
fn renderer_uses_the_one_variant_for_every_framework() {
    for gui in ["iced", "egui", "", "no such framework"] {
        let renderer = TemplateRenderer::new(gui);
        assert_eq!(renderer.get_lib_template(), AssetName::LibIced);
        assert_eq!(renderer.get_editor_template(), AssetName::Editor);
    }
}

#[test]
fn render_file_asks_for_the_rendered_text() {
    let config = config();
    let context = TemplateContext {
        project_name: "my-plugin",
        underscored_name: "my_plugin",
        camelcase_name: "MyPlugin",
        description: "d",
        config: &config,
    };
    let renderer = TemplateRenderer::new("iced");
    assert_eq!(
        renderer.render_file(path(&["out", "a.txt"]), "<%%VENDOR%%>", &context),
        Action::Write { path: path(&["out", "a.txt"]), content: "<Analytical>".to_string() }
    );
}

#[test]
fn project_tree_is_laid_out_in_order() {
    let config = config();
    let assets = assets();
    let context = TemplateContext {
        project_name: "my-plugin",
        underscored_name: "my_plugin",
        camelcase_name: "MyPlugin",
        description: "a test",
        config: &config,
    };
    let plan = TemplateRenderer::new("iced").render_project(&path(&["out", "my-plugin"]), &context, &assets);
    let expected = vec![
        Action::CreateDirAll { path: path(&["out", "my-plugin", "my_plugin", "src"]) },
        Action::Write {
            path: path(&["out", "my-plugin", "my_plugin", "src", "main.rs"]),
            content: "fn main() { my_plugin::run(); }".to_string(),
        },
        Action::Write {
            path: path(&["out", "my-plugin", "my_plugin", "src", "lib.rs"]),
            content: "pub struct MyPlugin;".to_string(),
        },
        Action::Write {
            path: path(&["out", "my-plugin", "my_plugin", "src", "editor.rs"]),
            content: "// editor of my-plugin".to_string(),
        },
        Action::Write {
            path: path(&["out", "my-plugin", "my_plugin", "Cargo.toml"]),
            content: "name = \"my_plugin\"\ndescription = \"a test\"\n".to_string(),
        },
        Action::CreateDirAll { path: path(&["out", "my-plugin", "xtask", "src"]) },
        Action::Write {
            path: path(&["out", "my-plugin", "xtask", "src", "main.rs"]),
            content: "fn main() { /* %%PROJECT_NAME%% stays */ }".to_string(),
        },
        Action::Write {
            path: path(&["out", "my-plugin", "xtask", "Cargo.toml"]),
            content: "authors = [\"Ada <ada@example.org>\"]".to_string(),
        },
        Action::Write {
            path: path(&["out", "my-plugin", "Cargo.toml"]),
            content: "members = [\"my_plugin\", \"xtask\"]".to_string(),
        },
        Action::CreateDirAll { path: path(&["out", "my-plugin", ".cargo"]) },
        Action::Write {
            path: path(&["out", "my-plugin", ".cargo", "config.toml"]),
            content: "[alias]\nxtask = \"run --package xtask --\"\n".to_string(),
        },
    ];
    assert_eq!(plan, expected);
}

#[test]
fn xtask_tree_is_the_end_of_the_project_tree() {
    let config = config();
    let assets = assets();
    let context = TemplateContext {
        project_name: "p",
        underscored_name: "p",
        camelcase_name: "P",
        description: "d",
        config: &config,
    };
    let renderer = TemplateRenderer::new("iced");
    let target = path(&["t"]);
    let whole = renderer.render_project(&target, &context, &assets);
    let tail = renderer.create_xtask_project(&target, &context, &assets);
    assert_eq!(tail.len(), 6);
    assert_eq!(whole[5..].to_vec(), tail);
}

#[test]
fn assets_are_found_by_name() {
    let assets = assets();
    assert_eq!(assets.get(AssetName::Gitignore), "target/\n");
    assert_eq!(assets.get(AssetName::Workflow), "name: general\n");
    assert_eq!(assets.get(AssetName::LibIced), "pub struct %%PROJECT_NAME_CAMELCASE%%;");
    assert_eq!(AssetName::ProjectMain.file(), "templates/project/main.txt");
    assert_eq!(AssetName::CargoConfig.file(), "templates/xtask/cargo_config.toml");
    assert_eq!(AssetName::DefaultConfig.file(), "data/general_info.toml");
}

const TOKENS: [&str; 10] = [
    "%%PROJECT_NAME%%",
    "%%PROJECT_NAME_UNDERSCORED%%",
    "%%PROJECT_NAME_CAMELCASE%%",
    "%%PROJECT_DESCRIPTION%%",
    "%%AUTHORS%%",
    "%%CARGO_PACKAGE_VERSION%%",
    "%%VENDOR%%",
    "%%URL%%",
    "%%EMAIL%%",
    "%%NIH_PLUG_GIT%%",
];

fn in_order(template: &str, values: &[&str; 10], order: &[usize; 10]) -> String {
    let mut text = template.to_string();
    for &k in order {
        text = replace(&text, TOKENS[k], values[k]);
    }
    text
}

#[test]
fn any_order_of_replacements_gives_the_rendered_text() {
    let config = config();
    let context = TemplateContext {
        project_name: "my-plugin",
        underscored_name: "my_plugin",
        camelcase_name: "MyPlugin",
        description: "a test",
        config: &config,
    };
    let values = [
        "my-plugin",
        "my_plugin",
        "MyPlugin",
        "a test",
        "Ada <ada@example.org>",
        "0.3.1",
        "Analytical",
        "https://example.org",
        "ada@example.org",
        "https://example.org/nih-plug.git",
    ];
    let template = "%%URL%% %%PROJECT_NAME_UNDERSCORED%%/%%PROJECT_NAME%% by %%AUTHORS%%, \
%%VENDOR%% (%%EMAIL%%) v%%CARGO_PACKAGE_VERSION%%: %%PROJECT_DESCRIPTION%% \
%%PROJECT_NAME_CAMELCASE%% %%NIH_PLUG_GIT%% %%URL%%";
    let rendered = context.render(template);
    assert_eq!(in_order(template, &values, &[0, 1, 2, 3, 4, 5, 6, 7, 8, 9]), rendered);
    assert_eq!(in_order(template, &values, &[9, 8, 7, 6, 5, 4, 3, 2, 1, 0]), rendered);
    assert_eq!(in_order(template, &values, &[3, 7, 0, 9, 1, 5, 8, 2, 6, 4]), rendered);
    assert_eq!(
        rendered,
        "https://example.org my_plugin/my-plugin by Ada <ada@example.org>, \
Analytical (ada@example.org) v0.3.1: a test MyPlugin https://example.org/nih-plug.git \
https://example.org"
    );
}

#[test]
fn overlapping_placeholders_depend_on_the_order() {
    let mut values = ["x"; 10];
    values[6] = "v";
    values[7] = "u";
    let template = "%%VENDOR%%URL%%";
    assert_eq!(in_order(template, &values, &[0, 1, 2, 3, 4, 5, 6, 7, 8, 9]), "vURL%%");
    assert_eq!(in_order(template, &values, &[0, 1, 2, 3, 4, 5, 7, 6, 8, 9]), "%%VENDORu");
}

#[test]
fn a_value_that_holds_a_placeholder_can_leave_one_behind() {
    let config = config();
    let context = TemplateContext {
        project_name: "x",
        underscored_name: "x",
        camelcase_name: "X",
        description: "%%PROJECT_NAME%%",
        config: &config,
    };
    assert_eq!(context.render("%%PROJECT_DESCRIPTION%%"), "%%PROJECT_NAME%%");
}

#[test]
fn placeholders_between_blanks_take_any_value_in_any_order() {
    let values = ["U", "", "E", "R L", "URL", "NAME", "_", "EMAIL", "A", "x"];
    let template = "%%URL%% %%PROJECT_NAME%%\n%%EMAIL%%\t%%PROJECT_NAME_UNDERSCORED%% \
%%PROJECT_NAME_CAMELCASE%% mid %%PROJECT_DESCRIPTION%% %%AUTHORS%% \
%%CARGO_PACKAGE_VERSION%% %%VENDOR%% %%NIH_PLUG_GIT%%";
    let expected = "EMAIL U\nA\t E mid R L URL NAME _ x";
    assert_eq!(in_order(template, &values, &[0, 1, 2, 3, 4, 5, 6, 7, 8, 9]), expected);
    assert_eq!(in_order(template, &values, &[9, 8, 7, 6, 5, 4, 3, 2, 1, 0]), expected);
    assert_eq!(in_order(template, &values, &[7, 0, 8, 4, 2, 9, 1, 5, 3, 6]), expected);
    assert!(!expected.contains('%'));
}

#[test]
fn a_value_inside_a_later_placeholder_leaves_none_behind() {
    let config = config();
    let context = TemplateContext {
        project_name: "U",
        underscored_name: "u",
        camelcase_name: "U",
        description: "d",
        config: &config,
    };
    let out = context.render("%%%%PROJECT_NAME%%RL%% and %%PROJECT_NAME%%");
    assert_eq!(out, "https://example.org and U");
    for token in TOKENS {
        assert!(!out.contains(token));
    }
}
