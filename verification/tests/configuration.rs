use nih_bootstrap::config::{Config, Key, ParseError};

const FULL: &str = r#"
authors = "Ada <ada@example.org>"
cargo_pkg_version = "0.3.1"
vendor = "Analytical"
vendor_url = "https://example.org"
vendor_email = "ada@example.org"
nih_plug_git = "https://example.org/nih-plug.git"
"#;

fn full() -> Config {
    Config {
        authors: "Ada <ada@example.org>".to_string(),
        cargo_pkg_version: "0.3.1".to_string(),
        vendor: "Analytical".to_string(),
        vendor_url: "https://example.org".to_string(),
        vendor_email: "ada@example.org".to_string(),
        nih_plug_git: "https://example.org/nih-plug.git".to_string(),
    }
}

fn field_of(result: Result<Config, ParseError>) -> Key {
    match result {
        Err(ParseError::Field(key)) => key,
        other => panic!("no field error: {:?}", other),
    }
}

#[test]
fn parse_reads_the_six_keys() {
    assert_eq!(Config::parse(FULL).unwrap(), full());
}

#[test]
fn parse_ignores_other_keys_and_tables() {
    let text = format!("{}extra = 1\n[section]\nauthors = \"someone else\"\n", FULL);
    assert_eq!(Config::parse(&text).unwrap(), full());
}

#[test]
fn parse_reports_malformed_text() {
    assert!(matches!(Config::parse("authors = "), Err(ParseError::Syntax(_))));
    assert!(matches!(Config::parse("not toml at all"), Err(ParseError::Syntax(_))));
    assert!(matches!(Config::parse("a = 1\na = 2\n"), Err(ParseError::Syntax(_))));
}

#[test]
fn parse_reports_the_first_missing_key() {
    assert_eq!(field_of(Config::parse("")), Key::Authors);
    assert_eq!(field_of(Config::parse("authors = \"a\"\n")), Key::CargoPkgVersion);
    let without_email = FULL.replace("vendor_email = \"ada@example.org\"\n", "");
    assert_eq!(field_of(Config::parse(&without_email)), Key::VendorEmail);
    let without_git = FULL.replace("nih_plug_git = \"https://example.org/nih-plug.git\"\n", "");
    assert_eq!(field_of(Config::parse(&without_git)), Key::NihPlugGit);
}

#[test]
fn parse_reports_a_key_that_is_no_string() {
    let text = FULL.replace("vendor = \"Analytical\"", "vendor = 7");
    assert_eq!(field_of(Config::parse(&text)), Key::Vendor);
    let text = FULL.replace("vendor_url = \"https://example.org\"", "vendor_url = [\"a\"]");
    assert_eq!(field_of(Config::parse(&text)), Key::VendorUrl);
}

#[test]
fn from_table_reads_a_table_built_by_hand() {
    let mut table = toml::Table::new();
    table.insert("authors".to_string(), toml::Value::String("a".to_string()));
    table.insert("cargo_pkg_version".to_string(), toml::Value::String("1.0.0".to_string()));
    table.insert("vendor".to_string(), toml::Value::String("v".to_string()));
    assert_eq!(field_of(Config::from_table(&table)), Key::VendorUrl);
    table.insert("vendor_url".to_string(), toml::Value::String("u".to_string()));
    table.insert("vendor_email".to_string(), toml::Value::Boolean(true));
    assert_eq!(field_of(Config::from_table(&table)), Key::VendorEmail);
    table.insert("vendor_email".to_string(), toml::Value::String("e".to_string()));
    table.insert("nih_plug_git".to_string(), toml::Value::String("g".to_string()));
    assert_eq!(
        Config::from_table(&table).unwrap(),
        Config {
            authors: "a".to_string(),
            cargo_pkg_version: "1.0.0".to_string(),
            vendor: "v".to_string(),
            vendor_url: "u".to_string(),
            vendor_email: "e".to_string(),
            nih_plug_git: "g".to_string(),
        }
    );
}

#[test]
fn load_prefers_the_local_document() {
    let local = FULL.replace("Analytical", "Local");
    let loaded = Config::load(Some(&local), FULL).unwrap();
    assert_eq!(loaded.vendor, "Local");
}

#[test]
fn load_falls_back_to_the_built_in_document() {
    assert_eq!(Config::load(None, FULL).unwrap(), full());
}

#[test]
fn load_does_not_fall_back_when_the_local_document_is_bad() {
    assert!(matches!(Config::load(Some("= broken"), FULL), Err(ParseError::Syntax(_))));
    assert_eq!(field_of(Config::load(Some(""), FULL)), Key::Authors);
}

#[test]
fn keys_are_written_as_in_the_document() {
    assert_eq!(Key::Authors.name(), "authors");
    assert_eq!(Key::CargoPkgVersion.name(), "cargo_pkg_version");
    assert_eq!(Key::Vendor.name(), "vendor");
    assert_eq!(Key::VendorUrl.name(), "vendor_url");
    assert_eq!(Key::VendorEmail.name(), "vendor_email");
    assert_eq!(Key::NihPlugGit.name(), "nih_plug_git");
    assert_eq!(Config::local_path(), "./data/general_info.toml");
}
