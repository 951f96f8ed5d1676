//! Vendor and author metadata, read from a TOML document.

use vstd::prelude::*;

verus! {

/// `toml::map::Map`, the table of a document. Nothing is known of what is
/// inside but what `table_texts` names.
#[verifier::external_type_specification]
#[verifier::external_body]
#[verifier::reject_recursive_types(K)]
#[verifier::reject_recursive_types(V)]
pub struct ExTomlMap<K, V>(toml::map::Map<K, V>);

/// `toml::Value`, one value of a document. It is only carried.
#[verifier::external_type_specification]
#[verifier::external_body]
pub struct ExTomlValue(toml::Value);

/// `toml::de::Error`, what the parser says of a text that it rejects. It is
/// only carried.
#[verifier::external_type_specification]
#[verifier::external_body]
pub struct ExTomlError(toml::de::Error);

/// What `toml::from_str` makes of a document: `None` where the text is no
/// TOML document, else its top-level keys whose values are strings, each with
/// its string.
pub uninterp spec fn document_texts(source: Seq<char>) -> Option<Map<Seq<char>, Seq<char>>>;

/// The top-level keys of a parsed table whose values are strings, each with
/// its string.
pub uninterp spec fn table_texts(table: toml::Table) -> Map<Seq<char>, Seq<char>>;

/// Calls `toml::from_str` for a table. The parser either rejects the text or
/// hands back the table of the document; this says no more than that the
/// string entries of that table are the ones named by `document_texts`.
#[verifier::external_body]
fn parse_table(source: &str) -> (r: Result<toml::Table, toml::de::Error>)
    ensures
        match r {
            Ok(table) => document_texts(source@) == Some(table_texts(table)),
            Err(_) => document_texts(source@) is None,
        },
{
    toml::from_str::<toml::Table>(source)
}

/// Calls `Map::get` and `Value::as_str`: the string under `key`, if the table
/// holds that key with a string value.
#[verifier::external_body]
fn text_under(table: &toml::Table, key: &str) -> (r: Option<String>)
    ensures
        match r {
            Some(text) => table_texts(*table).contains_key(key@) && table_texts(*table)[key@]
                == text@,
            None => !table_texts(*table).contains_key(key@),
        },
{
    match table.get(key) {
        Some(value) => match value.as_str() {
            Some(text) => Some(text.to_string()),
            None => None,
        },
        None => None,
    }
}

/// The six keys that a configuration document must hold.
#[derive(Clone, Copy, Debug, PartialEq, Eq, Structural)]
pub enum Key {
    Authors,
    CargoPkgVersion,
    Vendor,
    VendorUrl,
    VendorEmail,
    NihPlugGit,
}

impl Key {
    /// The key as it is written in the document.
    pub open spec fn text(self) -> Seq<char> {
        match self {
            Key::Authors => "authors"@,
            Key::CargoPkgVersion => "cargo_pkg_version"@,
            Key::Vendor => "vendor"@,
            Key::VendorUrl => "vendor_url"@,
            Key::VendorEmail => "vendor_email"@,
            Key::NihPlugGit => "nih_plug_git"@,
        }
    }

    /// The key as it is written in the document.
    pub fn name(self) -> (r: &'static str)
        ensures
            r@ == self.text(),
    {
        match self {
            Key::Authors => "authors",
            Key::CargoPkgVersion => "cargo_pkg_version",
            Key::Vendor => "vendor",
            Key::VendorUrl => "vendor_url",
            Key::VendorEmail => "vendor_email",
            Key::NihPlugGit => "nih_plug_git",
        }
    }
}

/// Why a configuration document was refused.
#[derive(Debug)]
pub enum ParseError {
    /// The text is no TOML document.
    Syntax(toml::de::Error),
    /// The document lacks this key, or holds it with a value that is no string.
    Field(Key),
}

/// Author and vendor metadata that templates refer to.
#[derive(Debug, Clone, PartialEq, Eq)]
pub struct Config {
    pub authors: String,
    pub cargo_pkg_version: String,
    pub vendor: String,
    pub vendor_url: String,
    pub vendor_email: String,
    pub nih_plug_git: String,
}

/// The first required key, in the order of the record's fields, that `texts`
/// does not hold.
pub open spec fn first_missing(texts: Map<Seq<char>, Seq<char>>) -> Option<Key> {
    if !texts.contains_key(Key::Authors.text()) {
        Some(Key::Authors)
    } else if !texts.contains_key(Key::CargoPkgVersion.text()) {
        Some(Key::CargoPkgVersion)
    } else if !texts.contains_key(Key::Vendor.text()) {
        Some(Key::Vendor)
    } else if !texts.contains_key(Key::VendorUrl.text()) {
        Some(Key::VendorUrl)
    } else if !texts.contains_key(Key::VendorEmail.text()) {
        Some(Key::VendorEmail)
    } else if !texts.contains_key(Key::NihPlugGit.text()) {
        Some(Key::NihPlugGit)
    } else {
        None
    }
}

impl Config {
    /// Whether each field holds the string that `texts` has under its key.
    pub open spec fn holds(&self, texts: Map<Seq<char>, Seq<char>>) -> bool {
        &&& self.authors@ == texts[Key::Authors.text()]
        &&& self.cargo_pkg_version@ == texts[Key::CargoPkgVersion.text()]
        &&& self.vendor@ == texts[Key::Vendor.text()]
        &&& self.vendor_url@ == texts[Key::VendorUrl.text()]
        &&& self.vendor_email@ == texts[Key::VendorEmail.text()]
        &&& self.nih_plug_git@ == texts[Key::NihPlugGit.text()]
    }

    /// Whether `result` is what reading a document owes, given what the
    /// parser made of it: the syntax error where the text is no document;
    /// else the first missing key where there is one; else the record with
    /// the six strings.
    pub open spec fn answers(
        result: Result<Config, ParseError>,
        document: Option<Map<Seq<char>, Seq<char>>>,
    ) -> bool {
        match document {
            None => result matches Err(ParseError::Syntax(_)),
            Some(texts) => match first_missing(texts) {
                Some(key) => result matches Err(ParseError::Field(found)) && found == key,
                None => result matches Ok(config) && config.holds(texts),
            },
        }
    }

    /// Where a project-local document overrides the built-in one.
    pub fn local_path() -> (r: &'static str)
        ensures
            r@ == "./data/general_info.toml"@,
    {
        "./data/general_info.toml"
    }

    /// Builds the record from a parsed table. Every one of the six keys must be
    /// there with a string value; the first one that is not is reported.
    pub fn from_table(table: &toml::Table) -> (r: Result<Config, ParseError>)
        ensures
            Config::answers(r, Some(table_texts(*table))),
    {
        let authors = match text_under(table, Key::Authors.name()) {
            Some(text) => text,
            None => return Err(ParseError::Field(Key::Authors)),
        };
        let cargo_pkg_version = match text_under(table, Key::CargoPkgVersion.name()) {
            Some(text) => text,
            None => return Err(ParseError::Field(Key::CargoPkgVersion)),
        };
        let vendor = match text_under(table, Key::Vendor.name()) {
            Some(text) => text,
            None => return Err(ParseError::Field(Key::Vendor)),
        };
        let vendor_url = match text_under(table, Key::VendorUrl.name()) {
            Some(text) => text,
            None => return Err(ParseError::Field(Key::VendorUrl)),
        };
        let vendor_email = match text_under(table, Key::VendorEmail.name()) {
            Some(text) => text,
            None => return Err(ParseError::Field(Key::VendorEmail)),
        };
        let nih_plug_git = match text_under(table, Key::NihPlugGit.name()) {
            Some(text) => text,
            None => return Err(ParseError::Field(Key::NihPlugGit)),
        };
        Ok(Config { authors, cargo_pkg_version, vendor, vendor_url, vendor_email, nih_plug_git })
    }

    /// Reads the record from the text of a TOML document.
    pub fn parse(source: &str) -> (r: Result<Config, ParseError>)
        ensures
            Config::answers(r, document_texts(source@)),
    {
        match parse_table(source) {
            Ok(table) => Config::from_table(&table),
            Err(fault) => Err(ParseError::Syntax(fault)),
        }
    }

    /// Reads the record from the project-local document where there is one,
    /// else from the built-in document. The other text is not looked at.
    pub fn load(local: Option<&str>, embedded: &str) -> (r: Result<Config, ParseError>)
        ensures
            Config::answers(
                r,
                document_texts(
                    match local {
                        Some(text) => text@,
                        None => embedded@,
                    },
                ),
            ),
    {
        match local {
            Some(text) => Config::parse(text),
            None => Config::parse(embedded),
        }
    }
}

} // verus!
