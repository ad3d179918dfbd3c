use vstd::prelude::*;

use crate::error::BuildError;

verus! {

/// The view of an optional owned string.
pub open spec fn string_opt(o: Option<String>) -> Option<Seq<char>> {
    match o {
        Some(s) => Some(s@),
        None => None,
    }
}

/// What the `toml` crate makes of `text`: `None` where `text` is no TOML
/// document; otherwise the string stored under `key` in the table stored under
/// `table` at the top of the document, or `None` inside where there is no such
/// table, no such entry, or the entry is not a string.
pub uninterp spec fn toml_table_string(text: Seq<char>, table: Seq<char>, key: Seq<char>) -> Option<
    Option<Seq<char>>,
>;

/// Parses `text` with `toml::Value`'s `FromStr` (that is, `toml::from_str`, which
/// reads a whole document), then reads the entry with `Value::get`, `Value::as_table`,
/// `toml::map::Map::get` and `Value::as_str`. Claimed, and not proved: the outcome
/// is `toml_table_string` of the three arguments, with the parser's error where
/// `text` is no TOML document.
#[verifier::external_body]
fn read_table_string(text: &str, table: &str, key: &str) -> (r: Result<
    Option<String>,
    toml::de::Error,
>)
    ensures
        match r {
            Ok(o) => toml_table_string(text@, table@, key@) == Some(string_opt(o)),
            Err(_) => toml_table_string(text@, table@, key@) is None,
        },
{
    let doc: toml::Value = text.parse()?;
    Ok(
        doc.get(table).and_then(|t| t.as_table()).and_then(|t| t.get(key)).and_then(
            |v| v.as_str(),
        ).map(String::from),
    )
}

/// The `package` section of a package's manifest (Cargo.toml), as far as an
/// installer build reads it.
#[derive(Debug)]
pub struct Manifest {
    /// The `name` field, where it is a string.
    pub package_name: Option<String>,
    /// The `version` field, where it is a string.
    pub package_version: Option<String>,
}

/// The `package.name` entry of the manifest text `text`, as `toml` reads it.
pub open spec fn manifest_name(text: Seq<char>) -> Option<Option<Seq<char>>> {
    toml_table_string(text, "package"@, "name"@)
}

/// The `package.version` entry of the manifest text `text`, as `toml` reads it.
pub open spec fn manifest_version(text: Seq<char>) -> Option<Option<Seq<char>>> {
    toml_table_string(text, "package"@, "version"@)
}

impl Manifest {
    /// Reads the name and version of the package from the text of its manifest.
    /// Fails with the TOML parser's error where the text is no TOML document.
    pub fn parse(text: &str) -> (r: Result<Manifest, BuildError>)
        ensures
            r is Ok <==> manifest_name(text@) is Some && manifest_version(text@) is Some,
            r matches Ok(m) ==> Some(string_opt(m.package_name)) == manifest_name(text@) && Some(
                string_opt(m.package_version),
            ) == manifest_version(text@),
            r matches Err(e) ==> e is Toml,
    {
        let name = match read_table_string(text, "package", "name") {
            Ok(n) => n,
            Err(e) => {
                return Err(BuildError::Toml(e));
            },
        };
        let version = match read_table_string(text, "package", "version") {
            Ok(v) => v,
            Err(e) => {
                return Err(BuildError::Toml(e));
            },
        };
        Ok(Manifest { package_name: name, package_version: version })
    }
}

} // verus!
