use vstd::prelude::*;
use crate::error::BuildError;
use crate::text::owned;

verus! {

#[verifier::external_type_specification]
#[verifier::external_body]
#[verifier::reject_recursive_types(K)]
#[verifier::reject_recursive_types(V)]
pub struct ExTomlMap<K, V>(toml::map::Map<K, V>);

#[verifier::external_type_specification]
#[verifier::external_body]
pub struct ExTomlValue(toml::Value);

#[verifier::external_type_specification]
#[verifier::external_body]
pub struct ExTomlError(toml::de::Error);

/// The table that a TOML document parses to, or none where it is not valid.
pub uninterp spec fn parsed_table(text: Seq<char>) -> Option<toml::Table>;

/// The keys of a TOML table with their values.
pub uninterp spec fn table_entries(t: toml::Table) -> Map<Seq<char>, toml::Value>;

/// The text of a TOML value that is a string.
pub uninterp spec fn value_text(v: toml::Value) -> Option<Seq<char>>;

/// The table of a TOML value that is a table.
pub uninterp spec fn value_table(v: toml::Value) -> Option<toml::Table>;

/// Relies on `toml::Table`'s `FromStr` impl (`toml::from_str`): parsing is a
/// function of the text alone.
#[verifier::external_body]
fn parse_table(text: &str) -> (r: Result<toml::Table, toml::de::Error>)
    ensures
        match r {
            Ok(t) => parsed_table(text@) == Some(t),
            Err(_) => parsed_table(text@) is None,
        },
{
    text.parse::<toml::Table>()
}

/// Relies on `toml::map::Map::get`: the value stored under `key`, if any.
#[verifier::external_body]
fn table_get<'a>(t: &'a toml::Table, key: &str) -> (r: Option<&'a toml::Value>)
    ensures
        match r {
            Some(v) => table_entries(*t).contains_key(key@) && table_entries(*t)[key@] == *v,
            None => !table_entries(*t).contains_key(key@),
        },
{
    t.get(key)
}

/// Relies on `toml::Value::as_str`: the text of a string value.
#[verifier::external_body]
fn value_as_str<'a>(v: &'a toml::Value) -> (r: Option<&'a str>)
    ensures
        match r {
            Some(s) => value_text(*v) == Some(s@),
            None => value_text(*v) is None,
        },
{
    v.as_str()
}

/// Relies on `toml::Value::as_table`: the table of a table value.
#[verifier::external_body]
fn value_as_table<'a>(v: &'a toml::Value) -> (r: Option<&'a toml::Table>)
    ensures
        match r {
            Some(t) => value_table(*v) == Some(*t),
            None => value_table(*v) is None,
        },
{
    v.as_table()
}

/// The string found by following the keys of `path` down nested tables from
/// `t`: none where a key is missing, a value on the way is not a table, or
/// the last one is not a string.
pub open spec fn string_at(t: toml::Table, path: Seq<Seq<char>>) -> Option<Seq<char>>
    decreases path.len(),
{
    if path.len() == 0 || !table_entries(t).contains_key(path[0]) {
        None
    } else if path.len() == 1 {
        value_text(table_entries(t)[path[0]])
    } else {
        match value_table(table_entries(t)[path[0]]) {
            Some(sub) => string_at(sub, path.skip(1)),
            None => None,
        }
    }
}

/// The plain views of a list of keys.
pub open spec fn key_views(path: Seq<&str>) -> Seq<Seq<char>> {
    path.map_values(|k: &str| k@)
}

/// The string at `path` in the manifest `text`, if there is one there.
/// Fails when the text is not valid TOML.
pub open spec fn manifest_string(text: Seq<char>, path: Seq<Seq<char>>) -> Result<Option<Seq<char>>, ()> {
    match parsed_table(text) {
        Some(t) => Ok(string_at(t, path)),
        None => Err(()),
    }
}

/// Follows the keys of `path` down nested tables from `table`.
pub fn get_toml_string_rec(table: &toml::Table, path: &[&str]) -> (r: Option<String>)
    ensures
        match string_at(*table, key_views(path@)) {
            Some(s) => r matches Some(x) && x@ == s,
            None => r is None,
        },
{
    let ghost keys = key_views(path@);
    let n = path.len();
    if n == 0 {
        return None;
    }
    let mut cur: &toml::Table = table;
    let mut i: usize = 0;
    assert(keys.skip(0) =~= keys);
    while i + 1 < n
        invariant
            n == path@.len(),
            n >= 1,
            keys == key_views(path@),
            i + 1 <= n,
            string_at(*table, keys) == string_at(*cur, keys.skip(i as int)),
        decreases n - i,
    {
        let ghost rest = keys.skip(i as int);
        assert(rest[0] == path@[i as int]@);
        match table_get(cur, path[i]) {
            None => {
                return None;
            },
            Some(v) => match value_as_table(v) {
                None => {
                    return None;
                },
                Some(sub) => {
                    assert(rest.skip(1) =~= keys.skip(i + 1));
                    cur = sub;
                },
            },
        }
        i = i + 1;
    }
    let ghost rest = keys.skip(i as int);
    assert(rest.len() == 1);
    assert(rest[0] == path@[i as int]@);
    match table_get(cur, path[i]) {
        None => None,
        Some(v) => match value_as_str(v) {
            None => None,
            Some(s) => Some(owned(s)),
        },
    }
}

/// The string at `path` in the manifest `text`. Fails when the text is not
/// valid TOML.
pub fn get_toml_string(text: &str, path: &[&str]) -> (r: Result<Option<String>, BuildError>)
    ensures
        match manifest_string(text@, key_views(path@)) {
            Ok(Some(s)) => r matches Ok(Some(x)) && x@ == s,
            Ok(None) => r matches Ok(None),
            Err(_) => r matches Err(BuildError::MalformedManifest),
        },
{
    match parse_table(text) {
        Ok(t) => Ok(get_toml_string_rec(&t, path)),
        Err(_) => Err(BuildError::MalformedManifest),
    }
}

/// Where the manifest gives the application id.
pub open spec fn app_id_path() -> Seq<Seq<char>> {
    seq!["package"@, "metadata"@, "android"@, "package_name"@]
}

/// Where the manifest gives the application's display name.
pub open spec fn title_path() -> Seq<Seq<char>> {
    seq!["package"@, "metadata"@, "android"@, "title"@]
}

/// The application id used where the manifest gives none.
pub open spec fn default_app_id() -> Seq<char> {
    "org.libsdl.app"@
}

/// The display name used where the manifest gives none.
pub open spec fn default_title() -> Seq<char> {
    "Untitled"@
}

/// The string at `path` in the manifest, or `default` where it has none.
pub open spec fn manifest_string_or(text: Seq<char>, path: Seq<Seq<char>>, default: Seq<char>) -> Result<Seq<char>, ()> {
    match manifest_string(text, path) {
        Ok(Some(s)) => Ok(s),
        Ok(None) => Ok(default),
        Err(_) => Err(()),
    }
}

/// The string at the keys `path` of the manifest `text`, or `default`.
fn toml_string_or(text: &str, path: &[&str], default: &str) -> (r: Result<String, BuildError>)
    ensures
        match manifest_string_or(text@, key_views(path@), default@) {
            Ok(s) => r matches Ok(x) && x@ == s,
            Err(_) => r matches Err(BuildError::MalformedManifest),
        },
{
    match get_toml_string(text, path) {
        Ok(Some(s)) => Ok(s),
        Ok(None) => Ok(owned(default)),
        Err(e) => Err(e),
    }
}

/// The application id that the manifest `text` gives under
/// `package.metadata.android.package_name`, or `org.libsdl.app`.
pub fn get_android_app_id(text: &str) -> (r: Result<String, BuildError>)
    ensures
        match manifest_string_or(text@, app_id_path(), default_app_id()) {
            Ok(s) => r matches Ok(x) && x@ == s,
            Err(_) => r matches Err(BuildError::MalformedManifest),
        },
{
    let path: Vec<&str> = vec!["package", "metadata", "android", "package_name"];
    assert(key_views(path@) =~= app_id_path());
    toml_string_or(text, path.as_slice(), "org.libsdl.app")
}

/// The display name that the manifest `text` gives under
/// `package.metadata.android.title`, or `Untitled`.
pub fn get_android_app_title(text: &str) -> (r: Result<String, BuildError>)
    ensures
        match manifest_string_or(text@, title_path(), default_title()) {
            Ok(s) => r matches Ok(x) && x@ == s,
            Err(_) => r matches Err(BuildError::MalformedManifest),
        },
{
    let path: Vec<&str> = vec!["package", "metadata", "android", "title"];
    assert(key_views(path@) =~= title_path());
    toml_string_or(text, path.as_slice(), "Untitled")
}

/// The application id and display name of the package.
#[derive(Debug)]
pub struct ApplicationIdentity {
    pub app_id: String,
    pub title: String,
}

/// The identity that the manifest `text` gives, with the defaults for what
/// it leaves out. Fails when the text is not valid TOML.
pub fn application_identity(text: &str) -> (r: Result<ApplicationIdentity, BuildError>)
    ensures
        match (
            manifest_string_or(text@, app_id_path(), default_app_id()),
            manifest_string_or(text@, title_path(), default_title()),
        ) {
            (Ok(id), Ok(title)) => r matches Ok(x) && x.app_id@ == id && x.title@ == title,
            _ => r matches Err(BuildError::MalformedManifest),
        },
{
    let app_id = get_android_app_id(text)?;
    let title = get_android_app_title(text)?;
    Ok(ApplicationIdentity { app_id, title })
}

} // verus!
