//! Path texts. The library handles paths as their text; what a path's parts
//! are is decided by `std::path` for the target the library is built for (on
//! Windows, `\` and `/` both separate components and drive prefixes count),
//! reached through the trusted wrappers below. Their results are named, not
//! spelled out: each name stands for that target's rules.
//! Also the places where the manager keeps its files, computed from the
//! environment that the caller reads.
use vstd::prelude::*;

verus! {

/// What `std::path::Path::file_name` returns for a path: its final component, if any.
pub uninterp spec fn spec_path_file_name(path: Seq<char>) -> Option<Seq<char>>;

/// What `std::path::Path::parent` returns for a path: the path without its final component, if any.
pub uninterp spec fn spec_path_parent(path: Seq<char>) -> Option<Seq<char>>;

/// What `std::path::Path::join` returns: `child` adjoined to `base`.
pub uninterp spec fn spec_path_join(base: Seq<char>, child: Seq<char>) -> Seq<char>;

/// What `std::path::Path::starts_with` returns: whether `base` is a prefix of `path`,
/// component by component.
pub uninterp spec fn spec_path_starts_with(path: Seq<char>, base: Seq<char>) -> bool;

/// The position of the last `c` in `s`, or -1 where there is none.
pub open spec fn last_index_of(s: Seq<char>, c: char) -> int
    decreases s.len(),
{
    if s.len() == 0 {
        -1
    } else if s.last() == c {
        s.len() - 1
    } else {
        last_index_of(s.drop_last(), c)
    }
}

/// The extension of a file name, as the documentation of `Path::extension` defines it:
/// none without an embedded `.`, none for a name that begins with its only `.`
/// (nor for `..`), else the part after the final `.`.
pub open spec fn extension_of_name(name: Seq<char>) -> Option<Seq<char>> {
    let dot = last_index_of(name, '.');
    if name == seq!['.', '.'] || dot <= 0 {
        None
    } else {
        Some(name.skip(dot + 1))
    }
}

/// The extension of a path: that of its file name.
pub open spec fn spec_path_extension(path: Seq<char>) -> Option<Seq<char>> {
    match spec_path_file_name(path) {
        Some(name) => extension_of_name(name),
        None => None,
    }
}

/// Characters that do not occur in `t` leave the last position of `c` in `s + t` where
/// it was in `s`.
proof fn lemma_last_index_ignores_tail(s: Seq<char>, t: Seq<char>, c: char)
    requires
        forall|i: int| 0 <= i < t.len() ==> t[i] != c,
    ensures
        last_index_of(s + t, c) == last_index_of(s, c),
    decreases t.len(),
{
    if t.len() == 0 {
        assert(s + t =~= s);
    } else {
        assert((s + t).drop_last() =~= s + t.drop_last());
        assert((s + t).last() == t.last());
        lemma_last_index_ignores_tail(s, t.drop_last(), c);
    }
}

/// Where `c` occurs nowhere after the first position, its last position is at most 0.
proof fn lemma_last_index_at_most_first(s: Seq<char>, c: char)
    requires
        forall|i: int| 1 <= i < s.len() ==> s[i] != c,
    ensures
        last_index_of(s, c) <= 0,
    decreases s.len(),
{
    if s.len() > 1 {
        assert(s.last() == s[s.len() - 1]);
        assert(s.last() != c);
        lemma_last_index_at_most_first(s.drop_last(), c);
    } else if s.len() == 1 {
        assert(s.drop_last().len() == 0);
        assert(last_index_of(s.drop_last(), c) == -1);
    }
}

/// The extension of a path is the part of its file name after the last dot: when the
/// file name is a non-empty stem, a dot, and a text with no dot, the extension is that
/// text (the name `..` aside, which has none).
pub proof fn extension_is_after_last_dot(path: Seq<char>, stem: Seq<char>, ext: Seq<char>)
    requires
        spec_path_file_name(path) == Some(stem + seq!['.'] + ext),
        stem.len() > 0,
        forall|i: int| 0 <= i < ext.len() ==> ext[i] != '.',
        stem + seq!['.'] + ext != seq!['.', '.'],
    ensures
        spec_path_extension(path) == Some(ext),
{
    let head = stem + seq!['.'];
    let name = head + ext;
    assert(stem + seq!['.'] + ext == name);
    lemma_last_index_ignores_tail(head, ext, '.');
    assert(head.last() == '.');
    assert(last_index_of(head, '.') == stem.len());
    assert(name.skip(stem.len() + 1int) =~= ext);
}

/// A file name whose only dot, if any, is its first character gives no extension.
pub proof fn no_extension_without_inner_dot(path: Seq<char>, name: Seq<char>)
    requires
        spec_path_file_name(path) == Some(name),
        forall|i: int| 1 <= i < name.len() ==> name[i] != '.',
    ensures
        spec_path_extension(path) is None,
{
    lemma_last_index_at_most_first(name, '.');
}

/// A path without file name has no extension.
pub proof fn no_extension_without_file_name(path: Seq<char>)
    requires
        spec_path_file_name(path) is None,
    ensures
        spec_path_extension(path) is None,
{
}

/// Calls `std::path::Path::file_name`. Claimed: the result is the named final component;
/// it is always valid text, being part of valid text.
#[verifier::external_body]
pub(crate) fn path_file_name(path: &str) -> (r: Option<String>)
    ensures
        r.deep_view() == spec_path_file_name(path@),
{
    match std::path::Path::new(path).file_name() {
        Some(name) => Some(name.to_string_lossy().into_owned()),
        None => None,
    }
}

/// Calls `std::path::Path::extension`. Claimed: the result is the extension of the named
/// file name, as the documentation of `extension` states it.
#[verifier::external_body]
pub(crate) fn path_extension(path: &str) -> (r: Option<String>)
    ensures
        r.deep_view() == spec_path_extension(path@),
{
    match std::path::Path::new(path).extension() {
        Some(extension) => Some(extension.to_string_lossy().into_owned()),
        None => None,
    }
}

/// Calls `std::path::Path::parent`. Claimed: the result is the named parent.
#[verifier::external_body]
pub(crate) fn path_parent(path: &str) -> (r: Option<String>)
    ensures
        r.deep_view() == spec_path_parent(path@),
{
    match std::path::Path::new(path).parent() {
        Some(parent) => Some(parent.to_string_lossy().into_owned()),
        None => None,
    }
}

/// Calls `std::path::Path::join`. Claimed: the result is the named join of the two texts.
#[verifier::external_body]
pub(crate) fn path_join(base: &str, child: &str) -> (r: String)
    ensures
        r@ == spec_path_join(base@, child@),
{
    std::path::Path::new(base).join(child).to_string_lossy().into_owned()
}

/// Calls `std::path::Path::starts_with`. Claimed: the result is the named component-wise
/// prefix test.
#[verifier::external_body]
pub(crate) fn path_starts_with(path: &str, base: &str) -> (r: bool)
    ensures
        r == spec_path_starts_with(path@, base@),
{
    std::path::Path::new(path).starts_with(base)
}

/// The name under which a selection is shown: its file name, or a generic name.
pub open spec fn spec_display_name(path: Seq<char>) -> Seq<char> {
    match spec_path_file_name(path) {
        Some(name) => name,
        None => "HTML 壁纸"@,
    }
}

/// The name under which a selected wallpaper is shown while it runs.
pub fn display_name(path: &str) -> (r: String)
    ensures
        r@ == spec_display_name(path@),
{
    match path_file_name(path) {
        Some(name) => name,
        None => String::from_str("HTML 壁纸"),
    }
}

/// The name shown for a selection is its file name whenever it has one, and the
/// generic name otherwise.
pub proof fn display_name_is_file_name(path: Seq<char>)
    ensures
        spec_path_file_name(path) matches Some(name) ==> spec_display_name(path) == name,
        spec_path_file_name(path) is None ==> spec_display_name(path) == "HTML 壁纸"@,
{
}

/// What the manager reads of its environment to place its files: `APPDATA`,
/// `LOCALAPPDATA` where they are set, and the temporary directory.
pub struct Environment {
    pub appdata: Option<String>,
    pub local_appdata: Option<String>,
    pub temp_dir: String,
}

/// The directory that holds the manager's configuration and backup.
pub open spec fn spec_data_dir(env: Environment) -> Seq<char> {
    let base = match env.appdata {
        Some(dir) => dir@,
        None => env.temp_dir@,
    };
    spec_path_join(base, "effect"@)
}

/// The configuration file.
pub open spec fn spec_config_path(env: Environment) -> Seq<char> {
    spec_path_join(spec_data_dir(env), "config.json"@)
}

/// The file that holds the backup of the static wallpaper.
pub open spec fn spec_backup_path(env: Environment) -> Seq<char> {
    spec_path_join(spec_data_dir(env), "wallpaper-backup.json"@)
}

/// The directory for the web view's own data, before it is created and canonicalized.
pub open spec fn spec_webview_data_directory(env: Environment) -> Seq<char> {
    let base = match env.local_appdata {
        Some(dir) => dir@,
        None => match env.appdata {
            Some(dir) => dir@,
            None => env.temp_dir@,
        },
    };
    spec_path_join(spec_path_join(base, "effect"@), "webview2-user-data"@)
}

/// The directory that holds the manager's files: `effect` under `APPDATA`,
/// or under the temporary directory where `APPDATA` is not set.
pub fn data_dir(env: &Environment) -> (r: String)
    ensures
        r@ == spec_data_dir(*env),
{
    let base: &str = match &env.appdata {
        Some(dir) => dir.as_str(),
        None => env.temp_dir.as_str(),
    };
    path_join(base, "effect")
}

/// The configuration file, `config.json` in the data directory.
pub fn config_path(env: &Environment) -> (r: String)
    ensures
        r@ == spec_config_path(*env),
{
    let dir = data_dir(env);
    path_join(dir.as_str(), "config.json")
}

/// The wallpaper backup file, `wallpaper-backup.json` in the data directory.
pub fn backup_path(env: &Environment) -> (r: String)
    ensures
        r@ == spec_backup_path(*env),
{
    let dir = data_dir(env);
    path_join(dir.as_str(), "wallpaper-backup.json")
}

/// The web view's data directory: `effect\webview2-user-data` under `LOCALAPPDATA`,
/// else under `APPDATA`, else under the temporary directory.
pub fn webview_data_directory(env: &Environment) -> (r: String)
    ensures
        r@ == spec_webview_data_directory(*env),
{
    let base: &str = match &env.local_appdata {
        Some(dir) => dir.as_str(),
        None => match &env.appdata {
            Some(dir) => dir.as_str(),
            None => env.temp_dir.as_str(),
        },
    };
    let app_dir = path_join(base, "effect");
    path_join(app_dir.as_str(), "webview2-user-data")
}

} // verus!
