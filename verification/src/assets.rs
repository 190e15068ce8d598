//! The wallpaper's assets: which HTML entry and directory a selection names,
//! which files a request of the web view may receive, and their media types.
use vstd::prelude::*;
use crate::paths::{
    extension_is_after_last_dot, no_extension_without_inner_dot, path_extension, path_join,
    path_parent, path_starts_with, spec_path_extension, spec_path_file_name, spec_path_join,
    spec_path_parent, spec_path_starts_with,
};
use crate::text::{
    eq_ignore_ascii_case, htm_in_any_case, html_in_any_case, str_eq, str_eq_ignore_ascii_case,
    trim_start, trim_start_char,
};

verus! {

/// Why a selection cannot serve as a wallpaper.
pub enum SelectionError {
    /// A file that is not an HTML file was chosen.
    NotHtml,
    /// The directory that holds the chosen file cannot be told.
    NoParentDirectory,
    /// The entry is missing, is not a file, or lies outside the directory.
    MissingIndex,
}

impl SelectionError {
    /// The message shown for the error.
    pub fn message(&self) -> (r: &'static str)
        ensures
            r@ == match self {
                SelectionError::NotHtml => "请选择 HTML 文件或包含 index.html 的目录"@,
                SelectionError::NoParentDirectory => "无法确定 HTML 文件所在目录"@,
                SelectionError::MissingIndex => "所选目录中没有可用的 index.html"@,
            },
    {
        match self {
            SelectionError::NotHtml => "请选择 HTML 文件或包含 index.html 的目录",
            SelectionError::NoParentDirectory => "无法确定 HTML 文件所在目录",
            SelectionError::MissingIndex => "所选目录中没有可用的 index.html",
        }
    }
}

/// A file path names an HTML document when its extension is `html` or `htm`, in any case.
pub open spec fn is_html_path(path: Seq<char>) -> bool {
    match spec_path_extension(path) {
        Some(extension) => eq_ignore_ascii_case(extension, "html"@) || eq_ignore_ascii_case(
            extension,
            "htm"@,
        ),
        None => false,
    }
}

/// Whether a file path names an HTML document.
pub fn is_html(path: &str) -> (r: bool)
    ensures
        r == is_html_path(path@),
{
    match path_extension(path) {
        Some(extension) => str_eq_ignore_ascii_case(extension.as_str(), "html")
            || str_eq_ignore_ascii_case(extension.as_str(), "htm"),
        None => false,
    }
}

/// The directory that serves a wallpaper and the entry page inside it, before the
/// entry has been checked on disk.
pub struct Candidate {
    pub root: String,
    pub entry: String,
}

/// The candidate that a canonical selection names: a directory serves its
/// `index.html`; an HTML file is served from the directory that holds it.
pub open spec fn candidate_for(selection: Seq<char>, is_dir: bool) -> Result<
    (Seq<char>, Seq<char>),
    SelectionError,
> {
    if is_dir {
        Ok((selection, spec_path_join(selection, "index.html"@)))
    } else if !is_html_path(selection) {
        Err(SelectionError::NotHtml)
    } else {
        match spec_path_parent(selection) {
            Some(root) => Ok((root, selection)),
            None => Err(SelectionError::NoParentDirectory),
        }
    }
}

/// A directory whose files the wallpaper may load, and the page it opens first;
/// the page always lies inside the directory.
pub struct AssetSource {
    root: String,
    entry: String,
}

/// Where a request of the web view leads.
pub enum AssetLookup {
    /// The entry page itself, already canonical.
    Entry(String),
    /// A path under the directory, still to be canonicalized.
    Nested(String),
}

/// A file that may be served, and its media type.
pub struct Asset {
    pub path: String,
    pub mime: &'static str,
}

/// A request that leads outside the directory or to something that is not a file.
pub enum AssetError {
    Blocked,
}

impl AssetError {
    /// The message sent back for a blocked request.
    pub fn message(&self) -> (r: &'static str)
        ensures
            r@ == "blocked asset path"@,
    {
        "blocked asset path"
    }
}

/// The path that a request names, with its leading slashes removed.
pub open spec fn requested_part(request_path: Seq<char>) -> Seq<char> {
    trim_start_char(request_path, '/')
}

impl AssetSource {
    #[verifier::type_invariant]
    spec fn entry_inside_root(self) -> bool {
        spec_path_starts_with(self.entry@, self.root@)
    }

    /// The directory whose files the wallpaper may load.
    pub closed spec fn root_view(&self) -> Seq<char> {
        self.root@
    }

    /// The page that the wallpaper opens first.
    pub closed spec fn entry_view(&self) -> Seq<char> {
        self.entry@
    }

    /// The directory whose files the wallpaper may load.
    pub fn root(&self) -> (r: &str)
        ensures
            r@ == self.root_view(),
    {
        self.root.as_str()
    }

    /// The page that the wallpaper opens first; it always lies inside the directory.
    pub fn entry(&self) -> (r: &str)
        ensures
            r@ == self.entry_view(),
            spec_path_starts_with(r@, self.root_view()),
    {
        proof {
            use_type_invariant(self);
        }
        self.entry.as_str()
    }

    /// The first step from a selection, given its canonical path and whether it is a
    /// directory: the directory to serve and the entry that must then be checked.
    pub fn candidate(selection: String, is_dir: bool) -> (r: Result<Candidate, SelectionError>)
        ensures
            match (r, candidate_for(selection@, is_dir)) {
                (Ok(c), Ok((root, entry))) => c.root@ == root && c.entry@ == entry,
                (Err(e), Err(expected)) => e == expected,
                _ => false,
            },
    {
        if is_dir {
            let entry = path_join(selection.as_str(), "index.html");
            return Ok(Candidate { root: selection, entry });
        }
        if !is_html(selection.as_str()) {
            return Err(SelectionError::NotHtml);
        }
        match path_parent(selection.as_str()) {
            Some(root) => Ok(Candidate { root, entry: selection }),
            None => Err(SelectionError::NoParentDirectory),
        }
    }

    /// The last step from a selection: the candidate's entry, canonicalized, becomes the
    /// source's entry when it lies inside the directory and is a file.
    pub fn from_selection(root: String, entry: String, entry_is_file: bool) -> (r: Result<
        AssetSource,
        SelectionError,
    >)
        ensures
            spec_path_starts_with(entry@, root@) && entry_is_file ==> (r matches Ok(source)
                && source.root_view() == root@ && source.entry_view() == entry@),
            !(spec_path_starts_with(entry@, root@) && entry_is_file) ==> r matches Err(
                SelectionError::MissingIndex,
            ),
    {
        if !path_starts_with(entry.as_str(), root.as_str()) || !entry_is_file {
            return Err(SelectionError::MissingIndex);
        }
        Ok(AssetSource { root, entry })
    }

    /// Where a request for `request_path` leads: the entry for the bare root and for
    /// `index.html`, else that path under the directory.
    pub fn resolve(&self, request_path: &str) -> (r: AssetLookup)
        ensures
            ({
                let part = requested_part(request_path@);
                if part.len() == 0 || part == "index.html"@ {
                    r matches AssetLookup::Entry(path) && path@ == self.entry_view()
                } else {
                    r matches AssetLookup::Nested(path) && path@ == spec_path_join(
                        self.root_view(),
                        part,
                    )
                }
            }),
    {
        let part = trim_start(request_path, '/');
        if part.is_empty() || str_eq(part, "index.html") {
            AssetLookup::Entry(self.entry.clone())
        } else {
            AssetLookup::Nested(path_join(self.root.as_str(), part))
        }
    }

    /// Decides whether a canonical path may be served: only a file inside the directory.
    pub fn serve(&self, path: String, is_file: bool) -> (r: Result<Asset, AssetError>)
        ensures
            spec_path_starts_with(path@, self.root_view()) && is_file ==> (r matches Ok(asset)
                && asset.path == path && asset.mime@ == spec_mime_type(path@)),
            !(spec_path_starts_with(path@, self.root_view()) && is_file) ==> r is Err,
    {
        if !path_starts_with(path.as_str(), self.root.as_str()) || !is_file {
            return Err(AssetError::Blocked);
        }
        let mime = mime_type(path.as_str());
        Ok(Asset { path, mime })
    }
}

/// The media type sent for a file with the given extension; extensions match exactly.
pub open spec fn mime_for(extension: Option<Seq<char>>) -> Seq<char> {
    match extension {
        Some(e) => if e == "html"@ || e == "htm"@ {
            "text/html; charset=utf-8"@
        } else if e == "css"@ {
            "text/css; charset=utf-8"@
        } else if e == "js"@ || e == "mjs"@ {
            "text/javascript; charset=utf-8"@
        } else if e == "json"@ {
            "application/json; charset=utf-8"@
        } else if e == "png"@ {
            "image/png"@
        } else if e == "jpg"@ || e == "jpeg"@ {
            "image/jpeg"@
        } else if e == "gif"@ {
            "image/gif"@
        } else if e == "svg"@ {
            "image/svg+xml"@
        } else if e == "webp"@ {
            "image/webp"@
        } else if e == "woff"@ {
            "font/woff"@
        } else if e == "woff2"@ {
            "font/woff2"@
        } else if e == "ttf"@ {
            "font/ttf"@
        } else if e == "mp3"@ {
            "audio/mpeg"@
        } else if e == "mp4"@ {
            "video/mp4"@
        } else {
            "application/octet-stream"@
        },
        None => "application/octet-stream"@,
    }
}

/// The media type sent for a path.
pub open spec fn spec_mime_type(path: Seq<char>) -> Seq<char> {
    mime_for(spec_path_extension(path))
}

/// The media type sent for a file with the given extension.
pub fn mime_for_extension(extension: Option<&str>) -> (r: &'static str)
    ensures
        r@ == mime_for(extension.deep_view()),
{
    match extension {
        Some(e) => if str_eq(e, "html") || str_eq(e, "htm") {
            "text/html; charset=utf-8"
        } else if str_eq(e, "css") {
            "text/css; charset=utf-8"
        } else if str_eq(e, "js") || str_eq(e, "mjs") {
            "text/javascript; charset=utf-8"
        } else if str_eq(e, "json") {
            "application/json; charset=utf-8"
        } else if str_eq(e, "png") {
            "image/png"
        } else if str_eq(e, "jpg") || str_eq(e, "jpeg") {
            "image/jpeg"
        } else if str_eq(e, "gif") {
            "image/gif"
        } else if str_eq(e, "svg") {
            "image/svg+xml"
        } else if str_eq(e, "webp") {
            "image/webp"
        } else if str_eq(e, "woff") {
            "font/woff"
        } else if str_eq(e, "woff2") {
            "font/woff2"
        } else if str_eq(e, "ttf") {
            "font/ttf"
        } else if str_eq(e, "mp3") {
            "audio/mpeg"
        } else if str_eq(e, "mp4") {
            "video/mp4"
        } else {
            "application/octet-stream"
        },
        None => "application/octet-stream",
    }
}

/// The media type sent for a path, by its extension.
pub fn mime_type(path: &str) -> (r: &'static str)
    ensures
        r@ == spec_mime_type(path@),
{
    match path_extension(path) {
        Some(extension) => mime_for_extension(Some(extension.as_str())),
        None => mime_for_extension(None),
    }
}

/// An extension spelled `html` or `htm`, each letter in either case.
pub open spec fn spells_html(e: Seq<char>) -> bool {
    &&& e.len() == 3 || e.len() == 4
    &&& e[0] == 'h' || e[0] == 'H'
    &&& e[1] == 't' || e[1] == 'T'
    &&& e[2] == 'm' || e[2] == 'M'
    &&& e.len() == 4 ==> (e[3] == 'l' || e[3] == 'L')
}

/// A file name made of a non-empty stem, a dot, and an extension without dots.
pub open spec fn named_with_extension(path: Seq<char>, stem: Seq<char>, ext: Seq<char>) -> bool {
    &&& spec_path_file_name(path) == Some(stem + seq!['.'] + ext)
    &&& stem.len() > 0
    &&& forall|i: int| 0 <= i < ext.len() ==> ext[i] != '.'
    &&& stem + seq!['.'] + ext != seq!['.', '.']
}

/// A file name with no dot after its first character.
pub open spec fn named_without_extension(path: Seq<char>) -> bool {
    exists|name: Seq<char>|
        spec_path_file_name(path) == Some(name) && forall|i: int|
            1 <= i < name.len() ==> name[i] != '.'
}

/// A path names an HTML document exactly when the part of its file name after the last
/// dot spells `html` or `htm` in any mix of cases.
pub proof fn html_by_last_extension(path: Seq<char>, stem: Seq<char>, ext: Seq<char>)
    requires
        named_with_extension(path, stem, ext),
    ensures
        is_html_path(path) == spells_html(ext),
{
    extension_is_after_last_dot(path, stem, ext);
    html_in_any_case(ext);
    htm_in_any_case(ext);
}

/// A path whose file name has no dot after its first character, or no file name at all,
/// is not an HTML document.
pub proof fn no_html_without_extension(path: Seq<char>)
    requires
        named_without_extension(path) || spec_path_file_name(path) is None,
    ensures
        !is_html_path(path),
{
    if named_without_extension(path) {
        let name = choose|name: Seq<char>|
            spec_path_file_name(path) == Some(name) && forall|i: int|
                1 <= i < name.len() ==> name[i] != '.';
        no_extension_without_inner_dot(path, name);
    }
}

/// A chosen file whose last extension spells `html` or `htm`, in any case, is served from
/// the directory that holds it, with itself as the entry; any other chosen file is refused
/// as not HTML.
pub proof fn file_selection_by_extension(selection: Seq<char>, stem: Seq<char>, ext: Seq<char>)
    requires
        named_with_extension(selection, stem, ext),
    ensures
        spells_html(ext) && spec_path_parent(selection) is Some ==> candidate_for(selection, false)
            == Ok::<(Seq<char>, Seq<char>), SelectionError>(
            (spec_path_parent(selection)->0, selection),
        ),
        !spells_html(ext) ==> candidate_for(selection, false) == Err::<
            (Seq<char>, Seq<char>),
            SelectionError,
        >(SelectionError::NotHtml),
{
    html_by_last_extension(selection, stem, ext);
}

/// A chosen directory is served whole, with its `index.html` as the entry.
pub proof fn directory_selection_serves_index(selection: Seq<char>)
    ensures
        candidate_for(selection, true) == Ok::<(Seq<char>, Seq<char>), SelectionError>(
            (selection, spec_path_join(selection, "index.html"@)),
        ),
{
}

/// The media type of a file follows the part of its name after the last dot.
pub proof fn mime_follows_last_extension(path: Seq<char>, stem: Seq<char>, ext: Seq<char>)
    requires
        named_with_extension(path, stem, ext),
    ensures
        spec_mime_type(path) == mime_for(Some(ext)),
{
    extension_is_after_last_dot(path, stem, ext);
}

/// A file without extension is sent as a plain byte stream.
pub proof fn no_extension_is_octet_stream(path: Seq<char>)
    requires
        named_without_extension(path) || spec_path_file_name(path) is None,
    ensures
        spec_mime_type(path) == "application/octet-stream"@,
{
    if named_without_extension(path) {
        let name = choose|name: Seq<char>|
            spec_path_file_name(path) == Some(name) && forall|i: int|
                1 <= i < name.len() ==> name[i] != '.';
        no_extension_without_inner_dot(path, name);
    }
}

/// Scripts, whatever their name before the last dot (`three.min.js` too), are sent as
/// JavaScript, and pages as HTML.
pub proof fn scripts_and_pages(path: Seq<char>, stem: Seq<char>, ext: Seq<char>)
    requires
        named_with_extension(path, stem, ext),
    ensures
        ext == seq!['j', 's'] || ext == seq!['m', 'j', 's'] ==> spec_mime_type(path)
            == "text/javascript; charset=utf-8"@,
        ext == seq!['h', 't', 'm', 'l'] || ext == seq!['h', 't', 'm'] ==> spec_mime_type(path)
            == "text/html; charset=utf-8"@,
{
    extension_is_after_last_dot(path, stem, ext);
    reveal_strlit("html");
    reveal_strlit("htm");
    reveal_strlit("css");
    reveal_strlit("js");
    reveal_strlit("mjs");
    assert("html"@ =~= seq!['h', 't', 'm', 'l']);
    assert("htm"@ =~= seq!['h', 't', 'm']);
    assert("js"@ =~= seq!['j', 's']);
    assert("mjs"@ =~= seq!['m', 'j', 's']);
    assert("css"@ =~= seq!['c', 's', 's']);
    if ext == seq!['j', 's'] {
        assert(ext != "html"@ && ext != "htm"@ && ext != "css"@);
    }
    if ext == seq!['m', 'j', 's'] {
        assert(ext[0] != "htm"@[0]);
        assert(ext != "html"@ && ext != "htm"@ && ext != "css"@ && ext != "js"@);
    }
}

} // verus!
