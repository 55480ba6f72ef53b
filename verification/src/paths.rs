use vstd::prelude::*;

verus! {

/// What `std::path::Path::strip_prefix` makes of `path` and `base`: the path
/// that, joined onto `base`, yields `path`, or nothing where `base` is no
/// prefix of `path`.
pub uninterp spec fn path_without_prefix(path: Seq<char>, base: Seq<char>) -> Option<Seq<char>>;

/// What `std::path::Path::join` makes of `base` and `path`: `path` adjoined to
/// `base`.
pub uninterp spec fn path_joined(base: Seq<char>, path: Seq<char>) -> Seq<char>;

/// What `std::path::Path::with_extension` makes of `path` and `extension`:
/// `path` with its extension replaced.
pub uninterp spec fn path_with_extension(path: Seq<char>, extension: Seq<char>) -> Seq<char>;

/// The text that an optional string holds.
pub open spec fn text_of(text: Option<String>) -> Option<Seq<char>> {
    match text {
        Some(held) => Some(held@),
        None => None,
    }
}

/// Calls `std::path::Path::strip_prefix` on paths given as text. Both paths
/// are valid UTF-8 and the rest is cut at a separator, so the conversion back
/// to text loses nothing. Nothing is claimed of the result but that it depends
/// on the two paths alone.
#[verifier::external_body]
pub(crate) fn strip_prefix(path: &str, base: &str) -> (rest: Option<String>)
    ensures
        text_of(rest) == path_without_prefix(path@, base@),
{
    match std::path::Path::new(path).strip_prefix(base) {
        Ok(rest) => Some(rest.to_string_lossy().into_owned()),
        Err(_) => None,
    }
}

/// Calls `std::path::Path::join` on paths given as text. Nothing is claimed of
/// the result but that it depends on the two paths alone.
#[verifier::external_body]
pub(crate) fn join(base: &str, path: &str) -> (joined: String)
    ensures
        joined@ == path_joined(base@, path@),
{
    std::path::Path::new(base).join(path).to_string_lossy().into_owned()
}

/// Whether `text` holds a character that separates the parts of a path, on
/// any platform.
pub open spec fn holds_separator(text: Seq<char>) -> bool {
    exists|i: int| 0 <= i < text.len() && (#[trigger] text[i] == '/' || text[i] == '\\')
}

/// Calls `std::path::Path::with_extension` on a path given as text. The call
/// panics on an extension that holds a path separator, so none is admitted.
/// Nothing is claimed of the result but that it depends on the path and the
/// extension alone.
#[verifier::external_body]
pub(crate) fn with_extension(path: &str, extension: &str) -> (named: String)
    requires
        !holds_separator(extension@),
    ensures
        named@ == path_with_extension(path@, extension@),
{
    std::path::Path::new(path).with_extension(extension).to_string_lossy().into_owned()
}

/// Asks `directories::BaseDirs::new` for the user's base directories and
/// returns two of them: the home directory and the directory for
/// configuration files. The answer comes from the environment of the process,
/// so nothing is claimed of it. A directory whose name is not valid UTF-8
/// comes back with the invalid parts replaced.
#[verifier::external_body]
pub(crate) fn base_directories() -> (found: Option<(String, String)>) {
    match directories::BaseDirs::new() {
        Some(dirs) => Some(
            (
                dirs.home_dir().to_string_lossy().into_owned(),
                dirs.config_dir().to_string_lossy().into_owned(),
            ),
        ),
        None => None,
    }
}

/// The home directory among the base directories `found`, which are the home
/// directory and the directory for configuration files, if any were found.
pub open spec fn home_among(found: Option<(String, String)>) -> Option<String> {
    match found {
        Some(pair) => Some(pair.0),
        None => None,
    }
}

/// Picks the home directory from the base directories that were found.
pub fn home_in(found: Option<(String, String)>) -> (home: Option<String>)
    ensures
        home == home_among(found),
{
    match found {
        Some(pair) => Some(pair.0),
        None => None,
    }
}

/// The user's home directory, where one can be found. Whether one is found,
/// and which, is for the environment of the process to say.
pub fn home_directory() -> (home: Option<String>) {
    home_in(base_directories())
}

} // verus!
