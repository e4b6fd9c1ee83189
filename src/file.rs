//! Path handling: home and variable expansion, absolute paths, and the pieces of a path that
//! the rules look at (file name, stem, extension, parent directory).

use vstd::prelude::*;

use std::path::Path;
use std::path::PathBuf;

use path_absolutize::Absolutize;

use crate::text::concat;
use crate::text::ends_with;
use crate::text::seq_ends_with;
use crate::text::trim_slash;

verus! {

/// The last component of a path, as `Path::file_name` gives it.
pub uninterp spec fn file_name_of(p: Seq<char>) -> Option<Seq<char>>;

/// Index of the last `.` in `n`, or `-1`.
pub open spec fn last_dot(n: Seq<char>) -> int
    decreases n.len(),
{
    if n.len() == 0 {
        -1
    } else if n.last() == '.' {
        n.len() - 1
    } else {
        last_dot(n.drop_last())
    }
}

/// A file name split into stem and extension at its last `.`: no extension where the name has no
/// `.`, where its only `.` is its first character, or where it is `..`.
pub open spec fn split_at_dot(n: Seq<char>) -> (Seq<char>, Option<Seq<char>>) {
    let k = last_dot(n);
    if k <= 0 || n == seq!['.', '.'] {
        (n, None)
    } else {
        (n.subrange(0, k), Some(n.subrange(k + 1, n.len() as int)))
    }
}

/// The file name without its extension, as `Path::file_stem` gives it.
pub open spec fn file_stem_of(p: Seq<char>) -> Option<Seq<char>> {
    match file_name_of(p) {
        Some(n) => Some(split_at_dot(n).0),
        None => None,
    }
}

/// The extension without its dot, as `Path::extension` gives it.
pub open spec fn extension_of(p: Seq<char>) -> Option<Seq<char>> {
    match file_name_of(p) {
        Some(n) => split_at_dot(n).1,
        None => None,
    }
}

/// The path without its last component, as `Path::parent` gives it.
pub uninterp spec fn parent_of(p: Seq<char>) -> Option<Seq<char>>;

/// `p` joined onto `base`, as `Path::join` gives it.
pub uninterp spec fn joined_of(base: Seq<char>, p: Seq<char>) -> Seq<char>;

/// The path with its file name replaced, as `Path::with_file_name` gives it.
pub uninterp spec fn with_file_name_of(p: Seq<char>, name: Seq<char>) -> Seq<char>;

/// A single normal path component: not empty, no `/`, and neither `.` nor `..`.
pub open spec fn is_component(n: Seq<char>) -> bool {
    &&& n.len() > 0
    &&& !n.contains('/')
    &&& n != seq!['.']
    &&& n != seq!['.', '.']
}

/// The file name of a path, or nothing.
pub open spec fn name_or_empty(p: Seq<char>) -> Seq<char> {
    match file_name_of(p) {
        Some(n) => n,
        None => Seq::<char>::empty(),
    }
}

/// A path that starts at the root directory.
pub open spec fn is_rooted(p: Seq<char>) -> bool {
    p.len() > 0 && p[0] == '/'
}

/// After the `/` at index `i` of `p` comes a component that is neither empty, `.` nor `..`.
pub open spec fn plain_component_after(p: Seq<char>, i: int) -> bool {
    &&& i + 1 < p.len() && p[i + 1] != '/'
    &&& !(p[i + 1] == '.' && (i + 2 == p.len() || p[i + 2] == '/'))
    &&& !(p[i + 1] == '.' && i + 2 < p.len() && p[i + 2] == '.' && (i + 3 == p.len() || p[i + 3] == '/'))
}

/// An absolute path already in normal form: rooted, and each `/` followed by a component that is
/// neither empty, `.` nor `..` (so no repeated and no trailing slash).
pub open spec fn plain_absolute(p: Seq<char>) -> bool {
    &&& is_rooted(p)
    &&& forall|i: int| 0 <= i < p.len() && #[trigger] p[i] == '/' ==> plain_component_after(p, i)
}

/// What holds of every result of making `file` absolute: a result is rooted, and in lexical
/// mode an absolute path in normal form without variables comes back as it is.
pub open spec fn fullpath_outcome(file: Seq<char>, canonicalize_links: bool, r: Option<Seq<char>>) -> bool {
    &&& r matches Some(c) ==> is_rooted(c)
    &&& !canonicalize_links && plain_absolute(file) && !file.contains('$') && r is Some ==> r->0 == file
}

/// A path that `shellexpand::tilde` rewrites when a home directory is known: `~` alone, or `~/`
/// at the start.
pub open spec fn has_home_prefix(p: Seq<char>) -> bool {
    p.len() > 0 && p[0] == '~' && (p.len() == 1 || p[1] == '/')
}

/// Relies on `Path::file_name`, whose result depends on the path text alone: the file name that
/// `endswith` extends.
#[verifier::external_body]
fn path_file_name(p: &str) -> (r: Option<String>)
    ensures
        r.deep_view() == file_name_of(p@),
{
    Path::new(p).file_name().map(|n| n.to_string_lossy().into_owned())
}

/// Relies on `Path::file_stem`: none without a file name; otherwise, as its documentation says,
/// the whole file name where it has no embedded `.` or begins with `.` and has no other, else the
/// part before the final `.`.
#[verifier::external_body]
pub(crate) fn path_file_stem(p: &str) -> (r: Option<String>)
    ensures
        r.deep_view() == file_stem_of(p@),
{
    Path::new(p).file_stem().map(|n| n.to_string_lossy().into_owned())
}

/// Relies on `Path::extension`: as its documentation says, none without a file name, without an
/// embedded `.`, or where the file name begins with `.` and has no other; else the part after the
/// final `.`.
#[verifier::external_body]
pub(crate) fn path_extension(p: &str) -> (r: Option<String>)
    ensures
        r.deep_view() == extension_of(p@),
{
    Path::new(p).extension().map(|n| n.to_string_lossy().into_owned())
}

/// Relies on `Path::parent`, whose result depends on the path text alone: the directory that
/// directory rules match.
#[verifier::external_body]
pub(crate) fn path_parent(p: &str) -> (r: Option<String>)
    ensures
        r.deep_view() == parent_of(p@),
{
    Path::new(p).parent().map(|n| n.to_string_lossy().into_owned())
}

/// Relies on `Path::join` to put a core path below its directory; its documentation says that an
/// absolute path replaces the base.
#[verifier::external_body]
fn path_join(base: &str, p: &str) -> (r: String)
    ensures
        r@ == joined_of(base@, p@),
        is_rooted(p@) ==> r@ == p@,
{
    Path::new(base).join(p).to_string_lossy().into_owned()
}

/// Relies on `Path::with_file_name`, whose result depends on the path text alone: the path with
/// the extended file name.  Its documentation (`PathBuf::set_file_name`) says that the file name
/// becomes `name`, which holds for a name that is one normal component.
#[verifier::external_body]
fn path_with_file_name(p: &str, name: &str) -> (r: String)
    ensures
        r@ == with_file_name_of(p@, name@),
        is_component(name@) ==> file_name_of(r@) == Some(name@),
{
    Path::new(p).with_file_name(name).to_string_lossy().into_owned()
}

/// Relies on `shellexpand::tilde`: a leading `~` (alone or before `/`) becomes the home
/// directory when one is known; anything else is returned as it is.
#[verifier::external_body]
fn expand_home(p: &str) -> (r: String)
    ensures
        !has_home_prefix(p@) ==> r@ == p@,
        has_home_prefix(p@) ==> seq_ends_with(r@, p@.drop_first()),
{
    shellexpand::tilde(p).into_owned()
}

/// Relies on `shellexpand::full`: home and environment variable expansion; it fails on an
/// unknown variable, and returns an input without `$` and without a leading `~` as it is.
#[verifier::external_body]
fn expand_full(p: &str) -> (r: Option<String>)
    ensures
        !p@.contains('$') && !(p@.len() > 0 && p@[0] == '~') ==> r.deep_view() == Some(p@),
{
    shellexpand::full(p).ok().map(|s| s.into_owned())
}

/// Relies on `path_absolutize::Absolutize::absolutize`, which first reads the working directory
/// and fails whenever that cannot be read.  A result starts at the root (a rooted path keeps its
/// root, a relative one is put below the absolute working directory), and a rooted path with no
/// empty, `.` or `..` component and no trailing slash comes back as it is.
#[verifier::external_body]
fn absolutize(p: &str) -> (r: Option<String>)
    ensures
        r matches Some(a) ==> is_rooted(a@),
        plain_absolute(p@) && r is Some ==> r.deep_view() == Some(p@),
{
    Path::new(p).absolutize().ok().map(|a| a.to_string_lossy().into_owned())
}

/// Relies on `Path::canonicalize`, which reads the file system and returns the canonical,
/// absolute form of an existing path.
#[verifier::external_body]
fn canonicalize(p: &str) -> (r: Option<String>)
    ensures
        r matches Some(c) ==> is_rooted(c@),
{
    Path::new(p).canonicalize().ok().and_then(|c: PathBuf| c.into_os_string().into_string().ok())
}

/// Relies on `Path::exists`, which reads the file system.
#[verifier::external_body]
pub(crate) fn path_exists(p: &str) -> (r: bool)
{
    Path::new(p).exists()
}

/// Expands `~` and environment variables and makes the path absolute.  With `canonicalize` the
/// file must exist and symbolic links are resolved; otherwise the path is made absolute
/// lexically.  `None` where expansion or resolution fails.
pub fn to_fullpath(file: &str, canonicalize_links: bool) -> (r: Option<String>)
    ensures
        fullpath_outcome(file@, canonicalize_links, r.deep_view()),
{
    match expand_full(file) {
        Some(path) => {
            if canonicalize_links {
                canonicalize(&path)
            } else {
                absolutize(&path)
            }
        },
        None => None,
    }
}

/// Expands a leading `~` to the home directory.
pub fn tilde(file: &str) -> (r: String)
    ensures
        !has_home_prefix(file@) ==> r@ == file@,
        has_home_prefix(file@) ==> seq_ends_with(r@, file@.drop_first()),
{
    expand_home(file)
}

/// The path as a string; an absent path is the empty string.
pub fn to_str(file: Option<&String>) -> (r: String)
    ensures
        r@ == match file {
            Some(p) => p@,
            None => Seq::<char>::empty(),
        },
{
    match file {
        Some(path) => path.clone(),
        None => String::new(),
    }
}

/// The path with `suffix` added to its file name, unless the file name already ends with it.
pub open spec fn with_suffix(suffix: Seq<char>, file: Seq<char>) -> Seq<char> {
    let name = name_or_empty(file);
    if suffix.len() == 0 || seq_ends_with(name, suffix) {
        file
    } else {
        with_file_name_of(file, name + suffix)
    }
}

/// Adds `suffix` to the file name (extension included) when the file name does not already end
/// with it.  Adding it again changes nothing, where the extended file name is one normal
/// component.
pub fn endswith(suffix: &str, file: String) -> (r: String)
    ensures
        r@ == with_suffix(suffix@, file@),
        is_component(name_or_empty(file@) + suffix@) ==> with_suffix(suffix@, r@) == r@,
{
    if suffix.unicode_len() == 0 {
        return file;
    }
    let filename = match path_file_name(&file) {
        Some(n) => n,
        None => String::new(),
    };
    if ends_with(&filename, suffix) {
        file
    } else {
        let name = concat(&filename, suffix);
        let r = path_with_file_name(&file, &name);
        proof {
            let m = name@;
            assert(m.subrange(m.len() - suffix@.len(), m.len() as int) =~= suffix@);
        }
        r
    }
}

/// Removes one trailing slash, if there is one.
pub fn trim_last_slash(path: String) -> (r: String)
    ensures
        r@ == trim_slash(path@),
{
    let n: usize = path.as_str().unicode_len();
    if n > 0 && path.as_str().get_char(n - 1) == '/' {
        path.as_str().substring_char(0, n - 1).to_owned()
    } else {
        path
    }
}

/// The path of a core before it is made absolute, with `suffix` added to its file name: an
/// absolute core path as it is, a relative one joined onto the directory (or alone without one).
pub open spec fn core_candidate(directory: Option<Seq<char>>, libretro: Seq<char>, suffix: Seq<char>) -> Seq<char> {
    let base = match directory {
        Some(d) => d,
        None => Seq::<char>::empty(),
    };
    if is_rooted(libretro) {
        with_suffix(suffix, libretro)
    } else {
        with_suffix(suffix, joined_of(base, libretro))
    }
}

/// Joins an expanded core directory and an expanded core path and adds `suffix` to the file name.
pub fn core_path_candidate(directory: Option<String>, libretro: String, suffix: &str) -> (r: String)
    ensures
        r@ == core_candidate(directory.deep_view(), libretro@, suffix@),
{
    let base = match directory {
        Some(d) => d,
        None => String::new(),
    };
    let joined = path_join(&base, &libretro);
    endswith(suffix, joined)
}

/// An absolute core path does not depend on the directory it is combined with.
pub proof fn lemma_absolute_core_ignores_directory(
    d1: Option<Seq<char>>,
    d2: Option<Seq<char>>,
    libretro: Seq<char>,
    suffix: Seq<char>,
)
    requires
        is_rooted(libretro),
    ensures
        core_candidate(d1, libretro, suffix) == core_candidate(d2, libretro, suffix),
        core_candidate(d1, libretro, suffix) == with_suffix(suffix, libretro),
{
}

} // verus!
