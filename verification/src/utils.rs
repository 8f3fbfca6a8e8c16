//! Host facts and path resolution: tilde expansion and making a path absolute.
//!
//! Paths are texts with `/` as their separator. Nothing here touches the
//! filesystem, and no path is canonicalised.

use vstd::prelude::*;
use vstd::string::{StrSliceExecFns, StringExecFns};
use crate::OperatingSystem;
use crate::error::{DotmanError, DotmanErrorView};
use crate::config::{Execution, ExecutionView};
use crate::protocol::SymlinkKind;
use crate::text::{owned, same_text};

verus! {

/// The text of an optional string slice.
pub open spec fn opt_text(s: Option<&str>) -> Option<Seq<char>> {
    match s {
        Some(t) => Some(t@),
        None => None,
    }
}

/// A path is absolute when it starts at the root.
pub open spec fn is_absolute(path: Seq<char>) -> bool {
    path.len() > 0 && path[0] == '/'
}

/// Whether a path starts with the home token `~`.
pub open spec fn has_tilde(path: Seq<char>) -> bool {
    path.len() > 0 && path[0] == '~'
}

/// `path` without the slashes it starts with.
pub open spec fn skip_slashes(path: Seq<char>) -> Seq<char>
    decreases path.len(),
{
    if path.len() > 0 && path[0] == '/' {
        skip_slashes(path.drop_first())
    } else {
        path
    }
}

/// `rel` taken relative to `base`: an absolute `rel` stands alone; otherwise
/// it follows `base`, with one separator between them unless `base` is empty
/// or already ends in one.
pub open spec fn join(base: Seq<char>, rel: Seq<char>) -> Seq<char> {
    if is_absolute(rel) {
        rel
    } else if base.len() == 0 || base.last() == '/' {
        base + rel
    } else {
        base + seq!['/'] + rel
    }
}

/// Tilde expansion: a path that starts with `~` has that token replaced by the
/// home directory, the slashes that follow the token being consumed; any other
/// path stays as it is. There is no expansion without a home directory.
pub open spec fn expanded(path: Seq<char>, home: Option<Seq<char>>) -> Option<Seq<char>> {
    if has_tilde(path) {
        match home {
            Some(h) => Some(join(h, skip_slashes(path.drop_first()))),
            None => None,
        }
    } else {
        Some(path)
    }
}

/// A path made absolute: unchanged if it is absolute, else taken relative to
/// the working directory.
pub open spec fn absolute(path: Seq<char>, cwd: Seq<char>) -> Seq<char> {
    if is_absolute(path) {
        path
    } else {
        join(cwd, path)
    }
}

/// The working directory as the driver found it: its path, or why it could
/// not be had.
pub open spec fn cwd_text(cwd: Result<String, String>) -> Result<Seq<char>, Seq<char>> {
    match cwd {
        Ok(dir) => Ok(dir@),
        Err(why) => Err(why@),
    }
}

/// A path resolved for use: tilde-expanded, then made absolute.
pub open spec fn resolved(
    path: Seq<char>,
    home: Option<Seq<char>>,
    cwd: Result<Seq<char>, Seq<char>>,
) -> Result<Seq<char>, DotmanErrorView> {
    match expanded(path, home) {
        None => Err(DotmanErrorView::NoHomeDirectory),
        Some(p) => if is_absolute(p) {
            Ok(p)
        } else {
            match cwd {
                Ok(dir) => Ok(join(dir, p)),
                Err(why) => Err(DotmanErrorView::IoError(why)),
            }
        },
    }
}

/// A path after `skip_slashes` does not start with a slash.
pub proof fn lemma_skip_slashes_relative(path: Seq<char>)
    ensures
        !is_absolute(skip_slashes(path)),
    decreases path.len(),
{
    if path.len() > 0 && path[0] == '/' {
        lemma_skip_slashes_relative(path.drop_first());
    }
}

/// Whether a path starts with `~`.
pub fn starts_with_tilde(path: &str) -> (tilde: bool)
    ensures
        tilde == has_tilde(path@),
{
    path.unicode_len() > 0 && path.get_char(0) == '~'
}

/// The optional string as an optional slice.
pub fn as_text(s: &Option<String>) -> (t: Option<&str>)
    ensures
        opt_text(t) == match *s {
            Some(x) => Some(x@),
            None => None,
        },
{
    match s {
        Some(x) => Some(x.as_str()),
        None => None,
    }
}

/// Joins two paths as `join` says.
pub fn join_paths(base: &str, rel: &str) -> (joined: String)
    ensures
        joined@ == join(base@, rel@),
{
    let rel_len = rel.unicode_len();
    if rel_len > 0 && rel.get_char(0) == '/' {
        return owned(rel);
    }
    let base_len = base.unicode_len();
    let mut joined = owned(base);
    if base_len > 0 && base.get_char(base_len - 1) != '/' {
        proof {
            reveal_strlit("/");
            assert("/"@ =~= seq!['/']);
        }
        joined.append("/");
    }
    joined.append(rel);
    joined
}

/// Expands a leading `~` to the home directory.
///
/// Fails with `NoHomeDirectory` exactly when the path starts with `~` and
/// there is no home directory.
pub fn expand_tilde(path: &str, home: Option<&str>) -> (out: Result<String, DotmanError>)
    ensures
        match expanded(path@, opt_text(home)) {
            Some(p) => out is Ok && out->Ok_0@ == p,
            None => out is Err && out->Err_0@ == DotmanErrorView::NoHomeDirectory,
        },
{
    if !starts_with_tilde(path) {
        return Ok(owned(path));
    }
    let len = path.unicode_len();
    match home {
        None => Err(DotmanError::NoHomeDirectory),
        Some(h) => {
            let mut start: usize = 1;
            assert(path@.skip(1) =~= path@.drop_first());
            while start < len && path.get_char(start) == '/'
                invariant
                    1 <= start <= len,
                    len == path@.len(),
                    skip_slashes(path@.drop_first()) == skip_slashes(path@.skip(start as int)),
                decreases len - start,
            {
                assert(path@.skip(start as int).drop_first() =~= path@.skip(start + 1));
                start += 1;
            }
            let rest = path.substring_char(start, len);
            assert(rest@ =~= path@.skip(start as int));
            Ok(join_paths(h, rest))
        },
    }
}

/// Makes a path absolute against the working directory.
///
/// The working directory matters only for a relative path; if it could not be
/// had, a relative path fails with `IoError` carrying the cause.
pub fn make_absolute(path: &str, cwd: &Result<String, String>) -> (out: Result<
    String,
    DotmanError,
>)
    ensures
        is_absolute(path@) ==> out is Ok && out->Ok_0@ == path@,
        !is_absolute(path@) ==> match *cwd {
            Ok(dir) => out is Ok && out->Ok_0@ == join(dir@, path@),
            Err(why) => out is Err && out->Err_0@ == DotmanErrorView::IoError(why@),
        },
{
    let len = path.unicode_len();
    if len > 0 && path.get_char(0) == '/' {
        return Ok(owned(path));
    }
    match cwd {
        Ok(dir) => Ok(join_paths(dir.as_str(), path)),
        Err(why) => Err(DotmanError::IoError(why.clone())),
    }
}

/// Resolves a path of the configuration: tilde expansion, then making it
/// absolute. Both a link's source and its target go through this before
/// anything is asked of the filesystem.
pub fn resolve(path: &str, home: Option<&str>, cwd: &Result<String, String>) -> (out: Result<
    String,
    DotmanError,
>)
    ensures
        match resolved(path@, opt_text(home), cwd_text(*cwd)) {
            Ok(p) => out is Ok && out->Ok_0@ == p,
            Err(e) => out is Err && out->Err_0@ == e,
        },
{
    match expand_tilde(path, home) {
        Err(e) => Err(e),
        Ok(p) => make_absolute(p.as_str(), cwd),
    }
}

/// A path that starts with `~/` expands to the home directory followed by
/// what stands after the slashes, with exactly one separator between the two:
/// the one the home directory ends with, or else one that is put in. What
/// follows the separator does not start with another.
pub proof fn lemma_expand_tilde_slash(path: Seq<char>, home: Seq<char>)
    requires
        path.len() >= 2,
        path[0] == '~',
        path[1] == '/',
        home.len() > 0,
    ensures
        ({
            let rest = skip_slashes(path.skip(2));
            &&& !is_absolute(rest)
            &&& home.last() != '/' ==> expanded(path, Some(home)) == Some(home + seq!['/'] + rest)
            &&& home.last() == '/' ==> expanded(path, Some(home)) == Some(home + rest)
        }),
{
    assert(path.drop_first().drop_first() =~= path.skip(2));
    lemma_skip_slashes_relative(path.skip(2));
}

/// A path that does not start with `~` expands to itself, with or without a
/// home directory.
pub proof fn lemma_expand_without_tilde(path: Seq<char>, home: Option<Seq<char>>)
    requires
        !has_tilde(path),
    ensures
        expanded(path, home) == Some(path),
{
}

/// Expands a leading `~` in a path to the home directory.
pub trait ExpandTilde {
    /// The path as text.
    spec fn path_text(&self) -> Seq<char>;

    /// Expands a path starting with `~` to the user's home directory. A path
    /// that does not start with `~` is returned as it is.
    fn expand_tilde_path(&self, home: Option<&str>) -> (out: Result<String, DotmanError>)
        ensures
            match expanded(self.path_text(), opt_text(home)) {
                Some(p) => out is Ok && out->Ok_0@ == p,
                None => out is Err && out->Err_0@ == DotmanErrorView::NoHomeDirectory,
            },
    ;
}

impl ExpandTilde for String {
    open spec fn path_text(&self) -> Seq<char> {
        self@
    }

    fn expand_tilde_path(&self, home: Option<&str>) -> (out: Result<String, DotmanError>) {
        expand_tilde(self.as_str(), home)
    }
}

impl ExpandTilde for &str {
    open spec fn path_text(&self) -> Seq<char> {
        self@
    }

    fn expand_tilde_path(&self, home: Option<&str>) -> (out: Result<String, DotmanError>) {
        expand_tilde(*self, home)
    }
}

/// Converts a relative path to an absolute one.
pub trait Absolute {
    /// The path as text.
    spec fn relative_text(&self) -> Seq<char>;

    /// Converts a relative path to an absolute path based on the working
    /// directory. An absolute path is returned as it is.
    fn absolute(&self, cwd: &Result<String, String>) -> (out: Result<String, DotmanError>)
        ensures
            is_absolute(self.relative_text()) ==> out is Ok && out->Ok_0@ == self.relative_text(),
            !is_absolute(self.relative_text()) ==> match *cwd {
                Ok(dir) => out is Ok && out->Ok_0@ == join(dir@, self.relative_text()),
                Err(why) => out is Err && out->Err_0@ == DotmanErrorView::IoError(why@),
            },
    ;
}

impl Absolute for String {
    open spec fn relative_text(&self) -> Seq<char> {
        self@
    }

    fn absolute(&self, cwd: &Result<String, String>) -> (out: Result<String, DotmanError>) {
        make_absolute(self.as_str(), cwd)
    }
}

impl Absolute for &str {
    open spec fn relative_text(&self) -> Seq<char> {
        self@
    }

    fn absolute(&self, cwd: &Result<String, String>) -> (out: Result<String, DotmanError>) {
        make_absolute(*self, cwd)
    }
}

/// The operating system a host reports under `name`, if it is a supported one.
pub open spec fn os_named(name: Seq<char>) -> Option<OperatingSystem> {
    if name == "linux"@ {
        Some(OperatingSystem::Linux)
    } else if name == "macos"@ {
        Some(OperatingSystem::MacOS)
    } else if name == "windows"@ {
        Some(OperatingSystem::Windows)
    } else {
        None
    }
}

/// Tells the operating system from the name the host reports for it.
///
/// Fails with `UnsupportedHost`, carrying the name, exactly when the name is
/// none of `linux`, `macos` and `windows`.
pub fn get_current_os(name: &str) -> (out: Result<OperatingSystem, DotmanError>)
    ensures
        match os_named(name@) {
            Some(os) => out == Ok::<OperatingSystem, DotmanError>(os),
            None => out is Err && out->Err_0@ == DotmanErrorView::UnsupportedHost(name@),
        },
{
    if same_text(name, "linux") {
        Ok(OperatingSystem::Linux)
    } else if same_text(name, "macos") {
        Ok(OperatingSystem::MacOS)
    } else if same_text(name, "windows") {
        Ok(OperatingSystem::Windows)
    } else {
        Err(DotmanError::UnsupportedHost(owned(name)))
    }
}

/// The host name that the query for it yields: what the query printed,
/// without the white space it ends with; no name if the query could not be
/// run.
pub open spec fn hostname_from(query: ExecutionView) -> Option<Seq<char>> {
    match query {
        ExecutionView::Exited { stdout, .. } => Some(crate::text::without_trailing_space(stdout)),
        ExecutionView::Failed(_) => None,
    }
}

/// Reads the host name off the outcome of the query for it.
pub fn get_hostname(query: &Execution) -> (name: Option<String>)
    ensures
        match hostname_from(query@) {
            Some(text) => name is Some && name->0@ == text,
            None => name is None,
        },
{
    match query {
        Execution::Exited { stdout, .. } => Some(owned(crate::text::trim_end(stdout.as_str()))),
        Execution::Failed(_) => None,
    }
}

/// The primitive that makes a link on a host: Windows tells links to
/// directories from links to files, other systems have one primitive.
pub open spec fn symlink_kind(os: OperatingSystem, source_is_dir: bool) -> SymlinkKind {
    match os {
        OperatingSystem::Windows => if source_is_dir {
            SymlinkKind::WindowsDir
        } else {
            SymlinkKind::WindowsFile
        },
        _ => SymlinkKind::Posix,
    }
}

/// Picks the primitive that makes a link on a host.
pub fn symlink(os: &OperatingSystem, source_is_dir: bool) -> (kind: SymlinkKind)
    ensures
        kind == symlink_kind(*os, source_is_dir),
{
    match os {
        OperatingSystem::Windows => if source_is_dir {
            SymlinkKind::WindowsDir
        } else {
            SymlinkKind::WindowsFile
        },
        _ => SymlinkKind::Posix,
    }
}

} // verus!
