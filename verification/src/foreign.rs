//! Calls into other crates, each behind a contract that is taken on trust.

use crate::text::text_view;
use std::path::PathBuf;
use vstd::prelude::*;

verus! {

/// A path of the file system. Nothing is known of what is inside: it is only
/// carried from the place that makes it to the place that opens it.
#[verifier::external_type_specification]
#[verifier::external_body]
pub struct ExPathBuf(PathBuf);

/// What `url::Url::scheme` gives for the URL that `text` spells; `None` where
/// `text` is no URL.
pub uninterp spec fn url_scheme_of(text: Seq<char>) -> Option<Seq<char>>;

/// What `url::Url::path` gives for the URL that `text` spells; `None` where
/// `text` is no URL.
pub uninterp spec fn url_path_of(text: Seq<char>) -> Option<Seq<char>>;

/// How `url::Url` prints for debugging when `text` spells it; `None` where
/// `text` is no URL.
pub uninterp spec fn url_debug_of(text: Seq<char>) -> Option<Seq<char>>;

/// Calls `url::Url::scheme` on the URL that `text` spells. Claims only that the
/// answer depends on `text` alone, and that it is `None` where
/// `url::Url::parse` refuses `text`.
#[verifier::external_body]
pub(crate) fn url_scheme(text: &str) -> (scheme: Option<String>)
    ensures
        text_view(scheme) == url_scheme_of(text@),
{
    url::Url::parse(text).ok().map(|url| url.scheme().to_owned())
}

/// Calls `url::Url::path` on the URL that `text` spells. Claims only that the
/// answer depends on `text` alone, and that it is `None` where
/// `url::Url::parse` refuses `text`.
#[verifier::external_body]
pub(crate) fn url_path(text: &str) -> (path: Option<String>)
    ensures
        text_view(path) == url_path_of(text@),
{
    url::Url::parse(text).ok().map(|url| url.path().to_owned())
}

/// Calls the `Debug` impl of `url::Url` on the URL that `text` spells. Claims
/// only that the answer depends on `text` alone, and that it is `None` where
/// `url::Url::parse` refuses `text`.
#[verifier::external_body]
pub(crate) fn url_debug(text: &str) -> (shown: Option<String>)
    ensures
        text_view(shown) == url_debug_of(text@),
{
    url::Url::parse(text).ok().map(|url| format!("{:?}", url))
}

/// Whether the path of the URL that `text` spells begins with a slash, so that
/// it has segments.
pub open spec fn has_path_segments(text: Seq<char>) -> bool {
    url_path_of(text) matches Some(path) && path.len() > 0 && path[0] == '/'
}

/// Whether `path` is something that `url::Url::to_file_path` may give for the URL
/// that `text` spells, on some platform: a path, or `None` where it gives none, or
/// where `text` is no URL.
pub uninterp spec fn may_give_path(text: Seq<char>, path: Option<PathBuf>) -> bool;

/// Whether `path` is what the address `text` may give. A path comes only from a
/// URL whose path has segments.
pub open spec fn gives_path(text: Seq<char>, path: Option<PathBuf>) -> bool {
    &&& may_give_path(text, path)
    &&& path is Some ==> has_path_segments(text)
}

/// Calls `url::Url::to_file_path` on the URL that `text` spells.
///
/// Claims that what comes back is something that the call may give for `text`,
/// and that it is a path only where `text` is a URL whose path begins with a
/// slash. Which path it is, and which hosts and drives are refused, depends on the
/// platform that the program runs on, and is not stated. Nor is it stated for any
/// URL that a path comes back: the call also gives up where no memory can be
/// reserved for the path.
#[verifier::external_body]
pub(crate) fn url_to_file_path(text: &str) -> (path: Option<PathBuf>)
    ensures
        may_give_path(text@, path),
        path is Some ==> has_path_segments(text@) && url_debug_of(text@) is Some,
{
    url::Url::parse(text).ok().and_then(|url| url.to_file_path().ok())
}

/// Whether `rest` is something that `std::path::Path::strip_prefix` may give for
/// `path` and the directory `dir`, on some platform; `None` where `dir` is no
/// prefix.
pub uninterp spec fn may_leave(path: PathBuf, dir: PathBuf, rest: Option<PathBuf>) -> bool;

/// Calls `std::path::Path::strip_prefix`; `None` where `dir` is no prefix of
/// `path`. Claims only that what comes back is something that the call may give
/// for these two paths: how a path is taken apart differs between platforms.
#[verifier::external_body]
pub(crate) fn strip_prefix(path: &PathBuf, dir: &PathBuf) -> (rest: Option<PathBuf>)
    ensures
        may_leave(*path, *dir, rest),
{
    path.strip_prefix(dir).ok().map(|rest| rest.to_path_buf())
}

/// Whether `shown` is something that `std::path::Path::to_string_lossy` may give
/// for `path`, on some platform.
pub uninterp spec fn may_show(path: PathBuf, shown: Seq<char>) -> bool;

/// Calls `std::path::Path::to_string_lossy`. Claims only that what comes back is
/// something that the call may give for `path`: what a path holds differs between
/// platforms.
#[verifier::external_body]
pub(crate) fn to_string_lossy(path: &PathBuf) -> (shown: String)
    ensures
        may_show(*path, shown@),
{
    path.to_string_lossy().into_owned()
}

/// What an address gives is something that the conversion of that very address may
/// give, and it is a path only where the path of the URL begins with a slash.
pub proof fn law_path_comes_from_its_address(text: Seq<char>, path: Option<PathBuf>)
    requires
        gives_path(text, path),
    ensures
        may_give_path(text, path),
        path is Some ==> url_path_of(text) is Some && url_path_of(text)->0.len() > 0
            && url_path_of(text)->0[0] == '/',
{
}

} // verus!
