//! Access to resources referenced from documents.

use crate::urls;
use crate::urls::{url_joined, url_parsed};
use vstd::prelude::*;
use vstd::string::StringExecFns;

verus! {

/// A resource referenced from a document.
#[derive(Clone, Debug, PartialEq, Eq)]
pub enum Resource {
    /// A local file, referenced by its path.
    LocalFile(String),
    /// A remote resource, referenced by a URL.
    Remote(String),
}

/// Why a resource cannot be read.
#[derive(Clone, Copy, Debug, PartialEq, Eq, Structural)]
pub enum AccessError {
    /// The resource is remote, and remote resources are not read.
    RemoteNotAllowed,
}

impl Resource {
    /// The path or the URL that this resource holds.
    pub open spec fn text(self) -> Seq<char> {
        match self {
            Resource::LocalFile(path) => path@,
            Resource::Remote(url) => url@,
        }
    }

    /// The URL of this resource: its own for a remote resource, and for a
    /// local file its path read against the root of all `file` URLs.
    pub open spec fn url(self) -> Option<Seq<char>> {
        match self {
            Resource::Remote(url) => Some(url@),
            Resource::LocalFile(path) => url_joined("file:///"@, path@),
        }
    }

    /// The resource that `reference` stands for in a document that stands in
    /// the directory `base_dir`: the remote resource at the URL that the
    /// reference is, if it is one; else the local file at the path that the
    /// reference is, joined to `base_dir` unless it is absolute.
    pub open spec fn of_reference(base_dir: Seq<char>, reference: Seq<char>) -> (bool, Seq<char>) {
        match url_parsed(reference) {
            Some(url) => (true, url),
            None => (
                false,
                if path_is_absolute(reference) {
                    reference
                } else {
                    path_joined(base_dir, reference)
                },
            ),
        }
    }

    /// Obtain a resource from a `reference` in a document.
    ///
    /// Try to parse `reference` as a URL.  If this succeeds assume that
    /// `reference` refers to a remote resource and return a `Remote` resource.
    ///
    /// Otherwise assume that `reference` denotes a local file by its path and
    /// return a `LocalFile` resource.  If `reference` holds a relative path
    /// join it against `base_dir` first.
    pub fn from_reference(base_dir: &str, reference: &str) -> (r: Resource)
        ensures
            (r is Remote, r.text()) == Resource::of_reference(base_dir@, reference@),
    {
        match urls::parse(reference) {
            Some(url) => Resource::Remote(url),
            None => {
                let joined = joined_path(base_dir, reference);
                Resource::local_file(reference, is_absolute(reference), joined)
            },
        }
    }

    /// The local file at `path`: at `path` itself where the path is absolute,
    /// as `absolute` tells, else at `joined`, which is `path` joined to the
    /// directory that it is relative to.
    pub fn local_file(path: &str, absolute: bool, joined: String) -> (r: Resource)
        ensures
            r is LocalFile,
            r.text() == (if absolute {
                path@
            } else {
                joined@
            }),
    {
        if absolute {
            Resource::LocalFile(String::from_str(path))
        } else {
            Resource::LocalFile(joined)
        }
    }

    /// Convert this resource into a URL.
    ///
    /// Return a `Remote` resource as is, and a `LocalFile` as `file:` URL.
    /// The path of the file must be one that can be read against the root of
    /// all `file` URLs.
    pub fn to_url(self) -> (r: String)
        requires
            self.url() is Some,
        ensures
            Some(r@) == self.url(),
    {
        match self {
            Resource::Remote(url) => url,
            Resource::LocalFile(path) => {
                match urls::join("file:///", path.as_str()) {
                    Some(url) => url,
                    None => vstd::pervasive::unreached(),
                }
            },
        }
    }

    /// Convert this resource into a URL, where it has one: `to_url` for a
    /// resource whose path can be read as a URL, and none for any other.
    pub fn try_to_url(self) -> (r: Option<String>)
        ensures
            urls::text_of(r) == self.url(),
    {
        let convertible = match &self {
            Resource::Remote(_) => true,
            Resource::LocalFile(path) => urls::join("file:///", path.as_str()).is_some(),
        };
        if convertible {
            Some(self.to_url())
        } else {
            None
        }
    }

    /// Returns the internal representation as is.
    pub fn as_str(&self) -> (r: Option<&str>)
        ensures
            r matches Some(text) && text@ == self.text(),
    {
        match self {
            Resource::Remote(url) => Some(url.as_str()),
            Resource::LocalFile(path) => Some(path.as_str()),
        }
    }

    /// The path of the file to read for this resource: that of a local file.
    /// A remote resource is not read.
    pub fn readable_path(&self) -> (r: Result<&str, AccessError>)
        ensures
            match *self {
                Resource::Remote(_) => r == Err::<&str, AccessError>(AccessError::RemoteNotAllowed),
                Resource::LocalFile(path) => r matches Ok(text) && text@ == path@,
            },
    {
        match self {
            Resource::Remote(_) => Err(AccessError::RemoteNotAllowed),
            Resource::LocalFile(path) => Ok(path.as_str()),
        }
    }
}

/// Whether `std::path::Path::is_absolute` takes `path` for absolute.  What
/// an absolute path is depends on the system that this crate is built for;
/// on one system it depends on the path alone.
pub uninterp spec fn path_is_absolute(path: Seq<char>) -> bool;

/// What `std::path::Path::join` makes of `base` and `path`.  How paths are
/// joined depends on the system that this crate is built for; on one system
/// it depends on the two paths alone.
pub uninterp spec fn path_joined(base: Seq<char>, path: Seq<char>) -> Seq<char>;

/// Whether `path` is absolute, from `std::path::Path::is_absolute`.  The
/// contract names the result and claims nothing else of it.
#[verifier::external_body]
fn is_absolute(path: &str) -> (r: bool)
    ensures
        r == path_is_absolute(path@),
{
    std::path::Path::new(path).is_absolute()
}

/// The path `path` joined to `base`, from `std::path::Path::join`.  The
/// contract names the result and claims nothing else of it.
#[verifier::external_body]
fn joined_path(base: &str, path: &str) -> (r: String)
    ensures
        r@ == path_joined(base@, path@),
{
    std::path::Path::new(base).join(path).to_string_lossy().into_owned()
}

} // verus!
