//! The conversation with the host: what the bootstrap asks the filesystem and
//! the package registry to do, and what they answer.
//!
//! The library performs none of this work itself. It hands out a [`Request`],
//! the host adapter carries it out and hands back the matching [`Reply`].

use vstd::prelude::*;

use crate::manifest::{ManifestRead, ManifestReadView};

verus! {

/// One piece of outside work.
#[derive(Debug, Clone, PartialEq, Eq)]
pub enum Request {
    /// Read and parse the manifest file at `path`.
    ReadManifest { path: String },
    /// Check whether a file exists at `path`.
    ProbeBinary { path: String },
    /// Ask the registry for the latest published version of `package`.
    LatestVersion { package: String },
    /// Install `version` of `package` into `target_dir`.
    Install { package: String, version: String, target_dir: String },
}

/// The view of a [`Request`].
pub enum RequestView {
    ReadManifest { path: Seq<char> },
    ProbeBinary { path: Seq<char> },
    LatestVersion { package: Seq<char> },
    Install { package: Seq<char>, version: Seq<char>, target_dir: Seq<char> },
}

impl View for Request {
    type V = RequestView;

    open spec fn view(&self) -> RequestView {
        match self {
            Request::ReadManifest { path } => RequestView::ReadManifest { path: path@ },
            Request::ProbeBinary { path } => RequestView::ProbeBinary { path: path@ },
            Request::LatestVersion { package } => RequestView::LatestVersion { package: package@ },
            Request::Install { package, version, target_dir } => RequestView::Install {
                package: package@,
                version: version@,
                target_dir: target_dir@,
            },
        }
    }
}

impl RequestView {
    /// Whether the request checks that a file exists.
    pub open spec fn is_existence_check(self) -> bool {
        self is ProbeBinary
    }

    /// Whether the request goes to the package registry.
    pub open spec fn is_registry_call(self) -> bool {
        self is LatestVersion || self is Install
    }
}

/// The host's answer to one [`Request`]. Where the registry fails, the error
/// carries the host's own description of what went wrong.
pub enum Reply {
    /// Answers [`Request::ReadManifest`].
    Manifest(ManifestRead),
    /// Answers [`Request::ProbeBinary`]: whether the file exists.
    BinaryPresent(bool),
    /// Answers [`Request::LatestVersion`]: the version, or why none was had.
    LatestVersion(Result<String, String>),
    /// Answers [`Request::Install`]: done, or why it failed.
    Installed(Result<(), String>),
}

/// The view of a [`Reply`].
pub enum ReplyView {
    Manifest(ManifestReadView),
    BinaryPresent(bool),
    LatestVersion(Result<Seq<char>, Seq<char>>),
    Installed(Result<(), Seq<char>>),
}

impl View for Reply {
    type V = ReplyView;

    open spec fn view(&self) -> ReplyView {
        match self {
            Reply::Manifest(outcome) => ReplyView::Manifest(outcome@),
            Reply::BinaryPresent(present) => ReplyView::BinaryPresent(*present),
            Reply::LatestVersion(Ok(version)) => ReplyView::LatestVersion(Ok(version@)),
            Reply::LatestVersion(Err(detail)) => ReplyView::LatestVersion(Err(detail@)),
            Reply::Installed(Ok(())) => ReplyView::Installed(Ok(())),
            Reply::Installed(Err(detail)) => ReplyView::Installed(Err(detail@)),
        }
    }
}

/// Whether `reply` is an answer to `request`: each kind of request has its own
/// kind of reply.
pub open spec fn answers(request: RequestView, reply: ReplyView) -> bool {
    match request {
        RequestView::ReadManifest { .. } => reply is Manifest,
        RequestView::ProbeBinary { .. } => reply is BinaryPresent,
        RequestView::LatestVersion { .. } => reply is LatestVersion,
        RequestView::Install { .. } => reply is Installed,
    }
}

/// A host, as far as the bootstrap can tell: what its filesystem and its
/// registry answer to each question. Two resolutions may meet different
/// hosts, since files and registries change between them.
pub struct Host {
    /// What reading the manifest file at a path gives.
    pub manifest: spec_fn(Seq<char>) -> ManifestReadView,
    /// Whether a file exists at a path.
    pub binary_present: spec_fn(Seq<char>) -> bool,
    /// The latest version of a package, or the registry's error.
    pub latest_version: spec_fn(Seq<char>) -> Result<Seq<char>, Seq<char>>,
    /// The outcome of installing a package, at a version, into a directory.
    pub install: spec_fn(Seq<char>, Seq<char>, Seq<char>) -> Result<(), Seq<char>>,
}

impl Host {
    /// The host's reply to `request`.
    pub open spec fn answer(self, request: RequestView) -> ReplyView {
        match request {
            RequestView::ReadManifest { path } => ReplyView::Manifest((self.manifest)(path)),
            RequestView::ProbeBinary { path } => ReplyView::BinaryPresent(
                (self.binary_present)(path),
            ),
            RequestView::LatestVersion { package } => ReplyView::LatestVersion(
                (self.latest_version)(package),
            ),
            RequestView::Install { package, version, target_dir } => ReplyView::Installed(
                (self.install)(package, version, target_dir),
            ),
        }
    }
}

} // verus!
