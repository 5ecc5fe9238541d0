//! The bootstrap resolver: from a workspace root to the command that launches
//! the language server, by way of the manifest, the cache, the filesystem and,
//! where the server is not there yet, the registry.
//!
//! A resolution is a conversation. [`resolve`] begins one; the host adapter
//! carries out [`Resolution::request`] and hands the reply to
//! [`Resolution::advance`], until the resolution is done or has failed.

use vstd::prelude::*;
use vstd::string::*;

use crate::acquirer::{
    ensure_server_installed, Acquisition, AcquisitionError, AcquisitionErrorView, AcquisitionStep,
    AcquisitionStepView, AcquisitionView,
};
use crate::host::{Reply, ReplyView, Request, RequestView};
use crate::layout::{
    install_dir, install_dir_of, manifest_path, manifest_path_of, INTERPRETER, PACKAGE_NAME,
};
use crate::locator::{
    conclude_probe, locate_server_binary, located, lookup_of, remembered, BootstrapState, Lookup,
    LookupView,
};
use crate::manifest::{manifest_of, read_manifest, resolve_toolchain_path, toolchain_path_of};

verus! {

/// The options sent to the language server when it starts.
#[derive(Debug, Clone, PartialEq, Eq)]
pub struct InitializationOptions {
    /// The path of the TypeScript SDK.
    pub tsdk_path: String,
}

/// How to launch the language server.
#[derive(Debug, Clone, PartialEq, Eq)]
pub struct LaunchSpec {
    /// The interpreter to run.
    pub command: String,
    /// Its arguments: the server script.
    pub args: Vec<String>,
    /// What to send the server once it runs.
    pub initialization_options: InitializationOptions,
}

/// The view of a [`LaunchSpec`].
pub struct LaunchSpecView {
    pub command: Seq<char>,
    pub args: Seq<Seq<char>>,
    pub tsdk_path: Seq<char>,
}

impl View for LaunchSpec {
    type V = LaunchSpecView;

    open spec fn view(&self) -> LaunchSpecView {
        LaunchSpecView {
            command: self.command@,
            args: self.args.deep_view(),
            tsdk_path: self.initialization_options.tsdk_path@,
        }
    }
}

/// The launch of the server script at `path`: the interpreter runs it, and
/// the server is told where the TypeScript SDK is.
pub open spec fn launch_spec_of(path: Seq<char>, tsdk_path: Seq<char>) -> LaunchSpecView {
    LaunchSpecView { command: INTERPRETER@, args: seq![path], tsdk_path }
}

/// Builds the launch of the server script at `path`.
pub fn launch_spec(path: String, tsdk_path: String) -> (spec: LaunchSpec)
    ensures
        spec@ == launch_spec_of(path@, tsdk_path@),
{
    let args = vec![path];
    assert(args.deep_view() =~= seq![path@]);
    LaunchSpec {
        command: String::from_str(INTERPRETER),
        args,
        initialization_options: InitializationOptions { tsdk_path },
    }
}

/// Why a resolution failed. Only a failed acquisition fails a resolution: a
/// missing manifest or a missing binary is dealt with on the way.
#[derive(Debug, Clone, PartialEq, Eq)]
pub enum BootstrapError {
    /// The server package could not be acquired.
    Acquisition(AcquisitionError),
}

/// The view of a [`BootstrapError`].
pub enum BootstrapErrorView {
    Acquisition(AcquisitionErrorView),
}

impl View for BootstrapError {
    type V = BootstrapErrorView;

    open spec fn view(&self) -> BootstrapErrorView {
        match self {
            BootstrapError::Acquisition(error) => BootstrapErrorView::Acquisition(error@),
        }
    }
}

impl BootstrapErrorView {
    /// The error in words.
    pub open spec fn message(self) -> Seq<char> {
        match self {
            BootstrapErrorView::Acquisition(error) => error.message(),
        }
    }
}

impl BootstrapError {
    /// The error in words.
    pub fn message(&self) -> (text: String)
        ensures
            text@ == self@.message(),
    {
        match self {
            BootstrapError::Acquisition(error) => error.message(),
        }
    }
}

/// A resolution under way: which answer from the host it waits for, and what
/// it has worked out so far.
#[derive(Debug, Clone, PartialEq, Eq)]
pub enum Resolution {
    /// The manifest was asked for.
    AwaitingManifest { workspace_root: String },
    /// Nothing was cached, so the file at `expected` is being checked.
    AwaitingProbe { workspace_root: String, expected: String, tsdk_path: String },
    /// The file was not there, so the package is being acquired.
    Acquiring { acquisition: Acquisition, expected: String, tsdk_path: String },
}

/// The view of a [`Resolution`].
pub enum ResolutionView {
    AwaitingManifest { workspace_root: Seq<char> },
    AwaitingProbe { workspace_root: Seq<char>, expected: Seq<char>, tsdk_path: Seq<char> },
    Acquiring { acquisition: AcquisitionView, expected: Seq<char>, tsdk_path: Seq<char> },
}

impl View for Resolution {
    type V = ResolutionView;

    open spec fn view(&self) -> ResolutionView {
        match self {
            Resolution::AwaitingManifest { workspace_root } => ResolutionView::AwaitingManifest {
                workspace_root: workspace_root@,
            },
            Resolution::AwaitingProbe { workspace_root, expected, tsdk_path } => {
                ResolutionView::AwaitingProbe {
                    workspace_root: workspace_root@,
                    expected: expected@,
                    tsdk_path: tsdk_path@,
                }
            },
            Resolution::Acquiring { acquisition, expected, tsdk_path } => {
                ResolutionView::Acquiring {
                    acquisition: acquisition@,
                    expected: expected@,
                    tsdk_path: tsdk_path@,
                }
            },
        }
    }
}

/// Where a resolution stands after a reply.
#[derive(Debug, Clone, PartialEq, Eq)]
pub enum Progress {
    /// More outside work is needed.
    Continue(Resolution),
    /// The resolution is done: this is how to launch the server.
    Done(LaunchSpec),
    /// The resolution failed. No launch is produced.
    Failed(BootstrapError),
}

/// The view of a [`Progress`].
pub enum ProgressView {
    Continue(ResolutionView),
    Done(LaunchSpecView),
    Failed(BootstrapErrorView),
}

impl View for Progress {
    type V = ProgressView;

    open spec fn view(&self) -> ProgressView {
        match self {
            Progress::Continue(resolution) => ProgressView::Continue(resolution@),
            Progress::Done(spec) => ProgressView::Done(spec@),
            Progress::Failed(error) => ProgressView::Failed(error@),
        }
    }
}

impl ResolutionView {
    /// The resolution for `workspace_root`, before anything was asked.
    pub open spec fn begin(workspace_root: Seq<char>) -> ResolutionView {
        ResolutionView::AwaitingManifest { workspace_root }
    }

    /// The request that the resolution waits on.
    pub open spec fn request(self) -> RequestView {
        match self {
            ResolutionView::AwaitingManifest { workspace_root } => RequestView::ReadManifest {
                path: manifest_path_of(workspace_root),
            },
            ResolutionView::AwaitingProbe { expected, .. } => RequestView::ProbeBinary {
                path: expected,
            },
            ResolutionView::Acquiring { acquisition, .. } => acquisition.request(),
        }
    }

    /// The resolution after `reply`, given the resolver's cache: where it
    /// stands, and the cache afterwards.
    ///
    /// - The manifest settles the toolchain path. Then a cached server path
    ///   ends the resolution at once; with nothing cached, the expected
    ///   install location is probed.
    /// - A file found by the probe is cached and ends the resolution; a
    ///   missing one starts the acquisition of the server package.
    /// - An acquisition that succeeds ends the resolution with the expected
    ///   location, which is cached without another probe; one that fails,
    ///   fails the resolution and leaves the cache as it was.
    /// - A reply that does not answer the pending request changes nothing.
    pub open spec fn advance(self, cache: Option<Seq<char>>, reply: ReplyView) -> (
        ProgressView,
        Option<Seq<char>>,
    ) {
        match (self, reply) {
            (ResolutionView::AwaitingManifest { workspace_root }, ReplyView::Manifest(outcome)) => {
                let tsdk_path = toolchain_path_of(manifest_of(outcome));
                match lookup_of(cache, workspace_root) {
                    LookupView::Cached(path) => (
                        ProgressView::Done(launch_spec_of(path, tsdk_path)),
                        cache,
                    ),
                    LookupView::Probe(expected) => (
                        ProgressView::Continue(
                            ResolutionView::AwaitingProbe { workspace_root, expected, tsdk_path },
                        ),
                        cache,
                    ),
                }
            },
            (
                ResolutionView::AwaitingProbe { workspace_root, expected, tsdk_path },
                ReplyView::BinaryPresent(present),
            ) => {
                let (found, cache_after) = located(cache, expected, present);
                match found {
                    Some(path) => (
                        ProgressView::Done(launch_spec_of(path, tsdk_path)),
                        cache_after,
                    ),
                    None => (
                        ProgressView::Continue(
                            ResolutionView::Acquiring {
                                acquisition: AcquisitionView::begin(
                                    PACKAGE_NAME@,
                                    install_dir_of(workspace_root),
                                ),
                                expected,
                                tsdk_path,
                            },
                        ),
                        cache_after,
                    ),
                }
            },
            (ResolutionView::Acquiring { acquisition, expected, tsdk_path }, _) => {
                match acquisition.advance(reply) {
                    AcquisitionStepView::Continue(acquisition) => (
                        ProgressView::Continue(
                            ResolutionView::Acquiring { acquisition, expected, tsdk_path },
                        ),
                        cache,
                    ),
                    AcquisitionStepView::Installed(_) => (
                        ProgressView::Done(launch_spec_of(expected, tsdk_path)),
                        remembered(cache, expected),
                    ),
                    AcquisitionStepView::Failed(error) => (
                        ProgressView::Failed(BootstrapErrorView::Acquisition(error)),
                        cache,
                    ),
                }
            },
            _ => (ProgressView::Continue(self), cache),
        }
    }
}

/// Begins the resolution for `workspace_root`. The first thing it asks for
/// is the workspace's manifest.
pub fn resolve(workspace_root: &str) -> (resolution: Resolution)
    ensures
        resolution@ == ResolutionView::begin(workspace_root@),
{
    Resolution::AwaitingManifest { workspace_root: String::from_str(workspace_root) }
}

impl Resolution {
    /// The request that the resolution waits on.
    pub fn request(&self) -> (request: Request)
        ensures
            request@ == self@.request(),
    {
        match self {
            Resolution::AwaitingManifest { workspace_root } => Request::ReadManifest {
                path: manifest_path(workspace_root.as_str()),
            },
            Resolution::AwaitingProbe { expected, .. } => Request::ProbeBinary {
                path: expected.clone(),
            },
            Resolution::Acquiring { acquisition, .. } => acquisition.request(),
        }
    }

    /// Takes the host's reply and says where the resolution stands. `state`
    /// is the cache of the resolver that the resolution belongs to.
    pub fn advance(self, state: &mut BootstrapState, reply: Reply) -> (progress: Progress)
        ensures
            (progress@, final(state)@) == self@.advance(old(state)@, reply@),
    {
        match (self, reply) {
            (Resolution::AwaitingManifest { workspace_root }, Reply::Manifest(outcome)) => {
                let manifest = read_manifest(outcome);
                let tsdk_path = resolve_toolchain_path(&manifest);
                match locate_server_binary(state, workspace_root.as_str()) {
                    Lookup::Cached(path) => Progress::Done(launch_spec(path, tsdk_path)),
                    Lookup::Probe(expected) => Progress::Continue(
                        Resolution::AwaitingProbe { workspace_root, expected, tsdk_path },
                    ),
                }
            },
            (
                Resolution::AwaitingProbe { workspace_root, expected, tsdk_path },
                Reply::BinaryPresent(present),
            ) => {
                match conclude_probe(state, expected.as_str(), present) {
                    Some(path) => Progress::Done(launch_spec(path, tsdk_path)),
                    None => {
                        let target_dir = install_dir(workspace_root.as_str());
                        let acquisition = ensure_server_installed(
                            PACKAGE_NAME,
                            target_dir.as_str(),
                        );
                        Progress::Continue(
                            Resolution::Acquiring { acquisition, expected, tsdk_path },
                        )
                    },
                }
            },
            (Resolution::Acquiring { acquisition, expected, tsdk_path }, reply) => {
                match acquisition.advance(reply) {
                    AcquisitionStep::Continue(acquisition) => Progress::Continue(
                        Resolution::Acquiring { acquisition, expected, tsdk_path },
                    ),
                    AcquisitionStep::Installed(_) => {
                        state.remember(expected.as_str());
                        Progress::Done(launch_spec(expected, tsdk_path))
                    },
                    AcquisitionStep::Failed(error) => Progress::Failed(
                        BootstrapError::Acquisition(error),
                    ),
                }
            },
            (resolution, _) => Progress::Continue(resolution),
        }
    }
}

} // verus!
