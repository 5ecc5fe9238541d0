//! A whole resolution on a host: every request it makes, what it ends in, and
//! what it leaves in the cache.
//!
//! A run is told twice. [`ResolutionView::run`] follows the resolution step
//! by step, each reply being the host's answer to the pending request.
//! [`resolved`] says outright what a resolution comes to. The two agree, which
//! [`run_is_resolved`] proves.

use vstd::prelude::*;

use crate::acquirer::{acquired, AcquisitionView};
use crate::host::{Host, RequestView};
use crate::layout::{install_dir_of, manifest_path_of, server_binary_path_of, PACKAGE_NAME};
use crate::manifest::{manifest_of, toolchain_path_of};
use crate::resolver::{
    launch_spec_of, BootstrapErrorView, LaunchSpecView, ProgressView, ResolutionView,
};

verus! {

/// A resolution from its first request to its end.
pub struct Run {
    /// The requests made to the host, in order.
    pub requests: Seq<RequestView>,
    /// The launch that was resolved, or why none was.
    pub outcome: Result<LaunchSpecView, BootstrapErrorView>,
    /// The resolver's cache afterwards.
    pub cache: Option<Seq<char>>,
}

impl ResolutionView {
    /// A bound on the requests that the resolution has yet to make.
    pub open spec fn steps_left(self) -> nat {
        match self {
            ResolutionView::AwaitingManifest { .. } => 4,
            ResolutionView::AwaitingProbe { .. } => 3,
            ResolutionView::Acquiring {
                acquisition: AcquisitionView::AwaitingLatestVersion { .. },
                ..
            } => 2,
            ResolutionView::Acquiring {
                acquisition: AcquisitionView::AwaitingInstall { .. },
                ..
            } => 1,
        }
    }

    /// The rest of the resolution on `host`, starting with `cache`: the
    /// pending request is made, the host's answer is taken, and so on until
    /// the resolution is done or has failed.
    pub open spec fn run(self, cache: Option<Seq<char>>, host: Host) -> Run
        decreases self.steps_left(),
    {
        let request = self.request();
        let (progress, cache_after) = self.advance(cache, host.answer(request));
        match progress {
            ProgressView::Continue(next) => {
                let rest = next.run(cache_after, host);
                Run {
                    requests: seq![request] + rest.requests,
                    outcome: rest.outcome,
                    cache: rest.cache,
                }
            },
            ProgressView::Done(spec) => Run {
                requests: seq![request],
                outcome: Ok(spec),
                cache: cache_after,
            },
            ProgressView::Failed(error) => Run {
                requests: seq![request],
                outcome: Err(error),
                cache: cache_after,
            },
        }
    }
}

/// What resolving `workspace_root` on `host` comes to, starting with `cache`.
///
/// The manifest is read first, whatever is cached, and gives the toolchain
/// path. A cached server path is then used as it is. With nothing cached the
/// expected install location is probed: a file that is there is used and
/// cached; if none is there, the server package is acquired, and on success
/// the expected location is used and cached without another probe. A failed
/// acquisition is the only failure.
pub open spec fn resolved(cache: Option<Seq<char>>, workspace_root: Seq<char>, host: Host) -> Run {
    let read = RequestView::ReadManifest { path: manifest_path_of(workspace_root) };
    let tsdk_path = toolchain_path_of(manifest_of((host.manifest)(manifest_path_of(workspace_root))));
    let expected = server_binary_path_of(workspace_root);
    let probe = RequestView::ProbeBinary { path: expected };
    match cache {
        Some(path) => Run {
            requests: seq![read],
            outcome: Ok(launch_spec_of(path, tsdk_path)),
            cache,
        },
        None => {
            if (host.binary_present)(expected) {
                Run {
                    requests: seq![read, probe],
                    outcome: Ok(launch_spec_of(expected, tsdk_path)),
                    cache: Some(expected),
                }
            } else {
                let acquisition = acquired(PACKAGE_NAME@, install_dir_of(workspace_root), host);
                match acquisition.outcome {
                    Ok(_) => Run {
                        requests: seq![read, probe] + acquisition.requests,
                        outcome: Ok(launch_spec_of(expected, tsdk_path)),
                        cache: Some(expected),
                    },
                    Err(error) => Run {
                        requests: seq![read, probe] + acquisition.requests,
                        outcome: Err(BootstrapErrorView::Acquisition(error)),
                        cache: None,
                    },
                }
            }
        },
    }
}

/// Following a resolution step by step on a host gives what [`resolved`]
/// says: the same requests in the same order, the same outcome, the same
/// cache.
pub proof fn run_is_resolved(cache: Option<Seq<char>>, workspace_root: Seq<char>, host: Host)
    ensures
        ResolutionView::begin(workspace_root).run(cache, host) == resolved(
            cache,
            workspace_root,
            host,
        ),
{
    reveal_with_fuel(ResolutionView::run, 4);
    let run = ResolutionView::begin(workspace_root).run(cache, host);
    let told = resolved(cache, workspace_root, host);
    assert(run.requests =~= told.requests);
}

} // verus!
