//! Acquiring the server package: ask the registry for the latest version, then
//! have that version installed. One attempt, no retries.

use vstd::prelude::*;
use vstd::string::*;

use crate::host::{Host, Reply, ReplyView, Request, RequestView};

verus! {

/// Why the server package could not be acquired.
#[derive(Debug, Clone, PartialEq, Eq)]
pub enum AcquisitionError {
    /// The registry did not say what the latest version of `package` is.
    RegistryUnreachable { package: String, detail: String },
    /// Installing `version` of `package` failed.
    InstallFailed { package: String, version: String, detail: String },
}

/// The view of an [`AcquisitionError`].
pub enum AcquisitionErrorView {
    RegistryUnreachable { package: Seq<char>, detail: Seq<char> },
    InstallFailed { package: Seq<char>, version: Seq<char>, detail: Seq<char> },
}

impl View for AcquisitionError {
    type V = AcquisitionErrorView;

    open spec fn view(&self) -> AcquisitionErrorView {
        match self {
            AcquisitionError::RegistryUnreachable { package, detail } => {
                AcquisitionErrorView::RegistryUnreachable { package: package@, detail: detail@ }
            },
            AcquisitionError::InstallFailed { package, version, detail } => {
                AcquisitionErrorView::InstallFailed {
                    package: package@,
                    version: version@,
                    detail: detail@,
                }
            },
        }
    }
}

impl AcquisitionErrorView {
    /// The error in words: what failed, for which package, and the host's
    /// own description.
    pub open spec fn message(self) -> Seq<char> {
        match self {
            AcquisitionErrorView::RegistryUnreachable { package, detail } => {
                "no latest version of "@ + package + ": "@ + detail
            },
            AcquisitionErrorView::InstallFailed { package, version, detail } => {
                "failed to install "@ + package + "@"@ + version + ": "@ + detail
            },
        }
    }
}

impl AcquisitionError {
    /// The error in words.
    pub fn message(&self) -> (text: String)
        ensures
            text@ == self@.message(),
    {
        match self {
            AcquisitionError::RegistryUnreachable { package, detail } => {
                let mut text = String::from_str("no latest version of ");
                text.append(package.as_str());
                text.append(": ");
                text.append(detail.as_str());
                text
            },
            AcquisitionError::InstallFailed { package, version, detail } => {
                let mut text = String::from_str("failed to install ");
                text.append(package.as_str());
                text.append("@");
                text.append(version.as_str());
                text.append(": ");
                text.append(detail.as_str());
                text
            },
        }
    }
}

/// An acquisition under way: which answer from the registry it waits for.
#[derive(Debug, Clone, PartialEq, Eq)]
pub enum Acquisition {
    /// The latest version of `package` was asked for.
    AwaitingLatestVersion { package: String, target_dir: String },
    /// The install of `version` was asked for.
    AwaitingInstall { package: String, version: String, target_dir: String },
}

/// The view of an [`Acquisition`].
pub enum AcquisitionView {
    AwaitingLatestVersion { package: Seq<char>, target_dir: Seq<char> },
    AwaitingInstall { package: Seq<char>, version: Seq<char>, target_dir: Seq<char> },
}

impl View for Acquisition {
    type V = AcquisitionView;

    open spec fn view(&self) -> AcquisitionView {
        match self {
            Acquisition::AwaitingLatestVersion { package, target_dir } => {
                AcquisitionView::AwaitingLatestVersion {
                    package: package@,
                    target_dir: target_dir@,
                }
            },
            Acquisition::AwaitingInstall { package, version, target_dir } => {
                AcquisitionView::AwaitingInstall {
                    package: package@,
                    version: version@,
                    target_dir: target_dir@,
                }
            },
        }
    }
}

/// Where an acquisition stands after a reply.
#[derive(Debug, Clone, PartialEq, Eq)]
pub enum AcquisitionStep {
    /// More outside work is needed.
    Continue(Acquisition),
    /// The package is installed, at this version.
    Installed(String),
    /// The acquisition failed. Nothing is tried again.
    Failed(AcquisitionError),
}

/// The view of an [`AcquisitionStep`].
pub enum AcquisitionStepView {
    Continue(AcquisitionView),
    Installed(Seq<char>),
    Failed(AcquisitionErrorView),
}

impl View for AcquisitionStep {
    type V = AcquisitionStepView;

    open spec fn view(&self) -> AcquisitionStepView {
        match self {
            AcquisitionStep::Continue(acquisition) => AcquisitionStepView::Continue(acquisition@),
            AcquisitionStep::Installed(version) => AcquisitionStepView::Installed(version@),
            AcquisitionStep::Failed(error) => AcquisitionStepView::Failed(error@),
        }
    }
}

impl AcquisitionView {
    /// The acquisition of `package` into `target_dir`, before anything was
    /// asked.
    pub open spec fn begin(package: Seq<char>, target_dir: Seq<char>) -> AcquisitionView {
        AcquisitionView::AwaitingLatestVersion { package, target_dir }
    }

    /// The request that the acquisition waits on.
    pub open spec fn request(self) -> RequestView {
        match self {
            AcquisitionView::AwaitingLatestVersion { package, .. } => RequestView::LatestVersion {
                package,
            },
            AcquisitionView::AwaitingInstall { package, version, target_dir } => {
                RequestView::Install { package, version, target_dir }
            },
        }
    }

    /// The acquisition after `reply`. A version that the registry names is
    /// installed next; an install that succeeds ends the acquisition with that
    /// version; either failure ends it with an error. A reply that does not
    /// answer the pending request changes nothing.
    pub open spec fn advance(self, reply: ReplyView) -> AcquisitionStepView {
        match (self, reply) {
            (
                AcquisitionView::AwaitingLatestVersion { package, target_dir },
                ReplyView::LatestVersion(Ok(version)),
            ) => AcquisitionStepView::Continue(
                AcquisitionView::AwaitingInstall { package, version, target_dir },
            ),
            (
                AcquisitionView::AwaitingLatestVersion { package, .. },
                ReplyView::LatestVersion(Err(detail)),
            ) => AcquisitionStepView::Failed(
                AcquisitionErrorView::RegistryUnreachable { package, detail },
            ),
            (AcquisitionView::AwaitingInstall { version, .. }, ReplyView::Installed(Ok(()))) => {
                AcquisitionStepView::Installed(version)
            },
            (
                AcquisitionView::AwaitingInstall { package, version, .. },
                ReplyView::Installed(Err(detail)),
            ) => AcquisitionStepView::Failed(
                AcquisitionErrorView::InstallFailed { package, version, detail },
            ),
            _ => AcquisitionStepView::Continue(self),
        }
    }
}

/// Begins the acquisition of `package_name` into `target_dir`. The first
/// thing it asks for is the package's latest version.
pub fn ensure_server_installed(package_name: &str, target_dir: &str) -> (acquisition: Acquisition)
    ensures
        acquisition@ == AcquisitionView::begin(package_name@, target_dir@),
{
    Acquisition::AwaitingLatestVersion {
        package: String::from_str(package_name),
        target_dir: String::from_str(target_dir),
    }
}

impl Acquisition {
    /// The request that the acquisition waits on.
    pub fn request(&self) -> (request: Request)
        ensures
            request@ == self@.request(),
    {
        match self {
            Acquisition::AwaitingLatestVersion { package, .. } => Request::LatestVersion {
                package: package.clone(),
            },
            Acquisition::AwaitingInstall { package, version, target_dir } => Request::Install {
                package: package.clone(),
                version: version.clone(),
                target_dir: target_dir.clone(),
            },
        }
    }

    /// Takes the host's reply and says where the acquisition stands.
    pub fn advance(self, reply: Reply) -> (step: AcquisitionStep)
        ensures
            step@ == self@.advance(reply@),
    {
        match (self, reply) {
            (
                Acquisition::AwaitingLatestVersion { package, target_dir },
                Reply::LatestVersion(Ok(version)),
            ) => AcquisitionStep::Continue(
                Acquisition::AwaitingInstall { package, version, target_dir },
            ),
            (
                Acquisition::AwaitingLatestVersion { package, .. },
                Reply::LatestVersion(Err(detail)),
            ) => AcquisitionStep::Failed(AcquisitionError::RegistryUnreachable { package, detail }),
            (Acquisition::AwaitingInstall { version, .. }, Reply::Installed(Ok(()))) => {
                AcquisitionStep::Installed(version)
            },
            (
                Acquisition::AwaitingInstall { package, version, .. },
                Reply::Installed(Err(detail)),
            ) => AcquisitionStep::Failed(
                AcquisitionError::InstallFailed { package, version, detail },
            ),
            (acquisition, _) => AcquisitionStep::Continue(acquisition),
        }
    }
}

/// What an acquisition comes to on a host, from its first request to its end.
pub struct Acquired {
    /// The registry calls made, in order.
    pub requests: Seq<RequestView>,
    /// The version installed, or why nothing was.
    pub outcome: Result<Seq<char>, AcquisitionErrorView>,
}

/// The acquisition of `package` into `target_dir` on `host`: the latest
/// version is asked for once; if the registry names one, that version is
/// installed, once.
pub open spec fn acquired(package: Seq<char>, target_dir: Seq<char>, host: Host) -> Acquired {
    let query = RequestView::LatestVersion { package };
    match (host.latest_version)(package) {
        Err(detail) => Acquired {
            requests: seq![query],
            outcome: Err(AcquisitionErrorView::RegistryUnreachable { package, detail }),
        },
        Ok(version) => {
            let install = RequestView::Install { package, version, target_dir };
            Acquired {
                requests: seq![query, install],
                outcome: match (host.install)(package, version, target_dir) {
                    Ok(()) => Ok(version),
                    Err(detail) => Err(
                        AcquisitionErrorView::InstallFailed { package, version, detail },
                    ),
                },
            }
        },
    }
}

} // verus!
