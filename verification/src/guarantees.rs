//! What holds of every resolution, whatever the workspace and the host.

use vstd::prelude::*;

use crate::acquirer::acquired;
use crate::host::{answers, Host, ReplyView, RequestView};
use crate::layout::{
    install_dir_of, manifest_path_of, server_binary_path_of, under, INSTALL_DIR, PACKAGE_NAME,
    SERVER_ENTRY, SERVER_PATH, TYPESCRIPT_PACKAGE_NAME, TYPESCRIPT_TSDK_PATH,
};
use crate::manifest::{toolchain_path_of, ManifestView};
use crate::resolver::{ProgressView, ResolutionView};
use crate::run::{resolved, run_is_resolved};

verus! {

/// The server script is expected where an install puts it: in the package's
/// own directory under the install directory of the workspace.
pub proof fn server_path_follows_install_convention(workspace_root: Seq<char>)
    ensures
        SERVER_PATH@ == under(under(INSTALL_DIR@, PACKAGE_NAME@), SERVER_ENTRY@),
        server_binary_path_of(workspace_root) == under(
            under(install_dir_of(workspace_root), PACKAGE_NAME@),
            SERVER_ENTRY@,
        ),
{
    reveal_strlit("node_modules/@rsx/language-server/bin/rsx-language-server.js");
    reveal_strlit("node_modules");
    reveal_strlit("@rsx/language-server");
    reveal_strlit("bin/rsx-language-server.js");
    let in_package = under(under(INSTALL_DIR@, PACKAGE_NAME@), SERVER_ENTRY@);
    assert(SERVER_PATH@ =~= in_package);
    let installed = under(install_dir_of(workspace_root), PACKAGE_NAME@);
    assert(server_binary_path_of(workspace_root) =~= under(installed, SERVER_ENTRY@));
}

/// In the merged lookup a name that the development group declares has the
/// version from that group, also where the other group declares it too; any
/// other name has the version from the other group.
pub proof fn development_group_wins(manifest: ManifestView, name: Seq<char>)
    ensures
        manifest.declares(name) <==> manifest.dependencies.contains_key(name)
            || manifest.dev_dependencies.contains_key(name),
        manifest.dev_dependencies.contains_key(name) ==> manifest.merged()[name]
            == manifest.dev_dependencies[name],
        manifest.dependencies.contains_key(name) && !manifest.dev_dependencies.contains_key(name)
            ==> manifest.merged()[name] == manifest.dependencies[name],
{
}

/// A manifest that lacks the TypeScript entry gets the same toolchain path as
/// one that has it: the fallback is the workspace's own SDK location.
pub proof fn toolchain_path_ignores_manifest(lacking: ManifestView, declaring: ManifestView)
    requires
        !lacking.declares(TYPESCRIPT_PACKAGE_NAME@),
        declaring.declares(TYPESCRIPT_PACKAGE_NAME@),
    ensures
        toolchain_path_of(lacking) == toolchain_path_of(declaring),
        toolchain_path_of(lacking) == TYPESCRIPT_TSDK_PATH@,
{
}

/// A host's answer is always an answer to the request that was made.
pub proof fn host_answers_the_request(host: Host, request: RequestView)
    ensures
        answers(request, host.answer(request)),
{
}

/// A reply that does not answer the pending request leaves the resolution
/// and the cache as they are.
pub proof fn stray_reply_changes_nothing(
    resolution: ResolutionView,
    cache: Option<Seq<char>>,
    reply: ReplyView,
)
    requires
        !answers(resolution.request(), reply),
    ensures
        resolution.advance(cache, reply) == (ProgressView::Continue(resolution), cache),
{
}

/// A path in the cache is never cleared or replaced: no reply, in no state of
/// a resolution, changes a cache that holds a path.
pub proof fn cached_path_is_kept(resolution: ResolutionView, path: Seq<char>, reply: ReplyView)
    ensures
        resolution.advance(Some(path), reply).1 == Some(path),
{
}

/// A whole resolution leaves a cached path as it found it, and leaves the
/// cache empty only where it failed.
pub proof fn resolution_fills_cache(cache: Option<Seq<char>>, workspace_root: Seq<char>, host: Host)
    ensures
        ({
            let run = ResolutionView::begin(workspace_root).run(cache, host);
            &&& cache is Some ==> run.cache == cache
            &&& run.outcome is Ok ==> run.cache is Some
            &&& run.outcome matches Ok(launch) ==> run.cache == Some(launch.args[0])
                && launch.args.len() == 1
            &&& run.outcome is Err ==> run.cache is None
        }),
{
    run_is_resolved(cache, workspace_root, host);
}

/// From any state, a resolution ends after at least one and at most as many
/// requests as it has steps left, which is never more than four.
pub proof fn resolution_is_bounded(
    resolution: ResolutionView,
    cache: Option<Seq<char>>,
    host: Host,
)
    ensures
        1 <= resolution.run(cache, host).requests.len() <= resolution.steps_left() <= 4,
{
    reveal_with_fuel(ResolutionView::run, 4);
}

/// Nothing is asked twice, so nothing is tried again: the requests of one
/// resolution differ from each other.
pub proof fn nothing_is_asked_twice(
    cache: Option<Seq<char>>,
    workspace_root: Seq<char>,
    host: Host,
)
    ensures
        ({
            let run = ResolutionView::begin(workspace_root).run(cache, host);
            forall|i: int, j: int|
                0 <= i < j < run.requests.len() ==> run.requests[i] != run.requests[j]
        }),
{
    run_is_resolved(cache, workspace_root, host);
}

/// Once a resolution has succeeded, the next one on the same resolver only
/// reads the manifest: it checks no file and calls no registry, whatever the
/// host looks like by then, and launches the same script.
pub proof fn repeated_resolution_uses_cache(
    cache: Option<Seq<char>>,
    workspace_root: Seq<char>,
    first: Host,
    second: Host,
)
    requires
        ResolutionView::begin(workspace_root).run(cache, first).outcome is Ok,
    ensures
        ({
            let before = ResolutionView::begin(workspace_root).run(cache, first);
            let again = ResolutionView::begin(workspace_root).run(before.cache, second);
            &&& again.requests == seq![
                RequestView::ReadManifest { path: manifest_path_of(workspace_root) },
            ]
            &&& forall|i: int|
                0 <= i < again.requests.len() ==> !again.requests[i].is_existence_check()
                    && !again.requests[i].is_registry_call()
            &&& again.outcome is Ok
            &&& again.outcome->Ok_0.args == before.outcome->Ok_0.args
            &&& again.cache == before.cache
        }),
{
    run_is_resolved(cache, workspace_root, first);
    let before = resolved(cache, workspace_root, first);
    run_is_resolved(before.cache, workspace_root, second);
}

/// Where the server binary is cached, or is found at its expected place, the
/// registry is never called and the resolution succeeds.
pub proof fn present_binary_needs_no_registry(
    cache: Option<Seq<char>>,
    workspace_root: Seq<char>,
    host: Host,
)
    requires
        cache is Some || (host.binary_present)(server_binary_path_of(workspace_root)),
    ensures
        ({
            let run = ResolutionView::begin(workspace_root).run(cache, host);
            &&& forall|i: int|
                0 <= i < run.requests.len() ==> !(#[trigger] run.requests[i]).is_registry_call()
            &&& run.outcome is Ok
        }),
{
    run_is_resolved(cache, workspace_root, host);
}

/// Where nothing is cached and the server binary is not at its expected
/// place, the package is acquired in one attempt: the file is checked once,
/// the latest version is asked for once, and at most one install follows.
/// If the attempt succeeds, the expected place is launched and cached though
/// no file was checked again.
pub proof fn absent_binary_is_acquired_once(workspace_root: Seq<char>, host: Host)
    requires
        !(host.binary_present)(server_binary_path_of(workspace_root)),
    ensures
        ({
            let run = ResolutionView::begin(workspace_root).run(None, host);
            let expected = server_binary_path_of(workspace_root);
            let attempt = acquired(PACKAGE_NAME@, install_dir_of(workspace_root), host);
            &&& 3 <= run.requests.len() <= 4
            &&& run.requests.subrange(2, run.requests.len() as int) == attempt.requests
            &&& run.requests[1] == RequestView::ProbeBinary { path: expected }
            &&& run.requests[2] == RequestView::LatestVersion { package: PACKAGE_NAME@ }
            &&& forall|i: int|
                0 <= i < run.requests.len() ==> ((#[trigger] run.requests[i]).is_existence_check()
                    <==> i == 1)
            &&& forall|i: int|
                0 <= i < run.requests.len() ==> (#[trigger] run.requests[i] is LatestVersion
                    <==> i == 2)
            &&& forall|i: int|
                0 <= i < run.requests.len() ==> (#[trigger] run.requests[i] is Install <==> i == 3)
            &&& attempt.outcome is Ok ==> {
                &&& run.outcome is Ok
                &&& run.outcome->Ok_0.args == seq![expected]
                &&& run.cache == Some(expected)
            }
        }),
{
    run_is_resolved(None, workspace_root, host);
    let run = resolved(None, workspace_root, host);
    let attempt = acquired(PACKAGE_NAME@, install_dir_of(workspace_root), host);
    assert(run.requests.subrange(2, run.requests.len() as int) =~= attempt.requests);
}

/// A resolution fails exactly where nothing is cached, the server binary is
/// not at its expected place, and the acquisition fails; it then fails with
/// the acquisition's error.
pub proof fn resolution_fails_only_with_acquisition(
    cache: Option<Seq<char>>,
    workspace_root: Seq<char>,
    host: Host,
)
    ensures
        ({
            let run = ResolutionView::begin(workspace_root).run(cache, host);
            let attempt = acquired(PACKAGE_NAME@, install_dir_of(workspace_root), host);
            &&& run.outcome is Err <==> {
                &&& cache is None
                &&& !(host.binary_present)(server_binary_path_of(workspace_root))
                &&& attempt.outcome is Err
            }
            &&& run.outcome is Err ==> run.outcome->Err_0->Acquisition_0
                == attempt.outcome->Err_0
        }),
{
    run_is_resolved(cache, workspace_root, host);
}

} // verus!
