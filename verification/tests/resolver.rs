use rsx_bootstrap::acquirer::AcquisitionError;
use rsx_bootstrap::host::{Reply, Request};
use rsx_bootstrap::locator::BootstrapState;
use rsx_bootstrap::manifest::{DependencyGroup, ManifestRead, ProjectManifest};
use rsx_bootstrap::resolver::{
    launch_spec, resolve, BootstrapError, InitializationOptions, LaunchSpec, Progress, Resolution,
};

const ROOT: &str = "/ws";
const MANIFEST: &str = "/ws/package.json";
const EXPECTED: &str = "/ws/node_modules/@rsx/language-server/bin/rsx-language-server.js";
const PACKAGE: &str = "@rsx/language-server";
const TSDK: &str = "node_modules/typescript/lib";

/// A host whose answers are fixed in advance.
struct ScriptedHost {
    manifest: fn() -> ManifestRead,
    binary_present: bool,
    latest_version: Result<String, String>,
    install: Result<(), String>,
}

impl ScriptedHost {
    fn answer(&self, request: &Request) -> Reply {
        match request {
            Request::ReadManifest { .. } => Reply::Manifest((self.manifest)()),
            Request::ProbeBinary { .. } => Reply::BinaryPresent(self.binary_present),
            Request::LatestVersion { .. } => Reply::LatestVersion(self.latest_version.clone()),
            Request::Install { .. } => Reply::Installed(self.install.clone()),
        }
    }
}

fn no_manifest() -> ManifestRead {
    ManifestRead::Unreadable
}

fn broken_manifest() -> ManifestRead {
    ManifestRead::Malformed
}

fn typescript_manifest() -> ManifestRead {
    let mut dependencies = DependencyGroup::new();
    dependencies.insert("typescript".to_string(), "5.0.0".to_string());
    ManifestRead::Parsed(ProjectManifest {
        dependencies,
        dev_dependencies: DependencyGroup::new(),
    })
}

fn plain_manifest() -> ManifestRead {
    let mut dependencies = DependencyGroup::new();
    dependencies.insert("react".to_string(), "18.2.0".to_string());
    ManifestRead::Parsed(ProjectManifest {
        dependencies,
        dev_dependencies: DependencyGroup::new(),
    })
}

fn host_with_binary(manifest: fn() -> ManifestRead) -> ScriptedHost {
    ScriptedHost {
        manifest,
        binary_present: true,
        latest_version: Err("the registry must not be asked".to_string()),
        install: Err("nothing must be installed".to_string()),
    }
}

fn host_without_binary(manifest: fn() -> ManifestRead) -> ScriptedHost {
    ScriptedHost {
        manifest,
        binary_present: false,
        latest_version: Ok("1.4.2".to_string()),
        install: Ok(()),
    }
}

/// Runs one resolution to its end and logs every request it made.
fn run(
    state: &mut BootstrapState,
    workspace_root: &str,
    host: &ScriptedHost,
) -> (Result<LaunchSpec, BootstrapError>, Vec<Request>) {
    let mut resolution = resolve(workspace_root);
    let mut requests = Vec::new();
    loop {
        assert!(requests.len() < 4, "a resolution makes at most four requests");
        let request = resolution.request();
        let reply = host.answer(&request);
        requests.push(request);
        match resolution.advance(state, reply) {
            Progress::Continue(next) => resolution = next,
            Progress::Done(spec) => return (Ok(spec), requests),
            Progress::Failed(error) => return (Err(error), requests),
        }
    }
}

fn launch_of(path: &str) -> LaunchSpec {
    LaunchSpec {
        command: "node".to_string(),
        args: vec![path.to_string()],
        initialization_options: InitializationOptions { tsdk_path: TSDK.to_string() },
    }
}

fn read_request() -> Request {
    Request::ReadManifest { path: MANIFEST.to_string() }
}

fn probe_request() -> Request {
    Request::ProbeBinary { path: EXPECTED.to_string() }
}

fn version_request() -> Request {
    Request::LatestVersion { package: PACKAGE.to_string() }
}

fn install_request(version: &str) -> Request {
    Request::Install {
        package: PACKAGE.to_string(),
        version: version.to_string(),
        target_dir: "/ws/node_modules".to_string(),
    }
}

fn is_registry_call(request: &Request) -> bool {
    matches!(request, Request::LatestVersion { .. } | Request::Install { .. })
}

fn is_existence_check(request: &Request) -> bool {
    matches!(request, Request::ProbeBinary { .. })
}

#[test]
fn launch_spec_runs_the_script_with_the_interpreter() {
    let spec = launch_spec("/ws/server.js".to_string(), "sdk/lib".to_string());
    assert_eq!(spec.command, "node");
    assert_eq!(spec.args, vec!["/ws/server.js".to_string()]);
    assert_eq!(spec.initialization_options.tsdk_path, "sdk/lib");
}

#[test]
fn resolution_begins_with_the_manifest() {
    let resolution = resolve(ROOT);
    assert_eq!(resolution, Resolution::AwaitingManifest { workspace_root: ROOT.to_string() });
    assert_eq!(resolution.request(), read_request());
}

#[test]
fn present_binary_with_declared_typescript() {
    let mut state = BootstrapState::new();
    let (outcome, requests) = run(&mut state, ROOT, &host_with_binary(typescript_manifest));
    assert_eq!(
        outcome,
        Ok(LaunchSpec {
            command: "node".to_string(),
            args: vec![EXPECTED.to_string()],
            initialization_options: InitializationOptions {
                tsdk_path: "node_modules/typescript/lib".to_string(),
            },
        })
    );
    assert_eq!(requests, vec![read_request(), probe_request()]);
    assert_eq!(requests.iter().filter(|request| is_registry_call(request)).count(), 0);
    assert_eq!(state.resolved_server_path(), Some(&EXPECTED.to_string()));
}

#[test]
fn absent_binary_without_manifest_is_acquired() {
    let mut state = BootstrapState::new();
    let (outcome, requests) = run(&mut state, ROOT, &host_without_binary(no_manifest));
    assert_eq!(outcome, Ok(launch_of(EXPECTED)));
    assert_eq!(
        requests,
        vec![read_request(), probe_request(), version_request(), install_request("1.4.2")]
    );
    assert_eq!(requests.iter().filter(|r| matches!(r, Request::LatestVersion { .. })).count(), 1);
    assert_eq!(requests.iter().filter(|r| matches!(r, Request::Install { .. })).count(), 1);
    assert_eq!(requests.iter().filter(|r| is_existence_check(r)).count(), 1);
    assert_eq!(state.resolved_server_path(), Some(&EXPECTED.to_string()));
}

#[test]
fn unreachable_registry_fails_the_resolution() {
    let mut state = BootstrapState::new();
    let host = ScriptedHost {
        manifest: typescript_manifest,
        binary_present: false,
        latest_version: Err("registry unreachable".to_string()),
        install: Ok(()),
    };
    let (outcome, requests) = run(&mut state, ROOT, &host);
    assert_eq!(
        outcome,
        Err(BootstrapError::Acquisition(AcquisitionError::RegistryUnreachable {
            package: PACKAGE.to_string(),
            detail: "registry unreachable".to_string(),
        }))
    );
    assert_eq!(requests, vec![read_request(), probe_request(), version_request()]);
    assert_eq!(state.resolved_server_path(), None);
}

#[test]
fn failed_install_fails_the_resolution() {
    let mut state = BootstrapState::new();
    let host = ScriptedHost {
        manifest: no_manifest,
        binary_present: false,
        latest_version: Ok("2.0.0".to_string()),
        install: Err("disk full".to_string()),
    };
    let (outcome, requests) = run(&mut state, ROOT, &host);
    assert_eq!(
        outcome,
        Err(BootstrapError::Acquisition(AcquisitionError::InstallFailed {
            package: PACKAGE.to_string(),
            version: "2.0.0".to_string(),
            detail: "disk full".to_string(),
        }))
    );
    assert_eq!(
        requests,
        vec![read_request(), probe_request(), version_request(), install_request("2.0.0")]
    );
    assert_eq!(state.resolved_server_path(), None);
}

#[test]
fn failed_resolution_is_not_retried_but_the_next_one_starts_over() {
    let mut state = BootstrapState::new();
    let offline = ScriptedHost {
        manifest: no_manifest,
        binary_present: false,
        latest_version: Err("offline".to_string()),
        install: Ok(()),
    };
    let (outcome, requests) = run(&mut state, ROOT, &offline);
    assert!(outcome.is_err());
    assert_eq!(requests.iter().filter(|r| is_registry_call(r)).count(), 1);
    let (outcome, requests) = run(&mut state, ROOT, &host_without_binary(no_manifest));
    assert_eq!(outcome, Ok(launch_of(EXPECTED)));
    assert_eq!(requests.len(), 4);
}

#[test]
fn second_resolution_only_reads_the_manifest() {
    let mut state = BootstrapState::new();
    let (first, _) = run(&mut state, ROOT, &host_with_binary(typescript_manifest));
    assert_eq!(first, Ok(launch_of(EXPECTED)));
    // By now the file is gone and the registry is down: neither is asked.
    let gone = ScriptedHost {
        manifest: no_manifest,
        binary_present: false,
        latest_version: Err("offline".to_string()),
        install: Err("offline".to_string()),
    };
    let (second, requests) = run(&mut state, ROOT, &gone);
    assert_eq!(second, Ok(launch_of(EXPECTED)));
    assert_eq!(requests, vec![read_request()]);
    assert!(!requests.iter().any(is_existence_check));
    assert!(!requests.iter().any(is_registry_call));
    assert_eq!(state.resolved_server_path(), Some(&EXPECTED.to_string()));
}

#[test]
fn resolution_after_an_acquisition_uses_the_cache() {
    let mut state = BootstrapState::new();
    let (first, requests) = run(&mut state, ROOT, &host_without_binary(plain_manifest));
    assert_eq!(first, Ok(launch_of(EXPECTED)));
    assert_eq!(requests.len(), 4);
    let (second, requests) = run(&mut state, ROOT, &host_without_binary(plain_manifest));
    assert_eq!(second, Ok(launch_of(EXPECTED)));
    assert_eq!(requests, vec![read_request()]);
}

#[test]
fn cached_path_is_used_for_another_root_too() {
    let mut state = BootstrapState::new();
    state.remember("/first/server.js");
    let (outcome, requests) = run(&mut state, "/other", &host_without_binary(no_manifest));
    assert_eq!(outcome, Ok(launch_of("/first/server.js")));
    assert_eq!(requests, vec![Request::ReadManifest { path: "/other/package.json".to_string() }]);
    assert_eq!(state.resolved_server_path(), Some(&"/first/server.js".to_string()));
}

#[test]
fn malformed_manifest_does_not_fail_the_resolution() {
    let mut state = BootstrapState::new();
    let (outcome, requests) = run(&mut state, ROOT, &host_with_binary(broken_manifest));
    assert_eq!(outcome, Ok(launch_of(EXPECTED)));
    assert_eq!(requests, vec![read_request(), probe_request()]);
}

#[test]
fn toolchain_path_is_the_same_with_and_without_typescript() {
    let mut with = BootstrapState::new();
    let mut without = BootstrapState::new();
    let (declared, _) = run(&mut with, ROOT, &host_with_binary(typescript_manifest));
    let (lacking, _) = run(&mut without, ROOT, &host_with_binary(plain_manifest));
    assert_eq!(declared.unwrap().initialization_options.tsdk_path, TSDK);
    assert_eq!(lacking.unwrap().initialization_options.tsdk_path, TSDK);
}

#[test]
fn acquired_path_is_not_probed_again() {
    let mut state = BootstrapState::new();
    let resolution = resolve(ROOT);
    let resolution = match resolution.advance(&mut state, Reply::Manifest(no_manifest())) {
        Progress::Continue(next) => next,
        other => panic!("expected a probe, got {other:?}"),
    };
    assert_eq!(resolution.request(), probe_request());
    let resolution = match resolution.advance(&mut state, Reply::BinaryPresent(false)) {
        Progress::Continue(next) => next,
        other => panic!("expected an acquisition, got {other:?}"),
    };
    assert_eq!(state.resolved_server_path(), None);
    assert_eq!(resolution.request(), version_request());
    let resolution =
        match resolution.advance(&mut state, Reply::LatestVersion(Ok("0.9.0".to_string()))) {
            Progress::Continue(next) => next,
            other => panic!("expected an install, got {other:?}"),
        };
    assert_eq!(resolution.request(), install_request("0.9.0"));
    assert_eq!(state.resolved_server_path(), None);
    let done = resolution.advance(&mut state, Reply::Installed(Ok(())));
    assert_eq!(done, Progress::Done(launch_of(EXPECTED)));
    assert_eq!(state.resolved_server_path(), Some(&EXPECTED.to_string()));
}

#[test]
fn stray_reply_leaves_the_resolution_waiting() {
    let mut state = BootstrapState::new();
    let fresh = resolve(ROOT);
    assert_eq!(
        fresh.clone().advance(&mut state, Reply::BinaryPresent(true)),
        Progress::Continue(fresh.clone())
    );
    assert_eq!(
        fresh.clone().advance(&mut state, Reply::Installed(Ok(()))),
        Progress::Continue(fresh.clone())
    );
    assert_eq!(state.resolved_server_path(), None);
    let probing = match fresh.advance(&mut state, Reply::Manifest(no_manifest())) {
        Progress::Continue(next) => next,
        other => panic!("expected a probe, got {other:?}"),
    };
    assert_eq!(
        probing.clone().advance(&mut state, Reply::Manifest(no_manifest())),
        Progress::Continue(probing.clone())
    );
    assert_eq!(
        probing.clone().advance(&mut state, Reply::LatestVersion(Ok("1.0.0".to_string()))),
        Progress::Continue(probing)
    );
    assert_eq!(state.resolved_server_path(), None);
}

#[test]
fn workspace_root_with_a_trailing_separator() {
    let mut state = BootstrapState::new();
    let (outcome, requests) = run(&mut state, "/ws/", &host_without_binary(no_manifest));
    assert_eq!(outcome, Ok(launch_of(EXPECTED)));
    assert_eq!(
        requests,
        vec![read_request(), probe_request(), version_request(), install_request("1.4.2")]
    );
}

#[test]
fn empty_workspace_root_resolves_relative_paths() {
    let mut state = BootstrapState::new();
    let (outcome, requests) = run(&mut state, "", &host_with_binary(no_manifest));
    assert_eq!(
        outcome,
        Ok(launch_of("node_modules/@rsx/language-server/bin/rsx-language-server.js"))
    );
    assert_eq!(
        requests,
        vec![
            Request::ReadManifest { path: "package.json".to_string() },
            Request::ProbeBinary {
                path: "node_modules/@rsx/language-server/bin/rsx-language-server.js".to_string(),
            },
        ]
    );
}

#[test]
fn bootstrap_error_in_words() {
    let error = BootstrapError::Acquisition(AcquisitionError::InstallFailed {
        package: PACKAGE.to_string(),
        version: "1.4.2".to_string(),
        detail: "disk full".to_string(),
    });
    assert_eq!(error.message(), "failed to install @rsx/language-server@1.4.2: disk full");
    let error = BootstrapError::Acquisition(AcquisitionError::RegistryUnreachable {
        package: PACKAGE.to_string(),
        detail: "timeout".to_string(),
    });
    assert_eq!(error.message(), "no latest version of @rsx/language-server: timeout");
}
