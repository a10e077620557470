//! What a resolution does, stated over plain text.
//!
//! [`advance`] is one decision: where a resolution stands once the host has
//! answered. [`run`] is a whole resolution against a host that is described
//! by its answers, and [`resolve`] says in closed form what such a run asks
//! and how it ends.

use vstd::prelude::*;
use crate::platform::{asset_name, Architecture, Os};
use crate::protocol::{
    answers, DownloadedFileType, InstallationStatus, RequestView, ResponseView,
};
use crate::release::{find_asset, ReleaseView};

verus! {

/// The name under which the language server is looked for on the search path.
pub open spec fn binary_name() -> Seq<char> {
    "cem"@
}

/// The repository whose releases hold the language server.
pub open spec fn repository() -> Seq<char> {
    "bennypowers/cem"@
}

/// Where the binary of the release `version` is stored: `cem-` and the
/// version, spelled as the release spells it.
pub open spec fn binary_path(version: Seq<char>) -> Seq<char> {
    "cem-"@ + version
}

/// The error of a release that holds no asset called `name`.
pub open spec fn no_asset_message(name: Seq<char>) -> Seq<char> {
    "no asset found matching "@ + name
}

/// The error of a download that failed for the reason `cause`.
pub open spec fn download_failure_message(cause: Seq<char>) -> Seq<char> {
    "failed to download file: "@ + cause
}

/// Where a resolution stands: what it waits for, and what it has learnt.
pub enum ResolutionView {
    /// Waiting to hear whether the search path holds the binary.
    FindingOnPath,
    /// Waiting to hear whether the binary cached at `path` is still a file.
    CheckingCache { path: Seq<char> },
    /// Waiting for the editor to show that an update check is under way.
    AnnouncingCheck,
    /// Waiting for the latest release.
    QueryingRelease,
    /// Waiting to hear the platform, to pick an asset of `release`.
    QueryingPlatform { release: ReleaseView },
    /// Waiting for the editor to show that a download is under way.
    AnnouncingDownload { url: Seq<char>, path: Seq<char> },
    /// Waiting for the asset at `url` to be stored at `path`.
    Downloading { url: Seq<char>, path: Seq<char> },
    /// Waiting for the file at `path` to be made executable.
    MakingExecutable { path: Seq<char> },
    /// Over: the path of the binary, or the error.
    Finished(Result<Seq<char>, Seq<char>>),
}

/// The state in which every resolution begins.
pub open spec fn initial() -> ResolutionView {
    ResolutionView::FindingOnPath
}

/// What a resolution in `state` asks of the host; nothing once it is over.
pub open spec fn request_of(state: ResolutionView) -> Option<RequestView> {
    match state {
        ResolutionView::FindingOnPath => Some(RequestView::Which { binary_name: binary_name() }),
        ResolutionView::CheckingCache { path } => Some(RequestView::Stat { path }),
        ResolutionView::AnnouncingCheck => Some(
            RequestView::SetInstallationStatus { status: InstallationStatus::CheckingForUpdate },
        ),
        ResolutionView::QueryingRelease => Some(
            RequestView::LatestRelease {
                repo: repository(),
                require_assets: true,
                pre_release: false,
            },
        ),
        ResolutionView::QueryingPlatform { .. } => Some(RequestView::CurrentPlatform),
        ResolutionView::AnnouncingDownload { .. } => Some(
            RequestView::SetInstallationStatus { status: InstallationStatus::Downloading },
        ),
        ResolutionView::Downloading { url, path } => Some(
            RequestView::DownloadFile { url, path, file_type: DownloadedFileType::Uncompressed },
        ),
        ResolutionView::MakingExecutable { path } => Some(
            RequestView::MakeFileExecutable { path },
        ),
        ResolutionView::Finished(_) => None,
    }
}

/// Whether a resolution in `state` takes `response` as the answer it waits
/// for.
pub open spec fn expects(state: ResolutionView, response: ResponseView) -> bool {
    match request_of(state) {
        Some(request) => answers(request, response),
        None => false,
    }
}

/// Where a resolution stands once the platform is known: at the download of
/// the asset named for the platform, or at an end if `release` has no such
/// asset.
pub open spec fn select_asset(release: ReleaseView, os: Os, arch: Architecture) -> ResolutionView {
    let name = asset_name(os, arch);
    match find_asset(release.assets, name) {
        Some(asset) => ResolutionView::AnnouncingDownload {
            url: asset.download_url,
            path: binary_path(release.version),
        },
        None => ResolutionView::Finished(Err(no_asset_message(name))),
    }
}

/// Where a resolution that stood in `state` stands after `response`, if the
/// session's cached path is `cache`. A response that `state` does not expect
/// changes nothing.
pub open spec fn advance(
    cache: Option<Seq<char>>,
    state: ResolutionView,
    response: ResponseView,
) -> ResolutionView {
    match (state, response) {
        (ResolutionView::FindingOnPath, ResponseView::Which(Some(path))) => {
            ResolutionView::Finished(Ok(path))
        },
        (ResolutionView::FindingOnPath, ResponseView::Which(None)) => match cache {
            Some(path) => ResolutionView::CheckingCache { path },
            None => ResolutionView::AnnouncingCheck,
        },
        (ResolutionView::CheckingCache { path }, ResponseView::Stat(is_file)) => {
            if is_file {
                ResolutionView::Finished(Ok(path))
            } else {
                ResolutionView::AnnouncingCheck
            }
        },
        (ResolutionView::AnnouncingCheck, ResponseView::InstallationStatusSet) => {
            ResolutionView::QueryingRelease
        },
        (ResolutionView::QueryingRelease, ResponseView::LatestRelease(Ok(release))) => {
            ResolutionView::QueryingPlatform { release }
        },
        (ResolutionView::QueryingRelease, ResponseView::LatestRelease(Err(message))) => {
            ResolutionView::Finished(Err(message))
        },
        (ResolutionView::QueryingPlatform { release }, ResponseView::CurrentPlatform(os, arch)) => {
            select_asset(release, os, arch)
        },
        (
            ResolutionView::AnnouncingDownload { url, path },
            ResponseView::InstallationStatusSet,
        ) => ResolutionView::Downloading { url, path },
        (ResolutionView::Downloading { url, path }, ResponseView::DownloadFile(Ok(_))) => {
            ResolutionView::MakingExecutable { path }
        },
        (ResolutionView::Downloading { url, path }, ResponseView::DownloadFile(Err(cause))) => {
            ResolutionView::Finished(Err(download_failure_message(cause)))
        },
        (ResolutionView::MakingExecutable { path }, ResponseView::MakeFileExecutable(Ok(_))) => {
            ResolutionView::Finished(Ok(path))
        },
        (
            ResolutionView::MakingExecutable { path },
            ResponseView::MakeFileExecutable(Err(message)),
        ) => ResolutionView::Finished(Err(message)),
        _ => state,
    }
}

/// The session's cached path after `response`, if it was `cache` before and
/// the resolution stood in `state`. Only a downloaded binary that has just
/// been made executable is cached.
pub open spec fn cache_after(
    cache: Option<Seq<char>>,
    state: ResolutionView,
    response: ResponseView,
) -> Option<Seq<char>> {
    match (state, response) {
        (ResolutionView::MakingExecutable { path }, ResponseView::MakeFileExecutable(Ok(_))) => {
            Some(path)
        },
        _ => cache,
    }
}

/// A host, described by what it answers during one resolution.
pub struct Host {
    /// The path of the binary on the search path, if it is there.
    pub on_path: Option<Seq<char>>,
    /// The paths at which a regular file exists.
    pub regular_files: Set<Seq<char>>,
    /// The latest release, or why it cannot be fetched.
    pub latest_release: Result<ReleaseView, Seq<char>>,
    /// The platform the editor runs on.
    pub platform: (Os, Architecture),
    /// Whether a download succeeds, or why it fails.
    pub download: Result<(), Seq<char>>,
    /// Whether a file can be made executable, or why not.
    pub make_executable: Result<(), Seq<char>>,
}

/// What `host` answers to `request`.
pub open spec fn respond(host: Host, request: RequestView) -> ResponseView {
    match request {
        RequestView::Which { .. } => ResponseView::Which(host.on_path),
        RequestView::Stat { path } => ResponseView::Stat(host.regular_files.contains(path)),
        RequestView::SetInstallationStatus { .. } => ResponseView::InstallationStatusSet,
        RequestView::LatestRelease { .. } => ResponseView::LatestRelease(host.latest_release),
        RequestView::CurrentPlatform => ResponseView::CurrentPlatform(
            host.platform.0,
            host.platform.1,
        ),
        RequestView::DownloadFile { .. } => ResponseView::DownloadFile(host.download),
        RequestView::MakeFileExecutable { .. } => ResponseView::MakeFileExecutable(
            host.make_executable,
        ),
    }
}

/// How a resolution went: what was asked of the host, in order, how it
/// ended, and what the session has cached afterwards.
pub struct Outcome {
    pub requests: Seq<RequestView>,
    pub result: Result<Seq<char>, Seq<char>>,
    pub cache: Option<Seq<char>>,
}

/// An upper bound on the requests that a resolution in `state` still makes.
pub open spec fn remaining(state: ResolutionView) -> nat {
    match state {
        ResolutionView::FindingOnPath => 8,
        ResolutionView::CheckingCache { .. } => 7,
        ResolutionView::AnnouncingCheck => 6,
        ResolutionView::QueryingRelease => 5,
        ResolutionView::QueryingPlatform { .. } => 4,
        ResolutionView::AnnouncingDownload { .. } => 3,
        ResolutionView::Downloading { .. } => 2,
        ResolutionView::MakingExecutable { .. } => 1,
        ResolutionView::Finished(_) => 0,
    }
}

/// The rest of a resolution that stands in `state`, driven to its end: each
/// request is put to `host`, and the answer decides how it goes on.
pub open spec fn run(cache: Option<Seq<char>>, state: ResolutionView, host: Host) -> Outcome
    decreases remaining(state),
{
    match state {
        ResolutionView::Finished(result) => Outcome { requests: Seq::empty(), result, cache },
        _ => {
            let request = request_of(state)->Some_0;
            let response = respond(host, request);
            let rest = run(
                cache_after(cache, state, response),
                advance(cache, state, response),
                host,
            );
            Outcome { requests: seq![request] + rest.requests, result: rest.result, cache: rest.cache }
        },
    }
}

/// What is asked of `host` to fetch and install the latest release.
pub open spec fn install_requests(host: Host) -> Seq<RequestView> {
    let query = seq![
        RequestView::SetInstallationStatus { status: InstallationStatus::CheckingForUpdate },
        RequestView::LatestRelease {
            repo: repository(),
            require_assets: true,
            pre_release: false,
        },
    ];
    match host.latest_release {
        Err(_) => query,
        Ok(release) => {
            let path = binary_path(release.version);
            match find_asset(release.assets, asset_name(host.platform.0, host.platform.1)) {
                None => query + seq![RequestView::CurrentPlatform],
                Some(asset) => {
                    let download = seq![
                        RequestView::CurrentPlatform,
                        RequestView::SetInstallationStatus {
                            status: InstallationStatus::Downloading,
                        },
                        RequestView::DownloadFile {
                            url: asset.download_url,
                            path,
                            file_type: DownloadedFileType::Uncompressed,
                        },
                    ];
                    match host.download {
                        Err(_) => query + download,
                        Ok(_) => query + download + seq![
                            RequestView::MakeFileExecutable { path },
                        ],
                    }
                },
            }
        },
    }
}

/// How fetching and installing the latest release from `host` ends: with the
/// path of the installed binary, or with the first failure.
pub open spec fn install_result(host: Host) -> Result<Seq<char>, Seq<char>> {
    match host.latest_release {
        Err(message) => Err(message),
        Ok(release) => {
            let name = asset_name(host.platform.0, host.platform.1);
            match (find_asset(release.assets, name), host.download, host.make_executable) {
                (None, _, _) => Err(no_asset_message(name)),
                (Some(_), Err(cause), _) => Err(download_failure_message(cause)),
                (Some(_), Ok(_), Err(message)) => Err(message),
                (Some(_), Ok(_), Ok(_)) => Ok(binary_path(release.version)),
            }
        },
    }
}

/// Whether a resolution against `host` ends at the binary on the search
/// path.
pub open spec fn found_on_path(host: Host) -> bool {
    host.on_path is Some
}

/// Whether a resolution against `host` that finds nothing on the search path
/// ends at the binary cached in `cache`.
pub open spec fn cache_is_valid(cache: Option<Seq<char>>, host: Host) -> bool {
    match cache {
        Some(path) => host.regular_files.contains(path),
        None => false,
    }
}

/// A whole resolution against `host`, in a session whose cached path is
/// `cache`: a binary on the search path is taken first, then a cached binary
/// that is still a regular file, and only then is the latest release
/// installed.
pub open spec fn resolve(cache: Option<Seq<char>>, host: Host) -> Outcome {
    let lookup = seq![RequestView::Which { binary_name: binary_name() }];
    let probe = match cache {
        Some(path) => seq![RequestView::Stat { path }],
        None => Seq::empty(),
    };
    if found_on_path(host) {
        Outcome { requests: lookup, result: Ok(host.on_path->Some_0), cache }
    } else if cache_is_valid(cache, host) {
        Outcome { requests: lookup + probe, result: Ok(cache->Some_0), cache }
    } else {
        let result = install_result(host);
        Outcome {
            requests: lookup + probe + install_requests(host),
            result,
            cache: match result {
                Ok(path) => Some(path),
                Err(_) => cache,
            },
        }
    }
}

} // verus!
