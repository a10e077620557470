//! What holds of every resolution.

use vstd::prelude::*;
use crate::model::{
    advance, binary_name, binary_path, cache_after, cache_is_valid, expects, initial,
    install_requests, install_result, no_asset_message, remaining, repository, request_of,
    resolve, respond, run, Host, Outcome, ResolutionView,
};
use crate::platform::asset_name;
use crate::protocol::{DownloadedFileType, InstallationStatus, RequestView, ResponseView};
use crate::release::find_asset;

verus! {

/// Whether carrying out `request` takes the host to the network.
pub open spec fn uses_network(request: RequestView) -> bool {
    request is LatestRelease || request is DownloadFile
}

/// A response that a resolution does not wait for leaves the resolution and
/// the cache as they are.
pub proof fn lemma_unexpected_response_is_ignored(
    cache: Option<Seq<char>>,
    state: ResolutionView,
    response: ResponseView,
)
    requires
        !expects(state, response),
    ensures
        advance(cache, state, response) == state,
        cache_after(cache, state, response) == cache,
{
}

/// Every response that a resolution waits for brings it closer to its end.
pub proof fn lemma_expected_response_makes_progress(
    cache: Option<Seq<char>>,
    state: ResolutionView,
    response: ResponseView,
)
    requires
        expects(state, response),
    ensures
        remaining(advance(cache, state, response)) < remaining(state),
{
}

/// The cache changes only when a downloaded binary has been made executable,
/// and then it holds that binary's path, with which the resolution ends.
pub proof fn lemma_cache_changes_only_after_install(
    cache: Option<Seq<char>>,
    state: ResolutionView,
    response: ResponseView,
)
    requires
        cache_after(cache, state, response) != cache,
    ensures
        state is MakingExecutable,
        response matches ResponseView::MakeFileExecutable(Ok(_)),
        cache_after(cache, state, response) == Some(state->MakingExecutable_path),
        advance(cache, state, response) == ResolutionView::Finished(
            Ok(state->MakingExecutable_path),
        ),
{
}

/// A resolution comes to its end, and asks the host no more often than
/// `remaining` says: at most eight times from its beginning.
pub proof fn lemma_requests_are_bounded(cache: Option<Seq<char>>, state: ResolutionView, host: Host)
    ensures
        run(cache, state, host).requests.len() <= remaining(state),
    decreases remaining(state),
{
    match state {
        ResolutionView::Finished(_) => {},
        _ => {
            let response = respond(host, request_of(state)->Some_0);
            lemma_requests_are_bounded(
                cache_after(cache, state, response),
                advance(cache, state, response),
                host,
            );
        },
    }
}

/// Driving a resolution from its beginning against `host`, one request at a
/// time, asks what `resolve` says and ends as `resolve` says.
pub proof fn lemma_run_is_resolve(cache: Option<Seq<char>>, host: Host)
    ensures
        run(cache, initial(), host) == resolve(cache, host),
{
    reveal_with_fuel(run, 9);
    let stepped = run(cache, initial(), host);
    let direct = resolve(cache, host);
    assert(stepped.requests =~= direct.requests);
}

/// A path that a resolution returns is the one found on the search path, or
/// the cached one, at which a regular file was seen to exist, or the one at
/// which a binary has just been installed.
pub proof fn lemma_returned_path_is_backed(cache: Option<Seq<char>>, host: Host, path: Seq<char>)
    requires
        run(cache, initial(), host).result == Ok::<Seq<char>, Seq<char>>(path),
    ensures
        host.on_path == Some(path) || (cache == Some(path) && host.regular_files.contains(path))
            || install_result(host) == Ok::<Seq<char>, Seq<char>>(path),
{
    lemma_run_is_resolve(cache, host);
}

/// A binary on the search path is what a resolution returns, whatever is
/// cached. Only the search path is consulted: nothing is fetched, and the
/// cache stays as it is.
pub proof fn lemma_binary_on_path_is_taken(cache: Option<Seq<char>>, host: Host, path: Seq<char>)
    requires
        host.on_path == Some(path),
    ensures
        run(cache, initial(), host) == (Outcome {
            requests: seq![RequestView::Which { binary_name: binary_name() }],
            result: Ok(path),
            cache,
        }),
        forall|i: int|
            0 <= i < run(cache, initial(), host).requests.len() ==> !uses_network(
                #[trigger] run(cache, initial(), host).requests[i],
            ),
{
    lemma_run_is_resolve(cache, host);
}

/// With no binary on the search path, a cached path at which a regular file
/// still exists is what a resolution returns. Only the search path and the
/// file are consulted: nothing is fetched, and the cache stays as it is.
pub proof fn lemma_cached_binary_is_reused(host: Host, path: Seq<char>)
    requires
        host.on_path is None,
        host.regular_files.contains(path),
    ensures
        run(Some(path), initial(), host) == (Outcome {
            requests: seq![
                RequestView::Which { binary_name: binary_name() },
                RequestView::Stat { path },
            ],
            result: Ok(path),
            cache: Some(path),
        }),
        forall|i: int|
            0 <= i < run(Some(path), initial(), host).requests.len() ==> !uses_network(
                #[trigger] run(Some(path), initial(), host).requests[i],
            ),
{
    lemma_run_is_resolve(Some(path), host);
    assert(resolve(Some(path), host).requests =~= seq![
        RequestView::Which { binary_name: binary_name() },
        RequestView::Stat { path },
    ]);
}

/// With no binary on the search path, a cached path at which no regular
/// file exists any more is not returned for being cached: the resolution
/// goes on to install the latest release, and ends as the installation ends.
/// If that fails, the cache stays as it is.
pub proof fn lemma_stale_cache_falls_through(host: Host, path: Seq<char>)
    requires
        host.on_path is None,
        !host.regular_files.contains(path),
    ensures
        run(Some(path), initial(), host).requests == (seq![
            RequestView::Which { binary_name: binary_name() },
            RequestView::Stat { path },
        ] + install_requests(host)),
        run(Some(path), initial(), host).result == install_result(host),
        run(Some(path), initial(), host).cache == (match install_result(host) {
            Ok(installed) => Some(installed),
            Err(_) => Some(path),
        }),
{
    lemma_run_is_resolve(Some(path), host);
}

/// Where nothing is found locally and the latest release has no asset named
/// for the platform, the resolution fails with a message that names the
/// asset it looked for. Nothing is downloaded or cached.
pub proof fn lemma_missing_asset_is_reported(cache: Option<Seq<char>>, host: Host)
    requires
        host.on_path is None,
        !cache_is_valid(cache, host),
        host.latest_release is Ok,
        find_asset(
            host.latest_release->Ok_0.assets,
            asset_name(host.platform.0, host.platform.1),
        ) is None,
    ensures
        run(cache, initial(), host).result == Err::<Seq<char>, Seq<char>>(
            no_asset_message(asset_name(host.platform.0, host.platform.1)),
        ),
        run(cache, initial(), host).cache == cache,
        forall|i: int|
            0 <= i < run(cache, initial(), host).requests.len() ==> !(#[trigger] run(
                cache,
                initial(),
                host,
            ).requests[i] is DownloadFile),
{
    lemma_run_is_resolve(cache, host);
}

/// Where nothing is found locally, the latest release lists an asset named
/// for the platform, and neither the download nor the marking fails, that
/// asset is stored under the name made of the release's version and made
/// executable; its path is returned and cached.
pub proof fn lemma_fresh_install(cache: Option<Seq<char>>, host: Host)
    requires
        host.on_path is None,
        !cache_is_valid(cache, host),
        host.latest_release is Ok,
        find_asset(
            host.latest_release->Ok_0.assets,
            asset_name(host.platform.0, host.platform.1),
        ) is Some,
        host.download is Ok,
        host.make_executable is Ok,
    ensures
        ({
            let release = host.latest_release->Ok_0;
            let asset = find_asset(release.assets, asset_name(host.platform.0, host.platform.1))
                ->Some_0;
            let path = binary_path(release.version);
            let outcome = run(cache, initial(), host);
            let asked_locally = match cache {
                Some(stale) => seq![
                    RequestView::Which { binary_name: binary_name() },
                    RequestView::Stat { path: stale },
                ],
                None => seq![RequestView::Which { binary_name: binary_name() }],
            };
            &&& outcome.result == Ok::<Seq<char>, Seq<char>>(path)
            &&& outcome.cache == Some(path)
            &&& outcome.requests == asked_locally + seq![
                RequestView::SetInstallationStatus { status: InstallationStatus::CheckingForUpdate },
                RequestView::LatestRelease {
                    repo: repository(),
                    require_assets: true,
                    pre_release: false,
                },
                RequestView::CurrentPlatform,
                RequestView::SetInstallationStatus { status: InstallationStatus::Downloading },
                RequestView::DownloadFile {
                    url: asset.download_url,
                    path,
                    file_type: DownloadedFileType::Uncompressed,
                },
                RequestView::MakeFileExecutable { path },
            ]
        }),
{
    lemma_run_is_resolve(cache, host);
}

/// The message about a missing asset ends with the asset's name.
pub proof fn lemma_no_asset_message_names_asset(name: Seq<char>)
    ensures
        name.is_suffix_of(no_asset_message(name)),
{
    let message = no_asset_message(name);
    assert(message.skip(message.len() - name.len()) =~= name);
}

/// Once a resolution has installed a binary, the next resolution of the
/// session returns the same path without fetching anything, provided that
/// the search path still holds no binary and that the installed file is
/// still there.
pub proof fn lemma_installed_binary_is_cached(
    cache: Option<Seq<char>>,
    first: Host,
    second: Host,
)
    requires
        first.on_path is None,
        !cache_is_valid(cache, first),
        install_result(first) is Ok,
        second.on_path is None,
        second.regular_files.contains(install_result(first)->Ok_0),
    ensures
        ({
            let before = run(cache, initial(), first);
            let after = run(before.cache, initial(), second);
            &&& before.result == install_result(first)
            &&& before.cache == Some(install_result(first)->Ok_0)
            &&& after.result == before.result
            &&& after.cache == before.cache
            &&& after.requests == seq![
                RequestView::Which { binary_name: binary_name() },
                RequestView::Stat { path: install_result(first)->Ok_0 },
            ]
            &&& forall|i: int|
                0 <= i < after.requests.len() ==> !uses_network(#[trigger] after.requests[i])
        }),
{
    lemma_run_is_resolve(cache, first);
    let path = install_result(first)->Ok_0;
    lemma_cached_binary_is_reused(second, path);
}

} // verus!
