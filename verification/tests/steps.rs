//! Single decisions, asset names and the search for an asset.

use zed_cem::platform::{expected_asset_name, Architecture, Os};
use zed_cem::protocol::{DownloadedFileType, InstallationStatus, Request, Response};
use zed_cem::release::{Asset, Release};
use zed_cem::resolver::{CemExtension, Resolution};

fn asset(name: &str, url: &str) -> Asset {
    Asset { name: name.to_string(), download_url: url.to_string() }
}

fn release(version: &str, assets: Vec<Asset>) -> Release {
    Release { version: version.to_string(), assets }
}

#[test]
fn asset_names_for_every_platform() {
    assert_eq!(expected_asset_name(Os::Mac, Architecture::Aarch64), "cem-darwin-arm64");
    assert_eq!(expected_asset_name(Os::Mac, Architecture::X8664), "cem-darwin-amd64");
    assert_eq!(expected_asset_name(Os::Mac, Architecture::X86), "cem-darwin-amd64");
    assert_eq!(expected_asset_name(Os::Linux, Architecture::Aarch64), "cem-linux-arm64");
    assert_eq!(expected_asset_name(Os::Linux, Architecture::X8664), "cem-linux-amd64");
    assert_eq!(expected_asset_name(Os::Linux, Architecture::X86), "cem-linux-amd64");
    assert_eq!(expected_asset_name(Os::Windows, Architecture::Aarch64), "cem-windows-arm64");
    assert_eq!(expected_asset_name(Os::Windows, Architecture::X8664), "cem-windows-amd64");
    assert_eq!(expected_asset_name(Os::Windows, Architecture::X86), "cem-windows-amd64");
}

#[test]
fn platform_labels() {
    assert_eq!(Os::Mac.label(), "darwin");
    assert_eq!(Os::Linux.label(), "linux");
    assert_eq!(Os::Windows.label(), "windows");
    assert_eq!(Architecture::Aarch64.label(), "arm64");
    assert_eq!(Architecture::X8664.label(), "amd64");
    assert_eq!(Architecture::X86.label(), "amd64");
}

#[test]
fn x86_shares_the_amd64_asset() {
    let mut extension = CemExtension::new();
    let state = Resolution::QueryingPlatform {
        release: release("v2.0.0", vec![asset("cem-linux-amd64", "https://example.test/a")]),
    };
    let next = extension
        .language_server_binary(state, Response::CurrentPlatform(Os::Linux, Architecture::X86));
    assert_eq!(
        next,
        Resolution::AnnouncingDownload {
            url: "https://example.test/a".to_string(),
            path: "cem-v2.0.0".to_string(),
        }
    );
}

#[test]
fn find_asset_matches_names_exactly() {
    let found = release(
        "v1.0.0",
        vec![
            asset("cem-linux-amd64.sha256", "https://example.test/0"),
            asset("CEM-linux-amd64", "https://example.test/1"),
            asset("cem-linux-amd6", "https://example.test/2"),
            asset("cem-linux-amd64", "https://example.test/3"),
        ],
    );
    assert_eq!(
        found.find_asset(&"cem-linux-amd64".to_string()),
        Some(&asset("cem-linux-amd64", "https://example.test/3"))
    );
    assert_eq!(found.find_asset(&"cem-linux".to_string()), None);
    assert_eq!(found.find_asset(&String::new()), None);
}

#[test]
fn find_asset_takes_the_first_of_equal_names() {
    let doubled = release(
        "v1.0.0",
        vec![
            asset("cem-darwin-arm64", "https://example.test/0"),
            asset("cem-linux-amd64", "https://example.test/1"),
            asset("cem-linux-amd64", "https://example.test/2"),
        ],
    );
    assert_eq!(
        doubled.find_asset(&"cem-linux-amd64".to_string()),
        Some(&asset("cem-linux-amd64", "https://example.test/1"))
    );

    let mut extension = CemExtension::new();
    let next = extension.language_server_binary(
        Resolution::QueryingPlatform { release: doubled },
        Response::CurrentPlatform(Os::Linux, Architecture::X8664),
    );
    assert_eq!(
        next,
        Resolution::AnnouncingDownload {
            url: "https://example.test/1".to_string(),
            path: "cem-v1.0.0".to_string(),
        }
    );
}

#[test]
fn find_asset_in_empty_release() {
    let empty = release("v1.0.0", Vec::new());
    assert_eq!(empty.find_asset(&"cem-linux-amd64".to_string()), None);
}

#[test]
fn each_state_asks_its_request() {
    assert_eq!(
        Resolution::begin().request(),
        Some(Request::Which { binary_name: "cem".to_string() })
    );
    assert_eq!(
        Resolution::CheckingCache { path: "cem-v1".to_string() }.request(),
        Some(Request::Stat { path: "cem-v1".to_string() })
    );
    assert_eq!(
        Resolution::AnnouncingCheck.request(),
        Some(Request::SetInstallationStatus { status: InstallationStatus::CheckingForUpdate })
    );
    assert_eq!(
        Resolution::QueryingRelease.request(),
        Some(Request::LatestRelease {
            repo: "bennypowers/cem".to_string(),
            require_assets: true,
            pre_release: false,
        })
    );
    assert_eq!(
        Resolution::QueryingPlatform { release: release("v1", Vec::new()) }.request(),
        Some(Request::CurrentPlatform)
    );
    assert_eq!(
        Resolution::AnnouncingDownload { url: "u".to_string(), path: "p".to_string() }.request(),
        Some(Request::SetInstallationStatus { status: InstallationStatus::Downloading })
    );
    assert_eq!(
        Resolution::Downloading { url: "u".to_string(), path: "p".to_string() }.request(),
        Some(Request::DownloadFile {
            url: "u".to_string(),
            path: "p".to_string(),
            file_type: DownloadedFileType::Uncompressed,
        })
    );
    assert_eq!(
        Resolution::MakingExecutable { path: "p".to_string() }.request(),
        Some(Request::MakeFileExecutable { path: "p".to_string() })
    );
    assert_eq!(Resolution::Finished(Ok("p".to_string())).request(), None);
    assert_eq!(Resolution::Finished(Err("e".to_string())).request(), None);
}

#[test]
fn unexpected_response_changes_nothing() {
    let mut extension = CemExtension::new();
    let state = extension.language_server_binary(Resolution::begin(), Response::Stat(true));
    assert_eq!(state, Resolution::FindingOnPath);
    let state = extension.language_server_binary(state, Response::MakeFileExecutable(Ok(())));
    assert_eq!(state, Resolution::FindingOnPath);
    assert_eq!(extension.cached_binary_path(), None);

    let waiting = Resolution::Downloading { url: "u".to_string(), path: "p".to_string() };
    let state = extension.language_server_binary(waiting, Response::InstallationStatusSet);
    assert_eq!(state, Resolution::Downloading { url: "u".to_string(), path: "p".to_string() });

    let waiting = Resolution::MakingExecutable { path: "p".to_string() };
    let state = extension.language_server_binary(waiting, Response::DownloadFile(Ok(())));
    assert_eq!(state, Resolution::MakingExecutable { path: "p".to_string() });
    assert_eq!(extension.cached_binary_path(), None);
}

#[test]
fn finished_resolution_stays_finished() {
    let mut extension = CemExtension::new();
    let done = Resolution::Finished(Ok("/usr/bin/cem".to_string()));
    let state = extension.language_server_binary(done, Response::Which(None));
    assert_eq!(state, Resolution::Finished(Ok("/usr/bin/cem".to_string())));
    let failed = Resolution::Finished(Err("gone".to_string()));
    let state = extension.language_server_binary(failed, Response::MakeFileExecutable(Ok(())));
    assert_eq!(state, Resolution::Finished(Err("gone".to_string())));
    assert_eq!(extension.cached_binary_path(), None);
}

#[test]
fn only_making_executable_fills_the_cache() {
    let mut extension = CemExtension::new();
    let state = extension.language_server_binary(
        Resolution::Downloading { url: "u".to_string(), path: "cem-v9".to_string() },
        Response::DownloadFile(Ok(())),
    );
    assert_eq!(state, Resolution::MakingExecutable { path: "cem-v9".to_string() });
    assert_eq!(extension.cached_binary_path(), None);
    let state = extension.language_server_binary(state, Response::MakeFileExecutable(Ok(())));
    assert_eq!(state, Resolution::Finished(Ok("cem-v9".to_string())));
    assert_eq!(extension.cached_binary_path(), Some(&"cem-v9".to_string()));
}

#[test]
fn lookup_miss_without_cache_goes_to_update_check() {
    let mut extension = CemExtension::new();
    let state = extension.language_server_binary(Resolution::begin(), Response::Which(None));
    assert_eq!(state, Resolution::AnnouncingCheck);
    let state = extension.language_server_binary(state, Response::InstallationStatusSet);
    assert_eq!(state, Resolution::QueryingRelease);
}

#[test]
fn cache_check_decides_by_the_file() {
    let mut extension = CemExtension::new();
    let cached = Resolution::CheckingCache { path: "cem-v1".to_string() };
    let state = extension.language_server_binary(cached, Response::Stat(true));
    assert_eq!(state, Resolution::Finished(Ok("cem-v1".to_string())));
    let cached = Resolution::CheckingCache { path: "cem-v1".to_string() };
    let state = extension.language_server_binary(cached, Response::Stat(false));
    assert_eq!(state, Resolution::AnnouncingCheck);
}
