//! The extension's state and the decisions of a resolution.

use vstd::prelude::*;
use crate::command::{lsp_command, Command, CommandView};
use crate::model::{
    advance, binary_path, cache_after, download_failure_message, initial, no_asset_message,
    request_of, ResolutionView,
};
use crate::platform::expected_asset_name;
use crate::protocol::{
    option_text, DownloadedFileType, InstallationStatus, Request, RequestView, Response,
};
use crate::release::Release;

verus! {

/// Where a resolution stands: what it waits for, and what it has learnt.
#[derive(Debug, PartialEq, Eq)]
pub enum Resolution {
    /// Waiting to hear whether the search path holds the binary.
    FindingOnPath,
    /// Waiting to hear whether the binary cached at `path` is still a file.
    CheckingCache { path: String },
    /// Waiting for the editor to show that an update check is under way.
    AnnouncingCheck,
    /// Waiting for the latest release.
    QueryingRelease,
    /// Waiting to hear the platform, to pick an asset of `release`.
    QueryingPlatform { release: Release },
    /// Waiting for the editor to show that a download is under way.
    AnnouncingDownload { url: String, path: String },
    /// Waiting for the asset at `url` to be stored at `path`.
    Downloading { url: String, path: String },
    /// Waiting for the file at `path` to be made executable.
    MakingExecutable { path: String },
    /// Over: the path of the binary, or the error.
    Finished(Result<String, String>),
}

/// The end of a resolution as plain text.
pub open spec fn outcome_text(outcome: Result<String, String>) -> Result<Seq<char>, Seq<char>> {
    match outcome {
        Ok(path) => Ok(path@),
        Err(message) => Err(message@),
    }
}

impl View for Resolution {
    type V = ResolutionView;

    open spec fn view(&self) -> ResolutionView {
        match self {
            Resolution::FindingOnPath => ResolutionView::FindingOnPath,
            Resolution::CheckingCache { path } => ResolutionView::CheckingCache { path: path@ },
            Resolution::AnnouncingCheck => ResolutionView::AnnouncingCheck,
            Resolution::QueryingRelease => ResolutionView::QueryingRelease,
            Resolution::QueryingPlatform { release } => ResolutionView::QueryingPlatform {
                release: release@,
            },
            Resolution::AnnouncingDownload { url, path } => ResolutionView::AnnouncingDownload {
                url: url@,
                path: path@,
            },
            Resolution::Downloading { url, path } => ResolutionView::Downloading {
                url: url@,
                path: path@,
            },
            Resolution::MakingExecutable { path } => ResolutionView::MakingExecutable {
                path: path@,
            },
            Resolution::Finished(outcome) => ResolutionView::Finished(outcome_text(*outcome)),
        }
    }
}

/// A request, if there is one, as plain text.
pub open spec fn option_request(request: Option<Request>) -> Option<RequestView> {
    match request {
        Some(request) => Some(request@),
        None => None,
    }
}

impl Resolution {
    /// A resolution that has asked nothing yet.
    pub fn begin() -> (state: Resolution)
        ensures
            state@ == initial(),
    {
        Resolution::FindingOnPath
    }

    /// What the host is to do next, or `None` once the resolution is over.
    pub fn request(&self) -> (request: Option<Request>)
        ensures
            option_request(request) == request_of(self@),
    {
        match self {
            Resolution::FindingOnPath => Some(
                Request::Which { binary_name: String::from_str("cem") },
            ),
            Resolution::CheckingCache { path } => Some(Request::Stat { path: path.clone() }),
            Resolution::AnnouncingCheck => Some(
                Request::SetInstallationStatus { status: InstallationStatus::CheckingForUpdate },
            ),
            Resolution::QueryingRelease => Some(
                Request::LatestRelease {
                    repo: String::from_str("bennypowers/cem"),
                    require_assets: true,
                    pre_release: false,
                },
            ),
            Resolution::QueryingPlatform { .. } => Some(Request::CurrentPlatform),
            Resolution::AnnouncingDownload { .. } => Some(
                Request::SetInstallationStatus { status: InstallationStatus::Downloading },
            ),
            Resolution::Downloading { url, path } => Some(
                Request::DownloadFile {
                    url: url.clone(),
                    path: path.clone(),
                    file_type: DownloadedFileType::Uncompressed,
                },
            ),
            Resolution::MakingExecutable { path } => Some(
                Request::MakeFileExecutable { path: path.clone() },
            ),
            Resolution::Finished(_) => None,
        }
    }
}

/// The extension: what one session of the editor remembers between two
/// resolutions.
#[derive(Debug)]
pub struct CemExtension {
    cached_binary_path: Option<String>,
}

impl View for CemExtension {
    type V = Option<Seq<char>>;

    /// The path of the binary that this session downloaded, if it did.
    closed spec fn view(&self) -> Option<Seq<char>> {
        option_text(self.cached_binary_path)
    }
}

/// What the editor is handed at the end of a resolution: the command that
/// starts the binary, or the resolution's error.
pub open spec fn launch(outcome: Result<Seq<char>, Seq<char>>) -> Result<CommandView, Seq<char>> {
    match outcome {
        Ok(path) => Ok(lsp_command(path)),
        Err(message) => Err(message),
    }
}

/// A command or an error as plain text.
pub open spec fn launch_text(launched: Result<Command, String>) -> Result<CommandView, Seq<char>> {
    match launched {
        Ok(command) => Ok(command@),
        Err(message) => Err(message@),
    }
}

impl CemExtension {
    /// The extension at the start of a session: nothing is cached.
    pub fn new() -> (extension: CemExtension)
        ensures
            extension@ is None,
    {
        CemExtension { cached_binary_path: None }
    }

    /// The path of the binary that this session downloaded, if it did.
    pub fn cached_binary_path(&self) -> (path: Option<&String>)
        ensures
            (match path {
                Some(path) => self@ == Some(path@),
                None => self@ is None,
            }),
    {
        self.cached_binary_path.as_ref()
    }

    /// Takes the host's `response` to the request of `state` and decides how
    /// the resolution goes on.
    ///
    /// A binary on the search path ends the resolution at once. Failing
    /// that, a cached binary that is still a regular file does. Failing that
    /// too, the latest release is fetched, the asset for the platform is
    /// downloaded under a name made of the release's version, and made
    /// executable; only then is its path cached. The first failure on the
    /// way ends the resolution with its message. A response that `state`
    /// does not wait for changes nothing.
    pub fn language_server_binary(
        &mut self,
        state: Resolution,
        response: Response,
    ) -> (next: Resolution)
        ensures
            next@ == advance(old(self)@, state@, response@),
            final(self)@ == cache_after(old(self)@, state@, response@),
    {
        match state {
            Resolution::FindingOnPath => match response {
                Response::Which(Some(path)) => Resolution::Finished(Ok(path)),
                Response::Which(None) => match &self.cached_binary_path {
                    Some(path) => Resolution::CheckingCache { path: path.clone() },
                    None => Resolution::AnnouncingCheck,
                },
                _ => Resolution::FindingOnPath,
            },
            Resolution::CheckingCache { path } => match response {
                Response::Stat(true) => Resolution::Finished(Ok(path)),
                Response::Stat(false) => Resolution::AnnouncingCheck,
                _ => Resolution::CheckingCache { path },
            },
            Resolution::AnnouncingCheck => match response {
                Response::InstallationStatusSet => Resolution::QueryingRelease,
                _ => Resolution::AnnouncingCheck,
            },
            Resolution::QueryingRelease => match response {
                Response::LatestRelease(Ok(release)) => Resolution::QueryingPlatform { release },
                Response::LatestRelease(Err(message)) => Resolution::Finished(Err(message)),
                _ => Resolution::QueryingRelease,
            },
            Resolution::QueryingPlatform { release } => match response {
                Response::CurrentPlatform(os, arch) => {
                    let name = expected_asset_name(os, arch);
                    match release.find_asset(&name) {
                        Some(asset) => {
                            let url = asset.download_url.clone();
                            let path = String::from_str("cem-").concat(release.version.as_str());
                            Resolution::AnnouncingDownload { url, path }
                        },
                        None => {
                            let message = String::from_str("no asset found matching ").concat(
                                name.as_str(),
                            );
                            Resolution::Finished(Err(message))
                        },
                    }
                },
                _ => Resolution::QueryingPlatform { release },
            },
            Resolution::AnnouncingDownload { url, path } => match response {
                Response::InstallationStatusSet => Resolution::Downloading { url, path },
                _ => Resolution::AnnouncingDownload { url, path },
            },
            Resolution::Downloading { url, path } => match response {
                Response::DownloadFile(Ok(_)) => Resolution::MakingExecutable { path },
                Response::DownloadFile(Err(cause)) => {
                    let message = String::from_str("failed to download file: ").concat(
                        cause.as_str(),
                    );
                    Resolution::Finished(Err(message))
                },
                _ => Resolution::Downloading { url, path },
            },
            Resolution::MakingExecutable { path } => match response {
                Response::MakeFileExecutable(Ok(_)) => {
                    self.cached_binary_path = Some(path.clone());
                    Resolution::Finished(Ok(path))
                },
                Response::MakeFileExecutable(Err(message)) => Resolution::Finished(Err(message)),
                _ => Resolution::MakingExecutable { path },
            },
            Resolution::Finished(outcome) => Resolution::Finished(outcome),
        }
    }

    /// Turns the end of a resolution into what the editor is handed: the
    /// command that starts the binary as a language server, or the error.
    pub fn language_server_command(
        binary: Result<String, String>,
    ) -> (launched: Result<Command, String>)
        ensures
            launch_text(launched) == launch(outcome_text(binary)),
    {
        match binary {
            Ok(path) => Ok(Command::lsp(path)),
            Err(message) => Err(message),
        }
    }
}

} // verus!
