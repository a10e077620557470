//! The questions a resolution puts to its host, and the host's answers.
//!
//! The library performs none of these itself. Whoever drives a resolution
//! carries each [`Request`] out and hands the matching [`Response`] back.

use vstd::prelude::*;
use crate::platform::{Architecture, Os};
use crate::release::{Release, ReleaseView};

verus! {

/// What the editor is told about the installation of the language server.
#[derive(Clone, Copy, Debug, PartialEq, Eq, Structural)]
pub enum InstallationStatus {
    CheckingForUpdate,
    Downloading,
}

/// How the host treats the payload of a download before storing it.
#[derive(Clone, Copy, Debug, PartialEq, Eq, Structural)]
pub enum DownloadedFileType {
    Gzip,
    GzipTar,
    Zip,
    Uncompressed,
}

/// Something the host is asked to do.
#[derive(Debug, PartialEq, Eq)]
pub enum Request {
    /// Look for an executable of this name on the search path of the project.
    Which { binary_name: String },
    /// Say whether a regular file exists at this path.
    Stat { path: String },
    /// Show this installation status.
    SetInstallationStatus { status: InstallationStatus },
    /// Fetch the latest release of this repository.
    LatestRelease { repo: String, require_assets: bool, pre_release: bool },
    /// Say which platform the editor runs on.
    CurrentPlatform,
    /// Download what is at `url` and store it at `path`.
    DownloadFile { url: String, path: String, file_type: DownloadedFileType },
    /// Mark the file at this path as executable.
    MakeFileExecutable { path: String },
}

/// A [`Request`] as plain text.
pub enum RequestView {
    Which { binary_name: Seq<char> },
    Stat { path: Seq<char> },
    SetInstallationStatus { status: InstallationStatus },
    LatestRelease { repo: Seq<char>, require_assets: bool, pre_release: bool },
    CurrentPlatform,
    DownloadFile { url: Seq<char>, path: Seq<char>, file_type: DownloadedFileType },
    MakeFileExecutable { path: Seq<char> },
}

impl View for Request {
    type V = RequestView;

    open spec fn view(&self) -> RequestView {
        match self {
            Request::Which { binary_name } => RequestView::Which { binary_name: binary_name@ },
            Request::Stat { path } => RequestView::Stat { path: path@ },
            Request::SetInstallationStatus { status } => RequestView::SetInstallationStatus {
                status: *status,
            },
            Request::LatestRelease { repo, require_assets, pre_release } => {
                RequestView::LatestRelease {
                    repo: repo@,
                    require_assets: *require_assets,
                    pre_release: *pre_release,
                }
            },
            Request::CurrentPlatform => RequestView::CurrentPlatform,
            Request::DownloadFile { url, path, file_type } => RequestView::DownloadFile {
                url: url@,
                path: path@,
                file_type: *file_type,
            },
            Request::MakeFileExecutable { path } => RequestView::MakeFileExecutable { path: path@ },
        }
    }
}

/// What the host answers. Each variant answers one kind of request; a
/// failure carries the host's message.
#[derive(Debug, PartialEq, Eq)]
pub enum Response {
    /// The path of the executable, if the search path holds one.
    Which(Option<String>),
    /// Whether a regular file is there. A path that cannot be examined holds
    /// none.
    Stat(bool),
    /// The status is shown.
    InstallationStatusSet,
    /// The release, or why it could not be fetched.
    LatestRelease(Result<Release, String>),
    /// The operating system and the architecture.
    CurrentPlatform(Os, Architecture),
    /// The file is stored, or why it could not be.
    DownloadFile(Result<(), String>),
    /// The file is executable, or why it could not be made so.
    MakeFileExecutable(Result<(), String>),
}

/// A [`Response`] as plain text.
pub enum ResponseView {
    Which(Option<Seq<char>>),
    Stat(bool),
    InstallationStatusSet,
    LatestRelease(Result<ReleaseView, Seq<char>>),
    CurrentPlatform(Os, Architecture),
    DownloadFile(Result<(), Seq<char>>),
    MakeFileExecutable(Result<(), Seq<char>>),
}

/// An optional string as plain text.
pub open spec fn option_text(text: Option<String>) -> Option<Seq<char>> {
    match text {
        Some(s) => Some(s@),
        None => None,
    }
}

/// The outcome of a host call that yields nothing, its message as plain text.
pub open spec fn completion_text(done: Result<(), String>) -> Result<(), Seq<char>> {
    match done {
        Ok(()) => Ok(()),
        Err(message) => Err(message@),
    }
}

impl View for Response {
    type V = ResponseView;

    open spec fn view(&self) -> ResponseView {
        match self {
            Response::Which(found) => ResponseView::Which(option_text(*found)),
            Response::Stat(is_file) => ResponseView::Stat(*is_file),
            Response::InstallationStatusSet => ResponseView::InstallationStatusSet,
            Response::LatestRelease(fetched) => ResponseView::LatestRelease(
                match fetched {
                    Ok(release) => Ok(release@),
                    Err(message) => Err(message@),
                },
            ),
            Response::CurrentPlatform(os, arch) => ResponseView::CurrentPlatform(*os, *arch),
            Response::DownloadFile(done) => ResponseView::DownloadFile(completion_text(*done)),
            Response::MakeFileExecutable(done) => ResponseView::MakeFileExecutable(
                completion_text(*done),
            ),
        }
    }
}

/// Whether `response` is an answer to `request`: the two are of the same
/// kind.
pub open spec fn answers(request: RequestView, response: ResponseView) -> bool {
    match request {
        RequestView::Which { .. } => response is Which,
        RequestView::Stat { .. } => response is Stat,
        RequestView::SetInstallationStatus { .. } => response is InstallationStatusSet,
        RequestView::LatestRelease { .. } => response is LatestRelease,
        RequestView::CurrentPlatform => response is CurrentPlatform,
        RequestView::DownloadFile { .. } => response is DownloadFile,
        RequestView::MakeFileExecutable { .. } => response is MakeFileExecutable,
    }
}

} // verus!
