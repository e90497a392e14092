//! The errors that the operations report.

use vstd::prelude::*;
use vstd::string::*;
use crate::text::{push_signed_decimal, signed_decimal};

verus! {

/// Why an installation did not take place or did not finish.
#[derive(Debug, PartialEq, Eq)]
pub enum InstallError {
    /// The managed directory could not be made or written to.
    Environment(String),
    /// No source is known for this tool on this platform.
    UnsupportedPlatform,
    /// The name does not denote a managed tool.
    UnsupportedTool,
    /// The transfer failed, or the server answered with a status other than success.
    Network(String),
    /// The archive is damaged or lacks the executable.
    Archive(String),
}

/// Why a probe gave no catalog.
#[derive(Debug, PartialEq, Eq)]
pub enum ProbeError {
    /// There is no managed directory; the text says why.
    Environment(String),
    /// The downloader is not in the managed directory.
    ToolNotInstalled,
    /// The downloader could not be started or ended with a failure; the text
    /// is its own diagnostic, unchanged.
    Process(String),
    /// The downloader's output is no JSON document.
    Parse(String),
}

/// Why a download job produced nothing.
#[derive(Debug, PartialEq, Eq)]
pub enum DownloadError {
    /// The downloader is not in the managed directory.
    ToolNotInstalled,
    /// There is no managed directory, or no directory to put the result in;
    /// the text says why.
    Environment(String),
    /// The downloader could not be started, or ended with a failure: its exit
    /// code, where it has one, and what it wrote to its error stream.
    Process { code: Option<i32>, diagnostic: String },
}

/// What a `DownloadError` holds, as mathematical values.
pub enum DownloadErrorModel {
    ToolNotInstalled,
    Environment(Seq<char>),
    Process { code: Option<i32>, diagnostic: Seq<char> },
}

impl View for DownloadError {
    type V = DownloadErrorModel;

    open spec fn view(&self) -> DownloadErrorModel {
        match *self {
            DownloadError::ToolNotInstalled => DownloadErrorModel::ToolNotInstalled,
            DownloadError::Environment(reason) => DownloadErrorModel::Environment(reason@),
            DownloadError::Process { code, diagnostic } => DownloadErrorModel::Process {
                code,
                diagnostic: diagnostic@,
            },
        }
    }
}

/// What an `InstallError` holds, as mathematical values.
pub enum InstallErrorModel {
    Environment(Seq<char>),
    UnsupportedPlatform,
    UnsupportedTool,
    Network(Seq<char>),
    Archive(Seq<char>),
}

impl View for InstallError {
    type V = InstallErrorModel;

    open spec fn view(&self) -> InstallErrorModel {
        match *self {
            InstallError::Environment(reason) => InstallErrorModel::Environment(reason@),
            InstallError::UnsupportedPlatform => InstallErrorModel::UnsupportedPlatform,
            InstallError::UnsupportedTool => InstallErrorModel::UnsupportedTool,
            InstallError::Network(reason) => InstallErrorModel::Network(reason@),
            InstallError::Archive(reason) => InstallErrorModel::Archive(reason@),
        }
    }
}

/// What a `ProbeError` holds, as mathematical values.
pub enum ProbeErrorModel {
    Environment(Seq<char>),
    ToolNotInstalled,
    Process(Seq<char>),
    Parse(Seq<char>),
}

impl View for ProbeError {
    type V = ProbeErrorModel;

    open spec fn view(&self) -> ProbeErrorModel {
        match *self {
            ProbeError::Environment(reason) => ProbeErrorModel::Environment(reason@),
            ProbeError::ToolNotInstalled => ProbeErrorModel::ToolNotInstalled,
            ProbeError::Process(diagnostic) => ProbeErrorModel::Process(diagnostic@),
            ProbeError::Parse(message) => ProbeErrorModel::Parse(message@),
        }
    }
}

/// What is said of a downloader that is not installed.
pub open spec fn not_installed_text() -> Seq<char> {
    "yt-dlp not installed"@
}

impl InstallErrorModel {
    /// The error as one line of text: the reason it carries, or what is said
    /// of a platform or a tool that is not supported.
    pub open spec fn message(self) -> Seq<char> {
        match self {
            InstallErrorModel::Environment(reason) => reason,
            InstallErrorModel::UnsupportedPlatform => "Platform not supported"@,
            InstallErrorModel::UnsupportedTool => "Binary not supported"@,
            InstallErrorModel::Network(reason) => reason,
            InstallErrorModel::Archive(reason) => reason,
        }
    }
}

impl ProbeErrorModel {
    /// The error as one line of text: the text it carries, or what is said
    /// of a downloader that is not installed.
    pub open spec fn message(self) -> Seq<char> {
        match self {
            ProbeErrorModel::Environment(reason) => reason,
            ProbeErrorModel::ToolNotInstalled => not_installed_text(),
            ProbeErrorModel::Process(diagnostic) => diagnostic,
            ProbeErrorModel::Parse(message) => message,
        }
    }
}

impl DownloadErrorModel {
    /// The error as one line of text. A failed downloader is named with its
    /// exit code, where it has one, and with what it wrote to its error
    /// stream.
    pub open spec fn message(self) -> Seq<char> {
        match self {
            DownloadErrorModel::ToolNotInstalled => not_installed_text(),
            DownloadErrorModel::Environment(reason) => reason,
            DownloadErrorModel::Process { code: Some(code), diagnostic } =>
                "Processo do yt-dlp falhou ("@ + signed_decimal(code as int) + "): "@ + diagnostic,
            DownloadErrorModel::Process { code: None, diagnostic } => "Processo do yt-dlp falhou: "@
                + diagnostic,
        }
    }
}

impl InstallError {
    /// Writes the error as one line of text.
    pub fn message(&self) -> (text: String)
        ensures
            text@ == self@.message(),
    {
        match self {
            InstallError::Environment(reason) => reason.clone(),
            InstallError::UnsupportedPlatform => "Platform not supported".to_owned(),
            InstallError::UnsupportedTool => "Binary not supported".to_owned(),
            InstallError::Network(reason) => reason.clone(),
            InstallError::Archive(reason) => reason.clone(),
        }
    }
}

impl ProbeError {
    /// Writes the error as one line of text.
    pub fn message(&self) -> (text: String)
        ensures
            text@ == self@.message(),
    {
        match self {
            ProbeError::Environment(reason) => reason.clone(),
            ProbeError::ToolNotInstalled => "yt-dlp not installed".to_owned(),
            ProbeError::Process(diagnostic) => diagnostic.clone(),
            ProbeError::Parse(message) => message.clone(),
        }
    }
}

impl DownloadError {
    /// Writes the error as one line of text.
    pub fn message(&self) -> (text: String)
        ensures
            text@ == self@.message(),
    {
        match self {
            DownloadError::ToolNotInstalled => "yt-dlp not installed".to_owned(),
            DownloadError::Environment(reason) => reason.clone(),
            DownloadError::Process { code, diagnostic } => {
                let mut text = String::new();
                match code {
                    Some(code) => {
                        text.append("Processo do yt-dlp falhou (");
                        push_signed_decimal(&mut text, *code);
                        text.append("): ");
                    },
                    None => {
                        text.append("Processo do yt-dlp falhou: ");
                    },
                }
                text.append(diagnostic.as_str());
                assert(text@ =~= self@.message());
                text
            },
        }
    }
}

} // verus!
