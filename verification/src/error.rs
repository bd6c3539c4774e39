//! The errors that the launcher's operations end with.

use crate::text::{decimal, push_decimal};
use vstd::prelude::*;
use vstd::string::StringExecFns;

verus! {

/// Why a launcher operation failed.
#[derive(Debug)]
pub enum AppError {
    /// A request or task failed; the text says what.
    Api(String),
    /// No game installation where one is needed.
    GameNotFound(String),
    /// The operation was cancelled.
    Cancelled,
    /// The download does not fit on the disk that holds `path`.
    DiskSpace { path: String, needed_mib: u64, available_mib: u64 },
    /// A downloaded file does not have the expected MD5 digest.
    Md5Mismatch { expected: String, actual: String },
    /// A file system operation failed; the text is the system's message.
    Io(String),
    /// An HTTP request failed; the text is the client's message.
    Http(String),
}

/// An `AppError` with its texts as character sequences.
pub enum AppErrorView {
    Api(Seq<char>),
    GameNotFound(Seq<char>),
    Cancelled,
    DiskSpace { path: Seq<char>, needed_mib: u64, available_mib: u64 },
    Md5Mismatch { expected: Seq<char>, actual: Seq<char> },
    Io(Seq<char>),
    Http(Seq<char>),
}

impl View for AppError {
    type V = AppErrorView;

    open spec fn view(&self) -> AppErrorView {
        match self {
            AppError::Api(m) => AppErrorView::Api(m@),
            AppError::GameNotFound(m) => AppErrorView::GameNotFound(m@),
            AppError::Cancelled => AppErrorView::Cancelled,
            AppError::DiskSpace { path, needed_mib, available_mib } => AppErrorView::DiskSpace {
                path: path@,
                needed_mib: *needed_mib,
                available_mib: *available_mib,
            },
            AppError::Md5Mismatch { expected, actual } => AppErrorView::Md5Mismatch {
                expected: expected@,
                actual: actual@,
            },
            AppError::Io(m) => AppErrorView::Io(m@),
            AppError::Http(m) => AppErrorView::Http(m@),
        }
    }
}

impl AppError {
    /// A copy of this error.
    pub fn duplicate(&self) -> (r: AppError)
        ensures
            r@ == self@,
    {
        match self {
            AppError::Api(m) => AppError::Api(m.clone()),
            AppError::GameNotFound(m) => AppError::GameNotFound(m.clone()),
            AppError::Cancelled => AppError::Cancelled,
            AppError::DiskSpace { path, needed_mib, available_mib } => AppError::DiskSpace {
                path: path.clone(),
                needed_mib: *needed_mib,
                available_mib: *available_mib,
            },
            AppError::Md5Mismatch { expected, actual } => AppError::Md5Mismatch {
                expected: expected.clone(),
                actual: actual.clone(),
            },
            AppError::Io(m) => AppError::Io(m.clone()),
            AppError::Http(m) => AppError::Http(m.clone()),
        }
    }
}

/// The message that tells the user of an error.
pub open spec fn error_message(e: AppErrorView) -> Seq<char> {
    match e {
        AppErrorView::Api(m) => "API error: "@ + m,
        AppErrorView::GameNotFound(m) => "Game not found: "@ + m,
        AppErrorView::Cancelled => "Download cancelled"@,
        AppErrorView::DiskSpace { path, needed_mib, available_mib } => "Not enough disk space in "@
            + path + ": "@ + decimal(needed_mib as nat) + " MiB needed, "@ + decimal(
            available_mib as nat,
        ) + " MiB available"@,
        AppErrorView::Md5Mismatch { expected, actual } => "MD5 mismatch: expected "@ + expected
            + ", got "@ + actual,
        AppErrorView::Io(m) => "IO error: "@ + m,
        AppErrorView::Http(m) => "HTTP error: "@ + m,
    }
}

impl AppError {
    /// The message that tells the user of this error.
    pub fn message(&self) -> (r: String)
        ensures
            r@ == error_message(self@),
    {
        match self {
            AppError::Api(m) => {
                let mut s = String::from_str("API error: ");
                s.append(m.as_str());
                s
            },
            AppError::GameNotFound(m) => {
                let mut s = String::from_str("Game not found: ");
                s.append(m.as_str());
                s
            },
            AppError::Cancelled => String::from_str("Download cancelled"),
            AppError::DiskSpace { path, needed_mib, available_mib } => {
                let mut s = String::from_str("Not enough disk space in ");
                s.append(path.as_str());
                s.append(": ");
                push_decimal(&mut s, *needed_mib);
                s.append(" MiB needed, ");
                push_decimal(&mut s, *available_mib);
                s.append(" MiB available");
                s
            },
            AppError::Md5Mismatch { expected, actual } => {
                let mut s = String::from_str("MD5 mismatch: expected ");
                s.append(expected.as_str());
                s.append(", got ");
                s.append(actual.as_str());
                s
            },
            AppError::Io(m) => {
                let mut s = String::from_str("IO error: ");
                s.append(m.as_str());
                s
            },
            AppError::Http(m) => {
                let mut s = String::from_str("HTTP error: ");
                s.append(m.as_str());
                s
            },
        }
    }
}

/// The view of a result whose error is an `AppError`.
pub open spec fn result_view<T>(r: Result<T, AppError>) -> Result<T, AppErrorView> {
    match r {
        Ok(v) => Ok(v),
        Err(e) => Err(e@),
    }
}

} // verus!
