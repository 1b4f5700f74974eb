//! The errors that the checkers report.

use vstd::prelude::*;
use vstd::string::*;

verus! {

/// A hard failure, by the part of the system that it came from.
#[derive(Debug, Clone)]
pub enum AppError {
    Registry(String),
    Service(String),
    FileSystem(String),
    PowerShell(String),
    PermissionDenied(String),
    Other(String),
}

/// The mathematical value of an [`AppError`].
pub enum AppErrorView {
    Registry(Seq<char>),
    Service(Seq<char>),
    FileSystem(Seq<char>),
    PowerShell(Seq<char>),
    PermissionDenied(Seq<char>),
    Other(Seq<char>),
}

impl View for AppError {
    type V = AppErrorView;

    open spec fn view(&self) -> AppErrorView {
        match self {
            AppError::Registry(m) => AppErrorView::Registry(m@),
            AppError::Service(m) => AppErrorView::Service(m@),
            AppError::FileSystem(m) => AppErrorView::FileSystem(m@),
            AppError::PowerShell(m) => AppErrorView::PowerShell(m@),
            AppError::PermissionDenied(m) => AppErrorView::PermissionDenied(m@),
            AppError::Other(m) => AppErrorView::Other(m@),
        }
    }
}

impl AppErrorView {
    /// The text shown for the error: a prefix that names its source, then
    /// the message. `Other` has no prefix.
    pub open spec fn text(&self) -> Seq<char> {
        match self {
            AppErrorView::Registry(m) => "Registry error: "@ + *m,
            AppErrorView::Service(m) => "Windows service error: "@ + *m,
            AppErrorView::FileSystem(m) => "File system error: "@ + *m,
            AppErrorView::PowerShell(m) => "PowerShell error: "@ + *m,
            AppErrorView::PermissionDenied(m) => "Permission denied: "@ + *m,
            AppErrorView::Other(m) => *m,
        }
    }
}

impl AppError {
    pub fn to_user_string(&self) -> (s: String)
        ensures
            s@ == self@.text(),
    {
        match self {
            AppError::Registry(m) => String::from_str("Registry error: ").concat(m.as_str()),
            AppError::Service(m) => String::from_str("Windows service error: ").concat(m.as_str()),
            AppError::FileSystem(m) => String::from_str("File system error: ").concat(m.as_str()),
            AppError::PowerShell(m) => String::from_str("PowerShell error: ").concat(m.as_str()),
            AppError::PermissionDenied(m) => String::from_str("Permission denied: ").concat(
                m.as_str(),
            ),
            AppError::Other(m) => m.clone(),
        }
    }
}

} // verus!
