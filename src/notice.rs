//! The dismissible notices that follow a user's action, with the message and
//! category chosen from how the action's request ended.
use crate::api::ApiError;
use crate::text::{contains_text, decimal, decimal_text, find_first};
use vstd::prelude::*;

verus! {

/// The category of a notice; it picks the notice's style and title.
#[derive(Clone, Copy, Debug, PartialEq, Eq, Structural)]
pub enum NoticeKind {
    Info,
    Success,
    Warning,
    Error,
}

impl NoticeKind {
    /// The category's name, used as a style class.
    pub open spec fn name_view(self) -> Seq<char> {
        match self {
            NoticeKind::Info => "info"@,
            NoticeKind::Success => "success"@,
            NoticeKind::Warning => "warning"@,
            NoticeKind::Error => "error"@,
        }
    }

    /// The heading shown above the message.
    pub open spec fn title_view(self) -> Seq<char> {
        match self {
            NoticeKind::Info => "Server Action"@,
            NoticeKind::Success => "Success"@,
            NoticeKind::Warning => "Warning"@,
            NoticeKind::Error => "Error"@,
        }
    }

    /// The category's name, used as a style class.
    pub fn name(&self) -> (r: &'static str)
        ensures
            r@ == self.name_view(),
    {
        match self {
            NoticeKind::Info => "info",
            NoticeKind::Success => "success",
            NoticeKind::Warning => "warning",
            NoticeKind::Error => "error",
        }
    }

    /// The heading shown above the message.
    pub fn title(&self) -> (r: &'static str)
        ensures
            r@ == self.title_view(),
    {
        match self {
            NoticeKind::Info => "Server Action",
            NoticeKind::Success => "Success",
            NoticeKind::Warning => "Warning",
            NoticeKind::Error => "Error",
        }
    }
}

/// A message for the user and its category.
#[derive(Clone, Debug, PartialEq)]
pub struct Notice {
    pub message: String,
    pub kind: NoticeKind,
}

impl Notice {
    /// The notice's message and category.
    pub open spec fn view(&self) -> (Seq<char>, NoticeKind) {
        (self.message@, self.kind)
    }
}

fn notice(message: &str, kind: NoticeKind) -> (r: Notice)
    ensures
        r.view() == (message@, kind),
{
    Notice { message: message.to_owned(), kind }
}

/// The notice after a request to add a server.
pub open spec fn added_view(result: Result<String, ApiError>) -> (Seq<char>, NoticeKind) {
    match result {
        Ok(_) => ("Server added successfully!"@, NoticeKind::Success),
        Err(ApiError::Request { status, message, is_structured }) => {
            if status == 409 {
                if find_first(message@, "already exists"@) is Some {
                    (
                        "A server with this name already exists. Please choose a different name."@,
                        NoticeKind::Warning,
                    )
                } else {
                    (message@, NoticeKind::Error)
                }
            } else if status == 400 {
                ("Invalid server configuration. Please check your inputs."@, NoticeKind::Warning)
            } else if status == 500 {
                ("Server error occurred. Please try again later."@, NoticeKind::Error)
            } else if is_structured {
                (message@, NoticeKind::Error)
            } else {
                ("HTTP Error "@ + decimal(status as nat) + ": "@ + message@, NoticeKind::Error)
            }
        },
        Err(ApiError::Network(_)) => (
            "Network connection failed. Please check your connection."@,
            NoticeKind::Error,
        ),
        Err(ApiError::Parse(_)) => ("Failed to process server response."@, NoticeKind::Error),
    }
}

/// The notice after a request to add a server.
pub fn added_notice(result: &Result<String, ApiError>) -> (r: Notice)
    ensures
        r.view() == added_view(*result),
{
    match result {
        Ok(_) => notice("Server added successfully!", NoticeKind::Success),
        Err(ApiError::Request { status, message, is_structured }) => {
            if *status == 409 {
                if contains_text(message.as_str(), "already exists") {
                    notice(
                        "A server with this name already exists. Please choose a different name.",
                        NoticeKind::Warning,
                    )
                } else {
                    notice(message.as_str(), NoticeKind::Error)
                }
            } else if *status == 400 {
                notice("Invalid server configuration. Please check your inputs.", NoticeKind::Warning)
            } else if *status == 500 {
                notice("Server error occurred. Please try again later.", NoticeKind::Error)
            } else if *is_structured {
                notice(message.as_str(), NoticeKind::Error)
            } else {
                let mut m = "HTTP Error ".to_owned();
                let code = decimal_text(*status as u64);
                m.append(code.as_str());
                m.append(": ");
                m.append(message.as_str());
                Notice { message: m, kind: NoticeKind::Error }
            }
        },
        Err(ApiError::Network(_)) => notice(
            "Network connection failed. Please check your connection.",
            NoticeKind::Error,
        ),
        Err(ApiError::Parse(_)) => notice("Failed to process server response.", NoticeKind::Error),
    }
}

/// Whether `result` is a failure status of 404 from the server.
pub open spec fn is_not_found(result: Result<String, ApiError>) -> bool {
    result matches Err(ApiError::Request { status, .. }) && status == 404
}

/// The notice after a request to enable (`enable`) or disable a server.
pub open spec fn switched_view(enable: bool, result: Result<String, ApiError>) -> (
    Seq<char>,
    NoticeKind,
) {
    if result is Ok {
        if enable {
            ("Server enabled successfully!"@, NoticeKind::Success)
        } else {
            ("Server disabled successfully!"@, NoticeKind::Success)
        }
    } else if is_not_found(result) {
        ("Server not found. It may have been removed."@, NoticeKind::Warning)
    } else if enable {
        ("Failed to enable server. Please try again."@, NoticeKind::Error)
    } else {
        ("Failed to disable server. Please try again."@, NoticeKind::Error)
    }
}

/// The notice after a request to enable (`enable`) or disable a server.
pub fn switched_notice(enable: bool, result: &Result<String, ApiError>) -> (r: Notice)
    ensures
        r.view() == switched_view(enable, *result),
{
    match result {
        Ok(_) => {
            if enable {
                notice("Server enabled successfully!", NoticeKind::Success)
            } else {
                notice("Server disabled successfully!", NoticeKind::Success)
            }
        },
        Err(ApiError::Request { status, .. }) if *status == 404 => notice(
            "Server not found. It may have been removed.",
            NoticeKind::Warning,
        ),
        Err(_) => {
            if enable {
                notice("Failed to enable server. Please try again.", NoticeKind::Error)
            } else {
                notice("Failed to disable server. Please try again.", NoticeKind::Error)
            }
        },
    }
}

/// The notice after a request to remove a server.
pub open spec fn removed_view(result: Result<String, ApiError>) -> (Seq<char>, NoticeKind) {
    match result {
        Ok(_) => ("Server deleted successfully!"@, NoticeKind::Success),
        Err(ApiError::Request { status, .. }) => {
            if status == 404 {
                ("Server not found. It may have already been removed."@, NoticeKind::Warning)
            } else if status == 403 {
                ("Permission denied. Unable to delete this server."@, NoticeKind::Error)
            } else {
                ("Failed to delete server. Please try again."@, NoticeKind::Error)
            }
        },
        Err(_) => ("Failed to delete server. Please try again."@, NoticeKind::Error),
    }
}

/// The notice after a request to remove a server.
pub fn removed_notice(result: &Result<String, ApiError>) -> (r: Notice)
    ensures
        r.view() == removed_view(*result),
{
    match result {
        Ok(_) => notice("Server deleted successfully!", NoticeKind::Success),
        Err(ApiError::Request { status, .. }) => {
            if *status == 404 {
                notice("Server not found. It may have already been removed.", NoticeKind::Warning)
            } else if *status == 403 {
                notice("Permission denied. Unable to delete this server.", NoticeKind::Error)
            } else {
                notice("Failed to delete server. Please try again.", NoticeKind::Error)
            }
        },
        Err(_) => notice("Failed to delete server. Please try again.", NoticeKind::Error),
    }
}

} // verus!
