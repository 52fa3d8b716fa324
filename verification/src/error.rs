//! The library's error type.
use vstd::prelude::*;

verus! {

/// Everything that can go wrong in a finance operation. Errors raised by the
/// storage, serialization and file layers are carried as their message.
#[derive(Debug, Clone, PartialEq)]
pub enum AppError {
    Database(String),
    Parse(String),
    NotFound(String),
    InsufficientBalance(String),
    InsufficientQuantity(String),
    Validation(String),
    Serialization(String),
    Io(String),
}

/// An error, with each message as its characters.
pub enum AppErrorView {
    Database(Seq<char>),
    Parse(Seq<char>),
    NotFound(Seq<char>),
    InsufficientBalance(Seq<char>),
    InsufficientQuantity(Seq<char>),
    Validation(Seq<char>),
    Serialization(Seq<char>),
    Io(Seq<char>),
}

impl View for AppError {
    type V = AppErrorView;

    open spec fn view(&self) -> AppErrorView {
        match self {
            AppError::Database(m) => AppErrorView::Database(m@),
            AppError::Parse(m) => AppErrorView::Parse(m@),
            AppError::NotFound(m) => AppErrorView::NotFound(m@),
            AppError::InsufficientBalance(m) => AppErrorView::InsufficientBalance(m@),
            AppError::InsufficientQuantity(m) => AppErrorView::InsufficientQuantity(m@),
            AppError::Validation(m) => AppErrorView::Validation(m@),
            AppError::Serialization(m) => AppErrorView::Serialization(m@),
            AppError::Io(m) => AppErrorView::Io(m@),
        }
    }
}

impl AppError {
    /// The text the error is displayed with.
    pub open spec fn spec_message(self) -> Seq<char> {
        match self {
            AppError::Database(m) => "Database error: "@ + m@,
            AppError::Parse(m) => "Parse error: "@ + m@,
            AppError::NotFound(m) => "Not found: "@ + m@,
            AppError::InsufficientBalance(m) => "Insufficient balance in wallet '"@ + m@ + "'"@,
            AppError::InsufficientQuantity(m) => "Insufficient quantity for holding '"@ + m@
                + "'"@,
            AppError::Validation(m) => "Validation error: "@ + m@,
            AppError::Serialization(m) => "Serialization error: "@ + m@,
            AppError::Io(m) => "IO error: "@ + m@,
        }
    }

    /// Displays the error (as `Display` would).
    pub fn to_string(&self) -> (r: String)
        ensures
            r@ == self.spec_message(),
    {
        match self {
            AppError::Database(m) => "Database error: ".to_owned().concat(m.as_str()),
            AppError::Parse(m) => "Parse error: ".to_owned().concat(m.as_str()),
            AppError::NotFound(m) => "Not found: ".to_owned().concat(m.as_str()),
            AppError::InsufficientBalance(m) => "Insufficient balance in wallet '".to_owned().concat(
                m.as_str(),
            ).concat("'"),
            AppError::InsufficientQuantity(m) => "Insufficient quantity for holding '".to_owned().concat(
                m.as_str(),
            ).concat("'"),
            AppError::Validation(m) => "Validation error: ".to_owned().concat(m.as_str()),
            AppError::Serialization(m) => "Serialization error: ".to_owned().concat(m.as_str()),
            AppError::Io(m) => "IO error: ".to_owned().concat(m.as_str()),
        }
    }
}

/// A bare message is a parse error.
impl From<String> for AppError {
    fn from(s: String) -> (r: AppError) {
        AppError::Parse(s)
    }
}

impl vstd::std_specs::convert::FromSpecImpl<String> for AppError {
    open spec fn obeys_from_spec() -> bool {
        true
    }

    open spec fn from_spec(v: String) -> AppError {
        AppError::Parse(v)
    }
}

} // verus!
