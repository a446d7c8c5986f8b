//! The error type shared by every component.

use vstd::prelude::*;

verus! {

/// A failure of one of the application's operations; the payload is the
/// human-readable detail.
#[derive(Debug, PartialEq, Eq)]
pub enum AppError {
    /// The local store failed.
    Database(String),
    /// A file operation failed.
    Io(String),
    /// A value supplied by the user was rejected.
    Invalid(String),
    /// The remote copy could not be reached or answered with a failure.
    Sync(String),
    /// The host system refused a request.
    System(String),
}

/// The mathematical value of an [`AppError`].
pub enum AppErrorView {
    Database(Seq<char>),
    Io(Seq<char>),
    Invalid(Seq<char>),
    Sync(Seq<char>),
    System(Seq<char>),
}

impl View for AppError {
    type V = AppErrorView;

    open spec fn view(&self) -> AppErrorView {
        match self {
            AppError::Database(m) => AppErrorView::Database(m@),
            AppError::Io(m) => AppErrorView::Io(m@),
            AppError::Invalid(m) => AppErrorView::Invalid(m@),
            AppError::Sync(m) => AppErrorView::Sync(m@),
            AppError::System(m) => AppErrorView::System(m@),
        }
    }
}

impl AppErrorView {
    /// The detail of an error.
    pub open spec fn detail(self) -> Seq<char> {
        match self {
            AppErrorView::Database(m) => m,
            AppErrorView::Io(m) => m,
            AppErrorView::Invalid(m) => m,
            AppErrorView::Sync(m) => m,
            AppErrorView::System(m) => m,
        }
    }

    /// The words that name an error's kind in front of its detail.
    pub open spec fn heading(self) -> Seq<char> {
        match self {
            AppErrorView::Database(_) => "数据库错误: "@,
            AppErrorView::Io(_) => "IO错误: "@,
            AppErrorView::Invalid(_) => "参数错误: "@,
            AppErrorView::Sync(_) => "同步错误: "@,
            AppErrorView::System(_) => "系统错误: "@,
        }
    }

    /// An error as it is shown: its heading, then its detail.
    pub open spec fn text(self) -> Seq<char> {
        self.heading() + self.detail()
    }
}

impl AppError {
    /// The text in which an error is shown to the user.
    pub fn to_text(&self) -> (r: String)
        ensures
            r@ == self@.text(),
    {
        let (heading, detail) = match self {
            AppError::Database(m) => ("数据库错误: ", m),
            AppError::Io(m) => ("IO错误: ", m),
            AppError::Invalid(m) => ("参数错误: ", m),
            AppError::Sync(m) => ("同步错误: ", m),
            AppError::System(m) => ("系统错误: ", m),
        };
        let mut r = String::from_str(heading);
        r.append(detail.as_str());
        r
    }
}

/// Turns the error of a result into the text in which it is shown.
pub fn into_api<T>(result: Result<T, AppError>) -> (r: Result<T, String>)
    ensures
        match result {
            Ok(v) => r == Ok::<T, String>(v),
            Err(e) => r matches Err(m) && m@ == e@.text(),
        },
{
    match result {
        Ok(v) => Ok(v),
        Err(e) => Err(e.to_text()),
    }
}

} // verus!
