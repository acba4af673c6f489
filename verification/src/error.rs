use vstd::prelude::*;
use vstd::string::StringExecFns;

verus! {

/// The class of a failure that the operating system reported.
#[derive(Clone, Copy, Debug, PartialEq, Eq, Hash, Structural)]
pub enum OsErrorKind {
    NotFound,
    PermissionDenied,
    AlreadyExists,
    InvalidInput,
    OutOfMemory,
    /// A failure that the platform layer reported without a class of its own.
    Other,
    /// Any class this library never looks at.
    Unlisted,
}

/// A failure of one operating-system call: its class, the raw code where
/// the platform gave one, and the message, all as they were reported.
#[derive(Debug, PartialEq, Eq)]
pub struct OsError {
    pub kind: OsErrorKind,
    pub code: Option<i32>,
    pub message: String,
}

/// What an `OsError` holds, with the message as a sequence of characters.
pub struct OsErrorView {
    pub kind: OsErrorKind,
    pub code: Option<i32>,
    pub message: Seq<char>,
}

impl View for OsError {
    type V = OsErrorView;

    open spec fn view(&self) -> OsErrorView {
        OsErrorView { kind: self.kind, code: self.code, message: self.message@ }
    }
}

impl Clone for OsError {
    fn clone(&self) -> (copy: OsError)
        ensures
            copy == *self,
    {
        OsError { kind: self.kind, code: self.code, message: self.message.clone() }
    }
}

impl OsError {
    /// A failure with the given class, raw code and message.
    pub fn new(kind: OsErrorKind, code: Option<i32>, message: &str) -> (e: OsError)
        ensures
            e@ == (OsErrorView { kind, code, message: message@ }),
    {
        OsError { kind, code, message: String::from_str(message) }
    }
}

/// A failure of the file cache.
#[derive(Debug, PartialEq, Eq)]
pub enum CacheError {
    IOError(OsError),
}

/// A failure to run a command.
#[derive(Debug, PartialEq, Eq)]
pub enum ExecError {
    ExecError(OsError),
}

/// A failure of an operation on the routing table.
#[derive(Debug, PartialEq, Eq)]
pub enum RouteOpError {
    /// The operating system refused a call that the operation could not do
    /// without.
    OpError(OsError),
    /// The host has no default gateway of the family that a route needs.
    NoGatewayError,
    /// No handle on the routing table could be had.
    HandleInitError,
    /// A task that carried a route operation did not run to its end.
    FutureError(String),
    /// The host could not name its default interface.
    GetInterfaceError(String),
}

/// Any failure of this library.
#[derive(Debug, PartialEq, Eq)]
pub enum Error {
    NetworkError(String),
    IOError(OsError),
    CacheError(CacheError),
    ExecError(ExecError),
    InvalidTarget,
    RouteOpError(RouteOpError),
}

/// A `CacheError` with the cause's message as a sequence of characters.
pub enum CacheErrorView {
    IOError(OsErrorView),
}

/// An `ExecError` with the cause's message as a sequence of characters.
pub enum ExecErrorView {
    ExecError(OsErrorView),
}

/// A `RouteOpError` with each text as a sequence of characters.
pub enum RouteOpErrorView {
    OpError(OsErrorView),
    NoGatewayError,
    HandleInitError,
    FutureError(Seq<char>),
    GetInterfaceError(Seq<char>),
}

/// An `Error` with each text as a sequence of characters.
pub enum ErrorView {
    NetworkError(Seq<char>),
    IOError(OsErrorView),
    CacheError(CacheErrorView),
    ExecError(ExecErrorView),
    InvalidTarget,
    RouteOpError(RouteOpErrorView),
}

impl View for CacheError {
    type V = CacheErrorView;

    open spec fn view(&self) -> CacheErrorView {
        match self {
            CacheError::IOError(cause) => CacheErrorView::IOError(cause@),
        }
    }
}

impl View for ExecError {
    type V = ExecErrorView;

    open spec fn view(&self) -> ExecErrorView {
        match self {
            ExecError::ExecError(cause) => ExecErrorView::ExecError(cause@),
        }
    }
}

impl View for RouteOpError {
    type V = RouteOpErrorView;

    open spec fn view(&self) -> RouteOpErrorView {
        match self {
            RouteOpError::OpError(cause) => RouteOpErrorView::OpError(cause@),
            RouteOpError::NoGatewayError => RouteOpErrorView::NoGatewayError,
            RouteOpError::HandleInitError => RouteOpErrorView::HandleInitError,
            RouteOpError::FutureError(detail) => RouteOpErrorView::FutureError(detail@),
            RouteOpError::GetInterfaceError(detail) => RouteOpErrorView::GetInterfaceError(detail@),
        }
    }
}

impl View for Error {
    type V = ErrorView;

    open spec fn view(&self) -> ErrorView {
        match self {
            Error::NetworkError(detail) => ErrorView::NetworkError(detail@),
            Error::IOError(cause) => ErrorView::IOError(cause@),
            Error::CacheError(e) => ErrorView::CacheError(e@),
            Error::ExecError(e) => ErrorView::ExecError(e@),
            Error::InvalidTarget => ErrorView::InvalidTarget,
            Error::RouteOpError(e) => ErrorView::RouteOpError(e@),
        }
    }
}

impl Clone for CacheError {
    fn clone(&self) -> (copy: CacheError)
        ensures
            copy == *self,
    {
        match self {
            CacheError::IOError(e) => CacheError::IOError(e.clone()),
        }
    }
}

impl Clone for ExecError {
    fn clone(&self) -> (copy: ExecError)
        ensures
            copy == *self,
    {
        match self {
            ExecError::ExecError(e) => ExecError::ExecError(e.clone()),
        }
    }
}

impl Clone for RouteOpError {
    fn clone(&self) -> (copy: RouteOpError)
        ensures
            copy == *self,
    {
        match self {
            RouteOpError::OpError(e) => RouteOpError::OpError(e.clone()),
            RouteOpError::NoGatewayError => RouteOpError::NoGatewayError,
            RouteOpError::HandleInitError => RouteOpError::HandleInitError,
            RouteOpError::FutureError(detail) => RouteOpError::FutureError(detail.clone()),
            RouteOpError::GetInterfaceError(detail) => RouteOpError::GetInterfaceError(
                detail.clone(),
            ),
        }
    }
}

impl Clone for Error {
    fn clone(&self) -> (copy: Error)
        ensures
            copy == *self,
    {
        match self {
            Error::NetworkError(detail) => Error::NetworkError(detail.clone()),
            Error::IOError(e) => Error::IOError(e.clone()),
            Error::CacheError(e) => Error::CacheError(e.clone()),
            Error::ExecError(e) => Error::ExecError(e.clone()),
            Error::InvalidTarget => Error::InvalidTarget,
            Error::RouteOpError(e) => Error::RouteOpError(e.clone()),
        }
    }
}

impl CacheError {
    /// The line that describes this failure to a person: an empty one.
    pub open spec fn text(self) -> Seq<char> {
        Seq::empty()
    }

    /// The line that describes this failure to a person.
    pub fn message(&self) -> (s: String)
        ensures
            s@ == self.text(),
    {
        String::new()
    }
}

impl ExecError {
    /// The line that describes this failure to a person: an empty one.
    pub open spec fn text(self) -> Seq<char> {
        Seq::empty()
    }

    /// The line that describes this failure to a person.
    pub fn message(&self) -> (s: String)
        ensures
            s@ == self.text(),
    {
        String::new()
    }
}

impl RouteOpError {
    /// The line that describes this failure to a person.
    pub open spec fn text(self) -> Seq<char> {
        match self {
            RouteOpError::OpError(_) => "Any IO Error"@,
            RouteOpError::NoGatewayError => "cannot find system default gateway"@,
            RouteOpError::HandleInitError => "cannot create handle"@,
            RouteOpError::FutureError(detail) => "futures join error: "@ + detail@,
            RouteOpError::GetInterfaceError(detail) => "Get default interface error: "@ + detail@,
        }
    }

    /// The line that describes this failure to a person.
    pub fn message(&self) -> (s: String)
        ensures
            s@ == self.text(),
    {
        match self {
            RouteOpError::OpError(_) => String::from_str("Any IO Error"),
            RouteOpError::NoGatewayError => String::from_str("cannot find system default gateway"),
            RouteOpError::HandleInitError => String::from_str("cannot create handle"),
            RouteOpError::FutureError(detail) => String::from_str("futures join error: ").concat(
                detail.as_str(),
            ),
            RouteOpError::GetInterfaceError(detail) => String::from_str(
                "Get default interface error: ",
            ).concat(detail.as_str()),
        }
    }
}

impl Error {
    /// The line that describes this failure to a person.
    pub open spec fn text(self) -> Seq<char> {
        match self {
            Error::NetworkError(detail) => "Network error: "@ + detail@,
            Error::IOError(e) => "IO error: "@ + e.message@,
            Error::CacheError(e) => "Cache error: "@ + e.text(),
            Error::ExecError(e) => "Exec error: "@ + e.text(),
            Error::InvalidTarget => "Invalid target"@,
            Error::RouteOpError(e) => "Route operation error: "@ + e.text(),
        }
    }

    /// The line that describes this failure to a person.
    pub fn message(&self) -> (s: String)
        ensures
            s@ == self.text(),
    {
        match self {
            Error::NetworkError(detail) => String::from_str("Network error: ").concat(
                detail.as_str(),
            ),
            Error::IOError(e) => String::from_str("IO error: ").concat(e.message.as_str()),
            Error::CacheError(e) => String::from_str("Cache error: ").concat(
                e.message().as_str(),
            ),
            Error::ExecError(e) => String::from_str("Exec error: ").concat(e.message().as_str()),
            Error::InvalidTarget => String::from_str("Invalid target"),
            Error::RouteOpError(e) => String::from_str("Route operation error: ").concat(
                e.message().as_str(),
            ),
        }
    }
}

} // verus!
