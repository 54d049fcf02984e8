//! The ways in which a logout can fail.
//!
//! A failure is *recoverable* when the session is still valid afterwards and
//! the logout can simply be tried again. It is *unrecoverable* when the
//! application has to be restarted before it can be used further.

use vstd::prelude::*;
use vstd::string::*;

verus! {

/// A failure that leaves the session usable.
#[derive(Debug)]
pub enum RecoverableError {
    /// The client holds no access token.
    NoAccessToken,
    /// The server refused the sign-out request; the text is the server's reason.
    ServerLogoutFailed(String),
    /// A step did not finish within its deadline; the text names the step.
    Timeout(String),
    /// The user cancelled the logout before the session was invalidated.
    Cancelled,
}

/// The mathematical value of a [`RecoverableError`].
pub enum RecoverableErrorView {
    NoAccessToken,
    ServerLogoutFailed(Seq<char>),
    Timeout(Seq<char>),
    Cancelled,
}

impl View for RecoverableError {
    type V = RecoverableErrorView;

    open spec fn view(&self) -> RecoverableErrorView {
        match self {
            RecoverableError::NoAccessToken => RecoverableErrorView::NoAccessToken,
            RecoverableError::ServerLogoutFailed(detail) => RecoverableErrorView::ServerLogoutFailed(
                detail@,
            ),
            RecoverableError::Timeout(detail) => RecoverableErrorView::Timeout(detail@),
            RecoverableError::Cancelled => RecoverableErrorView::Cancelled,
        }
    }
}

impl RecoverableErrorView {
    /// The text shown to the user for this failure.
    pub open spec fn text(self) -> Seq<char> {
        match self {
            RecoverableErrorView::NoAccessToken => "No access token found"@,
            RecoverableErrorView::ServerLogoutFailed(detail) => "Server logout failed: "@ + detail,
            RecoverableErrorView::Timeout(detail) => "Operation timed out: "@ + detail,
            RecoverableErrorView::Cancelled => "Operation cancelled by user"@,
        }
    }
}

impl Clone for RecoverableError {
    fn clone(&self) -> (copy: Self)
        ensures
            copy@ == self@,
    {
        match self {
            RecoverableError::NoAccessToken => RecoverableError::NoAccessToken,
            RecoverableError::ServerLogoutFailed(detail) => RecoverableError::ServerLogoutFailed(
                detail.clone(),
            ),
            RecoverableError::Timeout(detail) => RecoverableError::Timeout(detail.clone()),
            RecoverableError::Cancelled => RecoverableError::Cancelled,
        }
    }
}

impl PartialEq for RecoverableError {
    fn eq(&self, other: &Self) -> (same: bool) {
        match (self, other) {
            (RecoverableError::NoAccessToken, RecoverableError::NoAccessToken) => true,
            (RecoverableError::ServerLogoutFailed(a), RecoverableError::ServerLogoutFailed(b)) => *a
                == *b,
            (RecoverableError::Timeout(a), RecoverableError::Timeout(b)) => *a == *b,
            (RecoverableError::Cancelled, RecoverableError::Cancelled) => true,
            _ => false,
        }
    }
}

impl vstd::std_specs::cmp::PartialEqSpecImpl for RecoverableError {
    open spec fn obeys_eq_spec() -> bool {
        true
    }

    open spec fn eq_spec(&self, other: &Self) -> bool {
        self@ == other@
    }
}

impl RecoverableError {
    /// The text shown to the user for this failure.
    pub fn message(&self) -> (text: String)
        ensures
            text@ == self@.text(),
    {
        match self {
            RecoverableError::NoAccessToken => String::from_str("No access token found"),
            RecoverableError::ServerLogoutFailed(detail) => String::from_str(
                "Server logout failed: ",
            ).concat(detail.as_str()),
            RecoverableError::Timeout(detail) => String::from_str("Operation timed out: ").concat(
                detail.as_str(),
            ),
            RecoverableError::Cancelled => String::from_str("Operation cancelled by user"),
        }
    }
}

/// A failure after which the application must be restarted.
#[derive(Debug)]
pub enum UnrecoverableError {
    /// There is no active client session.
    ClientMissing,
    /// There is no running sync service.
    SyncServiceMissing,
    /// A step failed after the session had been invalidated; the text says
    /// which step and why.
    PostPointOfNoReturnFailure(String),
    /// The asynchronous runtime could not be brought up again.
    RuntimeRestartFailed,
}

/// The mathematical value of an [`UnrecoverableError`].
pub enum UnrecoverableErrorView {
    ClientMissing,
    SyncServiceMissing,
    PostPointOfNoReturnFailure(Seq<char>),
    RuntimeRestartFailed,
}

impl View for UnrecoverableError {
    type V = UnrecoverableErrorView;

    open spec fn view(&self) -> UnrecoverableErrorView {
        match self {
            UnrecoverableError::ClientMissing => UnrecoverableErrorView::ClientMissing,
            UnrecoverableError::SyncServiceMissing => UnrecoverableErrorView::SyncServiceMissing,
            UnrecoverableError::PostPointOfNoReturnFailure(detail) =>
                UnrecoverableErrorView::PostPointOfNoReturnFailure(detail@),
            UnrecoverableError::RuntimeRestartFailed => UnrecoverableErrorView::RuntimeRestartFailed,
        }
    }
}

impl UnrecoverableErrorView {
    /// The text shown to the user for this failure.
    pub open spec fn text(self) -> Seq<char> {
        match self {
            UnrecoverableErrorView::ClientMissing => "Client is missing"@,
            UnrecoverableErrorView::SyncServiceMissing => "Sync service is missing"@,
            UnrecoverableErrorView::PostPointOfNoReturnFailure(detail) =>
                "Failed after point of no return: "@ + detail,
            UnrecoverableErrorView::RuntimeRestartFailed => "Failed to restart the runtime"@,
        }
    }
}

impl Clone for UnrecoverableError {
    fn clone(&self) -> (copy: Self)
        ensures
            copy@ == self@,
    {
        match self {
            UnrecoverableError::ClientMissing => UnrecoverableError::ClientMissing,
            UnrecoverableError::SyncServiceMissing => UnrecoverableError::SyncServiceMissing,
            UnrecoverableError::PostPointOfNoReturnFailure(detail) =>
                UnrecoverableError::PostPointOfNoReturnFailure(detail.clone()),
            UnrecoverableError::RuntimeRestartFailed => UnrecoverableError::RuntimeRestartFailed,
        }
    }
}

impl PartialEq for UnrecoverableError {
    fn eq(&self, other: &Self) -> (same: bool) {
        match (self, other) {
            (UnrecoverableError::ClientMissing, UnrecoverableError::ClientMissing) => true,
            (UnrecoverableError::SyncServiceMissing, UnrecoverableError::SyncServiceMissing) => true,
            (
                UnrecoverableError::PostPointOfNoReturnFailure(a),
                UnrecoverableError::PostPointOfNoReturnFailure(b),
            ) => *a == *b,
            (
                UnrecoverableError::RuntimeRestartFailed,
                UnrecoverableError::RuntimeRestartFailed,
            ) => true,
            _ => false,
        }
    }
}

impl vstd::std_specs::cmp::PartialEqSpecImpl for UnrecoverableError {
    open spec fn obeys_eq_spec() -> bool {
        true
    }

    open spec fn eq_spec(&self, other: &Self) -> bool {
        self@ == other@
    }
}

impl UnrecoverableError {
    /// The text shown to the user for this failure.
    pub fn message(&self) -> (text: String)
        ensures
            text@ == self@.text(),
    {
        match self {
            UnrecoverableError::ClientMissing => String::from_str("Client is missing"),
            UnrecoverableError::SyncServiceMissing => String::from_str("Sync service is missing"),
            UnrecoverableError::PostPointOfNoReturnFailure(detail) => String::from_str(
                "Failed after point of no return: ",
            ).concat(detail.as_str()),
            UnrecoverableError::RuntimeRestartFailed => String::from_str(
                "Failed to restart the runtime",
            ),
        }
    }
}

/// Any failure of a logout.
#[derive(Debug)]
pub enum LogoutError {
    Recoverable(RecoverableError),
    Unrecoverable(UnrecoverableError),
}

/// The mathematical value of a [`LogoutError`].
pub enum LogoutErrorView {
    Recoverable(RecoverableErrorView),
    Unrecoverable(UnrecoverableErrorView),
}

impl View for LogoutError {
    type V = LogoutErrorView;

    open spec fn view(&self) -> LogoutErrorView {
        match self {
            LogoutError::Recoverable(e) => LogoutErrorView::Recoverable(e@),
            LogoutError::Unrecoverable(e) => LogoutErrorView::Unrecoverable(e@),
        }
    }
}

impl LogoutErrorView {
    /// The text shown to the user for this failure.
    pub open spec fn text(self) -> Seq<char> {
        match self {
            LogoutErrorView::Recoverable(e) => "Recoverable error: "@ + e.text(),
            LogoutErrorView::Unrecoverable(e) => "Unrecoverable error: "@ + e.text(),
        }
    }

    /// The failure that a user's cancellation produces.
    pub open spec fn cancelled() -> LogoutErrorView {
        LogoutErrorView::Recoverable(RecoverableErrorView::Cancelled)
    }
}

impl Clone for LogoutError {
    fn clone(&self) -> (copy: Self)
        ensures
            copy@ == self@,
    {
        match self {
            LogoutError::Recoverable(e) => LogoutError::Recoverable(e.clone()),
            LogoutError::Unrecoverable(e) => LogoutError::Unrecoverable(e.clone()),
        }
    }
}

impl PartialEq for LogoutError {
    fn eq(&self, other: &Self) -> (same: bool) {
        match (self, other) {
            (LogoutError::Recoverable(a), LogoutError::Recoverable(b)) => *a == *b,
            (LogoutError::Unrecoverable(a), LogoutError::Unrecoverable(b)) => *a == *b,
            _ => false,
        }
    }
}

impl vstd::std_specs::cmp::PartialEqSpecImpl for LogoutError {
    open spec fn obeys_eq_spec() -> bool {
        true
    }

    open spec fn eq_spec(&self, other: &Self) -> bool {
        self@ == other@
    }
}

impl LogoutError {
    /// Whether the session is still usable after this failure.
    pub fn is_recoverable(&self) -> (recoverable: bool)
        ensures
            recoverable == (self@ is Recoverable),
    {
        match self {
            LogoutError::Recoverable(_) => true,
            LogoutError::Unrecoverable(_) => false,
        }
    }

    /// The text shown to the user for this failure.
    pub fn message(&self) -> (text: String)
        ensures
            text@ == self@.text(),
    {
        match self {
            LogoutError::Recoverable(e) => {
                let inner = e.message();
                String::from_str("Recoverable error: ").concat(inner.as_str())
            },
            LogoutError::Unrecoverable(e) => {
                let inner = e.message();
                String::from_str("Unrecoverable error: ").concat(inner.as_str())
            },
        }
    }
}

} // verus!
