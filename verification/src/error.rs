//! What can go wrong, and how the game server's HTTP status is read.

use vstd::prelude::*;

verus! {

/// An error of the client.
#[derive(Debug, Clone, PartialEq, Eq)]
pub enum AppError {
    /// The request did not get through.
    NetworkError(String),
    /// Something that was read does not have the expected form.
    ParseError(String),
    /// A body could not be encrypted or decrypted.
    CryptoError(String),
    /// The request is refused as malformed.
    BadRequest(String),
    /// The thing asked for does not exist.
    NotFound(String),
    /// Anything else that failed on this side.
    Internal(String),
    /// There is no session at all.
    NoClientAvailable,
    /// There are sessions, but none whose account has the role.
    NoProxyAccountForRole(String),
    /// The game server does not accept the session any more.
    SessionError,
    /// The game server wants fresh cookies.
    CookieExpired,
    /// The game server wants a newer version of the game.
    UpgradeRequired,
    /// The game server is under maintenance.
    UnderMaintenance,
    /// The game server answered with something else.
    Unknown { status: u16, body: String },
}

/// An [`AppError`] with its words as characters.
pub enum ErrorView {
    NetworkError(Seq<char>),
    ParseError(Seq<char>),
    CryptoError(Seq<char>),
    BadRequest(Seq<char>),
    NotFound(Seq<char>),
    Internal(Seq<char>),
    NoClientAvailable,
    NoProxyAccountForRole(Seq<char>),
    SessionError,
    CookieExpired,
    UpgradeRequired,
    UnderMaintenance,
    Unknown { status: u16, body: Seq<char> },
}

impl View for AppError {
    type V = ErrorView;

    open spec fn view(&self) -> ErrorView {
        match self {
            AppError::NetworkError(text) => ErrorView::NetworkError(text@),
            AppError::ParseError(text) => ErrorView::ParseError(text@),
            AppError::CryptoError(text) => ErrorView::CryptoError(text@),
            AppError::BadRequest(text) => ErrorView::BadRequest(text@),
            AppError::NotFound(text) => ErrorView::NotFound(text@),
            AppError::Internal(text) => ErrorView::Internal(text@),
            AppError::NoClientAvailable => ErrorView::NoClientAvailable,
            AppError::NoProxyAccountForRole(text) => ErrorView::NoProxyAccountForRole(text@),
            AppError::SessionError => ErrorView::SessionError,
            AppError::CookieExpired => ErrorView::CookieExpired,
            AppError::UpgradeRequired => ErrorView::UpgradeRequired,
            AppError::UnderMaintenance => ErrorView::UnderMaintenance,
            AppError::Unknown { status, body } => ErrorView::Unknown {
                status: *status,
                body: body@,
            },
        }
    }
}

/// How the game server's HTTP status is understood.
#[derive(Debug, Clone, Copy, PartialEq, Eq, Structural)]
pub enum SekaiHttpStatus {
    Success,
    ClientError,
    SessionError,
    NotFound,
    Conflict,
    GameUpgrade,
    ServerError,
    UnderMaintenance,
}

// ---------------------------------------------------------------------------
// Laws
// ---------------------------------------------------------------------------

/// The view of an error keeps its kind, its words and its status.
pub proof fn errors_are_seen_as_they_are(words: String, status: u16)
    ensures
        AppError::NetworkError(words)@ == ErrorView::NetworkError(words@),
        AppError::ParseError(words)@ == ErrorView::ParseError(words@),
        AppError::CryptoError(words)@ == ErrorView::CryptoError(words@),
        AppError::BadRequest(words)@ == ErrorView::BadRequest(words@),
        AppError::NotFound(words)@ == ErrorView::NotFound(words@),
        AppError::Internal(words)@ == ErrorView::Internal(words@),
        AppError::NoProxyAccountForRole(words)@ == ErrorView::NoProxyAccountForRole(words@),
        (AppError::Unknown { status, body: words })@ == (ErrorView::Unknown {
            status,
            body: words@,
        }),
        AppError::NoClientAvailable@ == ErrorView::NoClientAvailable,
        AppError::SessionError@ == ErrorView::SessionError,
        AppError::CookieExpired@ == ErrorView::CookieExpired,
        AppError::UpgradeRequired@ == ErrorView::UpgradeRequired,
        AppError::UnderMaintenance@ == ErrorView::UnderMaintenance,
{
}

} // verus!
