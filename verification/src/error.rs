use vstd::prelude::*;

verus! {

/// Why a connection attempt failed.
///
/// Every failure of the connector is reported through this one type, so a
/// caller never has to tell apart the error types of the collaborators it
/// drives; it only inspects the kind.
#[derive(Debug, Clone, PartialEq, Eq)]
pub enum ConnectError {
    /// The target has no host, so no connection can even be attempted.
    InvalidTarget,
    /// The underlying transport failed to connect; the cause is carried
    /// through verbatim.
    Transport(String),
    /// Building the TLS context or running the handshake failed; both
    /// failure points are reported under this one kind.
    Tls(String),
}

/// The mathematical shape of a `ConnectError`: causes as character
/// sequences.
pub enum ConnectErrorView {
    InvalidTarget,
    Transport(Seq<char>),
    Tls(Seq<char>),
}

impl View for ConnectError {
    type V = ConnectErrorView;

    open spec fn view(&self) -> ConnectErrorView {
        match self {
            ConnectError::InvalidTarget => ConnectErrorView::InvalidTarget,
            ConnectError::Transport(cause) => ConnectErrorView::Transport(cause@),
            ConnectError::Tls(cause) => ConnectErrorView::Tls(cause@),
        }
    }
}

/// Why a redirect chain must stop.
#[derive(Debug, Clone, PartialEq, Eq)]
pub enum RedirectError {
    /// The hop budget of a bounded policy is exhausted.
    TooManyRedirects,
    /// The next hop was already visited earlier in the chain.
    RedirectLoop,
    /// An error raised by a caller-supplied decision function, passed
    /// through unchanged.
    Custom(String),
}

} // verus!
