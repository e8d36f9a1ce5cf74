//! What can go wrong while a restart is coordinated.
use crate::duration::Duration;
use crate::text::joined;
use vstd::prelude::*;

verus! {

/// Errors of the restart-coordination primitives.
#[derive(Clone, Debug)]
pub enum RestartError {
    /// The TTL that a lock, or a wait for one, was asked for with is zero, or
    /// has more seconds than a request can hold. Found before any stream is
    /// opened.
    InvalidTtl(Duration),
    /// Opening the `AcquireRestartLock` bidirectional stream failed.
    OpenStream(String),
    /// Sending a message on the `AcquireRestartLock` stream failed.
    Send(String),
    /// Receiving a message from a stream failed.
    Recv(String),
    /// The stream ended before an `ACQUIRED` message was received.
    ClosedBeforeAcquired,
    /// The lock was lost while it was held, by an error of the stream or the
    /// server closing it, and not because it was released.
    LockLost(String),
    /// Opening the `WatchServiceBundle` stream failed.
    WatchOpen(String),
    /// The watch for changes stopped before a restart could be coordinated.
    WatchStopped,
    /// The caller cancelled.
    Cancelled,
}

/// A [`RestartError`] over sequences of characters.
pub ghost enum RestartErrorView {
    InvalidTtl(Duration),
    OpenStream(Seq<char>),
    Send(Seq<char>),
    Recv(Seq<char>),
    ClosedBeforeAcquired,
    LockLost(Seq<char>),
    WatchOpen(Seq<char>),
    WatchStopped,
    Cancelled,
}

impl View for RestartError {
    type V = RestartErrorView;

    open spec fn view(&self) -> RestartErrorView {
        match self {
            RestartError::InvalidTtl(ttl) => RestartErrorView::InvalidTtl(*ttl),
            RestartError::OpenStream(cause) => RestartErrorView::OpenStream(cause@),
            RestartError::Send(cause) => RestartErrorView::Send(cause@),
            RestartError::Recv(cause) => RestartErrorView::Recv(cause@),
            RestartError::ClosedBeforeAcquired => RestartErrorView::ClosedBeforeAcquired,
            RestartError::LockLost(cause) => RestartErrorView::LockLost(cause@),
            RestartError::WatchOpen(cause) => RestartErrorView::WatchOpen(cause@),
            RestartError::WatchStopped => RestartErrorView::WatchStopped,
            RestartError::Cancelled => RestartErrorView::Cancelled,
        }
    }
}

impl RestartError {
    /// What the error says.
    pub open spec fn message(&self) -> Seq<char> {
        match self {
            RestartError::InvalidTtl(ttl) => "signet: ttl must be > 0, got "@ + ttl.debug_text(),
            RestartError::OpenStream(cause) => "signet: open AcquireRestartLock stream: "@ + cause@,
            RestartError::Send(cause) => "signet: send AcquireRestartLockRequest: "@ + cause@,
            RestartError::Recv(cause) => "signet: receive AcquireRestartLockResponse: "@ + cause@,
            RestartError::ClosedBeforeAcquired => {
                "signet: AcquireRestartLock stream closed before the lock was acquired"@
            },
            RestartError::LockLost(cause) => "signet: restart lock lost: "@ + cause@,
            RestartError::WatchOpen(cause) => "signet: open WatchServiceBundle stream: "@ + cause@,
            RestartError::WatchStopped => {
                "signet: watch_bundle stopped before a restart could be coordinated"@
            },
            RestartError::Cancelled => "signet: cancelled"@,
        }
    }

    /// What the error says.
    pub fn to_string(&self) -> (text: String)
        ensures
            text@ == self.message(),
    {
        match self {
            RestartError::InvalidTtl(ttl) => {
                joined("signet: ttl must be > 0, got ", ttl.to_debug_string().as_str())
            },
            RestartError::OpenStream(cause) => {
                joined("signet: open AcquireRestartLock stream: ", cause.as_str())
            },
            RestartError::Send(cause) => {
                joined("signet: send AcquireRestartLockRequest: ", cause.as_str())
            },
            RestartError::Recv(cause) => {
                joined("signet: receive AcquireRestartLockResponse: ", cause.as_str())
            },
            RestartError::ClosedBeforeAcquired => {
                "signet: AcquireRestartLock stream closed before the lock was acquired".to_string()
            },
            RestartError::LockLost(cause) => joined("signet: restart lock lost: ", cause.as_str()),
            RestartError::WatchOpen(cause) => {
                joined("signet: open WatchServiceBundle stream: ", cause.as_str())
            },
            RestartError::WatchStopped => {
                "signet: watch_bundle stopped before a restart could be coordinated".to_string()
            },
            RestartError::Cancelled => "signet: cancelled".to_string(),
        }
    }
}

/// The view of an error is the error of the same kind with the same text.
pub proof fn law_error_views_are_faithful(a: String, ttl: Duration)
    ensures
        RestartError::InvalidTtl(ttl)@ == RestartErrorView::InvalidTtl(ttl),
        RestartError::OpenStream(a)@ == RestartErrorView::OpenStream(a@),
        RestartError::Send(a)@ == RestartErrorView::Send(a@),
        RestartError::Recv(a)@ == RestartErrorView::Recv(a@),
        RestartError::ClosedBeforeAcquired@ == RestartErrorView::ClosedBeforeAcquired,
        RestartError::LockLost(a)@ == RestartErrorView::LockLost(a@),
        RestartError::WatchOpen(a)@ == RestartErrorView::WatchOpen(a@),
        RestartError::WatchStopped@ == RestartErrorView::WatchStopped,
        RestartError::Cancelled@ == RestartErrorView::Cancelled,
{
}

/// What each error says: fixed words, with the cause or the span behind them.
pub proof fn law_error_texts(a: String, ttl: Duration)
    ensures
        RestartError::InvalidTtl(ttl).message() == "signet: ttl must be > 0, got "@
            + crate::duration::span_debug_text(ttl@ / 1_000_000_000, ttl@ % 1_000_000_000),
        RestartError::OpenStream(a).message() == "signet: open AcquireRestartLock stream: "@ + a@,
        RestartError::Send(a).message() == "signet: send AcquireRestartLockRequest: "@ + a@,
        RestartError::Recv(a).message() == "signet: receive AcquireRestartLockResponse: "@ + a@,
        RestartError::ClosedBeforeAcquired.message()
            == "signet: AcquireRestartLock stream closed before the lock was acquired"@,
        RestartError::LockLost(a).message() == "signet: restart lock lost: "@ + a@,
        RestartError::WatchOpen(a).message() == "signet: open WatchServiceBundle stream: "@ + a@,
        RestartError::WatchStopped.message()
            == "signet: watch_bundle stopped before a restart could be coordinated"@,
        RestartError::Cancelled.message() == "signet: cancelled"@,
{
}

}
