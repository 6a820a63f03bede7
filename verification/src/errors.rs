//! The failures that the library reports.

use vstd::prelude::*;
use vstd::string::*;

verus! {

/// Why an operation of the provisioning pipeline did not succeed.
#[derive(Debug, PartialEq, Eq)]
pub enum Error {
    /// An address pool's network is not an IPv4 network in CIDR notation.
    InvalidCidr,
    /// Every host address of the pool is held by a consumer.
    PoolExhausted,
    /// The key secret could not be stored.
    SecretWriteError,
    /// The key secret could not be read back.
    SecretReadError,
    /// The key secret lacks its data or one of its keys.
    MalformedSecret,
    /// A referenced peer has not completed its own provisioning yet.
    PeerNotReady,
    /// An external command exited unsuccessfully; `stderr` is what it wrote
    /// to its standard error.
    CommandFailed { stderr: String },
    /// The object store refused a write because the object had changed.
    StoreConflict,
    /// The object store holds no such object.
    ResourceNotFound,
    /// The network namespace could not be entered or left.
    NamespaceSwitchFailed,
    /// The object store could not be reached or refused the request.
    StoreUnavailable,
    /// A tunnel flagged ready lacks its tunnel address or prefix.
    IncompleteStatus,
    /// The tunnel did not become ready within the polls allowed.
    ProvisioningTimedOut,
    /// A workflow was handed an answer to a request it had not made.
    UnexpectedEvent,
}

/// What an `Error` denotes.
pub enum ErrorView {
    InvalidCidr,
    PoolExhausted,
    SecretWriteError,
    SecretReadError,
    MalformedSecret,
    PeerNotReady,
    CommandFailed { stderr: Seq<char> },
    StoreConflict,
    ResourceNotFound,
    NamespaceSwitchFailed,
    StoreUnavailable,
    IncompleteStatus,
    ProvisioningTimedOut,
    UnexpectedEvent,
}

impl View for Error {
    type V = ErrorView;

    open spec fn view(&self) -> ErrorView {
        match self {
            Error::InvalidCidr => ErrorView::InvalidCidr,
            Error::PoolExhausted => ErrorView::PoolExhausted,
            Error::SecretWriteError => ErrorView::SecretWriteError,
            Error::SecretReadError => ErrorView::SecretReadError,
            Error::MalformedSecret => ErrorView::MalformedSecret,
            Error::PeerNotReady => ErrorView::PeerNotReady,
            Error::CommandFailed { stderr } => ErrorView::CommandFailed { stderr: stderr@ },
            Error::StoreConflict => ErrorView::StoreConflict,
            Error::ResourceNotFound => ErrorView::ResourceNotFound,
            Error::NamespaceSwitchFailed => ErrorView::NamespaceSwitchFailed,
            Error::StoreUnavailable => ErrorView::StoreUnavailable,
            Error::IncompleteStatus => ErrorView::IncompleteStatus,
            Error::ProvisioningTimedOut => ErrorView::ProvisioningTimedOut,
            Error::UnexpectedEvent => ErrorView::UnexpectedEvent,
        }
    }
}

impl ErrorView {
    /// A description of this failure for people.
    pub open spec fn message(self) -> Seq<char> {
        match self {
            ErrorView::InvalidCidr => "invalid cidr"@,
            ErrorView::PoolExhausted => "pool exhausted"@,
            ErrorView::SecretWriteError => "key secret could not be written"@,
            ErrorView::SecretReadError => "key secret could not be read"@,
            ErrorView::MalformedSecret => "key secret lacks its data or a key"@,
            ErrorView::PeerNotReady => "peer not ready"@,
            ErrorView::CommandFailed { stderr } => "command failed, stderr: "@ + stderr,
            ErrorView::StoreConflict => "object changed in the store"@,
            ErrorView::ResourceNotFound => "no such object"@,
            ErrorView::NamespaceSwitchFailed => "network namespace switch failed"@,
            ErrorView::StoreUnavailable => "object store unavailable"@,
            ErrorView::IncompleteStatus => "ready tunnel lacks its address"@,
            ErrorView::ProvisioningTimedOut => "tunnel did not become ready in time"@,
            ErrorView::UnexpectedEvent => "answer to a request that was not made"@,
        }
    }
}

impl Error {
    /// A description of this failure for people.
    pub fn to_string(&self) -> (r: String)
        ensures
            r@ == self@.message(),
    {
        match self {
            Error::InvalidCidr => String::from_str("invalid cidr"),
            Error::PoolExhausted => String::from_str("pool exhausted"),
            Error::SecretWriteError => String::from_str("key secret could not be written"),
            Error::SecretReadError => String::from_str("key secret could not be read"),
            Error::MalformedSecret => String::from_str("key secret lacks its data or a key"),
            Error::PeerNotReady => String::from_str("peer not ready"),
            Error::CommandFailed { stderr } => {
                let mut out = String::from_str("command failed, stderr: ");
                out.append(stderr.as_str());
                out
            },
            Error::StoreConflict => String::from_str("object changed in the store"),
            Error::ResourceNotFound => String::from_str("no such object"),
            Error::NamespaceSwitchFailed => String::from_str("network namespace switch failed"),
            Error::StoreUnavailable => String::from_str("object store unavailable"),
            Error::IncompleteStatus => String::from_str("ready tunnel lacks its address"),
            Error::ProvisioningTimedOut => String::from_str("tunnel did not become ready in time"),
            Error::UnexpectedEvent => String::from_str("answer to a request that was not made"),
        }
    }
}

/// The view of a text or a failure.
pub open spec fn text_result(r: Result<String, Error>) -> Result<Seq<char>, ErrorView> {
    match r {
        Ok(text) => Ok(text@),
        Err(error) => Err(error@),
    }
}

} // verus!
