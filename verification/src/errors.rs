use vstd::prelude::*;
use vstd::string::*;

verus! {

/// The kind of a failure surfaced to the caller.
#[derive(Clone, Copy, Debug, PartialEq, Eq, Structural)]
pub enum ErrorKind {
    /// A malformed string or otherwise unusable input value.
    InvalidInput,
    /// A phrase that is not a checksum-valid mnemonic.
    InvalidMnemonic,
    /// A string that does not parse as a BIP-32 derivation path.
    InvalidDerivationPath,
    /// A string that does not parse as a Bitcoin address.
    InvalidAddress,
    /// An address that parses but belongs to a different network.
    NetworkMismatch,
    /// The backing store could not be opened or flushed.
    StoreError,
    /// A connection, timeout or protocol failure.
    NetworkError,
    /// Signing a transaction failed.
    SigningError,
    /// A transaction could not be finalized.
    FinalizationError,
    /// The wallet cannot fund the requested amount.
    InsufficientFunds,
}

/// A short lowercase label for each error kind.
pub open spec fn kind_label(k: ErrorKind) -> Seq<char> {
    match k {
        ErrorKind::InvalidInput => "invalid input"@,
        ErrorKind::InvalidMnemonic => "invalid mnemonic"@,
        ErrorKind::InvalidDerivationPath => "invalid derivation path"@,
        ErrorKind::InvalidAddress => "invalid address"@,
        ErrorKind::NetworkMismatch => "network mismatch"@,
        ErrorKind::StoreError => "store error"@,
        ErrorKind::NetworkError => "network error"@,
        ErrorKind::SigningError => "signing error"@,
        ErrorKind::FinalizationError => "finalization error"@,
        ErrorKind::InsufficientFunds => "insufficient funds"@,
    }
}

/// A failure: its kind plus a detail message carrying the causal chain.
#[derive(Debug)]
pub struct WalletError {
    pub kind: ErrorKind,
    pub detail: String,
}

/// The human-readable message of an error: `<label>: <detail>`.
pub open spec fn error_message(e: WalletError) -> Seq<char> {
    kind_label(e.kind) + ": "@ + e.detail@
}

impl WalletError {
    /// Builds an error from its kind and detail text.
    pub fn new(kind: ErrorKind, detail: String) -> (e: WalletError)
        ensures
            e.kind == kind,
            e.detail == detail,
    {
        WalletError { kind, detail }
    }

    /// Returns the kind's label.
    pub fn label(&self) -> (r: String)
        ensures
            r@ == kind_label(self.kind),
    {
        match self.kind {
            ErrorKind::InvalidInput => "invalid input".to_owned(),
            ErrorKind::InvalidMnemonic => "invalid mnemonic".to_owned(),
            ErrorKind::InvalidDerivationPath => "invalid derivation path".to_owned(),
            ErrorKind::InvalidAddress => "invalid address".to_owned(),
            ErrorKind::NetworkMismatch => "network mismatch".to_owned(),
            ErrorKind::StoreError => "store error".to_owned(),
            ErrorKind::NetworkError => "network error".to_owned(),
            ErrorKind::SigningError => "signing error".to_owned(),
            ErrorKind::FinalizationError => "finalization error".to_owned(),
            ErrorKind::InsufficientFunds => "insufficient funds".to_owned(),
        }
    }

    /// Renders the full message, `<label>: <detail>`.
    pub fn message(&self) -> (r: String)
        ensures
            r@ == error_message(*self),
    {
        let mut out = self.label();
        out.append(": ");
        out.append(self.detail.as_str());
        out
    }
}

/// A single-slot error holder: it records the most recent failure and a
/// read consumes it. It replaces ambient last-error state with an explicit
/// per-call-context value, so nothing is shared between contexts.
pub struct ErrorChannel {
    last: Option<WalletError>,
}

impl ErrorChannel {
    /// The error currently pending, if any.
    pub closed spec fn pending(&self) -> Option<WalletError> {
        self.last
    }

    /// A fresh channel with no pending error.
    pub fn new() -> (c: ErrorChannel)
        ensures
            c.pending() is None,
    {
        ErrorChannel { last: None }
    }

    /// Records the most recent error, clearing whatever may have been
    /// there before.
    pub fn update_last_error(&mut self, err: WalletError)
        ensures
            final(self).pending() == Some(err),
    {
        self.last = Some(err);
    }

    /// Retrieves the most recent error, clearing it in the process.
    pub fn take_last_error(&mut self) -> (r: Option<WalletError>)
        ensures
            r == old(self).pending(),
            final(self).pending() is None,
    {
        self.last.take()
    }

    /// Renders and consumes the pending error; an empty string means
    /// nothing was pending.
    pub fn last_error_message(&mut self) -> (r: String)
        ensures
            final(self).pending() is None,
            old(self).pending() matches Some(e) ==> r@ == error_message(e),
            old(self).pending() is None ==> r@ == Seq::<char>::empty(),
    {
        match self.take_last_error() {
            Some(e) => e.message(),
            None => String::new(),
        }
    }
}

} // verus!
