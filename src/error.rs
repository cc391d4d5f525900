//! Failures of the client, and the slot that holds the last one.
use vstd::prelude::*;

verus! {

/// A failure of one of the client's operations.
pub enum ClientError {
    /// The encoded configuration could not be turned into a request sender.
    RequestContextInitialization(ohttp::Error),
    /// The configuration is laid out correctly but lists no symmetric suite
    /// that the engine supports.
    NoSupportedSuite,
    /// The engine refused to encapsulate the request.
    EncapsulationFailed(ohttp::Error),
    /// The response could not be decapsulated with the request's context.
    DecapsulationFailed(ohttp::Error),
    /// An argument passed across the boundary was not acceptable.
    InvalidArgument(String),
}

/// The kind of a [`ClientError`], without its cause.
#[derive(Clone, Copy, Debug, PartialEq, Eq, Structural)]
pub enum ErrorKind {
    RequestContextInitialization,
    EncapsulationFailed,
    DecapsulationFailed,
    InvalidArgument,
}

pub open spec fn kind_of(e: ClientError) -> ErrorKind {
    match e {
        ClientError::RequestContextInitialization(_) => ErrorKind::RequestContextInitialization,
        ClientError::NoSupportedSuite => ErrorKind::RequestContextInitialization,
        ClientError::EncapsulationFailed(_) => ErrorKind::EncapsulationFailed,
        ClientError::DecapsulationFailed(_) => ErrorKind::DecapsulationFailed,
        ClientError::InvalidArgument(_) => ErrorKind::InvalidArgument,
    }
}

impl ClientError {
    pub fn kind(&self) -> (k: ErrorKind)
        ensures
            k == kind_of(*self),
    {
        match self {
            ClientError::RequestContextInitialization(_) => ErrorKind::RequestContextInitialization,
            ClientError::NoSupportedSuite => ErrorKind::RequestContextInitialization,
            ClientError::EncapsulationFailed(_) => ErrorKind::EncapsulationFailed,
            ClientError::DecapsulationFailed(_) => ErrorKind::DecapsulationFailed,
            ClientError::InvalidArgument(_) => ErrorKind::InvalidArgument,
        }
    }
}

/// The most recent failure seen by one thread of callers. A failure
/// overwrites the record; nothing else changes it.
pub struct ErrorChannel {
    last: Option<ClientError>,
}

impl ErrorChannel {
    /// The failure held, if any.
    pub closed spec fn last_spec(&self) -> Option<ClientError> {
        self.last
    }

    /// The kind of the failure held, if any.
    pub open spec fn view(&self) -> Option<ErrorKind> {
        match self.last_spec() {
            Some(e) => Some(kind_of(e)),
            None => None,
        }
    }

    /// A channel that holds no failure.
    pub fn new() -> (c: ErrorChannel)
        ensures
            c.last_spec() is None,
            c@ is None,
    {
        ErrorChannel { last: None }
    }

    /// Replaces the held failure with `e`.
    pub fn record(&mut self, e: ClientError)
        ensures
            final(self).last_spec() == Some(e),
            final(self)@ == Some(kind_of(e)),
    {
        self.last = Some(e);
    }

    /// The failure held, if any; the channel keeps it.
    pub fn last_error(&self) -> (r: Option<&ClientError>)
        ensures
            r matches Some(e) ==> self.last_spec() == Some(*e),
            r is None <==> self.last_spec() is None,
    {
        match &self.last {
            Some(e) => Some(e),
            None => None,
        }
    }

    /// The kind of the failure held, if any.
    pub fn last_kind(&self) -> (r: Option<ErrorKind>)
        ensures
            r == self@,
    {
        match &self.last {
            Some(e) => Some(e.kind()),
            None => None,
        }
    }

    /// Hands back the value of a successful outcome untouched, or records the
    /// failure and hands back nothing: the sentinel convention of the boundary.
    pub fn settle<T>(&mut self, outcome: Result<T, ClientError>) -> (r: Option<T>)
        ensures
            match outcome {
                Ok(v) => r == Some(v) && *final(self) == *old(self),
                Err(e) => r is None && final(self).last_spec() == Some(e),
            },
    {
        match outcome {
            Ok(v) => Some(v),
            Err(e) => {
                self.record(e);
                None
            },
        }
    }
}

} // verus!
