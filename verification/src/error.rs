//! The closed failure taxonomy shared by both download variants.

use vstd::prelude::*;

verus! {

/// The category of a filesystem failure, as the runner observed it when it
/// tried to create or write the destination file.
#[derive(Clone, Copy, Debug, PartialEq, Eq, Structural)]
pub enum IoKind {
    NotFound,
    PermissionDenied,
    AlreadyExists,
    InvalidInput,
    InvalidData,
    WriteZero,
    Interrupted,
    UnexpectedEof,
    Unsupported,
    OutOfMemory,
    TimedOut,
    Other,
}

/// What the transport reported about a failed request or a failed mid-stream
/// read, reduced to the plain values the classification reads: which failure
/// flags were set, and the diagnostic payload, if the transport knew it.
#[derive(Debug)]
pub struct TransportFault {
    /// The transport flagged a redirect failure.
    pub redirect: bool,
    /// The transport flagged a request (network-level) failure.
    pub request: bool,
    /// The transport flagged a failure tied to an HTTP status.
    pub status_flag: bool,
    /// The URL involved, if the transport knew it.
    pub url: Option<String>,
    /// The HTTP status involved, if the transport knew it.
    pub status: Option<u16>,
}

/// One failure kind per download, carrying its optional diagnostic payload.
#[derive(Debug, PartialEq, Eq)]
pub enum Error {
    /// The request itself failed at the transport level (network or redirect
    /// failure), with the offending URL if known.
    Url(Option<String>),
    /// The response carried an error HTTP status, with the code if known.
    Status(Option<u16>),
    /// The destination file could not be created or written, with the
    /// underlying failure category.
    FileCreation(IoKind),
    /// The response declared no usable content length.
    GetTotalSize,
    /// A transport failure that is neither a URL nor a status failure.
    Unknown,
}

/// The classification of a transport fault, in priority order: redirect and
/// request failures name the URL, status failures name the code, and
/// anything else is unclassified.
pub open spec fn classify_fault(fault: TransportFault) -> Error {
    if fault.redirect || fault.request {
        Error::Url(fault.url)
    } else if fault.status_flag {
        Error::Status(fault.status)
    } else {
        Error::Unknown
    }
}

impl From<TransportFault> for Error {
    fn from(fault: TransportFault) -> (e: Error) {
        if fault.redirect || fault.request {
            Error::Url(fault.url)
        } else if fault.status_flag {
            Error::Status(fault.status)
        } else {
            Error::Unknown
        }
    }
}

impl vstd::std_specs::convert::FromSpecImpl<TransportFault> for Error {
    open spec fn obeys_from_spec() -> bool {
        true
    }

    open spec fn from_spec(fault: TransportFault) -> Error {
        classify_fault(fault)
    }
}

} // verus!
