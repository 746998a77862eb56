//! Error taxonomy shared by every service operation.
//!
//! Every failure the control plane reports carries the kind of resource it
//! concerns, a transport-agnostic error kind, and a human-readable message.

use vstd::prelude::*;

verus! {

/// The kind of resource an error refers to.
#[derive(Clone, Copy, Debug, PartialEq, Eq, Structural)]
pub enum ResourceKind {
    Unknown,
    Node,
    Pool,
    Replica,
    Nexus,
    Child,
    Volume,
}

/// Transport-agnostic classification of control-plane errors.
#[derive(Clone, Copy, Debug, PartialEq, Eq, Structural)]
pub enum ReplyErrorKind {
    NotFound,
    AlreadyExists,
    MissingArgument,
    InvalidArgument,
    /// An operation is already in flight on the target resource.
    Conflict,
    PreconditionFailed,
    /// The store or a data-plane node could not be reached.
    Unavailable,
    Timeout,
    /// The exclusive store lease was lost; the process must exit.
    Aborted,
    Unauthorized,
    Unimplemented,
    Internal,
}

/// An error reply, carrying its classification and a human message.
#[derive(Debug)]
pub struct ReplyError {
    /// Classification of the failure.
    pub kind: ReplyErrorKind,
    /// The resource the failure concerns.
    pub resource: ResourceKind,
    /// Short human-readable description.
    pub message: String,
}

impl Clone for ReplyError {
    /// A copy of an error keeps its classification and reads the same.
    fn clone(&self) -> (r: ReplyError)
        ensures
            r.kind == self.kind,
            r.resource == self.resource,
            r.message@ == self.message@,
    {
        ReplyError {
            kind: self.kind,
            resource: self.resource,
            message: self.message.clone(),
        }
    }
}

impl ReplyError {
    /// Build an error of the given kind and resource.
    pub fn new(kind: ReplyErrorKind, resource: ResourceKind, message: String) -> (r: ReplyError)
        ensures
            r.kind == kind,
            r.resource == resource,
            r.message == message,
    {
        ReplyError { kind, resource, message }
    }

    /// A required argument was absent from a request.
    pub fn missing_argument(resource: ResourceKind, argument: &str) -> (r: ReplyError)
        ensures
            r.kind == ReplyErrorKind::MissingArgument,
            r.resource == resource,
    {
        ReplyError { kind: ReplyErrorKind::MissingArgument, resource, message: argument.to_owned() }
    }

    /// The requested capability is not offered.
    pub fn unimplemented(message: String) -> (r: ReplyError)
        ensures
            r.kind == ReplyErrorKind::Unimplemented,
            r.resource == ResourceKind::Unknown,
            r.message == message,
    {
        ReplyError { kind: ReplyErrorKind::Unimplemented, resource: ResourceKind::Unknown, message }
    }

    /// A reply arrived with no payload where one was owed.
    pub fn invalid_response(resource: ResourceKind) -> (r: ReplyError)
        ensures
            r.kind == ReplyErrorKind::Internal,
            r.resource == resource,
    {
        ReplyError {
            kind: ReplyErrorKind::Internal,
            resource,
            message: String::from_str("invalid response"),
        }
    }

    /// A wire message could not be converted into its typed form.
    pub fn unwrap_err(resource: ResourceKind) -> (r: ReplyError)
        ensures
            r.kind == ReplyErrorKind::InvalidArgument,
            r.resource == resource,
    {
        ReplyError {
            kind: ReplyErrorKind::InvalidArgument,
            resource,
            message: String::from_str("malformed wire message"),
        }
    }

    /// The transport task serving a request failed before replying.
    pub fn tonic_reply_error() -> (r: ReplyError)
        ensures
            r.kind == ReplyErrorKind::Internal,
            r.resource == ResourceKind::Unknown,
    {
        ReplyError {
            kind: ReplyErrorKind::Internal,
            resource: ResourceKind::Unknown,
            message: String::from_str("request handler failed"),
        }
    }

    /// An operation is already in flight on the resource.
    pub fn op_in_progress(resource: ResourceKind) -> (r: ReplyError)
        ensures
            r.kind == ReplyErrorKind::Conflict,
            r.resource == resource,
    {
        ReplyError {
            kind: ReplyErrorKind::Conflict,
            resource,
            message: String::from_str("operation already in progress"),
        }
    }

    /// The store lease was lost: the process must give up leadership.
    pub fn lease_lost() -> (r: ReplyError)
        ensures
            r.kind == ReplyErrorKind::Aborted,
            r.resource == ResourceKind::Unknown,
    {
        ReplyError {
            kind: ReplyErrorKind::Aborted,
            resource: ResourceKind::Unknown,
            message: String::from_str("store lease lost"),
        }
    }

    /// The store could not serve a request within its timeout.
    pub fn store_unavailable() -> (r: ReplyError)
        ensures
            r.kind == ReplyErrorKind::Unavailable,
            r.resource == ResourceKind::Unknown,
    {
        ReplyError {
            kind: ReplyErrorKind::Unavailable,
            resource: ResourceKind::Unknown,
            message: String::from_str("persistent store unavailable"),
        }
    }

    /// Copy of the human message, for display by unverified callers.
    pub fn message_string(&self) -> (r: String)
        ensures
            r@ == self.message@,
    {
        self.message.clone()
    }
}

} // verus!
