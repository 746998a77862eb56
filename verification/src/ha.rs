//! High-availability cluster agent: accepts node-agent registrations
//! and, in time, reports of failed NVMe paths.

use vstd::prelude::*;
use crate::errors::{ReplyError, ReplyErrorKind, ResourceKind};

verus! {

/// The cluster agent's service: validates node-agent registrations.
pub struct ClusterAgentSvc {}

impl ClusterAgentSvc {
    /// A fresh cluster agent service.
    pub fn new() -> ClusterAgentSvc {
        ClusterAgentSvc {}
    }

    /// Accept a node-agent registration: both the node name and its
    /// endpoint must be present.
    pub fn register(&self, node: &str, endpoint: &str) -> (r: Result<(), ReplyError>)
        ensures
            r is Ok <==> (node@.len() > 0 && endpoint@.len() > 0),
            node@.len() == 0 ==> (r matches Err(e) && e.kind == ReplyErrorKind::MissingArgument
                && e.resource == ResourceKind::Unknown),
            node@.len() > 0 && endpoint@.len() == 0 ==> (r matches Err(e) && e.kind
                == ReplyErrorKind::MissingArgument && e.resource == ResourceKind::Unknown),
    {
        if node.is_empty() {
            return Err(ReplyError::missing_argument(ResourceKind::Unknown, "node_name"));
        }
        if endpoint.is_empty() {
            return Err(ReplyError::missing_argument(ResourceKind::Unknown, "endpoint"));
        }
        Ok(())
    }

    /// NVMe path reporting is not offered yet.
    pub fn report_failed_nvme_paths(&self) -> (r: Result<(), ReplyError>)
        ensures
            r matches Err(e) && e.kind == ReplyErrorKind::Unimplemented,
    {
        Err(ReplyError::unimplemented(String::from_str("NVMe path reporting is not yet implemented")))
    }
}

} // verus!
