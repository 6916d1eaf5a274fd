//! The requests that a reconciliation puts to the API server, and the replies.

use crate::errors::{ApiError, ApiErrorView};
use crate::resources::{found_view, Deployment, DeploymentView, WazuhClusterStatus};
use vstd::prelude::*;

verus! {

/// One request to the API server. A patch is a merge patch: it changes the
/// named field and leaves the rest of the object as it is.
#[derive(Clone, Debug)]
pub enum Request {
    /// Set the finalizer list of a cluster resource; `None` clears it.
    PatchFinalizers { namespace: String, name: String, finalizers: Option<Vec<String>> },
    /// Read a deployment; an absent one is no failure.
    GetDeployment { namespace: String, name: String },
    /// Create a deployment.
    CreateDeployment { deployment: Deployment },
    /// Set the replica count of a deployment.
    PatchReplicas { namespace: String, name: String, replicas: i32 },
    /// Set the status of a cluster resource.
    PatchStatus { namespace: String, name: String, status: WazuhClusterStatus },
    /// Delete a deployment.
    DeleteDeployment { namespace: String, name: String },
}

/// A request as a mathematical value.
pub enum RequestView {
    PatchFinalizers { namespace: Seq<char>, name: Seq<char>, finalizers: Option<Seq<Seq<char>>> },
    GetDeployment { namespace: Seq<char>, name: Seq<char> },
    CreateDeployment { deployment: DeploymentView },
    PatchReplicas { namespace: Seq<char>, name: Seq<char>, replicas: i32 },
    PatchStatus { namespace: Seq<char>, name: Seq<char>, status: WazuhClusterStatus },
    DeleteDeployment { namespace: Seq<char>, name: Seq<char> },
}

/// The strings of a list, each by its characters.
pub open spec fn strings_view(list: Seq<String>) -> Seq<Seq<char>> {
    Seq::new(list.len(), |i: int| list[i]@)
}

impl View for Request {
    type V = RequestView;

    open spec fn view(&self) -> RequestView {
        match self {
            Request::PatchFinalizers { namespace, name, finalizers } => RequestView::PatchFinalizers {
                namespace: namespace@,
                name: name@,
                finalizers: match finalizers {
                    Some(list) => Some(strings_view(list@)),
                    None => None,
                },
            },
            Request::GetDeployment { namespace, name } => RequestView::GetDeployment {
                namespace: namespace@,
                name: name@,
            },
            Request::CreateDeployment { deployment } => RequestView::CreateDeployment {
                deployment: deployment@,
            },
            Request::PatchReplicas { namespace, name, replicas } => RequestView::PatchReplicas {
                namespace: namespace@,
                name: name@,
                replicas: *replicas,
            },
            Request::PatchStatus { namespace, name, status } => RequestView::PatchStatus {
                namespace: namespace@,
                name: name@,
                status: *status,
            },
            Request::DeleteDeployment { namespace, name } => RequestView::DeleteDeployment {
                namespace: namespace@,
                name: name@,
            },
        }
    }
}

/// The view of a reply. A reply to a read holds the object that was found, if
/// any; of a reply to a write only success or failure is read.
pub open spec fn reply_view(reply: Result<Option<Deployment>, ApiError>) -> Result<
    Option<DeploymentView>,
    ApiErrorView,
> {
    match reply {
        Ok(found) => Ok(found_view(found)),
        Err(e) => Err(e@),
    }
}

} // verus!
