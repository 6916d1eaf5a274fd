//! The resources that a reconciliation reads and writes, as plain values.

use crate::labels::Labels;
use vstd::prelude::*;

verus! {

/// What the user asks of a cluster.
#[derive(Clone, Copy, Debug, PartialEq, Eq, Structural)]
pub struct WazuhClusterSpec {
    pub replicas: i32,
}

/// What has been observed of a cluster's workload.
#[derive(Clone, Copy, Debug, PartialEq, Eq, Structural)]
pub struct WazuhClusterStatus {
    pub available_replicas: i32,
}

impl Default for WazuhClusterStatus {
    fn default() -> (res: WazuhClusterStatus)
        ensures
            res.available_replicas == 0,
    {
        WazuhClusterStatus { available_replicas: 0 }
    }
}

/// A `WazuhCluster` resource as the API server delivers it.
///
/// `deletion_timestamp` is the time at which deletion was requested, in
/// seconds since the Unix epoch; the reconciliation reads only whether it is
/// set.
#[derive(Clone, Debug)]
pub struct WazuhCluster {
    pub name: Option<String>,
    pub namespace: Option<String>,
    pub labels: Option<Labels>,
    pub finalizers: Option<Vec<String>>,
    pub deletion_timestamp: Option<i64>,
    pub spec: WazuhClusterSpec,
    pub status: Option<WazuhClusterStatus>,
}

impl WazuhCluster {
    /// Deletion of the resource has been requested.
    pub open spec fn deletion_requested(&self) -> bool {
        self.deletion_timestamp is Some
    }

    /// The resource carries at least one finalizer.
    pub open spec fn has_finalizers(&self) -> bool {
        self.finalizers matches Some(list) && list@.len() > 0
    }

    /// The resource's own name; empty where it has none.
    pub open spec fn own_name(&self) -> Seq<char> {
        match self.name {
            Some(name) => name@,
            None => Seq::empty(),
        }
    }

    /// The labels of the resource; none where it has no label map.
    pub open spec fn label_map(&self) -> Map<Seq<char>, Seq<char>> {
        match self.labels {
            Some(labels) => labels@,
            None => Map::empty(),
        }
    }
}

/// The observed state of a deployment.
#[derive(Clone, Copy, Debug, PartialEq, Eq, Structural)]
pub struct DeploymentStatus {
    pub available_replicas: Option<i32>,
}

/// The pod template of a deployment: its labels and its single container.
#[derive(Clone, Debug)]
pub struct PodTemplate {
    pub labels: Labels,
    pub container_name: String,
    pub image: String,
    pub container_port: i32,
}

/// A pod template as a mathematical value.
pub struct PodTemplateView {
    pub labels: Map<Seq<char>, Seq<char>>,
    pub container_name: Seq<char>,
    pub image: Seq<char>,
    pub container_port: i32,
}

impl View for PodTemplate {
    type V = PodTemplateView;

    open spec fn view(&self) -> PodTemplateView {
        PodTemplateView {
            labels: self.labels@,
            container_name: self.container_name@,
            image: self.image@,
            container_port: self.container_port,
        }
    }
}

/// The managed workload.
#[derive(Clone, Debug)]
pub struct Deployment {
    pub name: String,
    pub namespace: String,
    pub labels: Labels,
    pub replicas: Option<i32>,
    pub selector: Labels,
    pub template: PodTemplate,
    pub status: Option<DeploymentStatus>,
}

/// A deployment as a mathematical value.
pub struct DeploymentView {
    pub name: Seq<char>,
    pub namespace: Seq<char>,
    pub labels: Map<Seq<char>, Seq<char>>,
    pub replicas: Option<i32>,
    pub selector: Map<Seq<char>, Seq<char>>,
    pub template: PodTemplateView,
    pub status: Option<DeploymentStatus>,
}

impl View for Deployment {
    type V = DeploymentView;

    open spec fn view(&self) -> DeploymentView {
        DeploymentView {
            name: self.name@,
            namespace: self.namespace@,
            labels: self.labels@,
            replicas: self.replicas,
            selector: self.selector@,
            template: self.template@,
            status: self.status,
        }
    }
}

/// The view of a deployment that may be absent.
pub open spec fn found_view(found: Option<Deployment>) -> Option<DeploymentView> {
    match found {
        Some(deployment) => Some(deployment@),
        None => None,
    }
}

} // verus!
