//! The managed workload: an nginx deployment beside each cluster resource.

use crate::api::{Request, RequestView};
use crate::errors::{ApiError, NOT_FOUND};
use crate::labels::Labels;
use crate::resources::{
    found_view, Deployment, DeploymentView, PodTemplate, PodTemplateView, WazuhCluster,
    WazuhClusterStatus,
};
use vstd::prelude::*;
use vstd::string::StringExecFns;

verus! {

/// The name of the workload of the cluster resource `name`.
pub open spec fn deployment_name(name: Seq<char>) -> Seq<char> {
    name + "-nginx"@
}

/// The labels of the workload: those of the cluster resource, and `app` with
/// the resource's own name.
pub open spec fn workload_labels(labels: Map<Seq<char>, Seq<char>>, own_name: Seq<char>) -> Map<
    Seq<char>,
    Seq<char>,
> {
    labels.insert("app"@, own_name)
}

/// The workload as it is created: one nginx container that exposes port 80,
/// found by the selector through the labels that the deployment itself bears.
/// `own_name` is the name that the resource bears and goes into the labels;
/// `name` is the name that the workload is derived from.
pub open spec fn desired_deployment(
    labels: Map<Seq<char>, Seq<char>>,
    replicas: i32,
    own_name: Seq<char>,
    name: Seq<char>,
    namespace: Seq<char>,
) -> DeploymentView {
    DeploymentView {
        name: deployment_name(name),
        namespace: namespace,
        labels: workload_labels(labels, own_name),
        replicas: Some(replicas),
        selector: workload_labels(labels, own_name),
        template: PodTemplateView {
            labels: workload_labels(labels, own_name),
            container_name: deployment_name(name),
            image: "nginx"@,
            container_port: 80,
        },
        status: None,
    }
}

/// The write that brings the workload to the desired replica count: a patch
/// of the replica count alone where the workload exists, its creation where
/// it does not.
pub open spec fn deployment_request(
    labels: Map<Seq<char>, Seq<char>>,
    replicas: i32,
    own_name: Seq<char>,
    name: Seq<char>,
    namespace: Seq<char>,
    exists: bool,
) -> RequestView {
    if exists {
        RequestView::PatchReplicas {
            namespace: namespace,
            name: deployment_name(name),
            replicas: replicas,
        }
    } else {
        RequestView::CreateDeployment {
            deployment: desired_deployment(labels, replicas, own_name, name, namespace),
        }
    }
}

/// The number of available replicas that a workload reports: 0 where the
/// workload is absent or reports none.
pub open spec fn observed_availability(found: Option<DeploymentView>) -> i32 {
    match found {
        Some(deployment) => match deployment.status {
            Some(status) => match status.available_replicas {
                Some(n) => n,
                None => 0,
            },
            None => 0,
        },
        None => 0,
    }
}

pub fn get_deployment_name(name: &str) -> (res: String)
    ensures
        res@ == deployment_name(name@),
{
    String::from_str(name).concat("-nginx")
}

/// The request that reads the workload of the cluster resource `name`.
pub fn lookup_deployment(name: &str, namespace: &str) -> (req: Request)
    ensures
        req@ == (RequestView::GetDeployment {
            namespace: namespace@,
            name: deployment_name(name@),
        }),
{
    Request::GetDeployment {
        namespace: String::from_str(namespace),
        name: get_deployment_name(name),
    }
}

/// The write that follows the lookup of the workload, `existing` being what
/// the lookup found. The workload is named after `name`; its `app` label is
/// the name that `app` itself bears.
pub fn update_deployment(
    app: &WazuhCluster,
    name: &str,
    namespace: &str,
    existing: &Option<Deployment>,
) -> (req: Request)
    ensures
        req@ == deployment_request(
            app.label_map(),
            app.spec.replicas,
            app.own_name(),
            name@,
            namespace@,
            existing is Some,
        ),
{
    let app_name = get_deployment_name(name);
    match existing {
        Some(_) => Request::PatchReplicas {
            namespace: String::from_str(namespace),
            name: app_name,
            replicas: app.spec.replicas,
        },
        None => {
            let mut labels = match &app.labels {
                Some(labels) => labels.clone(),
                None => Labels::new(),
            };
            let own_name = match &app.name {
                Some(own_name) => own_name.clone(),
                None => String::new(),
            };
            labels.insert(String::from_str("app"), own_name);
            let deployment = Deployment {
                name: app_name.clone(),
                namespace: String::from_str(namespace),
                labels: labels.clone(),
                replicas: Some(app.spec.replicas),
                selector: labels.clone(),
                template: PodTemplate {
                    labels: labels,
                    container_name: app_name,
                    image: String::from_str("nginx"),
                    container_port: 80,
                },
                status: None,
            };
            Request::CreateDeployment { deployment }
        },
    }
}

/// The write that records on the cluster resource what the workload reports,
/// `found` being the workload as it was just read.
pub fn update_status(name: &str, namespace: &str, found: &Option<Deployment>) -> (req: Request)
    ensures
        req@ == (RequestView::PatchStatus {
            namespace: namespace@,
            name: name@,
            status: WazuhClusterStatus {
                available_replicas: observed_availability(found_view(*found)),
            },
        }),
{
    let available_replicas: i32 = match found {
        Some(deployment) => match deployment.status {
            Some(status) => match status.available_replicas {
                Some(n) => n,
                None => 0,
            },
            None => 0,
        },
        None => 0,
    };
    Request::PatchStatus {
        namespace: String::from_str(namespace),
        name: String::from_str(name),
        status: WazuhClusterStatus { available_replicas },
    }
}

/// The request that deletes the workload of the cluster resource `name`.
pub fn delete_deployment(name: &str, namespace: &str) -> (req: Request)
    ensures
        req@ == (RequestView::DeleteDeployment {
            namespace: namespace@,
            name: deployment_name(name@),
        }),
{
    Request::DeleteDeployment {
        namespace: String::from_str(namespace),
        name: get_deployment_name(name),
    }
}

/// What a reply to the deletion of the workload means: a workload that was
/// already gone counts as deleted; any other failure stands.
pub fn deletion_outcome(reply: Result<Option<Deployment>, ApiError>) -> (res: Result<(), ApiError>)
    ensures
        match reply {
            Ok(_) => res is Ok,
            Err(e) => if e.code == NOT_FOUND {
                res is Ok
            } else {
                res == Err::<(), ApiError>(e)
            },
        },
{
    match reply {
        Ok(_) => Ok(()),
        Err(e) => if e.is_not_found() {
            Ok(())
        } else {
            Err(e)
        },
    }
}

} // verus!
