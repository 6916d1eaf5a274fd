//! A model of the API server, and what a whole reconciliation achieves on it.
//!
//! The model holds the cluster resources and the deployments by namespace and
//! name, answers each request as a faultless server would, and lets nothing
//! else change the objects in between. The laws below are stated of a
//! reconciliation that runs against it from the first request to the outcome.

use crate::action::{classify, WazuhClusterAction};
use crate::api::RequestView;
use crate::errors::{ApiErrorView, NOT_FOUND};
use crate::nginx_deployment::{
    deployment_name, desired_deployment, observed_availability, workload_labels,
};
use crate::reconcile::{advance, begin, Requeue, StepView};
use crate::resources::{DeploymentView, WazuhCluster, WazuhClusterStatus};
use vstd::prelude::*;

verus! {

/// What the server keeps of a cluster resource besides its spec.
pub struct ClusterRecord {
    pub finalizers: Seq<Seq<char>>,
    pub status: WazuhClusterStatus,
}

/// The objects on the server, each under its namespace and name.
pub struct ApiState {
    pub clusters: Map<(Seq<char>, Seq<char>), ClusterRecord>,
    pub deployments: Map<(Seq<char>, Seq<char>), DeploymentView>,
}

/// The failure with which the server answers a request for an object that
/// does not exist.
pub open spec fn not_found() -> ApiErrorView {
    ApiErrorView { code: NOT_FOUND, message: "NotFound"@ }
}

/// The failure with which the server refuses to create an object that exists.
pub open spec fn already_exists() -> ApiErrorView {
    ApiErrorView { code: 409, message: "AlreadyExists"@ }
}

/// The deployment under `key`, if there is one.
pub open spec fn deployment_at(state: ApiState, key: (Seq<char>, Seq<char>)) -> Option<
    DeploymentView,
> {
    if state.deployments.contains_key(key) {
        Some(state.deployments[key])
    } else {
        None
    }
}

/// The server's state after `request`, and its reply.
pub open spec fn serve(state: ApiState, request: RequestView) -> (
    ApiState,
    Result<Option<DeploymentView>, ApiErrorView>,
) {
    match request {
        RequestView::PatchFinalizers { namespace, name, finalizers } => {
            if state.clusters.contains_key((namespace, name)) {
                let record = ClusterRecord {
                    finalizers: match finalizers {
                        Some(list) => list,
                        None => Seq::empty(),
                    },
                    ..state.clusters[(namespace, name)]
                };
                (
                    ApiState { clusters: state.clusters.insert((namespace, name), record), ..state },
                    Ok(None),
                )
            } else {
                (state, Err(not_found()))
            }
        },
        RequestView::PatchStatus { namespace, name, status } => {
            if state.clusters.contains_key((namespace, name)) {
                let record = ClusterRecord { status: status, ..state.clusters[(namespace, name)] };
                (
                    ApiState { clusters: state.clusters.insert((namespace, name), record), ..state },
                    Ok(None),
                )
            } else {
                (state, Err(not_found()))
            }
        },
        RequestView::GetDeployment { namespace, name } => (
            state,
            Ok(deployment_at(state, (namespace, name))),
        ),
        RequestView::CreateDeployment { deployment } => {
            let key = (deployment.namespace, deployment.name);
            if state.deployments.contains_key(key) {
                (state, Err(already_exists()))
            } else {
                (
                    ApiState { deployments: state.deployments.insert(key, deployment), ..state },
                    Ok(Some(deployment)),
                )
            }
        },
        RequestView::PatchReplicas { namespace, name, replicas } => {
            if state.deployments.contains_key((namespace, name)) {
                let patched = DeploymentView {
                    replicas: Some(replicas),
                    ..state.deployments[(namespace, name)]
                };
                (
                    ApiState {
                        deployments: state.deployments.insert((namespace, name), patched),
                        ..state
                    },
                    Ok(Some(patched)),
                )
            } else {
                (state, Err(not_found()))
            }
        },
        RequestView::DeleteDeployment { namespace, name } => {
            if state.deployments.contains_key((namespace, name)) {
                (
                    ApiState { deployments: state.deployments.remove((namespace, name)), ..state },
                    Ok(None),
                )
            } else {
                (state, Err(not_found()))
            }
        },
    }
}

/// One exchange: the server carries out the request that `step` holds, and
/// the reconciliation takes the reply. A finished reconciliation stays as it
/// is.
pub open spec fn exchange(state: ApiState, step: StepView) -> (ApiState, StepView) {
    match step {
        StepView::Call(reconciliation, request) => {
            let (next, reply) = serve(state, request);
            (next, advance(reconciliation, reply))
        },
        StepView::Finished(_) => (state, step),
    }
}

/// Five exchanges in a row: as many as the longest reconciliation takes.
pub open spec fn run(state: ApiState, step: StepView) -> (ApiState, StepView) {
    let (s1, t1) = exchange(state, step);
    let (s2, t2) = exchange(s1, t1);
    let (s3, t3) = exchange(s2, t2);
    let (s4, t4) = exchange(s3, t3);
    exchange(s4, t4)
}

/// The reconciliation of `cluster` against the server in state `state`: the
/// server's state afterwards, and the last step.
pub open spec fn reconcile(state: ApiState, cluster: WazuhCluster) -> (ApiState, StepView) {
    run(state, begin(cluster))
}

/// The resource can be told apart from others: it has a namespace and a name.
pub open spec fn identified(cluster: WazuhCluster) -> bool {
    cluster.namespace is Some && cluster.name is Some
}

/// Namespace and name of the resource.
pub open spec fn cluster_key(cluster: WazuhCluster) -> (Seq<char>, Seq<char>) {
    (cluster.namespace->0@, cluster.name->0@)
}

/// Namespace and name of the resource's workload.
pub open spec fn workload_key(cluster: WazuhCluster) -> (Seq<char>, Seq<char>) {
    (cluster.namespace->0@, deployment_name(cluster.name->0@))
}

/// Every reconciliation is over after five requests at most. Against the
/// model it succeeds if and only if the resource has its namespace and name
/// and is on the server.
pub proof fn law_reconciliation_ends(state: ApiState, cluster: WazuhCluster)
    ensures
        reconcile(state, cluster).1 is Finished,
        (reconcile(state, cluster).1 matches StepView::Finished(Ok(_))) <==> (identified(cluster)
            && state.clusters.contains_key(cluster_key(cluster))),
{
}

/// After a creation or an update that succeeded, the workload exists with
/// the desired replica count, the status of the resource holds the number of
/// available replicas that the workload reports (0 where it reports none),
/// and the next reconciliation is due after 20 seconds (creation) or 10
/// (update).
pub proof fn law_status_reflects_workload(state: ApiState, cluster: WazuhCluster)
    requires
        !cluster.deletion_requested(),
        reconcile(state, cluster).1 matches StepView::Finished(Ok(_)),
    ensures
        ({
            let after = reconcile(state, cluster).0;
            &&& after.deployments.contains_key(workload_key(cluster))
            &&& after.deployments[workload_key(cluster)].replicas == Some(cluster.spec.replicas)
            &&& after.clusters.contains_key(cluster_key(cluster))
            &&& after.clusters[cluster_key(cluster)].status.available_replicas
                == observed_availability(deployment_at(after, workload_key(cluster)))
            &&& after.clusters[cluster_key(cluster)].status.available_replicas
                == observed_availability(deployment_at(state, workload_key(cluster)))
        }),
        classify(cluster) == WazuhClusterAction::Create ==> reconcile(state, cluster).1
            == StepView::Finished(Ok(Requeue::After { seconds: 20 })),
        classify(cluster) == WazuhClusterAction::Update ==> reconcile(state, cluster).1
            == StepView::Finished(Ok(Requeue::After { seconds: 10 })),
{
}

/// Where the workload is missing, a creation or an update that succeeds
/// leaves it as it is to be created: the deployment, its selector and its pod
/// template bear the labels of the resource and `app` with the resource's
/// name, so the selector finds the pods of the template.
pub proof fn law_missing_workload_is_created(state: ApiState, cluster: WazuhCluster)
    requires
        !cluster.deletion_requested(),
        reconcile(state, cluster).1 matches StepView::Finished(Ok(_)),
        !state.deployments.contains_key(workload_key(cluster)),
    ensures
        ({
            let created = reconcile(state, cluster).0.deployments[workload_key(cluster)];
            let labels = workload_labels(cluster.label_map(), cluster.name->0@);
            &&& created == desired_deployment(
                cluster.label_map(),
                cluster.spec.replicas,
                cluster.name->0@,
                cluster.name->0@,
                cluster.namespace->0@,
            )
            &&& created.labels == labels
            &&& created.selector == labels
            &&& created.template.labels == labels
        }),
{
}

/// A creation marks the resource: after one that succeeded, the finalizer
/// list of the resource holds the finalizer and nothing else.
pub proof fn law_creation_sets_finalizer(state: ApiState, cluster: WazuhCluster)
    requires
        classify(cluster) == WazuhClusterAction::Create,
        reconcile(state, cluster).1 matches StepView::Finished(Ok(_)),
    ensures
        reconcile(state, cluster).0.clusters[cluster_key(cluster)].finalizers
            == seq![crate::finalizer::FINALIZER@],
{
}

/// Creating or updating twice is the same as doing it once: where the
/// desired state has not changed, the second run leaves every object on the
/// server as the first run left it (the replica count of the workload and
/// the status of the resource among them) and ends as the first did.
pub proof fn law_repeat_changes_nothing(state: ApiState, cluster: WazuhCluster)
    requires
        !cluster.deletion_requested(),
    ensures
        reconcile(reconcile(state, cluster).0, cluster) == reconcile(state, cluster),
        ({
            let first = reconcile(state, cluster).0;
            let second = reconcile(first, cluster).0;
            &&& deployment_at(second, workload_key(cluster)) == deployment_at(
                first,
                workload_key(cluster),
            )
            &&& second.clusters.contains_key(cluster_key(cluster)) ==> second.clusters[cluster_key(
                cluster,
            )].status == first.clusters[cluster_key(cluster)].status
        }),
{
    let first = reconcile(state, cluster);
    let second = reconcile(first.0, cluster);
    assert(second.0.clusters =~= first.0.clusters);
    assert(second.0.deployments =~= first.0.deployments);
}

/// A deletion succeeds whether or not the workload is still there: the
/// workload is gone afterwards, the finalizer list of the resource is empty,
/// and no further reconciliation is scheduled.
pub proof fn law_deletion_clears_finalizers(state: ApiState, cluster: WazuhCluster)
    requires
        cluster.deletion_requested(),
        identified(cluster),
        state.clusters.contains_key(cluster_key(cluster)),
    ensures
        reconcile(state, cluster).1 == StepView::Finished(Ok(Requeue::AwaitChange)),
        !reconcile(state, cluster).0.deployments.contains_key(workload_key(cluster)),
        reconcile(state, cluster).0.clusters[cluster_key(cluster)].finalizers
            == Seq::<Seq<char>>::empty(),
        !state.deployments.contains_key(workload_key(cluster)) ==> reconcile(
            state,
            cluster,
        ).0.deployments == state.deployments,
{
}

} // verus!
