//! One reconciliation of a cluster resource, as a state machine.
//!
//! [`reconcile_wazuh`] looks at the resource and hands out the first request.
//! The caller performs it and passes the reply to
//! [`Reconciliation::resume`], which hands out the next request or the
//! outcome. A failed request ends the reconciliation at once; nothing is
//! undone, since each request is safe to repeat on the next delivery.

use crate::action::{classify, determine_action, WazuhClusterAction};
use crate::api::{Request, RequestView};
use crate::errors::{ApiError, ApiErrorView, Error, ErrorView, NOT_FOUND};
use crate::finalizer::{add_finalizer, delete_finalizer, FINALIZER};
use crate::nginx_deployment::{
    delete_deployment, deletion_outcome, deployment_name, deployment_request, lookup_deployment,
    observed_availability, update_deployment, update_status,
};
use crate::resources::{Deployment, DeploymentView, WazuhCluster, WazuhClusterStatus};
use vstd::prelude::*;

verus! {

/// Seconds until the next reconciliation after a creation.
pub const REQUEUE_AFTER_CREATE: u64 = 20;

/// Seconds until the next reconciliation after an update.
pub const REQUEUE_AFTER_UPDATE: u64 = 10;

/// Seconds until the next reconciliation after a failure.
pub const REQUEUE_AFTER_ERROR: u64 = 60;

/// When the resource is to be reconciled again.
#[derive(Clone, Copy, Debug, PartialEq, Eq, Structural)]
pub enum Requeue {
    /// After so many seconds.
    After { seconds: u64 },
    /// When the resource next changes.
    AwaitChange,
}

/// The request whose reply a reconciliation waits for.
#[derive(Clone, Copy, Debug, PartialEq, Eq, Structural)]
pub enum Phase {
    AddFinalizer,
    LookupDeployment,
    WriteDeployment,
    ReadDeployment,
    WriteStatus,
    DeleteDeployment,
    RemoveFinalizer,
}

/// A reconciliation under way.
#[derive(Clone, Debug)]
pub struct Reconciliation {
    pub action: WazuhClusterAction,
    pub phase: Phase,
    pub name: String,
    pub namespace: String,
    pub cluster: WazuhCluster,
}

/// What a reconciliation under way goes by: its intent and phase, the name
/// and namespace under which it addresses the resource, and of the resource
/// itself the name it bears, its labels and its desired replica count.
pub struct ReconciliationView {
    pub action: WazuhClusterAction,
    pub phase: Phase,
    pub name: Seq<char>,
    pub namespace: Seq<char>,
    pub own_name: Seq<char>,
    pub labels: Map<Seq<char>, Seq<char>>,
    pub replicas: i32,
}

impl View for Reconciliation {
    type V = ReconciliationView;

    open spec fn view(&self) -> ReconciliationView {
        ReconciliationView {
            action: self.action,
            phase: self.phase,
            name: self.name@,
            namespace: self.namespace@,
            own_name: self.cluster.own_name(),
            labels: self.cluster.label_map(),
            replicas: self.cluster.spec.replicas,
        }
    }
}

/// What a reconciliation asks of its caller next.
#[derive(Debug)]
pub enum Step {
    /// Perform the request and resume with the reply.
    Call(Reconciliation, Request),
    /// The reconciliation is over.
    Finished(Result<Requeue, Error>),
}

/// A step as a mathematical value.
pub enum StepView {
    Call(ReconciliationView, RequestView),
    Finished(Result<Requeue, ErrorView>),
}

impl View for Step {
    type V = StepView;

    open spec fn view(&self) -> StepView {
        match self {
            Step::Call(state, request) => StepView::Call(state@, request@),
            Step::Finished(Ok(requeue)) => StepView::Finished(Ok(*requeue)),
            Step::Finished(Err(e)) => StepView::Finished(Err(e@)),
        }
    }
}

/// When a resource is reconciled again after a reconciliation of the given
/// intent has succeeded.
pub open spec fn requeue_after(action: WazuhClusterAction) -> Requeue {
    match action {
        WazuhClusterAction::Create => Requeue::After { seconds: REQUEUE_AFTER_CREATE },
        WazuhClusterAction::Update => Requeue::After { seconds: REQUEUE_AFTER_UPDATE },
        WazuhClusterAction::Delete => Requeue::AwaitChange,
    }
}

/// The request that reads the workload of the resource under reconciliation.
pub open spec fn lookup_request(state: ReconciliationView) -> RequestView {
    RequestView::GetDeployment {
        namespace: state.namespace,
        name: deployment_name(state.name),
    }
}

/// The request that sets or clears the finalizer list of the resource under
/// reconciliation.
pub open spec fn finalizer_request(
    name: Seq<char>,
    namespace: Seq<char>,
    finalizers: Option<Seq<Seq<char>>>,
) -> RequestView {
    RequestView::PatchFinalizers { namespace: namespace, name: name, finalizers: finalizers }
}

/// The state `state` in another phase.
pub open spec fn in_phase(state: ReconciliationView, phase: Phase) -> ReconciliationView {
    ReconciliationView { phase: phase, ..state }
}

/// The first step of the reconciliation of `cluster`. A resource without a
/// namespace or without a name is refused; otherwise the intent decides the
/// first request: the finalizer for a creation, the lookup of the workload
/// for an update, the deletion of the workload for a deletion.
pub open spec fn begin(cluster: WazuhCluster) -> StepView {
    match (cluster.namespace, cluster.name) {
        (None, _) => StepView::Finished(Err(ErrorView::MissingObjectKey(".metadata.namespace"@))),
        (Some(_), None) => StepView::Finished(Err(ErrorView::MissingObjectKey(".metadata.name"@))),
        (Some(namespace), Some(name)) => {
            let state = ReconciliationView {
                action: classify(cluster),
                phase: Phase::AddFinalizer,
                name: name@,
                namespace: namespace@,
                own_name: cluster.own_name(),
                labels: cluster.label_map(),
                replicas: cluster.spec.replicas,
            };
            match classify(cluster) {
                WazuhClusterAction::Create => StepView::Call(
                    state,
                    finalizer_request(name@, namespace@, Some(seq![FINALIZER@])),
                ),
                WazuhClusterAction::Update => StepView::Call(
                    in_phase(state, Phase::LookupDeployment),
                    lookup_request(state),
                ),
                WazuhClusterAction::Delete => StepView::Call(
                    in_phase(state, Phase::DeleteDeployment),
                    RequestView::DeleteDeployment {
                        namespace: namespace@,
                        name: deployment_name(name@),
                    },
                ),
            }
        },
    }
}

/// The step that follows `reply` in state `state`. A failure ends the
/// reconciliation with that failure, but for one: a workload that is already
/// gone when it is to be deleted counts as deleted. Otherwise the phases
/// follow each other in a fixed order, and the last one ends the
/// reconciliation with the time of the next.
pub open spec fn advance(
    state: ReconciliationView,
    reply: Result<Option<DeploymentView>, ApiErrorView>,
) -> StepView {
    match reply {
        Err(e) if !(state.phase == Phase::DeleteDeployment && e.code == NOT_FOUND) => StepView::Finished(
            Err(ErrorView::WazuhClusterCreationFailed(e)),
        ),
        _ => match state.phase {
            Phase::AddFinalizer => StepView::Call(
                in_phase(state, Phase::LookupDeployment),
                lookup_request(state),
            ),
            Phase::LookupDeployment => StepView::Call(
                in_phase(state, Phase::WriteDeployment),
                deployment_request(
                    state.labels,
                    state.replicas,
                    state.own_name,
                    state.name,
                    state.namespace,
                    reply matches Ok(Some(_)),
                ),
            ),
            Phase::WriteDeployment => StepView::Call(
                in_phase(state, Phase::ReadDeployment),
                lookup_request(state),
            ),
            Phase::ReadDeployment => StepView::Call(
                in_phase(state, Phase::WriteStatus),
                RequestView::PatchStatus {
                    namespace: state.namespace,
                    name: state.name,
                    status: WazuhClusterStatus {
                        available_replicas: observed_availability(
                            match reply {
                                Ok(found) => found,
                                Err(_) => None,
                            },
                        ),
                    },
                },
            ),
            Phase::WriteStatus => StepView::Finished(Ok(requeue_after(state.action))),
            Phase::DeleteDeployment => StepView::Call(
                in_phase(state, Phase::RemoveFinalizer),
                finalizer_request(state.name, state.namespace, None),
            ),
            Phase::RemoveFinalizer => StepView::Finished(Ok(Requeue::AwaitChange)),
        },
    }
}

/// The phase in which a reconciliation of the given intent starts.
pub open spec fn first_phase(action: WazuhClusterAction) -> Phase {
    match action {
        WazuhClusterAction::Create => Phase::AddFinalizer,
        WazuhClusterAction::Update => Phase::LookupDeployment,
        WazuhClusterAction::Delete => Phase::DeleteDeployment,
    }
}

/// The phase that follows `phase`; none where `phase` is the last one.
pub open spec fn next_phase(phase: Phase) -> Option<Phase> {
    match phase {
        Phase::AddFinalizer => Some(Phase::LookupDeployment),
        Phase::LookupDeployment => Some(Phase::WriteDeployment),
        Phase::WriteDeployment => Some(Phase::ReadDeployment),
        Phase::ReadDeployment => Some(Phase::WriteStatus),
        Phase::WriteStatus => None,
        Phase::DeleteDeployment => Some(Phase::RemoveFinalizer),
        Phase::RemoveFinalizer => None,
    }
}

/// True if `request` is what a reconciliation sends in `phase`.
pub open spec fn request_fits(phase: Phase, request: RequestView) -> bool {
    match phase {
        Phase::AddFinalizer => request matches RequestView::PatchFinalizers {
            finalizers: Some(_),
            ..
        },
        Phase::LookupDeployment => request is GetDeployment,
        Phase::WriteDeployment => request is CreateDeployment || request is PatchReplicas,
        Phase::ReadDeployment => request is GetDeployment,
        Phase::WriteStatus => request is PatchStatus,
        Phase::DeleteDeployment => request is DeleteDeployment,
        Phase::RemoveFinalizer => request matches RequestView::PatchFinalizers {
            finalizers: None,
            ..
        },
    }
}

/// A reconciliation starts in the first phase of its intent, with the request
/// of that phase; it ends before any request only where the resource lacks
/// its namespace or its name.
pub proof fn law_first_request(cluster: WazuhCluster)
    ensures
        match begin(cluster) {
            StepView::Call(state, request) => {
                &&& cluster.namespace is Some && cluster.name is Some
                &&& state.action == classify(cluster)
                &&& state.phase == first_phase(state.action)
                &&& request_fits(state.phase, request)
            },
            StepView::Finished(outcome) => {
                &&& cluster.namespace is None || cluster.name is None
                &&& outcome is Err
            },
        },
{
}

/// The phases follow each other in one order, whatever the replies are. A
/// reply leads to the next phase and its request, for the same resource and
/// intent; the reconciliation ends with success only after a last phase, and
/// with a failure only on a failed request. So a deletion, which starts with
/// the removal of the workload, never reads the workload or writes a status.
pub proof fn law_phases_in_order(
    state: ReconciliationView,
    reply: Result<Option<DeploymentView>, ApiErrorView>,
)
    ensures
        match advance(state, reply) {
            StepView::Call(next, request) => {
                &&& next_phase(state.phase) == Some(next.phase)
                &&& request_fits(next.phase, request)
                &&& next == in_phase(state, next.phase)
            },
            StepView::Finished(Ok(_)) => next_phase(state.phase) is None,
            StepView::Finished(Err(e)) => {
                &&& e matches ErrorView::WazuhClusterCreationFailed(cause)
                &&& reply == Err::<Option<DeploymentView>, ApiErrorView>(cause)
            },
        },
        reply is Ok ==> !(advance(state, reply) matches StepView::Finished(Err(_))),
{
}

/// Starts the reconciliation of `cluster`: gives its first request, or
/// refuses a resource that lacks its namespace or its name.
pub fn reconcile_wazuh(cluster: WazuhCluster) -> (step: Step)
    ensures
        step@ == begin(cluster),
{
    let namespace = match &cluster.namespace {
        Some(namespace) => namespace.clone(),
        None => {
            return Step::Finished(Err(Error::MissingObjectKey(".metadata.namespace")));
        },
    };
    let name = match &cluster.name {
        Some(name) => name.clone(),
        None => {
            return Step::Finished(Err(Error::MissingObjectKey(".metadata.name")));
        },
    };
    let action = determine_action(&cluster);
    let (phase, request) = match action {
        WazuhClusterAction::Create => (
            Phase::AddFinalizer,
            add_finalizer(name.as_str(), namespace.as_str()),
        ),
        WazuhClusterAction::Update => (
            Phase::LookupDeployment,
            lookup_deployment(name.as_str(), namespace.as_str()),
        ),
        WazuhClusterAction::Delete => (
            Phase::DeleteDeployment,
            delete_deployment(name.as_str(), namespace.as_str()),
        ),
    };
    Step::Call(Reconciliation { action, phase, name, namespace, cluster }, request)
}

impl Reconciliation {
    fn proceed(self, phase: Phase, request: Request) -> (step: Step)
        ensures
            step@ == StepView::Call(in_phase(self@, phase), request@),
    {
        Step::Call(
            Reconciliation {
                action: self.action,
                phase: phase,
                name: self.name,
                namespace: self.namespace,
                cluster: self.cluster,
            },
            request,
        )
    }

    /// Takes the reply to the request that was handed out last and gives the
    /// next step.
    pub fn resume(self, reply: Result<Option<Deployment>, ApiError>) -> (step: Step)
        ensures
            step@ == advance(self@, crate::api::reply_view(reply)),
    {
        match self.phase {
            Phase::DeleteDeployment => match deletion_outcome(reply) {
                Ok(_) => {
                    let request = delete_finalizer(self.name.as_str(), self.namespace.as_str());
                    self.proceed(Phase::RemoveFinalizer, request)
                },
                Err(e) => Step::Finished(Err(Error::WazuhClusterCreationFailed(e))),
            },
            _ => match reply {
                Err(e) => Step::Finished(Err(Error::WazuhClusterCreationFailed(e))),
                Ok(found) => match self.phase {
                    Phase::AddFinalizer => {
                        let request = lookup_deployment(
                            self.name.as_str(),
                            self.namespace.as_str(),
                        );
                        self.proceed(Phase::LookupDeployment, request)
                    },
                    Phase::LookupDeployment => {
                        let request = update_deployment(
                            &self.cluster,
                            self.name.as_str(),
                            self.namespace.as_str(),
                            &found,
                        );
                        self.proceed(Phase::WriteDeployment, request)
                    },
                    Phase::WriteDeployment => {
                        let request = lookup_deployment(
                            self.name.as_str(),
                            self.namespace.as_str(),
                        );
                        self.proceed(Phase::ReadDeployment, request)
                    },
                    Phase::ReadDeployment => {
                        let request = update_status(
                            self.name.as_str(),
                            self.namespace.as_str(),
                            &found,
                        );
                        self.proceed(Phase::WriteStatus, request)
                    },
                    Phase::WriteStatus => Step::Finished(Ok(requeue_for(self.action))),
                    _ => Step::Finished(Ok(Requeue::AwaitChange)),
                },
            },
        }
    }
}

/// When a resource is reconciled again after a reconciliation of the given
/// intent has succeeded.
pub fn requeue_for(action: WazuhClusterAction) -> (res: Requeue)
    ensures
        res == requeue_after(action),
{
    match action {
        WazuhClusterAction::Create => Requeue::After { seconds: REQUEUE_AFTER_CREATE },
        WazuhClusterAction::Update => Requeue::After { seconds: REQUEUE_AFTER_UPDATE },
        WazuhClusterAction::Delete => Requeue::AwaitChange,
    }
}

/// What follows a failed reconciliation: every failure counts as passing, and
/// the resource is reconciled again after a fixed delay, whatever failed.
pub fn error_policy(_cluster: &WazuhCluster, _error: &Error) -> (res: Requeue)
    ensures
        res == (Requeue::After { seconds: REQUEUE_AFTER_ERROR }),
{
    Requeue::After { seconds: REQUEUE_AFTER_ERROR }
}

} // verus!
