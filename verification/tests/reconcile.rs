use wazuh_operator::api::Request;
use wazuh_operator::errors::{ApiError, Error};
use wazuh_operator::labels::Labels;
use wazuh_operator::reconcile::{error_policy, reconcile_wazuh, requeue_for, Phase, Requeue, Step};
use wazuh_operator::action::WazuhClusterAction;
use wazuh_operator::resources::{
    Deployment, DeploymentStatus, WazuhCluster, WazuhClusterSpec, WazuhClusterStatus,
};

/// An API server in memory that holds one cluster resource and its workload.
struct Server {
    cluster_present: bool,
    finalizers: Vec<String>,
    status: Option<WazuhClusterStatus>,
    deployment: Option<Deployment>,
    log: Vec<String>,
    fail_on: Option<usize>,
}

fn server() -> Server {
    Server {
        cluster_present: true,
        finalizers: Vec::new(),
        status: None,
        deployment: None,
        log: Vec::new(),
        fail_on: None,
    }
}

fn not_found() -> ApiError {
    ApiError { code: 404, message: "NotFound".to_string() }
}

fn serve(server: &mut Server, request: Request) -> Result<Option<Deployment>, ApiError> {
    if server.fail_on == Some(server.log.len()) {
        server.log.push("failed".to_string());
        return Err(ApiError { code: 500, message: "boom".to_string() });
    }
    match request {
        Request::PatchFinalizers { namespace, name, finalizers } => {
            server.log.push(format!("patch-finalizers {namespace}/{name}"));
            if !server.cluster_present {
                return Err(not_found());
            }
            server.finalizers = finalizers.unwrap_or_default();
            Ok(None)
        }
        Request::PatchStatus { namespace, name, status } => {
            server.log.push(format!("patch-status {namespace}/{name}"));
            if !server.cluster_present {
                return Err(not_found());
            }
            server.status = Some(status);
            Ok(None)
        }
        Request::GetDeployment { namespace, name } => {
            server.log.push(format!("get {namespace}/{name}"));
            Ok(server.deployment.clone())
        }
        Request::CreateDeployment { deployment } => {
            server.log.push(format!("create {}/{}", deployment.namespace, deployment.name));
            if server.deployment.is_some() {
                return Err(ApiError { code: 409, message: "AlreadyExists".to_string() });
            }
            server.deployment = Some(deployment.clone());
            Ok(Some(deployment))
        }
        Request::PatchReplicas { namespace, name, replicas } => {
            server.log.push(format!("patch-replicas {namespace}/{name} {replicas}"));
            match server.deployment.as_mut() {
                Some(deployment) => {
                    deployment.replicas = Some(replicas);
                    Ok(Some(deployment.clone()))
                }
                None => Err(not_found()),
            }
        }
        Request::DeleteDeployment { namespace, name } => {
            server.log.push(format!("delete {namespace}/{name}"));
            match server.deployment.take() {
                Some(_) => Ok(None),
                None => Err(not_found()),
            }
        }
    }
}

fn drive(server: &mut Server, cluster: WazuhCluster) -> Result<Requeue, Error> {
    let mut step = reconcile_wazuh(cluster);
    loop {
        match step {
            Step::Finished(outcome) => return outcome,
            Step::Call(state, request) => {
                let reply = serve(server, request);
                step = state.resume(reply);
            }
        }
    }
}

fn cluster(replicas: i32) -> WazuhCluster {
    WazuhCluster {
        name: Some("c1".to_string()),
        namespace: Some("ns1".to_string()),
        labels: None,
        finalizers: None,
        deletion_timestamp: None,
        spec: WazuhClusterSpec { replicas },
        status: None,
    }
}

fn marked(replicas: i32) -> WazuhCluster {
    let mut c = cluster(replicas);
    c.finalizers = Some(vec!["wazuh.adorsys.team/finalizer".to_string()]);
    c
}

fn key(s: &str) -> String {
    s.to_string()
}

#[test]
fn create_makes_workload_and_status() {
    let mut s = server();
    let outcome = drive(&mut s, cluster(3));
    assert_eq!(outcome, Ok(Requeue::After { seconds: 20 }));
    assert_eq!(
        s.log,
        vec![
            "patch-finalizers ns1/c1",
            "get ns1/c1-nginx",
            "create ns1/c1-nginx",
            "get ns1/c1-nginx",
            "patch-status ns1/c1",
        ]
    );
    assert_eq!(s.finalizers, vec!["wazuh.adorsys.team/finalizer".to_string()]);
    let d = s.deployment.expect("workload");
    assert_eq!(d.name, "c1-nginx");
    assert_eq!(d.namespace, "ns1");
    assert_eq!(d.replicas, Some(3));
    assert_eq!(d.status, None);
    assert_eq!(s.status, Some(WazuhClusterStatus { available_replicas: 0 }));
}

#[test]
fn created_workload_is_one_nginx_container_on_port_80() {
    let mut c = cluster(2);
    let mut labels = Labels::new();
    labels.insert(key("tier"), key("siem"));
    labels.insert(key("app"), key("overridden"));
    c.labels = Some(labels);
    let mut s = server();
    assert!(drive(&mut s, c).is_ok());
    let d = s.deployment.expect("workload");
    assert_eq!(d.template.container_name, "c1-nginx");
    assert_eq!(d.template.image, "nginx");
    assert_eq!(d.template.container_port, 80);
    for labels in [&d.labels, &d.selector, &d.template.labels] {
        assert_eq!(labels.len(), 2);
        assert_eq!(labels.get(&key("app")), Some(key("c1")));
        assert_eq!(labels.get(&key("tier")), Some(key("siem")));
    }
}

#[test]
fn update_patches_replicas_and_refreshes_status() {
    let mut s = server();
    assert!(drive(&mut s, cluster(3)).is_ok());
    s.deployment.as_mut().unwrap().status =
        Some(DeploymentStatus { available_replicas: Some(3) });
    s.log.clear();
    let outcome = drive(&mut s, marked(5));
    assert_eq!(outcome, Ok(Requeue::After { seconds: 10 }));
    assert_eq!(
        s.log,
        vec![
            "get ns1/c1-nginx",
            "patch-replicas ns1/c1-nginx 5",
            "get ns1/c1-nginx",
            "patch-status ns1/c1",
        ]
    );
    let d = s.deployment.as_ref().unwrap();
    assert_eq!(d.replicas, Some(5));
    assert_eq!(d.template.image, "nginx");
    assert_eq!(s.status, Some(WazuhClusterStatus { available_replicas: 3 }));
}

#[test]
fn update_creates_a_missing_workload() {
    let mut s = server();
    let outcome = drive(&mut s, marked(4));
    assert_eq!(outcome, Ok(Requeue::After { seconds: 10 }));
    assert_eq!(s.deployment.unwrap().replicas, Some(4));
    assert!(s.finalizers.is_empty());
}

#[test]
fn delete_removes_workload_then_finalizer() {
    let mut s = server();
    assert!(drive(&mut s, cluster(3)).is_ok());
    s.log.clear();
    let mut c = marked(3);
    c.deletion_timestamp = Some(1_700_000_000);
    let outcome = drive(&mut s, c);
    assert_eq!(outcome, Ok(Requeue::AwaitChange));
    assert_eq!(s.log, vec!["delete ns1/c1-nginx", "patch-finalizers ns1/c1"]);
    assert!(s.deployment.is_none());
    assert!(s.finalizers.is_empty());
    assert_eq!(s.status, Some(WazuhClusterStatus { available_replicas: 0 }));
}

#[test]
fn delete_succeeds_when_workload_is_already_gone() {
    let mut s = server();
    s.finalizers = vec!["wazuh.adorsys.team/finalizer".to_string()];
    let mut c = marked(3);
    c.deletion_timestamp = Some(1);
    let outcome = drive(&mut s, c);
    assert_eq!(outcome, Ok(Requeue::AwaitChange));
    assert_eq!(s.log, vec!["delete ns1/c1-nginx", "patch-finalizers ns1/c1"]);
    assert!(s.finalizers.is_empty());
}

#[test]
fn delete_without_finalizers_still_runs_the_teardown() {
    let mut s = server();
    let mut c = cluster(1);
    c.deletion_timestamp = Some(1);
    assert_eq!(drive(&mut s, c), Ok(Requeue::AwaitChange));
    assert_eq!(s.log.len(), 2);
}

#[test]
fn delete_stops_on_a_failure_other_than_not_found() {
    let mut s = server();
    s.finalizers = vec!["wazuh.adorsys.team/finalizer".to_string()];
    s.fail_on = Some(0);
    let mut c = marked(3);
    c.deletion_timestamp = Some(1);
    let outcome = drive(&mut s, c);
    assert_eq!(
        outcome,
        Err(Error::WazuhClusterCreationFailed(ApiError { code: 500, message: "boom".to_string() }))
    );
    assert_eq!(s.log, vec!["failed"]);
    assert_eq!(s.finalizers.len(), 1);
}

#[test]
fn create_twice_changes_nothing_the_second_time() {
    let mut s = server();
    assert!(drive(&mut s, cluster(3)).is_ok());
    s.deployment.as_mut().unwrap().status =
        Some(DeploymentStatus { available_replicas: Some(2) });
    assert_eq!(drive(&mut s, cluster(3)), Ok(Requeue::After { seconds: 20 }));
    let replicas = s.deployment.as_ref().unwrap().replicas;
    let status = s.status;
    let finalizers = s.finalizers.clone();
    assert_eq!(drive(&mut s, cluster(3)), Ok(Requeue::After { seconds: 20 }));
    assert_eq!(s.deployment.as_ref().unwrap().replicas, replicas);
    assert_eq!(replicas, Some(3));
    assert_eq!(s.status, status);
    assert_eq!(status, Some(WazuhClusterStatus { available_replicas: 2 }));
    assert_eq!(s.finalizers, finalizers);
}

#[test]
fn status_is_zero_while_workload_reports_no_availability() {
    let mut s = server();
    assert!(drive(&mut s, cluster(3)).is_ok());
    s.status = Some(WazuhClusterStatus { available_replicas: 9 });
    s.deployment.as_mut().unwrap().status = Some(DeploymentStatus { available_replicas: None });
    assert!(drive(&mut s, marked(3)).is_ok());
    assert_eq!(s.status, Some(WazuhClusterStatus { available_replicas: 0 }));
}

#[test]
fn a_failure_ends_the_reconciliation_at_any_request() {
    let mut at: usize = 0;
    while at < 5 {
        let mut s = server();
        s.fail_on = Some(at);
        let outcome = drive(&mut s, cluster(3));
        assert_eq!(
            outcome,
            Err(Error::WazuhClusterCreationFailed(ApiError {
                code: 500,
                message: "boom".to_string()
            }))
        );
        assert_eq!(s.log.len(), at + 1);
        at += 1;
    }
}

#[test]
fn not_found_is_a_failure_outside_the_deletion() {
    let mut s = server();
    s.cluster_present = false;
    let outcome = drive(&mut s, cluster(3));
    assert_eq!(outcome, Err(Error::WazuhClusterCreationFailed(not_found())));
    assert_eq!(s.log, vec!["patch-finalizers ns1/c1"]);
    assert!(s.deployment.is_none());
}

#[test]
fn a_resource_without_namespace_is_refused() {
    let mut c = cluster(3);
    c.namespace = None;
    c.name = None;
    let mut s = server();
    assert_eq!(drive(&mut s, c), Err(Error::MissingObjectKey(".metadata.namespace")));
    assert!(s.log.is_empty());
}

#[test]
fn a_resource_without_name_is_refused() {
    let mut c = cluster(3);
    c.name = None;
    let mut s = server();
    assert_eq!(drive(&mut s, c), Err(Error::MissingObjectKey(".metadata.name")));
    assert!(s.log.is_empty());
}

#[test]
fn first_step_names_intent_and_phase() {
    match reconcile_wazuh(cluster(3)) {
        Step::Call(state, _) => {
            assert_eq!(state.action, WazuhClusterAction::Create);
            assert_eq!(state.phase, Phase::AddFinalizer);
            assert_eq!(state.name, "c1");
            assert_eq!(state.namespace, "ns1");
        }
        Step::Finished(_) => panic!("no request"),
    }
    match reconcile_wazuh(marked(3)) {
        Step::Call(state, _) => {
            assert_eq!(state.action, WazuhClusterAction::Update);
            assert_eq!(state.phase, Phase::LookupDeployment);
        }
        Step::Finished(_) => panic!("no request"),
    }
}

#[test]
fn requeue_intervals() {
    assert_eq!(requeue_for(WazuhClusterAction::Create), Requeue::After { seconds: 20 });
    assert_eq!(requeue_for(WazuhClusterAction::Update), Requeue::After { seconds: 10 });
    assert_eq!(requeue_for(WazuhClusterAction::Delete), Requeue::AwaitChange);
}

#[test]
fn every_error_is_retried_after_a_minute() {
    let c = cluster(3);
    let api = Error::WazuhClusterCreationFailed(ApiError { code: 403, message: key("no") });
    assert_eq!(error_policy(&c, &api), Requeue::After { seconds: 60 });
    let key_error = Error::MissingObjectKey(".metadata.name");
    assert_eq!(error_policy(&c, &key_error), Requeue::After { seconds: 60 });
}
