use controllers::child::{
    ChildKind, ChildObject, ConfigMap, Container, Deployment, KeyValue, Probe, Service,
    ServicePort, ServiceType, Volume, VolumeMount, VolumeSource,
};
use controllers::directive::SchedulingDirective;
use controllers::error::{ApiFailure, Error, FinalizerError};
use controllers::meta::{Metadata, OwnerReference};
use controllers::quake_server::{QuakeServer, QuakeServerSpec, QuakeServerStatus};
use controllers::quake_server_controller::{error_policy, QuakeServerController};
use controllers::step::{Pending, Reply, Request, Step};
use controllers::watch::WatchScope;

const QUAKE_TOKEN: &str = "quakeservers.quake.kube/finalizer";
const QUAKE_MANAGER: &str = "quakeservers.quake.kube";

fn quake_server(config: &str, finalizers: Vec<&str>, deleting: bool) -> QuakeServer {
    QuakeServer {
        metadata: Metadata {
            name: Some("arena".to_string()),
            namespace: Some("games".to_string()),
            uid: Some("uid-7".to_string()),
            finalizers: finalizers.into_iter().map(String::from).collect(),
            deletion_requested: deleting,
        },
        spec: QuakeServerSpec { config: config.to_string(), list_server: None },
        status: None,
    }
}

fn quake_owner() -> OwnerReference {
    OwnerReference {
        api_version: "quake.kube/v1".to_string(),
        kind: "QuakeServer".to_string(),
        name: "arena".to_string(),
        uid: "uid-7".to_string(),
        controller: true,
    }
}

fn quake_config_map(config: &str) -> ConfigMap {
    ConfigMap {
        name: "arena".to_string(),
        namespace: "games".to_string(),
        owner: quake_owner(),
        data: vec![KeyValue { key: "config.yaml".to_string(), value: config.to_string() }],
    }
}

fn quake_service() -> Service {
    Service {
        name: "arena".to_string(),
        namespace: "games".to_string(),
        owner: quake_owner(),
        service_type: ServiceType::NodePort,
        selector: vec![KeyValue { key: "app".to_string(), value: "arena".to_string() }],
        ports: vec![
            ServicePort {
                name: "client".to_string(),
                port: 8080,
                node_port: 30001,
                target_port: 8080,
                protocol: None,
            },
            ServicePort {
                name: "server".to_string(),
                port: 27960,
                node_port: 30003,
                target_port: 27960,
                protocol: None,
            },
        ],
    }
}

fn health_command() -> Vec<String> {
    vec!["grpc-health-probe".to_string(), "-addr=localhost:8080".to_string()]
}

fn quake_deployment(name: &str, replicas: i32, namespace: &str) -> Deployment {
    Deployment {
        name: name.to_string(),
        namespace: namespace.to_string(),
        owner: quake_owner(),
        labels: vec![KeyValue { key: "app".to_string(), value: name.to_string() }],
        replicas,
        container: Container {
            name: "server".to_string(),
            image: "ghcr.io/chrisrx/quake-kube:latest".to_string(),
            command: vec![
                "q3".to_string(),
                "run".to_string(),
                "--config=/config/config.yaml".to_string(),
                "--agree-eula".to_string(),
                "--shutdown-delay=10s".to_string(),
            ],
            container_port: 8080,
            liveness_probe: Some(Probe {
                command: health_command(),
                initial_delay_seconds: 30,
                period_seconds: 10,
                failure_threshold: 1,
                success_threshold: 1,
            }),
            readiness_probe: Some(Probe {
                command: health_command(),
                initial_delay_seconds: 5,
                period_seconds: 3,
                failure_threshold: 3,
                success_threshold: 1,
            }),
            volume_mounts: vec![
                VolumeMount { name: name.to_string(), mount_path: "/config".to_string() },
                VolumeMount {
                    name: "quake3-content".to_string(),
                    mount_path: "/assets".to_string(),
                },
            ],
        },
        volumes: vec![
            Volume { name: name.to_string(), source: VolumeSource::ConfigMap(name.to_string()) },
            Volume { name: "quake3-content".to_string(), source: VolumeSource::EmptyDir },
        ],
    }
}

fn gone() -> ApiFailure {
    ApiFailure { code: 404, reason: "NotFound".to_string(), message: String::new() }
}

fn conflict() -> ApiFailure {
    ApiFailure { code: 409, reason: "Conflict".to_string(), message: "edited".to_string() }
}

fn broken() -> ApiFailure {
    ApiFailure { code: 0, reason: String::new(), message: "connection reset".to_string() }
}

fn quake_call(step: Step) -> (Pending, Request) {
    match step {
        Step::Call { state, request } => (state, request),
        Step::Return(outcome) => panic!("the attempt ended with {:?}", outcome),
    }
}

fn apply_failed(cause: Error) -> Error {
    Error::FinalizerError(Box::new(FinalizerError::ApplyFailed(cause)))
}

#[test]
fn quake_server_status_defaults_to_not_ready() {
    assert_eq!(QuakeServerStatus::default(), QuakeServerStatus { ready: false });
}

#[test]
fn quake_server_config_map_holds_the_config_verbatim() {
    let built = quake_server("mode: deathmatch", vec![], false).deploy_configmap();
    assert_eq!(built, Ok(quake_config_map("mode: deathmatch")));
    let built = quake_server("", vec![], false).deploy_configmap();
    assert_eq!(built, Ok(quake_config_map("")));
}

#[test]
fn quake_server_service_exposes_client_and_game_port() {
    let built = quake_server("mode: deathmatch", vec![], false).deploy_service();
    assert_eq!(built, Ok(quake_service()));
}

#[test]
fn quake_server_deployment_has_command_probes_and_volumes() {
    let built = quake_server("mode: deathmatch", vec![], false).deploy("arena", 1, "games");
    assert_eq!(built, Ok(quake_deployment("arena", 1, "games")));
    let built = quake_server("x", vec![], false).deploy("other", 4, "elsewhere");
    assert_eq!(built, Ok(quake_deployment("other", 4, "elsewhere")));
}

#[test]
fn quake_server_probes_differ_as_declared() {
    let deployment =
        quake_server("x", vec![], false).deploy("arena", 1, "games").expect("all fields present");
    let liveness = deployment.container.liveness_probe.expect("a liveness probe");
    let readiness = deployment.container.readiness_probe.expect("a readiness probe");
    assert_eq!(
        (liveness.initial_delay_seconds, liveness.period_seconds, liveness.failure_threshold),
        (30, 10, 1)
    );
    assert_eq!(
        (readiness.initial_delay_seconds, readiness.period_seconds, readiness.failure_threshold),
        (5, 3, 3)
    );
    assert_eq!(deployment.container.command.len(), 5);
}

#[test]
fn quake_server_builders_name_the_first_missing_field() {
    let mut resource = quake_server("x", vec![], false);
    resource.metadata.namespace = None;
    assert_eq!(resource.deploy_configmap(), Err(Error::MissingObjectKey(".metadata.namespace")));
    assert_eq!(resource.deploy_service(), Err(Error::MissingObjectKey(".metadata.namespace")));
    resource.metadata.uid = None;
    assert_eq!(resource.deploy_configmap(), Err(Error::MissingObjectKey(".metadata.uid")));
    assert_eq!(resource.deploy_service(), Err(Error::MissingObjectKey(".metadata.uid")));
    assert_eq!(resource.deploy("a", 1, "b"), Err(Error::MissingObjectKey(".metadata.uid")));
    resource.metadata.name = None;
    assert_eq!(resource.deploy_configmap(), Err(Error::MissingObjectKey(".metadata.name")));
    assert_eq!(resource.deploy_service(), Err(Error::MissingObjectKey(".metadata.name")));
    assert_eq!(resource.deploy("a", 1, "b"), Err(Error::MissingObjectKey(".metadata.name")));
}

#[test]
fn quake_server_builders_are_deterministic() {
    let resource = quake_server("mode: deathmatch", vec![QUAKE_TOKEN], false);
    assert_eq!(resource.deploy_configmap(), resource.deploy_configmap());
    assert_eq!(resource.deploy_service(), resource.deploy_service());
    assert_eq!(resource.deploy("arena", 1, "games"), resource.deploy("arena", 1, "games"));
    assert_eq!(resource.reconcile(), resource.clone().reconcile());
}

#[test]
fn quake_server_deathmatch_without_list_server() {
    let resource = quake_server("mode: deathmatch", vec![QUAKE_TOKEN], false);

    let (state, request) = quake_call(QuakeServerController::reconcile(&resource));
    assert_eq!(
        request,
        Request::Apply {
            child: ChildObject::ConfigMap(quake_config_map("mode: deathmatch")),
            field_manager: QUAKE_MANAGER.to_string()
        }
    );

    let (state, request) = quake_call(QuakeServerController::resume(&resource, state, Reply::Done));
    assert_eq!(
        request,
        Request::Apply {
            child: ChildObject::Service(quake_service()),
            field_manager: QUAKE_MANAGER.to_string()
        }
    );

    let (state, request) = quake_call(QuakeServerController::resume(&resource, state, Reply::Done));
    assert_eq!(
        request,
        Request::Get {
            kind: ChildKind::Workload,
            namespace: "games".to_string(),
            name: "arena".to_string()
        }
    );

    let (state, request) =
        quake_call(QuakeServerController::resume(&resource, state, Reply::Failed(gone())));
    assert_eq!(
        request,
        Request::Create { child: ChildObject::Deployment(quake_deployment("arena", 1, "games")) }
    );

    let step = QuakeServerController::resume(&resource, state, Reply::Done);
    assert_eq!(step, Step::Return(Ok(SchedulingDirective::RequeueAfter(10))));
}

#[test]
fn quake_server_token_is_added_before_anything_is_applied() {
    let resource = quake_server("x", vec!["other/finalizer"], false);
    let (state, request) = quake_call(QuakeServerController::reconcile(&resource));
    assert_eq!(state, Pending::AddingFinalizer);
    assert_eq!(
        request,
        Request::AddFinalizer {
            namespace: "games".to_string(),
            name: "arena".to_string(),
            existing: vec!["other/finalizer".to_string()],
            token: QUAKE_TOKEN.to_string()
        }
    );
    let (_, request) = quake_call(QuakeServerController::resume(&resource, state, Reply::Done));
    assert!(matches!(request, Request::Apply { child: ChildObject::ConfigMap(_), .. }));
}

#[test]
fn quake_server_failed_token_write_is_a_finalizer_error() {
    let resource = quake_server("x", vec![], false);
    let (state, _) = quake_call(QuakeServerController::reconcile(&resource));
    let step = QuakeServerController::resume(&resource, state, Reply::Failed(conflict()));
    let expected = Error::FinalizerError(Box::new(FinalizerError::AddFinalizer(conflict())));
    assert_eq!(step, Step::Return(Err(expected)));
}

#[test]
fn quake_server_failed_config_map_stops_the_attempt() {
    let resource = quake_server("x", vec![QUAKE_TOKEN], false);
    let (state, _) = quake_call(QuakeServerController::reconcile(&resource));
    let step = QuakeServerController::resume(&resource, state, Reply::Failed(broken()));
    assert_eq!(step, Step::Return(Err(apply_failed(Error::ConfigMapCreationFailed(broken())))));
}

#[test]
fn quake_server_failed_service_stops_before_the_workload() {
    let resource = quake_server("x", vec![QUAKE_TOKEN], false);
    let (state, _) = quake_call(QuakeServerController::reconcile(&resource));
    let (state, _) = quake_call(QuakeServerController::resume(&resource, state, Reply::Done));
    let step = QuakeServerController::resume(&resource, state, Reply::Failed(conflict()));
    assert_eq!(step, Step::Return(Err(apply_failed(Error::ServiceCreationFailed(conflict())))));
    if let Step::Return(Err(error)) = step {
        assert_eq!(error_policy(&resource, &error), SchedulingDirective::RequeueAfter(1));
    }
}

#[test]
fn quake_server_failed_lookup_or_creation_is_a_transport_error() {
    let resource = quake_server("x", vec![QUAKE_TOKEN], false);
    let (state, _) = quake_call(QuakeServerController::reconcile(&resource));
    let (state, _) = quake_call(QuakeServerController::resume(&resource, state, Reply::Done));
    let (state, _) = quake_call(QuakeServerController::resume(&resource, state, Reply::Done));
    let step = QuakeServerController::resume(&resource, state, Reply::Failed(broken()));
    assert_eq!(step, Step::Return(Err(apply_failed(Error::KubeError(broken())))));

    let (state, _) = quake_call(QuakeServerController::reconcile(&resource));
    let (state, _) = quake_call(QuakeServerController::resume(&resource, state, Reply::Done));
    let (state, _) = quake_call(QuakeServerController::resume(&resource, state, Reply::Done));
    let (state, request) =
        quake_call(QuakeServerController::resume(&resource, state, Reply::Failed(gone())));
    assert!(matches!(request, Request::Create { .. }));
    let step = QuakeServerController::resume(&resource, state, Reply::Failed(conflict()));
    assert_eq!(step, Step::Return(Err(apply_failed(Error::KubeError(conflict())))));
}

#[test]
fn quake_server_missing_uid_fails_the_apply_path() {
    let mut resource = quake_server("x", vec![QUAKE_TOKEN], false);
    resource.metadata.uid = None;
    let step = QuakeServerController::reconcile(&resource);
    assert_eq!(step, Step::Return(Err(apply_failed(Error::MissingObjectKey(".metadata.uid")))));
}

#[test]
fn quake_server_deletion_with_absent_workload_releases_the_token() {
    let resource = quake_server("x", vec![QUAKE_TOKEN, "other/finalizer"], true);
    let (state, request) = quake_call(QuakeServerController::reconcile(&resource));
    assert!(matches!(request, Request::Delete { kind: ChildKind::Workload, .. }));
    let (state, request) =
        quake_call(QuakeServerController::resume(&resource, state, Reply::Failed(gone())));
    assert_eq!(
        request,
        Request::RemoveFinalizer {
            namespace: "games".to_string(),
            name: "arena".to_string(),
            index: 0,
            token: QUAKE_TOKEN.to_string()
        }
    );
    let step = QuakeServerController::resume(&resource, state, Reply::Done);
    assert_eq!(step, Step::Return(Ok(SchedulingDirective::AwaitNextChange)));
}

#[test]
fn quake_server_failed_cleanup_keeps_the_token() {
    let resource = quake_server("x", vec![QUAKE_TOKEN], true);
    let (state, _) = quake_call(QuakeServerController::reconcile(&resource));
    let step = QuakeServerController::resume(&resource, state, Reply::Failed(broken()));
    let expected =
        Error::FinalizerError(Box::new(FinalizerError::CleanupFailed(Error::KubeError(broken()))));
    assert_eq!(step, Step::Return(Err(expected)));
}

#[test]
fn quake_server_failed_token_removal_is_a_finalizer_error() {
    let resource = quake_server("x", vec![QUAKE_TOKEN], true);
    let (state, _) = quake_call(QuakeServerController::reconcile(&resource));
    let (state, _) = quake_call(QuakeServerController::resume(&resource, state, Reply::Done));
    let step = QuakeServerController::resume(&resource, state, Reply::Failed(conflict()));
    let expected = Error::FinalizerError(Box::new(FinalizerError::RemoveFinalizer(conflict())));
    assert_eq!(step, Step::Return(Err(expected)));
}

#[test]
fn quake_server_deleted_without_token_needs_nothing() {
    let resource = quake_server("x", vec!["other/finalizer"], true);
    assert_eq!(
        QuakeServerController::reconcile(&resource),
        Step::Return(Ok(SchedulingDirective::AwaitNextChange))
    );
}

#[test]
fn quake_server_without_name_cannot_hold_a_token() {
    let mut resource = quake_server("x", vec![], false);
    resource.metadata.name = None;
    let unnamed = Error::FinalizerError(Box::new(FinalizerError::UnnamedObject));
    assert_eq!(QuakeServerController::reconcile(&resource), Step::Return(Err(unnamed)));

    resource.metadata.finalizers = vec![QUAKE_TOKEN.to_string()];
    resource.metadata.deletion_requested = true;
    let unnamed = Error::FinalizerError(Box::new(FinalizerError::UnnamedObject));
    assert_eq!(QuakeServerController::reconcile(&resource), Step::Return(Err(unnamed)));
}

#[test]
fn quake_server_without_namespace_is_rejected() {
    let mut resource = quake_server("x", vec![QUAKE_TOKEN], false);
    resource.metadata.namespace = None;
    let message =
        "Expected QuakeServer resource to be namespaced. Can't deploy to an unknown namespace.";
    assert_eq!(
        QuakeServerController::reconcile(&resource),
        Step::Return(Err(Error::UserInputError(message.to_string())))
    );
    resource.spec.config = "anything else".to_string();
    resource.metadata.uid = None;
    assert_eq!(
        QuakeServerController::reconcile(&resource),
        Step::Return(Err(Error::UserInputError(message.to_string())))
    );
}

#[test]
fn quake_server_never_mixes_the_two_paths() {
    let living = quake_server("x", vec![QUAKE_TOKEN], false);
    let mut step = QuakeServerController::reconcile(&living);
    let mut calls = 0;
    while let Step::Call { state, request } = step {
        assert!(!matches!(request, Request::Delete { .. } | Request::RemoveFinalizer { .. }));
        calls += 1;
        step = QuakeServerController::resume(&living, state, Reply::Done);
    }
    assert_eq!(calls, 3);

    let dying = quake_server("x", vec![QUAKE_TOKEN], true);
    let mut step = QuakeServerController::reconcile(&dying);
    let mut calls = 0;
    while let Step::Call { state, request } = step {
        assert!(matches!(request, Request::Delete { .. } | Request::RemoveFinalizer { .. }));
        calls += 1;
        step = QuakeServerController::resume(&dying, state, Reply::Done);
    }
    assert_eq!(calls, 2);
}

#[test]
fn quake_server_loop_watches_one_namespace_or_all() {
    assert_eq!(
        QuakeServerController::run(Some("games".to_string())),
        WatchScope::Namespace("games".to_string())
    );
    assert_eq!(QuakeServerController::run(None), WatchScope::AllNamespaces);
}
