use controllers::child::{ChildKind, ChildObject};
use controllers::directive::SchedulingDirective;
use controllers::error::{ApiFailure, Error, FinalizerError};
use controllers::list_server::{ListServer, ListServerSpec};
use controllers::list_server_controller::ListServerController;
use controllers::meta::Metadata;
use controllers::quake_server::{QuakeServer, QuakeServerSpec};
use controllers::quake_server_controller::{error_policy, QuakeServerController};
use controllers::step::{Reply, Request, Step};

/// A cluster in memory that answers as the real one does when nothing goes
/// wrong, unless it is told to fail the writes of one kind of child.
#[derive(Clone, Debug, PartialEq)]
struct Cluster {
    children: Vec<ChildObject>,
    finalizers: Vec<String>,
    failing: Option<ChildKind>,
    served: usize,
}

fn status(code: u16, reason: &str) -> ApiFailure {
    ApiFailure { code, reason: reason.to_string(), message: String::new() }
}

impl Cluster {
    fn new(finalizers: Vec<&str>) -> Cluster {
        Cluster {
            children: vec![],
            finalizers: finalizers.into_iter().map(String::from).collect(),
            failing: None,
            served: 0,
        }
    }

    fn position(&self, kind: ChildKind, namespace: &str, name: &str) -> Option<usize> {
        self.children.iter().position(|child| {
            child.kind() == kind && child.namespace() == namespace && child.name() == name
        })
    }

    fn holds(&self, kind: ChildKind, namespace: &str, name: &str) -> bool {
        self.position(kind, namespace, name).is_some()
    }

    fn put(&mut self, child: ChildObject) {
        match self.position(child.kind(), &child.namespace(), &child.name()) {
            Some(at) => self.children[at] = child,
            None => self.children.push(child),
        }
    }

    fn serve(&mut self, request: Request) -> Reply {
        self.served += 1;
        match request {
            Request::AddFinalizer { existing, token, .. } => {
                if existing != self.finalizers {
                    return Reply::Failed(status(409, "Conflict"));
                }
                self.finalizers.push(token);
                Reply::Done
            }
            Request::RemoveFinalizer { index, token, .. } => {
                if self.finalizers.get(index) != Some(&token) {
                    return Reply::Failed(status(409, "Conflict"));
                }
                self.finalizers.remove(index);
                Reply::Done
            }
            Request::Apply { child, .. } => {
                if self.failing == Some(child.kind()) {
                    return Reply::Failed(status(503, "ServiceUnavailable"));
                }
                self.put(child);
                Reply::Done
            }
            Request::Get { kind, namespace, name } => {
                if self.holds(kind, &namespace, &name) {
                    Reply::Done
                } else {
                    Reply::Failed(status(404, "NotFound"))
                }
            }
            Request::Create { child } => {
                if self.failing == Some(child.kind()) {
                    return Reply::Failed(status(503, "ServiceUnavailable"));
                }
                if self.holds(child.kind(), &child.namespace(), &child.name()) {
                    return Reply::Failed(status(409, "AlreadyExists"));
                }
                self.children.push(child);
                Reply::Done
            }
            Request::Delete { kind, namespace, name } => {
                match self.position(kind, &namespace, &name) {
                    Some(at) => {
                        self.children.remove(at);
                        Reply::Done
                    }
                    None => Reply::Failed(status(404, "NotFound")),
                }
            }
        }
    }

    fn reconcile_quake(&mut self, resource: &QuakeServer) -> Result<SchedulingDirective, Error> {
        let mut step = QuakeServerController::reconcile(resource);
        loop {
            match step {
                Step::Return(outcome) => return outcome,
                Step::Call { state, request } => {
                    let reply = self.serve(request);
                    step = QuakeServerController::resume(resource, state, reply);
                }
            }
        }
    }

    fn reconcile_list(&mut self, resource: &ListServer) -> Result<SchedulingDirective, Error> {
        let mut step = ListServerController::reconcile(resource);
        loop {
            match step {
                Step::Return(outcome) => return outcome,
                Step::Call { state, request } => {
                    let reply = self.serve(request);
                    step = ListServerController::resume(resource, state, reply);
                }
            }
        }
    }
}

fn observed(name: &str, cluster: &Cluster, deleting: bool) -> Metadata {
    Metadata {
        name: Some(name.to_string()),
        namespace: Some("ns1".to_string()),
        uid: Some("uid".to_string()),
        finalizers: cluster.finalizers.clone(),
        deletion_requested: deleting,
    }
}

fn quake(cluster: &Cluster, config: &str, deleting: bool) -> QuakeServer {
    QuakeServer {
        metadata: observed("arena", cluster, deleting),
        spec: QuakeServerSpec { config: config.to_string(), list_server: None },
        status: None,
    }
}

fn list(cluster: &Cluster, port: i32, deleting: bool) -> ListServer {
    ListServer {
        metadata: observed("master", cluster, deleting),
        spec: ListServerSpec { port },
        status: None,
    }
}

#[test]
fn cluster_holds_the_children_of_a_list_server_after_one_attempt() {
    let mut cluster = Cluster::new(vec!["listservers.quake.kube/finalizer"]);
    let resource = list(&cluster, 27950, false);
    assert_eq!(cluster.reconcile_list(&resource), Ok(SchedulingDirective::RequeueAfter(10)));
    assert_eq!(cluster.children.len(), 2);
    assert!(cluster.holds(ChildKind::NetworkEndpoint, "ns1", "master"));
    assert!(cluster.holds(ChildKind::Workload, "ns1", "master"));
    assert_eq!(cluster.served, 3);
}

#[test]
fn cluster_is_the_same_after_applying_twice_as_after_applying_once() {
    let mut cluster = Cluster::new(vec!["quakeservers.quake.kube/finalizer"]);
    let resource = quake(&cluster, "mode: deathmatch", false);
    assert_eq!(cluster.reconcile_quake(&resource), Ok(SchedulingDirective::RequeueAfter(10)));
    let once = cluster.clone();
    assert_eq!(once.children.len(), 3);
    assert_eq!(cluster.reconcile_quake(&resource), Ok(SchedulingDirective::RequeueAfter(10)));
    assert_eq!(cluster.children, once.children);
    assert_eq!(cluster.finalizers, once.finalizers);
}

#[test]
fn cluster_gets_the_token_before_the_first_child() {
    let mut cluster = Cluster::new(vec![]);
    let resource = quake(&cluster, "x", false);
    assert_eq!(cluster.reconcile_quake(&resource), Ok(SchedulingDirective::RequeueAfter(10)));
    assert_eq!(cluster.finalizers, vec!["quakeservers.quake.kube/finalizer".to_string()]);
    assert_eq!(cluster.children.len(), 3);
}

#[test]
fn cluster_keeps_an_existing_workload_but_follows_the_config() {
    let mut cluster = Cluster::new(vec!["quakeservers.quake.kube/finalizer"]);
    let first = quake(&cluster, "mode: deathmatch", false);
    assert_eq!(cluster.reconcile_quake(&first), Ok(SchedulingDirective::RequeueAfter(10)));
    let before = cluster.clone();

    let mut edited = quake(&cluster, "mode: capture-the-flag", false);
    edited.metadata.uid = Some("another-uid".to_string());
    assert_eq!(cluster.reconcile_quake(&edited), Ok(SchedulingDirective::RequeueAfter(10)));

    let workload = |c: &Cluster| {
        let at = c.position(ChildKind::Workload, "ns1", "arena").expect("a workload");
        c.children[at].clone()
    };
    let bundle = |c: &Cluster| {
        let at = c.position(ChildKind::ConfigBundle, "ns1", "arena").expect("a bundle");
        c.children[at].clone()
    };
    assert_eq!(workload(&cluster), workload(&before));
    assert_ne!(bundle(&cluster), bundle(&before));
    assert_eq!(bundle(&cluster), ChildObject::ConfigMap(edited.deploy_configmap().unwrap()));
}

#[test]
fn cluster_loses_the_workload_before_the_token() {
    let mut cluster = Cluster::new(vec!["other/finalizer", "listservers.quake.kube/finalizer"]);
    let living = list(&cluster, 27950, false);
    assert_eq!(cluster.reconcile_list(&living), Ok(SchedulingDirective::RequeueAfter(10)));

    let dying = list(&cluster, 27950, true);
    assert_eq!(cluster.reconcile_list(&dying), Ok(SchedulingDirective::AwaitNextChange));
    assert!(!cluster.holds(ChildKind::Workload, "ns1", "master"));
    assert!(cluster.holds(ChildKind::NetworkEndpoint, "ns1", "master"));
    assert_eq!(cluster.finalizers, vec!["other/finalizer".to_string()]);

    let gone = list(&cluster, 27950, true);
    let served = cluster.served;
    assert_eq!(cluster.reconcile_list(&gone), Ok(SchedulingDirective::AwaitNextChange));
    assert_eq!(cluster.served, served);
}

#[test]
fn cluster_without_the_workload_still_releases_the_token() {
    let mut cluster = Cluster::new(vec!["quakeservers.quake.kube/finalizer"]);
    let dying = quake(&cluster, "x", true);
    assert_eq!(cluster.reconcile_quake(&dying), Ok(SchedulingDirective::AwaitNextChange));
    assert!(cluster.finalizers.is_empty());
}

#[test]
fn cluster_failing_on_the_service_gets_no_workload() {
    let mut cluster = Cluster::new(vec!["quakeservers.quake.kube/finalizer"]);
    cluster.failing = Some(ChildKind::NetworkEndpoint);
    let resource = quake(&cluster, "x", false);
    let outcome = cluster.reconcile_quake(&resource);
    let expected = Error::FinalizerError(Box::new(FinalizerError::ApplyFailed(
        Error::ServiceCreationFailed(status(503, "ServiceUnavailable")),
    )));
    assert_eq!(outcome, Err(expected));
    assert!(cluster.holds(ChildKind::ConfigBundle, "ns1", "arena"));
    assert!(!cluster.holds(ChildKind::NetworkEndpoint, "ns1", "arena"));
    assert!(!cluster.holds(ChildKind::Workload, "ns1", "arena"));
    if let Err(error) = outcome {
        assert!(error.class().is_transient());
        assert_eq!(error_policy(&resource, &error), SchedulingDirective::RequeueAfter(1));
    }

    cluster.failing = None;
    assert_eq!(cluster.reconcile_quake(&resource), Ok(SchedulingDirective::RequeueAfter(10)));
    assert!(cluster.holds(ChildKind::Workload, "ns1", "arena"));
}

#[test]
fn cluster_changed_by_someone_else_refuses_the_token() {
    let mut cluster = Cluster::new(vec![]);
    let stale = quake(&cluster, "x", false);
    cluster.finalizers.push("other/finalizer".to_string());
    let outcome = cluster.reconcile_quake(&stale);
    let expected =
        Error::FinalizerError(Box::new(FinalizerError::AddFinalizer(status(409, "Conflict"))));
    assert_eq!(outcome, Err(expected));
    assert!(cluster.children.is_empty());
}
