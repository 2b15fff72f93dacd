//! The directory-serving kind: a list server that game servers register
//! with.  It gets a network endpoint with one UDP port and a workload with a
//! single replica.

use crate::child::{
    single_entry, ChildKind, ChildObject, ChildObjectView, Container, ContainerView, Deployment,
    DeploymentView, KeyValueView, Protocol, Service, ServicePort, ServicePortView, ServiceType,
    ServiceView, children_view, mounts_view, ports_view, volumes_view,
};
use crate::error::{result_view, Error, ErrorView};
use crate::meta::{spec_owner_reference, Metadata, MetadataView, OwnerReferenceView};
use crate::reconciler::{apply_path, cleanup_path, spec_apply_path, spec_cleanup_path, Managed};
use crate::step::PathStep;
use vstd::prelude::*;

verus! {

/// Finalizer token that the engine holds on list servers.
pub const LIST_SERVER_FINALIZER: &'static str = "listservers.quake.kube/finalizer";

/// Identity under which the children of list servers are merged.
pub const LIST_SERVER_FIELD_MANAGER: &'static str = "listservers.quake.kube";

/// API version of the list server kind.
pub const LIST_SERVER_API_VERSION: &'static str = "quake.kube/v1";

/// Name of the list server kind.
pub const LIST_SERVER_KIND: &'static str = "ListServer";

/// Image that a list server runs.
pub const LIST_SERVER_IMAGE: &'static str = "ghcr.io/chrisrx/dpmaster";

/// Port on which a list server listens unless its spec says otherwise, and
/// on which its container always listens.
pub const LIST_SERVER_PORT: i32 = 27950;

/// Port of every node on which a list server is reachable from outside.
pub const LIST_SERVER_NODE_PORT: i32 = 30005;

/// What a user declares of a list server.
#[derive(Clone, Copy, Debug, PartialEq, Eq, Structural)]
pub struct ListServerSpec {
    pub port: i32,
}

/// What the operator has observed of a list server.
#[derive(Clone, Copy, Debug, PartialEq, Eq, Structural)]
pub struct ListServerStatus {
    pub ready: bool,
}

impl Default for ListServerStatus {
    fn default() -> (status: ListServerStatus)
        ensures
            !status.ready,
    {
        ListServerStatus { ready: false }
    }
}

/// Snapshot of a declared list server.
#[derive(Clone, Debug, PartialEq, Eq)]
pub struct ListServer {
    pub metadata: Metadata,
    pub spec: ListServerSpec,
    pub status: Option<ListServerStatus>,
}

pub struct ListServerView {
    pub metadata: MetadataView,
    pub spec: ListServerSpec,
    pub status: Option<ListServerStatus>,
}

impl View for ListServer {
    type V = ListServerView;

    open spec fn view(&self) -> ListServerView {
        ListServerView { metadata: self.metadata@, spec: self.spec, status: self.status }
    }
}

/// The network endpoint of a list server: one UDP port, the declared one,
/// reachable from outside on the fixed node port.
pub open spec fn spec_deploy_service(resource: ListServerView) -> Result<ServiceView, ErrorView> {
    match spec_owner_reference(
        resource.metadata,
        LIST_SERVER_API_VERSION@,
        LIST_SERVER_KIND@,
    ) {
        Err(e) => Err(e),
        Ok(owner) => match resource.metadata.namespace {
            None => Err(ErrorView::MissingObjectKey(".metadata.namespace"@)),
            Some(namespace) => Ok(
                ServiceView {
                    name: owner.name,
                    namespace,
                    owner,
                    service_type: ServiceType::NodePort,
                    selector: seq![KeyValueView { key: "app"@, value: owner.name }],
                    ports: seq![
                        ServicePortView {
                            name: "server"@,
                            port: resource.spec.port,
                            node_port: LIST_SERVER_NODE_PORT,
                            target_port: resource.spec.port,
                            protocol: Some(Protocol::Udp),
                        },
                    ],
                },
            ),
        },
    }
}

/// The workload of a list server: `replicas` pods of one container without
/// probes, command or volumes.
pub open spec fn spec_deploy(
    resource: ListServerView,
    name: Seq<char>,
    replicas: i32,
    namespace: Seq<char>,
) -> Result<DeploymentView, ErrorView> {
    match spec_owner_reference(
        resource.metadata,
        LIST_SERVER_API_VERSION@,
        LIST_SERVER_KIND@,
    ) {
        Err(e) => Err(e),
        Ok(owner) => Ok(
            DeploymentView {
                name,
                namespace,
                owner,
                labels: seq![KeyValueView { key: "app"@, value: name }],
                replicas,
                container: ContainerView {
                    name: "server"@,
                    image: LIST_SERVER_IMAGE@,
                    command: Seq::empty(),
                    container_port: LIST_SERVER_PORT,
                    liveness_probe: None,
                    readiness_probe: None,
                    volume_mounts: Seq::empty(),
                },
                volumes: Seq::empty(),
            },
        ),
    }
}

/// The children of a list server, in the order in which they are applied:
/// the network endpoint, then the workload with a single replica.
pub open spec fn spec_list_server_children(resource: ListServerView) -> Result<
    Seq<ChildObjectView>,
    ErrorView,
> {
    match spec_deploy_service(resource) {
        Err(e) => Err(e),
        Ok(service) => match spec_deploy(resource, service.name, 1, service.namespace) {
            Err(e) => Err(e),
            Ok(deployment) => Ok(
                seq![ChildObjectView::Service(service), ChildObjectView::Deployment(deployment)],
            ),
        },
    }
}

/// Idempotence of building.  What is built for a list server is a function
/// of what the snapshot holds: two snapshots with the same content get the
/// same children.
pub proof fn lemma_list_server_children_deterministic(a: ListServer, b: ListServer)
    requires
        a@ == b@,
    ensures
        a.spec_children() == b.spec_children(),
{
}

/// The children of a list server are built exactly when the snapshot has a
/// name, a uid and a namespace.  They are the network endpoint and then the
/// workload, both named after the resource, in its namespace, and owned by
/// it.  Otherwise the error names the first of name, uid and namespace that
/// is missing.
pub proof fn lemma_list_server_children(resource: ListServerView)
    ensures
        match spec_list_server_children(resource) {
            Ok(children) => {
                &&& resource.metadata.name is Some
                &&& resource.metadata.uid is Some
                &&& resource.metadata.namespace is Some
                &&& children.len() == 2
                &&& children[0].kind() == ChildKind::NetworkEndpoint
                &&& children[1].kind() == ChildKind::Workload
                &&& forall|i: int|
                    0 <= i < 2 ==> {
                        &&& (#[trigger] children[i]).name() == resource.metadata.name->Some_0
                        &&& children[i].namespace() == resource.metadata.namespace->Some_0
                        &&& Ok::<OwnerReferenceView, ErrorView>(children[i].owner())
                            == spec_owner_reference(
                            resource.metadata,
                            LIST_SERVER_API_VERSION@,
                            LIST_SERVER_KIND@,
                        )
                    }
            },
            Err(e) => if resource.metadata.name is None {
                e == ErrorView::MissingObjectKey(".metadata.name"@)
            } else if resource.metadata.uid is None {
                e == ErrorView::MissingObjectKey(".metadata.uid"@)
            } else {
                resource.metadata.namespace is None && e == ErrorView::MissingObjectKey(
                    ".metadata.namespace"@,
                )
            },
        },
{
}

impl ListServer {
    /// Port of a list server whose declaration names none.
    pub fn default_port() -> (port: i32)
        ensures
            port == LIST_SERVER_PORT,
    {
        LIST_SERVER_PORT
    }

    /// Begins the apply path: the network endpoint is merged into the
    /// cluster, then the workload is created unless it exists.
    pub fn reconcile(&self) -> (step: PathStep)
        ensures
            step@ == spec_apply_path(self),
    {
        apply_path(self)
    }

    /// Begins the cleanup path: the workload is deleted.
    pub fn cleanup(&self) -> (step: PathStep)
        ensures
            step@ == spec_cleanup_path(self),
    {
        cleanup_path(self)
    }

    /// Builds the network endpoint.
    pub fn deploy_service(&self) -> (built: Result<Service, Error>)
        ensures
            result_view(built) == spec_deploy_service(self@),
    {
        let owner = match self.metadata.owner_reference(LIST_SERVER_API_VERSION, LIST_SERVER_KIND) {
            Err(e) => { return Err(e); },
            Ok(owner) => owner,
        };
        let namespace = match &self.metadata.namespace {
            None => { return Err(Error::MissingObjectKey(".metadata.namespace")); },
            Some(namespace) => namespace.clone(),
        };
        let mut ports: Vec<ServicePort> = Vec::new();
        ports.push(
            ServicePort {
                name: "server".to_owned(),
                port: self.spec.port,
                node_port: LIST_SERVER_NODE_PORT,
                target_port: self.spec.port,
                protocol: Some(Protocol::Udp),
            },
        );
        let service = Service {
            name: owner.name.clone(),
            namespace,
            selector: single_entry("app", owner.name.clone()),
            owner,
            service_type: ServiceType::NodePort,
            ports,
        };
        proof {
            let expected = spec_deploy_service(self@)->Ok_0;
            assert(ports_view(service.ports@) =~= expected.ports);
        }
        Ok(service)
    }

    /// Builds the workload under `name` in `namespace`.
    pub fn deploy(&self, name: &str, replicas: i32, namespace: &str) -> (built: Result<
        Deployment,
        Error,
    >)
        ensures
            result_view(built) == spec_deploy(self@, name@, replicas, namespace@),
    {
        let owner = match self.metadata.owner_reference(LIST_SERVER_API_VERSION, LIST_SERVER_KIND) {
            Err(e) => { return Err(e); },
            Ok(owner) => owner,
        };
        let deployment = Deployment {
            name: name.to_owned(),
            namespace: namespace.to_owned(),
            owner,
            labels: single_entry("app", name.to_owned()),
            replicas,
            container: Container {
                name: "server".to_owned(),
                image: LIST_SERVER_IMAGE.to_owned(),
                command: Vec::new(),
                container_port: LIST_SERVER_PORT,
                liveness_probe: None,
                readiness_probe: None,
                volume_mounts: Vec::new(),
            },
            volumes: Vec::new(),
        };
        proof {
            assert(deployment.container.command.deep_view() =~= Seq::empty());
            assert(mounts_view(deployment.container.volume_mounts@) =~= Seq::empty());
            assert(volumes_view(deployment.volumes@) =~= Seq::empty());
        }
        Ok(deployment)
    }
}

impl Managed for ListServer {
    open spec fn spec_metadata(&self) -> MetadataView {
        self.metadata@
    }

    fn metadata(&self) -> (meta: &Metadata) {
        &self.metadata
    }

    open spec fn spec_kind() -> Seq<char> {
        LIST_SERVER_KIND@
    }

    fn kind() -> (kind: String) {
        LIST_SERVER_KIND.to_owned()
    }

    open spec fn spec_finalizer() -> Seq<char> {
        LIST_SERVER_FINALIZER@
    }

    fn finalizer() -> (token: String) {
        LIST_SERVER_FINALIZER.to_owned()
    }

    open spec fn spec_field_manager() -> Seq<char> {
        LIST_SERVER_FIELD_MANAGER@
    }

    fn field_manager() -> (manager: String) {
        LIST_SERVER_FIELD_MANAGER.to_owned()
    }

    open spec fn spec_children(&self) -> Result<Seq<ChildObjectView>, ErrorView> {
        spec_list_server_children(self@)
    }

    fn children(&self) -> (built: Result<Vec<ChildObject>, Error>) {
        let service = match self.deploy_service() {
            Err(e) => { return Err(e); },
            Ok(service) => service,
        };
        let deployment = match self.deploy(service.name.as_str(), 1, service.namespace.as_str()) {
            Err(e) => { return Err(e); },
            Ok(deployment) => deployment,
        };
        let mut children: Vec<ChildObject> = Vec::new();
        children.push(ChildObject::Service(service));
        children.push(ChildObject::Deployment(deployment));
        proof {
            assert(children_view(children@) =~= seq![
                ChildObjectView::Service(service@),
                ChildObjectView::Deployment(deployment@),
            ]);
        }
        Ok(children)
    }
}

} // verus!
