//! The workload-serving kind: a Quake game server.  It gets a configuration
//! bundle with its declared configuration, a network endpoint with a client
//! and a game port, and a workload with a single replica that mounts the
//! bundle.

use crate::child::{
    single_entry, ChildKind, ChildObject, ChildObjectView, ConfigMap, ConfigMapView, Container,
    ContainerView, Deployment, DeploymentView, KeyValueView, Probe, ProbeView, Service,
    ServicePort, ServicePortView, ServiceType, ServiceView, Volume, VolumeMount,
    VolumeMountView, VolumeSource, VolumeSourceView, VolumeView, children_view, mounts_view,
    ports_view, volumes_view,
};
use crate::error::{result_view, Error, ErrorView};
use crate::meta::{spec_owner_reference, Metadata, MetadataView, OwnerReference, OwnerReferenceView};
use crate::reconciler::{apply_path, cleanup_path, spec_apply_path, spec_cleanup_path, Managed};
use crate::step::PathStep;
use vstd::prelude::*;

verus! {

/// Finalizer token that the engine holds on Quake servers.
pub const QUAKE_SERVER_FINALIZER: &'static str = "quakeservers.quake.kube/finalizer";

/// Identity under which the children of Quake servers are merged.
pub const QUAKE_SERVER_FIELD_MANAGER: &'static str = "quakeservers.quake.kube";

/// API version of the Quake server kind.
pub const QUAKE_SERVER_API_VERSION: &'static str = "quake.kube/v1";

/// Name of the Quake server kind.
pub const QUAKE_SERVER_KIND: &'static str = "QuakeServer";

/// Image that a Quake server runs.
pub const QUAKE_SERVER_IMAGE: &'static str = "ghcr.io/chrisrx/quake-kube:latest";

/// Port of the control API of a Quake server, and the node port in front of
/// it.
pub const CLIENT_PORT: i32 = 8080;

pub const CLIENT_NODE_PORT: i32 = 30001;

/// Port of the game protocol of a Quake server, and the node port in front
/// of it.
pub const GAME_PORT: i32 = 27960;

pub const GAME_NODE_PORT: i32 = 30003;

/// Name of the scratch volume for game assets.
pub const CONTENT_VOLUME: &'static str = "quake3-content";

/// What a user declares of a Quake server.
#[derive(Clone, Debug, PartialEq, Eq)]
pub struct QuakeServerSpec {
    /// Configuration of the game server, passed on as it is.
    pub config: String,
    /// Name of the list server to register with.
    pub list_server: Option<String>,
}

pub struct QuakeServerSpecView {
    pub config: Seq<char>,
    pub list_server: Option<Seq<char>>,
}

impl View for QuakeServerSpec {
    type V = QuakeServerSpecView;

    open spec fn view(&self) -> QuakeServerSpecView {
        QuakeServerSpecView { config: self.config@, list_server: self.list_server.deep_view() }
    }
}

/// What the operator has observed of a Quake server.
#[derive(Clone, Copy, Debug, PartialEq, Eq, Structural)]
pub struct QuakeServerStatus {
    pub ready: bool,
}

impl Default for QuakeServerStatus {
    fn default() -> (status: QuakeServerStatus)
        ensures
            !status.ready,
    {
        QuakeServerStatus { ready: false }
    }
}

/// Snapshot of a declared Quake server.
#[derive(Clone, Debug, PartialEq, Eq)]
pub struct QuakeServer {
    pub metadata: Metadata,
    pub spec: QuakeServerSpec,
    pub status: Option<QuakeServerStatus>,
}

pub struct QuakeServerView {
    pub metadata: MetadataView,
    pub spec: QuakeServerSpecView,
    pub status: Option<QuakeServerStatus>,
}

impl View for QuakeServer {
    type V = QuakeServerView;

    open spec fn view(&self) -> QuakeServerView {
        QuakeServerView { metadata: self.metadata@, spec: self.spec@, status: self.status }
    }
}

/// Owner reference and namespace that every child of the resource carries:
/// the error names the first of name, uid and namespace that is missing.
pub open spec fn spec_placement(meta: MetadataView) -> Result<
    (OwnerReferenceView, Seq<char>),
    ErrorView,
> {
    match spec_owner_reference(meta, QUAKE_SERVER_API_VERSION@, QUAKE_SERVER_KIND@) {
        Err(e) => Err(e),
        Ok(owner) => match meta.namespace {
            None => Err(ErrorView::MissingObjectKey(".metadata.namespace"@)),
            Some(namespace) => Ok((owner, namespace)),
        },
    }
}

/// The configuration bundle of a Quake server: the declared configuration,
/// verbatim, under the key `config.yaml`.
pub open spec fn spec_deploy_configmap(resource: QuakeServerView) -> Result<
    ConfigMapView,
    ErrorView,
> {
    match spec_placement(resource.metadata) {
        Err(e) => Err(e),
        Ok((owner, namespace)) => Ok(
            ConfigMapView {
                name: owner.name,
                namespace,
                owner,
                data: seq![KeyValueView { key: "config.yaml"@, value: resource.spec.config }],
            },
        ),
    }
}

/// The network endpoint of a Quake server: the client port and the game
/// port, each reachable from outside on its fixed node port.
pub open spec fn spec_deploy_service(resource: QuakeServerView) -> Result<ServiceView, ErrorView> {
    match spec_placement(resource.metadata) {
        Err(e) => Err(e),
        Ok((owner, namespace)) => Ok(
            ServiceView {
                name: owner.name,
                namespace,
                owner,
                service_type: ServiceType::NodePort,
                selector: seq![KeyValueView { key: "app"@, value: owner.name }],
                ports: seq![
                    ServicePortView {
                        name: "client"@,
                        port: CLIENT_PORT,
                        node_port: CLIENT_NODE_PORT,
                        target_port: CLIENT_PORT,
                        protocol: None,
                    },
                    ServicePortView {
                        name: "server"@,
                        port: GAME_PORT,
                        node_port: GAME_NODE_PORT,
                        target_port: GAME_PORT,
                        protocol: None,
                    },
                ],
            },
        ),
    }
}

/// Command with which the game server starts.
pub open spec fn spec_startup_command() -> Seq<Seq<char>> {
    seq![
        "q3"@,
        "run"@,
        "--config=/config/config.yaml"@,
        "--agree-eula"@,
        "--shutdown-delay=10s"@,
    ]
}

/// Command that both probes run.
pub open spec fn spec_health_command() -> Seq<Seq<char>> {
    seq!["grpc-health-probe"@, "-addr=localhost:8080"@]
}

/// Liveness probe: first after 30 s, then every 10 s, dead at the first
/// failure.
pub open spec fn spec_liveness_probe() -> ProbeView {
    ProbeView {
        command: spec_health_command(),
        initial_delay_seconds: 30,
        period_seconds: 10,
        failure_threshold: 1,
        success_threshold: 1,
    }
}

/// Readiness probe: first after 5 s, then every 3 s, unready after three
/// failures.
pub open spec fn spec_readiness_probe() -> ProbeView {
    ProbeView {
        command: spec_health_command(),
        initial_delay_seconds: 5,
        period_seconds: 3,
        failure_threshold: 3,
        success_threshold: 1,
    }
}

/// The workload of a Quake server: `replicas` pods of one container with
/// the startup command and both probes, which mounts the configuration
/// bundle named `name` and a scratch volume for assets.
pub open spec fn spec_deploy(
    resource: QuakeServerView,
    name: Seq<char>,
    replicas: i32,
    namespace: Seq<char>,
) -> Result<DeploymentView, ErrorView> {
    match spec_owner_reference(
        resource.metadata,
        QUAKE_SERVER_API_VERSION@,
        QUAKE_SERVER_KIND@,
    ) {
        Err(e) => Err(e),
        Ok(owner) => Ok(
            DeploymentView {
                name,
                namespace,
                owner,
                labels: seq![KeyValueView { key: "app"@, value: name }],
                replicas,
                container: ContainerView {
                    name: "server"@,
                    image: QUAKE_SERVER_IMAGE@,
                    command: spec_startup_command(),
                    container_port: CLIENT_PORT,
                    liveness_probe: Some(spec_liveness_probe()),
                    readiness_probe: Some(spec_readiness_probe()),
                    volume_mounts: seq![
                        VolumeMountView { name, mount_path: "/config"@ },
                        VolumeMountView { name: CONTENT_VOLUME@, mount_path: "/assets"@ },
                    ],
                },
                volumes: seq![
                    VolumeView { name, source: VolumeSourceView::ConfigMap(name) },
                    VolumeView { name: CONTENT_VOLUME@, source: VolumeSourceView::EmptyDir },
                ],
            },
        ),
    }
}

/// The children of a Quake server, in the order in which they are applied:
/// the configuration bundle and the network endpoint, then the workload
/// with a single replica.
pub open spec fn spec_quake_server_children(resource: QuakeServerView) -> Result<
    Seq<ChildObjectView>,
    ErrorView,
> {
    match spec_deploy_configmap(resource) {
        Err(e) => Err(e),
        Ok(config) => match spec_deploy_service(resource) {
            Err(e) => Err(e),
            Ok(service) => match spec_deploy(resource, service.name, 1, service.namespace) {
                Err(e) => Err(e),
                Ok(deployment) => Ok(
                    seq![
                        ChildObjectView::ConfigMap(config),
                        ChildObjectView::Service(service),
                        ChildObjectView::Deployment(deployment),
                    ],
                ),
            },
        },
    }
}

/// Idempotence of building.  What is built for a Quake server is a function
/// of what the snapshot holds: two snapshots with the same content get the
/// same children.
pub proof fn lemma_quake_server_children_deterministic(a: QuakeServer, b: QuakeServer)
    requires
        a@ == b@,
    ensures
        a.spec_children() == b.spec_children(),
{
}

/// The children of a Quake server are built exactly when the snapshot has a
/// name, a uid and a namespace.  They are the configuration bundle, the
/// network endpoint and then the workload, all named after the resource, in
/// its namespace, and owned by it.  Otherwise the error names the first of
/// name, uid and namespace that is missing.
pub proof fn lemma_quake_server_children(resource: QuakeServerView)
    ensures
        match spec_quake_server_children(resource) {
            Ok(children) => {
                &&& resource.metadata.name is Some
                &&& resource.metadata.uid is Some
                &&& resource.metadata.namespace is Some
                &&& children.len() == 3
                &&& children[0].kind() == ChildKind::ConfigBundle
                &&& children[1].kind() == ChildKind::NetworkEndpoint
                &&& children[2].kind() == ChildKind::Workload
                &&& forall|i: int|
                    0 <= i < 3 ==> {
                        &&& (#[trigger] children[i]).name() == resource.metadata.name->Some_0
                        &&& children[i].namespace() == resource.metadata.namespace->Some_0
                        &&& Ok::<OwnerReferenceView, ErrorView>(children[i].owner())
                            == spec_owner_reference(
                            resource.metadata,
                            QUAKE_SERVER_API_VERSION@,
                            QUAKE_SERVER_KIND@,
                        )
                    }
            },
            Err(e) => if resource.metadata.name is None {
                e == ErrorView::MissingObjectKey(".metadata.name"@)
            } else if resource.metadata.uid is None {
                e == ErrorView::MissingObjectKey(".metadata.uid"@)
            } else {
                resource.metadata.namespace is None && e == ErrorView::MissingObjectKey(
                    ".metadata.namespace"@,
                )
            },
        },
{
}

/// The command that both probes run.
fn health_command() -> (command: Vec<String>)
    ensures
        command.deep_view() == spec_health_command(),
{
    let mut command: Vec<String> = Vec::new();
    command.push("grpc-health-probe".to_owned());
    command.push("-addr=localhost:8080".to_owned());
    assert(command.deep_view() =~= spec_health_command());
    command
}

/// The command with which the game server starts.
fn startup_command() -> (command: Vec<String>)
    ensures
        command.deep_view() == spec_startup_command(),
{
    let mut command: Vec<String> = Vec::new();
    command.push("q3".to_owned());
    command.push("run".to_owned());
    command.push("--config=/config/config.yaml".to_owned());
    command.push("--agree-eula".to_owned());
    command.push("--shutdown-delay=10s".to_owned());
    assert(command.deep_view() =~= spec_startup_command());
    command
}

impl QuakeServer {
    /// Owner reference and namespace for the children of the resource.
    fn placement(&self) -> (placed: Result<(OwnerReference, String), Error>)
        ensures
            match placed {
                Ok((owner, namespace)) => spec_placement(self@.metadata) == Ok::<
                    (OwnerReferenceView, Seq<char>),
                    ErrorView,
                >((owner@, namespace@)),
                Err(e) => spec_placement(self@.metadata) == Err::<
                    (OwnerReferenceView, Seq<char>),
                    ErrorView,
                >(e@),
            },
    {
        let owner = match self.metadata.owner_reference(
            QUAKE_SERVER_API_VERSION,
            QUAKE_SERVER_KIND,
        ) {
            Err(e) => { return Err(e); },
            Ok(owner) => owner,
        };
        match &self.metadata.namespace {
            None => Err(Error::MissingObjectKey(".metadata.namespace")),
            Some(namespace) => Ok((owner, namespace.clone())),
        }
    }

    /// Begins the apply path: the configuration bundle and the network
    /// endpoint are merged into the cluster, then the workload is created
    /// unless it exists.
    pub fn reconcile(&self) -> (step: PathStep)
        ensures
            step@ == spec_apply_path(self),
    {
        apply_path(self)
    }

    /// Begins the cleanup path: the workload is deleted.
    pub fn cleanup(&self) -> (step: PathStep)
        ensures
            step@ == spec_cleanup_path(self),
    {
        cleanup_path(self)
    }

    /// Builds the network endpoint.
    pub fn deploy_service(&self) -> (built: Result<Service, Error>)
        ensures
            result_view(built) == spec_deploy_service(self@),
    {
        let (owner, namespace) = match self.placement() {
            Err(e) => { return Err(e); },
            Ok(placed) => placed,
        };
        let mut ports: Vec<ServicePort> = Vec::new();
        ports.push(
            ServicePort {
                name: "client".to_owned(),
                port: CLIENT_PORT,
                node_port: CLIENT_NODE_PORT,
                target_port: CLIENT_PORT,
                protocol: None,
            },
        );
        ports.push(
            ServicePort {
                name: "server".to_owned(),
                port: GAME_PORT,
                node_port: GAME_NODE_PORT,
                target_port: GAME_PORT,
                protocol: None,
            },
        );
        let service = Service {
            name: owner.name.clone(),
            namespace,
            selector: single_entry("app", owner.name.clone()),
            owner,
            service_type: ServiceType::NodePort,
            ports,
        };
        proof {
            let expected = spec_deploy_service(self@)->Ok_0;
            assert(ports_view(service.ports@) =~= expected.ports);
        }
        Ok(service)
    }

    /// Builds the configuration bundle.
    pub fn deploy_configmap(&self) -> (built: Result<ConfigMap, Error>)
        ensures
            result_view(built) == spec_deploy_configmap(self@),
    {
        let (owner, namespace) = match self.placement() {
            Err(e) => { return Err(e); },
            Ok(placed) => placed,
        };
        Ok(
            ConfigMap {
                name: owner.name.clone(),
                namespace,
                owner,
                data: single_entry("config.yaml", self.spec.config.clone()),
            },
        )
    }

    /// Builds the workload under `name` in `namespace`.
    pub fn deploy(&self, name: &str, replicas: i32, namespace: &str) -> (built: Result<
        Deployment,
        Error,
    >)
        ensures
            result_view(built) == spec_deploy(self@, name@, replicas, namespace@),
    {
        let owner = match self.metadata.owner_reference(
            QUAKE_SERVER_API_VERSION,
            QUAKE_SERVER_KIND,
        ) {
            Err(e) => { return Err(e); },
            Ok(owner) => owner,
        };
        let liveness = Probe {
            command: health_command(),
            initial_delay_seconds: 30,
            period_seconds: 10,
            failure_threshold: 1,
            success_threshold: 1,
        };
        let readiness = Probe {
            command: health_command(),
            initial_delay_seconds: 5,
            period_seconds: 3,
            failure_threshold: 3,
            success_threshold: 1,
        };
        let mut volume_mounts: Vec<VolumeMount> = Vec::new();
        volume_mounts.push(VolumeMount { name: name.to_owned(), mount_path: "/config".to_owned() });
        volume_mounts.push(
            VolumeMount { name: CONTENT_VOLUME.to_owned(), mount_path: "/assets".to_owned() },
        );
        let mut volumes: Vec<Volume> = Vec::new();
        volumes.push(
            Volume { name: name.to_owned(), source: VolumeSource::ConfigMap(name.to_owned()) },
        );
        volumes.push(Volume { name: CONTENT_VOLUME.to_owned(), source: VolumeSource::EmptyDir });
        let deployment = Deployment {
            name: name.to_owned(),
            namespace: namespace.to_owned(),
            owner,
            labels: single_entry("app", name.to_owned()),
            replicas,
            container: Container {
                name: "server".to_owned(),
                image: QUAKE_SERVER_IMAGE.to_owned(),
                command: startup_command(),
                container_port: CLIENT_PORT,
                liveness_probe: Some(liveness),
                readiness_probe: Some(readiness),
                volume_mounts,
            },
            volumes,
        };
        proof {
            let expected = spec_deploy(self@, name@, replicas, namespace@)->Ok_0;
            assert(mounts_view(deployment.container.volume_mounts@)
                =~= expected.container.volume_mounts);
            assert(volumes_view(deployment.volumes@) =~= expected.volumes);
        }
        Ok(deployment)
    }
}

impl Managed for QuakeServer {
    open spec fn spec_metadata(&self) -> MetadataView {
        self.metadata@
    }

    fn metadata(&self) -> (meta: &Metadata) {
        &self.metadata
    }

    open spec fn spec_kind() -> Seq<char> {
        QUAKE_SERVER_KIND@
    }

    fn kind() -> (kind: String) {
        QUAKE_SERVER_KIND.to_owned()
    }

    open spec fn spec_finalizer() -> Seq<char> {
        QUAKE_SERVER_FINALIZER@
    }

    fn finalizer() -> (token: String) {
        QUAKE_SERVER_FINALIZER.to_owned()
    }

    open spec fn spec_field_manager() -> Seq<char> {
        QUAKE_SERVER_FIELD_MANAGER@
    }

    fn field_manager() -> (manager: String) {
        QUAKE_SERVER_FIELD_MANAGER.to_owned()
    }

    open spec fn spec_children(&self) -> Result<Seq<ChildObjectView>, ErrorView> {
        spec_quake_server_children(self@)
    }

    fn children(&self) -> (built: Result<Vec<ChildObject>, Error>) {
        let config = match self.deploy_configmap() {
            Err(e) => { return Err(e); },
            Ok(config) => config,
        };
        let service = match self.deploy_service() {
            Err(e) => { return Err(e); },
            Ok(service) => service,
        };
        let deployment = match self.deploy(service.name.as_str(), 1, service.namespace.as_str()) {
            Err(e) => { return Err(e); },
            Ok(deployment) => deployment,
        };
        let mut children: Vec<ChildObject> = Vec::new();
        children.push(ChildObject::ConfigMap(config));
        children.push(ChildObject::Service(service));
        children.push(ChildObject::Deployment(deployment));
        proof {
            assert(children_view(children@) =~= seq![
                ChildObjectView::ConfigMap(config@),
                ChildObjectView::Service(service@),
                ChildObjectView::Deployment(deployment@),
            ]);
        }
        Ok(children)
    }
}

} // verus!
