//! Child objects that a reconcile produces for a desired-state resource.
//!
//! A child is rebuilt from the resource on every reconcile and applied as a
//! whole; nothing here is ever read back from the cluster.

use crate::meta::{OwnerReference, OwnerReferenceView};
use vstd::prelude::*;

verus! {

/// The three kinds of child object the engine manages.
#[derive(Clone, Copy, Debug, PartialEq, Eq, Structural)]
pub enum ChildKind {
    Workload,
    NetworkEndpoint,
    ConfigBundle,
}

/// One entry of a label set or of a configuration bundle.
#[derive(Clone, Debug, PartialEq, Eq)]
pub struct KeyValue {
    pub key: String,
    pub value: String,
}

pub struct KeyValueView {
    pub key: Seq<char>,
    pub value: Seq<char>,
}

impl View for KeyValue {
    type V = KeyValueView;

    open spec fn view(&self) -> KeyValueView {
        KeyValueView { key: self.key@, value: self.value@ }
    }
}

/// Views of a list of entries, in order.
pub open spec fn entries_view(entries: Seq<KeyValue>) -> Seq<KeyValueView> {
    entries.map_values(|e: KeyValue| e@)
}

/// A list that holds the one entry from `key` to `value`.
pub fn single_entry(key: &str, value: String) -> (entries: Vec<KeyValue>)
    ensures
        entries_view(entries@) == seq![KeyValueView { key: key@, value: value@ }],
{
    let mut entries: Vec<KeyValue> = Vec::new();
    entries.push(KeyValue { key: key.to_owned(), value });
    assert(entries_view(entries@) =~= seq![KeyValueView { key: key@, value: value@ }]);
    entries
}

/// Configuration bundle mounted into a workload.
#[derive(Clone, Debug, PartialEq, Eq)]
pub struct ConfigMap {
    pub name: String,
    pub namespace: String,
    pub owner: OwnerReference,
    pub data: Vec<KeyValue>,
}

pub struct ConfigMapView {
    pub name: Seq<char>,
    pub namespace: Seq<char>,
    pub owner: OwnerReferenceView,
    pub data: Seq<KeyValueView>,
}

impl View for ConfigMap {
    type V = ConfigMapView;

    open spec fn view(&self) -> ConfigMapView {
        ConfigMapView {
            name: self.name@,
            namespace: self.namespace@,
            owner: self.owner@,
            data: entries_view(self.data@),
        }
    }
}

/// Transport protocol of a service port.
#[derive(Clone, Copy, Debug, PartialEq, Eq, Structural)]
pub enum Protocol {
    Tcp,
    Udp,
}

/// How a network endpoint is exposed.
#[derive(Clone, Copy, Debug, PartialEq, Eq, Structural)]
pub enum ServiceType {
    /// Reachable from outside the cluster on a fixed port of every node.
    NodePort,
}

/// One exposed port of a network endpoint.
#[derive(Clone, Debug, PartialEq, Eq)]
pub struct ServicePort {
    pub name: String,
    pub port: i32,
    /// Port on which every node of the cluster forwards to `port`.
    pub node_port: i32,
    pub target_port: i32,
    /// `None` leaves the choice to the cluster, which then takes TCP.
    pub protocol: Option<Protocol>,
}

pub struct ServicePortView {
    pub name: Seq<char>,
    pub port: i32,
    pub node_port: i32,
    pub target_port: i32,
    pub protocol: Option<Protocol>,
}

impl View for ServicePort {
    type V = ServicePortView;

    open spec fn view(&self) -> ServicePortView {
        ServicePortView {
            name: self.name@,
            port: self.port,
            node_port: self.node_port,
            target_port: self.target_port,
            protocol: self.protocol,
        }
    }
}

/// Views of a list of ports, in order.
pub open spec fn ports_view(ports: Seq<ServicePort>) -> Seq<ServicePortView> {
    ports.map_values(|p: ServicePort| p@)
}

/// Network endpoint in front of a workload.
#[derive(Clone, Debug, PartialEq, Eq)]
pub struct Service {
    pub name: String,
    pub namespace: String,
    pub owner: OwnerReference,
    pub service_type: ServiceType,
    /// Labels that select the pods behind the endpoint.
    pub selector: Vec<KeyValue>,
    pub ports: Vec<ServicePort>,
}

pub struct ServiceView {
    pub name: Seq<char>,
    pub namespace: Seq<char>,
    pub owner: OwnerReferenceView,
    pub service_type: ServiceType,
    pub selector: Seq<KeyValueView>,
    pub ports: Seq<ServicePortView>,
}

impl View for Service {
    type V = ServiceView;

    open spec fn view(&self) -> ServiceView {
        ServiceView {
            name: self.name@,
            namespace: self.namespace@,
            owner: self.owner@,
            service_type: self.service_type,
            selector: entries_view(self.selector@),
            ports: ports_view(self.ports@),
        }
    }
}

/// Health check that runs a command inside the container.
#[derive(Clone, Debug, PartialEq, Eq)]
pub struct Probe {
    pub command: Vec<String>,
    pub initial_delay_seconds: i32,
    pub period_seconds: i32,
    pub failure_threshold: i32,
    pub success_threshold: i32,
}

pub struct ProbeView {
    pub command: Seq<Seq<char>>,
    pub initial_delay_seconds: i32,
    pub period_seconds: i32,
    pub failure_threshold: i32,
    pub success_threshold: i32,
}

impl View for Probe {
    type V = ProbeView;

    open spec fn view(&self) -> ProbeView {
        ProbeView {
            command: self.command.deep_view(),
            initial_delay_seconds: self.initial_delay_seconds,
            period_seconds: self.period_seconds,
            failure_threshold: self.failure_threshold,
            success_threshold: self.success_threshold,
        }
    }
}

pub open spec fn probe_option_view(probe: Option<Probe>) -> Option<ProbeView> {
    match probe {
        Some(p) => Some(p@),
        None => None,
    }
}

/// Where a container sees a volume of its pod.
#[derive(Clone, Debug, PartialEq, Eq)]
pub struct VolumeMount {
    pub name: String,
    pub mount_path: String,
}

pub struct VolumeMountView {
    pub name: Seq<char>,
    pub mount_path: Seq<char>,
}

impl View for VolumeMount {
    type V = VolumeMountView;

    open spec fn view(&self) -> VolumeMountView {
        VolumeMountView { name: self.name@, mount_path: self.mount_path@ }
    }
}

/// Views of a list of mounts, in order.
pub open spec fn mounts_view(mounts: Seq<VolumeMount>) -> Seq<VolumeMountView> {
    mounts.map_values(|m: VolumeMount| m@)
}

/// What backs a volume.
#[derive(Clone, Debug, PartialEq, Eq)]
pub enum VolumeSource {
    /// The configuration bundle of this name.
    ConfigMap(String),
    /// Scratch space that lives as long as the pod.
    EmptyDir,
}

pub enum VolumeSourceView {
    ConfigMap(Seq<char>),
    EmptyDir,
}

impl View for VolumeSource {
    type V = VolumeSourceView;

    open spec fn view(&self) -> VolumeSourceView {
        match self {
            VolumeSource::ConfigMap(name) => VolumeSourceView::ConfigMap(name@),
            VolumeSource::EmptyDir => VolumeSourceView::EmptyDir,
        }
    }
}

/// A volume of a pod.
#[derive(Clone, Debug, PartialEq, Eq)]
pub struct Volume {
    pub name: String,
    pub source: VolumeSource,
}

pub struct VolumeView {
    pub name: Seq<char>,
    pub source: VolumeSourceView,
}

impl View for Volume {
    type V = VolumeView;

    open spec fn view(&self) -> VolumeView {
        VolumeView { name: self.name@, source: self.source@ }
    }
}

/// Views of a list of volumes, in order.
pub open spec fn volumes_view(volumes: Seq<Volume>) -> Seq<VolumeView> {
    volumes.map_values(|v: Volume| v@)
}

/// The single container of a workload's pod.
#[derive(Clone, Debug, PartialEq, Eq)]
pub struct Container {
    pub name: String,
    pub image: String,
    /// Startup command; empty to run the image's own entry point.
    pub command: Vec<String>,
    pub container_port: i32,
    pub liveness_probe: Option<Probe>,
    pub readiness_probe: Option<Probe>,
    pub volume_mounts: Vec<VolumeMount>,
}

pub struct ContainerView {
    pub name: Seq<char>,
    pub image: Seq<char>,
    pub command: Seq<Seq<char>>,
    pub container_port: i32,
    pub liveness_probe: Option<ProbeView>,
    pub readiness_probe: Option<ProbeView>,
    pub volume_mounts: Seq<VolumeMountView>,
}

impl View for Container {
    type V = ContainerView;

    open spec fn view(&self) -> ContainerView {
        ContainerView {
            name: self.name@,
            image: self.image@,
            command: self.command.deep_view(),
            container_port: self.container_port,
            liveness_probe: probe_option_view(self.liveness_probe),
            readiness_probe: probe_option_view(self.readiness_probe),
            volume_mounts: mounts_view(self.volume_mounts@),
        }
    }
}

/// Workload that runs the pods of a resource.
#[derive(Clone, Debug, PartialEq, Eq)]
pub struct Deployment {
    pub name: String,
    pub namespace: String,
    pub owner: OwnerReference,
    /// Labels of the workload, of its pods, and of its pod selector.
    pub labels: Vec<KeyValue>,
    pub replicas: i32,
    pub container: Container,
    pub volumes: Vec<Volume>,
}

pub struct DeploymentView {
    pub name: Seq<char>,
    pub namespace: Seq<char>,
    pub owner: OwnerReferenceView,
    pub labels: Seq<KeyValueView>,
    pub replicas: i32,
    pub container: ContainerView,
    pub volumes: Seq<VolumeView>,
}

impl View for Deployment {
    type V = DeploymentView;

    open spec fn view(&self) -> DeploymentView {
        DeploymentView {
            name: self.name@,
            namespace: self.namespace@,
            owner: self.owner@,
            labels: entries_view(self.labels@),
            replicas: self.replicas,
            container: self.container@,
            volumes: volumes_view(self.volumes@),
        }
    }
}

/// A child object, ready to be applied.
#[derive(Clone, Debug, PartialEq, Eq)]
pub enum ChildObject {
    ConfigMap(ConfigMap),
    Service(Service),
    Deployment(Deployment),
}

pub enum ChildObjectView {
    ConfigMap(ConfigMapView),
    Service(ServiceView),
    Deployment(DeploymentView),
}

impl ChildObjectView {
    pub open spec fn kind(self) -> ChildKind {
        match self {
            ChildObjectView::ConfigMap(_) => ChildKind::ConfigBundle,
            ChildObjectView::Service(_) => ChildKind::NetworkEndpoint,
            ChildObjectView::Deployment(_) => ChildKind::Workload,
        }
    }

    pub open spec fn name(self) -> Seq<char> {
        match self {
            ChildObjectView::ConfigMap(c) => c.name,
            ChildObjectView::Service(s) => s.name,
            ChildObjectView::Deployment(d) => d.name,
        }
    }

    pub open spec fn namespace(self) -> Seq<char> {
        match self {
            ChildObjectView::ConfigMap(c) => c.namespace,
            ChildObjectView::Service(s) => s.namespace,
            ChildObjectView::Deployment(d) => d.namespace,
        }
    }

    pub open spec fn owner(self) -> OwnerReferenceView {
        match self {
            ChildObjectView::ConfigMap(c) => c.owner,
            ChildObjectView::Service(s) => s.owner,
            ChildObjectView::Deployment(d) => d.owner,
        }
    }
}

impl View for ChildObject {
    type V = ChildObjectView;

    open spec fn view(&self) -> ChildObjectView {
        match self {
            ChildObject::ConfigMap(c) => ChildObjectView::ConfigMap(c@),
            ChildObject::Service(s) => ChildObjectView::Service(s@),
            ChildObject::Deployment(d) => ChildObjectView::Deployment(d@),
        }
    }
}

impl ChildObject {
    pub fn kind(&self) -> (kind: ChildKind)
        ensures
            kind == self@.kind(),
    {
        match self {
            ChildObject::ConfigMap(_) => ChildKind::ConfigBundle,
            ChildObject::Service(_) => ChildKind::NetworkEndpoint,
            ChildObject::Deployment(_) => ChildKind::Workload,
        }
    }

    pub fn name(&self) -> (name: String)
        ensures
            name@ == self@.name(),
    {
        match self {
            ChildObject::ConfigMap(c) => c.name.clone(),
            ChildObject::Service(s) => s.name.clone(),
            ChildObject::Deployment(d) => d.name.clone(),
        }
    }

    pub fn namespace(&self) -> (namespace: String)
        ensures
            namespace@ == self@.namespace(),
    {
        match self {
            ChildObject::ConfigMap(c) => c.namespace.clone(),
            ChildObject::Service(s) => s.namespace.clone(),
            ChildObject::Deployment(d) => d.namespace.clone(),
        }
    }
}

/// Views of a list of children, in order.
pub open spec fn children_view(children: Seq<ChildObject>) -> Seq<ChildObjectView> {
    children.map_values(|c: ChildObject| c@)
}

} // verus!
