//! Host CPU capability discovery for KubeVirt nodes: the libvirt data that
//! each node reports is reduced to its usable CPU models and features, and
//! the models that more than half of the nodes support are collected.

pub mod text;

pub mod archive;
pub mod cpu_caps;
pub mod de;
pub mod k8s;
