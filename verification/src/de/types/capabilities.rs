//! The host capabilities that libvirt reports (`virsh capabilities`).

use vstd::prelude::*;

verus! {
#[derive(Debug, PartialEq)]
pub struct Capabilities {
    pub text: Option<String>,
    pub host: Host,
    pub guest: Vec<Guest>,
}

#[derive(Debug, PartialEq)]
pub struct Host {
    pub text: Option<String>,
    pub uuid: String,
    pub cpu: HostCpu,
    pub power_management: PowerManagement,
    pub iommu: Iommu,
    pub migration_features: MigrationFeatures,
    pub topology: HostTopology,
    pub cache: Cache,
    pub secmodel: Vec<Secmodel>,
}

#[derive(Debug, PartialEq)]
pub struct HostCpu {
    pub text: Option<String>,
    pub arch: String,
    pub model: String,
    pub vendor: String,
    pub microcode: Microcode,
    pub signature: Signature,
    pub topology: CpuTopology,
    pub maxphysaddr: Maxphysaddr,
    pub feature: Vec<Feature>,
    pub pages: Vec<CpuPages>,
}

#[derive(Debug, PartialEq)]
pub struct Microcode {
    pub version: String,
}

#[derive(Debug, PartialEq)]
pub struct Signature {
    pub family: String,
    pub model: String,
    pub stepping: String,
}

#[derive(Debug, PartialEq)]
pub struct CpuTopology {
    pub sockets: String,
    pub dies: String,
    pub clusters: String,
    pub cores: String,
    pub threads: String,
}

#[derive(Debug, PartialEq)]
pub struct Maxphysaddr {
    pub mode: String,
    pub bits: String,
}

#[derive(Debug, PartialEq)]
pub struct Feature {
    pub name: String,
}

#[derive(Debug, PartialEq)]
pub struct CpuPages {
    pub unit: String,
    pub size: String,
}

#[derive(Debug, PartialEq)]
pub struct PowerManagement {}

#[derive(Debug, PartialEq)]
pub struct Iommu {
    pub support: String,
}

#[derive(Debug, PartialEq)]
pub struct MigrationFeatures {
    pub text: Option<String>,
    pub live: Live,
    pub uri_transports: UriTransports,
}

#[derive(Debug, PartialEq)]
pub struct Live {}

#[derive(Debug, PartialEq)]
pub struct UriTransports {
    pub text: Option<String>,
    pub uri_transport: Vec<String>,
}

#[derive(Debug, PartialEq)]
pub struct HostTopology {
    pub text: Option<String>,
    pub cells: Cells,
}

#[derive(Debug, PartialEq)]
pub struct Cells {
    pub num: String,
    pub text: Option<String>,
    pub cell: Cell,
}

#[derive(Debug, PartialEq)]
pub struct Cell {
    pub id: String,
    pub text: Option<String>,
    pub memory: Memory,
    pub pages: Vec<CellPages>,
    pub distances: Distances,
    pub cpus: Cpus,
}

#[derive(Debug, PartialEq)]
pub struct Memory {
    pub unit: String,
    pub text: Option<String>,
}

#[derive(Debug, PartialEq)]
pub struct CellPages {
    pub unit: String,
    pub size: String,
    pub text: Option<String>,
}

#[derive(Debug, PartialEq)]
pub struct Distances {
    pub text: Option<String>,
    pub sibling: Sibling,
}

#[derive(Debug, PartialEq)]
pub struct Sibling {
    pub id: String,
    pub value: String,
}

#[derive(Debug, PartialEq)]
pub struct Cpus {
    pub num: String,
    pub text: Option<String>,
    pub cpu: Vec<CpusCpu>,
}

#[derive(Debug, PartialEq)]
pub struct CpusCpu {
    pub id: String,
    pub socket_id: String,
    pub die_id: String,
    pub cluster_id: String,
    pub core_id: String,
    pub siblings: String,
}

#[derive(Debug, PartialEq)]
pub struct Cache {
    pub text: Option<String>,
    pub bank: Vec<Bank>,
}

#[derive(Debug, PartialEq)]
pub struct Bank {
    pub id: String,
    pub level: String,
    pub bank_type: String,
    pub size: String,
    pub unit: String,
    pub cpus: String,
}

#[derive(Debug, PartialEq)]
pub struct Secmodel {
    pub text: Option<String>,
    pub model: String,
    pub doi: String,
    pub baselabel: Option<Vec<Baselabel>>,
}

#[derive(Debug, PartialEq)]
pub struct Baselabel {
    pub baselabel_type: String,
    pub text: Option<String>,
}

#[derive(Debug, PartialEq)]
pub struct Guest {
    pub text: Option<String>,
    pub os_type: String,
    pub arch: GuestArch,
    pub features: Features,
}

#[derive(Debug, PartialEq)]
pub struct GuestArch {
    pub name: String,
    pub text: Option<String>,
    pub wordsize: String,
    pub emulator: String,
    pub machine: Vec<Machine>,
    pub domain: Vec<Domain>,
}

#[derive(Debug, PartialEq)]
pub struct Machine {
    pub max_cpus: String,
    pub canonical: Option<String>,
    pub deprecated: Option<String>,
    pub text: Option<String>,
}

#[derive(Debug, PartialEq)]
pub struct Domain {
    pub domain_type: String,
}

#[derive(Debug, PartialEq)]
pub struct Features {
    pub text: Option<String>,
    pub pae: Option<Pae>,
    pub nonpae: Option<Nonpae>,
    pub acpi: Acpi,
    pub apic: Apic,
    pub cpuselection: Cpuselection,
    pub deviceboot: Deviceboot,
    pub disksnapshot: Disksnapshot,
    pub external_snapshot: ExternalSnapshot,
}

#[derive(Debug, PartialEq)]
pub struct Pae {}

#[derive(Debug, PartialEq)]
pub struct Nonpae {}

#[derive(Debug, PartialEq)]
pub struct Acpi {
    pub default: String,
    pub toggle: String,
}

#[derive(Debug, PartialEq)]
pub struct Apic {
    pub default: String,
    pub toggle: String,
}

#[derive(Debug, PartialEq)]
pub struct Cpuselection {}

#[derive(Debug, PartialEq)]
pub struct Deviceboot {}

#[derive(Debug, PartialEq)]
pub struct Disksnapshot {
    pub default: String,
    pub toggle: String,
}

#[derive(Debug, PartialEq)]
pub struct ExternalSnapshot {}

} // verus!
