//! The domain capabilities that libvirt reports (`virsh domcapabilities`).

use vstd::prelude::*;

verus! {
#[derive(Debug, PartialEq, Clone)]
pub struct DomainCapabilities {
    pub text: Option<String>,
    pub path: String,
    pub domain: String,
    pub machine: String,
    pub arch: String,
    pub vcpu: Vcpu,
    pub iothreads: Iothreads,
    pub os: Os,
    pub cpu: Cpu,
    pub memory_backing: MemoryBacking,
    pub devices: Devices,
    pub features: Features,
}

#[derive(Debug, PartialEq, Clone)]
pub struct Vcpu {
    pub max: String,
}

#[derive(Debug, PartialEq, Clone)]
pub struct Iothreads {
    pub supported: String,
}

#[derive(Debug, PartialEq, Clone)]
pub struct Os {
    pub supported: String,
    pub text: Option<String>,
    pub os_enum: OsEnum,
    pub loader: Loader,
}

#[derive(Debug, PartialEq, Clone)]
pub struct OsEnum {
    pub name: String,
    pub text: Option<String>,
    pub value: Vec<String>,
}

#[derive(Debug, PartialEq, Clone)]
pub struct Loader {
    pub supported: String,
    pub text: Option<String>,
    pub value: Vec<String>,
    pub loader_enum: Vec<LoaderEnum>,
}

#[derive(Debug, PartialEq, Clone)]
pub struct LoaderEnum {
    pub name: String,
    pub text: Option<String>,
    pub value: Vec<String>,
}

#[derive(Debug, PartialEq, Clone)]
pub struct Cpu {
    pub text: Option<String>,
    pub mode: Vec<Mode>,
}

#[derive(Debug, PartialEq, Clone)]
pub struct Mode {
    pub name: String,
    pub supported: String,
    pub text: Option<String>,
    pub mode_enum: Option<ModeEnum>,
    pub model: Option<Vec<Model>>,
    pub vendor: Option<String>,
    pub maxphysaddr: Option<Maxphysaddr>,
    pub feature: Option<Vec<ModeFeature>>,
    pub blockers: Option<Vec<Blockers>>,
}

#[derive(Debug, PartialEq, Clone)]
pub struct ModeEnum {
    pub name: String,
    pub text: Option<String>,
    pub value: Vec<String>,
}

#[derive(Debug, PartialEq, Clone)]
pub struct Model {
    pub fallback: Option<String>,
    pub canonical: Option<String>,
    pub vendor: Option<String>,
    pub usable: Option<String>,
    pub text: Option<String>,
}

#[derive(Debug, PartialEq, Clone)]
pub struct Maxphysaddr {
    pub mode: String,
    pub limit: String,
}

#[derive(Debug, PartialEq, Clone)]
pub struct ModeFeature {
    pub policy: String,
    pub name: String,
}

#[derive(Debug, PartialEq, Clone)]
pub struct Blockers {
    pub model: String,
    pub text: Option<String>,
    pub feature: Vec<BlockersFeature>,
}

#[derive(Debug, PartialEq, Clone)]
pub struct BlockersFeature {
    pub name: String,
}

#[derive(Debug, PartialEq, Clone)]
pub struct MemoryBacking {
    pub supported: String,
    pub text: Option<String>,
    pub memory_backing_enum: MemoryBackingEnum,
}

#[derive(Debug, PartialEq, Clone)]
pub struct MemoryBackingEnum {
    pub name: String,
    pub text: Option<String>,
    pub value: Vec<String>,
}

#[derive(Debug, PartialEq, Clone)]
pub struct Devices {
    pub text: Option<String>,
    pub disk: Disk,
    pub graphics: Graphics,
    pub video: Video,
    pub hostdev: Hostdev,
    pub rng: Rng,
    pub filesystem: Filesystem,
    pub tpm: Tpm,
    pub redirdev: Redirdev,
    pub channel: Channel,
    pub crypto: Crypto,
    pub interface: Interface,
    pub panic: Panic,
}

#[derive(Debug, PartialEq, Clone)]
pub struct Disk {
    pub supported: String,
    pub text: Option<String>,
    pub disk_enum: Vec<DiskEnum>,
}

#[derive(Debug, PartialEq, Clone)]
pub struct DiskEnum {
    pub name: String,
    pub text: Option<String>,
    pub value: Vec<String>,
}

#[derive(Debug, PartialEq, Clone)]
pub struct Graphics {
    pub supported: String,
    pub text: Option<String>,
    pub graphics_enum: GraphicsEnum,
}

#[derive(Debug, PartialEq, Clone)]
pub struct GraphicsEnum {
    pub name: String,
    pub text: Option<String>,
    pub value: Vec<String>,
}

#[derive(Debug, PartialEq, Clone)]
pub struct Video {
    pub supported: String,
    pub text: Option<String>,
    pub video_enum: VideoEnum,
}

#[derive(Debug, PartialEq, Clone)]
pub struct VideoEnum {
    pub name: String,
    pub text: Option<String>,
    pub value: Vec<String>,
}

#[derive(Debug, PartialEq, Clone)]
pub struct Hostdev {
    pub supported: String,
    pub text: Option<String>,
    pub hostdev_enum: Vec<HostdevEnum>,
}

#[derive(Debug, PartialEq, Clone)]
pub struct HostdevEnum {
    pub name: String,
    pub text: Option<String>,
    pub value: Option<Vec<String>>,
}

#[derive(Debug, PartialEq, Clone)]
pub struct Rng {
    pub supported: String,
    pub text: Option<String>,
    pub rng_enum: Vec<RngEnum>,
}

#[derive(Debug, PartialEq, Clone)]
pub struct RngEnum {
    pub name: String,
    pub text: Option<String>,
    pub value: Vec<String>,
}

#[derive(Debug, PartialEq, Clone)]
pub struct Filesystem {
    pub supported: String,
    pub text: Option<String>,
    pub filesystem_enum: FilesystemEnum,
}

#[derive(Debug, PartialEq, Clone)]
pub struct FilesystemEnum {
    pub name: String,
    pub text: Option<String>,
    pub value: Vec<String>,
}

#[derive(Debug, PartialEq, Clone)]
pub struct Tpm {
    pub supported: String,
    pub text: Option<String>,
    pub tpm_enum: Vec<TpmEnum>,
}

#[derive(Debug, PartialEq, Clone)]
pub struct TpmEnum {
    pub name: String,
    pub text: Option<String>,
    pub value: Vec<String>,
}

#[derive(Debug, PartialEq, Clone)]
pub struct Redirdev {
    pub supported: String,
    pub text: Option<String>,
    pub redirdev_enum: RedirdevEnum,
}

#[derive(Debug, PartialEq, Clone)]
pub struct RedirdevEnum {
    pub name: String,
    pub text: Option<String>,
    pub value: String,
}

#[derive(Debug, PartialEq, Clone)]
pub struct Channel {
    pub supported: String,
    pub text: Option<String>,
    pub channel_enum: ChannelEnum,
}

#[derive(Debug, PartialEq, Clone)]
pub struct ChannelEnum {
    pub name: String,
    pub text: Option<String>,
    pub value: Vec<String>,
}

#[derive(Debug, PartialEq, Clone)]
pub struct Crypto {
    pub supported: String,
    pub text: Option<String>,
    pub crypto_enum: Vec<CryptoEnum>,
}

#[derive(Debug, PartialEq, Clone)]
pub struct CryptoEnum {
    pub name: String,
    pub text: Option<String>,
    pub value: Vec<String>,
}

#[derive(Debug, PartialEq, Clone)]
pub struct Interface {
    pub supported: String,
    pub text: Option<String>,
    pub interface_enum: InterfaceEnum,
}

#[derive(Debug, PartialEq, Clone)]
pub struct InterfaceEnum {
    pub name: String,
    pub text: Option<String>,
    pub value: Vec<String>,
}

#[derive(Debug, PartialEq, Clone)]
pub struct Panic {
    pub supported: String,
    pub text: Option<String>,
    pub panic_enum: PanicEnum,
}

#[derive(Debug, PartialEq, Clone)]
pub struct PanicEnum {
    pub name: String,
    pub text: Option<String>,
    pub value: Vec<String>,
}

#[derive(Debug, PartialEq, Clone)]
pub struct Features {
    pub text: Option<String>,
    pub gic: Gic,
    pub vmcoreinfo: Vmcoreinfo,
    pub genid: Genid,
    pub backing_store_input: BackingStoreInput,
    pub backup: Backup,
    pub async_teardown: AsyncTeardown,
    pub ps2: Ps2,
    pub sev: Sev,
    pub sgx: Sgx,
    pub hyperv: Hyperv,
    pub launch_security: LaunchSecurity,
}

#[derive(Debug, PartialEq, Clone)]
pub struct Gic {
    pub supported: String,
}

#[derive(Debug, PartialEq, Clone)]
pub struct Vmcoreinfo {
    pub supported: String,
}

#[derive(Debug, PartialEq, Clone)]
pub struct Genid {
    pub supported: String,
}

#[derive(Debug, PartialEq, Clone)]
pub struct BackingStoreInput {
    pub supported: String,
}

#[derive(Debug, PartialEq, Clone)]
pub struct Backup {
    pub supported: String,
}

#[derive(Debug, PartialEq, Clone)]
pub struct AsyncTeardown {
    pub supported: String,
}

#[derive(Debug, PartialEq, Clone)]
pub struct Ps2 {
    pub supported: String,
}

#[derive(Debug, PartialEq, Clone)]
pub struct Sev {
    pub supported: String,
}

#[derive(Debug, PartialEq, Clone)]
pub struct Sgx {
    pub supported: String,
}

#[derive(Debug, PartialEq, Clone)]
pub struct Hyperv {
    pub supported: String,
    pub text: Option<String>,
    pub hyperv_enum: HypervEnum,
}

#[derive(Debug, PartialEq, Clone)]
pub struct HypervEnum {
    pub name: String,
    pub text: Option<String>,
    pub value: Vec<String>,
}

#[derive(Debug, PartialEq, Clone)]
pub struct LaunchSecurity {
    pub supported: String,
}

} // verus!
