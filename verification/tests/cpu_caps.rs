use cpucaps::cpu_caps::types::{HostCpuModel, LibvirtData, NodeCaps};
use cpucaps::cpu_caps::{compute, compute_from_nodes, is_obsolete_model, CpuCaps};
use cpucaps::de::types::capabilities as caps;
use cpucaps::de::types::supported_features as sf;
use cpucaps::de::types::virsh_domcapabilities as dc;

fn s(v: &str) -> String {
    v.to_string()
}

fn model(name: &str, usable: Option<&str>) -> dc::Model {
    dc::Model {
        fallback: None,
        canonical: None,
        vendor: Some(s("AMD")),
        usable: usable.map(s),
        text: Some(s(name)),
    }
}

fn mode_feature(policy: &str, name: &str) -> dc::ModeFeature {
    dc::ModeFeature { policy: s(policy), name: s(name) }
}

fn mode(name: &str) -> dc::Mode {
    dc::Mode {
        name: s(name),
        supported: s("yes"),
        text: None,
        mode_enum: None,
        model: None,
        vendor: None,
        maxphysaddr: None,
        feature: None,
        blockers: None,
    }
}

fn named(name: &str) -> dc::Vcpu {
    dc::Vcpu { max: s(name) }
}

fn values(name: &str) -> (String, Option<String>, Vec<String>) {
    (s(name), None, vec![s("a"), s("b")])
}

fn domcaps_with(modes: Vec<dc::Mode>) -> dc::DomainCapabilities {
    let (n, t, v) = values("x");
    dc::DomainCapabilities {
        text: None,
        path: s("/usr/bin/qemu-system-x86_64"),
        domain: s("kvm"),
        machine: s("pc-q35-9.2"),
        arch: s("x86_64"),
        vcpu: named("4096"),
        iothreads: dc::Iothreads { supported: s("yes") },
        os: dc::Os {
            supported: s("yes"),
            text: None,
            os_enum: dc::OsEnum { name: n.clone(), text: t.clone(), value: v.clone() },
            loader: dc::Loader { supported: s("yes"), text: None, value: v.clone(), loader_enum: vec![] },
        },
        cpu: dc::Cpu { text: None, mode: modes },
        memory_backing: dc::MemoryBacking {
            supported: s("yes"),
            text: None,
            memory_backing_enum: dc::MemoryBackingEnum { name: n.clone(), text: None, value: v.clone() },
        },
        devices: dc::Devices {
            text: None,
            disk: dc::Disk { supported: s("yes"), text: None, disk_enum: vec![] },
            graphics: dc::Graphics {
                supported: s("yes"),
                text: None,
                graphics_enum: dc::GraphicsEnum { name: n.clone(), text: None, value: v.clone() },
            },
            video: dc::Video {
                supported: s("yes"),
                text: None,
                video_enum: dc::VideoEnum { name: n.clone(), text: None, value: v.clone() },
            },
            hostdev: dc::Hostdev { supported: s("yes"), text: None, hostdev_enum: vec![] },
            rng: dc::Rng { supported: s("yes"), text: None, rng_enum: vec![] },
            filesystem: dc::Filesystem {
                supported: s("yes"),
                text: None,
                filesystem_enum: dc::FilesystemEnum { name: n.clone(), text: None, value: v.clone() },
            },
            tpm: dc::Tpm { supported: s("yes"), text: None, tpm_enum: vec![] },
            redirdev: dc::Redirdev {
                supported: s("yes"),
                text: None,
                redirdev_enum: dc::RedirdevEnum { name: n.clone(), text: None, value: s("usb") },
            },
            channel: dc::Channel {
                supported: s("yes"),
                text: None,
                channel_enum: dc::ChannelEnum { name: n.clone(), text: None, value: v.clone() },
            },
            crypto: dc::Crypto { supported: s("yes"), text: None, crypto_enum: vec![] },
            interface: dc::Interface {
                supported: s("yes"),
                text: None,
                interface_enum: dc::InterfaceEnum { name: n.clone(), text: None, value: v.clone() },
            },
            panic: dc::Panic {
                supported: s("yes"),
                text: None,
                panic_enum: dc::PanicEnum { name: n.clone(), text: None, value: v.clone() },
            },
        },
        features: dc::Features {
            text: None,
            gic: dc::Gic { supported: s("no") },
            vmcoreinfo: dc::Vmcoreinfo { supported: s("yes") },
            genid: dc::Genid { supported: s("yes") },
            backing_store_input: dc::BackingStoreInput { supported: s("yes") },
            backup: dc::Backup { supported: s("yes") },
            async_teardown: dc::AsyncTeardown { supported: s("yes") },
            ps2: dc::Ps2 { supported: s("yes") },
            sev: dc::Sev { supported: s("no") },
            sgx: dc::Sgx { supported: s("no") },
            hyperv: dc::Hyperv {
                supported: s("yes"),
                text: None,
                hyperv_enum: dc::HypervEnum { name: n, text: t, value: v },
            },
            launch_security: dc::LaunchSecurity { supported: s("no") },
        },
    }
}

/// The domain capabilities of the sample node: a `host-model` mode for
/// EPYC-Genoa by AMD and a `custom` mode whose models are usable or not.
fn sample_domcaps() -> dc::DomainCapabilities {
    let mut host_model = mode("host-model");
    host_model.model = Some(vec![dc::Model {
        fallback: Some(s("forbid")),
        canonical: None,
        vendor: None,
        usable: None,
        text: Some(s("EPYC-Genoa")),
    }]);
    host_model.vendor = Some(s("AMD"));
    let mut features = Vec::new();
    let disabled = ["pcid", "la57", "vnmi", "auto-ibrs"];
    for (i, name) in expected_host_required_features().iter().enumerate() {
        features.push(mode_feature("require", name));
        if i % 7 == 3 {
            features.push(mode_feature("disable", disabled[i / 7]));
        }
    }
    host_model.feature = Some(features);

    let mut custom = mode("custom");
    let mut models = Vec::new();
    for name in expected_supported_models() {
        models.push(model(name, Some("yes")));
        if name == "EPYC" {
            models.push(model("EPYC-Genoa", Some("no")));
            models.push(model("qemu64", Some("yes")));
        }
        if name == "Nehalem" {
            models.push(model("Cascadelake-Server", Some("no")));
            models.push(model("kvm64-v1", Some("yes")));
            models.push(model("486", Some("yes")));
        }
    }
    models.push(model("Skylake-Server", None));
    models.push(dc::Model { fallback: None, canonical: None, vendor: None, usable: Some(s("yes")), text: None });
    custom.model = Some(models);

    domcaps_with(vec![mode("host-passthrough"), mode("maximum"), host_model, custom])
}

/// The host CPU definition of the sample node: every expected feature
/// required, and four disabled ones.
fn sample_cpu() -> sf::Cpu {
    let mut feature = Vec::new();
    for name in expected_supported_features() {
        feature.push(sf::Feature { policy: s("require"), name: s(name) });
        if name == "lm" {
            feature.push(sf::Feature { policy: s("disable"), name: s("pcid") });
        }
        if name == "x2apic" {
            feature.push(sf::Feature { policy: s("disable"), name: s("la57") });
            feature.push(sf::Feature { policy: s("disable"), name: s("vnmi") });
            feature.push(sf::Feature { policy: s("disable"), name: s("auto-ibrs") });
        }
    }
    sf::Cpu {
        mode: s("custom"),
        cpu_match: s("exact"),
        text: None,
        model: sf::Model { fallback: s("forbid"), text: Some(s("EPYC-Genoa")) },
        vendor: s("AMD"),
        maxphysaddr: sf::Maxphysaddr { mode: s("passthrough"), limit: s("48") },
        feature,
    }
}

fn sample_caps() -> caps::Capabilities {
    caps::Capabilities {
        text: None,
        host: caps::Host {
            text: None,
            uuid: s("c8710b37-a445-4fc3-bb74-1917f4ef973e"),
            cpu: caps::HostCpu {
                text: None,
                arch: s("x86_64"),
                model: s("EPYC-Rome-v3"),
                vendor: s("AMD"),
                microcode: caps::Microcode { version: s("1") },
                signature: caps::Signature { family: s("23"), model: s("49"), stepping: s("0") },
                topology: caps::CpuTopology {
                    sockets: s("8"),
                    dies: s("1"),
                    clusters: s("1"),
                    cores: s("1"),
                    threads: s("1"),
                },
                maxphysaddr: caps::Maxphysaddr { mode: s("emulate"), bits: s("40") },
                feature: vec![caps::Feature { name: s("ht") }],
                pages: vec![caps::CpuPages { unit: s("KiB"), size: s("4") }],
            },
            power_management: caps::PowerManagement {},
            iommu: caps::Iommu { support: s("no") },
            migration_features: caps::MigrationFeatures {
                text: None,
                live: caps::Live {},
                uri_transports: caps::UriTransports { text: None, uri_transport: vec![s("tcp")] },
            },
            topology: caps::HostTopology {
                text: None,
                cells: caps::Cells {
                    num: s("1"),
                    text: None,
                    cell: caps::Cell {
                        id: s("0"),
                        text: None,
                        memory: caps::Memory { unit: s("KiB"), text: Some(s("1024")) },
                        pages: vec![],
                        distances: caps::Distances {
                            text: None,
                            sibling: caps::Sibling { id: s("0"), value: s("10") },
                        },
                        cpus: caps::Cpus { num: s("0"), text: None, cpu: vec![] },
                    },
                },
            },
            cache: caps::Cache { text: None, bank: vec![] },
            secmodel: vec![],
        },
        guest: vec![],
    }
}

fn strings(v: &[&str]) -> Vec<String> {
    v.iter().map(|x| x.to_string()).collect()
}

#[test]
fn test_compute_one_node() {
    let domcaps = sample_domcaps();
    let caps = sample_caps();
    let cpu = sample_cpu();
    let node_names = vec!["isim-dev"];
    let virsh_version = r#"Compiled against library: libvirt 11.0.0
Using library: libvirt 11.0.0
Using API: QEMU 11.0.0
"#;
    let virt_launcher_version = "1.6.3";
    let mut cpu_caps = compute(node_names, &caps, &domcaps, &cpu, virsh_version, virt_launcher_version);

    let mut expected_supported_models = expected_supported_models();
    let mut expected_supported_features = expected_supported_features();
    let expected_host_cpu_model = HostCpuModel::new(&domcaps);
    expected_supported_features.sort();
    expected_supported_models.sort();

    let node_caps = cpu_caps.nodes_caps.last().unwrap();
    assert_eq!(node_caps.node_name, "isim-dev");
    assert_eq!(node_caps.host_cpu_model, expected_host_cpu_model);
    assert_eq!(node_caps.supported_features, expected_supported_features);
    assert_eq!(node_caps.supported_models, expected_supported_models);
    assert_eq!(node_caps.virsh_version, virsh_version);
    assert_eq!(node_caps.virt_launcher_image, virt_launcher_version);

    cpu_caps.global_caps.sort();
    assert_eq!(cpu_caps.global_caps, expected_supported_models);
}

#[test]
fn cpu_caps_test_supported_models() {
    let domcaps = sample_domcaps();
    let expected = expected_supported_models();
    let actual = NodeCaps::supported_models(&domcaps);
    assert_eq!(actual.len(), 36);
    assert_eq!(expected, actual);
}

#[test]
fn cpu_caps_test_supported_features() {
    let cpus = sample_cpu();
    let expected = expected_supported_features();
    let actual = NodeCaps::supported_features(&cpus);
    assert_eq!(actual.len(), 129);
    assert_eq!(expected, actual);
}

#[test]
fn cpu_caps_test_host_model_name_and_vendor() {
    let domcaps = sample_domcaps();
    let host_cpu_model = HostCpuModel::new(&domcaps);
    assert_eq!(host_cpu_model.name, "EPYC-Genoa");
    assert_eq!(host_cpu_model.vendor, "AMD");
}

#[test]
fn cpu_caps_test_host_model_required_features() {
    let domcaps = sample_domcaps();
    let expected = expected_host_required_features();
    let actual = HostCpuModel::required_features(&domcaps);
    assert_eq!(actual.len(), 25);
    assert_eq!(expected, actual);
}

#[test]
fn types_test_supported_models() {
    let domcaps = sample_domcaps();
    let expected = expected_supported_models();
    let actual = NodeCaps::supported_models(&domcaps);
    assert_eq!(actual.len(), 36);
    assert_eq!(expected, actual);
}

#[test]
fn types_test_supported_features() {
    let cpus = sample_cpu();
    let expected = expected_supported_features();
    let actual = NodeCaps::supported_features(&cpus);
    assert_eq!(actual.len(), 129);
    assert_eq!(expected, actual);
}

#[test]
fn types_test_host_model_name_and_vendor() {
    let domcaps = sample_domcaps();
    let host_cpu_model = HostCpuModel::new(&domcaps);
    assert_eq!(host_cpu_model.name, "EPYC-Genoa");
    assert_eq!(host_cpu_model.vendor, "AMD");
}

#[test]
fn types_test_host_model_required_features() {
    let domcaps = sample_domcaps();
    let expected = expected_host_required_features();
    let actual = HostCpuModel::required_features(&domcaps);
    assert_eq!(actual.len(), 25);
    assert_eq!(expected, actual);
}

#[test]
fn host_model_absent_gives_empty_model() {
    let domcaps = domcaps_with(vec![mode("host-passthrough"), mode("custom")]);
    let host = HostCpuModel::new(&domcaps);
    assert_eq!(host.name, "");
    assert_eq!(host.vendor, "");
    assert!(host.required_features.is_empty());
}

#[test]
fn host_model_without_models_or_vendor() {
    let mut first = mode("host-model");
    first.feature = Some(vec![mode_feature("require", "x2apic"), mode_feature("disable", "pcid")]);
    let mut second = mode("host-model");
    second.model = Some(vec![model("EPYC", Some("yes"))]);
    second.vendor = Some(s("AMD"));
    let domcaps = domcaps_with(vec![first, second]);
    let host = HostCpuModel::new(&domcaps);
    assert_eq!(host.name, "");
    assert_eq!(host.vendor, "");
    assert_eq!(host.required_features, strings(&["x2apic"]));
}

#[test]
fn obsolete_models_are_recognised() {
    for name in ["486", "pentium3-v1", "Conroe", "qemu64", "kvm32-v1", "Opteron_G2-v1"] {
        assert!(is_obsolete_model(name), "{}", name);
    }
    for name in ["", "EPYC", "Opteron_G3", "qemu", "Opteron_G1-v2", "conroe"] {
        assert!(!is_obsolete_model(name), "{}", name);
    }
}

#[test]
fn supported_models_skip_modes_without_models_and_keep_duplicates() {
    let mut a = mode("custom");
    a.model = Some(vec![model("EPYC", Some("yes")), model("Penryn", Some("no"))]);
    let mut b = mode("other");
    b.model = Some(vec![model("EPYC", Some("yes")), model("Westmere", Some("yes"))]);
    let domcaps = domcaps_with(vec![a, mode("host-passthrough"), b]);
    assert_eq!(NodeCaps::supported_models(&domcaps), strings(&["EPYC", "EPYC", "Westmere"]));
}

#[test]
fn compute_keeps_a_model_listed_twice_global() {
    let mut a = mode("custom");
    a.model = Some(vec![model("EPYC", Some("yes")), model("Penryn", Some("yes"))]);
    let mut b = mode("other");
    b.model = Some(vec![model("EPYC", Some("yes"))]);
    let domcaps = domcaps_with(vec![a, b]);
    let caps = sample_caps();
    let cpu = sample_cpu();
    let result = compute(vec!["n1", "n2"], &caps, &domcaps, &cpu, "v", "img");
    assert_eq!(result.nodes_caps.len(), 2);
    assert_eq!(result.nodes_caps[0].node_name, "n1");
    assert_eq!(result.nodes_caps[1].node_name, "n2");
    let mut global = result.global_caps.clone();
    global.sort();
    assert_eq!(global, strings(&["EPYC", "Penryn"]));
}

#[test]
fn compute_without_nodes_has_no_global_models() {
    let caps = sample_caps();
    let result = compute(vec![], &caps, &sample_domcaps(), &sample_cpu(), "v", "img");
    assert_eq!(result, CpuCaps { global_caps: vec![], nodes_caps: vec![] });
}

fn node_data(name: &str, model_names: &[&str]) -> LibvirtData {
    let mut custom = mode("custom");
    custom.model = Some(model_names.iter().map(|m| model(m, Some("yes"))).collect());
    LibvirtData {
        _caps: sample_caps(),
        domcaps: domcaps_with(vec![custom]),
        cpu: sample_cpu(),
        node_name: s(name),
        virsh_version: s("libvirt 11.0.0"),
        virt_launcher_image: s("quay.io/kubevirt/virt-launcher:v1.7.1"),
    }
}

#[test]
fn global_models_are_those_of_more_than_half_the_nodes() {
    let data = vec![
        node_data("a", &["EPYC", "Penryn", "Westmere"]),
        node_data("b", &["Westmere", "EPYC", "Nehalem", "Nehalem"]),
        node_data("c", &["EPYC", "Nehalem", "Westmere", "qemu64"]),
    ];
    let mut result = compute_from_nodes(&data);
    result.global_caps.sort();
    assert_eq!(result.global_caps, strings(&["EPYC", "Nehalem", "Westmere"]));
    assert_eq!(result.nodes_caps.len(), 3);
    assert_eq!(result.nodes_caps[2].node_name, "c");
    assert_eq!(result.nodes_caps[2].supported_models, strings(&["EPYC", "Nehalem", "Westmere"]));
    assert_eq!(result.nodes_caps[1].virt_launcher_image, "quay.io/kubevirt/virt-launcher:v1.7.1");
    assert_eq!(result.nodes_caps[0].virsh_version, "libvirt 11.0.0");
}

#[test]
fn half_of_the_nodes_is_not_enough() {
    let data = vec![
        node_data("a", &["EPYC", "Penryn"]),
        node_data("b", &["EPYC", "Penryn"]),
        node_data("c", &["EPYC"]),
        node_data("d", &["Westmere"]),
    ];
    let result = compute_from_nodes(&data);
    assert_eq!(result.global_caps, strings(&["EPYC"]));
    assert!(compute_from_nodes(&vec![]).global_caps.is_empty());
}

#[test]
fn host_model_mode_gives_no_supported_models() {
    let mut host_model = mode("host-model");
    host_model.model = Some(vec![model("EPYC-Genoa", Some("yes"))]);
    let mut custom = mode("custom");
    custom.model = Some(vec![model("EPYC", Some("yes"))]);
    let domcaps = domcaps_with(vec![host_model, custom]);
    assert_eq!(NodeCaps::supported_models(&domcaps), strings(&["EPYC"]));
    assert_eq!(HostCpuModel::new(&domcaps).name, "EPYC-Genoa");
}

#[test]
fn node_caps_new_reads_the_node_data() {
    let data = node_data("isim-dev", &["EPYC", "486"]);
    let caps = NodeCaps::new(&data);
    assert_eq!(caps.node_name, "isim-dev");
    assert_eq!(caps.supported_models, strings(&["EPYC"]));
    assert_eq!(caps.supported_features.len(), 129);
    assert_eq!(caps.host_cpu_model.name, "");
}

fn expected_supported_models() -> Vec<&'static str> {
    vec![
        "Denverton-v2",
        "Denverton-v3",
        "Dhyana",
        "Dhyana-v1",
        "Dhyana-v2",
        "EPYC",
        "EPYC-IBPB",
        "EPYC-Rome",
        "EPYC-Rome-v1",
        "EPYC-Rome-v2",
        "EPYC-Rome-v3",
        "EPYC-Rome-v4",
        "EPYC-v1",
        "EPYC-v2",
        "EPYC-v3",
        "EPYC-v4",
        "IvyBridge",
        "IvyBridge-IBRS",
        "IvyBridge-v1",
        "IvyBridge-v2",
        "Nehalem",
        "Nehalem-IBRS",
        "Nehalem-v1",
        "Nehalem-v2",
        "Opteron_G3",
        "Opteron_G3-v1",
        "Penryn",
        "Penryn-v1",
        "SandyBridge",
        "SandyBridge-IBRS",
        "SandyBridge-v1",
        "SandyBridge-v2",
        "Westmere",
        "Westmere-IBRS",
        "Westmere-v1",
        "Westmere-v2",
    ]
}

fn expected_supported_features() -> Vec<&'static str> {
    vec![
        "3dnowprefetch",
        "abm",
        "adx",
        "aes",
        "amd-psfd",
        "amd-ssbd",
        "amd-stibp",
        "apic",
        "arat",
        "arch-capabilities",
        "avx",
        "avx2",
        "avx512-bf16",
        "avx512-vpopcntdq",
        "avx512bitalg",
        "avx512bw",
        "avx512cd",
        "avx512dq",
        "avx512f",
        "avx512ifma",
        "avx512vbmi",
        "avx512vbmi2",
        "avx512vl",
        "avx512vnni",
        "bmi1",
        "bmi2",
        "clflush",
        "clflushopt",
        "clwb",
        "clzero",
        "cmov",
        "cmp_legacy",
        "cr8legacy",
        "cx16",
        "cx8",
        "de",
        "erms",
        "f16c",
        "flushbyasid",
        "fma",
        "fpu",
        "fsgsbase",
        "fsrm",
        "fxsr",
        "fxsr_opt",
        "gds-no",
        "gfni",
        "hypervisor",
        "ibpb",
        "ibrs",
        "invpcid",
        "lahf_lm",
        "lbrv",
        "lfence-always-serializing",
        "lm",
        "mca",
        "mce",
        "mds-no",
        "misalignsse",
        "mmx",
        "mmxext",
        "movbe",
        "msr",
        "mtrr",
        "no-nested-data-bp",
        "npt",
        "nrip-save",
        "null-sel-clr-base",
        "nx",
        "osvw",
        "overflow-recov",
        "pae",
        "pat",
        "pause-filter",
        "pclmuldq",
        "pdpe1gb",
        "perfctr_core",
        "pfthreshold",
        "pge",
        "pku",
        "pni",
        "popcnt",
        "pschange-mc-no",
        "pse",
        "pse36",
        "rdctl-no",
        "rdpid",
        "rdrand",
        "rdseed",
        "rdtscp",
        "rfds-no",
        "sep",
        "sha-ni",
        "skip-l1dfl-vmentry",
        "smap",
        "smep",
        "spec-ctrl",
        "ssbd",
        "sse",
        "sse2",
        "sse4.1",
        "sse4.2",
        "sse4a",
        "ssse3",
        "stibp",
        "stibp-always-on",
        "succor",
        "svm",
        "svme-addr-chk",
        "syscall",
        "tsc",
        "tsc-deadline",
        "tsc-scale",
        "tsc_adjust",
        "umip",
        "vaes",
        "vgif",
        "virt-ssbd",
        "vmcb-clean",
        "vme",
        "vpclmulqdq",
        "wbnoinvd",
        "x2apic",
        "xgetbv1",
        "xsave",
        "xsavec",
        "xsaveerptr",
        "xsaveopt",
        "xsaves",
    ]
}

fn expected_host_required_features() -> Vec<&'static str> {
    vec![
        "x2apic",
        "tsc-deadline",
        "hypervisor",
        "tsc_adjust",
        "spec-ctrl",
        "stibp",
        "arch-capabilities",
        "ssbd",
        "cmp_legacy",
        "overflow-recov",
        "succor",
        "virt-ssbd",
        "lbrv",
        "tsc-scale",
        "vmcb-clean",
        "flushbyasid",
        "pause-filter",
        "pfthreshold",
        "vgif",
        "rdctl-no",
        "skip-l1dfl-vmentry",
        "mds-no",
        "pschange-mc-no",
        "gds-no",
        "rfds-no",
    ]
}
