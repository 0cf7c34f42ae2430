//! One module per libvirt document.

pub mod capabilities;
pub mod supported_features;
pub mod virsh_domcapabilities;
