//! The host CPU definition with the features that the hypervisor supports.

use vstd::prelude::*;

verus! {
#[derive(Debug, PartialEq, Clone, Default)]
pub struct Cpu {
    pub mode: String,
    pub cpu_match: String,
    pub text: Option<String>,
    pub model: Model,
    pub vendor: String,
    pub maxphysaddr: Maxphysaddr,
    pub feature: Vec<Feature>,
}

#[derive(Debug, PartialEq, Clone, Default)]
pub struct Model {
    pub fallback: String,
    pub text: Option<String>,
}

#[derive(Debug, PartialEq, Clone, Default)]
pub struct Maxphysaddr {
    pub mode: String,
    pub limit: String,
}

#[derive(Debug, PartialEq, Clone, Default)]
pub struct Feature {
    pub policy: String,
    pub name: String,
}

} // verus!
