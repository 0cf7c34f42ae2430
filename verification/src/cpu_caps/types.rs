//! What one node reports, and the capabilities derived from it.

use crate::cpu_caps::{is_obsolete_cpu_model, is_obsolete_model};
use crate::de::types::capabilities::Capabilities;
use crate::de::types::supported_features::{Cpu, Feature};
use crate::de::types::virsh_domcapabilities::{DomainCapabilities, Mode, ModeFeature, Model};
use crate::text::str_eq;
use vstd::prelude::*;

verus! {

/// The libvirt documents and versions collected from one node.
pub struct LibvirtData {
    pub _caps: Capabilities,
    pub domcaps: DomainCapabilities,
    pub cpu: Cpu,
    pub node_name: String,
    pub virsh_version: String,
    pub virt_launcher_image: String,
}

/// The CPU capabilities of one node.
#[derive(Clone, Debug, PartialEq)]
pub struct NodeCaps {
    pub node_name: String,
    pub host_cpu_model: HostCpuModel,
    pub supported_features: Vec<String>,
    pub supported_models: Vec<String>,
    pub virsh_version: String,
    pub virt_launcher_image: String,
}

/// The CPU model that libvirt's `host-model` mode reports for a node.
#[derive(Clone, Debug, PartialEq)]
pub struct HostCpuModel {
    pub name: String,
    pub vendor: String,
    pub required_features: Vec<String>,
}

/// The names of the features whose policy is `require`, in their order.
pub open spec fn required_cpu_features(features: Seq<Feature>) -> Seq<Seq<char>>
    decreases features.len(),
{
    if features.len() == 0 {
        seq![]
    } else {
        let earlier = required_cpu_features(features.drop_last());
        if features.last().policy@ == "require"@ {
            earlier.push(features.last().name@)
        } else {
            earlier
        }
    }
}

/// The names of the mode features whose policy is `require`, in their order.
pub open spec fn required_mode_features(features: Seq<ModeFeature>) -> Seq<Seq<char>>
    decreases features.len(),
{
    if features.len() == 0 {
        seq![]
    } else {
        let earlier = required_mode_features(features.drop_last());
        if features.last().policy@ == "require"@ {
            earlier.push(features.last().name@)
        } else {
            earlier
        }
    }
}

/// A model counts as supported when it is named, marked usable `yes`, and not
/// an obsolete model.
pub open spec fn is_supported_model(model: Model) -> bool {
    &&& model.text is Some
    &&& model.usable is Some
    &&& model.usable->0@ == "yes"@
    &&& !is_obsolete_cpu_model(model.text->0@)
}

/// The names of the supported models in a list, in their order.
pub open spec fn supported_models_in(models: Seq<Model>) -> Seq<Seq<char>>
    decreases models.len(),
{
    if models.len() == 0 {
        seq![]
    } else {
        let earlier = supported_models_in(models.drop_last());
        if is_supported_model(models.last()) {
            earlier.push(models.last().text->0@)
        } else {
            earlier
        }
    }
}

/// The names of the supported models that one CPU mode lists; the
/// `host-model` mode describes the host CPU and lists none.
pub open spec fn mode_supported_models(mode: Mode) -> Seq<Seq<char>> {
    if mode.name@ == "host-model"@ {
        seq![]
    } else {
        match mode.model {
            Some(models) => supported_models_in(models@),
            None => seq![],
        }
    }
}

/// The names of the supported models over all CPU modes, mode by mode.
pub open spec fn supported_models_of(modes: Seq<Mode>) -> Seq<Seq<char>>
    decreases modes.len(),
{
    if modes.len() == 0 {
        seq![]
    } else {
        supported_models_of(modes.drop_last()) + mode_supported_models(modes.last())
    }
}

/// The first CPU mode named `host-model`, if there is one.
pub open spec fn host_model_mode(modes: Seq<Mode>) -> Option<Mode>
    decreases modes.len(),
{
    if modes.len() == 0 {
        None
    } else if modes[0].name@ == "host-model"@ {
        Some(modes[0])
    } else {
        host_model_mode(modes.drop_first())
    }
}

/// The name of the host model: the text of the first model of the
/// `host-model` mode, or empty.
pub open spec fn host_model_name(domcaps: DomainCapabilities) -> Seq<char> {
    match host_model_mode(domcaps.cpu.mode@) {
        Some(mode) => match mode.model {
            Some(models) => if models@.len() > 0 && models@[0].text is Some {
                models@[0].text->0@
            } else {
                seq![]
            },
            None => seq![],
        },
        None => seq![],
    }
}

/// The vendor of the `host-model` mode, or empty.
pub open spec fn host_model_vendor(domcaps: DomainCapabilities) -> Seq<char> {
    match host_model_mode(domcaps.cpu.mode@) {
        Some(mode) => match mode.vendor {
            Some(vendor) => vendor@,
            None => seq![],
        },
        None => seq![],
    }
}

/// The required features of the `host-model` mode, or none.
pub open spec fn host_required_features(domcaps: DomainCapabilities) -> Seq<Seq<char>> {
    match host_model_mode(domcaps.cpu.mode@) {
        Some(mode) => match mode.feature {
            Some(features) => required_mode_features(features@),
            None => seq![],
        },
        None => seq![],
    }
}

impl HostCpuModel {
    /// This is the host model that `domcaps` reports.
    pub open spec fn describes(self, domcaps: DomainCapabilities) -> bool {
        &&& self.name@ == host_model_name(domcaps)
        &&& self.vendor@ == host_model_vendor(domcaps)
        &&& self.required_features.deep_view() == host_required_features(domcaps)
    }
}

impl NodeCaps {
    /// These are the capabilities of the node `node_name` with the given
    /// documents and versions.
    pub open spec fn describes(
        self,
        node_name: Seq<char>,
        domcaps: DomainCapabilities,
        cpu: Cpu,
        virsh_version: Seq<char>,
        virt_launcher_image: Seq<char>,
    ) -> bool {
        &&& self.node_name@ == node_name
        &&& self.host_cpu_model.describes(domcaps)
        &&& self.supported_features.deep_view() == required_cpu_features(cpu.feature@)
        &&& self.supported_models.deep_view() == supported_models_of(domcaps.cpu.mode@)
        &&& self.virsh_version@ == virsh_version
        &&& self.virt_launcher_image@ == virt_launcher_image
    }
}

/// The position of the first CPU mode named `host-model`.
fn find_host_model(modes: &Vec<Mode>) -> (r: Option<usize>)
    ensures
        match r {
            Some(i) => i < modes@.len() && host_model_mode(modes@) == Some(modes@[i as int]),
            None => host_model_mode(modes@) is None,
        },
{
    let mut i: usize = 0;
    assert(modes@.skip(0) =~= modes@);
    while i < modes.len()
        invariant
            i <= modes@.len(),
            host_model_mode(modes@) == host_model_mode(modes@.skip(i as int)),
        decreases modes@.len() - i,
    {
        assert(modes@.skip(i as int)[0] == modes@[i as int]);
        if str_eq(modes[i].name.as_str(), "host-model") {
            return Some(i);
        }
        assert(modes@.skip(i as int).drop_first() =~= modes@.skip(i + 1));
        i = i + 1;
    }
    None
}

impl HostCpuModel {
    /// The host model that `domcaps` reports: the first model and the vendor
    /// of its `host-model` mode, with the features that mode requires.
    pub fn new(domcaps: &DomainCapabilities) -> (r: HostCpuModel)
        ensures
            r.describes(*domcaps),
    {
        let mut name = String::new();
        let mut vendor = String::new();
        match find_host_model(&domcaps.cpu.mode) {
            Some(i) => {
                let mode = &domcaps.cpu.mode[i];
                if let Some(models) = &mode.model {
                    if models.len() > 0 {
                        if let Some(text) = &models[0].text {
                            name = text.clone();
                        }
                    }
                }
                if let Some(v) = &mode.vendor {
                    vendor = v.clone();
                }
            },
            None => {},
        }
        HostCpuModel { name, vendor, required_features: HostCpuModel::required_features(domcaps) }
    }

    /// The names of the features that the `host-model` mode requires, in
    /// their order; none when there is no such mode or it lists no features.
    pub fn required_features(domcaps: &DomainCapabilities) -> (r: Vec<String>)
        ensures
            r.deep_view() == host_required_features(*domcaps),
    {
        let mut out: Vec<String> = Vec::new();
        if let Some(i) = find_host_model(&domcaps.cpu.mode) {
            if let Some(features) = &domcaps.cpu.mode[i].feature {
                let mut j: usize = 0;
                while j < features.len()
                    invariant
                        j <= features@.len(),
                        out.deep_view() == required_mode_features(features@.take(j as int)),
                    decreases features@.len() - j,
                {
                    let ghost before = out.deep_view();
                    let feature = &features[j];
                    if str_eq(feature.policy.as_str(), "require") {
                        out.push(feature.name.clone());
                        assert(out.deep_view() =~= before.push(feature.name@));
                    }
                    assert(features@.take(j + 1).drop_last() =~= features@.take(j as int));
                    j = j + 1;
                }
                assert(features@.take(features@.len() as int) =~= features@);
            }
        }
        out
    }
}

impl NodeCaps {
    /// The capabilities of the node that `data` describes.
    pub fn new(data: &LibvirtData) -> (r: NodeCaps)
        ensures
            r.describes(
                data.node_name@,
                data.domcaps,
                data.cpu,
                data.virsh_version@,
                data.virt_launcher_image@,
            ),
    {
        NodeCaps::of_node(
            data.node_name.as_str(),
            &data.domcaps,
            &data.cpu,
            data.virsh_version.as_str(),
            data.virt_launcher_image.as_str(),
        )
    }

    /// The capabilities of the node `node_name` with the given documents and
    /// versions.
    pub fn of_node(
        node_name: &str,
        domcaps: &DomainCapabilities,
        cpu: &Cpu,
        virsh_version: &str,
        virt_launcher_image: &str,
    ) -> (r: NodeCaps)
        ensures
            r.describes(node_name@, *domcaps, *cpu, virsh_version@, virt_launcher_image@),
    {
        NodeCaps {
            node_name: node_name.to_owned(),
            host_cpu_model: HostCpuModel::new(domcaps),
            supported_features: NodeCaps::supported_features(cpu),
            supported_models: NodeCaps::supported_models(domcaps),
            virsh_version: virsh_version.to_owned(),
            virt_launcher_image: virt_launcher_image.to_owned(),
        }
    }

    /// The names of the CPU features whose policy is `require`, in their
    /// order.
    pub fn supported_features(cpu: &Cpu) -> (r: Vec<String>)
        ensures
            r.deep_view() == required_cpu_features(cpu.feature@),
    {
        let mut out: Vec<String> = Vec::new();
        let mut i: usize = 0;
        while i < cpu.feature.len()
            invariant
                i <= cpu.feature@.len(),
                out.deep_view() == required_cpu_features(cpu.feature@.take(i as int)),
            decreases cpu.feature@.len() - i,
        {
            let ghost before = out.deep_view();
            let feature = &cpu.feature[i];
            if str_eq(feature.policy.as_str(), "require") {
                out.push(feature.name.clone());
                assert(out.deep_view() =~= before.push(feature.name@));
            }
            assert(cpu.feature@.take(i + 1).drop_last() =~= cpu.feature@.take(i as int));
            i = i + 1;
        }
        assert(cpu.feature@.take(cpu.feature@.len() as int) =~= cpu.feature@);
        out
    }

    /// The names of the supported CPU models over the modes of `domcaps` other
    /// than `host-model`, mode by mode and in their order: named, usable
    /// `yes`, not obsolete.
    pub fn supported_models(domcaps: &DomainCapabilities) -> (r: Vec<String>)
        ensures
            r.deep_view() == supported_models_of(domcaps.cpu.mode@),
    {
        let modes = &domcaps.cpu.mode;
        let mut out: Vec<String> = Vec::new();
        let mut i: usize = 0;
        while i < modes.len()
            invariant
                i <= modes@.len(),
                out.deep_view() == supported_models_of(modes@.take(i as int)),
            decreases modes@.len() - i,
        {
            let ghost start = out.deep_view();
            assert(modes@.take(i + 1).drop_last() =~= modes@.take(i as int));
            let is_host_model = str_eq(modes[i].name.as_str(), "host-model");
            if is_host_model {
            } else if let Some(models) = &modes[i].model {
                let mut j: usize = 0;
                while j < models.len()
                    invariant
                        j <= models@.len(),
                        out.deep_view() == start + supported_models_in(models@.take(j as int)),
                    decreases models@.len() - j,
                {
                    let ghost before = out.deep_view();
                    let model = &models[j];
                    if let Some(name) = &model.text {
                        if let Some(usable) = &model.usable {
                            if str_eq(usable.as_str(), "yes") && !is_obsolete_model(name.as_str()) {
                                out.push(name.clone());
                                assert(out.deep_view() =~= before.push(name@));
                            }
                        }
                    }
                    assert(models@.take(j + 1).drop_last() =~= models@.take(j as int));
                    assert(start + supported_models_in(models@.take(j + 1)) =~= out.deep_view());
                    j = j + 1;
                }
                assert(models@.take(models@.len() as int) =~= models@);
            }
            assert(out.deep_view() =~= supported_models_of(modes@.take(i + 1)));
            i = i + 1;
        }
        assert(modes@.take(modes@.len() as int) =~= modes@);
        out
    }
}

proof fn lemma_supported_models_in_current(models: Seq<Model>, m: Seq<char>)
    requires
        supported_models_in(models).contains(m),
    ensures
        !is_obsolete_cpu_model(m),
        exists|j: int|
            0 <= j < models.len() && is_supported_model(#[trigger] models[j])
                && models[j].text->0@ == m,
    decreases models.len(),
{
    let earlier = supported_models_in(models.drop_last());
    let j = models.len() - 1;
    if is_supported_model(models.last()) && models.last().text->0@ == m {
        assert(models[j] == models.last());
    } else {
        if is_supported_model(models.last()) {
            let y = choose|y: int|
                0 <= y < supported_models_in(models).len() && supported_models_in(models)[y] == m;
            assert(earlier[y] == m);
        }
        lemma_supported_models_in_current(models.drop_last(), m);
        let k = choose|k: int|
            0 <= k < models.drop_last().len() && is_supported_model(#[trigger] models.drop_last()[k])
                && models.drop_last()[k].text->0@ == m;
        assert(models[k] == models.drop_last()[k]);
    }
}

/// Every supported model that the modes yield is named by a model of a mode
/// other than `host-model` that is marked usable `yes` and is not an
/// obsolete model.
pub proof fn lemma_supported_models_are_usable_and_current(modes: Seq<Mode>, m: Seq<char>)
    requires
        supported_models_of(modes).contains(m),
    ensures
        !is_obsolete_cpu_model(m),
        exists|i: int, j: int|
            0 <= i < modes.len() && modes[i].name@ != "host-model"@ && modes[i].model is Some && 0
                <= j < modes[i].model->0@.len() && #[trigger] is_supported_model(modes[i].model->0@[j])
                && modes[i].model->0@[j].text->0@ == m,
    decreases modes.len(),
{
    let earlier = supported_models_of(modes.drop_last());
    let last = mode_supported_models(modes.last());
    let y = choose|y: int|
        0 <= y < supported_models_of(modes).len() && supported_models_of(modes)[y] == m;
    if y < earlier.len() {
        assert(earlier[y] == m);
        lemma_supported_models_are_usable_and_current(modes.drop_last(), m);
        let (i, j) = choose|i: int, j: int|
            0 <= i < modes.drop_last().len() && modes.drop_last()[i].name@ != "host-model"@
                && modes.drop_last()[i].model is Some && 0 <= j
                < modes.drop_last()[i].model->0@.len() && #[trigger] is_supported_model(
                modes.drop_last()[i].model->0@[j],
            ) && modes.drop_last()[i].model->0@[j].text->0@ == m;
        assert(modes[i] == modes.drop_last()[i]);
    } else {
        assert(last[y - earlier.len()] == m);
        let i = modes.len() - 1;
        assert(modes[i] == modes.last());
        assert(modes.last().model is Some);
        lemma_supported_models_in_current(modes.last().model->0@, m);
        let j = choose|j: int|
            0 <= j < modes.last().model->0@.len() && is_supported_model(
                #[trigger] modes.last().model->0@[j],
            ) && modes.last().model->0@[j].text->0@ == m;
        assert(is_supported_model(modes[i].model->0@[j]));
    }
}

/// The supported models of a model list are, in their order, the names of
/// exactly those models that have a name, are marked usable `yes` and are
/// not obsolete; no other attribute of a model counts.
pub proof fn law_supported_models_in_order(models: Seq<Model>)
    ensures
        supported_models_in(models) == models.filter(
            |md: Model|
                md.text is Some && md.usable is Some && md.usable->0@ == "yes"@
                    && !crate::cpu_caps::obsolete_cpu_models().contains(md.text->0@),
        ).map_values(|md: Model| md.text->0@),
    decreases models.len(),
{
    let p = |md: Model|
        md.text is Some && md.usable is Some && md.usable->0@ == "yes"@
            && !crate::cpu_caps::obsolete_cpu_models().contains(md.text->0@);
    let f = |md: Model| md.text->0@;
    reveal(Seq::filter);
    if models.len() > 0 {
        let init = models.drop_last();
        law_supported_models_in_order(init);
        assert(init.push(models.last()) =~= models);
        init.lemma_filter_push(models.last(), p);
        if p(models.last()) {
            assert(init.filter(p).push(models.last()).map_values(f) =~= init.filter(p).map_values(
                f,
            ).push(f(models.last())));
        }
    }
}

proof fn lemma_listed_model_is_supported(models: Seq<Model>, j: int)
    requires
        0 <= j < models.len(),
        models[j].text is Some,
        models[j].usable is Some,
        models[j].usable->0@ == "yes"@,
        !crate::cpu_caps::obsolete_cpu_models().contains(models[j].text->0@),
    ensures
        supported_models_in(models).contains(models[j].text->0@),
    decreases models.len(),
{
    let n = models[j].text->0@;
    if j == models.len() - 1 {
        assert(models.last() == models[j]);
        let out = supported_models_in(models);
        assert(out[out.len() - 1] == n);
    } else {
        let init = models.drop_last();
        assert(init[j] == models[j]);
        lemma_listed_model_is_supported(init, j);
        let earlier = supported_models_in(init);
        let y = choose|y: int| 0 <= y < earlier.len() && earlier[y] == n;
        assert(supported_models_in(models)[y] == n);
    }
}

proof fn lemma_mode_model_is_supported(modes: Seq<Mode>, i: int, j: int)
    requires
        0 <= i < modes.len(),
        modes[i].name@ != "host-model"@,
        modes[i].model is Some,
        0 <= j < modes[i].model->0@.len(),
        modes[i].model->0@[j].text is Some,
        modes[i].model->0@[j].usable is Some,
        modes[i].model->0@[j].usable->0@ == "yes"@,
        !crate::cpu_caps::obsolete_cpu_models().contains(modes[i].model->0@[j].text->0@),
    ensures
        supported_models_of(modes).contains(modes[i].model->0@[j].text->0@),
    decreases modes.len(),
{
    let n = modes[i].model->0@[j].text->0@;
    let earlier = supported_models_of(modes.drop_last());
    let last = mode_supported_models(modes.last());
    assert(supported_models_of(modes) == earlier + last);
    if i == modes.len() - 1 {
        assert(modes.last() == modes[i]);
        lemma_listed_model_is_supported(modes[i].model->0@, j);
        let y = choose|y: int| 0 <= y < last.len() && last[y] == n;
        assert((earlier + last)[earlier.len() + y] == n);
    } else {
        assert(modes.drop_last()[i] == modes[i]);
        lemma_mode_model_is_supported(modes.drop_last(), i, j);
        let y = choose|y: int| 0 <= y < earlier.len() && earlier[y] == n;
        assert((earlier + last)[y] == n);
    }
}

/// A node supports a model name exactly when some mode other than
/// `host-model` lists a model of that name marked usable `yes`, and the name
/// is not obsolete; other attributes of the model, such as its vendor or a
/// canonical name, play no part.
pub proof fn law_supported_model_iff_listed_usable_and_current(modes: Seq<Mode>, name: Seq<char>)
    ensures
        supported_models_of(modes).contains(name) <==> (!crate::cpu_caps::obsolete_cpu_models().contains(name)
            && exists|i: int, j: int|
            0 <= i < modes.len() && modes[i].name@ != "host-model"@ && modes[i].model is Some && 0
                <= j < modes[i].model->0@.len() && (#[trigger] modes[i].model->0@[j]).text is Some
                && modes[i].model->0@[j].text->0@ == name && modes[i].model->0@[j].usable is Some
                && modes[i].model->0@[j].usable->0@ == "yes"@),
{
    if supported_models_of(modes).contains(name) {
        lemma_supported_models_are_usable_and_current(modes, name);
        let (i, j) = choose|i: int, j: int|
            0 <= i < modes.len() && modes[i].name@ != "host-model"@ && modes[i].model is Some && 0
                <= j < modes[i].model->0@.len() && #[trigger] is_supported_model(modes[i].model->0@[j])
                && modes[i].model->0@[j].text->0@ == name;
        assert(modes[i].model->0@[j].text is Some);
    }
    if !crate::cpu_caps::obsolete_cpu_models().contains(name) && exists|i: int, j: int|
        0 <= i < modes.len() && modes[i].name@ != "host-model"@ && modes[i].model is Some && 0
            <= j < modes[i].model->0@.len() && (#[trigger] modes[i].model->0@[j]).text is Some
            && modes[i].model->0@[j].text->0@ == name && modes[i].model->0@[j].usable is Some
            && modes[i].model->0@[j].usable->0@ == "yes"@ {
        let (i, j) = choose|i: int, j: int|
            0 <= i < modes.len() && modes[i].name@ != "host-model"@ && modes[i].model is Some && 0
                <= j < modes[i].model->0@.len() && (#[trigger] modes[i].model->0@[j]).text is Some
                && modes[i].model->0@[j].text->0@ == name && modes[i].model->0@[j].usable is Some
                && modes[i].model->0@[j].usable->0@ == "yes"@;
        lemma_mode_model_is_supported(modes, i, j);
    }
}

/// The features that a list requires are, in their order, the names of
/// exactly those features whose policy is `require`.
pub proof fn law_required_cpu_features_in_order(features: Seq<Feature>)
    ensures
        required_cpu_features(features) == features.filter(|f: Feature| f.policy@ == "require"@).map_values(
            |f: Feature| f.name@,
        ),
    decreases features.len(),
{
    let p = |f: Feature| f.policy@ == "require"@;
    let g = |f: Feature| f.name@;
    reveal(Seq::filter);
    if features.len() > 0 {
        let init = features.drop_last();
        law_required_cpu_features_in_order(init);
        assert(init.push(features.last()) =~= features);
        init.lemma_filter_push(features.last(), p);
        if p(features.last()) {
            assert(init.filter(p).push(features.last()).map_values(g) =~= init.filter(p).map_values(
                g,
            ).push(g(features.last())));
        }
    }
}

/// The features that a CPU mode requires are, in their order, the names of
/// exactly those of its features whose policy is `require`.
pub proof fn law_required_mode_features_in_order(features: Seq<ModeFeature>)
    ensures
        required_mode_features(features) == features.filter(
            |f: ModeFeature| f.policy@ == "require"@,
        ).map_values(|f: ModeFeature| f.name@),
    decreases features.len(),
{
    let p = |f: ModeFeature| f.policy@ == "require"@;
    let g = |f: ModeFeature| f.name@;
    reveal(Seq::filter);
    if features.len() > 0 {
        let init = features.drop_last();
        law_required_mode_features_in_order(init);
        assert(init.push(features.last()) =~= features);
        init.lemma_filter_push(features.last(), p);
        if p(features.last()) {
            assert(init.filter(p).push(features.last()).map_values(g) =~= init.filter(p).map_values(
                g,
            ).push(g(features.last())));
        }
    }
}

proof fn lemma_first_host_model_mode(modes: Seq<Mode>, i: int)
    requires
        0 <= i < modes.len(),
        modes[i].name@ == "host-model"@,
        forall|k: int| 0 <= k < i ==> (#[trigger] modes[k]).name@ != "host-model"@,
    ensures
        host_model_mode(modes) == Some(modes[i]),
    decreases i,
{
    if i > 0 {
        assert(modes[0].name@ != "host-model"@);
        let rest = modes.drop_first();
        assert forall|k: int| 0 <= k < i - 1 implies (#[trigger] rest[k]).name@ != "host-model"@ by {
            assert(rest[k] == modes[k + 1]);
        }
        assert(rest[i - 1] == modes[i]);
        lemma_first_host_model_mode(rest, i - 1);
    }
}

proof fn lemma_no_host_model_mode(modes: Seq<Mode>)
    requires
        forall|k: int| 0 <= k < modes.len() ==> (#[trigger] modes[k]).name@ != "host-model"@,
    ensures
        host_model_mode(modes) is None,
    decreases modes.len(),
{
    if modes.len() > 0 {
        assert(modes[0].name@ != "host-model"@);
        let rest = modes.drop_first();
        assert forall|k: int| 0 <= k < rest.len() implies (#[trigger] rest[k]).name@ != "host-model"@ by {
            assert(rest[k] == modes[k + 1]);
        }
        lemma_no_host_model_mode(rest);
    }
}

/// The host model comes from the first CPU mode named `host-model`: its name
/// is the text of that mode's first model, its vendor the text of that mode's
/// vendor, and its required features those of that mode whose policy is
/// `require`, each empty where the mode does not have it.
pub proof fn law_host_model_from_first_host_model_mode(domcaps: DomainCapabilities, i: int)
    requires
        0 <= i < domcaps.cpu.mode@.len(),
        domcaps.cpu.mode@[i].name@ == "host-model"@,
        forall|k: int| 0 <= k < i ==> (#[trigger] domcaps.cpu.mode@[k]).name@ != "host-model"@,
    ensures
        ({
            let mode = domcaps.cpu.mode@[i];
            &&& mode.vendor is Some ==> host_model_vendor(domcaps) == mode.vendor->0@
            &&& mode.vendor is None ==> host_model_vendor(domcaps).len() == 0
            &&& (mode.model is Some && mode.model->0@.len() > 0 && mode.model->0@[0].text is Some)
                ==> host_model_name(domcaps) == mode.model->0@[0].text->0@
            &&& !(mode.model is Some && mode.model->0@.len() > 0 && mode.model->0@[0].text is Some)
                ==> host_model_name(domcaps).len() == 0
            &&& mode.feature is Some ==> host_required_features(domcaps) == mode.feature->0@.filter(
                |f: ModeFeature| f.policy@ == "require"@,
            ).map_values(|f: ModeFeature| f.name@)
            &&& mode.feature is None ==> host_required_features(domcaps).len() == 0
        }),
{
    lemma_first_host_model_mode(domcaps.cpu.mode@, i);
    let mode = domcaps.cpu.mode@[i];
    if mode.feature is Some {
        law_required_mode_features_in_order(mode.feature->0@);
    }
}

/// Without a CPU mode named `host-model`, the host model has an empty name,
/// an empty vendor and no required features.
pub proof fn law_host_model_empty_without_host_model_mode(domcaps: DomainCapabilities)
    requires
        forall|k: int| 0 <= k < domcaps.cpu.mode@.len() ==> (#[trigger] domcaps.cpu.mode@[k]).name@ != "host-model"@,
    ensures
        host_model_name(domcaps).len() == 0,
        host_model_vendor(domcaps).len() == 0,
        host_required_features(domcaps).len() == 0,
{
    lemma_no_host_model_mode(domcaps.cpu.mode@);
}

} // verus!
