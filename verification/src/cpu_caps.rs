//! The CPU capabilities of a set of nodes, and the models that more than
//! half of them support.

pub mod types;

use crate::de::types::capabilities::Capabilities;
use crate::de::types::supported_features::Cpu;
use crate::de::types::virsh_domcapabilities::DomainCapabilities;
use types::{supported_models_of, LibvirtData, NodeCaps};
use vstd::prelude::*;

verus! {

/// The CPU models that KubeVirt does not offer any more.
pub open spec fn obsolete_cpu_models() -> Seq<Seq<char>> {
    seq![
        "486"@, "486-v1"@, "pentium"@, "pentium-v1"@, "pentium2"@, "pentium2-v1"@,
        "pentium3"@, "pentium3-v1"@, "pentiumpro"@, "pentiumpro-v1"@, "coreduo"@,
        "coreduo-v1"@, "n270"@, "n270-v1"@, "core2duo"@, "core2duo-v1"@, "Conroe"@,
        "Conroe-v1"@, "athlon"@, "athlon-v1"@, "phenom"@, "phenom-v1"@, "qemu64"@,
        "qemu64-v1"@, "qemu32"@, "qemu32-v1"@, "kvm64"@, "kvm64-v1"@, "kvm32"@,
        "kvm32-v1"@, "Opteron_G1"@, "Opteron_G1-v1"@, "Opteron_G2"@, "Opteron_G2-v1"@,
    ]
}

/// Whether a model name is one of the obsolete CPU models.
pub open spec fn is_obsolete_cpu_model(name: Seq<char>) -> bool {
    obsolete_cpu_models().contains(name)
}

/// Whether `cpu_model` is one of the obsolete CPU models.
pub fn is_obsolete_model(cpu_model: &str) -> (r: bool)
    ensures
        r == is_obsolete_cpu_model(cpu_model@),
{
    let models: Vec<&str> = vec![
        "486", "486-v1", "pentium", "pentium-v1", "pentium2", "pentium2-v1",
        "pentium3", "pentium3-v1", "pentiumpro", "pentiumpro-v1", "coreduo",
        "coreduo-v1", "n270", "n270-v1", "core2duo", "core2duo-v1", "Conroe",
        "Conroe-v1", "athlon", "athlon-v1", "phenom", "phenom-v1", "qemu64",
        "qemu64-v1", "qemu32", "qemu32-v1", "kvm64", "kvm64-v1", "kvm32",
        "kvm32-v1", "Opteron_G1", "Opteron_G1-v1", "Opteron_G2", "Opteron_G2-v1",
    ];
    assert(models@.map_values(|s: &str| s@) =~= obsolete_cpu_models());
    let mut i: usize = 0;
    while i < models.len()
        invariant
            i <= models@.len(),
            models@.map_values(|s: &str| s@) == obsolete_cpu_models(),
            forall|k: int| 0 <= k < i ==> obsolete_cpu_models()[k] != cpu_model@,
        decreases models@.len() - i,
    {
        if crate::text::str_eq(cpu_model, models[i]) {
            assert(obsolete_cpu_models()[i as int] == models@[i as int]@);
            return true;
        }
        assert(obsolete_cpu_models()[i as int] == models@[i as int]@);
        i = i + 1;
    }
    false
}

/// The CPU capabilities of every node, and the models that more than half of
/// the nodes support.
#[derive(Debug, PartialEq)]
pub struct CpuCaps {
    pub global_caps: Vec<String>,
    pub nodes_caps: Vec<NodeCaps>,
}

/// The supported model lists of the nodes, node by node.
pub open spec fn model_lists(nodes: Seq<NodeCaps>) -> Seq<Seq<Seq<char>>> {
    nodes.map_values(|node: NodeCaps| node.supported_models.deep_view())
}

/// The number of nodes whose model list holds `m`.
pub open spec fn nodes_supporting(lists: Seq<Seq<Seq<char>>>, m: Seq<char>) -> nat
    decreases lists.len(),
{
    if lists.len() == 0 {
        0
    } else {
        nodes_supporting(lists.drop_last(), m) + if lists.last().contains(m) {
            1nat
        } else {
            0nat
        }
    }
}

/// A model is a global candidate when more than half of the nodes support
/// it.
pub open spec fn is_global_model(lists: Seq<Seq<Seq<char>>>, m: Seq<char>) -> bool {
    2 * nodes_supporting(lists, m) > lists.len()
}

proof fn lemma_nodes_supporting_bound(lists: Seq<Seq<Seq<char>>>, m: Seq<char>)
    ensures
        nodes_supporting(lists, m) <= lists.len(),
        nodes_supporting(lists, m) > 0 ==> exists|a: int, b: int|
            0 <= a < lists.len() && 0 <= b < lists[a].len() && lists[a][b] == m,
    decreases lists.len(),
{
    if lists.len() > 0 {
        let init = lists.drop_last();
        lemma_nodes_supporting_bound(init, m);
        if lists.last().contains(m) {
            let b = choose|b: int| 0 <= b < lists.last().len() && lists.last()[b] == m;
            assert(lists[lists.len() - 1][b] == m);
        } else if nodes_supporting(lists, m) > 0 {
            let (a, b) = choose|a: int, b: int|
                0 <= a < init.len() && 0 <= b < init[a].len() && init[a][b] == m;
            assert(lists[a][b] == m);
        }
    }
}

/// Whether `list` holds `m`.
fn list_contains(list: &Vec<String>, m: &String) -> (r: bool)
    ensures
        r == list.deep_view().contains(m@),
{
    let mut i: usize = 0;
    while i < list.len()
        invariant
            i <= list@.len(),
            forall|k: int| 0 <= k < i ==> list.deep_view()[k] != m@,
        decreases list@.len() - i,
    {
        assert(list.deep_view()[i as int] == list@[i as int]@);
        if list[i] == *m {
            return true;
        }
        i = i + 1;
    }
    false
}

/// Whether more than half of the nodes support `m`.
fn is_global(nodes: &Vec<NodeCaps>, m: &String) -> (r: bool)
    ensures
        r == is_global_model(model_lists(nodes@), m@),
{
    let n = nodes.len();
    let mut count: usize = 0;
    let mut i: usize = 0;
    assert(model_lists(nodes@).take(0) =~= Seq::<Seq<Seq<char>>>::empty());
    while i < n
        invariant
            n == nodes@.len(),
            i <= n,
            count <= i,
            count == nodes_supporting(model_lists(nodes@).take(i as int), m@),
        decreases n - i,
    {
        let ghost lists = model_lists(nodes@);
        assert(lists.take(i + 1).drop_last() =~= lists.take(i as int));
        assert(lists.take(i + 1).last() == nodes@[i as int].supported_models.deep_view());
        if list_contains(&nodes[i].supported_models, m) {
            count = count + 1;
        }
        i = i + 1;
    }
    assert(model_lists(nodes@).take(n as int) =~= model_lists(nodes@));
    count > n - count
}

/// The models that are global over the nodes, each once.
fn global_models(nodes: &Vec<NodeCaps>) -> (r: Vec<String>)
    ensures
        r.deep_view().no_duplicates(),
        forall|m: Seq<char>| r.deep_view().contains(m) <==> is_global_model(model_lists(nodes@), m),
{
    let mut seen: Vec<String> = Vec::new();
    let mut global: Vec<String> = Vec::new();
    let mut i: usize = 0;
    while i < nodes.len()
        invariant
                        i <= nodes@.len(),
            seen.deep_view().no_duplicates(),
            global.deep_view().no_duplicates(),
            forall|m: Seq<char>|
                global.deep_view().contains(m) <==> (seen.deep_view().contains(m)
                    && is_global_model(model_lists(nodes@), m)),
            forall|a: int, b: int|
                0 <= a < i && 0 <= b < model_lists(nodes@)[a].len() ==> seen.deep_view().contains(
                    #[trigger] model_lists(nodes@)[a][b],
                ),
        decreases nodes@.len() - i,
    {
        let models = &nodes[i].supported_models;
        let mut j: usize = 0;
        while j < models.len()
            invariant
                                i < nodes@.len(),
                model_lists(nodes@)[i as int] == models.deep_view(),
                j <= models@.len(),
                seen.deep_view().no_duplicates(),
                global.deep_view().no_duplicates(),
                forall|m: Seq<char>|
                    global.deep_view().contains(m) <==> (seen.deep_view().contains(m)
                        && is_global_model(model_lists(nodes@), m)),
                forall|a: int, b: int|
                    0 <= a < i && 0 <= b < model_lists(nodes@)[a].len() ==> seen.deep_view().contains(
                        #[trigger] model_lists(nodes@)[a][b],
                    ),
                forall|b: int| 0 <= b < j ==> seen.deep_view().contains(#[trigger] model_lists(nodes@)[i as int][b]),
            decreases models@.len() - j,
        {
            let m = &models[j];
            assert(model_lists(nodes@)[i as int][j as int] == m@);
            let mut found = false;
            let mut k: usize = 0;
            while k < seen.len()
                invariant
                    k <= seen@.len(),
                    found <==> exists|x: int| 0 <= x < k && seen.deep_view()[x] == m@,
                decreases seen@.len() - k,
            {
                assert(seen.deep_view()[k as int] == seen@[k as int]@);
                if seen[k] == *m {
                    found = true;
                }
                k = k + 1;
            }
            if !found {
                let ghost old_seen = seen.deep_view();
                let ghost old_global = global.deep_view();
                assert(!old_seen.contains(m@));
                seen.push(m.clone());
                assert(seen.deep_view() =~= old_seen.push(m@));
                let g = is_global(nodes, m);
                if g {
                    global.push(m.clone());
                    assert(global.deep_view() =~= old_global.push(m@));
                } else {
                    assert(global.deep_view() =~= old_global);
                }
                assert(!old_global.contains(m@));
                assert forall|x: Seq<char>|
                    global.deep_view().contains(x) <==> (seen.deep_view().contains(x)
                        && is_global_model(model_lists(nodes@), x)) by {
                    if x == m@ {
                        assert(seen.deep_view()[old_seen.len() as int] == m@);
                        if g {
                            assert(global.deep_view()[old_global.len() as int] == m@);
                        }
                    } else {
                        if seen.deep_view().contains(x) {
                            let y = choose|y: int| 0 <= y < seen.deep_view().len() && seen.deep_view()[y] == x;
                            assert(old_seen[y] == x);
                        }
                        if old_seen.contains(x) {
                            let y = choose|y: int| 0 <= y < old_seen.len() && old_seen[y] == x;
                            assert(seen.deep_view()[y] == x);
                        }
                        if global.deep_view().contains(x) {
                            let y = choose|y: int| 0 <= y < global.deep_view().len() && global.deep_view()[y] == x;
                            assert(old_global[y] == x);
                        }
                        if old_global.contains(x) {
                            let y = choose|y: int| 0 <= y < old_global.len() && old_global[y] == x;
                            assert(global.deep_view()[y] == x);
                        }
                    }
                }
                assert forall|a: int, b: int|
                    0 <= a < i && 0 <= b < model_lists(nodes@)[a].len() implies seen.deep_view().contains(
                        #[trigger] model_lists(nodes@)[a][b],
                    ) by {
                    let y = choose|y: int| 0 <= y < old_seen.len() && old_seen[y] == model_lists(nodes@)[a][b];
                    assert(seen.deep_view()[y] == model_lists(nodes@)[a][b]);
                }
                assert forall|b: int| 0 <= b <= j implies seen.deep_view().contains(
                    #[trigger] model_lists(nodes@)[i as int][b],
                ) by {
                    if b < j {
                        let y = choose|y: int| 0 <= y < old_seen.len() && old_seen[y] == model_lists(nodes@)[i as int][b];
                        assert(seen.deep_view()[y] == model_lists(nodes@)[i as int][b]);
                    } else {
                        assert(seen.deep_view()[old_seen.len() as int] == m@);
                    }
                }
            }
            j = j + 1;
        }
        i = i + 1;
    }
    assert forall|m: Seq<char>| is_global_model(model_lists(nodes@), m) implies global.deep_view().contains(m) by {
        lemma_nodes_supporting_bound(model_lists(nodes@), m);
        let (a, b) = choose|a: int, b: int|
            0 <= a < model_lists(nodes@).len() && 0 <= b < model_lists(nodes@)[a].len() && model_lists(nodes@)[a][b] == m;
        assert(seen.deep_view().contains(model_lists(nodes@)[a][b]));
    }
    global
}

/// The CPU capabilities of the nodes named `node_names`, all of which
/// report the same libvirt documents and versions, with the models that more
/// than half of them support.
pub fn compute(
    node_names: Vec<&str>,
    caps: &Capabilities,
    domcaps: &DomainCapabilities,
    cpu: &Cpu,
    virsh_version: &str,
    virt_launcher_version: &str,
) -> (r: CpuCaps)
    ensures
        r.nodes_caps@.len() == node_names@.len(),
        forall|i: int|
            0 <= i < node_names@.len() ==> (#[trigger] r.nodes_caps@[i]).describes(
                node_names@[i]@,
                *domcaps,
                *cpu,
                virsh_version@,
                virt_launcher_version@,
            ),
        r.global_caps.deep_view().no_duplicates(),
        forall|m: Seq<char>|
            r.global_caps.deep_view().contains(m) <==> is_global_model(model_lists(r.nodes_caps@), m),
        forall|m: Seq<char>|
            r.global_caps.deep_view().contains(m) <==> (node_names@.len() > 0
                && supported_models_of(domcaps.cpu.mode@).contains(m)),
{
    let mut nodes_caps: Vec<NodeCaps> = Vec::new();
    let mut i: usize = 0;
    while i < node_names.len()
        invariant
            i <= node_names@.len(),
            nodes_caps@.len() == i,
            forall|k: int|
                0 <= k < i ==> (#[trigger] nodes_caps@[k]).describes(
                    node_names@[k]@,
                    *domcaps,
                    *cpu,
                    virsh_version@,
                    virt_launcher_version@,
                ),
        decreases node_names@.len() - i,
    {
        let node_caps = NodeCaps::of_node(
            node_names[i],
            domcaps,
            cpu,
            virsh_version,
            virt_launcher_version,
        );
        nodes_caps.push(node_caps);
        i = i + 1;
    }
    let global_caps = global_models(&nodes_caps);
    proof {
        let list = supported_models_of(domcaps.cpu.mode@);
        let lists = model_lists(nodes_caps@);
        assert forall|k: int| 0 <= k < lists.len() implies #[trigger] lists[k] == list by {
            assert(nodes_caps@[k].describes(
                node_names@[k]@,
                *domcaps,
                *cpu,
                virsh_version@,
                virt_launcher_version@,
            ));
        }
        assert forall|m: Seq<char>| is_global_model(lists, m) <==> (lists.len() > 0
            && list.contains(m)) by {
            lemma_uniform_lists_global(lists, list, m);
        }
    }
    CpuCaps { global_caps, nodes_caps }
}

/// The CPU capabilities of each node that `data` describes, in its order,
/// with the models that more than half of them support.
pub fn compute_from_nodes(data: &Vec<LibvirtData>) -> (r: CpuCaps)
    ensures
        r.nodes_caps@.len() == data@.len(),
        forall|i: int|
            0 <= i < data@.len() ==> (#[trigger] r.nodes_caps@[i]).describes(
                data@[i].node_name@,
                data@[i].domcaps,
                data@[i].cpu,
                data@[i].virsh_version@,
                data@[i].virt_launcher_image@,
            ),
        r.global_caps.deep_view().no_duplicates(),
        forall|m: Seq<char>|
            r.global_caps.deep_view().contains(m) <==> is_global_model(model_lists(r.nodes_caps@), m),
{
    let mut nodes_caps: Vec<NodeCaps> = Vec::new();
    let mut i: usize = 0;
    while i < data.len()
        invariant
            i <= data@.len(),
            nodes_caps@.len() == i,
            forall|k: int|
                0 <= k < i ==> (#[trigger] nodes_caps@[k]).describes(
                    data@[k].node_name@,
                    data@[k].domcaps,
                    data@[k].cpu,
                    data@[k].virsh_version@,
                    data@[k].virt_launcher_image@,
                ),
        decreases data@.len() - i,
    {
        nodes_caps.push(NodeCaps::new(&data[i]));
        i = i + 1;
    }
    let global_caps = global_models(&nodes_caps);
    CpuCaps { global_caps, nodes_caps }
}

proof fn lemma_uniform_supporting(lists: Seq<Seq<Seq<char>>>, list: Seq<Seq<char>>, m: Seq<char>)
    requires
        forall|k: int| 0 <= k < lists.len() ==> #[trigger] lists[k] == list,
    ensures
        nodes_supporting(lists, m) == if list.contains(m) {
            lists.len()
        } else {
            0
        },
    decreases lists.len(),
{
    if lists.len() > 0 {
        lemma_uniform_supporting(lists.drop_last(), list, m);
        assert(lists.last() == lists[lists.len() - 1]);
    }
}

/// When every node reports the same model list, a model is global exactly
/// when there is at least one node and the list holds the model.
pub proof fn lemma_uniform_lists_global(lists: Seq<Seq<Seq<char>>>, list: Seq<Seq<char>>, m: Seq<char>)
    requires
        forall|k: int| 0 <= k < lists.len() ==> #[trigger] lists[k] == list,
    ensures
        is_global_model(lists, m) <==> (lists.len() > 0 && list.contains(m)),
{
    lemma_uniform_supporting(lists, list, m);
}

/// A model that every node supports is global, as long as there is a node.
pub proof fn lemma_supported_everywhere_is_global(lists: Seq<Seq<Seq<char>>>, m: Seq<char>)
    requires
        lists.len() > 0,
        forall|k: int| 0 <= k < lists.len() ==> (#[trigger] lists[k]).contains(m),
    ensures
        is_global_model(lists, m),
{
    lemma_all_support(lists, m);
}

proof fn lemma_all_support(lists: Seq<Seq<Seq<char>>>, m: Seq<char>)
    requires
        forall|k: int| 0 <= k < lists.len() ==> (#[trigger] lists[k]).contains(m),
    ensures
        nodes_supporting(lists, m) == lists.len(),
    decreases lists.len(),
{
    if lists.len() > 0 {
        let init = lists.drop_last();
        assert forall|k: int| 0 <= k < init.len() implies (#[trigger] init[k]).contains(m) by {
            assert(init[k] == lists[k]);
        }
        lemma_all_support(init, m);
        assert(lists.last() == lists[lists.len() - 1]);
    }
}

proof fn lemma_supporting_counts_nodes(nodes: Seq<NodeCaps>, m: Seq<char>)
    ensures
        nodes_supporting(model_lists(nodes), m) == nodes.filter(
            |n: NodeCaps| n.supported_models.deep_view().contains(m),
        ).len(),
    decreases nodes.len(),
{
    let p = |n: NodeCaps| n.supported_models.deep_view().contains(m);
    if nodes.len() == 0 {
        reveal(Seq::filter);
    } else {
        let init = nodes.drop_last();
        lemma_supporting_counts_nodes(init, m);
        assert(model_lists(nodes).drop_last() =~= model_lists(init));
        assert(model_lists(nodes).last() == nodes.last().supported_models.deep_view());
        assert(init.push(nodes.last()) =~= nodes);
        init.lemma_filter_len_push(p, nodes.last());
    }
}

/// A model is global exactly when more than half of the nodes list it among
/// their supported models: out of `n` nodes of which `k` list it, it is
/// global when `2 * k > n`, and not otherwise.
pub proof fn law_global_iff_listed_by_more_than_half(nodes: Seq<NodeCaps>, m: Seq<char>)
    ensures
        is_global_model(model_lists(nodes), m) <==> 2 * nodes.filter(
            |n: NodeCaps| n.supported_models.deep_view().contains(m),
        ).len() > nodes.len(),
{
    lemma_supporting_counts_nodes(nodes, m);
}

/// Of two nodes of which only one lists a model, the model is not global;
/// it is global when both list it.
pub proof fn law_two_nodes_need_both(a: NodeCaps, b: NodeCaps, m: Seq<char>)
    ensures
        is_global_model(model_lists(seq![a, b]), m) <==> (a.supported_models.deep_view().contains(m)
            && b.supported_models.deep_view().contains(m)),
{
    let nodes = seq![a, b];
    let p = |n: NodeCaps| n.supported_models.deep_view().contains(m);
    law_global_iff_listed_by_more_than_half(nodes, m);
    assert(seq![a].push(b) =~= nodes);
    assert(Seq::<NodeCaps>::empty().push(a) =~= seq![a]);
    reveal(Seq::filter);
    Seq::<NodeCaps>::empty().lemma_filter_len_push(p, a);
    seq![a].lemma_filter_len_push(p, b);
}

} // verus!
