//! The decisions that the debugger workflow takes on the virt-handler pods:
//! which pods get a debugger container, when the debuggers are ready, and
//! which archive belongs to which node.

use crate::text::str_eq;
use vstd::prelude::*;

verus! {

/// What the workflow reads of a pod.
pub struct PodSummary {
    pub name: Option<String>,
    pub spec: Option<PodSpecSummary>,
    pub status: Option<PodStatusSummary>,
}

/// What the workflow reads of a pod's spec.
pub struct PodSpecSummary {
    pub node_name: Option<String>,
}

/// What the workflow reads of a pod's status.
pub struct PodStatusSummary {
    pub phase: Option<String>,
    pub ephemeral_container_statuses: Option<Vec<ContainerStatusSummary>>,
}

/// What the workflow reads of a container's status.
pub struct ContainerStatusSummary {
    pub name: String,
    pub state: Option<ContainerStateSummary>,
}

/// Whether a container's state says it is running.
pub struct ContainerStateSummary {
    pub running: bool,
}

/// The text of an optional string, empty when there is none.
pub open spec fn text_or_empty(o: Option<String>) -> Seq<char> {
    match o {
        Some(s) => s@,
        None => seq![],
    }
}

/// The pod to give a debugger container: a pod with a status whose phase is
/// `Running` and with a spec, whose name and node name are both non-empty.
pub open spec fn injection_target(pod: PodSummary) -> Option<Seq<char>> {
    match pod.status {
        None => None,
        Some(status) => if text_or_empty(status.phase) != "Running"@ {
            None
        } else {
            match pod.spec {
                None => None,
                Some(spec) => if text_or_empty(pod.name).len() == 0 || text_or_empty(
                    spec.node_name,
                ).len() == 0 {
                    None
                } else {
                    Some(text_or_empty(pod.name))
                },
            }
        },
    }
}

fn text_of(o: &Option<String>) -> (r: &str)
    ensures
        r@ == text_or_empty(*o),
{
    proof {
        reveal_strlit("");
    }
    match o {
        Some(s) => s.as_str(),
        None => "",
    }
}

/// The name of the pod to patch with a debugger container, or `None` where
/// the pod is skipped.
pub fn debugger_target(pod: &PodSummary) -> (r: Option<String>)
    ensures
        match r {
            Some(name) => injection_target(*pod) == Some(name@),
            None => injection_target(*pod) is None,
        },
{
    let pod_name = text_of(&pod.name);
    let phase = match &pod.status {
        Some(status) => text_of(&status.phase),
        None => {
            return None;
        },
    };
    if !str_eq(phase, "Running") {
        return None;
    }
    let node_name = match &pod.spec {
        Some(spec) => text_of(&spec.node_name),
        None => {
            return None;
        },
    };
    if pod_name.unicode_len() == 0 || node_name.unicode_len() == 0 {
        return None;
    }
    Some(pod_name.to_owned())
}

/// Where a pod stands with the debugger container named `debugger`.
#[derive(Clone, Copy, Debug, PartialEq, Eq)]
pub enum DebuggerState {
    /// The debugger container runs.
    Running,
    /// The debugger container does not run yet.
    NotRunning,
    /// A status of the debugger container, met before any that runs, has no
    /// state: the workflow cannot tell and gives up.
    Unknown,
}

/// A container status of the debugger that says it is running.
pub open spec fn runs_debugger(c: ContainerStatusSummary, debugger: Seq<char>) -> bool {
    c.name@ == debugger && c.state is Some && c.state->0.running
}

/// A container status of the debugger that has no state.
pub open spec fn lacks_state(c: ContainerStatusSummary, debugger: Seq<char>) -> bool {
    c.name@ == debugger && c.state is None
}

/// The state of the debugger over the container statuses, read in order: it
/// runs if a status says so before any status of it without a state.
pub open spec fn statuses_state(statuses: Seq<ContainerStatusSummary>, debugger: Seq<char>) -> DebuggerState
    decreases statuses.len(),
{
    if statuses.len() == 0 {
        DebuggerState::NotRunning
    } else if runs_debugger(statuses[0], debugger) {
        DebuggerState::Running
    } else if lacks_state(statuses[0], debugger) {
        DebuggerState::Unknown
    } else {
        statuses_state(statuses.drop_first(), debugger)
    }
}

/// The state of the debugger in a pod status: not running without a status
/// or without ephemeral container statuses.
pub open spec fn pod_debugger_state(status: Option<PodStatusSummary>, debugger: Seq<char>) -> DebuggerState {
    match status {
        Some(s) => match s.ephemeral_container_statuses {
            Some(statuses) => statuses_state(statuses@, debugger),
            None => DebuggerState::NotRunning,
        },
        None => DebuggerState::NotRunning,
    }
}

/// Whether the debugger container named `debugger` runs in a pod with the
/// given status.
pub fn debugger_state(status: &Option<PodStatusSummary>, debugger: &str) -> (r: DebuggerState)
    ensures
        r == pod_debugger_state(*status, debugger@),
{
    let statuses = match status {
        Some(s) => match &s.ephemeral_container_statuses {
            Some(statuses) => statuses,
            None => {
                return DebuggerState::NotRunning;
            },
        },
        None => {
            return DebuggerState::NotRunning;
        },
    };
    let mut i: usize = 0;
    assert(statuses@.skip(0) =~= statuses@);
    assert(pod_debugger_state(*status, debugger@) == statuses_state(statuses@, debugger@));
    while i < statuses.len()
        invariant
            i <= statuses@.len(),
            pod_debugger_state(*status, debugger@) == statuses_state(statuses@, debugger@),
            statuses_state(statuses@, debugger@) == statuses_state(statuses@.skip(i as int), debugger@),
        decreases statuses@.len() - i,
    {
        let c = &statuses[i];
        assert(statuses@.skip(i as int)[0] == statuses@[i as int]);
        assert(statuses@.skip(i as int).drop_first() =~= statuses@.skip(i + 1));
        if str_eq(c.name.as_str(), debugger) {
            match &c.state {
                Some(state) => {
                    if state.running {
                        return DebuggerState::Running;
                    }
                },
                None => {
                    return DebuggerState::Unknown;
                },
            }
        }
        i = i + 1;
    }
    DebuggerState::NotRunning
}

/// Counts the pods whose debugger is ready, out of the pods there were.
pub struct WaitTracker {
    pub total_pods: u32,
    pub total_waits: u32,
}

impl WaitTracker {
    /// The wait is not over: fewer debuggers are ready than there are pods,
    /// or none is ready yet.
    pub open spec fn waiting(self) -> bool {
        self.total_waits < self.total_pods || self.total_waits == 0
    }

    /// A wait for `total_pods` debuggers, none of them ready.
    pub fn new(total_pods: u32) -> (r: WaitTracker)
        ensures
            r.total_pods == total_pods,
            r.total_waits == 0,
            r.waiting(),
    {
        WaitTracker { total_pods, total_waits: 0 }
    }

    /// Whether the wait is not over, so that one more ready debugger may be
    /// recorded.
    pub fn is_waiting(&self) -> (r: bool)
        ensures
            r == self.waiting(),
    {
        self.total_waits < self.total_pods || self.total_waits == 0
    }

    /// Records one more ready debugger; the wait is over once as many are
    /// ready as there are pods.
    pub fn record_ready(&mut self) -> (done: bool)
        requires
            old(self).waiting(),
        ensures
            final(self).total_pods == old(self).total_pods,
            final(self).total_waits == old(self).total_waits + 1,
            done == (final(self).total_waits >= final(self).total_pods),
            !done ==> final(self).waiting(),
    {
        self.total_waits = self.total_waits + 1;
        self.total_waits >= self.total_pods
    }
}

impl WaitTracker {
    /// Handles a debugger that became ready: records it while the wait is
    /// not over, and says whether to stop waiting.
    pub fn debugger_ready(&mut self) -> (stop: bool)
        ensures
            final(self).total_pods == old(self).total_pods,
            old(self).waiting() ==> final(self).total_waits == old(self).total_waits + 1 && stop == (
            final(self).total_waits >= final(self).total_pods) && (!stop ==> final(self).waiting()),
            !old(self).waiting() ==> final(self).total_waits == old(self).total_waits && stop,
    {
        if !self.is_waiting() {
            return true;
        }
        self.record_ready()
    }
}

/// What the wait reads of an event of the pod watch.
pub enum WatchEventSummary {
    /// A pod changed.
    Modified(PodSummary),
    /// The watch reported an error.
    Error,
    /// Any other event.
    Other,
}

/// What the wait does on an event of the pod watch.
#[derive(Debug, PartialEq, Eq)]
pub enum WaitStep {
    /// Go on with the next event.
    Continue,
    /// The debugger of the named pod runs: wait in it for the data, then
    /// count it as ready.
    Exec(String),
    /// The debugger's state cannot be told: give up.
    Unknown,
    /// Stop with the watch's error.
    Fail,
}

/// `step` is what the wait does on `event` for the debugger `debugger`.
pub open spec fn is_wait_step(event: WatchEventSummary, debugger: Seq<char>, step: WaitStep) -> bool {
    match event {
        WatchEventSummary::Modified(pod) => match pod_debugger_state(pod.status, debugger) {
            DebuggerState::Running => step matches WaitStep::Exec(name) && name@ == text_or_empty(
                pod.name,
            ),
            DebuggerState::NotRunning => step is Continue,
            DebuggerState::Unknown => step is Unknown,
        },
        WatchEventSummary::Error => step is Fail,
        WatchEventSummary::Other => step is Continue,
    }
}

/// What the wait does on `event`: exec in a pod whose debugger runs, go on
/// while it does not, give up where its state cannot be told, stop on a
/// watch error.
pub fn wait_step(event: &WatchEventSummary, debugger: &str) -> (r: WaitStep)
    ensures
        is_wait_step(*event, debugger@, r),
{
    match event {
        WatchEventSummary::Modified(pod) => match debugger_state(&pod.status, debugger) {
            DebuggerState::Running => WaitStep::Exec(text_of(&pod.name).to_owned()),
            DebuggerState::NotRunning => WaitStep::Continue,
            DebuggerState::Unknown => WaitStep::Unknown,
        },
        WatchEventSummary::Error => WaitStep::Fail,
        WatchEventSummary::Other => WaitStep::Continue,
    }
}

/// The command that streams the gzip-compressed tar archive of the
/// directory `src_path` to standard output.
pub fn tar_command(src_path: &str) -> (r: String)
    ensures
        r@ == "tar -C "@ + src_path@ + " -czO ."@,
{
    let mut command = String::from_str("tar -C ");
    command.append(src_path);
    command.append(" -czO .");
    command
}

/// The archive that each node's debugger sent, by node name.
pub struct NodeArchives {
    entries: Vec<(String, Vec<u8>)>,
}

/// The map that a list of (node name, archive) pairs gives, later pairs
/// taking the place of earlier ones with the same name.
pub open spec fn entries_map(entries: Seq<(String, Vec<u8>)>) -> Map<Seq<char>, Seq<u8>>
    decreases entries.len(),
{
    if entries.len() == 0 {
        Map::empty()
    } else {
        entries_map(entries.drop_last()).insert(entries.last().0@, entries.last().1@)
    }
}

/// No node name occurs twice.
pub open spec fn distinct_names(entries: Seq<(String, Vec<u8>)>) -> bool {
    forall|a: int, b: int| 0 <= a < b < entries.len() ==> entries[a].0@ != entries[b].0@
}

proof fn lemma_entries_map(entries: Seq<(String, Vec<u8>)>)
    requires
        distinct_names(entries),
    ensures
        forall|k: Seq<char>|
            entries_map(entries).contains_key(k) <==> exists|i: int|
                0 <= i < entries.len() && (#[trigger] entries[i]).0@ == k,
        forall|i: int|
            0 <= i < entries.len() ==> entries_map(entries)[(#[trigger] entries[i]).0@]
                == entries[i].1@,
        entries_map(entries).dom().finite(),
        entries_map(entries).len() == entries.len(),
    decreases entries.len(),
{
    if entries.len() > 0 {
        let init = entries.drop_last();
        assert forall|a: int, b: int| 0 <= a < b < init.len() implies init[a].0@ != init[b].0@ by {
            assert(init[a] == entries[a] && init[b] == entries[b]);
        }
        lemma_entries_map(init);
        let last = entries.last();
        assert(entries[entries.len() - 1] == last);
        assert forall|k: Seq<char>|
            entries_map(entries).contains_key(k) <==> exists|i: int|
                0 <= i < entries.len() && (#[trigger] entries[i]).0@ == k by {
            if entries_map(init).contains_key(k) {
                let i = choose|i: int| 0 <= i < init.len() && (#[trigger] init[i]).0@ == k;
                assert(entries[i] == init[i]);
            }
            if exists|i: int| 0 <= i < entries.len() && (#[trigger] entries[i]).0@ == k {
                let i = choose|i: int| 0 <= i < entries.len() && (#[trigger] entries[i]).0@ == k;
                if i < init.len() {
                    assert(init[i] == entries[i]);
                }
            }
        }
        assert forall|i: int| 0 <= i < entries.len() implies entries_map(entries)[(
        #[trigger] entries[i]).0@] == entries[i].1@ by {
            if i < init.len() {
                assert(init[i] == entries[i]);
                assert(entries[i].0@ != last.0@);
            }
        }
        assert(!entries_map(init).contains_key(last.0@)) by {
            if entries_map(init).contains_key(last.0@) {
                let i = choose|i: int| 0 <= i < init.len() && (#[trigger] init[i]).0@ == last.0@;
                assert(init[i] == entries[i]);
            }
        }
    }
}

proof fn lemma_entries_map_update(entries: Seq<(String, Vec<u8>)>, k: int, e: (String, Vec<u8>))
    requires
        distinct_names(entries),
        0 <= k < entries.len(),
        entries[k].0@ == e.0@,
    ensures
        distinct_names(entries.update(k, e)),
        entries_map(entries.update(k, e)) == entries_map(entries).insert(e.0@, e.1@),
{
    let updated = entries.update(k, e);
    assert forall|a: int, b: int| 0 <= a < b < updated.len() implies updated[a].0@ != updated[b].0@ by {
        assert(updated[a].0@ == entries[a].0@);
        assert(updated[b].0@ == entries[b].0@);
    }
    lemma_entries_map(entries);
    lemma_entries_map(updated);
    let m1 = entries_map(updated);
    let m2 = entries_map(entries).insert(e.0@, e.1@);
    assert forall|x: Seq<char>| m1.contains_key(x) <==> m2.contains_key(x) by {
        if m1.contains_key(x) {
            let i = choose|i: int| 0 <= i < updated.len() && (#[trigger] updated[i]).0@ == x;
            assert(entries[i].0@ == x);
        }
        if entries_map(entries).contains_key(x) {
            let i = choose|i: int| 0 <= i < entries.len() && (#[trigger] entries[i]).0@ == x;
            assert(updated[i].0@ == x);
        }
        if x == e.0@ {
            assert(updated[k].0@ == x);
        }
    }
    assert forall|x: Seq<char>| m1.contains_key(x) implies m1[x] == m2[x] by {
        let i = choose|i: int| 0 <= i < updated.len() && (#[trigger] updated[i]).0@ == x;
        if i == k {
        } else {
            assert(updated[i] == entries[i]);
            assert(entries[i].0@ != e.0@);
        }
    }
    assert(m1 =~= m2);
}

proof fn lemma_entries_map_push(entries: Seq<(String, Vec<u8>)>, e: (String, Vec<u8>))
    requires
        distinct_names(entries),
        forall|i: int| 0 <= i < entries.len() ==> (#[trigger] entries[i]).0@ != e.0@,
    ensures
        distinct_names(entries.push(e)),
        entries_map(entries.push(e)) == entries_map(entries).insert(e.0@, e.1@),
{
    let pushed = entries.push(e);
    assert forall|a: int, b: int| 0 <= a < b < pushed.len() implies pushed[a].0@ != pushed[b].0@ by {
        assert(pushed[a] == entries[a]);
    }
    assert(pushed.drop_last() =~= entries);
}

impl View for NodeArchives {
    type V = Map<Seq<char>, Seq<u8>>;

    closed spec fn view(&self) -> Map<Seq<char>, Seq<u8>> {
        entries_map(self.entries@)
    }
}

impl NodeArchives {
    /// No node name occurs twice.
    #[verifier::type_invariant]
    spec fn well_formed(self) -> bool {
        distinct_names(self.entries@)
    }

    /// No archives yet.
    pub fn new() -> (r: NodeArchives)
        ensures
            r@ == Map::<Seq<char>, Seq<u8>>::empty(),
    {
        NodeArchives { entries: Vec::new() }
    }

    /// The number of nodes with an archive.
    pub fn len(&self) -> (r: usize)
        ensures
            r == self@.len(),
    {
        proof {
            use_type_invariant(self);
            lemma_entries_map(self.entries@);
        }
        self.entries.len()
    }

    /// Records the archive of `node_name`, in place of any earlier one.
    pub fn insert(&mut self, node_name: String, archive: Vec<u8>)
        ensures
            final(self)@ == old(self)@.insert(node_name@, archive@),
    {
        proof {
            use_type_invariant(&*self);
        }
        let mut entries: Vec<(String, Vec<u8>)> = Vec::new();
        std::mem::swap(&mut entries, &mut self.entries);
        let ghost before = entries@;
        let mut i: usize = 0;
        while i < entries.len()
            invariant
                i <= entries@.len(),
                entries@ == before,
                before == old(self).entries@,
                distinct_names(before),
                forall|k: int| 0 <= k < i ==> (#[trigger] entries@[k]).0@ != node_name@,
            decreases entries@.len() - i,
        {
            if entries[i].0 == node_name {
                let entry = (node_name, archive);
                proof {
                    lemma_entries_map_update(before, i as int, entry);
                }
                entries.set(i, entry);
                self.entries = entries;
                return;
            }
            i = i + 1;
        }
        let entry = (node_name, archive);
        proof {
            lemma_entries_map_push(before, entry);
        }
        entries.push(entry);
        self.entries = entries;
    }

    /// The archive of `node_name`, if there is one.
    pub fn get(&self, node_name: &str) -> (r: Option<&Vec<u8>>)
        ensures
            match r {
                Some(archive) => self@.contains_key(node_name@) && self@[node_name@] == archive@,
                None => !self@.contains_key(node_name@),
            },
    {
        proof {
            use_type_invariant(self);
            lemma_entries_map(self.entries@);
        }
        let mut i: usize = 0;
        while i < self.entries.len()
            invariant
                i <= self.entries@.len(),
                distinct_names(self.entries@),
                forall|k: int| 0 <= k < i ==> (#[trigger] self.entries@[k]).0@ != node_name@,
            decreases self.entries@.len() - i,
        {
            if crate::text::str_eq(self.entries[i].0.as_str(), node_name) {
                assert(self.entries@[i as int].0@ == node_name@);
                proof {
                    lemma_entries_map(self.entries@);
                }
                return Some(&self.entries[i].1);
            }
            i = i + 1;
        }
        proof {
            lemma_entries_map(self.entries@);
            if self@.contains_key(node_name@) {
                let k = choose|k: int| 0 <= k < self.entries@.len() && (#[trigger] self.entries@[k]).0@ == node_name@;
            }
        }
        None
    }

    /// The node names with their archives, each node once.
    pub fn into_entries(self) -> (r: Vec<(String, Vec<u8>)>)
        ensures
            distinct_names(r@),
            entries_map(r@) == self@,
    {
        proof {
            use_type_invariant(&self);
        }
        self.entries
    }
}

/// Records the archive that the debugger of `pod` sent, under the pod's node
/// name; a pod without a spec or a node name records nothing.
pub fn record_archive(archives: &mut NodeArchives, pod: &PodSummary, archive: Vec<u8>)
    ensures
        final(archives)@ == match pod.spec {
            Some(spec) => match spec.node_name {
                Some(node) => old(archives)@.insert(node@, archive@),
                None => old(archives)@,
            },
            None => old(archives)@,
        },
{
    if let Some(spec) = &pod.spec {
        if let Some(node) = &spec.node_name {
            archives.insert(node.clone(), archive);
        }
    }
}

/// Reading a node's archive after recording it gives back what was
/// recorded; the archives of other nodes stay as they were.
pub proof fn lemma_read_after_record(
    before: Map<Seq<char>, Seq<u8>>,
    node: Seq<char>,
    archive: Seq<u8>,
    other: Seq<char>,
)
    ensures
        before.insert(node, archive).contains_key(node),
        before.insert(node, archive)[node] == archive,
        other != node ==> (before.insert(node, archive).contains_key(other) == before.contains_key(
            other,
        ) && before.insert(node, archive)[other] == before[other]),
{
}

/// A pod gets a debugger exactly when it has a status whose phase is
/// `Running` and a spec, with a non-empty name and a non-empty node name;
/// it is then targeted by its name. Nothing else of the pod counts.
pub proof fn law_target_is_running_named_pod(pod: PodSummary)
    ensures
        ({
            let chosen = pod.status is Some && pod.status->0.phase is Some
                && pod.status->0.phase->0@ == "Running"@ && pod.spec is Some && pod.name is Some
                && pod.name->0@.len() > 0 && pod.spec->0.node_name is Some
                && pod.spec->0.node_name->0@.len() > 0;
            &&& chosen ==> injection_target(pod) == Some(pod.name->0@)
            &&& !chosen ==> injection_target(pod) is None
        }),
{
    reveal_strlit("Running");
    assert("Running"@.len() == 7);
    if pod.status is Some && pod.status->0.phase is None {
        assert(text_or_empty(pod.status->0.phase) =~= seq![]);
    }
}

/// Whether a pod gets a debugger does not depend on its ephemeral container
/// statuses: a debugger left from an earlier run changes nothing.
pub proof fn law_target_ignores_container_statuses(
    pod: PodSummary,
    statuses: Option<Vec<ContainerStatusSummary>>,
)
    requires
        pod.status is Some,
    ensures
        injection_target(
            (PodSummary {
                name: pod.name,
                spec: pod.spec,
                status: Some(
                    PodStatusSummary {
                        phase: pod.status->0.phase,
                        ephemeral_container_statuses: statuses,
                    },
                ),
            }),
        ) == injection_target(pod),
{
}

/// A status of another container changes nothing of the debugger's state.
pub proof fn law_other_containers_do_not_count(
    c: ContainerStatusSummary,
    statuses: Seq<ContainerStatusSummary>,
    debugger: Seq<char>,
)
    requires
        c.name@ != debugger,
    ensures
        statuses_state(seq![c] + statuses, debugger) == statuses_state(statuses, debugger),
{
    let s = seq![c] + statuses;
    assert(s[0] == c);
    assert(s.drop_first() =~= statuses);
}

/// The debugger runs exactly when some status named after it says it is
/// running and no status named after it without a state comes before.
pub proof fn law_debugger_runs_by_its_statuses(statuses: Seq<ContainerStatusSummary>, debugger: Seq<char>)
    ensures
        (statuses_state(statuses, debugger) == DebuggerState::Running) <==> exists|i: int|
            #![trigger statuses[i]]
            0 <= i < statuses.len() && statuses[i].name@ == debugger && statuses[i].state is Some
                && statuses[i].state->0.running && forall|j: int|
                #![trigger statuses[j]]
                0 <= j < i ==> !(statuses[j].name@ == debugger && statuses[j].state is None),
    decreases statuses.len(),
{
    if statuses.len() > 0 {
        let h = statuses[0];
        let t = statuses.drop_first();
        law_debugger_runs_by_its_statuses(t, debugger);
        if !runs_debugger(h, debugger) && !lacks_state(h, debugger) {
            if exists|i: int|
                #![trigger statuses[i]]
                0 <= i < statuses.len() && statuses[i].name@ == debugger && statuses[i].state is Some
                    && statuses[i].state->0.running && forall|j: int|
                    #![trigger statuses[j]]
                    0 <= j < i ==> !(statuses[j].name@ == debugger && statuses[j].state is None) {
                let i = choose|i: int|
                    #![trigger statuses[i]]
                    0 <= i < statuses.len() && statuses[i].name@ == debugger && statuses[i].state is Some
                        && statuses[i].state->0.running && forall|j: int|
                        #![trigger statuses[j]]
                        0 <= j < i ==> !(statuses[j].name@ == debugger && statuses[j].state is None);
                assert(i > 0);
                assert(t[i - 1] == statuses[i]);
                assert forall|j: int| 0 <= j < i - 1 implies !(#[trigger] t[j].name@ == debugger
                    && t[j].state is None) by {
                    assert(t[j] == statuses[j + 1]);
                }
            }
            if exists|i: int|
                #![trigger t[i]]
                0 <= i < t.len() && t[i].name@ == debugger && t[i].state is Some && t[i].state->0.running
                    && forall|j: int|
                    #![trigger t[j]]
                    0 <= j < i ==> !(t[j].name@ == debugger && t[j].state is None) {
                let i = choose|i: int|
                    #![trigger t[i]]
                    0 <= i < t.len() && t[i].name@ == debugger && t[i].state is Some
                        && t[i].state->0.running && forall|j: int|
                        #![trigger t[j]]
                        0 <= j < i ==> !(t[j].name@ == debugger && t[j].state is None);
                assert(statuses[i + 1] == t[i]);
                assert forall|j: int| 0 <= j < i + 1 implies !(#[trigger] statuses[j].name@ == debugger
                    && statuses[j].state is None) by {
                    if j > 0 {
                        assert(statuses[j] == t[j - 1]);
                    }
                }
            }
        }
    }
}

/// The debugger's state is unknown exactly when some status named after it
/// has no state and no status named after it that runs comes before.
pub proof fn law_debugger_unknown_by_its_statuses(statuses: Seq<ContainerStatusSummary>, debugger: Seq<char>)
    ensures
        (statuses_state(statuses, debugger) == DebuggerState::Unknown) <==> exists|i: int|
            #![trigger statuses[i]]
            0 <= i < statuses.len() && statuses[i].name@ == debugger && statuses[i].state is None
                && forall|j: int|
                #![trigger statuses[j]]
                0 <= j < i ==> !(statuses[j].name@ == debugger && statuses[j].state is Some
                    && statuses[j].state->0.running),
    decreases statuses.len(),
{
    if statuses.len() > 0 {
        let h = statuses[0];
        let t = statuses.drop_first();
        law_debugger_unknown_by_its_statuses(t, debugger);
        if !runs_debugger(h, debugger) && !lacks_state(h, debugger) {
            if exists|i: int|
                #![trigger statuses[i]]
                0 <= i < statuses.len() && statuses[i].name@ == debugger && statuses[i].state is None
                    && forall|j: int|
                    #![trigger statuses[j]]
                    0 <= j < i ==> !(statuses[j].name@ == debugger && statuses[j].state is Some
                        && statuses[j].state->0.running) {
                let i = choose|i: int|
                    #![trigger statuses[i]]
                    0 <= i < statuses.len() && statuses[i].name@ == debugger && statuses[i].state is None
                        && forall|j: int|
                        #![trigger statuses[j]]
                        0 <= j < i ==> !(statuses[j].name@ == debugger && statuses[j].state is Some
                            && statuses[j].state->0.running);
                assert(i > 0);
                assert(t[i - 1] == statuses[i]);
                assert forall|j: int| 0 <= j < i - 1 implies !(#[trigger] t[j].name@ == debugger
                    && t[j].state is Some && t[j].state->0.running) by {
                    assert(t[j] == statuses[j + 1]);
                }
            }
            if exists|i: int|
                #![trigger t[i]]
                0 <= i < t.len() && t[i].name@ == debugger && t[i].state is None && forall|j: int|
                    #![trigger t[j]]
                    0 <= j < i ==> !(t[j].name@ == debugger && t[j].state is Some
                        && t[j].state->0.running) {
                let i = choose|i: int|
                    #![trigger t[i]]
                    0 <= i < t.len() && t[i].name@ == debugger && t[i].state is None && forall|j: int|
                        #![trigger t[j]]
                        0 <= j < i ==> !(t[j].name@ == debugger && t[j].state is Some
                            && t[j].state->0.running);
                assert(statuses[i + 1] == t[i]);
                assert forall|j: int| 0 <= j < i + 1 implies !(#[trigger] statuses[j].name@ == debugger
                    && statuses[j].state is Some && statuses[j].state->0.running) by {
                    if j > 0 {
                        assert(statuses[j] == t[j - 1]);
                    }
                }
            }
        }
    }
}

/// The debugger does not run exactly when every status named after it has a
/// state that is not running; statuses of other containers do not count.
pub proof fn law_debugger_not_running_by_its_statuses(
    statuses: Seq<ContainerStatusSummary>,
    debugger: Seq<char>,
)
    ensures
        (statuses_state(statuses, debugger) == DebuggerState::NotRunning) <==> forall|i: int|
            #![trigger statuses[i]]
            0 <= i < statuses.len() && statuses[i].name@ == debugger ==> statuses[i].state is Some
                && !statuses[i].state->0.running,
    decreases statuses.len(),
{
    if statuses.len() > 0 {
        let h = statuses[0];
        let t = statuses.drop_first();
        law_debugger_not_running_by_its_statuses(t, debugger);
        if runs_debugger(h, debugger) || lacks_state(h, debugger) {
            assert(statuses[0] == h);
        } else {
            if forall|i: int|
                #![trigger t[i]]
                0 <= i < t.len() && t[i].name@ == debugger ==> t[i].state is Some
                    && !t[i].state->0.running {
                assert forall|i: int|
                    0 <= i < statuses.len() && #[trigger] statuses[i].name@ == debugger implies statuses[i].state is Some
                        && !statuses[i].state->0.running by {
                    if i > 0 {
                        assert(statuses[i] == t[i - 1]);
                    }
                }
            }
            if forall|i: int|
                #![trigger statuses[i]]
                0 <= i < statuses.len() && statuses[i].name@ == debugger ==> statuses[i].state is Some
                    && !statuses[i].state->0.running {
                assert forall|i: int|
                    0 <= i < t.len() && #[trigger] t[i].name@ == debugger implies t[i].state is Some
                        && !t[i].state->0.running by {
                    assert(statuses[i + 1] == t[i]);
                }
            }
        }
    }
}

} // verus!
