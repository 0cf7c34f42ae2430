use cpucaps::k8s::{
    debugger_state, debugger_target, record_archive, tar_command, wait_step, ContainerStateSummary,
    ContainerStatusSummary, DebuggerState, NodeArchives, PodSpecSummary, PodStatusSummary,
    PodSummary, WaitStep, WaitTracker, WatchEventSummary,
};

fn pod(name: Option<&str>, phase: Option<&str>, node: Option<&str>, has_spec: bool, has_status: bool) -> PodSummary {
    PodSummary {
        name: name.map(|s| s.to_string()),
        spec: if has_spec { Some(PodSpecSummary { node_name: node.map(|s| s.to_string()) }) } else { None },
        status: if has_status {
            Some(PodStatusSummary { phase: phase.map(|s| s.to_string()), ephemeral_container_statuses: None })
        } else {
            None
        },
    }
}

#[test]
fn running_pods_with_a_node_get_a_debugger() {
    let p = pod(Some("virt-handler-58bwp"), Some("Running"), Some("isim-dev"), true, true);
    assert_eq!(debugger_target(&p), Some("virt-handler-58bwp".to_string()));
}

#[test]
fn other_pods_are_skipped() {
    assert_eq!(debugger_target(&pod(Some("p"), Some("Pending"), Some("n"), true, true)), None);
    assert_eq!(debugger_target(&pod(Some("p"), None, Some("n"), true, true)), None);
    assert_eq!(debugger_target(&pod(Some("p"), Some("Running"), Some("n"), true, false)), None);
    assert_eq!(debugger_target(&pod(Some("p"), Some("Running"), Some("n"), false, true)), None);
    assert_eq!(debugger_target(&pod(Some("p"), Some("Running"), None, true, true)), None);
    assert_eq!(debugger_target(&pod(Some("p"), Some("Running"), Some(""), true, true)), None);
    assert_eq!(debugger_target(&pod(None, Some("Running"), Some("n"), true, true)), None);
    assert_eq!(debugger_target(&pod(Some(""), Some("Running"), Some("n"), true, true)), None);
}

fn container(name: &str, state: Option<bool>) -> ContainerStatusSummary {
    ContainerStatusSummary { name: name.to_string(), state: state.map(|running| ContainerStateSummary { running }) }
}

fn status(statuses: Option<Vec<ContainerStatusSummary>>) -> Option<PodStatusSummary> {
    Some(PodStatusSummary { phase: Some("Running".to_string()), ephemeral_container_statuses: statuses })
}

#[test]
fn debugger_state_reads_the_named_container() {
    let dbg = "debugger-1733390828";
    assert_eq!(debugger_state(&None, dbg), DebuggerState::NotRunning);
    assert_eq!(debugger_state(&status(None), dbg), DebuggerState::NotRunning);
    assert_eq!(debugger_state(&status(Some(vec![])), dbg), DebuggerState::NotRunning);
    assert_eq!(
        debugger_state(&status(Some(vec![container("other", Some(true)), container(dbg, Some(false))])), dbg),
        DebuggerState::NotRunning
    );
    assert_eq!(
        debugger_state(&status(Some(vec![container("other", None), container(dbg, Some(true))])), dbg),
        DebuggerState::Running
    );
    assert_eq!(
        debugger_state(&status(Some(vec![container(dbg, Some(true)), container(dbg, None)])), dbg),
        DebuggerState::Running
    );
    assert_eq!(
        debugger_state(&status(Some(vec![container(dbg, None), container(dbg, Some(true))])), dbg),
        DebuggerState::Unknown
    );
}

#[test]
fn wait_ends_once_every_pod_is_ready() {
    let mut tracker = WaitTracker::new(3);
    assert!(!tracker.record_ready());
    assert!(!tracker.record_ready());
    assert!(tracker.record_ready());
    assert_eq!(tracker.total_waits, 3);

    let mut none = WaitTracker::new(0);
    assert!(none.record_ready());
}

#[test]
fn tar_command_streams_the_directory() {
    assert_eq!(tar_command("/var/lib/kubevirt-node-labeller"), "tar -C /var/lib/kubevirt-node-labeller -czO .");
    assert_eq!(tar_command(""), "tar -C  -czO .");
}

#[test]
fn archives_are_recorded_by_node() {
    let mut archives = NodeArchives::new();
    assert_eq!(archives.len(), 0);
    archives.insert("n1".to_string(), vec![1, 2]);
    archives.insert("n2".to_string(), vec![3]);
    assert_eq!(archives.get("n1"), Some(&vec![1, 2]));
    archives.insert("n1".to_string(), vec![9]);
    assert_eq!(archives.get("n1"), Some(&vec![9]));
    assert_eq!(archives.get("n2"), Some(&vec![3]));
    assert_eq!(archives.get("n3"), None);
    assert_eq!(archives.len(), 2);
    let mut entries = archives.into_entries();
    entries.sort();
    assert_eq!(entries, vec![("n1".to_string(), vec![9]), ("n2".to_string(), vec![3])]);
}

#[test]
fn pods_without_a_node_record_nothing() {
    let mut archives = NodeArchives::new();
    record_archive(&mut archives, &pod(Some("p"), Some("Running"), None, true, true), vec![1]);
    record_archive(&mut archives, &pod(Some("p"), Some("Running"), Some("n"), false, true), vec![2]);
    assert_eq!(archives.len(), 0);
    record_archive(&mut archives, &pod(Some("p"), Some("Pending"), Some("n"), true, false), vec![3]);
    assert_eq!(archives.get("n"), Some(&vec![3]));
}

#[test]
fn wait_steps_follow_the_debugger() {
    let dbg = "debugger-1";
    let running = PodSummary {
        name: Some("virt-handler-t2qlz".to_string()),
        spec: None,
        status: status(Some(vec![container(dbg, Some(true))])),
    };
    assert_eq!(
        wait_step(&WatchEventSummary::Modified(running), dbg),
        WaitStep::Exec("virt-handler-t2qlz".to_string())
    );
    let waiting = PodSummary { name: Some("p".to_string()), spec: None, status: status(Some(vec![container(dbg, Some(false))])) };
    assert_eq!(wait_step(&WatchEventSummary::Modified(waiting), dbg), WaitStep::Continue);
    let unknown = PodSummary { name: None, spec: None, status: status(Some(vec![container(dbg, None)])) };
    assert_eq!(wait_step(&WatchEventSummary::Modified(unknown), dbg), WaitStep::Unknown);
    assert_eq!(wait_step(&WatchEventSummary::Error, dbg), WaitStep::Fail);
    assert_eq!(wait_step(&WatchEventSummary::Other, dbg), WaitStep::Continue);
}

#[test]
fn debugger_ready_stops_after_the_last_pod() {
    let mut tracker = WaitTracker::new(2);
    assert!(!tracker.debugger_ready());
    assert!(tracker.debugger_ready());
    assert_eq!(tracker.total_waits, 2);
    let mut over = WaitTracker { total_pods: 1, total_waits: 5 };
    assert!(over.debugger_ready());
    assert_eq!(over.total_waits, 5);
}
