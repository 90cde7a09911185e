use procdump::monitor::{
    monitor_processes, observer_plan, resolve_single_target, selector_accepts, start_monitor,
    wait_for_monitor_exit, Candidate, Fleet, MonitoredProcessMapEntry, StartStep, TargetError,
};
use procdump::processhelpers::{ProcEntry, ProcError};
use procdump::procdumpconfiguration::{ProcDumpConfiguration, TargetReport, TargetState};
use procdump::triggerthreadprocs::TriggerKind;

fn group_config(pgid: i32, dumps: u32) -> ProcDumpConfiguration {
    let mut c = ProcDumpConfiguration::default();
    c.is_process_group_set = true;
    c.process_pgid = pgid;
    c.number_of_dumps_to_collect = dumps;
    c.trigger_threshold_timer = true;
    c.threshold_seconds = 10;
    c.polling_frequency = 1000;
    c.core_dump_path = String::from(".");
    c
}

fn name_config(name: &str) -> ProcDumpConfiguration {
    let mut c = ProcDumpConfiguration::default();
    c.waiting_process_name = true;
    c.process_name = String::from(name);
    c.number_of_dumps_to_collect = 1;
    c.trigger_threshold_timer = true;
    c
}

fn candidate(pid: i32, pgid: u64, name: &str, start_time: u64) -> Candidate {
    Candidate { pid, pgid, name: String::from(name), start_time }
}

fn report(pid: i32, quit: bool, collected: u32, budget: u32) -> TargetReport {
    TargetReport {
        process_id: pid,
        is_quit: quit,
        process_terminated: false,
        number_of_dumps_collected: collected,
        number_of_dumps_to_collect: budget,
    }
}

fn active(starttime: u64) -> Option<MonitoredProcessMapEntry> {
    Some(MonitoredProcessMapEntry { active: true, starttime })
}

fn retired(starttime: u64) -> Option<MonitoredProcessMapEntry> {
    Some(MonitoredProcessMapEntry { active: false, starttime })
}

#[test]
fn selector_by_process_group() {
    let c = group_config(500, 1);
    assert!(selector_accepts(&c, &candidate(7, 500, "a", 1)));
    assert!(selector_accepts(&c, &candidate(8, 500, "", 1)));
    assert!(!selector_accepts(&c, &candidate(9, 501, "a", 1)));
    let mut unset = group_config(500, 1);
    unset.process_pgid = -1;
    assert!(!selector_accepts(&unset, &candidate(7, u64::MAX, "a", 1)));
}

#[test]
fn selector_by_name() {
    let c = name_config("worker");
    assert!(selector_accepts(&c, &candidate(7, 1, "worker", 1)));
    assert!(!selector_accepts(&c, &candidate(7, 1, "workers", 1)));
    assert!(!selector_accepts(&c, &candidate(7, 1, "", 1)));
    let empty = name_config("");
    assert!(!selector_accepts(&empty, &candidate(7, 1, "", 1)));
}

#[test]
fn selector_of_a_single_target_takes_nothing() {
    let mut c = ProcDumpConfiguration::default();
    c.process_id = 7;
    assert!(!selector_accepts(&c, &candidate(7, 500, "worker", 1)));
}

#[test]
fn attach_starts_a_fresh_target() {
    let mut config = group_config(500, 3);
    config.number_of_dumps_collected = 2;
    let mut fleet = Fleet::new();
    assert_eq!(fleet.get(7), None);
    assert!(!fleet.has_active());
    let state = fleet.attach(&config, &candidate(7, 500, "worker", 111)).unwrap();
    assert_eq!(state.process_id(), 7);
    assert_eq!(state.process_start_time(), 111);
    assert_eq!(state.dumps_collected(), 0);
    assert_eq!(state.dumps_in_flight(), 0);
    assert!(!state.is_terminated());
    assert!(!state.is_quit());
    assert_eq!(state.config().process_name, "worker");
    assert_eq!(state.config().process_pgid, 500);
    assert_eq!(state.config().number_of_dumps_to_collect, 3);
    assert_eq!(fleet.get(7), active(111));
    assert!(fleet.has_active());
}

#[test]
fn attach_leaves_known_and_foreign_processes_alone() {
    let config = group_config(500, 1);
    let mut fleet = Fleet::new();
    assert!(fleet.attach(&config, &candidate(7, 500, "a", 111)).is_some());
    assert!(fleet.attach(&config, &candidate(7, 500, "a", 111)).is_none());
    assert!(fleet.attach(&config, &candidate(7, 500, "a", 222)).is_none());
    assert_eq!(fleet.get(7), active(111));
    assert!(fleet.attach(&config, &candidate(8, 499, "a", 111)).is_none());
    assert_eq!(fleet.get(8), None);
}

#[test]
fn evict_retires_finished_targets_only() {
    let config = group_config(500, 2);
    let mut fleet = Fleet::new();
    fleet.attach(&config, &candidate(7, 500, "a", 111));
    fleet.attach(&config, &candidate(8, 500, "b", 112));
    assert!(!fleet.evict(&report(7, false, 1, 2)));
    assert_eq!(fleet.get(7), active(111));
    assert!(fleet.evict(&report(7, false, 2, 2)));
    assert_eq!(fleet.get(7), retired(111));
    assert!(!fleet.evict(&report(7, false, 2, 2)));
    assert!(fleet.evict(&report(8, true, 0, 2)));
    assert_eq!(fleet.get(8), retired(112));
    assert!(!fleet.evict(&report(9, true, 2, 2)));
    assert!(!fleet.has_active());
}

#[test]
fn discard_forgets_a_target() {
    let config = group_config(500, 2);
    let mut fleet = Fleet::new();
    fleet.attach(&config, &candidate(7, 500, "a", 111));
    fleet.attach(&config, &candidate(8, 500, "b", 112));
    assert!(fleet.discard(7));
    assert_eq!(fleet.get(7), None);
    assert_eq!(fleet.get(8), active(112));
    assert!(!fleet.discard(7));
    assert!(fleet.attach(&config, &candidate(7, 500, "a", 111)).is_some());
}

#[test]
fn pid_reuse_under_pgid() {
    let config = group_config(500, 1);
    let mut fleet = Fleet::new();

    let plan = monitor_processes(&mut fleet, &config, &vec![candidate(7, 500, "a", 1000)], &vec![]);
    assert_eq!(plan.start.len(), 1);
    assert!(plan.evict.is_empty());
    assert!(!plan.exit);
    let mut first: Vec<TargetState> = plan.start;
    let mut first = first.remove(0);
    assert_eq!(first.dumps_collected(), 0);

    assert!(first.reserve_dump());
    assert!(first.finish_dump(true));
    assert_eq!(first.dumps_collected(), 1);

    let plan = monitor_processes(
        &mut fleet,
        &config,
        &vec![candidate(7, 500, "a", 1000)],
        &vec![first.report()],
    );
    assert!(plan.start.is_empty());
    assert_eq!(plan.evict, vec![7]);
    assert!(!plan.exit);
    assert_eq!(fleet.get(7), retired(1000));

    let plan = monitor_processes(&mut fleet, &config, &vec![candidate(7, 500, "a", 1000)], &vec![]);
    assert!(plan.start.is_empty());
    assert!(plan.evict.is_empty());
    assert!(!plan.exit);

    let plan = monitor_processes(&mut fleet, &config, &vec![candidate(7, 500, "b", 2000)], &vec![]);
    assert_eq!(plan.start.len(), 1);
    let second = &plan.start[0];
    assert_eq!(second.process_id(), 7);
    assert_eq!(second.process_start_time(), 2000);
    assert_eq!(second.dumps_collected(), 0);
    assert_eq!(second.config().process_name, "b");
    assert_eq!(fleet.get(7), active(2000));
    assert!(!plan.exit);
}

#[test]
fn group_monitoring_ends_when_nothing_is_left() {
    let config = group_config(500, 1);
    let mut fleet = Fleet::new();
    let plan = monitor_processes(&mut fleet, &config, &vec![], &vec![]);
    assert!(plan.exit);

    let plan = monitor_processes(&mut fleet, &config, &vec![candidate(9, 7, "x", 1)], &vec![]);
    assert!(plan.exit);
    assert!(plan.start.is_empty());

    let plan = monitor_processes(&mut fleet, &config, &vec![candidate(7, 500, "a", 1)], &vec![]);
    assert!(!plan.exit);
    let plan = monitor_processes(&mut fleet, &config, &vec![], &vec![]);
    assert!(!plan.exit);
    let plan = monitor_processes(
        &mut fleet,
        &config,
        &vec![candidate(7, 500, "a", 1)],
        &vec![report(7, false, 1, 1)],
    );
    assert_eq!(plan.evict, vec![7]);
    assert!(!plan.exit);
    let plan = monitor_processes(&mut fleet, &config, &vec![], &vec![]);
    assert!(plan.exit);
}

#[test]
fn waiting_for_a_name_never_ends() {
    let config = name_config("worker");
    let mut fleet = Fleet::new();
    let plan = monitor_processes(&mut fleet, &config, &vec![], &vec![]);
    assert!(!plan.exit);
    let scan = vec![candidate(5, 1, "other", 1), candidate(6, 1, "worker", 2)];
    let plan = monitor_processes(&mut fleet, &config, &scan, &vec![]);
    assert_eq!(plan.start.len(), 1);
    assert_eq!(plan.start[0].process_id(), 6);
    let plan = monitor_processes(&mut fleet, &config, &vec![], &vec![report(6, true, 0, 1)]);
    assert_eq!(plan.evict, vec![6]);
    assert!(!plan.exit);
}

#[test]
fn one_pass_handles_several_candidates_and_reports() {
    let config = group_config(500, 2);
    let mut fleet = Fleet::new();
    let scan = vec![
        candidate(7, 500, "a", 1),
        candidate(8, 400, "b", 2),
        candidate(9, 500, "c", 3),
        candidate(7, 500, "a", 1),
    ];
    let reports = vec![report(9, false, 2, 2), report(8, true, 2, 2), report(7, false, 0, 2)];
    let plan = monitor_processes(&mut fleet, &config, &scan, &reports);
    let started: Vec<i32> = plan.start.iter().map(|s| s.process_id()).collect();
    assert_eq!(started, vec![7, 9]);
    assert_eq!(plan.evict, vec![9]);
    assert!(!plan.exit);
    assert_eq!(fleet.get(7), active(1));
    assert_eq!(fleet.get(8), None);
    assert_eq!(fleet.get(9), retired(3));
}

#[test]
fn observer_plan_has_one_observer_per_enabled_trigger() {
    let mut c = ProcDumpConfiguration::default();
    assert!(observer_plan(&c).is_empty());
    c.trigger_threshold_timer = true;
    assert_eq!(observer_plan(&c), vec![TriggerKind::Timer]);
    c.trigger_threshold_timer = false;
    c.trigger_threshold_mem = 100;
    assert_eq!(observer_plan(&c), vec![TriggerKind::Memory]);
    c.trigger_threshold_cpu = 50;
    c.trigger_threshold_threads = 10;
    c.trigger_threshold_file_descriptors = 10;
    assert_eq!(
        observer_plan(&c),
        vec![
            TriggerKind::Memory,
            TriggerKind::Cpu,
            TriggerKind::Threads,
            TriggerKind::FileDescriptors
        ]
    );
    let mut s = ProcDumpConfiguration::default();
    s.trigger_signal = 11;
    assert_eq!(observer_plan(&s), vec![TriggerKind::Signal]);
    s.trigger_threshold_timer = true;
    s.trigger_threshold_mem = 0;
    assert_eq!(
        observer_plan(&s),
        vec![TriggerKind::Memory, TriggerKind::Signal, TriggerKind::Timer]
    );
}

#[test]
fn start_monitor_walks_the_plan() {
    let mut c = ProcDumpConfiguration::default();
    c.trigger_threshold_mem = 100;
    c.trigger_threshold_threads = 10;
    assert_eq!(start_monitor(&c, &vec![]), StartStep::Spawn(TriggerKind::Memory));
    assert_eq!(start_monitor(&c, &vec![true]), StartStep::Spawn(TriggerKind::Threads));
    assert_eq!(start_monitor(&c, &vec![true, true]), StartStep::Running);
    assert_eq!(start_monitor(&c, &vec![true, true, true]), StartStep::Running);
}

#[test]
fn start_monitor_gives_up_after_a_failed_start() {
    let mut c = ProcDumpConfiguration::default();
    c.trigger_threshold_mem = 100;
    c.trigger_threshold_threads = 10;
    assert_eq!(start_monitor(&c, &vec![false]), StartStep::Abandon(0));
    assert_eq!(start_monitor(&c, &vec![true, false]), StartStep::Abandon(1));
    assert_eq!(start_monitor(&c, &vec![true, false, true]), StartStep::Abandon(1));
    let none = ProcDumpConfiguration::default();
    assert_eq!(start_monitor(&none, &vec![]), StartStep::Running);
}

#[test]
fn harvest_succeeds_when_no_observer_failed() {
    assert!(wait_for_monitor_exit(&vec![]));
    assert!(wait_for_monitor_exit(&vec![true, true, true]));
    assert!(!wait_for_monitor_exit(&vec![true, false, true]));
    assert!(!wait_for_monitor_exit(&vec![false]));
}

fn stat_record(pid: i32, starttime: u64) -> String {
    let mut s = format!("{} (worker) S", pid);
    for n in 4..=40 {
        if n == 22 {
            s.push_str(&format!(" {}", starttime));
        } else {
            s.push_str(" 1");
        }
    }
    s
}

fn table() -> Vec<ProcEntry> {
    vec![
        ProcEntry { name: String::from("self"), stat: None, cmdline: None },
        ProcEntry {
            name: String::from("4321"),
            stat: Some(stat_record(4321, 5555)),
            cmdline: Some(String::from("/usr/bin/worker\0")),
        },
        ProcEntry {
            name: String::from("4400"),
            stat: Some(String::from("4400 (bad)")),
            cmdline: Some(String::from("bad\0")),
        },
    ]
}

#[test]
fn nonexistent_pid_at_startup() {
    let mut c = ProcDumpConfiguration::default();
    c.process_id = 999999;
    assert!(matches!(resolve_single_target(&c, &table()), Err(TargetError::NoMatchingPid)));
    let unset = ProcDumpConfiguration::default();
    assert!(matches!(resolve_single_target(&unset, &table()), Err(TargetError::NoMatchingPid)));
}

#[test]
fn single_target_by_pid() {
    let mut c = ProcDumpConfiguration::default();
    c.process_id = 4321;
    c.number_of_dumps_to_collect = 2;
    c.number_of_dumps_collected = 1;
    let state = resolve_single_target(&c, &table()).ok().unwrap();
    assert_eq!(state.process_id(), 4321);
    assert_eq!(state.process_start_time(), 5555);
    assert_eq!(state.config().process_name, "worker");
    assert_eq!(state.dumps_collected(), 0);
}

#[test]
fn single_target_by_name() {
    let mut c = ProcDumpConfiguration::default();
    c.process_name = String::from("worker");
    let state = resolve_single_target(&c, &table()).ok().unwrap();
    assert_eq!(state.process_id(), 4321);
    c.process_name = String::from("missing");
    assert!(matches!(resolve_single_target(&c, &table()), Err(TargetError::NoMatchingName)));
}

#[test]
fn single_target_with_a_broken_record() {
    let mut c = ProcDumpConfiguration::default();
    c.process_id = 4400;
    assert!(matches!(
        resolve_single_target(&c, &table()),
        Err(TargetError::Unreadable(ProcError::ProcParseError))
    ));
}
