//! The coordinator of the monitored targets: which processes of a scan get a
//! supervisor, which supervisors are due for eviction, and when monitoring
//! ends.

use crate::procdumpconfiguration::fresh_target;
use crate::procdumpconfiguration::ConfigurationView;
use crate::procdumpconfiguration::ProcDumpConfiguration;
use crate::procdumpconfiguration::TargetReport;
use crate::procdumpconfiguration::TargetState;
use crate::procdumpconfiguration::TargetView;
use crate::procdumpconfiguration::NO_PID;
use crate::procdumpconfiguration::UNSET;
use crate::processhelpers::entry_views;
use crate::processhelpers::find_named;
use crate::processhelpers::get_process_name_by_pid;
use crate::processhelpers::get_process_pid_by_name;
use crate::processhelpers::get_process_start_time;
use crate::processhelpers::is_process_running;
use crate::processhelpers::is_running;
use crate::processhelpers::process_name_in;
use crate::processhelpers::process_stat_field;
use crate::processhelpers::ProcEntry;
use crate::processhelpers::ProcEntryView;
use crate::processhelpers::ProcError;
use crate::processhelpers::STAT_STARTTIME;
use crate::triggerthreadprocs::TriggerKind;
use std::collections::HashMap;
use vstd::prelude::*;
use vstd::std_specs::hash::spec_hash_map_iter;
use vstd::std_specs::iter::IteratorSpec;

verus! {

broadcast use vstd::std_specs::hash::group_hash_axioms;

/// What the coordinator remembers of one target: the start time recorded
/// when it was attached, and whether its observers are running. An entry that
/// is not active stays in the map, so that a later process with the same id
/// and another start time is told apart from the one that was monitored.
#[derive(Clone, Copy, Debug, PartialEq, Eq, Structural)]
pub struct MonitoredProcessMapEntry {
    pub active: bool,
    pub starttime: u64,
}

/// A process found by a scan of the process table.
pub struct Candidate {
    pub pid: i32,
    pub pgid: u64,
    pub name: String,
    pub start_time: u64,
}

/// What a candidate holds, its name as a sequence of characters.
pub ghost struct CandidateView {
    pub pid: i32,
    pub pgid: u64,
    pub name: Seq<char>,
    pub start_time: u64,
}

impl View for Candidate {
    type V = CandidateView;

    open spec fn view(&self) -> CandidateView {
        CandidateView {
            pid: self.pid,
            pgid: self.pgid,
            name: self.name@,
            start_time: self.start_time,
        }
    }
}

/// The views of a sequence of candidates, in the same order.
pub open spec fn candidate_views(s: Seq<Candidate>) -> Seq<CandidateView> {
    Seq::new(s.len(), |i: int| s[i]@)
}

/// The views of a sequence of target states, in the same order.
pub open spec fn target_views(s: Seq<TargetState>) -> Seq<TargetView> {
    Seq::new(s.len(), |i: int| s[i]@)
}

// ---------------------------------------------------------------------------
// The rules, over the map from process id to entry
// ---------------------------------------------------------------------------

/// Whether the selector of `c` takes the candidate: under a process-group
/// selector, its group is the configured one; under a name that is waited
/// for, its name is the configured one and not empty.
pub open spec fn accepts(c: ConfigurationView, candidate: CandidateView) -> bool {
    if c.is_process_group_set {
        c.process_pgid >= 0 && candidate.pgid == c.process_pgid as u64
    } else if c.waiting_process_name {
        candidate.name.len() > 0 && candidate.name == c.process_name
    } else {
        false
    }
}

/// Whether a candidate that the selector takes needs a new supervisor: it is
/// not in the map, or its entry is no longer active and records another start
/// time, which is how a reused process id shows.
pub open spec fn needs_supervisor(
    m: Map<i32, MonitoredProcessMapEntry>,
    candidate: CandidateView,
) -> bool {
    !m.dom().contains(candidate.pid) || (!m[candidate.pid].active && m[candidate.pid].starttime
        != candidate.start_time)
}

/// Whether the candidate gets a new supervisor.
pub open spec fn attaches(
    m: Map<i32, MonitoredProcessMapEntry>,
    c: ConfigurationView,
    candidate: CandidateView,
) -> bool {
    accepts(c, candidate) && needs_supervisor(m, candidate)
}

/// The entry of a target that was just attached.
pub open spec fn fresh_entry(candidate: CandidateView) -> MonitoredProcessMapEntry {
    MonitoredProcessMapEntry { active: true, starttime: candidate.start_time }
}

/// The map after one candidate was looked at.
pub open spec fn attach_one(
    m: Map<i32, MonitoredProcessMapEntry>,
    c: ConfigurationView,
    candidate: CandidateView,
) -> Map<i32, MonitoredProcessMapEntry> {
    if attaches(m, c, candidate) {
        m.insert(candidate.pid, fresh_entry(candidate))
    } else {
        m
    }
}

/// The map after the candidates of a scan were looked at, one after the
/// other.
pub open spec fn attach_all(
    m: Map<i32, MonitoredProcessMapEntry>,
    c: ConfigurationView,
    scan: Seq<CandidateView>,
) -> Map<i32, MonitoredProcessMapEntry>
    decreases scan.len(),
{
    if scan.len() == 0 {
        m
    } else {
        attach_one(attach_all(m, c, scan.drop_last()), c, scan.last())
    }
}

/// The states of the targets that a scan attaches, in the order of the scan:
/// each is fresh, with its dump counter at zero.
pub open spec fn attached(
    m: Map<i32, MonitoredProcessMapEntry>,
    c: ConfigurationView,
    scan: Seq<CandidateView>,
) -> Seq<TargetView>
    decreases scan.len(),
{
    if scan.len() == 0 {
        Seq::empty()
    } else {
        let before = attached(m, c, scan.drop_last());
        let candidate = scan.last();
        if attaches(attach_all(m, c, scan.drop_last()), c, candidate) {
            before.push(fresh_target(c, candidate.pid, candidate.name, candidate.start_time))
        } else {
            before
        }
    }
}

/// Whether a target with this report is finished: it was asked to quit, or it
/// has written as many dumps as were to be collected.
pub open spec fn eviction_due(report: TargetReport) -> bool {
    report.is_quit || report.number_of_dumps_collected >= report.number_of_dumps_to_collect
}

/// Whether the supervisor of the reported target is evicted: the target is in
/// the map, active and finished.
pub open spec fn evicts(m: Map<i32, MonitoredProcessMapEntry>, report: TargetReport) -> bool {
    m.dom().contains(report.process_id) && m[report.process_id].active && eviction_due(report)
}

/// The map after one report was looked at: an evicted target stays in the map
/// and is no longer active.
pub open spec fn evict_one(
    m: Map<i32, MonitoredProcessMapEntry>,
    report: TargetReport,
) -> Map<i32, MonitoredProcessMapEntry> {
    if evicts(m, report) {
        m.insert(
            report.process_id,
            MonitoredProcessMapEntry { active: false, ..m[report.process_id] },
        )
    } else {
        m
    }
}

/// The map after the reports were looked at, one after the other.
pub open spec fn evict_all(
    m: Map<i32, MonitoredProcessMapEntry>,
    reports: Seq<TargetReport>,
) -> Map<i32, MonitoredProcessMapEntry>
    decreases reports.len(),
{
    if reports.len() == 0 {
        m
    } else {
        evict_one(evict_all(m, reports.drop_last()), reports.last())
    }
}

/// The process ids whose supervisors the reports evict, in the order of the
/// reports.
pub open spec fn evicted(
    m: Map<i32, MonitoredProcessMapEntry>,
    reports: Seq<TargetReport>,
) -> Seq<i32>
    decreases reports.len(),
{
    if reports.len() == 0 {
        Seq::empty()
    } else {
        let before = evicted(m, reports.drop_last());
        if evicts(evict_all(m, reports.drop_last()), reports.last()) {
            before.push(reports.last().process_id)
        } else {
            before
        }
    }
}

/// Whether some target in the map is active.
pub open spec fn some_active(m: Map<i32, MonitoredProcessMapEntry>) -> bool {
    exists|pid: i32| m.dom().contains(pid) && #[trigger] m[pid].active
}

/// Whether the selector takes some candidate of the scan.
pub open spec fn some_accepted(c: ConfigurationView, scan: Seq<CandidateView>) -> bool {
    exists|i: int| 0 <= i < scan.len() && accepts(c, #[trigger] scan[i])
}

/// Whether monitoring ends: never while a name is waited for; otherwise when
/// no target is active and the scan found no process that the selector takes.
pub open spec fn monitoring_over(
    m: Map<i32, MonitoredProcessMapEntry>,
    c: ConfigurationView,
    scan: Seq<CandidateView>,
) -> bool {
    !c.waiting_process_name && !some_active(m) && !some_accepted(c, scan)
}

// ---------------------------------------------------------------------------
// The map
// ---------------------------------------------------------------------------

/// The monitored targets, by process id.
pub struct Fleet {
    entries: HashMap<i32, MonitoredProcessMapEntry>,
}

impl View for Fleet {
    type V = Map<i32, MonitoredProcessMapEntry>;

    closed spec fn view(&self) -> Map<i32, MonitoredProcessMapEntry> {
        self.entries@
    }
}

impl Fleet {
    /// A map without targets.
    pub fn new() -> (fleet: Fleet)
        ensures
            fleet@ == Map::<i32, MonitoredProcessMapEntry>::empty(),
    {
        Fleet { entries: HashMap::new() }
    }

    /// The entry of the process `pid`, if the map has one.
    pub fn get(&self, pid: i32) -> (entry: Option<MonitoredProcessMapEntry>)
        ensures
            entry == (if self@.dom().contains(pid) {
                Some(self@[pid])
            } else {
                None
            }),
    {
        match self.entries.get(&pid) {
            Some(entry) => Some(*entry),
            None => None,
        }
    }

    /// Whether some target is active.
    pub fn has_active(&self) -> (r: bool)
        ensures
            r == some_active(self@),
    {
        let ghost all = spec_hash_map_iter(&self.entries).remaining();
        for pair in it: self.entries.iter()
            invariant
                it.seq() == all,
                all == spec_hash_map_iter(&self.entries).remaining(),
                forall|j: int| 0 <= j < it.index() ==> !(#[trigger] all[j]).1.active,
        {
            if pair.1.active {
                proof {
                    assert(self.entries@.contains_key(*all[it.index()].0));
                }
                return true;
            }
        }
        proof {
            assert forall|pid: i32| self@.dom().contains(pid) implies !(
            #[trigger] self@[pid]).active by {
                assert(all.contains((&pid, &self.entries@[pid])));
                let j = choose|j: int| 0 <= j < all.len() && all[j] == (&pid, &self.entries@[pid]);
                assert(!all[j].1.active);
            }
        }
        false
    }

    /// Looks at one candidate of a scan. Where the selector takes it and it
    /// needs a supervisor, the map gets a fresh, active entry for it, in place
    /// of an older one if there was one, and the state of the new target is
    /// returned: the caller starts its observers.
    pub fn attach(&mut self, config: &ProcDumpConfiguration, candidate: &Candidate) -> (started:
        Option<TargetState>)
        ensures
            final(self)@ == attach_one(old(self)@, config@, candidate@),
            match started {
                Some(state) => attaches(old(self)@, config@, candidate@) && state@ == fresh_target(
                    config@,
                    candidate.pid,
                    candidate.name@,
                    candidate.start_time,
                ),
                None => !attaches(old(self)@, config@, candidate@),
            },
    {
        if !selector_accepts(config, candidate) {
            return None;
        }
        match self.entries.get(&candidate.pid) {
            Some(known) => {
                if known.active || known.starttime == candidate.start_time {
                    return None;
                }
            },
            None => {},
        }
        self.entries.insert(
            candidate.pid,
            MonitoredProcessMapEntry { active: true, starttime: candidate.start_time },
        );
        Some(TargetState::new(config, candidate.pid, candidate.name.clone(), candidate.start_time))
    }

    /// Looks at the report of one target. Where the target is in the map,
    /// active and finished, its entry stops being active: the caller stops and
    /// harvests its observers.
    pub fn evict(&mut self, report: &TargetReport) -> (evicted: bool)
        ensures
            evicted == evicts(old(self)@, *report),
            final(self)@ == evict_one(old(self)@, *report),
    {
        let due = report.is_quit || report.number_of_dumps_collected
            >= report.number_of_dumps_to_collect;
        let starttime: u64 = match self.entries.get(&report.process_id) {
            Some(known) => {
                if !known.active || !due {
                    return false;
                }
                known.starttime
            },
            None => {
                return false;
            },
        };
        self.entries.insert(
            report.process_id,
            MonitoredProcessMapEntry { active: false, starttime },
        );
        true
    }

    /// Forgets the process `pid`: for a target whose observers could not be
    /// started, and for the one target of single-target monitoring once it is
    /// harvested.
    pub fn discard(&mut self, pid: i32) -> (found: bool)
        ensures
            found == old(self)@.dom().contains(pid),
            final(self)@ == old(self)@.remove(pid),
    {
        self.entries.remove(&pid).is_some()
    }
}

/// Whether the selector of `config` takes the candidate.
pub fn selector_accepts(config: &ProcDumpConfiguration, candidate: &Candidate) -> (r: bool)
    ensures
        r == accepts(config@, candidate@),
{
    if config.is_process_group_set {
        config.process_pgid >= 0 && candidate.pgid == config.process_pgid as u64
    } else if config.waiting_process_name {
        !candidate.name.as_str().is_empty() && candidate.name == config.process_name
    } else {
        false
    }
}

/// What one pass of the coordinator decides: the targets to start observers
/// for, the process ids whose observers are to be stopped and harvested, and
/// whether monitoring is over.
pub struct FleetPlan {
    pub start: Vec<TargetState>,
    pub evict: Vec<i32>,
    pub exit: bool,
}

/// One pass of the coordinator over a scan of the process table and the
/// reports of the targets. The candidates are looked at in order, then the
/// reports in order; at the end the pass decides whether monitoring is over.
pub fn monitor_processes(
    fleet: &mut Fleet,
    config: &ProcDumpConfiguration,
    scan: &Vec<Candidate>,
    reports: &Vec<TargetReport>,
) -> (plan: FleetPlan)
    ensures
        final(fleet)@ == evict_all(
            attach_all(old(fleet)@, config@, candidate_views(scan@)),
            reports@,
        ),
        target_views(plan.start@) == attached(old(fleet)@, config@, candidate_views(scan@)),
        plan.evict@ == evicted(attach_all(old(fleet)@, config@, candidate_views(scan@)), reports@),
        plan.exit == monitoring_over(final(fleet)@, config@, candidate_views(scan@)),
{
    let ghost before = fleet@;
    let ghost views = candidate_views(scan@);
    let mut start: Vec<TargetState> = Vec::new();
    let mut accepted = false;
    let mut i: usize = 0;
    while i < scan.len()
        invariant
            i <= scan.len(),
            views == candidate_views(scan@),
            fleet@ == attach_all(before, config@, views.take(i as int)),
            target_views(start@) == attached(before, config@, views.take(i as int)),
            accepted == some_accepted(config@, views.take(i as int)),
        decreases scan.len() - i,
    {
        proof {
            assert(views.take(i + 1).drop_last() =~= views.take(i as int));
        }
        let ghost seen = views.take(i as int);
        let ghost next = views.take(i + 1);
        let candidate = &scan[i];
        let taken = selector_accepts(config, candidate);
        proof {
            if taken {
                assert(accepts(config@, next[i as int]));
            }
            if some_accepted(config@, seen) {
                let k = choose|k: int| 0 <= k < seen.len() && accepts(config@, #[trigger] seen[k]);
            }
            if some_accepted(config@, next) {
                let k = choose|k: int| 0 <= k < next.len() && accepts(config@, #[trigger] next[k]);
                if k < i {
                    assert(accepts(config@, seen[k]));
                }
            }
        }
        accepted = accepted || taken;
        match fleet.attach(config, candidate) {
            Some(state) => {
                start.push(state);
            },
            None => {},
        }
        i += 1;
    }
    assert(views.take(scan.len() as int) =~= views);
    let ghost attached_map = fleet@;
    let mut evict: Vec<i32> = Vec::new();
    let mut j: usize = 0;
    while j < reports.len()
        invariant
            j <= reports.len(),
            fleet@ == evict_all(attached_map, reports@.take(j as int)),
            evict@ == evicted(attached_map, reports@.take(j as int)),
        decreases reports.len() - j,
    {
        proof {
            assert(reports@.take(j + 1).drop_last() =~= reports@.take(j as int));
        }
        let report = reports[j];
        if fleet.evict(&report) {
            evict.push(report.process_id);
        }
        j += 1;
    }
    assert(reports@.take(reports.len() as int) =~= reports@);
    let exit = !config.waiting_process_name && !fleet.has_active() && !accepted;
    FleetPlan { start, evict, exit }
}

/// A process id that shows again with another start time than the one
/// recorded, after its supervisor was evicted, is a new target: it gets a
/// fresh, active entry under the new start time, and its state starts with no
/// dump written.
pub proof fn lemma_pid_reuse_is_a_new_target(
    m: Map<i32, MonitoredProcessMapEntry>,
    c: ConfigurationView,
    candidate: CandidateView,
)
    requires
        accepts(c, candidate),
        m.dom().contains(candidate.pid),
        !m[candidate.pid].active,
        m[candidate.pid].starttime != candidate.start_time,
    ensures
        attaches(m, c, candidate),
        attach_one(m, c, candidate)[candidate.pid] == fresh_entry(candidate),
        attach_one(m, c, candidate)[candidate.pid].active,
        attach_one(m, c, candidate)[candidate.pid].starttime == candidate.start_time,
        attached(m, c, seq![candidate]) == seq![
            fresh_target(c, candidate.pid, candidate.name, candidate.start_time),
        ],
        fresh_target(
            c,
            candidate.pid,
            candidate.name,
            candidate.start_time,
        ).config.number_of_dumps_collected == 0,
{
    let scan = seq![candidate];
    assert(scan.drop_last() =~= Seq::<CandidateView>::empty());
    assert(attach_all(m, c, scan.drop_last()) == m);
    assert(attached(m, c, scan.drop_last()) =~= Seq::<TargetView>::empty());
    assert(attached(m, c, scan) =~= seq![
        fresh_target(c, candidate.pid, candidate.name, candidate.start_time),
    ]);
}

/// Every target that a scan attaches is fresh: no dump written or under way,
/// no flag raised, under the configuration of the coordinator but for its own
/// process id and name.
pub proof fn lemma_attached_targets_are_fresh(
    m: Map<i32, MonitoredProcessMapEntry>,
    c: ConfigurationView,
    scan: Seq<CandidateView>,
)
    ensures
        attached(m, c, scan).len() <= scan.len(),
        forall|i: int|
            0 <= i < attached(m, c, scan).len() ==> {
                let t = #[trigger] attached(m, c, scan)[i];
                &&& t.config.number_of_dumps_collected == 0
                &&& t.dumps_in_flight == 0
                &&& !t.process_terminated
                &&& !t.is_quit
                &&& t.config.number_of_dumps_to_collect == c.number_of_dumps_to_collect
                &&& attach_all(m, c, scan).dom().contains(t.config.process_id)
                &&& attach_all(m, c, scan)[t.config.process_id].active
            },
        forall|pid: i32| m.dom().contains(pid) ==> attach_all(m, c, scan).dom().contains(pid),
        forall|pid: i32|
            m.dom().contains(pid) && (#[trigger] m[pid]).active ==> attach_all(m, c, scan)[pid]
                == m[pid],
    decreases scan.len(),
{
    if scan.len() > 0 {
        lemma_attached_targets_are_fresh(m, c, scan.drop_last());
        let before = attach_all(m, c, scan.drop_last());
        let listed = attached(m, c, scan.drop_last());
        let after = attach_all(m, c, scan);
        assert forall|i: int| 0 <= i < attached(m, c, scan).len() implies {
            let t = #[trigger] attached(m, c, scan)[i];
            &&& t.config.number_of_dumps_collected == 0
            &&& t.dumps_in_flight == 0
            &&& !t.process_terminated
            &&& !t.is_quit
            &&& t.config.number_of_dumps_to_collect == c.number_of_dumps_to_collect
            &&& after.dom().contains(t.config.process_id)
            &&& after[t.config.process_id].active
        } by {
            if i < listed.len() {
                assert(attached(m, c, scan)[i] == listed[i]);
                let pid = listed[i].config.process_id;
                assert(before.dom().contains(pid) && before[pid].active);
            }
        }
    }
}

/// The supervisors that the reports of a pass stop being active are the ones
/// that the pass lists for eviction, and no others; nothing else in the map
/// changes, and no entry leaves it.
pub proof fn lemma_evicted_are_listed(
    m: Map<i32, MonitoredProcessMapEntry>,
    reports: Seq<TargetReport>,
)
    ensures
        evict_all(m, reports).dom() == m.dom(),
        forall|pid: i32|
            m.dom().contains(pid) ==> {
                let before = #[trigger] m[pid];
                let after = evict_all(m, reports)[pid];
                &&& after.starttime == before.starttime
                &&& (after.active ==> before.active)
            },
        forall|pid: i32|
            #[trigger] evicted(m, reports).contains(pid) <==> m.dom().contains(pid) && m[pid].active
                && !evict_all(m, reports)[pid].active,
    decreases reports.len(),
{
    if reports.len() == 0 {
        assert forall|pid: i32| !(#[trigger] evicted(m, reports).contains(pid)) by {
            assert(evicted(m, reports).len() == 0);
        }
    } else {
        let front = reports.drop_last();
        let last = reports.last();
        lemma_evicted_are_listed(m, front);
        let mid = evict_all(m, front);
        let end = evict_all(m, reports);
        let listed = evicted(m, front);
        assert(end.dom() =~= m.dom());
        assert forall|pid: i32| #[trigger]
            evicted(m, reports).contains(pid) <==> m.dom().contains(pid) && m[pid].active
                && !end[pid].active by {
            let all = evicted(m, reports);
            if evicts(mid, last) {
                assert(all == listed.push(last.process_id));
                if all.contains(pid) {
                    let i = choose|i: int| 0 <= i < all.len() && all[i] == pid;
                    if i < listed.len() {
                        assert(listed[i] == pid);
                        assert(listed.contains(pid));
                    }
                }
                if listed.contains(pid) {
                    let i = choose|i: int| 0 <= i < listed.len() && listed[i] == pid;
                    assert(all[i] == pid);
                }
                assert(all[listed.len() as int] == last.process_id);
            } else {
                assert(all == listed);
            }
        }
    }
}

/// A target whose observers run is left alone by a scan: the same process id
/// gets no second supervisor while its entry is active, and no new supervisor
/// while the start time is the recorded one.
pub proof fn lemma_known_target_is_left_alone(
    m: Map<i32, MonitoredProcessMapEntry>,
    c: ConfigurationView,
    candidate: CandidateView,
)
    requires
        m.dom().contains(candidate.pid),
        m[candidate.pid].active || m[candidate.pid].starttime == candidate.start_time,
    ensures
        !attaches(m, c, candidate),
        attach_one(m, c, candidate) == m,
{
}

// ---------------------------------------------------------------------------
// Starting and harvesting the observers of one target
// ---------------------------------------------------------------------------

/// Whether the configuration enables the observer of this kind. The timer is
/// enabled by its flag, which the validation of the options raises where no
/// other trigger was given.
pub open spec fn enabled(c: ConfigurationView, kind: TriggerKind) -> bool {
    match kind {
        TriggerKind::Memory => c.trigger_threshold_mem != UNSET,
        TriggerKind::Cpu => c.trigger_threshold_cpu != UNSET,
        TriggerKind::Threads => c.trigger_threshold_threads != UNSET,
        TriggerKind::FileDescriptors => c.trigger_threshold_file_descriptors != UNSET,
        TriggerKind::Signal => c.trigger_signal != UNSET,
        TriggerKind::Timer => c.trigger_threshold_timer,
    }
}

/// `seq![kind]` where the kind is enabled, the empty sequence where not.
pub open spec fn planned(c: ConfigurationView, kind: TriggerKind) -> Seq<TriggerKind> {
    if enabled(c, kind) {
        seq![kind]
    } else {
        Seq::empty()
    }
}

/// The observers of a target, in the order in which they are started: memory,
/// cpu, thread count, file-descriptor count, signal, timer, each if and only
/// if it is enabled.
pub open spec fn observer_plan_of(c: ConfigurationView) -> Seq<TriggerKind> {
    planned(c, TriggerKind::Memory) + planned(c, TriggerKind::Cpu) + planned(
        c,
        TriggerKind::Threads,
    ) + planned(c, TriggerKind::FileDescriptors) + planned(c, TriggerKind::Signal) + planned(
        c,
        TriggerKind::Timer,
    )
}

/// The observers to start for a target with this configuration.
pub fn observer_plan(config: &ProcDumpConfiguration) -> (plan: Vec<TriggerKind>)
    ensures
        plan@ == observer_plan_of(config@),
{
    let mut plan: Vec<TriggerKind> = Vec::new();
    if config.trigger_threshold_mem != UNSET {
        plan.push(TriggerKind::Memory);
    }
    if config.trigger_threshold_cpu != UNSET {
        plan.push(TriggerKind::Cpu);
    }
    if config.trigger_threshold_threads != UNSET {
        plan.push(TriggerKind::Threads);
    }
    if config.trigger_threshold_file_descriptors != UNSET {
        plan.push(TriggerKind::FileDescriptors);
    }
    if config.trigger_signal != UNSET {
        plan.push(TriggerKind::Signal);
    }
    if config.trigger_threshold_timer {
        plan.push(TriggerKind::Timer);
    }
    plan
}

/// The plan holds exactly one observer for each enabled trigger, and none for
/// any other.
pub proof fn lemma_one_observer_per_enabled_trigger(c: ConfigurationView, kind: TriggerKind)
    ensures
        observer_plan_of(c).contains(kind) <==> enabled(c, kind),
        observer_plan_of(c).no_duplicates(),
{
    let plan = observer_plan_of(c);
    let m = planned(c, TriggerKind::Memory);
    let u = planned(c, TriggerKind::Cpu);
    let t = planned(c, TriggerKind::Threads);
    let f = planned(c, TriggerKind::FileDescriptors);
    let g = planned(c, TriggerKind::Signal);
    let r = planned(c, TriggerKind::Timer);
    let a1 = m.len();
    let a2 = a1 + u.len();
    let a3 = a2 + t.len();
    let a4 = a3 + f.len();
    let a5 = a4 + g.len();
    assert(plan.len() == a5 + r.len());
    assert forall|i: int| 0 <= i < plan.len() implies (#[trigger] plan[i]) == (if i < a1 {
        TriggerKind::Memory
    } else if i < a2 {
        TriggerKind::Cpu
    } else if i < a3 {
        TriggerKind::Threads
    } else if i < a4 {
        TriggerKind::FileDescriptors
    } else if i < a5 {
        TriggerKind::Signal
    } else {
        TriggerKind::Timer
    }) by {}
    if enabled(c, kind) {
        let i: int = match kind {
            TriggerKind::Memory => 0,
            TriggerKind::Cpu => a1 as int,
            TriggerKind::Threads => a2 as int,
            TriggerKind::FileDescriptors => a3 as int,
            TriggerKind::Signal => a4 as int,
            TriggerKind::Timer => a5 as int,
        };
        assert(plan[i] == kind);
    }
}

/// What to do next while the observers of a target are started.
#[derive(Clone, Copy, Debug, PartialEq, Eq, Structural)]
pub enum StartStep {
    /// Start the observer of this kind.
    Spawn(TriggerKind),
    /// Every planned observer runs.
    Running,
    /// An observer could not be started. This many observers were started
    /// before it: they are asked to stop and harvested, and the target is
    /// given up.
    Abandon(usize),
}

/// The first position at or after `i` whose attempt failed; the number of
/// attempts where there is none.
pub open spec fn first_failure(attempts: Seq<bool>, i: int) -> int
    decreases attempts.len() - i,
{
    if 0 <= i < attempts.len() && attempts[i] {
        first_failure(attempts, i + 1)
    } else {
        i
    }
}

/// The next step, given the plan and how the attempts so far went, in the
/// order of the plan.
pub open spec fn start_step(plan: Seq<TriggerKind>, attempts: Seq<bool>) -> StartStep {
    let failed = first_failure(attempts, 0);
    if failed < attempts.len() {
        StartStep::Abandon(failed as usize)
    } else if attempts.len() < plan.len() {
        StartStep::Spawn(plan[attempts.len() as int])
    } else {
        StartStep::Running
    }
}

/// Decides the next step in starting the observers of a target: start the
/// next planned observer, or report that all of them run, or, once an attempt
/// has failed, give the target up with the number of observers to harvest.
pub fn start_monitor(config: &ProcDumpConfiguration, attempts: &Vec<bool>) -> (step: StartStep)
    ensures
        step == start_step(observer_plan_of(config@), attempts@),
{
    let mut i: usize = 0;
    while i < attempts.len() && attempts[i]
        invariant
            i <= attempts.len(),
            first_failure(attempts@, i as int) == first_failure(attempts@, 0),
        decreases attempts.len() - i,
    {
        i += 1;
    }
    if i < attempts.len() {
        return StartStep::Abandon(i);
    }
    let plan = observer_plan(config);
    if attempts.len() < plan.len() {
        StartStep::Spawn(plan[attempts.len()])
    } else {
        StartStep::Running
    }
}

/// Whether the harvest of a target's observers is a success: every observer
/// returned without failing.
pub fn wait_for_monitor_exit(results: &Vec<bool>) -> (success: bool)
    ensures
        success == (forall|i: int| 0 <= i < results@.len() ==> results@[i]),
{
    let mut i: usize = 0;
    while i < results.len()
        invariant
            i <= results.len(),
            forall|j: int| 0 <= j < i ==> results@[j],
        decreases results.len() - i,
    {
        if !results[i] {
            return false;
        }
        i += 1;
    }
    true
}

// ---------------------------------------------------------------------------
// Monitoring a single target
// ---------------------------------------------------------------------------

/// Why the one target of single-target monitoring is not monitored.
#[derive(Clone, Copy, Debug, PartialEq, Eq, Structural)]
pub enum TargetError {
    /// No process has the configured name.
    NoMatchingName,
    /// No process has the configured process id.
    NoMatchingPid,
    /// The target's status record could not be read for its start time.
    Unreadable(ProcError),
}

/// The process id of the one target: the first process with the configured
/// name where a name is configured, the configured process id otherwise, if
/// that process is running.
pub open spec fn single_target_pid(c: ConfigurationView, procs: Seq<ProcEntryView>) -> Result<
    i32,
    TargetError,
> {
    if c.process_name.len() > 0 {
        match find_named(procs, c.process_name, 0) {
            Some(pid) => Ok(pid),
            None => Err(TargetError::NoMatchingName),
        }
    } else if c.process_id == NO_PID || !is_running(procs, c.process_id) {
        Err(TargetError::NoMatchingPid)
    } else {
        Ok(c.process_id)
    }
}

/// The state of the one target: fresh, under the name and the start time
/// that the snapshot gives the process.
pub open spec fn single_target(c: ConfigurationView, procs: Seq<ProcEntryView>) -> Result<
    TargetView,
    TargetError,
> {
    match single_target_pid(c, procs) {
        Err(e) => Err(e),
        Ok(pid) => match process_stat_field(procs, pid, STAT_STARTTIME as nat) {
            Err(e) => Err(TargetError::Unreadable(e)),
            Ok(start_time) => Ok(fresh_target(c, pid, process_name_in(procs, pid), start_time)),
        },
    }
}

/// Finds the one target of single-target monitoring in a snapshot of the
/// process table and attaches to it. A target that is not there is an error,
/// and nothing is started for it.
pub fn resolve_single_target(config: &ProcDumpConfiguration, procs: &Vec<ProcEntry>) -> (r: Result<
    TargetState,
    TargetError,
>)
    ensures
        match r {
            Ok(state) => single_target(config@, entry_views(procs@)) == Ok::<
                TargetView,
                TargetError,
            >(state@),
            Err(e) => single_target(config@, entry_views(procs@)) == Err::<
                TargetView,
                TargetError,
            >(e),
        },
{
    let pid: i32 = if !config.process_name.as_str().is_empty() {
        match get_process_pid_by_name(procs, &config.process_name) {
            Some(pid) => pid,
            None => {
                return Err(TargetError::NoMatchingName);
            },
        }
    } else if config.process_id == NO_PID || !is_process_running(procs, config.process_id) {
        return Err(TargetError::NoMatchingPid);
    } else {
        config.process_id
    };
    let start_time = match get_process_start_time(procs, pid) {
        Ok(ticks) => ticks,
        Err(e) => {
            return Err(TargetError::Unreadable(e));
        },
    };
    let name = get_process_name_by_pid(procs, pid);
    Ok(TargetState::new(config, pid, name, start_time))
}

} // verus!
