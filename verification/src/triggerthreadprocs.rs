//! The observers of a target: which kinds there are, when each fires, and
//! what an observer does next.

use crate::procdumpconfiguration::ConfigurationView;
use crate::procdumpconfiguration::ProcDumpConfiguration;
use crate::procdumpconfiguration::TargetState;
use crate::procdumpconfiguration::TargetView;
use crate::procdumpconfiguration::within_budget;
use crate::processhelpers::stat_field;
use crate::processhelpers::stat_field_of;
use crate::processhelpers::STAT_RSS;
use crate::processhelpers::STAT_STARTTIME;
use crate::processhelpers::STAT_STIME;
use crate::processhelpers::STAT_SWAP;
use crate::processhelpers::STAT_THREADS;
use crate::processhelpers::STAT_UTIME;
use crate::procdumpconfiguration::NO_PID;
use vstd::prelude::*;

verus! {

/// The kinds of observer.
#[derive(Clone, Copy, Debug, PartialEq, Eq, Structural)]
pub enum TriggerKind {
    Memory,
    Cpu,
    Threads,
    FileDescriptors,
    Signal,
    Timer,
}

/// The tag that names a kind of trigger in dump file names.
pub open spec fn trigger_tag(kind: TriggerKind) -> Seq<char> {
    match kind {
        TriggerKind::Memory => "memory"@,
        TriggerKind::Cpu => "cpu"@,
        TriggerKind::Threads => "threads"@,
        TriggerKind::FileDescriptors => "file_descriptor"@,
        TriggerKind::Signal => "signal"@,
        TriggerKind::Timer => "timer"@,
    }
}

/// The tag of a kind of trigger.
pub fn trigger_type(kind: TriggerKind) -> (tag: &'static str)
    ensures
        tag@ == trigger_tag(kind),
{
    match kind {
        TriggerKind::Memory => "memory",
        TriggerKind::Cpu => "cpu",
        TriggerKind::Threads => "threads",
        TriggerKind::FileDescriptors => "file_descriptor",
        TriggerKind::Signal => "signal",
        TriggerKind::Timer => "timer",
    }
}

// ---------------------------------------------------------------------------
// What the machine says
// ---------------------------------------------------------------------------

/// The settings of the machine that the observers read.
#[derive(Clone, Copy, Debug, PartialEq, Eq, Structural)]
pub enum SystemSetting {
    ClockTicksPerSecond,
    PageSize,
}

/// What the machine said of one of its settings: which setting was read, and
/// the value, if the machine gave one.
#[derive(Clone, Copy, Debug, PartialEq, Eq, Structural)]
pub struct Reading {
    pub setting: SystemSetting,
    pub value: Option<i64>,
}

/// Reads a setting of the machine through `nix::unistd::sysconf`: the clock
/// ticks per second or the size of a memory page in bytes. `None` where the
/// call fails or the setting has no value. Nothing is claimed of the value:
/// it is the machine's.
#[verifier::external_body]
fn read_setting(setting: SystemSetting) -> (value: Option<i64>) {
    let variable = match setting {
        SystemSetting::ClockTicksPerSecond => nix::unistd::SysconfVar::CLK_TCK,
        SystemSetting::PageSize => nix::unistd::SysconfVar::PAGE_SIZE,
    };
    match nix::unistd::sysconf(variable) {
        Ok(Some(value)) => Some(value as i64),
        Ok(None) => None,
        Err(_) => None,
    }
}

/// The seconds since the machine was booted, by `sysinfo::System::uptime`.
/// Nothing is claimed of the value: it is the machine's.
#[verifier::external_body]
fn read_uptime() -> (seconds: u64) {
    sysinfo::System::uptime()
}

/// The id of a process, as what is probed.
#[derive(Clone, Copy, Debug, PartialEq, Eq, Structural)]
pub struct ProcessId(pub i32);

/// The id of a process group, as what is probed.
#[derive(Clone, Copy, Debug, PartialEq, Eq, Structural)]
pub struct GroupId(pub i32);

/// Tests whether a process can be signalled, through
/// `nix::sys::signal::kill` without a signal: no signal is sent. Nothing is
/// claimed of the answer: it is the kernel's.
#[verifier::external_body]
fn process_signal_probe(process: ProcessId) -> (alive: bool)
    requires
        is_process_number(process.0),
{
    nix::sys::signal::kill(nix::unistd::Pid::from_raw(process.0), None).is_ok()
}

/// Tests whether a process group can be signalled, through
/// `nix::sys::signal::killpg` without a signal: no signal is sent. Nothing
/// is claimed of the answer: it is the kernel's.
#[verifier::external_body]
fn group_signal_probe(group: GroupId) -> (alive: bool)
    requires
        is_process_number(group.0),
{
    nix::sys::signal::killpg(nix::unistd::Pid::from_raw(group.0), None).is_ok()
}

/// What the observers need to know of the machine.
#[derive(Clone, Copy, Debug, PartialEq, Eq, Structural)]
pub struct SystemFacts {
    pub clock_ticks: u64,
    pub page_kib: u32,
    pub uptime_seconds: u64,
}

/// The clock ticks per second that a reading stands for: the reading itself
/// where it is positive.
pub open spec fn usable_clock_ticks(raw: Option<i64>) -> Option<u64> {
    match raw {
        Some(v) => if v > 0 {
            Some(v as u64)
        } else {
            None
        },
        None => None,
    }
}

/// The size of a memory page in KiB that a reading in bytes stands for, as
/// long as the reading is not negative and the size fits 32 bits.
pub open spec fn usable_page_kib(raw: Option<i64>) -> Option<u32> {
    match raw {
        Some(v) => if 0 <= v && v / 1024 <= u32::MAX {
            Some((v / 1024) as u32)
        } else {
            None
        },
        None => None,
    }
}

/// The facts that the readings stand for: the first must be a reading of the
/// clock ticks per second, the second a reading of the page size. `None`
/// where a reading is of another setting or is not usable.
pub open spec fn facts_of(ticks: Reading, page_size: Reading, uptime: u64) -> Option<SystemFacts> {
    if ticks.setting == SystemSetting::ClockTicksPerSecond && page_size.setting
        == SystemSetting::PageSize {
        match (usable_clock_ticks(ticks.value), usable_page_kib(page_size.value)) {
            (Some(clock_ticks), Some(page_kib)) => Some(
                SystemFacts { clock_ticks, page_kib, uptime_seconds: uptime },
            ),
            _ => None,
        }
    } else {
        None
    }
}

/// Checks the readings of the machine's settings and puts them together.
pub fn system_facts_from(ticks: Reading, page_size: Reading, uptime: u64) -> (facts: Option<
    SystemFacts,
>)
    ensures
        facts == facts_of(ticks, page_size, uptime),
{
    if ticks.setting != SystemSetting::ClockTicksPerSecond || page_size.setting
        != SystemSetting::PageSize {
        return None;
    }
    let clock_ticks: u64 = match ticks.value {
        Some(v) => if v > 0 {
            v as u64
        } else {
            return None;
        },
        None => {
            return None;
        },
    };
    let page_kib: u32 = match page_size.value {
        Some(v) => if 0 <= v && v / 1024 <= 0xffff_ffff {
            (v / 1024) as u32
        } else {
            return None;
        },
        None => {
            return None;
        },
    };
    Some(SystemFacts { clock_ticks, page_kib, uptime_seconds: uptime })
}

/// Reads one setting of the machine. The reading is of the setting that was
/// asked for; its value is the machine's.
pub fn reading(setting: SystemSetting) -> (r: Reading)
    ensures
        r.setting == setting,
{
    Reading { setting, value: read_setting(setting) }
}

/// Reads the clock ticks per second, the size of a memory page and the
/// uptime from the machine, and checks them. Whatever the machine says, the
/// result is what `facts_of` makes of a reading of the clock ticks, a reading
/// of the page size and an uptime: it is `None` where a setting could not be
/// read or is not usable, and otherwise holds positive clock ticks and the
/// page size in whole KiB.
pub fn system_facts() -> (facts: Option<SystemFacts>)
    ensures
        readable_facts(facts),
        facts matches Some(f) ==> 0 < f.clock_ticks <= i64::MAX && f.page_kib <= i64::MAX / 1024,
{
    let ticks = reading(SystemSetting::ClockTicksPerSecond);
    let page_size = reading(SystemSetting::PageSize);
    let uptime = read_uptime();
    assert(ticks.setting == SystemSetting::ClockTicksPerSecond && page_size.setting
        == SystemSetting::PageSize);
    system_facts_from(ticks, page_size, uptime)
}

/// The facts that some values of the two settings and some uptime give.
pub open spec fn readable_facts(facts: Option<SystemFacts>) -> bool {
    exists|ticks: Option<i64>, page_size: Option<i64>, uptime: u64|
        facts == #[trigger] facts_of(
            Reading { setting: SystemSetting::ClockTicksPerSecond, value: ticks },
            Reading { setting: SystemSetting::PageSize, value: page_size },
            uptime,
        )
}

// ---------------------------------------------------------------------------
// Whether to go on
// ---------------------------------------------------------------------------

/// Whether an id is one that a process or a process group can have.
pub open spec fn is_process_number(id: i32) -> bool {
    0 < id < NO_PID
}

/// Whether monitoring goes on without a probe forbidding it: the budget has
/// room and the target is not known to be gone.
pub open spec fn worth_probing(t: TargetView) -> bool {
    t.config.number_of_dumps_collected < t.config.number_of_dumps_to_collect
        && !t.process_terminated
}

/// Whether the probes let monitoring go on, given what the probe of the
/// group and the probe of the process said: each id that is configured must
/// be one that a process or a group can have, and its probe must have
/// succeeded.
pub open spec fn probes_pass(c: ConfigurationView, group_alive: bool, process_alive: bool) -> bool {
    (c.process_pgid != NO_PID ==> is_process_number(c.process_pgid) && group_alive) && (
    c.process_id != NO_PID ==> is_process_number(c.process_id) && process_alive)
}

/// Whether an observer goes on, given what the probes of the target said,
/// and the state after the decision. Monitoring stops when the budget is used
/// up or the target is known to be gone, and then the probes do not matter.
/// Otherwise it goes on if and only if the probes pass; where they do not,
/// the target is marked as gone.
pub open spec fn continuation(t: TargetView, group_alive: bool, process_alive: bool) -> (
    bool,
    TargetView,
) {
    if !worth_probing(t) {
        (false, t)
    } else if !probes_pass(t.config, group_alive, process_alive) {
        (false, TargetView { process_terminated: true, ..t })
    } else {
        (true, t)
    }
}

/// Decides whether an observer goes on, given what the probes of the
/// target's group and of the target itself said.
pub fn decide_continuation(state: &mut TargetState, group_alive: bool, process_alive: bool) -> (go:
    bool)
    ensures
        (go, final(state)@) == continuation(old(state)@, group_alive, process_alive),
        within_budget(final(state)@),
{
    if state.dumps_collected() >= state.config().number_of_dumps_to_collect {
        return false;
    }
    if state.is_terminated() {
        return false;
    }
    let pgid: i32 = state.config().process_pgid;
    let pid: i32 = state.config().process_id;
    let group_ok = pgid == NO_PID || (0 < pgid && group_alive);
    let process_ok = pid == NO_PID || (0 < pid && process_alive);
    if !(group_ok && process_ok) {
        state.mark_terminated();
        return false;
    }
    true
}

/// What is probed to learn whether a target is alive: the configured process
/// group and the process of the target, each where its id is one that a
/// group or a process can have.
#[derive(Clone, Copy, Debug, PartialEq, Eq, Structural)]
pub struct ProbeTargets {
    pub group: Option<GroupId>,
    pub process: Option<ProcessId>,
}

/// The probe targets of a target with the configuration `c`.
pub open spec fn probe_targets_of(c: ConfigurationView) -> ProbeTargets {
    ProbeTargets {
        group: if is_process_number(c.process_pgid) {
            Some(GroupId(c.process_pgid))
        } else {
            None
        },
        process: if is_process_number(c.process_id) {
            Some(ProcessId(c.process_id))
        } else {
            None
        },
    }
}

/// Tells what is probed for a target with this configuration.
pub fn probe_targets(config: &ProcDumpConfiguration) -> (targets: ProbeTargets)
    ensures
        targets == probe_targets_of(config@),
{
    let pgid: i32 = config.process_pgid;
    let pid: i32 = config.process_id;
    ProbeTargets {
        group: if 0 < pgid && pgid < NO_PID {
            Some(GroupId(pgid))
        } else {
            None
        },
        process: if 0 < pid && pid < NO_PID {
            Some(ProcessId(pid))
        } else {
            None
        },
    }
}

/// Probes the process group among the targets. Where there is none, nothing
/// is probed and the answer is not alive; otherwise the kernel answers.
fn probe_group(targets: ProbeTargets) -> (alive: bool)
    requires
        targets.group matches Some(group) ==> is_process_number(group.0),
    ensures
        targets.group is None ==> !alive,
{
    match targets.group {
        Some(group) => group_signal_probe(group),
        None => false,
    }
}

/// Probes the process among the targets. Where there is none, nothing is
/// probed and the answer is not alive; otherwise the kernel answers.
fn probe_process(targets: ProbeTargets) -> (alive: bool)
    requires
        targets.process matches Some(process) ==> is_process_number(process.0),
    ensures
        targets.process is None ==> !alive,
{
    match targets.process {
        Some(process) => process_signal_probe(process),
        None => false,
    }
}

/// The outcomes that `continuation` allows, whatever the probes say.
pub open spec fn allowed_continuation(before: TargetView, go: bool, after: TargetView) -> bool {
    exists|group_alive: bool, process_alive: bool|
        (go, after) == #[trigger] continuation(before, group_alive, process_alive)
}

/// Decides whether an observer goes on. Where the budget has room and the
/// target is not known to be gone, the targets that `probe_targets` names are
/// probed, the group as a group and the process as a process, without a
/// signal being sent. Whatever the probes say, the outcome is one that
/// `continuation` allows.
pub fn should_continue_monitoring(state: &mut TargetState) -> (go: bool)
    ensures
        allowed_continuation(old(state)@, go, final(state)@),
        !worth_probing(old(state)@) ==> !go && final(state)@ == old(state)@,
        go ==> final(state)@ == old(state)@,
        !go && worth_probing(old(state)@) ==> final(state)@ == (TargetView {
            process_terminated: true,
            ..old(state)@
        }),
        within_budget(final(state)@),
{
    if state.dumps_collected() >= state.config().number_of_dumps_to_collect
        || state.is_terminated() {
        return decide_continuation(state, true, true);
    }
    let targets = probe_targets(state.config());
    let group_alive = probe_group(targets);
    let process_alive = probe_process(targets);
    decide_continuation(state, group_alive, process_alive)
}

// ---------------------------------------------------------------------------
// When a trigger fires
// ---------------------------------------------------------------------------

/// What an observer measured.
#[derive(Clone, Copy, Debug, PartialEq, Eq, Structural)]
pub enum Sample {
    /// Resident and swapped pages of the target, and the size of a page in
    /// KiB.
    Memory { rss_pages: u64, swap_pages: u64, page_kib: u32 },
    /// Clock ticks that the target spent in user and in kernel mode, the
    /// clock tick at which it started, the clock ticks per second, and the
    /// seconds since boot.
    Cpu { utime: u64, stime: u64, starttime: u64, clock_ticks: u64, uptime_seconds: u64 },
    /// The number of threads of the target.
    Threads { count: u64 },
    /// The number of open file descriptors of the target.
    FileDescriptors { count: u64 },
    /// A polling period went by.
    Timer,
}

/// How the measuring went.
#[derive(Clone, Copy, Debug, PartialEq, Eq, Structural)]
pub enum Sampling {
    Taken(Sample),
    /// The target is gone.
    NoSuchProcess,
    /// The kernel's record did not have the expected shape.
    ProcParseError,
}

/// Memory in use, in MiB: resident and swapped pages in KiB, added, then
/// converted.
pub open spec fn memory_usage_mib(rss_pages: u64, swap_pages: u64, page_kib: u32) -> nat {
    ((rss_pages * page_kib + swap_pages * page_kib) / 1024) as nat
}

/// The share of its lifetime that the target spent on a processor, in
/// percent: whole seconds of processor time, times a hundred, by the whole
/// seconds since the target started. `None` where there are no clock ticks
/// per second or the target did not start a second ago or more.
pub open spec fn cpu_usage_percent(
    utime: u64,
    stime: u64,
    starttime: u64,
    clock_ticks: u64,
    uptime_seconds: u64,
) -> Option<nat> {
    if clock_ticks == 0 || uptime_seconds <= starttime / clock_ticks {
        None
    } else {
        Some(
            ((((utime + stime) / (clock_ticks as int)) * 100) / (uptime_seconds - starttime
                / clock_ticks)) as nat,
        )
    }
}

/// Whether a value is on the triggering side of a threshold: below it where
/// the direction is "below", at or above it otherwise.
pub open spec fn crosses(value: nat, threshold: u32, below: bool) -> bool {
    if below {
        value < threshold
    } else {
        value >= threshold
    }
}

/// The kind of observer that takes a sample.
pub open spec fn sample_kind(sample: Sample) -> TriggerKind {
    match sample {
        Sample::Memory { .. } => TriggerKind::Memory,
        Sample::Cpu { .. } => TriggerKind::Cpu,
        Sample::Threads { .. } => TriggerKind::Threads,
        Sample::FileDescriptors { .. } => TriggerKind::FileDescriptors,
        Sample::Timer => TriggerKind::Timer,
    }
}

/// Whether the trigger fires on a sample: memory and processor use are held
/// against their thresholds in the configured direction; the numbers of
/// threads and of file descriptors fire at their thresholds and above; the
/// timer always fires. A processor sample without a usable share does not
/// fire.
pub open spec fn fires(c: ConfigurationView, sample: Sample) -> bool {
    match sample {
        Sample::Memory { rss_pages, swap_pages, page_kib } => crosses(
            memory_usage_mib(rss_pages, swap_pages, page_kib),
            c.trigger_threshold_mem,
            c.trigger_threshold_mem_below,
        ),
        Sample::Cpu { utime, stime, starttime, clock_ticks, uptime_seconds } => {
            match cpu_usage_percent(utime, stime, starttime, clock_ticks, uptime_seconds) {
                Some(percent) => crosses(
                    percent,
                    c.trigger_threshold_cpu,
                    c.trigger_threshold_cpu_below,
                ),
                None => false,
            }
        },
        Sample::Threads { count } => count >= c.trigger_threshold_threads,
        Sample::FileDescriptors { count } => count >= c.trigger_threshold_file_descriptors,
        Sample::Timer => true,
    }
}

/// Computes the memory in use, in MiB.
pub fn memory_usage(rss_pages: u64, swap_pages: u64, page_kib: u32) -> (mib: u128)
    ensures
        mib == memory_usage_mib(rss_pages, swap_pages, page_kib),
{
    assert(rss_pages * page_kib <= 0xffff_ffff_ffff_ffff * 0xffff_ffff) by (nonlinear_arith)
        requires
            rss_pages <= 0xffff_ffff_ffff_ffff,
            page_kib <= 0xffff_ffff,
    ;
    assert(swap_pages * page_kib <= 0xffff_ffff_ffff_ffff * 0xffff_ffff) by (nonlinear_arith)
        requires
            swap_pages <= 0xffff_ffff_ffff_ffff,
            page_kib <= 0xffff_ffff,
    ;
    let resident: u128 = (rss_pages as u128) * (page_kib as u128);
    let swapped: u128 = (swap_pages as u128) * (page_kib as u128);
    (resident + swapped) / 1024
}

/// Computes the share of its lifetime that the target spent on a processor,
/// in percent.
pub fn cpu_usage(
    utime: u64,
    stime: u64,
    starttime: u64,
    clock_ticks: u64,
    uptime_seconds: u64,
) -> (percent: Option<u128>)
    ensures
        match percent {
            Some(p) => cpu_usage_percent(utime, stime, starttime, clock_ticks, uptime_seconds)
                == Some(p as nat),
            None => cpu_usage_percent(utime, stime, starttime, clock_ticks, uptime_seconds)
                is None,
        },
{
    if clock_ticks == 0 {
        return None;
    }
    let started: u64 = starttime / clock_ticks;
    if uptime_seconds <= started {
        return None;
    }
    let busy: u128 = ((utime as u128) + (stime as u128)) / (clock_ticks as u128);
    let elapsed: u128 = (uptime_seconds - started) as u128;
    assert(busy <= utime + stime) by (nonlinear_arith)
        requires
            busy == (utime + stime) / (clock_ticks as int),
            clock_ticks >= 1,
    ;
    Some((busy * 100) / elapsed)
}

fn on_triggering_side(value: u128, threshold: u32, below: bool) -> (r: bool)
    ensures
        r == crosses(value as nat, threshold, below),
{
    if below {
        value < threshold as u128
    } else {
        value >= threshold as u128
    }
}

/// Decides whether the trigger fires on a sample.
pub fn trigger_fires(config: &ProcDumpConfiguration, sample: Sample) -> (r: bool)
    ensures
        r == fires(config@, sample),
{
    match sample {
        Sample::Memory { rss_pages, swap_pages, page_kib } => on_triggering_side(
            memory_usage(rss_pages, swap_pages, page_kib),
            config.trigger_threshold_mem,
            config.trigger_threshold_mem_below,
        ),
        Sample::Cpu { utime, stime, starttime, clock_ticks, uptime_seconds } => {
            match cpu_usage(utime, stime, starttime, clock_ticks, uptime_seconds) {
                Some(percent) => on_triggering_side(
                    percent,
                    config.trigger_threshold_cpu,
                    config.trigger_threshold_cpu_below,
                ),
                None => false,
            }
        },
        Sample::Threads { count } => count >= config.trigger_threshold_threads as u64,
        Sample::FileDescriptors { count } => count >= config.trigger_threshold_file_descriptors
            as u64,
        Sample::Timer => true,
    }
}

// ---------------------------------------------------------------------------
// What an observer does next
// ---------------------------------------------------------------------------

/// What an observer does next.
#[derive(Clone, Copy, Debug, PartialEq, Eq, Structural)]
pub enum ObserverAction {
    /// Return.
    Exit,
    /// Ask the dump writer for a dump, tagged with the kind of the trigger.
    Dump(TriggerKind),
    /// Wait, unless woken, for this many milliseconds.
    Wait(u64),
}

/// The milliseconds between two samples.
pub open spec fn polling_wait(c: ConfigurationView) -> u64 {
    c.polling_frequency
}

/// The milliseconds that an observer lets pass after a dump of its own.
pub open spec fn spacing_wait(c: ConfigurationView) -> u64 {
    (c.threshold_seconds * 1000) as u64
}

/// What an observer of kind `kind` does with the outcome of its measuring,
/// and the state after it. The observer returns when the budget is used up,
/// when the target is marked as gone, and when the supervisor asked it to
/// stop. A target that is found gone is marked so and the observer returns.
/// A record that could not be read, or a sample of another kind, is skipped:
/// the observer waits for the next polling period. On a sample of its kind
/// the observer asks for a dump if the trigger fires, and waits for the next
/// polling period if not.
pub open spec fn observation(t: TargetView, kind: TriggerKind, sampling: Sampling) -> (
    ObserverAction,
    TargetView,
) {
    if !worth_probing(t) || t.is_quit {
        (ObserverAction::Exit, t)
    } else {
        match sampling {
            Sampling::NoSuchProcess => (
                ObserverAction::Exit,
                TargetView { process_terminated: true, ..t },
            ),
            Sampling::ProcParseError => (ObserverAction::Wait(polling_wait(t.config)), t),
            Sampling::Taken(sample) => if sample_kind(sample) == kind && fires(t.config, sample) {
                (ObserverAction::Dump(kind), t)
            } else {
                (ObserverAction::Wait(polling_wait(t.config)), t)
            },
        }
    }
}

fn kind_of(sample: Sample) -> (kind: TriggerKind)
    ensures
        kind == sample_kind(sample),
{
    match sample {
        Sample::Memory { .. } => TriggerKind::Memory,
        Sample::Cpu { .. } => TriggerKind::Cpu,
        Sample::Threads { .. } => TriggerKind::Threads,
        Sample::FileDescriptors { .. } => TriggerKind::FileDescriptors,
        Sample::Timer => TriggerKind::Timer,
    }
}

/// Decides what an observer of kind `kind` does with the outcome of its
/// measuring.
pub fn observe(state: &mut TargetState, kind: TriggerKind, sampling: Sampling) -> (action:
    ObserverAction)
    ensures
        (action, final(state)@) == observation(old(state)@, kind, sampling),
        within_budget(final(state)@),
{
    if state.dumps_collected() >= state.config().number_of_dumps_to_collect
        || state.is_terminated() || state.is_quit() {
        return ObserverAction::Exit;
    }
    match sampling {
        Sampling::NoSuchProcess => {
            state.mark_terminated();
            ObserverAction::Exit
        },
        Sampling::ProcParseError => ObserverAction::Wait(state.config().polling_frequency),
        Sampling::Taken(sample) => {
            if kind_of(sample) == kind && trigger_fires(state.config(), sample) {
                ObserverAction::Dump(kind)
            } else {
                ObserverAction::Wait(state.config().polling_frequency)
            }
        },
    }
}

/// What an observer does after a dump attempt, given whether monitoring goes
/// on: it lets the spacing pass, or returns.
pub open spec fn after_dump(c: ConfigurationView, go: bool) -> ObserverAction {
    if go {
        ObserverAction::Wait(spacing_wait(c))
    } else {
        ObserverAction::Exit
    }
}

/// Decides what an observer does right after a dump attempt, whether or not
/// the dump was written: it tests again whether monitoring goes on, and if so
/// lets the spacing pass before it samples again.
pub fn after_dump_attempt(state: &mut TargetState) -> (action: ObserverAction)
    ensures
        action == after_dump(old(state)@.config, action != ObserverAction::Exit),
        allowed_continuation(old(state)@, action != ObserverAction::Exit, final(state)@),
        within_budget(final(state)@),
{
    if should_continue_monitoring(state) {
        let seconds: u64 = state.config().threshold_seconds as u64;
        ObserverAction::Wait(seconds * 1000)
    } else {
        ObserverAction::Exit
    }
}

/// Whether an observer goes on after a wait: the whole time went by, and the
/// supervisor did not ask it to stop. A wait that was cut short means that
/// the observer was woken to return.
pub open spec fn resumes(t: TargetView, requested: u64, elapsed: u64) -> bool {
    elapsed >= requested && !t.is_quit
}

/// Decides whether an observer goes on after a wait of `requested`
/// milliseconds that took `elapsed` milliseconds.
pub fn wait_completed(state: &TargetState, requested: u64, elapsed: u64) -> (go: bool)
    ensures
        go == resumes(state@, requested, elapsed),
{
    elapsed >= requested && !state.is_quit()
}

/// An observer that was asked to stop returns at its next decision: after
/// the wait it is in, however long that wait took, and after the sample it is
/// taking, whatever it measures, without a dump.
pub proof fn lemma_quit_ends_the_observer(
    t: TargetView,
    kind: TriggerKind,
    sampling: Sampling,
    requested: u64,
    elapsed: u64,
)
    requires
        t.is_quit,
    ensures
        !resumes(t, requested, elapsed),
        observation(t, kind, sampling) == (ObserverAction::Exit, t),
{
}

/// The decisions of an observer keep the budget rule, and none of them moves
/// the dump counter.
pub proof fn lemma_decisions_keep_budget(
    t: TargetView,
    kind: TriggerKind,
    sampling: Sampling,
    group_alive: bool,
    process_alive: bool,
)
    requires
        within_budget(t),
    ensures
        within_budget(continuation(t, group_alive, process_alive).1),
        within_budget(observation(t, kind, sampling).1),
        continuation(t, group_alive, process_alive).1.config == t.config,
        observation(t, kind, sampling).1.config == t.config,
{
}

/// After a dump of its own an observer samples again only when a wait of the
/// whole spacing went by: the action after the dump is a wait for the
/// configured seconds, and the wait is only left for another sample when at
/// least that time has passed.
pub proof fn lemma_spacing_between_dumps(t: TargetView, go: bool, elapsed: u64)
    ensures
        go ==> after_dump(t.config, go) == ObserverAction::Wait(spacing_wait(t.config)),
        resumes(t, spacing_wait(t.config), elapsed) ==> elapsed >= t.config.threshold_seconds
            * 1000,
{
}

/// For a target that is known to be gone, or whose budget is used up, no
/// observer asks for a dump, whatever it measured.
pub proof fn lemma_no_dump_when_done(t: TargetView, kind: TriggerKind, sampling: Sampling)
    requires
        t.process_terminated || t.config.number_of_dumps_collected
            >= t.config.number_of_dumps_to_collect,
    ensures
        !continuation(t, true, true).0,
        observation(t, kind, sampling).0 == ObserverAction::Exit,
        observation(t, kind, sampling).1 == t,
{
}

/// An observer only asks for a dump under its own trigger, and only when the
/// trigger fires on a sample of its kind.
pub proof fn lemma_dump_needs_a_firing_trigger(
    t: TargetView,
    kind: TriggerKind,
    sampling: Sampling,
)
    requires
        observation(t, kind, sampling).0 is Dump,
    ensures
        observation(t, kind, sampling).0 == ObserverAction::Dump(kind),
        sampling matches Sampling::Taken(sample) && sample_kind(sample) == kind && fires(
            t.config,
            sample,
        ),
{
}

// ---------------------------------------------------------------------------
// One round of each observer
// ---------------------------------------------------------------------------

/// The text of an optional string slice.
pub open spec fn record_text(record: Option<&str>) -> Option<Seq<char>> {
    match record {
        Some(text) => Some(text@),
        None => None,
    }
}

/// The memory sample that a status record gives: its resident and swapped
/// pages. Without a record the target is gone.
pub open spec fn memory_sampling(stat: Option<Seq<char>>, page_kib: u32) -> Sampling {
    match stat {
        None => Sampling::NoSuchProcess,
        Some(text) => match (
            stat_field_of(text, STAT_RSS as nat),
            stat_field_of(text, STAT_SWAP as nat),
        ) {
            (Ok(rss_pages), Ok(swap_pages)) => Sampling::Taken(
                Sample::Memory { rss_pages, swap_pages, page_kib },
            ),
            _ => Sampling::ProcParseError,
        },
    }
}

/// The processor sample that a status record gives: the clock ticks in user
/// and in kernel mode and the start time. Without a record the target is
/// gone.
pub open spec fn cpu_sampling(
    stat: Option<Seq<char>>,
    clock_ticks: u64,
    uptime_seconds: u64,
) -> Sampling {
    match stat {
        None => Sampling::NoSuchProcess,
        Some(text) => match (
            stat_field_of(text, STAT_UTIME as nat),
            stat_field_of(text, STAT_STIME as nat),
            stat_field_of(text, STAT_STARTTIME as nat),
        ) {
            (Ok(utime), Ok(stime), Ok(starttime)) => Sampling::Taken(
                Sample::Cpu { utime, stime, starttime, clock_ticks, uptime_seconds },
            ),
            _ => Sampling::ProcParseError,
        },
    }
}

/// The thread sample that a status record gives. Without a record the target
/// is gone.
pub open spec fn thread_sampling(stat: Option<Seq<char>>) -> Sampling {
    match stat {
        None => Sampling::NoSuchProcess,
        Some(text) => match stat_field_of(text, STAT_THREADS as nat) {
            Ok(count) => Sampling::Taken(Sample::Threads { count }),
            Err(_) => Sampling::ProcParseError,
        },
    }
}

/// The file-descriptor sample that a count of the target's descriptors
/// gives. Without a count the target is gone.
pub open spec fn file_sampling(descriptors: Option<u64>) -> Sampling {
    match descriptors {
        None => Sampling::NoSuchProcess,
        Some(count) => Sampling::Taken(Sample::FileDescriptors { count }),
    }
}

/// What the memory observer does in one round, given the status record of
/// the target and the facts of the machine. Without the facts the observer
/// cannot tell pages from MiB: it returns and changes nothing.
pub open spec fn memory_round(
    t: TargetView,
    stat: Option<Seq<char>>,
    facts: Option<SystemFacts>,
) -> (ObserverAction, TargetView) {
    match facts {
        Some(f) => observation(t, TriggerKind::Memory, memory_sampling(stat, f.page_kib)),
        None => (ObserverAction::Exit, t),
    }
}

/// What the processor observer does in one round, given the status record of
/// the target and the facts of the machine. Without the facts the observer
/// cannot tell clock ticks from seconds: it returns and changes nothing.
pub open spec fn cpu_round(
    t: TargetView,
    stat: Option<Seq<char>>,
    facts: Option<SystemFacts>,
) -> (ObserverAction, TargetView) {
    match facts {
        Some(f) => observation(
            t,
            TriggerKind::Cpu,
            cpu_sampling(stat, f.clock_ticks, f.uptime_seconds),
        ),
        None => (ObserverAction::Exit, t),
    }
}

/// One round of the memory observer: what it does on the target's status
/// record, or on its absence, and on the facts of the machine, or on their
/// absence.
pub fn mem_monitoring_thread(
    state: &mut TargetState,
    stat: Option<&str>,
    facts: Option<SystemFacts>,
) -> (action: ObserverAction)
    ensures
        (action, final(state)@) == memory_round(old(state)@, record_text(stat), facts),
        within_budget(final(state)@),
{
    let page_kib: u32 = match facts {
        Some(f) => f.page_kib,
        None => {
            let _ = state.dumps_in_flight();
            return ObserverAction::Exit;
        },
    };
    let sampling = match stat {
        None => Sampling::NoSuchProcess,
        Some(text) => match (stat_field(text, STAT_RSS), stat_field(text, STAT_SWAP)) {
            (Ok(rss_pages), Ok(swap_pages)) => Sampling::Taken(
                Sample::Memory { rss_pages, swap_pages, page_kib },
            ),
            _ => Sampling::ProcParseError,
        },
    };
    observe(state, TriggerKind::Memory, sampling)
}

/// One round of the processor observer: what it does on the target's status
/// record, or on its absence, and on the facts of the machine, or on their
/// absence.
pub fn cpu_monitoring_thread(
    state: &mut TargetState,
    stat: Option<&str>,
    facts: Option<SystemFacts>,
) -> (action: ObserverAction)
    ensures
        (action, final(state)@) == cpu_round(old(state)@, record_text(stat), facts),
        within_budget(final(state)@),
{
    let (clock_ticks, uptime_seconds): (u64, u64) = match facts {
        Some(f) => (f.clock_ticks, f.uptime_seconds),
        None => {
            let _ = state.dumps_in_flight();
            return ObserverAction::Exit;
        },
    };
    let sampling = match stat {
        None => Sampling::NoSuchProcess,
        Some(text) => match (
            stat_field(text, STAT_UTIME),
            stat_field(text, STAT_STIME),
            stat_field(text, STAT_STARTTIME),
        ) {
            (Ok(utime), Ok(stime), Ok(starttime)) => Sampling::Taken(
                Sample::Cpu { utime, stime, starttime, clock_ticks, uptime_seconds },
            ),
            _ => Sampling::ProcParseError,
        },
    };
    observe(state, TriggerKind::Cpu, sampling)
}

/// One round of the thread observer: what it does on the target's status
/// record, or on its absence.
pub fn thread_monitoring_thread(state: &mut TargetState, stat: Option<&str>) -> (action:
    ObserverAction)
    ensures
        (action, final(state)@) == observation(
            old(state)@,
            TriggerKind::Threads,
            thread_sampling(record_text(stat)),
        ),
        within_budget(final(state)@),
{
    let sampling = match stat {
        None => Sampling::NoSuchProcess,
        Some(text) => match stat_field(text, STAT_THREADS) {
            Ok(count) => Sampling::Taken(Sample::Threads { count }),
            Err(_) => Sampling::ProcParseError,
        },
    };
    observe(state, TriggerKind::Threads, sampling)
}

/// One round of the file-descriptor observer: what it does on the number of
/// the target's descriptors, or on its absence.
pub fn file_monitoring_thread(state: &mut TargetState, descriptors: Option<u64>) -> (action:
    ObserverAction)
    ensures
        (action, final(state)@) == observation(
            old(state)@,
            TriggerKind::FileDescriptors,
            file_sampling(descriptors),
        ),
        within_budget(final(state)@),
{
    let sampling = match descriptors {
        None => Sampling::NoSuchProcess,
        Some(count) => Sampling::Taken(Sample::FileDescriptors { count }),
    };
    observe(state, TriggerKind::FileDescriptors, sampling)
}

/// One round of the timer observer, whose trigger fires every time.
pub fn timer_monitoring_thread(state: &mut TargetState) -> (action: ObserverAction)
    ensures
        (action, final(state)@) == observation(
            old(state)@,
            TriggerKind::Timer,
            Sampling::Taken(Sample::Timer),
        ),
        action == (if worth_probing(old(state)@) && !old(state)@.is_quit {
            ObserverAction::Dump(TriggerKind::Timer)
        } else {
            ObserverAction::Exit
        }),
        within_budget(final(state)@),
{
    observe(state, TriggerKind::Timer, Sampling::Taken(Sample::Timer))
}

/// What the signal observer does with a signal that it intercepted.
#[derive(Clone, Copy, Debug, PartialEq, Eq, Structural)]
pub enum SignalAction {
    /// Detach and return.
    Exit,
    /// Hand the signal on to the target unchanged.
    Forward(u32),
    /// Detach and leave the target stopped, ask for a dump, then let the
    /// target continue and deliver the signal.
    DumpAndDeliver(u32),
}

/// What the signal observer does with an intercepted signal: the configured
/// one leads to a dump and is delivered after it; any other is handed on.
/// When the budget is used up or the target is gone the observer returns.
pub open spec fn signal_observation(t: TargetView, signal: u32) -> SignalAction {
    if !worth_probing(t) {
        SignalAction::Exit
    } else if signal == t.config.trigger_signal {
        SignalAction::DumpAndDeliver(signal)
    } else {
        SignalAction::Forward(signal)
    }
}

/// One round of the signal observer: what it does with a signal that the
/// target was sent.
pub fn signal_monitoring_thread(state: &TargetState, signal: u32) -> (action: SignalAction)
    ensures
        action == signal_observation(state@, signal),
{
    if state.dumps_collected() >= state.config().number_of_dumps_to_collect
        || state.is_terminated() {
        SignalAction::Exit
    } else if signal == state.config().trigger_signal {
        SignalAction::DumpAndDeliver(signal)
    } else {
        SignalAction::Forward(signal)
    }
}

} // verus!
