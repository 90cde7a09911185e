//! The configuration record of the agent and the per-target state that the
//! observers of one target share.

use crate::text::bounded_number;
use crate::text::decimal;
use crate::text::decimal_string;
use crate::text::signed_decimal;
use crate::text::signed_decimal_string;
use crate::text::parse_number;
use crate::text::to_chars;
use vstd::prelude::*;
use vstd::string::StringExecFns;

verus! {

/// Polling interval, in milliseconds, where none is given.
pub const DEFAULT_POLLING_INTERVAL: u64 = 1000;

/// Seconds between two dumps of one observer, where none are given.
pub const DEFAULT_DELTA_TIME: u32 = 10;

/// Number of dumps to collect, where none is given.
pub const DEFAULT_NUMBER_OF_DUMPS: u32 = 1;

/// Stands for "no process id" in `process_id` and `process_pgid`.
pub const NO_PID: i32 = 2147483647;

/// Stands for "no dump helper was started" in `gcore_process_id`.
pub const NO_HELPER: i32 = -1;

/// Stands for "not set" in the 32-bit thresholds, counts and the signal number.
pub const UNSET: u32 = 0xffff_ffff;

/// Stands for "not set" in the polling frequency.
pub const UNSET_FREQUENCY: u64 = 0xffff_ffff_ffff_ffff;

/// The configuration of the agent. A field that holds its sentinel (`UNSET`,
/// `UNSET_FREQUENCY`, `NO_PID`, the empty string) was not given.
pub struct ProcDumpConfiguration {
    pub process_id: i32,
    pub process_pgid: i32,
    pub polling_frequency: u64,
    pub number_of_dumps_to_collect: u32,
    pub number_of_dumps_collected: u32,
    pub threshold_seconds: u32,
    pub is_process_group_set: bool,
    pub trigger_threshold_cpu: u32,
    pub trigger_threshold_cpu_below: bool,
    pub trigger_threshold_mem: u32,
    pub trigger_threshold_mem_below: bool,
    pub trigger_threshold_threads: u32,
    pub trigger_threshold_file_descriptors: u32,
    pub trigger_signal: u32,
    pub trigger_threshold_seconds: u32,
    pub trigger_threshold_timer: bool,
    pub waiting_process_name: bool,
    pub diagnostics_logging_enabled: bool,
    pub gcore_process_id: i32,
    pub process_name: String,
    pub core_dump_path: String,
    pub core_dump_name: String,
    pub exit_monitor: bool,
    pub overwrite_existing_dump: bool,
}

/// What a configuration holds, its texts as sequences of characters.
pub ghost struct ConfigurationView {
    pub process_id: i32,
    pub process_pgid: i32,
    pub polling_frequency: u64,
    pub number_of_dumps_to_collect: u32,
    pub number_of_dumps_collected: u32,
    pub threshold_seconds: u32,
    pub is_process_group_set: bool,
    pub trigger_threshold_cpu: u32,
    pub trigger_threshold_cpu_below: bool,
    pub trigger_threshold_mem: u32,
    pub trigger_threshold_mem_below: bool,
    pub trigger_threshold_threads: u32,
    pub trigger_threshold_file_descriptors: u32,
    pub trigger_signal: u32,
    pub trigger_threshold_seconds: u32,
    pub trigger_threshold_timer: bool,
    pub waiting_process_name: bool,
    pub diagnostics_logging_enabled: bool,
    pub gcore_process_id: i32,
    pub process_name: Seq<char>,
    pub core_dump_path: Seq<char>,
    pub core_dump_name: Seq<char>,
    pub exit_monitor: bool,
    pub overwrite_existing_dump: bool,
}

impl View for ProcDumpConfiguration {
    type V = ConfigurationView;

    open spec fn view(&self) -> ConfigurationView {
        ConfigurationView {
            process_id: self.process_id,
            process_pgid: self.process_pgid,
            polling_frequency: self.polling_frequency,
            number_of_dumps_to_collect: self.number_of_dumps_to_collect,
            number_of_dumps_collected: self.number_of_dumps_collected,
            threshold_seconds: self.threshold_seconds,
            is_process_group_set: self.is_process_group_set,
            trigger_threshold_cpu: self.trigger_threshold_cpu,
            trigger_threshold_cpu_below: self.trigger_threshold_cpu_below,
            trigger_threshold_mem: self.trigger_threshold_mem,
            trigger_threshold_mem_below: self.trigger_threshold_mem_below,
            trigger_threshold_threads: self.trigger_threshold_threads,
            trigger_threshold_file_descriptors: self.trigger_threshold_file_descriptors,
            trigger_signal: self.trigger_signal,
            trigger_threshold_seconds: self.trigger_threshold_seconds,
            trigger_threshold_timer: self.trigger_threshold_timer,
            waiting_process_name: self.waiting_process_name,
            diagnostics_logging_enabled: self.diagnostics_logging_enabled,
            gcore_process_id: self.gcore_process_id,
            process_name: self.process_name@,
            core_dump_path: self.core_dump_path@,
            core_dump_name: self.core_dump_name@,
            exit_monitor: self.exit_monitor,
            overwrite_existing_dump: self.overwrite_existing_dump,
        }
    }
}

/// The configuration in which nothing was given yet.
pub open spec fn blank_configuration() -> ConfigurationView {
    ConfigurationView {
        process_id: NO_PID,
        process_pgid: NO_PID,
        polling_frequency: UNSET_FREQUENCY,
        number_of_dumps_to_collect: UNSET,
        number_of_dumps_collected: 0,
        threshold_seconds: UNSET,
        is_process_group_set: false,
        trigger_threshold_cpu: UNSET,
        trigger_threshold_cpu_below: false,
        trigger_threshold_mem: UNSET,
        trigger_threshold_mem_below: false,
        trigger_threshold_threads: UNSET,
        trigger_threshold_file_descriptors: UNSET,
        trigger_signal: UNSET,
        trigger_threshold_seconds: UNSET,
        trigger_threshold_timer: false,
        waiting_process_name: false,
        diagnostics_logging_enabled: false,
        gcore_process_id: NO_HELPER,
        process_name: Seq::empty(),
        core_dump_path: Seq::empty(),
        core_dump_name: Seq::empty(),
        exit_monitor: false,
        overwrite_existing_dump: false,
    }
}

/// `c` with each of the three defaults put where nothing was given: the number
/// of dumps, the seconds between dumps, the polling interval.
pub open spec fn with_defaults(c: ConfigurationView) -> ConfigurationView {
    ConfigurationView {
        number_of_dumps_to_collect: if c.number_of_dumps_to_collect == UNSET {
            DEFAULT_NUMBER_OF_DUMPS
        } else {
            c.number_of_dumps_to_collect
        },
        threshold_seconds: if c.threshold_seconds == UNSET {
            DEFAULT_DELTA_TIME
        } else {
            c.threshold_seconds
        },
        polling_frequency: if c.polling_frequency == UNSET_FREQUENCY {
            DEFAULT_POLLING_INTERVAL
        } else {
            c.polling_frequency
        },
        ..c
    }
}

/// Puts the default where the number of dumps, the seconds between dumps or
/// the polling interval was not given, and changes nothing else.
pub fn apply_defaults(config: &mut ProcDumpConfiguration)
    ensures
        final(config)@ == with_defaults(old(config)@),
{
    if config.number_of_dumps_to_collect == UNSET {
        config.number_of_dumps_to_collect = DEFAULT_NUMBER_OF_DUMPS;
    }
    if config.threshold_seconds == UNSET {
        config.threshold_seconds = DEFAULT_DELTA_TIME;
    }
    if config.polling_frequency == UNSET_FREQUENCY {
        config.polling_frequency = DEFAULT_POLLING_INTERVAL;
    }
}

impl Default for ProcDumpConfiguration {
    fn default() -> (config: ProcDumpConfiguration)
        ensures
            config@ == blank_configuration(),
    {
        ProcDumpConfiguration {
            process_id: NO_PID,
            process_pgid: NO_PID,
            polling_frequency: UNSET_FREQUENCY,
            number_of_dumps_to_collect: UNSET,
            number_of_dumps_collected: 0,
            threshold_seconds: UNSET,
            is_process_group_set: false,
            trigger_threshold_cpu: UNSET,
            trigger_threshold_cpu_below: false,
            trigger_threshold_mem: UNSET,
            trigger_threshold_mem_below: false,
            trigger_threshold_threads: UNSET,
            trigger_threshold_file_descriptors: UNSET,
            trigger_signal: UNSET,
            trigger_threshold_seconds: UNSET,
            trigger_threshold_timer: false,
            waiting_process_name: false,
            diagnostics_logging_enabled: false,
            gcore_process_id: NO_HELPER,
            process_name: String::new(),
            core_dump_path: String::new(),
            core_dump_name: String::new(),
            exit_monitor: false,
            overwrite_existing_dump: false,
        }
    }
}

impl Clone for ProcDumpConfiguration {
    fn clone(&self) -> (copy: ProcDumpConfiguration)
        ensures
            copy@ == self@,
    {
        ProcDumpConfiguration {
            process_id: self.process_id,
            process_pgid: self.process_pgid,
            polling_frequency: self.polling_frequency,
            number_of_dumps_to_collect: self.number_of_dumps_to_collect,
            number_of_dumps_collected: self.number_of_dumps_collected,
            threshold_seconds: self.threshold_seconds,
            is_process_group_set: self.is_process_group_set,
            trigger_threshold_cpu: self.trigger_threshold_cpu,
            trigger_threshold_cpu_below: self.trigger_threshold_cpu_below,
            trigger_threshold_mem: self.trigger_threshold_mem,
            trigger_threshold_mem_below: self.trigger_threshold_mem_below,
            trigger_threshold_threads: self.trigger_threshold_threads,
            trigger_threshold_file_descriptors: self.trigger_threshold_file_descriptors,
            trigger_signal: self.trigger_signal,
            trigger_threshold_seconds: self.trigger_threshold_seconds,
            trigger_threshold_timer: self.trigger_threshold_timer,
            waiting_process_name: self.waiting_process_name,
            diagnostics_logging_enabled: self.diagnostics_logging_enabled,
            gcore_process_id: self.gcore_process_id,
            process_name: self.process_name.clone(),
            core_dump_path: self.core_dump_path.clone(),
            core_dump_name: self.core_dump_name.clone(),
            exit_monitor: self.exit_monitor,
            overwrite_existing_dump: self.overwrite_existing_dump,
        }
    }
}

/// Prepares the agent before anything is monitored. Nothing needs preparing,
/// so this always reports success, which is zero.
pub fn init_procdump() -> (status: i32)
    ensures
        status == 0,
{
    0
}

// ---------------------------------------------------------------------------
// The state of one target
// ---------------------------------------------------------------------------

/// What the observers of one target share: the configuration specialised to
/// the target (its process id, its name, its dump counter), the start time
/// recorded when the target was first seen, and the run-time flags.
///
/// The dump counter and the number of dumps under way never add up to more
/// than the number of dumps to collect: every function that builds or changes
/// a state is held to that.
pub struct TargetState {
    config: ProcDumpConfiguration,
    process_start_time: u64,
    process_terminated: bool,
    is_quit: bool,
    dumps_in_flight: u32,
}

/// What a target state holds.
pub ghost struct TargetView {
    pub config: ConfigurationView,
    pub process_start_time: u64,
    pub process_terminated: bool,
    pub is_quit: bool,
    pub dumps_in_flight: u32,
}

/// What an observer or the coordinator needs to know of a target to decide
/// whether its supervisor is due for eviction.
#[derive(Clone, Copy, Debug, PartialEq, Eq, Structural)]
pub struct TargetReport {
    pub process_id: i32,
    pub is_quit: bool,
    pub process_terminated: bool,
    pub number_of_dumps_collected: u32,
    pub number_of_dumps_to_collect: u32,
}

/// The budget rule: dumps written and dumps under way together stay within
/// the number of dumps to collect.
pub open spec fn within_budget(t: TargetView) -> bool {
    t.config.number_of_dumps_collected + t.dumps_in_flight <= t.config.number_of_dumps_to_collect
}

/// The state of a target that was just attached: the configuration `c` with
/// the target's process id and name, no dump written or under way, no flag
/// raised.
pub open spec fn fresh_target(
    c: ConfigurationView,
    pid: i32,
    name: Seq<char>,
    start_time: u64,
) -> TargetView {
    TargetView {
        config: ConfigurationView {
            process_id: pid,
            process_name: name,
            number_of_dumps_collected: 0,
            ..c
        },
        process_start_time: start_time,
        process_terminated: false,
        is_quit: false,
        dumps_in_flight: 0,
    }
}

impl View for TargetState {
    type V = TargetView;

    closed spec fn view(&self) -> TargetView {
        TargetView {
            config: self.config@,
            process_start_time: self.process_start_time,
            process_terminated: self.process_terminated,
            is_quit: self.is_quit,
            dumps_in_flight: self.dumps_in_flight,
        }
    }
}

impl TargetState {
    #[verifier::type_invariant]
    spec fn budget_kept(self) -> bool {
        self.config.number_of_dumps_collected + self.dumps_in_flight
            <= self.config.number_of_dumps_to_collect
    }

    /// Attaches to the process `pid`, called `name`, that started at
    /// `start_time`, under the configuration `config`. The dump counter starts
    /// at zero whatever `config` holds.
    pub fn new(config: &ProcDumpConfiguration, pid: i32, name: String, start_time: u64) -> (state:
        TargetState)
        ensures
            state@ == fresh_target(config@, pid, name@, start_time),
            within_budget(state@),
    {
        let mut own = config.clone();
        own.process_id = pid;
        own.process_name = name;
        own.number_of_dumps_collected = 0;
        TargetState {
            config: own,
            process_start_time: start_time,
            process_terminated: false,
            is_quit: false,
            dumps_in_flight: 0,
        }
    }

    /// The configuration of this target.
    pub fn config(&self) -> (config: &ProcDumpConfiguration)
        ensures
            config@ == self@.config,
    {
        &self.config
    }

    /// The process id of the target.
    pub fn process_id(&self) -> (pid: i32)
        ensures
            pid == self@.config.process_id,
    {
        self.config.process_id
    }

    /// The start time recorded when the target was attached, in clock ticks
    /// since boot.
    pub fn process_start_time(&self) -> (ticks: u64)
        ensures
            ticks == self@.process_start_time,
    {
        self.process_start_time
    }

    /// Whether the target process is known to be gone.
    pub fn is_terminated(&self) -> (flag: bool)
        ensures
            flag == self@.process_terminated,
    {
        self.process_terminated
    }

    /// Whether the supervisor asked the observers to stop.
    pub fn is_quit(&self) -> (flag: bool)
        ensures
            flag == self@.is_quit,
    {
        self.is_quit
    }

    /// The number of dumps written so far. It never exceeds the number of
    /// dumps to collect.
    pub fn dumps_collected(&self) -> (n: u32)
        ensures
            n == self@.config.number_of_dumps_collected,
            n <= self@.config.number_of_dumps_to_collect,
            within_budget(self@),
    {
        proof {
            use_type_invariant(self);
        }
        self.config.number_of_dumps_collected
    }

    /// The number of dumps that were admitted and are not finished yet.
    pub fn dumps_in_flight(&self) -> (n: u32)
        ensures
            n == self@.dumps_in_flight,
            within_budget(self@),
    {
        proof {
            use_type_invariant(self);
        }
        self.dumps_in_flight
    }

    /// The counters and flags of this target, as plain values.
    pub fn report(&self) -> (report: TargetReport)
        ensures
            report == report_of(self@),
            report.number_of_dumps_collected <= report.number_of_dumps_to_collect,
    {
        proof {
            use_type_invariant(self);
        }
        TargetReport {
            process_id: self.config.process_id,
            is_quit: self.is_quit,
            process_terminated: self.process_terminated,
            number_of_dumps_collected: self.config.number_of_dumps_collected,
            number_of_dumps_to_collect: self.config.number_of_dumps_to_collect,
        }
    }

    /// Asks every observer of this target to stop: raises the quit flag and
    /// changes nothing else.
    pub fn stop(&mut self)
        ensures
            final(self)@ == (TargetView { is_quit: true, ..old(self)@ }),
            within_budget(final(self)@),
    {
        proof {
            use_type_invariant(&*self);
        }
        self.is_quit = true;
    }

    /// Records that the target process is gone.
    pub fn mark_terminated(&mut self)
        ensures
            final(self)@ == (TargetView { process_terminated: true, ..old(self)@ }),
            within_budget(final(self)@),
    {
        proof {
            use_type_invariant(&*self);
        }
        self.process_terminated = true;
    }

    /// Admits one more dump if the budget has room for it and the target is
    /// not known to be gone: the dump is then under way until `finish_dump`.
    pub fn reserve_dump(&mut self) -> (admitted: bool)
        ensures
            admitted == may_dump(old(self)@),
            admitted ==> final(self)@ == (TargetView {
                dumps_in_flight: (old(self)@.dumps_in_flight + 1) as u32,
                ..old(self)@
            }),
            !admitted ==> final(self)@ == old(self)@,
            within_budget(final(self)@),
    {
        proof {
            use_type_invariant(&*self);
        }
        if self.process_terminated {
            return false;
        }
        let budget: u32 = self.config.number_of_dumps_to_collect;
        let used: u32 = self.config.number_of_dumps_collected;
        if self.dumps_in_flight >= budget - used {
            return false;
        }
        self.dumps_in_flight = self.dumps_in_flight + 1;
        true
    }

    /// Ends a dump that `reserve_dump` admitted: it is no longer under way, and
    /// it counts as written if and only if it succeeded. Where no dump is
    /// under way nothing changes. The result says whether the counter moved.
    pub fn finish_dump(&mut self, succeeded: bool) -> (counted: bool)
        ensures
            final(self)@ == dump_finished(old(self)@, succeeded),
            counted == (succeeded && old(self)@.dumps_in_flight > 0),
            within_budget(final(self)@),
    {
        proof {
            use_type_invariant(&*self);
        }
        if self.dumps_in_flight == 0 {
            return false;
        }
        self.dumps_in_flight = self.dumps_in_flight - 1;
        if succeeded {
            self.config.number_of_dumps_collected = self.config.number_of_dumps_collected + 1;
        }
        succeeded
    }
}

/// The plain values of a target state.
pub open spec fn report_of(t: TargetView) -> TargetReport {
    TargetReport {
        process_id: t.config.process_id,
        is_quit: t.is_quit,
        process_terminated: t.process_terminated,
        number_of_dumps_collected: t.config.number_of_dumps_collected,
        number_of_dumps_to_collect: t.config.number_of_dumps_to_collect,
    }
}

/// Whether one more dump may start: the target is not known to be gone, and
/// the dumps written and under way leave room in the budget.
pub open spec fn may_dump(t: TargetView) -> bool {
    !t.process_terminated && t.config.number_of_dumps_collected + t.dumps_in_flight
        < t.config.number_of_dumps_to_collect
}

/// The state after a dump has ended: where one was under way, it no longer
/// is, and the counter moves by one if it succeeded; where none was, nothing
/// changes.
pub open spec fn dump_finished(t: TargetView, succeeded: bool) -> TargetView {
    if t.dumps_in_flight == 0 {
        t
    } else {
        TargetView {
            config: ConfigurationView {
                number_of_dumps_collected: if succeeded {
                    (t.config.number_of_dumps_collected + 1) as u32
                } else {
                    t.config.number_of_dumps_collected
                },
                ..t.config
            },
            dumps_in_flight: (t.dumps_in_flight - 1) as u32,
            ..t
        }
    }
}

/// Under the budget rule the dumps written never exceed the dumps to collect,
/// and the rule holds of a fresh target and outlives the raising of a flag.
pub proof fn lemma_budget_rule(
    t: TargetView,
    c: ConfigurationView,
    pid: i32,
    name: Seq<char>,
    start_time: u64,
)
    requires
        within_budget(t),
    ensures
        t.config.number_of_dumps_collected <= t.config.number_of_dumps_to_collect,
        within_budget(fresh_target(c, pid, name, start_time)),
        within_budget(TargetView { is_quit: true, ..t }),
        within_budget(TargetView { process_terminated: true, ..t }),
        may_dump(t) ==> within_budget(
            TargetView { dumps_in_flight: (t.dumps_in_flight + 1) as u32, ..t },
        ),
{
}

/// A target that is known to be gone is never admitted another dump.
pub proof fn lemma_no_dump_after_termination(t: TargetView)
    requires
        t.process_terminated,
    ensures
        !may_dump(t),
{
}

/// Finishing a dump keeps the budget rule, and the counter moves by one on
/// success and not at all on failure.
pub proof fn lemma_finish_dump_keeps_budget(t: TargetView, succeeded: bool)
    requires
        within_budget(t),
    ensures
        within_budget(dump_finished(t, succeeded)),
        dump_finished(t, succeeded).config.number_of_dumps_collected
            <= t.config.number_of_dumps_to_collect,
        !succeeded ==> dump_finished(t, succeeded).config.number_of_dumps_collected
            == t.config.number_of_dumps_collected,
{
}

// ---------------------------------------------------------------------------
// The command line
// ---------------------------------------------------------------------------

/// Why a command line gives no configuration.
#[derive(Clone, Copy, Debug, PartialEq, Eq, Structural)]
pub enum ConfigError {
    /// Nothing but the program's name was given.
    MissingArguments,
    /// Help was asked for.
    HelpRequested,
    /// An option that takes a value is the last argument.
    MissingValue,
    /// The value of an option is not an unsigned decimal number in range, or
    /// the number of dumps to collect is zero.
    InvalidNumber,
    /// There are more arguments than a target and a dump location.
    TooManyArguments,
    /// A process is waited for, and a process id was given in place of a name.
    WaitNeedsName,
    /// The dump location has neither a directory part nor a file name.
    InvalidDumpTarget,
    /// The directory of the dump location exists and is no directory.
    InvalidDumpDirectory,
    /// A signal trigger stands beside another trigger.
    SignalNotAlone,
    /// A signal trigger stands beside a polling frequency.
    PollingWithSignal,
    /// A dump name was given where several processes are monitored.
    DumpNameWithManyTargets,
}

/// What the file system holds under a path.
#[derive(Clone, Copy, Debug, PartialEq, Eq, Structural)]
pub enum PathKind {
    Missing,
    Directory,
    Other,
}

/// What the file system holds under an argument, read as a path, and under
/// its parent directory.
#[derive(Clone, Copy, Debug, PartialEq, Eq, Structural)]
pub struct PathProbe {
    pub kind: PathKind,
    pub parent_kind: PathKind,
}

/// The options of the command line.
#[derive(Clone, Copy, Debug, PartialEq, Eq, Structural)]
pub enum OptionKind {
    Help,
    Memory,
    MemoryBelow,
    Cpu,
    CpuBelow,
    Threads,
    FileDescriptors,
    Signal,
    Dumps,
    Seconds,
    Polling,
    Log,
    Overwrite,
    Wait,
    ProcessGroup,
    Pid,
}

/// The option that a name stands for: `m`, `ml`, `c`, `cl`, `tc`, `fc`, `sig`,
/// `n`, `s`, `pf`, `log`, `o`, `w`, `pgid`, `p`, `h`.
pub open spec fn option_named(name: Seq<char>) -> Option<OptionKind> {
    if name == "h"@ {
        Some(OptionKind::Help)
    } else if name == "m"@ {
        Some(OptionKind::Memory)
    } else if name == "ml"@ {
        Some(OptionKind::MemoryBelow)
    } else if name == "c"@ {
        Some(OptionKind::Cpu)
    } else if name == "cl"@ {
        Some(OptionKind::CpuBelow)
    } else if name == "tc"@ {
        Some(OptionKind::Threads)
    } else if name == "fc"@ {
        Some(OptionKind::FileDescriptors)
    } else if name == "sig"@ {
        Some(OptionKind::Signal)
    } else if name == "n"@ {
        Some(OptionKind::Dumps)
    } else if name == "s"@ {
        Some(OptionKind::Seconds)
    } else if name == "pf"@ {
        Some(OptionKind::Polling)
    } else if name == "log"@ {
        Some(OptionKind::Log)
    } else if name == "o"@ {
        Some(OptionKind::Overwrite)
    } else if name == "w"@ {
        Some(OptionKind::Wait)
    } else if name == "pgid"@ {
        Some(OptionKind::ProcessGroup)
    } else if name == "p"@ {
        Some(OptionKind::Pid)
    } else {
        None
    }
}

/// The option that an argument stands for: a `-` or a `/` before the name of
/// an option. Any other argument names the target or the dump location.
pub open spec fn option_of(arg: Seq<char>) -> Option<OptionKind> {
    if arg.len() >= 1 && (arg[0] == '-' || arg[0] == '/') {
        option_named(arg.subrange(1, arg.len() as int))
    } else {
        None
    }
}

/// The largest value an option takes; `None` for an option without a value.
pub open spec fn value_limit(kind: OptionKind) -> Option<nat> {
    match kind {
        OptionKind::Memory
        | OptionKind::MemoryBelow
        | OptionKind::Cpu
        | OptionKind::CpuBelow
        | OptionKind::Threads
        | OptionKind::FileDescriptors
        | OptionKind::Signal
        | OptionKind::Dumps
        | OptionKind::Seconds => Some(0xffff_ffff),
        OptionKind::Polling => Some(0xffff_ffff_ffff_ffff),
        _ => None,
    }
}

/// The configuration after an option was read; `v` is its value where it
/// takes one.
pub open spec fn with_option(c: ConfigurationView, kind: OptionKind, v: u64) -> ConfigurationView {
    match kind {
        OptionKind::Memory => ConfigurationView { trigger_threshold_mem: v as u32, ..c },
        OptionKind::MemoryBelow => ConfigurationView {
            trigger_threshold_mem: v as u32,
            trigger_threshold_mem_below: true,
            ..c
        },
        OptionKind::Cpu => ConfigurationView { trigger_threshold_cpu: v as u32, ..c },
        OptionKind::CpuBelow => ConfigurationView {
            trigger_threshold_cpu: v as u32,
            trigger_threshold_cpu_below: true,
            ..c
        },
        OptionKind::Threads => ConfigurationView { trigger_threshold_threads: v as u32, ..c },
        OptionKind::FileDescriptors => ConfigurationView {
            trigger_threshold_file_descriptors: v as u32,
            ..c
        },
        OptionKind::Signal => ConfigurationView { trigger_signal: v as u32, ..c },
        OptionKind::Dumps => ConfigurationView { number_of_dumps_to_collect: v as u32, ..c },
        OptionKind::Seconds => ConfigurationView { threshold_seconds: v as u32, ..c },
        OptionKind::Polling => ConfigurationView { polling_frequency: v, ..c },
        OptionKind::Log => ConfigurationView { diagnostics_logging_enabled: true, ..c },
        OptionKind::Overwrite => ConfigurationView { overwrite_existing_dump: true, ..c },
        OptionKind::Wait => ConfigurationView { waiting_process_name: true, ..c },
        OptionKind::ProcessGroup => ConfigurationView { is_process_group_set: true, ..c },
        OptionKind::Pid => c,
        OptionKind::Help => c,
    }
}

/// The directory part of a path, as `std::path::Path::parent` gives it;
/// `None` where the path has none.
pub uninterp spec fn path_parent(path: Seq<char>) -> Option<Seq<char>>;

/// The last component of a path, as `std::path::Path::file_name` gives it;
/// `None` where the path ends in no name.
pub uninterp spec fn path_file_name(path: Seq<char>) -> Option<Seq<char>>;

/// How far the command line is read.
pub ghost struct ParseState {
    pub config: ConfigurationView,
    pub process_specified: bool,
}

/// The probe of argument `i`; where none was handed in, nothing is known to
/// exist.
pub open spec fn probe_at(probes: Seq<PathProbe>, i: int) -> PathProbe {
    if 0 <= i < probes.len() {
        probes[i]
    } else {
        PathProbe { kind: PathKind::Missing, parent_kind: PathKind::Missing }
    }
}

/// The text of an optional string.
pub open spec fn optional_text(s: Option<String>) -> Option<Seq<char>> {
    match s {
        Some(t) => Some(t@),
        None => None,
    }
}

/// The configuration after the dump location was read, given the directory
/// part and the last component of the location. An existing directory is the
/// dump directory. An existing file changes nothing. A path that does not
/// exist is split into the dump directory and the dump name; it is refused
/// where it has no directory part or no last component, and where the
/// directory exists and is no directory.
pub open spec fn dump_target_given(
    c: ConfigurationView,
    arg: Seq<char>,
    probe: PathProbe,
    parent: Option<Seq<char>>,
    file_name: Option<Seq<char>>,
) -> Result<ConfigurationView, ConfigError> {
    match probe.kind {
        PathKind::Directory => Ok(ConfigurationView { core_dump_path: arg, ..c }),
        PathKind::Other => Ok(c),
        PathKind::Missing => match (parent, file_name) {
            (Some(dir), Some(name)) => if probe.parent_kind == PathKind::Other {
                Err(ConfigError::InvalidDumpDirectory)
            } else {
                Ok(ConfigurationView { core_dump_path: dir, core_dump_name: name, ..c })
            },
            _ => Err(ConfigError::InvalidDumpTarget),
        },
    }
}

/// The configuration after the dump location was read: the location is split
/// as `std::path::Path` splits it.
pub open spec fn with_dump_target(c: ConfigurationView, arg: Seq<char>, probe: PathProbe) -> Result<
    ConfigurationView,
    ConfigError,
> {
    dump_target_given(c, arg, probe, path_parent(arg), path_file_name(arg))
}

/// The state after an argument that is no option was read. The first such
/// argument names the target: a number below `NO_PID` is the process id, or
/// the process group where `-pgid` came before it, and anything else is the
/// process name. The second is the dump location. A further one is refused
/// once a dump directory is set.
pub open spec fn with_positional(st: ParseState, arg: Seq<char>, probe: PathProbe) -> Result<
    ParseState,
    ConfigError,
> {
    let c = st.config;
    if st.process_specified && c.core_dump_path.len() > 0 {
        Err(ConfigError::TooManyArguments)
    } else if !st.process_specified {
        let config = match bounded_number(arg, (NO_PID - 1) as nat) {
            Some(pid) => if c.is_process_group_set {
                ConfigurationView { process_pgid: pid as i32, ..c }
            } else {
                ConfigurationView { process_id: pid as i32, ..c }
            },
            None => ConfigurationView { process_name: arg, ..c },
        };
        Ok(ParseState { config, process_specified: true })
    } else {
        match with_dump_target(c, arg, probe) {
            Ok(config) => Ok(ParseState { config, process_specified: true }),
            Err(e) => Err(e),
        }
    }
}

/// The state after the arguments from number `i` on were read, one after the
/// other.
pub open spec fn parse_from(
    st: ParseState,
    args: Seq<Seq<char>>,
    probes: Seq<PathProbe>,
    i: int,
) -> Result<ParseState, ConfigError>
    decreases args.len() - i,
{
    if i < 0 || i >= args.len() {
        Ok(st)
    } else {
        match option_of(args[i]) {
            Some(OptionKind::Help) => Err(ConfigError::HelpRequested),
            Some(kind) => match value_limit(kind) {
                Some(limit) => if i + 1 >= args.len() {
                    Err(ConfigError::MissingValue)
                } else {
                    match bounded_number(args[i + 1], limit) {
                        Some(v) => parse_from(
                            ParseState { config: with_option(st.config, kind, v as u64), ..st },
                            args,
                            probes,
                            i + 2,
                        ),
                        None => Err(ConfigError::InvalidNumber),
                    }
                },
                None => parse_from(
                    ParseState { config: with_option(st.config, kind, 0), ..st },
                    args,
                    probes,
                    i + 1,
                ),
            },
            None => match with_positional(st, args[i], probe_at(probes, i)) {
                Ok(next) => parse_from(next, args, probes, i + 1),
                Err(e) => Err(e),
            },
        }
    }
}

/// Whether none of the four thresholds (cpu, memory, thread count,
/// file-descriptor count) is set.
pub open spec fn no_threshold(c: ConfigurationView) -> bool {
    c.trigger_threshold_cpu == UNSET && c.trigger_threshold_mem == UNSET
        && c.trigger_threshold_threads == UNSET && c.trigger_threshold_file_descriptors == UNSET
}

/// The checks and completions that follow the reading of the arguments, in
/// this order. The dump directory is `.` where none was given. The number of
/// dumps to collect is positive. A process that is waited for is named, not
/// numbered. The timer is the trigger where no
/// threshold is set. A signal trigger stands alone, also without a polling
/// frequency, and switches the timer off. A dump name is refused where
/// several processes are monitored. At the end the defaults are applied.
pub open spec fn validated(c: ConfigurationView) -> Result<ConfigurationView, ConfigError> {
    let c1 = if c.core_dump_path.len() == 0 {
        ConfigurationView { core_dump_path: "."@, ..c }
    } else {
        c
    };
    if c1.number_of_dumps_to_collect == 0 {
        Err(ConfigError::InvalidNumber)
    } else if c1.waiting_process_name && c1.process_id != NO_PID {
        Err(ConfigError::WaitNeedsName)
    } else if c1.trigger_signal != UNSET && !no_threshold(c1) {
        Err(ConfigError::SignalNotAlone)
    } else if c1.trigger_signal != UNSET && c1.polling_frequency != UNSET_FREQUENCY {
        Err(ConfigError::PollingWithSignal)
    } else if (c1.is_process_group_set || c1.waiting_process_name) && c1.core_dump_name.len() > 0 {
        Err(ConfigError::DumpNameWithManyTargets)
    } else {
        Ok(
            with_defaults(
                ConfigurationView {
                    trigger_threshold_timer: if c1.trigger_signal != UNSET {
                        false
                    } else if no_threshold(c1) {
                        true
                    } else {
                        c1.trigger_threshold_timer
                    },
                    ..c1
                },
            ),
        )
    }
}

/// The configuration that a command line gives. The first argument is the
/// program's name and is not read.
pub open spec fn options_of(args: Seq<Seq<char>>, probes: Seq<PathProbe>) -> Result<
    ConfigurationView,
    ConfigError,
> {
    if args.len() < 2 {
        Err(ConfigError::MissingArguments)
    } else {
        match parse_from(
            ParseState { config: blank_configuration(), process_specified: false },
            args,
            probes,
            1,
        ) {
            Ok(st) => validated(st.config),
            Err(e) => Err(e),
        }
    }
}

/// The arguments as sequences of characters.
pub open spec fn argument_views(args: Seq<String>) -> Seq<Seq<char>> {
    Seq::new(args.len(), |i: int| args[i]@)
}

/// The view of a configuration that was read, or the error.
pub open spec fn outcome_view(r: Result<ProcDumpConfiguration, ConfigError>) -> Result<
    ConfigurationView,
    ConfigError,
> {
    match r {
        Ok(config) => Ok(config@),
        Err(e) => Err(e),
    }
}

/// The directory part of `path`, by `std::path::Path::parent`. The contract
/// gives the result its name and claims nothing else of it.
#[verifier::external_body]
fn parent_of(path: &str) -> (r: Option<String>)
    ensures
        match r {
            Some(dir) => path_parent(path@) == Some(dir@),
            None => path_parent(path@) is None,
        },
{
    match std::path::Path::new(path).parent() {
        Some(dir) => match dir.to_str() {
            Some(text) => Some(text.to_string()),
            None => None,
        },
        None => None,
    }
}

/// The last component of `path`, by `std::path::Path::file_name`. The
/// contract gives the result its name and claims nothing else of it.
#[verifier::external_body]
fn file_name_of(path: &str) -> (r: Option<String>)
    ensures
        match r {
            Some(name) => path_file_name(path@) == Some(name@),
            None => path_file_name(path@) is None,
        },
{
    match std::path::Path::new(path).file_name() {
        Some(name) => match name.to_str() {
            Some(text) => Some(text.to_string()),
            None => None,
        },
        None => None,
    }
}

fn names(arg: &Vec<char>, name: &str) -> (r: bool)
    requires
        arg@.len() >= 1,
    ensures
        r == (arg@.subrange(1, arg@.len() as int) == name@),
{
    let wanted = to_chars(name);
    let ghost tail = arg@.subrange(1, arg@.len() as int);
    if arg.len() - 1 != wanted.len() {
        return false;
    }
    let mut i: usize = 0;
    while i < wanted.len()
        invariant
            i <= wanted.len(),
            arg.len() - 1 == wanted.len(),
            wanted@ == name@,
            tail == arg@.subrange(1, arg@.len() as int),
            forall|j: int| 0 <= j < i ==> tail[j] == wanted@[j],
        decreases wanted.len() - i,
    {
        if arg[i + 1] != wanted[i] {
            return false;
        }
        i += 1;
    }
    assert(tail =~= wanted@);
    true
}

/// Tells which option an argument stands for, if any.
pub fn classify(arg: &Vec<char>) -> (r: Option<OptionKind>)
    ensures
        r == option_of(arg@),
{
    if arg.len() < 1 || (arg[0] != '-' && arg[0] != '/') {
        return None;
    }
    if names(arg, "h") {
        Some(OptionKind::Help)
    } else if names(arg, "m") {
        Some(OptionKind::Memory)
    } else if names(arg, "ml") {
        Some(OptionKind::MemoryBelow)
    } else if names(arg, "c") {
        Some(OptionKind::Cpu)
    } else if names(arg, "cl") {
        Some(OptionKind::CpuBelow)
    } else if names(arg, "tc") {
        Some(OptionKind::Threads)
    } else if names(arg, "fc") {
        Some(OptionKind::FileDescriptors)
    } else if names(arg, "sig") {
        Some(OptionKind::Signal)
    } else if names(arg, "n") {
        Some(OptionKind::Dumps)
    } else if names(arg, "s") {
        Some(OptionKind::Seconds)
    } else if names(arg, "pf") {
        Some(OptionKind::Polling)
    } else if names(arg, "log") {
        Some(OptionKind::Log)
    } else if names(arg, "o") {
        Some(OptionKind::Overwrite)
    } else if names(arg, "w") {
        Some(OptionKind::Wait)
    } else if names(arg, "pgid") {
        Some(OptionKind::ProcessGroup)
    } else if names(arg, "p") {
        Some(OptionKind::Pid)
    } else {
        None
    }
}

fn limit_of(kind: OptionKind) -> (r: Option<u64>)
    ensures
        match r {
            Some(limit) => value_limit(kind) == Some(limit as nat),
            None => value_limit(kind) is None,
        },
{
    match kind {
        OptionKind::Memory
        | OptionKind::MemoryBelow
        | OptionKind::Cpu
        | OptionKind::CpuBelow
        | OptionKind::Threads
        | OptionKind::FileDescriptors
        | OptionKind::Signal
        | OptionKind::Dumps
        | OptionKind::Seconds => Some(0xffff_ffff),
        OptionKind::Polling => Some(0xffff_ffff_ffff_ffff),
        _ => None,
    }
}

fn set_option(config: &mut ProcDumpConfiguration, kind: OptionKind, v: u64)
    requires
        value_limit(kind) matches Some(limit) ==> v <= limit,
    ensures
        final(config)@ == with_option(old(config)@, kind, v),
{
    match kind {
        OptionKind::Memory => {
            config.trigger_threshold_mem = v as u32;
        },
        OptionKind::MemoryBelow => {
            config.trigger_threshold_mem = v as u32;
            config.trigger_threshold_mem_below = true;
        },
        OptionKind::Cpu => {
            config.trigger_threshold_cpu = v as u32;
        },
        OptionKind::CpuBelow => {
            config.trigger_threshold_cpu = v as u32;
            config.trigger_threshold_cpu_below = true;
        },
        OptionKind::Threads => {
            config.trigger_threshold_threads = v as u32;
        },
        OptionKind::FileDescriptors => {
            config.trigger_threshold_file_descriptors = v as u32;
        },
        OptionKind::Signal => {
            config.trigger_signal = v as u32;
        },
        OptionKind::Dumps => {
            config.number_of_dumps_to_collect = v as u32;
        },
        OptionKind::Seconds => {
            config.threshold_seconds = v as u32;
        },
        OptionKind::Polling => {
            config.polling_frequency = v;
        },
        OptionKind::Log => {
            config.diagnostics_logging_enabled = true;
        },
        OptionKind::Overwrite => {
            config.overwrite_existing_dump = true;
        },
        OptionKind::Wait => {
            config.waiting_process_name = true;
        },
        OptionKind::ProcessGroup => {
            config.is_process_group_set = true;
        },
        OptionKind::Pid => {},
        OptionKind::Help => {},
    }
}

fn read_number(text: &Vec<char>, limit: u64) -> (r: Option<u64>)
    ensures
        match r {
            Some(v) => bounded_number(text@, limit as nat) == Some(v as nat),
            None => bounded_number(text@, limit as nat) is None,
        },
{
    assert(text@.subrange(0, text@.len() as int) =~= text@);
    match parse_number(text, 0, text.len()) {
        Some(v) => if v <= limit {
            Some(v)
        } else {
            None
        },
        None => None,
    }
}

/// Puts the dump location into the configuration, given the directory part
/// and the last component of the location. On refusal the configuration is
/// unchanged.
pub fn place_dump_target(
    config: &mut ProcDumpConfiguration,
    arg: &String,
    probe: PathProbe,
    parent: Option<String>,
    file_name: Option<String>,
) -> (r: Result<(), ConfigError>)
    ensures
        match r {
            Ok(()) => dump_target_given(
                old(config)@,
                arg@,
                probe,
                optional_text(parent),
                optional_text(file_name),
            ) == Ok::<ConfigurationView, ConfigError>(final(config)@),
            Err(e) => dump_target_given(
                old(config)@,
                arg@,
                probe,
                optional_text(parent),
                optional_text(file_name),
            ) == Err::<ConfigurationView, ConfigError>(e) && final(config)@ == old(config)@,
        },
{
    match probe.kind {
        PathKind::Directory => {
            config.core_dump_path = arg.clone();
            Ok(())
        },
        PathKind::Other => Ok(()),
        PathKind::Missing => {
            match (parent, file_name) {
                (Some(dir), Some(name)) => {
                    if probe.parent_kind == PathKind::Other {
                        Err(ConfigError::InvalidDumpDirectory)
                    } else {
                        config.core_dump_path = dir;
                        config.core_dump_name = name;
                        Ok(())
                    }
                },
                _ => Err(ConfigError::InvalidDumpTarget),
            }
        },
    }
}

/// Checks and completes a configuration whose options were read: see
/// `validated`.
pub fn validate(config: ProcDumpConfiguration) -> (r: Result<ProcDumpConfiguration, ConfigError>)
    ensures
        outcome_view(r) == validated(config@),
{
    let mut config = config;
    if config.core_dump_path.as_str().is_empty() {
        config.core_dump_path = String::from_str(".");
    }
    let bare = config.trigger_threshold_cpu == UNSET && config.trigger_threshold_mem == UNSET
        && config.trigger_threshold_threads == UNSET && config.trigger_threshold_file_descriptors
        == UNSET;
    if config.number_of_dumps_to_collect == 0 {
        return Err(ConfigError::InvalidNumber);
    }
    if config.waiting_process_name && config.process_id != NO_PID {
        return Err(ConfigError::WaitNeedsName);
    }
    if config.trigger_signal != UNSET && !bare {
        return Err(ConfigError::SignalNotAlone);
    }
    if config.trigger_signal != UNSET && config.polling_frequency != UNSET_FREQUENCY {
        return Err(ConfigError::PollingWithSignal);
    }
    if (config.is_process_group_set || config.waiting_process_name)
        && !config.core_dump_name.as_str().is_empty() {
        return Err(ConfigError::DumpNameWithManyTargets);
    }
    if config.trigger_signal != UNSET {
        config.trigger_threshold_timer = false;
    } else if bare {
        config.trigger_threshold_timer = true;
    }
    apply_defaults(&mut config);
    Ok(config)
}

/// Reads the command line into a configuration. `args` are the arguments, the
/// program's name first; `probes` says, for each argument, what the file
/// system holds under it and under its parent directory.
pub fn get_options(args: &Vec<String>, probes: &Vec<PathProbe>) -> (r: Result<
    ProcDumpConfiguration,
    ConfigError,
>)
    ensures
        outcome_view(r) == options_of(argument_views(args@), probes@),
{
    if args.len() < 2 {
        return Err(ConfigError::MissingArguments);
    }
    let ghost argv = argument_views(args@);
    let ghost start = ParseState { config: blank_configuration(), process_specified: false };
    let mut config = ProcDumpConfiguration::default();
    let mut process_specified = false;
    let mut i: usize = 1;
    while i < args.len()
        invariant
            1 <= i <= args.len(),
            args.len() >= 2,
            argv == argument_views(args@),
            start == (ParseState { config: blank_configuration(), process_specified: false }),
            parse_from(
                ParseState { config: config@, process_specified },
                argv,
                probes@,
                i as int,
            ) == parse_from(start, argv, probes@, 1),
        decreases args.len() - i,
    {
        let arg = to_chars(args[i].as_str());
        match classify(&arg) {
            Some(OptionKind::Help) => {
                return Err(ConfigError::HelpRequested);
            },
            Some(kind) => match limit_of(kind) {
                Some(limit) => {
                    if i + 1 >= args.len() {
                        return Err(ConfigError::MissingValue);
                    }
                    let text = to_chars(args[i + 1].as_str());
                    match read_number(&text, limit) {
                        Some(v) => {
                            set_option(&mut config, kind, v);
                            i += 2;
                        },
                        None => {
                            return Err(ConfigError::InvalidNumber);
                        },
                    }
                },
                None => {
                    set_option(&mut config, kind, 0);
                    i += 1;
                },
            },
            None => {
                let probe = if i < probes.len() {
                    probes[i]
                } else {
                    PathProbe { kind: PathKind::Missing, parent_kind: PathKind::Missing }
                };
                if process_specified && !config.core_dump_path.as_str().is_empty() {
                    return Err(ConfigError::TooManyArguments);
                } else if !process_specified {
                    match read_number(&arg, 2147483646) {
                        Some(pid) => {
                            if config.is_process_group_set {
                                config.process_pgid = pid as i32;
                            } else {
                                config.process_id = pid as i32;
                            }
                        },
                        None => {
                            config.process_name = args[i].clone();
                        },
                    }
                    process_specified = true;
                } else {
                    let parent = parent_of(args[i].as_str());
                    let file_name = file_name_of(args[i].as_str());
                    match place_dump_target(&mut config, &args[i], probe, parent, file_name) {
                        Ok(()) => {},
                        Err(e) => {
                            return Err(e);
                        },
                    }
                }
                i += 1;
            },
        }
    }
    validate(config)
}

/// What holds of every configuration that passed the checks: at least one
/// dump is to be collected; the three defaults are in place; a signal trigger
/// stands alone and without the timer; without a signal trigger and without a
/// threshold the timer is the trigger; and where several processes are
/// monitored there is no dump name.
pub proof fn lemma_validated_configuration(c: ConfigurationView, v: ConfigurationView)
    requires
        validated(c) == Ok::<ConfigurationView, ConfigError>(v),
    ensures
        v.number_of_dumps_to_collect >= 1,
        v.number_of_dumps_to_collect != UNSET || c.number_of_dumps_to_collect == UNSET,
        c.number_of_dumps_to_collect == UNSET ==> v.number_of_dumps_to_collect
            == DEFAULT_NUMBER_OF_DUMPS,
        c.threshold_seconds == UNSET ==> v.threshold_seconds == DEFAULT_DELTA_TIME,
        c.polling_frequency == UNSET_FREQUENCY ==> v.polling_frequency == DEFAULT_POLLING_INTERVAL,
        v.trigger_signal != UNSET ==> no_threshold(v) && !v.trigger_threshold_timer,
        v.trigger_signal == UNSET && no_threshold(v) ==> v.trigger_threshold_timer,
        v.is_process_group_set || v.waiting_process_name ==> v.core_dump_name.len() == 0,
        v.waiting_process_name ==> v.process_id == NO_PID,
        v.core_dump_path.len() > 0,
{
    reveal_strlit(".");
}

// ---------------------------------------------------------------------------
// The configuration in words
// ---------------------------------------------------------------------------

/// The line that tells a threshold: the label, then `n/a` where the
/// threshold is not set, else the relation, the value and the unit.
pub open spec fn threshold_line(
    label: Seq<char>,
    value: u32,
    below: bool,
    unit: Seq<char>,
) -> Seq<char> {
    if value == UNSET {
        label + "n/a"@
    } else if below {
        label + "< "@ + decimal(value as nat) + unit
    } else {
        label + ">= "@ + decimal(value as nat) + unit
    }
}

/// The line that tells the target: the process group, the name that is
/// waited for, or the name and the process id.
pub open spec fn target_line(c: ConfigurationView) -> Seq<char> {
    if c.is_process_group_set {
        "Process Group: "@ + signed_decimal(c.process_pgid as int)
    } else if c.waiting_process_name {
        "Process Name: "@ + c.process_name
    } else {
        "Process: "@ + c.process_name + " ("@ + signed_decimal(c.process_id as int) + ")"@
    }
}

/// The lines that describe a configuration to the user. With a signal
/// trigger a note on its cost and two empty lines come first. Then come the
/// target, the five triggers, the polling interval, the seconds between
/// dumps, the number of dumps and the dump directory, and at the end the
/// pattern of the dump names where a dump name is set.
pub open spec fn configuration_lines(c: ConfigurationView) -> Seq<Seq<char>> {
    (if c.trigger_signal != UNSET {
        seq![
            "** NOTE ** Signal triggers use PTRACE which will impact the performance of the target process"@,
            ""@,
            ""@,
        ]
    } else {
        Seq::empty()
    }) + seq![
        target_line(c),
        threshold_line(
            "CPU Threshold: "@,
            c.trigger_threshold_cpu,
            c.trigger_threshold_cpu_below,
            "%"@,
        ),
        threshold_line(
            "Memory Threshold: "@,
            c.trigger_threshold_mem,
            c.trigger_threshold_mem_below,
            "MB"@,
        ),
        threshold_line("Thread Threshold: "@, c.trigger_threshold_threads, false, ""@),
        threshold_line(
            "File Descriptor Threshold: "@,
            c.trigger_threshold_file_descriptors,
            false,
            ""@,
        ),
        if c.trigger_signal == UNSET {
            "Signal: n/a"@
        } else {
            "Signal: "@ + decimal(c.trigger_signal as nat)
        },
        "Polling interval (ms): "@ + decimal(c.polling_frequency as nat),
        "Threshold (s): "@ + decimal(c.threshold_seconds as nat),
        "Number of dumps: "@ + decimal(c.number_of_dumps_to_collect as nat),
        "Output Directory: "@ + c.core_dump_path,
    ] + (if c.core_dump_name.len() > 0 {
        seq!["Custom name for core dumps: "@ + c.core_dump_name + "_<counter>.<pid>"@]
    } else {
        Seq::empty()
    })
}

/// The texts of a sequence of strings, in the same order.
pub open spec fn line_texts(lines: Seq<String>) -> Seq<Seq<char>> {
    Seq::new(lines.len(), |i: int| lines[i]@)
}

fn write_threshold(label: &str, value: u32, below: bool, unit: &str) -> (line: String)
    ensures
        line@ == threshold_line(label@, value, below, unit@),
{
    let mut line = String::from_str(label);
    if value == UNSET {
        line.append("n/a");
    } else {
        if below {
            line.append("< ");
        } else {
            line.append(">= ");
        }
        let number = decimal_string(value as u64);
        line.append(number.as_str());
        line.append(unit);
    }
    line
}

fn write_target(config: &ProcDumpConfiguration) -> (line: String)
    ensures
        line@ == target_line(config@),
{
    let mut line: String;
    if config.is_process_group_set {
        line = String::from_str("Process Group: ");
        let number = signed_decimal_string(config.process_pgid);
        line.append(number.as_str());
    } else if config.waiting_process_name {
        line = String::from_str("Process Name: ");
        line.append(config.process_name.as_str());
    } else {
        line = String::from_str("Process: ");
        line.append(config.process_name.as_str());
        line.append(" (");
        let number = signed_decimal_string(config.process_id);
        line.append(number.as_str());
        line.append(")");
    }
    line
}

fn write_number(label: &str, value: u64) -> (line: String)
    ensures
        line@ == label@ + decimal(value as nat),
{
    let mut line = String::from_str(label);
    let number = decimal_string(value);
    line.append(number.as_str());
    line
}

/// Describes a configuration to the user, line by line.
pub fn print_configuration(config: &ProcDumpConfiguration) -> (lines: Vec<String>)
    ensures
        line_texts(lines@) == configuration_lines(config@),
{
    let mut lines: Vec<String> = Vec::new();
    if config.trigger_signal != UNSET {
        lines.push(
            String::from_str(
                "** NOTE ** Signal triggers use PTRACE which will impact the performance of the target process",
            ),
        );
        lines.push(String::from_str(""));
        lines.push(String::from_str(""));
    }
    lines.push(write_target(config));
    lines.push(
        write_threshold(
            "CPU Threshold: ",
            config.trigger_threshold_cpu,
            config.trigger_threshold_cpu_below,
            "%",
        ),
    );
    lines.push(
        write_threshold(
            "Memory Threshold: ",
            config.trigger_threshold_mem,
            config.trigger_threshold_mem_below,
            "MB",
        ),
    );
    lines.push(write_threshold("Thread Threshold: ", config.trigger_threshold_threads, false, ""));
    lines.push(
        write_threshold(
            "File Descriptor Threshold: ",
            config.trigger_threshold_file_descriptors,
            false,
            "",
        ),
    );
    if config.trigger_signal == UNSET {
        lines.push(String::from_str("Signal: n/a"));
    } else {
        lines.push(write_number("Signal: ", config.trigger_signal as u64));
    }
    lines.push(write_number("Polling interval (ms): ", config.polling_frequency));
    lines.push(write_number("Threshold (s): ", config.threshold_seconds as u64));
    lines.push(write_number("Number of dumps: ", config.number_of_dumps_to_collect as u64));
    let mut output = String::from_str("Output Directory: ");
    output.append(config.core_dump_path.as_str());
    lines.push(output);
    if !config.core_dump_name.as_str().is_empty() {
        let mut pattern = String::from_str("Custom name for core dumps: ");
        pattern.append(config.core_dump_name.as_str());
        pattern.append("_<counter>.<pid>");
        lines.push(pattern);
    }
    lines
}

} // verus!
