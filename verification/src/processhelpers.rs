//! What the kernel's process table says of a process: its name, its group,
//! its start time and the numbers in its status record.
//!
//! The functions work on a snapshot of the table that the caller read. Every
//! value is a sample: the process may be gone by the time it is used.

use crate::monitor::Candidate;
use crate::monitor::CandidateView;
use crate::procdumpconfiguration::NO_PID;
use crate::text::bounded_number;
use crate::text::field;
use crate::text::find_char;
use crate::text::find_field;
use crate::text::find_last_char;
use crate::text::index_of;
use crate::text::last_index_of;
use crate::text::lemma_last_index_of_bounds;
use crate::text::parse_number;
use crate::text::same_chars;
use crate::text::slice_text;
use crate::text::to_chars;
use vstd::prelude::*;

verus! {

/// Why the process table gives no answer.
#[derive(Clone, Copy, Debug, PartialEq, Eq, Structural)]
pub enum ProcError {
    /// The process is not in the table, or its record could not be read.
    NoSuchProcess,
    /// The record does not have the expected shape.
    ProcParseError,
}

/// The number of the status field that holds the process group.
pub const STAT_PGID: usize = 4;

/// The number of the status field that holds the time spent in user mode, in
/// clock ticks.
pub const STAT_UTIME: usize = 14;

/// The number of the status field that holds the time spent in kernel mode,
/// in clock ticks.
pub const STAT_STIME: usize = 15;

/// The number of the status field that holds the number of threads.
pub const STAT_THREADS: usize = 20;

/// The number of the status field that holds the start time, in clock ticks
/// since boot.
pub const STAT_STARTTIME: usize = 22;

/// The number of the status field that holds the resident pages.
pub const STAT_RSS: usize = 24;

/// The number of the status field that holds the swapped pages.
pub const STAT_SWAP: usize = 36;

/// One entry of the process table: the name of its directory, and the
/// contents of its status record and of its argument record, as far as they
/// could be read.
pub struct ProcEntry {
    pub name: String,
    pub stat: Option<String>,
    pub cmdline: Option<String>,
}

/// What an entry holds, its texts as sequences of characters.
pub ghost struct ProcEntryView {
    pub name: Seq<char>,
    pub stat: Option<Seq<char>>,
    pub cmdline: Option<Seq<char>>,
}

impl View for ProcEntry {
    type V = ProcEntryView;

    open spec fn view(&self) -> ProcEntryView {
        ProcEntryView {
            name: self.name@,
            stat: match self.stat {
                Some(s) => Some(s@),
                None => None,
            },
            cmdline: match self.cmdline {
                Some(s) => Some(s@),
                None => None,
            },
        }
    }
}

/// The views of the entries of a snapshot, in the same order.
pub open spec fn entry_views(s: Seq<ProcEntry>) -> Seq<ProcEntryView> {
    Seq::new(s.len(), |i: int| s[i]@)
}

// ---------------------------------------------------------------------------
// Records
// ---------------------------------------------------------------------------

/// The process id that the name of a directory of the process table writes:
/// a run of digits whose value is below `NO_PID`. Other entries of the table
/// are no processes.
pub open spec fn pid_of_name(name: Seq<char>) -> Option<i32> {
    match bounded_number(name, (NO_PID - 1) as nat) {
        Some(v) => Some(v as i32),
        None => None,
    }
}

/// Reads the name of a directory of the process table as a process id.
pub fn parse_pid(name: &str) -> (r: Option<i32>)
    ensures
        r == pid_of_name(name@),
{
    let chars = to_chars(name);
    assert(chars@.subrange(0, chars@.len() as int) =~= chars@);
    match parse_number(&chars, 0, chars.len()) {
        Some(v) => if v <= 2147483646 {
            Some(v as i32)
        } else {
            None
        },
        None => None,
    }
}

/// Field number `number` of a status record, counted from one, for the
/// numeric fields that follow the command name. The command name stands in
/// parentheses and may itself hold blanks and parentheses, so the fields are
/// counted from the last closing parenthesis: the field right after it is
/// number three.
pub open spec fn stat_field_of(stat: Seq<char>, number: nat) -> Result<u64, ProcError> {
    let close = last_index_of(stat, ')');
    if number < 3 || close < 0 {
        Err(ProcError::ProcParseError)
    } else {
        match field(stat, close + 1, (number - 3) as nat) {
            Some(text) => match bounded_number(text, u64::MAX as nat) {
                Some(v) => Ok(v as u64),
                None => Err(ProcError::ProcParseError),
            },
            None => Err(ProcError::ProcParseError),
        }
    }
}

fn stat_field_in(chars: &Vec<char>, number: usize) -> (r: Result<u64, ProcError>)
    ensures
        r == stat_field_of(chars@, number as nat),
{
    assert(chars@.subrange(0, chars@.len() as int) =~= chars@);
    if number < 3 {
        return Err(ProcError::ProcParseError);
    }
    let close = match find_last_char(chars, ')', 0, chars.len()) {
        Some(i) => i,
        None => {
            return Err(ProcError::ProcParseError);
        },
    };
    match find_field(chars, close + 1, number - 3) {
        Some((a, b)) => match parse_number(chars, a, b) {
            Some(v) => Ok(v),
            None => Err(ProcError::ProcParseError),
        },
        None => Err(ProcError::ProcParseError),
    }
}

/// Reads field number `number`, counted from one, of a status record.
pub fn stat_field(stat: &str, number: usize) -> (r: Result<u64, ProcError>)
    ensures
        r == stat_field_of(stat@, number as nat),
{
    let chars = to_chars(stat);
    stat_field_in(&chars, number)
}

/// The part of a path after its last slash; the whole where it has none.
pub open spec fn base_name(path: Seq<char>) -> Seq<char> {
    path.subrange(last_index_of(path, '/') + 1, path.len() as int)
}

/// The name of a process, from its argument record, in which a zero
/// character ends each argument: the base name of the first argument, or of
/// the second where the first is `sudo`. The name is empty where the record
/// is empty or ends after `sudo`.
pub open spec fn process_name_of(cmdline: Seq<char>) -> Seq<char> {
    let a = index_of(cmdline, '\0', 0);
    let first = base_name(cmdline.subrange(0, a));
    if first == "sudo"@ {
        if a < cmdline.len() {
            let b = index_of(cmdline, '\0', a + 1);
            base_name(cmdline.subrange(a + 1, b))
        } else {
            Seq::empty()
        }
    } else {
        first
    }
}

fn base_name_start(chars: &Vec<char>, from: usize, to: usize) -> (start: usize)
    requires
        from <= to <= chars.len(),
    ensures
        from <= start <= to,
        chars@.subrange(start as int, to as int) == base_name(
            chars@.subrange(from as int, to as int),
        ),
{
    let ghost part = chars@.subrange(from as int, to as int);
    proof {
        lemma_last_index_of_bounds(part, '/');
    }
    let start = match find_last_char(chars, '/', from, to) {
        Some(i) => i + 1,
        None => from,
    };
    assert(chars@.subrange(start as int, to as int) =~= part.subrange(
        last_index_of(part, '/') + 1,
        part.len() as int,
    ));
    start
}

fn is_sudo(chars: &Vec<char>, from: usize, to: usize) -> (r: bool)
    requires
        from <= to <= chars.len(),
    ensures
        r == (chars@.subrange(from as int, to as int) == "sudo"@),
{
    proof {
        reveal_strlit("sudo");
    }
    let ghost part = chars@.subrange(from as int, to as int);
    assert("sudo"@.len() == 4);
    if to - from != 4 {
        return false;
    }
    let r = chars[from] == 's' && chars[from + 1] == 'u' && chars[from + 2] == 'd' && chars[from
        + 3] == 'o';
    proof {
        assert(part[0] == chars@[from as int]);
        assert(part[1] == chars@[from + 1]);
        assert(part[2] == chars@[from + 2]);
        assert(part[3] == chars@[from + 3]);
        if r {
            assert(part =~= "sudo"@);
        }
    }
    r
}

/// Reads the name of a process from its argument record.
pub fn process_name(cmdline: &str) -> (name: String)
    ensures
        name@ == process_name_of(cmdline@),
{
    let chars = to_chars(cmdline);
    let a = find_char(&chars, '\0', 0);
    let first = base_name_start(&chars, 0, a);
    if is_sudo(&chars, first, a) {
        if a < chars.len() {
            let b = find_char(&chars, '\0', a + 1);
            let second = base_name_start(&chars, a + 1, b);
            slice_text(cmdline, second, b)
        } else {
            String::new()
        }
    } else {
        slice_text(cmdline, first, a)
    }
}

// ---------------------------------------------------------------------------
// The snapshot
// ---------------------------------------------------------------------------

/// The first position at or after `i` of an entry of process `pid`; the
/// number of entries where there is none.
pub open spec fn find_process(procs: Seq<ProcEntryView>, pid: i32, i: int) -> int
    decreases procs.len() - i,
{
    if 0 <= i < procs.len() && pid_of_name(procs[i].name) != Some(pid) {
        find_process(procs, pid, i + 1)
    } else {
        i
    }
}

/// The entry of process `pid`, if the snapshot has one.
pub open spec fn process_entry(procs: Seq<ProcEntryView>, pid: i32) -> Option<ProcEntryView> {
    let i = find_process(procs, pid, 0);
    if 0 <= i < procs.len() {
        Some(procs[i])
    } else {
        None
    }
}

/// Whether process `pid` is running: the snapshot has it, with a status
/// record.
pub open spec fn is_running(procs: Seq<ProcEntryView>, pid: i32) -> bool {
    match process_entry(procs, pid) {
        Some(entry) => entry.stat is Some,
        None => false,
    }
}

/// A numeric field of the status record of process `pid`.
pub open spec fn process_stat_field(procs: Seq<ProcEntryView>, pid: i32, number: nat) -> Result<
    u64,
    ProcError,
> {
    match process_entry(procs, pid) {
        Some(entry) => match entry.stat {
            Some(stat) => stat_field_of(stat, number),
            None => Err(ProcError::NoSuchProcess),
        },
        None => Err(ProcError::NoSuchProcess),
    }
}

/// The name of process `pid`; empty where the snapshot does not have the
/// process or its argument record.
pub open spec fn process_name_in(procs: Seq<ProcEntryView>, pid: i32) -> Seq<char> {
    match process_entry(procs, pid) {
        Some(entry) => match entry.cmdline {
            Some(cmdline) => process_name_of(cmdline),
            None => Seq::empty(),
        },
        None => Seq::empty(),
    }
}

/// The name that an entry gives its process; empty without an argument
/// record.
pub open spec fn entry_process_name(entry: ProcEntryView) -> Seq<char> {
    match entry.cmdline {
        Some(cmdline) => process_name_of(cmdline),
        None => Seq::empty(),
    }
}

/// The first process at or after position `i` whose name is `name`.
pub open spec fn find_named(procs: Seq<ProcEntryView>, name: Seq<char>, i: int) -> Option<i32>
    decreases procs.len() - i,
{
    if i < 0 || i >= procs.len() {
        None
    } else {
        match pid_of_name(procs[i].name) {
            Some(pid) => if entry_process_name(procs[i]) == name {
                Some(pid)
            } else {
                find_named(procs, name, i + 1)
            },
            None => find_named(procs, name, i + 1),
        }
    }
}

fn locate(procs: &Vec<ProcEntry>, pid: i32) -> (r: Option<usize>)
    ensures
        match r {
            Some(i) => i < procs.len() && process_entry(entry_views(procs@), pid) == Some(
                procs@[i as int]@,
            ),
            None => process_entry(entry_views(procs@), pid) is None,
        },
{
    let ghost views = entry_views(procs@);
    let mut i: usize = 0;
    while i < procs.len()
        invariant
            i <= procs.len(),
            views == entry_views(procs@),
            find_process(views, pid, i as int) == find_process(views, pid, 0),
        decreases procs.len() - i,
    {
        match parse_pid(procs[i].name.as_str()) {
            Some(p) => {
                if p == pid {
                    return Some(i);
                }
            },
            None => {},
        }
        i += 1;
    }
    None
}

/// Whether process `pid` is running.
pub fn is_process_running(procs: &Vec<ProcEntry>, pid: i32) -> (r: bool)
    ensures
        r == is_running(entry_views(procs@), pid),
{
    match locate(procs, pid) {
        Some(i) => procs[i].stat.is_some(),
        None => false,
    }
}

/// Reads a numeric field of the status record of process `pid`.
pub fn get_process_stat_field(procs: &Vec<ProcEntry>, pid: i32, number: usize) -> (r: Result<
    u64,
    ProcError,
>)
    ensures
        r == process_stat_field(entry_views(procs@), pid, number as nat),
{
    match locate(procs, pid) {
        Some(i) => match &procs[i].stat {
            Some(stat) => stat_field(stat.as_str(), number),
            None => Err(ProcError::NoSuchProcess),
        },
        None => Err(ProcError::NoSuchProcess),
    }
}

/// The process group of process `pid`.
pub fn get_process_pgid(procs: &Vec<ProcEntry>, pid: i32) -> (r: Result<u64, ProcError>)
    ensures
        r == process_stat_field(entry_views(procs@), pid, STAT_PGID as nat),
{
    get_process_stat_field(procs, pid, STAT_PGID)
}

/// The start time of process `pid`, in clock ticks since boot.
pub fn get_process_start_time(procs: &Vec<ProcEntry>, pid: i32) -> (r: Result<u64, ProcError>)
    ensures
        r == process_stat_field(entry_views(procs@), pid, STAT_STARTTIME as nat),
{
    get_process_stat_field(procs, pid, STAT_STARTTIME)
}

/// The name of process `pid`; empty where it is not known.
pub fn get_process_name_by_pid(procs: &Vec<ProcEntry>, pid: i32) -> (name: String)
    ensures
        name@ == process_name_in(entry_views(procs@), pid),
{
    match locate(procs, pid) {
        Some(i) => match &procs[i].cmdline {
            Some(cmdline) => process_name(cmdline.as_str()),
            None => String::new(),
        },
        None => String::new(),
    }
}

/// The first process of the snapshot whose name is `process_name`; `None`
/// where no process has that name.
pub fn get_process_pid_by_name(procs: &Vec<ProcEntry>, process_name: &String) -> (r: Option<i32>)
    ensures
        r == find_named(entry_views(procs@), process_name@, 0),
{
    let ghost views = entry_views(procs@);
    let wanted = to_chars(process_name.as_str());
    let mut i: usize = 0;
    while i < procs.len()
        invariant
            i <= procs.len(),
            views == entry_views(procs@),
            wanted@ == process_name@,
            find_named(views, process_name@, i as int) == find_named(views, process_name@, 0),
        decreases procs.len() - i,
    {
        match parse_pid(procs[i].name.as_str()) {
            Some(pid) => {
                let found = match &procs[i].cmdline {
                    Some(cmdline) => self::process_name(cmdline.as_str()),
                    None => String::new(),
                };
                let chars = to_chars(found.as_str());
                if same_chars(&chars, &wanted) {
                    return Some(pid);
                }
            },
            None => {},
        }
        i += 1;
    }
    None
}

/// The candidate that an entry of the process table stands for: the entry
/// names a process id, and its status record gives the process group and the
/// start time. Other entries stand for none.
pub open spec fn candidate_of(entry: ProcEntryView) -> Option<CandidateView> {
    match (pid_of_name(entry.name), entry.stat) {
        (Some(pid), Some(stat)) => match (
            stat_field_of(stat, STAT_PGID as nat),
            stat_field_of(stat, STAT_STARTTIME as nat),
        ) {
            (Ok(pgid), Ok(start_time)) => Some(
                CandidateView { pid, pgid, name: entry_process_name(entry), start_time },
            ),
            _ => None,
        },
        _ => None,
    }
}

/// The candidates of a snapshot, in the order of its entries.
pub open spec fn candidates_of(procs: Seq<ProcEntryView>) -> Seq<CandidateView>
    decreases procs.len(),
{
    if procs.len() == 0 {
        Seq::empty()
    } else {
        match candidate_of(procs.last()) {
            Some(c) => candidates_of(procs.drop_last()).push(c),
            None => candidates_of(procs.drop_last()),
        }
    }
}

/// Reads the candidates for monitoring out of a snapshot of the process
/// table.
pub fn scan_candidates(procs: &Vec<ProcEntry>) -> (scan: Vec<Candidate>)
    ensures
        crate::monitor::candidate_views(scan@) == candidates_of(entry_views(procs@)),
{
    let ghost views = entry_views(procs@);
    let mut scan: Vec<Candidate> = Vec::new();
    let mut i: usize = 0;
    while i < procs.len()
        invariant
            i <= procs.len(),
            views == entry_views(procs@),
            crate::monitor::candidate_views(scan@) == candidates_of(views.take(i as int)),
        decreases procs.len() - i,
    {
        proof {
            assert(views.take(i + 1).drop_last() =~= views.take(i as int));
        }
        let entry = &procs[i];
        let ghost before = scan@;
        match (parse_pid(entry.name.as_str()), &entry.stat) {
            (Some(pid), Some(stat)) => {
                let chars = to_chars(stat.as_str());
                match (stat_field_in(&chars, STAT_PGID), stat_field_in(&chars, STAT_STARTTIME)) {
                    (Ok(pgid), Ok(start_time)) => {
                        let name = match &entry.cmdline {
                            Some(cmdline) => process_name(cmdline.as_str()),
                            None => String::new(),
                        };
                        let candidate = Candidate { pid, pgid, name, start_time };
                        scan.push(candidate);
                        assert(crate::monitor::candidate_views(scan@)
                            =~= crate::monitor::candidate_views(before).push(
                            candidate_of(procs@[i as int]@).unwrap(),
                        ));
                    },
                    _ => {},
                }
            },
            _ => {},
        }
        i += 1;
    }
    assert(views.take(procs.len() as int) =~= views);
    scan
}

} // verus!
