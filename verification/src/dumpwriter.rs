//! The dump writer: what a dump file is called, whether a dump may be
//! written, how the target is recognised as a runtime with a diagnostics
//! socket, and the request that asks such a runtime for a dump.

use crate::procdumpconfiguration::may_dump;
use crate::procdumpconfiguration::optional_text;
use crate::procdumpconfiguration::ConfigurationView;
use crate::procdumpconfiguration::ProcDumpConfiguration;
use crate::procdumpconfiguration::TargetState;
use crate::procdumpconfiguration::TargetView;
use crate::procdumpconfiguration::dump_finished;
use crate::procdumpconfiguration::within_budget;
use crate::text::contains_text;
use crate::text::decimal;
use crate::text::decimal_string;
use crate::text::field;
use crate::text::find_field;
use crate::text::is_digit;
use crate::text::is_number;
use crate::text::range_contains;
use crate::text::signed_decimal;
use crate::text::signed_decimal_string;
use crate::text::slice_text;
use crate::text::to_chars;
use vstd::prelude::*;
use vstd::string::StringExecFns;

verus! {

// ---------------------------------------------------------------------------
// Names
// ---------------------------------------------------------------------------

/// The format of the time stamp in dump file names: year, month, day, an
/// underscore, then hours, minutes and seconds with colons between them.
pub open spec fn timestamp_format() -> Seq<char> {
    "%Y-%m-%d_%H:%M:%S"@
}

/// The local time of the call, written by `chrono::Local::now` and
/// `chrono::DateTime::format` in the given format, which must be the one of
/// the dump file names. Which time the text tells depends on the clock and
/// on the time zone of the machine, and nothing is claimed of it. What is
/// claimed is the shape that the format gives every time: the year, which
/// the format writes in four digits, or with a sign and four digits or more
/// outside the years 0 to 9999, and the five other numbers in two digits
/// each, between the marks of the format.
#[verifier::external_body]
fn local_time_text(format: &str) -> (text: String)
    requires
        format@ == timestamp_format(),
    ensures
        is_timestamp(text@),
{
    chrono::Local::now().format(format).to_string()
}

/// The time stamp for a dump that is written now: the local time of the
/// call, as year, month and day with hyphens between them, an underscore,
/// and hours, minutes and seconds with colons between them.
pub fn timestamp_now() -> (text: String)
    ensures
        is_timestamp(text@),
{
    local_time_text("%Y-%m-%d_%H:%M:%S")
}

/// Whether `y` writes a year as a time stamp does: four digits, or a sign and
/// four digits or more.
pub open spec fn is_year(y: Seq<char>) -> bool {
    (y.len() == 4 && is_number(y)) || (y.len() >= 5 && (y[0] == '+' || y[0] == '-') && is_number(
        y.subrange(1, y.len() as int),
    ))
}

/// Whether `t` has the shape of a time stamp: a year, a hyphen, two digits
/// for the month, a hyphen, two digits for the day, an underscore, and two
/// digits each for the hours, the minutes and the seconds, with colons
/// between them.
pub open spec fn is_timestamp(t: Seq<char>) -> bool {
    let y = t.len() - 15;
    &&& t.len() >= 19
    &&& is_year(t.subrange(0, y))
    &&& t[y] == '-' && is_digit(t[y + 1]) && is_digit(t[y + 2])
    &&& t[y + 3] == '-' && is_digit(t[y + 4]) && is_digit(t[y + 5])
    &&& t[y + 6] == '_' && is_digit(t[y + 7]) && is_digit(t[y + 8])
    &&& t[y + 9] == ':' && is_digit(t[y + 10]) && is_digit(t[y + 11])
    &&& t[y + 12] == ':' && is_digit(t[y + 13]) && is_digit(t[y + 14])
}

/// The path of a dump without its last part. Where a dump name is configured
/// it is the dump directory, a slash, the dump name, an underscore and the
/// number of dumps written so far; otherwise the dump directory, a slash, the
/// process name, the trigger's tag and the time stamp, with underscores
/// between the three.
pub open spec fn dump_prefix_of(c: ConfigurationView, tag: Seq<char>, timestamp: Seq<char>) -> Seq<
    char,
> {
    if c.core_dump_name.len() > 0 {
        c.core_dump_path + "/"@ + c.core_dump_name + "_"@ + decimal(
            c.number_of_dumps_collected as nat,
        )
    } else {
        c.core_dump_path + "/"@ + c.process_name + "_"@ + tag + "_"@ + timestamp
    }
}

/// The path of a dump: its prefix, a dot and the process id.
pub open spec fn dump_file_name_of(
    c: ConfigurationView,
    tag: Seq<char>,
    timestamp: Seq<char>,
) -> Seq<char> {
    dump_prefix_of(c, tag, timestamp) + "."@ + signed_decimal(c.process_id as int)
}

/// Builds the path of a dump without its last part.
pub fn dump_prefix(config: &ProcDumpConfiguration, trigger_type: &str, timestamp: &str) -> (prefix:
    String)
    ensures
        prefix@ == dump_prefix_of(config@, trigger_type@, timestamp@),
{
    let mut prefix = config.core_dump_path.clone();
    prefix.append("/");
    if !config.core_dump_name.as_str().is_empty() {
        prefix.append(config.core_dump_name.as_str());
        prefix.append("_");
        let counter = decimal_string(config.number_of_dumps_collected as u64);
        prefix.append(counter.as_str());
    } else {
        prefix.append(config.process_name.as_str());
        prefix.append("_");
        prefix.append(trigger_type);
        prefix.append("_");
        prefix.append(timestamp);
    }
    prefix
}

/// Builds the path of a dump. The path depends on nothing but the
/// configuration (dump directory, dump name, process name, process id, number
/// of dumps written), the trigger's tag and the time stamp.
pub fn dump_file_name(config: &ProcDumpConfiguration, trigger_type: &str, timestamp: &str) -> (name:
    String)
    ensures
        name@ == dump_file_name_of(config@, trigger_type@, timestamp@),
{
    let mut name = dump_prefix(config, trigger_type, timestamp);
    name.append(".");
    let pid = signed_decimal_string(config.process_id);
    name.append(pid.as_str());
    name
}

/// The path of a dump is a function of the dump directory, the dump name,
/// the process name, the number of dumps written, the process id, the
/// trigger's tag and the time stamp, and of nothing else in the
/// configuration.
pub proof fn lemma_dump_file_name_inputs(
    a: ConfigurationView,
    b: ConfigurationView,
    tag: Seq<char>,
    timestamp: Seq<char>,
)
    requires
        a.core_dump_path == b.core_dump_path,
        a.core_dump_name == b.core_dump_name,
        a.process_name == b.process_name,
        a.number_of_dumps_collected == b.number_of_dumps_collected,
        a.process_id == b.process_id,
    ensures
        dump_prefix_of(a, tag, timestamp) == dump_prefix_of(b, tag, timestamp),
        dump_file_name_of(a, tag, timestamp) == dump_file_name_of(b, tag, timestamp),
{
}

/// The arguments of the helper that dumps a process without a diagnostics
/// socket: `-o`, the prefix, the process id.
pub open spec fn gcore_arguments_of(prefix: Seq<char>, pid: i32) -> Seq<Seq<char>> {
    seq!["-o"@, prefix, signed_decimal(pid as int)]
}

/// Builds the arguments of the dump helper.
pub fn gcore_arguments(prefix: &str, pid: i32) -> (args: Vec<String>)
    ensures
        args@.len() == 3,
        Seq::new(3, |i: int| args@[i]@) == gcore_arguments_of(prefix@, pid),
{
    let mut args: Vec<String> = Vec::new();
    args.push(String::from_str("-o"));
    args.push(String::from_str(prefix));
    args.push(signed_decimal_string(pid));
    args
}

// ---------------------------------------------------------------------------
// The diagnostics socket of a managed runtime
// ---------------------------------------------------------------------------

/// The text that the path of the diagnostics socket of process `pid` holds:
/// the temporary directory (`/tmp` where the environment names none), a
/// slash, `dotnet-diagnostic-` and the process id.
pub open spec fn clr_socket_marker(tmpdir: Option<Seq<char>>, pid: i32) -> Seq<char> {
    (match tmpdir {
        Some(dir) => dir,
        None => "/tmp"@,
    }) + "/dotnet-diagnostic-"@ + signed_decimal(pid as int)
}

/// The socket path that a line of the kernel's table of Unix sockets names,
/// if it is one of the wanted kind: the eighth whitespace-separated field,
/// where it holds the marker.
pub open spec fn socket_in_line(line: Seq<char>, marker: Seq<char>) -> Option<Seq<char>> {
    match field(line, 0, 7) {
        Some(path) => if contains_text(path, marker) {
            Some(path)
        } else {
            None
        },
        None => None,
    }
}

/// The first wanted socket path in the lines from number `i` on; the empty
/// text where there is none.
pub open spec fn first_socket(lines: Seq<Seq<char>>, marker: Seq<char>, i: int) -> Seq<char>
    decreases lines.len() - i,
{
    if i < 0 || i >= lines.len() {
        Seq::empty()
    } else {
        match socket_in_line(lines[i], marker) {
            Some(path) => path,
            None => first_socket(lines, marker, i + 1),
        }
    }
}

/// The path of the diagnostics socket of process `pid`, from the lines of the
/// kernel's table of Unix sockets, whose first line is a header and is not
/// read; the empty text where the table names no such socket.
pub open spec fn clr_socket_name_of(
    lines: Seq<Seq<char>>,
    tmpdir: Option<Seq<char>>,
    pid: i32,
) -> Seq<char> {
    first_socket(lines, clr_socket_marker(tmpdir, pid), 1)
}

/// The lines as sequences of characters.
pub open spec fn line_views(lines: Seq<String>) -> Seq<Seq<char>> {
    Seq::new(lines.len(), |i: int| lines[i]@)
}

/// Finds the diagnostics socket of the configured process in the lines of
/// the kernel's table of Unix sockets. The result is empty where the process
/// has none, which means that it is no managed runtime.
pub fn get_clr_socket_name(
    config: &ProcDumpConfiguration,
    tmpdir: &Option<String>,
    lines: &Vec<String>,
) -> (socket: String)
    ensures
        socket@ == clr_socket_name_of(line_views(lines@), optional_text(*tmpdir), config.process_id),
{
    let mut marker = match tmpdir {
        Some(dir) => dir.clone(),
        None => String::from_str("/tmp"),
    };
    marker.append("/dotnet-diagnostic-");
    let pid = signed_decimal_string(config.process_id);
    marker.append(pid.as_str());
    let wanted = to_chars(marker.as_str());
    let ghost all = line_views(lines@);
    if lines.len() < 2 {
        return String::new();
    }
    let mut i: usize = 1;
    while i < lines.len()
        invariant
            1 <= i <= lines.len(),
            all == line_views(lines@),
            wanted@ == marker@,
            marker@ == clr_socket_marker(optional_text(*tmpdir), config.process_id),
            first_socket(all, marker@, i as int) == first_socket(all, marker@, 1),
        decreases lines.len() - i,
    {
        let line = to_chars(lines[i].as_str());
        match find_field(&line, 0, 7) {
            Some((a, b)) => {
                if range_contains(&line, a, b, &wanted) {
                    return slice_text(lines[i].as_str(), a, b);
                }
            },
            None => {},
        }
        i += 1;
    }
    String::new()
}

// ---------------------------------------------------------------------------
// The request for a dump over the diagnostics socket
// ---------------------------------------------------------------------------

/// The code units that write one character in UTF-16: the character itself
/// below 0x10000, a high and a low surrogate above.
pub open spec fn utf16_units(c: char) -> Seq<u16> {
    let v = c as u32;
    if v < 0x10000 {
        seq![v as u16]
    } else {
        seq![(0xD800 + (v - 0x10000) / 0x400) as u16, (0xDC00 + (v - 0x10000) % 0x400) as u16]
    }
}

/// The code units that write a text in UTF-16.
pub open spec fn utf16_of(s: Seq<char>) -> Seq<u16>
    decreases s.len(),
{
    if s.len() == 0 {
        Seq::empty()
    } else {
        utf16_of(s.drop_last()) + utf16_units(s.last())
    }
}

/// Two bytes, the low one first.
pub open spec fn le16(v: u16) -> Seq<u8> {
    seq![(v % 256) as u8, (v / 256) as u8]
}

/// Two bytes, the high one first.
pub open spec fn be16(v: u16) -> Seq<u8> {
    seq![(v / 256) as u8, (v % 256) as u8]
}

/// Four bytes, the lowest first.
pub open spec fn le32(v: u32) -> Seq<u8> {
    seq![
        (v % 256) as u8,
        ((v / 256) % 256) as u8,
        ((v / 65536) % 256) as u8,
        (v / 16777216) as u8,
    ]
}

/// The code units as bytes, each unit low byte first.
pub open spec fn unit_bytes(units: Seq<u16>) -> Seq<u8> {
    Seq::new(
        2 * units.len(),
        |i: int|
            if i % 2 == 0 {
                (units[i / 2] % 256) as u8
            } else {
                (units[i / 2] / 256) as u8
            },
    )
}

/// The magic of the diagnostics protocol: `DOTNET_IPC_V1` and a zero byte.
pub open spec fn ipc_magic() -> Seq<u8> {
    seq![0x44u8, 0x4F, 0x54, 0x4E, 0x45, 0x54, 0x5F, 0x49, 0x50, 0x43, 0x5F, 0x56, 0x31, 0x00]
}

/// The bytes of a packet before its payload; the size is that of the whole
/// packet.
pub const IPC_HEADER_SIZE: usize = 20;

/// The dump type that asks for a full dump.
pub const FULL_DUMP: u32 = 4;

/// The largest number of code units, the closing zero counted, that the name
/// in a request can have: with more the packet's size does not fit the two
/// bytes that hold it.
pub const MAX_NAME_UNITS: usize = 32751;

/// The size in bytes of the request that names a file in `units` code units,
/// the closing zero counted.
pub open spec fn request_size(units: nat) -> nat {
    (IPC_HEADER_SIZE + 4 + 2 * units + 4 + 4) as nat
}

/// The request that asks for a dump into the file named by `units`, which
/// close with a zero: the magic, the size of the packet high byte first, the
/// command set 1 and the command 1, two reserved zero bytes, then the payload:
/// the number of code units in four bytes lowest first, the code units low
/// byte first, the dump type and the flags, each in four bytes lowest first.
pub open spec fn request_of_units(units: Seq<u16>, dump_type: u32, flags: u32) -> Seq<u8> {
    ipc_magic() + be16(request_size(units.len()) as u16) + seq![1u8, 1u8] + be16(0) + le32(
        units.len() as u32,
    ) + unit_bytes(units) + le32(dump_type) + le32(flags)
}

/// Whether a request can name the file: its name, written in UTF-16 and
/// closed by a zero, is within `MAX_NAME_UNITS`.
pub open spec fn nameable(path: Seq<char>) -> bool {
    utf16_of(path).len() + 1 <= MAX_NAME_UNITS
}

/// The request for a full dump into the file at `path`.
pub open spec fn clr_request_of(path: Seq<char>) -> Seq<u8> {
    request_of_units(utf16_of(path).push(0), FULL_DUMP, 0)
}

fn push_be16(out: &mut Vec<u8>, v: u16)
    ensures
        final(out)@ == old(out)@ + be16(v),
{
    out.push((v / 256) as u8);
    out.push((v % 256) as u8);
}

fn push_le32(out: &mut Vec<u8>, v: u32)
    ensures
        final(out)@ == old(out)@ + le32(v),
{
    out.push((v % 256) as u8);
    out.push(((v / 256) % 256) as u8);
    out.push(((v / 65536) % 256) as u8);
    out.push((v / 16777216) as u8);
}

/// Writes a text in UTF-16, as long as it stays within `limit` code units.
fn encode_utf16(text: &str, limit: usize) -> (r: Option<Vec<u16>>)
    ensures
        match r {
            Some(units) => units@ == utf16_of(text@) && units@.len() <= limit,
            None => utf16_of(text@).len() > limit,
        },
{
    let chars = to_chars(text);
    let mut units: Vec<u16> = Vec::new();
    let mut i: usize = 0;
    while i < chars.len()
        invariant
            i <= chars.len(),
            chars@ == text@,
            units@ == utf16_of(chars@.take(i as int)),
            units@.len() <= limit,
        decreases chars.len() - i,
    {
        let c = chars[i];
        let v: u32 = c as u32;
        proof {
            assert(chars@.take(i + 1).drop_last() =~= chars@.take(i as int));
            lemma_utf16_grows(chars@, i + 1);
        }
        if v < 0x10000 {
            if units.len() >= limit {
                return None;
            }
            units.push(v as u16);
        } else {
            if units.len() >= limit || units.len() + 1 >= limit {
                return None;
            }
            let w: u32 = v - 0x10000;
            units.push((0xD800 + w / 0x400) as u16);
            units.push((0xDC00 + w % 0x400) as u16);
        }
        i += 1;
    }
    assert(chars@.take(chars.len() as int) =~= chars@);
    Some(units)
}

/// A text is never written in fewer code units than one of its beginnings.
pub proof fn lemma_utf16_grows(s: Seq<char>, n: int)
    requires
        0 <= n <= s.len(),
    ensures
        utf16_of(s.take(n)).len() <= utf16_of(s).len(),
    decreases s.len(),
{
    if n == s.len() {
        assert(s.take(n) =~= s);
    } else {
        assert(s.drop_last().take(n) =~= s.take(n));
        lemma_utf16_grows(s.drop_last(), n);
    }
}

/// Builds the request for a full dump into the file at `dump_file_name`;
/// `None` where the name is too long for a request.
pub fn clr_dump_request(dump_file_name: &str) -> (r: Option<Vec<u8>>)
    ensures
        match r {
            Some(packet) => nameable(dump_file_name@) && packet@ == clr_request_of(
                dump_file_name@,
            ),
            None => !nameable(dump_file_name@),
        },
{
    let mut units = match encode_utf16(dump_file_name, MAX_NAME_UNITS - 1) {
        Some(units) => units,
        None => {
            return None;
        },
    };
    units.push(0);
    let count: usize = units.len();
    let total: usize = IPC_HEADER_SIZE + 4 + 2 * count + 4 + 4;
    let mut out: Vec<u8> = Vec::new();
    out.push(0x44);
    out.push(0x4F);
    out.push(0x54);
    out.push(0x4E);
    out.push(0x45);
    out.push(0x54);
    out.push(0x5F);
    out.push(0x49);
    out.push(0x50);
    out.push(0x43);
    out.push(0x5F);
    out.push(0x56);
    out.push(0x31);
    out.push(0x00);
    push_be16(&mut out, total as u16);
    out.push(1);
    out.push(1);
    push_be16(&mut out, 0);
    push_le32(&mut out, count as u32);
    let ghost head = out@;
    assert(head =~= ipc_magic() + be16(request_size(units@.len()) as u16) + seq![1u8, 1u8] + be16(0)
        + le32(units@.len() as u32));
    let mut k: usize = 0;
    while k < units.len()
        invariant
            k <= units.len(),
            out@ == head + unit_bytes(units@.take(k as int)),
        decreases units.len() - k,
    {
        let u: u16 = units[k];
        out.push((u % 256) as u8);
        out.push((u / 256) as u8);
        proof {
            let a = unit_bytes(units@.take(k as int));
            let b = unit_bytes(units@.take(k + 1));
            assert forall|i: int| 0 <= i < a.len() implies a[i] == b[i] by {
                assert(units@.take(k as int)[i / 2] == units@.take(k + 1)[i / 2]);
            }
        }
        k += 1;
    }
    push_le32(&mut out, FULL_DUMP);
    push_le32(&mut out, 0);
    Some(out)
}

/// The status in a response: the four bytes after the header, lowest first.
pub open spec fn response_status(response: Seq<u8>) -> int {
    response[20] + 256 * response[21] + 65536 * response[22] + 16777216 * response[23]
}

/// Whether a response reports success: it holds a header and a status, and
/// the status is zero.
pub open spec fn response_reports_success(response: Seq<u8>) -> bool {
    response.len() >= IPC_HEADER_SIZE + 4 && response_status(response) == 0
}

/// Reads the response to a dump request: the header, then the status in four
/// bytes lowest first. Zero is success; any other status, and a response that
/// is too short to hold one, is failure.
pub fn clr_dump_succeeded(response: &Vec<u8>) -> (ok: bool)
    ensures
        ok == response_reports_success(response@),
{
    if response.len() < IPC_HEADER_SIZE + 4 {
        return false;
    }
    response[20] == 0 && response[21] == 0 && response[22] == 0 && response[23] == 0
}

// ---------------------------------------------------------------------------
// Reading a request back
// ---------------------------------------------------------------------------

/// Two bytes at `i` read as a number, the high byte first.
pub open spec fn be16_at(b: Seq<u8>, i: int) -> int {
    256 * b[i] + b[i + 1]
}

/// Four bytes at `i` read as a number, the lowest byte first.
pub open spec fn le32_at(b: Seq<u8>, i: int) -> int {
    b[i] + 256 * b[i + 1] + 65536 * b[i + 2] + 16777216 * b[i + 3]
}

/// `n` code units read from the bytes at `from` on, each low byte first.
pub open spec fn units_at(b: Seq<u8>, from: int, n: nat) -> Seq<u16> {
    Seq::new(n, |k: int| (b[from + 2 * k] + 256 * b[from + 2 * k + 1]) as u16)
}

/// What a request holds: the code units of the file name, the dump type and
/// the flags.
pub ghost struct RequestFields {
    pub units: Seq<u16>,
    pub dump_type: u32,
    pub flags: u32,
}

/// Reads a packet by the layout of a dump request; `None` where the packet
/// does not have that layout: the magic, its own size, the command set 1 and
/// the command 1, two zero bytes, and a payload that is exactly the counted
/// code units and two numbers of four bytes.
pub open spec fn parse_request(b: Seq<u8>) -> Option<RequestFields> {
    if b.len() < 32 || b.subrange(0, 14) != ipc_magic() || be16_at(b, 14) != b.len() || b[16] != 1
        || b[17] != 1 || b[18] != 0 || b[19] != 0 {
        None
    } else {
        let n = le32_at(b, 20);
        if 32 + 2 * n != b.len() {
            None
        } else {
            Some(
                RequestFields {
                    units: units_at(b, 24, n as nat),
                    dump_type: le32_at(b, 24 + 2 * n) as u32,
                    flags: le32_at(b, 28 + 2 * n) as u32,
                },
            )
        }
    }
}

/// Reads code units as UTF-16; `None` where a surrogate stands alone or out
/// of order.
pub open spec fn decode_utf16(u: Seq<u16>) -> Option<Seq<char>>
    decreases u.len(),
{
    if u.len() == 0 {
        Some(Seq::empty())
    } else if u[0] < 0xD800 || u[0] >= 0xE000 {
        match decode_utf16(u.skip(1)) {
            Some(rest) => Some(seq![u[0] as char] + rest),
            None => None,
        }
    } else if u[0] < 0xDC00 && u.len() >= 2 && 0xDC00 <= u[1] < 0xE000 {
        match decode_utf16(u.skip(2)) {
            Some(rest) => Some(
                seq![(0x10000 + (u[0] - 0xD800) * 0x400 + (u[1] - 0xDC00)) as char] + rest,
            ),
            None => None,
        }
    } else {
        None
    }
}

/// The file that a packet asks a dump into, if the packet is a request for a
/// full dump without flags whose file name closes with a zero and is UTF-16.
pub open spec fn requested_file(b: Seq<u8>) -> Option<Seq<char>> {
    match parse_request(b) {
        Some(fields) => if fields.dump_type == FULL_DUMP && fields.flags == 0 && fields.units.len()
            >= 1 && fields.units.last() == 0 {
            decode_utf16(fields.units.drop_last())
        } else {
            None
        },
        None => None,
    }
}

proof fn lemma_le32_at(b: Seq<u8>, i: int, v: u32)
    requires
        0 <= i,
        i + 4 <= b.len(),
        b.subrange(i, i + 4) == le32(v),
    ensures
        le32_at(b, i) == v,
{
    let w = b.subrange(i, i + 4);
    assert(w[0] == b[i] && w[1] == b[i + 1] && w[2] == b[i + 2] && w[3] == b[i + 3]);
    let l = le32(v);
    assert(l[0] == (v % 256) as u8 && l[1] == ((v / 256) % 256) as u8 && l[2] == ((v / 65536)
        % 256) as u8 && l[3] == (v / 16777216) as u8);
}

/// A request that is built from its fields is read back as those fields.
pub proof fn lemma_request_round_trip(units: Seq<u16>, dump_type: u32, flags: u32)
    requires
        units.len() <= MAX_NAME_UNITS,
    ensures
        request_of_units(units, dump_type, flags).len() == request_size(units.len()),
        parse_request(request_of_units(units, dump_type, flags)) == Some(
            RequestFields { units, dump_type, flags },
        ),
{
    let n = units.len() as int;
    let size = request_size(units.len()) as u16;
    let magic = ipc_magic();
    let sized = magic + be16(size);
    let commanded = sized + seq![1u8, 1u8];
    let reserved = commanded + be16(0);
    let counted = reserved + le32(n as u32);
    let named = counted + unit_bytes(units);
    let typed = named + le32(dump_type);
    let b = typed + le32(flags);
    assert(b == request_of_units(units, dump_type, flags));
    assert(b.len() == 32 + 2 * n);
    assert(b.subrange(0, 14) =~= ipc_magic());
    assert(b[14] == (size / 256) as u8 && b[15] == (size % 256) as u8) by {
        assert(b[14] == sized[14] && b[15] == sized[15]);
        assert(sized[14] == be16(size)[0] && sized[15] == be16(size)[1]);
    }
    assert(be16_at(b, 14) == b.len());
    assert(b[16] == 1 && b[17] == 1) by {
        assert(b[16] == commanded[16] && b[17] == commanded[17]);
    }
    assert(b[18] == 0 && b[19] == 0) by {
        assert(b[18] == reserved[18] && b[19] == reserved[19]);
        assert(reserved[18] == be16(0)[0] && reserved[19] == be16(0)[1]);
    }
    assert(b.subrange(20, 24) =~= le32(n as u32));
    lemma_le32_at(b, 20, n as u32);
    assert(b.subrange(24 + 2 * n, 28 + 2 * n) =~= le32(dump_type));
    lemma_le32_at(b, 24 + 2 * n, dump_type);
    assert(b.subrange(28 + 2 * n, 32 + 2 * n) =~= le32(flags));
    lemma_le32_at(b, 28 + 2 * n, flags);
    assert forall|k: int| 0 <= k < n implies units_at(b, 24, n as nat)[k] == units[k] by {
        let ub = unit_bytes(units);
        assert(b[24 + 2 * k] == ub[2 * k]);
        assert(b[24 + 2 * k + 1] == ub[2 * k + 1]);
        assert(ub[2 * k] == (units[k] % 256) as u8);
        assert(ub[2 * k + 1] == (units[k] / 256) as u8);
    }
    assert(units_at(b, 24, n as nat) =~= units);
}

proof fn lemma_utf16_front(s: Seq<char>)
    requires
        s.len() > 0,
    ensures
        utf16_of(s) == utf16_units(s.first()) + utf16_of(s.drop_first()),
    decreases s.len(),
{
    if s.len() == 1 {
        assert(s.drop_last() =~= Seq::<char>::empty());
        assert(s.drop_first() =~= Seq::<char>::empty());
        assert(utf16_of(s) =~= utf16_units(s.first()) + utf16_of(s.drop_first()));
    } else {
        let front = s.drop_last();
        lemma_utf16_front(front);
        assert(front.first() == s.first());
        assert(front.drop_first() =~= s.drop_first().drop_last());
        assert(s.drop_first().last() == s.last());
        assert(utf16_of(s) =~= utf16_units(s.first()) + utf16_of(s.drop_first()));
    }
}

/// A text that is written in UTF-16 is read back as itself.
pub proof fn lemma_utf16_round_trip(s: Seq<char>)
    ensures
        decode_utf16(utf16_of(s)) == Some(s),
    decreases s.len(),
{
    if s.len() == 0 {
    } else {
        lemma_utf16_front(s);
        lemma_utf16_round_trip(s.drop_first());
        let c = s.first();
        let v = c as u32;
        let rest = utf16_of(s.drop_first());
        let u = utf16_of(s);
        vstd::utf8::char_is_scalar(c);
        vstd::utf8::char_u32_cast(c, v);
        if v < 0x10000 {
            assert(u.skip(1) =~= rest);
            assert(u[0] == v as u16);
            assert(u[0] as u32 == v);
            assert((u[0] as char) == (v as char));
            assert(seq![c] + s.drop_first() =~= s);
        } else {
            let hi = (0xD800 + (v - 0x10000) / 0x400) as u16;
            let lo = (0xDC00 + (v - 0x10000) % 0x400) as u16;
            assert(u[0] == hi && u[1] == lo);
            assert(u.skip(2) =~= rest);
            assert(0x10000 + (hi - 0xD800) * 0x400 + (lo - 0xDC00) == v);
            assert(((0x10000 + (hi - 0xD800) * 0x400 + (lo - 0xDC00)) as char) == (v as char));
            assert(seq![c] + s.drop_first() =~= s);
        }
    }
}

/// The request for a dump is a function of the file's path alone, and the
/// path is read back from it exactly: the layout loses nothing.
pub proof fn lemma_clr_request_round_trip(path: Seq<char>)
    requires
        nameable(path),
    ensures
        clr_request_of(path).len() == request_size(utf16_of(path).len() + 1),
        requested_file(clr_request_of(path)) == Some(path),
{
    let units = utf16_of(path).push(0);
    lemma_request_round_trip(units, FULL_DUMP, 0);
    lemma_utf16_round_trip(path);
    assert(units.drop_last() =~= utf16_of(path));
}

/// Two paths with the same request are the same path.
pub proof fn lemma_clr_request_tells_paths_apart(a: Seq<char>, b: Seq<char>)
    requires
        nameable(a),
        nameable(b),
        clr_request_of(a) == clr_request_of(b),
    ensures
        a == b,
{
    lemma_clr_request_round_trip(a);
    lemma_clr_request_round_trip(b);
}

// ---------------------------------------------------------------------------
// Writing a dump
// ---------------------------------------------------------------------------

/// Why no dump was written.
#[derive(Clone, Copy, Debug, PartialEq, Eq, Structural)]
pub enum DumpError {
    /// The file that was looked for is not the file that this dump would be
    /// written to: the name has changed since, and the look is to be
    /// repeated.
    StaleProbe,
    /// The dump file exists and may not be overwritten.
    AlreadyExists,
    /// The file name is too long for a request over the diagnostics socket.
    RequestTooLong,
    /// The target is gone, or the dumps written and under way fill the budget.
    NotAdmitted,
    /// The dump helper or the runtime reported failure.
    BackendFailure,
}

/// What the dump writer found around it: the time stamp, the name of the
/// dump file that was looked for and whether it exists, the temporary
/// directory that the environment names, and the lines of the kernel's table
/// of Unix sockets.
pub struct DumpSurroundings {
    pub timestamp: String,
    pub file_name: String,
    pub file_exists: bool,
    pub tmpdir: Option<String>,
    pub unix_sockets: Vec<String>,
}

/// A dump that is to be written. Where `socket` is empty the dump helper is
/// run on `prefix` and `process_id`; otherwise `packet` is sent to the
/// diagnostics socket at `socket`.
pub struct DumpRequest {
    pub file_name: String,
    pub prefix: String,
    pub process_id: i32,
    pub socket: String,
    pub packet: Vec<u8>,
}

/// Whether a dump is written, and if not, why: first the file that was
/// looked for must be the file of this dump; then it must not exist unless it
/// may be overwritten; then, for a target with a diagnostics socket, the
/// request must be able to name the file; then the target must not be gone
/// and the budget must have room.
pub open spec fn dump_decision(
    t: TargetView,
    file_name: Seq<char>,
    probed_name: Seq<char>,
    file_exists: bool,
    socket: Seq<char>,
) -> Result<(), DumpError> {
    if probed_name != file_name {
        Err(DumpError::StaleProbe)
    } else if file_exists && !t.config.overwrite_existing_dump {
        Err(DumpError::AlreadyExists)
    } else if socket.len() > 0 && !nameable(file_name) {
        Err(DumpError::RequestTooLong)
    } else if !may_dump(t) {
        Err(DumpError::NotAdmitted)
    } else {
        Ok(())
    }
}

/// Decides whether a dump of the target is written now, and prepares it. The
/// caller has looked for the dump file under the name that `dump_file_name`
/// gave it; where the name has changed since, because another dump was
/// counted in between, the look is stale and the dump is refused for now. On
/// success the dump is under way: the caller runs it and reports how it went
/// through `complete_dump`. On refusal the state is unchanged.
pub fn write_dump(state: &mut TargetState, trigger_type: &str, around: &DumpSurroundings) -> (r:
    Result<DumpRequest, DumpError>)
    ensures
        within_budget(final(state)@),
        match r {
            Ok(request) => {
                &&& dump_decision(
                    old(state)@,
                    request.file_name@,
                    around.file_name@,
                    around.file_exists,
                    request.socket@,
                ) is Ok
                &&& request.file_name@ == dump_file_name_of(
                    old(state)@.config,
                    trigger_type@,
                    around.timestamp@,
                )
                &&& request.prefix@ == dump_prefix_of(
                    old(state)@.config,
                    trigger_type@,
                    around.timestamp@,
                )
                &&& request.process_id == old(state)@.config.process_id
                &&& request.socket@ == clr_socket_name_of(
                    line_views(around.unix_sockets@),
                    optional_text(around.tmpdir),
                    old(state)@.config.process_id,
                )
                &&& request.packet@ == (if request.socket@.len() > 0 {
                    clr_request_of(request.file_name@)
                } else {
                    Seq::<u8>::empty()
                })
                &&& final(state)@ == (TargetView {
                    dumps_in_flight: (old(state)@.dumps_in_flight + 1) as u32,
                    ..old(state)@
                })
            },
            Err(e) => {
                &&& dump_decision(
                    old(state)@,
                    dump_file_name_of(old(state)@.config, trigger_type@, around.timestamp@),
                    around.file_name@,
                    around.file_exists,
                    clr_socket_name_of(
                        line_views(around.unix_sockets@),
                        optional_text(around.tmpdir),
                        old(state)@.config.process_id,
                    ),
                ) == Err::<(), DumpError>(e)
                &&& final(state)@ == old(state)@
            },
        },
{
    let _ = state.dumps_in_flight();
    let prefix = dump_prefix(state.config(), trigger_type, around.timestamp.as_str());
    let file_name = dump_file_name(state.config(), trigger_type, around.timestamp.as_str());
    let process_id = state.process_id();
    let socket = get_clr_socket_name(state.config(), &around.tmpdir, &around.unix_sockets);
    if around.file_name != file_name {
        return Err(DumpError::StaleProbe);
    }
    if around.file_exists && !state.config().overwrite_existing_dump {
        return Err(DumpError::AlreadyExists);
    }
    let packet = if !socket.as_str().is_empty() {
        match clr_dump_request(file_name.as_str()) {
            Some(packet) => packet,
            None => {
                return Err(DumpError::RequestTooLong);
            },
        }
    } else {
        Vec::new()
    };
    if !state.reserve_dump() {
        return Err(DumpError::NotAdmitted);
    }
    Ok(DumpRequest { file_name, prefix, process_id, socket, packet })
}

/// What the end of a dump comes to: the new number of dumps written where it
/// succeeded; otherwise the reason.
pub open spec fn dump_outcome(t: TargetView, succeeded: bool) -> Result<u32, DumpError> {
    if t.dumps_in_flight == 0 {
        Err(DumpError::NotAdmitted)
    } else if succeeded {
        Ok((t.config.number_of_dumps_collected + 1) as u32)
    } else {
        Err(DumpError::BackendFailure)
    }
}

/// Records the end of a dump that `write_dump` prepared. A dump that
/// succeeded counts as written; one that failed does not; either way it is no
/// longer under way. Where no dump is under way nothing changes.
pub fn complete_dump(state: &mut TargetState, succeeded: bool) -> (r: Result<u32, DumpError>)
    ensures
        within_budget(final(state)@),
        final(state)@ == dump_finished(old(state)@, succeeded),
        r == dump_outcome(old(state)@, succeeded),
{
    if state.dumps_in_flight() == 0 {
        let _ = state.finish_dump(succeeded);
        return Err(DumpError::NotAdmitted);
    }
    if state.finish_dump(succeeded) {
        Ok(state.dumps_collected())
    } else {
        Err(DumpError::BackendFailure)
    }
}

/// A dump that was prepared and succeeded moves the dump counter by exactly
/// one, within the budget; one that failed leaves the counter where it was.
/// Either way the target is as it was before the dump but for the counter.
pub proof fn lemma_dump_counts_once(
    t: TargetView,
    file_name: Seq<char>,
    probed_name: Seq<char>,
    file_exists: bool,
    socket: Seq<char>,
    succeeded: bool,
)
    requires
        within_budget(t),
        dump_decision(t, file_name, probed_name, file_exists, socket) is Ok,
    ensures
        ({
            let under_way = TargetView { dumps_in_flight: (t.dumps_in_flight + 1) as u32, ..t };
            let after = dump_finished(under_way, succeeded);
            &&& within_budget(under_way)
            &&& within_budget(after)
            &&& after.dumps_in_flight == t.dumps_in_flight
            &&& after.config.number_of_dumps_collected == t.config.number_of_dumps_collected + (
            if succeeded {
                1int
            } else {
                0int
            })
            &&& after.config.number_of_dumps_collected <= t.config.number_of_dumps_to_collect
            &&& dump_outcome(under_way, succeeded) == (if succeeded {
                Ok::<u32, DumpError>(after.config.number_of_dumps_collected)
            } else {
                Err::<u32, DumpError>(DumpError::BackendFailure)
            })
        }),
{
}

/// No dump is prepared for a target that is known to be gone.
pub proof fn lemma_no_dump_for_a_terminated_target(
    t: TargetView,
    file_name: Seq<char>,
    probed_name: Seq<char>,
    file_exists: bool,
    socket: Seq<char>,
)
    requires
        t.process_terminated,
    ensures
        dump_decision(t, file_name, probed_name, file_exists, socket) is Err,
{
}

/// Without leave to overwrite, an existing dump file is kept and the dump
/// refused; with it, the file does not stand in the way.
pub proof fn lemma_overwrite_policy(t: TargetView, file_name: Seq<char>, socket: Seq<char>)
    ensures
        !t.config.overwrite_existing_dump ==> dump_decision(t, file_name, file_name, true, socket)
            == Err::<(), DumpError>(DumpError::AlreadyExists),
        t.config.overwrite_existing_dump ==> dump_decision(t, file_name, file_name, true, socket)
            == dump_decision(t, file_name, file_name, false, socket),
{
}

/// What is known of a file counts for that file only: a dump is never
/// decided on a look at a file of another name.
pub proof fn lemma_stale_probe_decides_nothing(
    t: TargetView,
    file_name: Seq<char>,
    probed_name: Seq<char>,
    file_exists: bool,
    socket: Seq<char>,
)
    requires
        probed_name != file_name,
    ensures
        dump_decision(t, file_name, probed_name, file_exists, socket) == Err::<(), DumpError>(
            DumpError::StaleProbe,
        ),
{
}

} // verus!
