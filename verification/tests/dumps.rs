use procdump::dumpwriter::{
    clr_dump_request, clr_dump_succeeded, complete_dump, dump_file_name, dump_prefix,
    gcore_arguments, get_clr_socket_name, timestamp_now, write_dump, DumpError, DumpRequest,
    DumpSurroundings,
};
use procdump::procdumpconfiguration::{ProcDumpConfiguration, TargetState};
use procdump::triggerthreadprocs::{trigger_type, TriggerKind};

fn config(pid: i32) -> ProcDumpConfiguration {
    let mut c = ProcDumpConfiguration::default();
    c.process_id = pid;
    c.process_name = String::from("worker");
    c.core_dump_path = String::from("/var/dumps");
    c.number_of_dumps_to_collect = 2;
    c
}

fn target(pid: i32) -> TargetState {
    TargetState::new(&config(pid), pid, String::from("worker"), 1000)
}

fn socket_table(paths: &[&str]) -> Vec<String> {
    let mut lines = vec![String::from("Num       RefCount Protocol Flags    Type St Inode Path")];
    for (i, p) in paths.iter().enumerate() {
        lines.push(format!("0000000000000000: 00000002 00000000 00010000 0001 01 {} {}", 20000 + i, p));
    }
    lines
}

fn around(t: &TargetState, tag: &str, exists: bool, sockets: Vec<String>) -> DumpSurroundings {
    let timestamp = String::from("2024-05-06_07:08:09");
    DumpSurroundings {
        file_name: dump_file_name(t.config(), tag, &timestamp),
        timestamp,
        file_exists: exists,
        tmpdir: None,
        unix_sockets: sockets,
    }
}

fn attempt(
    t: &mut TargetState,
    tag: &str,
    exists: bool,
    sockets: Vec<String>,
) -> Result<DumpRequest, DumpError> {
    let found = around(t, tag, exists, sockets);
    write_dump(t, tag, &found)
}

#[test]
fn dump_file_name_without_a_dump_name() {
    let c = config(4321);
    assert_eq!(
        dump_prefix(&c, "memory", "2024-05-06_07:08:09"),
        "/var/dumps/worker_memory_2024-05-06_07:08:09"
    );
    assert_eq!(
        dump_file_name(&c, "memory", "2024-05-06_07:08:09"),
        "/var/dumps/worker_memory_2024-05-06_07:08:09.4321"
    );
    assert_eq!(
        dump_file_name(&c, trigger_type(TriggerKind::FileDescriptors), "T"),
        "/var/dumps/worker_file_descriptor_T.4321"
    );
}

#[test]
fn dump_file_name_with_a_dump_name_counts() {
    let mut c = config(4321);
    c.core_dump_name = String::from("crash");
    assert_eq!(dump_prefix(&c, "cpu", "2024-05-06_07:08:09"), "/var/dumps/crash_0");
    assert_eq!(dump_file_name(&c, "cpu", "2024-05-06_07:08:09"), "/var/dumps/crash_0.4321");
    c.number_of_dumps_collected = 12;
    assert_eq!(dump_file_name(&c, "timer", "other"), "/var/dumps/crash_12.4321");
}

#[test]
fn dump_file_name_is_a_function_of_its_inputs() {
    let a = config(4321);
    let mut b = config(4321);
    b.trigger_threshold_mem = 5;
    b.polling_frequency = 7;
    b.overwrite_existing_dump = true;
    assert_eq!(dump_file_name(&a, "cpu", "X"), dump_file_name(&b, "cpu", "X"));
    assert_eq!(dump_file_name(&a, "cpu", "X"), dump_file_name(&a, "cpu", "X"));
    assert_ne!(dump_file_name(&a, "cpu", "X"), dump_file_name(&a, "cpu", "Y"));
    assert_ne!(dump_file_name(&a, "cpu", "X"), dump_file_name(&config(4322), "cpu", "X"));
    let mut relative = config(1);
    relative.core_dump_path = String::from(".");
    assert_eq!(dump_file_name(&relative, "timer", "X"), "./worker_timer_X.1");
}

#[test]
fn trigger_tags() {
    assert_eq!(trigger_type(TriggerKind::Cpu), "cpu");
    assert_eq!(trigger_type(TriggerKind::Memory), "memory");
    assert_eq!(trigger_type(TriggerKind::Threads), "threads");
    assert_eq!(trigger_type(TriggerKind::FileDescriptors), "file_descriptor");
    assert_eq!(trigger_type(TriggerKind::Signal), "signal");
    assert_eq!(trigger_type(TriggerKind::Timer), "timer");
}

#[test]
fn gcore_arguments_are_prefix_and_pid() {
    assert_eq!(gcore_arguments("/var/dumps/crash_0", 4321), vec!["-o", "/var/dumps/crash_0", "4321"]);
}

#[test]
fn timestamp_has_the_shape_of_a_date_and_a_time() {
    let t = timestamp_now();
    let c: Vec<char> = t.chars().collect();
    assert_eq!(c.len(), 19);
    for (i, ch) in c.iter().enumerate() {
        match i {
            4 | 7 => assert_eq!(*ch, '-'),
            10 => assert_eq!(*ch, '_'),
            13 | 16 => assert_eq!(*ch, ':'),
            _ => assert!(ch.is_ascii_digit()),
        }
    }
}

#[test]
fn clr_socket_is_found_in_the_eighth_field() {
    let c = config(4321);
    let lines = socket_table(&[
        "/run/systemd/notify",
        "@/tmp/.X11-unix/X0",
        "/tmp/dotnet-diagnostic-999-1-socket",
        "/tmp/dotnet-diagnostic-4321-123456-socket",
        "/tmp/dotnet-diagnostic-4321-other",
    ]);
    assert_eq!(
        get_clr_socket_name(&c, &None, &lines),
        "/tmp/dotnet-diagnostic-4321-123456-socket"
    );
    assert_eq!(get_clr_socket_name(&config(5), &None, &lines), "");
}

#[test]
fn clr_socket_lookup_skips_the_header_and_short_lines() {
    let c = config(4321);
    let mut lines = vec![String::from("a b c d e f g /tmp/dotnet-diagnostic-4321-header")];
    assert_eq!(get_clr_socket_name(&c, &None, &lines), "");
    lines.push(String::from("0: 2 0 0 1 1 777"));
    lines.push(String::from(""));
    lines.push(String::from("/tmp/dotnet-diagnostic-4321-first-field 2 0 0 1 1 777"));
    assert_eq!(get_clr_socket_name(&c, &None, &lines), "");
    lines.push(String::from("0:   2\t0  0 1 1    777   /tmp/dotnet-diagnostic-4321-x  trailing"));
    assert_eq!(get_clr_socket_name(&c, &None, &lines), "/tmp/dotnet-diagnostic-4321-x");
    assert_eq!(get_clr_socket_name(&c, &None, &Vec::new()), "");
}

#[test]
fn clr_socket_is_rooted_under_the_temporary_directory() {
    let c = config(4321);
    let lines = socket_table(&[
        "/tmp/dotnet-diagnostic-4321-a-socket",
        "/scratch/dotnet-diagnostic-4321-b-socket",
    ]);
    let tmpdir = Some(String::from("/scratch"));
    assert_eq!(get_clr_socket_name(&c, &tmpdir, &lines), "/scratch/dotnet-diagnostic-4321-b-socket");
    let elsewhere = Some(String::from("/nowhere"));
    assert_eq!(get_clr_socket_name(&c, &elsewhere, &lines), "");
}

#[test]
fn clr_request_bytes_are_exact() {
    let packet = clr_dump_request("/a.1").unwrap();
    let expected: Vec<u8> = vec![
        0x44, 0x4F, 0x54, 0x4E, 0x45, 0x54, 0x5F, 0x49, 0x50, 0x43, 0x5F, 0x56, 0x31, 0x00,
        0x00, 42,
        0x01, 0x01,
        0x00, 0x00,
        5, 0, 0, 0,
        0x2F, 0x00, 0x61, 0x00, 0x2E, 0x00, 0x31, 0x00, 0x00, 0x00,
        4, 0, 0, 0,
        0, 0, 0, 0,
    ];
    assert_eq!(packet, expected);
    assert_eq!(&packet[0..13], "DOTNET_IPC_V1".as_bytes());
}

#[test]
fn clr_request_of_the_empty_name() {
    let packet = clr_dump_request("").unwrap();
    assert_eq!(packet.len(), 34);
    assert_eq!(packet[14], 0);
    assert_eq!(packet[15], 34);
    assert_eq!(&packet[20..26], &[1, 0, 0, 0, 0, 0]);
    assert_eq!(&packet[26..34], &[4, 0, 0, 0, 0, 0, 0, 0]);
}

fn requested_file(packet: &[u8]) -> String {
    assert_eq!(&packet[0..14], b"DOTNET_IPC_V1\0");
    assert_eq!(u16::from_be_bytes([packet[14], packet[15]]) as usize, packet.len());
    assert_eq!(&packet[16..20], &[1, 1, 0, 0]);
    let n = u32::from_le_bytes([packet[20], packet[21], packet[22], packet[23]]) as usize;
    assert_eq!(packet.len(), 32 + 2 * n);
    let mut units: Vec<u16> = Vec::new();
    for k in 0..n {
        units.push(u16::from_le_bytes([packet[24 + 2 * k], packet[25 + 2 * k]]));
    }
    assert_eq!(units.pop(), Some(0));
    let rest = &packet[24 + 2 * n..];
    assert_eq!(rest, &[4, 0, 0, 0, 0, 0, 0, 0]);
    String::from_utf16(&units).unwrap()
}

#[test]
fn clr_request_round_trip() {
    for path in [
        "/var/dumps/worker_memory_2024-05-06_07:08:09.4321",
        "./crash_0.1",
        "/tmp/d\u{e9}p\u{f4}t/\u{65e5}\u{672c}/\u{1F600}\u{10FFFF}\u{10000}.7",
        "\u{FFFF}\u{D7FF}\u{E000}",
        "",
    ] {
        let packet = clr_dump_request(path).unwrap();
        assert_eq!(requested_file(&packet), path);
        let units: Vec<u16> = path.encode_utf16().collect();
        assert_eq!(packet.len(), 32 + 2 * (units.len() + 1));
        assert_eq!(clr_dump_request(path).unwrap(), packet);
    }
}

#[test]
fn clr_request_size_limit() {
    let longest = "x".repeat(32750);
    let packet = clr_dump_request(&longest).unwrap();
    assert_eq!(packet.len(), 65534);
    assert_eq!(packet[14], 0xFF);
    assert_eq!(packet[15], 0xFE);
    assert_eq!(requested_file(&packet), longest);
    assert!(clr_dump_request(&"x".repeat(32751)).is_none());
    let wide = "\u{1F600}".repeat(16375);
    assert!(clr_dump_request(&wide).is_some());
    let too_wide = "\u{1F600}".repeat(16376);
    assert!(clr_dump_request(&too_wide).is_none());
}

#[test]
fn clr_response_status() {
    let mut response = b"DOTNET_IPC_V1\0".to_vec();
    response.extend_from_slice(&[0, 24, 0xFF, 0x00, 0, 0]);
    let mut ok = response.clone();
    ok.extend_from_slice(&[0, 0, 0, 0]);
    assert!(clr_dump_succeeded(&ok));
    for status in [[1u8, 0, 0, 0], [0, 1, 0, 0], [0, 0, 1, 0], [0, 0, 0, 0x80]] {
        let mut bad = response.clone();
        bad.extend_from_slice(&status);
        assert!(!clr_dump_succeeded(&bad));
    }
    assert!(!clr_dump_succeeded(&response));
    assert!(!clr_dump_succeeded(&Vec::new()));
    let mut longer = ok.clone();
    longer.push(9);
    assert!(clr_dump_succeeded(&longer));
}

#[test]
fn dump_without_a_diagnostics_socket_goes_to_the_helper() {
    let mut t = target(4321);
    let request = attempt(&mut t, "memory", false, socket_table(&["/run/x"])).ok().unwrap();
    assert_eq!(request.file_name, "/var/dumps/worker_memory_2024-05-06_07:08:09.4321");
    assert_eq!(request.prefix, "/var/dumps/worker_memory_2024-05-06_07:08:09");
    assert_eq!(request.process_id, 4321);
    assert_eq!(request.socket, "");
    assert!(request.packet.is_empty());
    assert_eq!(t.dumps_in_flight(), 1);
    assert_eq!(t.dumps_collected(), 0);
    assert_eq!(complete_dump(&mut t, true), Ok(1));
    assert_eq!(t.dumps_collected(), 1);
    assert_eq!(t.dumps_in_flight(), 0);
}

#[test]
fn clr_target_via_ipc() {
    let mut t = target(4321);
    let sockets = socket_table(&["/tmp/dotnet-diagnostic-4321-55-socket"]);
    let request = attempt(&mut t, "cpu", false, sockets).ok().unwrap();
    assert_eq!(request.socket, "/tmp/dotnet-diagnostic-4321-55-socket");
    assert_eq!(request.packet, clr_dump_request(&request.file_name).unwrap());
    assert_eq!(requested_file(&request.packet), "/var/dumps/worker_cpu_2024-05-06_07:08:09.4321");
    let mut response = b"DOTNET_IPC_V1\0".to_vec();
    response.extend_from_slice(&[0, 24, 0xFF, 0, 0, 0, 0, 0, 0, 0]);
    let ok = clr_dump_succeeded(&response);
    assert!(ok);
    assert_eq!(complete_dump(&mut t, ok), Ok(1));
    assert_eq!(t.dumps_collected(), 1);
}

#[test]
fn overwrite_policy() {
    let mut t = target(4321);
    assert!(matches!(
        attempt(&mut t, "memory", true, Vec::new()),
        Err(DumpError::AlreadyExists)
    ));
    assert_eq!(t.dumps_collected(), 0);
    assert_eq!(t.dumps_in_flight(), 0);

    let mut c = config(4321);
    c.overwrite_existing_dump = true;
    let mut t = TargetState::new(&c, 4321, String::from("worker"), 1);
    assert!(attempt(&mut t, "memory", true, Vec::new()).is_ok());
    assert_eq!(complete_dump(&mut t, true), Ok(1));
    assert_eq!(t.dumps_collected(), 1);
}

#[test]
fn failed_backend_does_not_count() {
    let mut t = target(4321);
    assert!(attempt(&mut t, "memory", false, Vec::new()).is_ok());
    assert_eq!(complete_dump(&mut t, false), Err(DumpError::BackendFailure));
    assert_eq!(t.dumps_collected(), 0);
    assert_eq!(t.dumps_in_flight(), 0);
    assert_eq!(complete_dump(&mut t, true), Err(DumpError::NotAdmitted));
    assert_eq!(t.dumps_collected(), 0);
}

#[test]
fn budget_holds_across_concurrent_requests() {
    let mut t = target(4321);
    assert!(attempt(&mut t, "memory", false, Vec::new()).is_ok());
    assert!(attempt(&mut t, "cpu", false, Vec::new()).is_ok());
    assert!(matches!(
        attempt(&mut t, "timer", false, Vec::new()),
        Err(DumpError::NotAdmitted)
    ));
    assert_eq!(complete_dump(&mut t, true), Ok(1));
    assert_eq!(complete_dump(&mut t, true), Ok(2));
    assert!(matches!(
        attempt(&mut t, "timer", false, Vec::new()),
        Err(DumpError::NotAdmitted)
    ));
    assert_eq!(t.dumps_collected(), 2);
}

#[test]
fn terminated_target_produces_no_dump() {
    let mut t = target(4321);
    t.mark_terminated();
    assert!(matches!(
        attempt(&mut t, "memory", false, Vec::new()),
        Err(DumpError::NotAdmitted)
    ));
    assert_eq!(t.dumps_in_flight(), 0);
}

#[test]
fn too_long_a_name_for_a_request() {
    let mut c = config(4321);
    c.core_dump_path = "d".repeat(40000);
    let mut t = TargetState::new(&c, 4321, String::from("worker"), 1);
    let sockets = socket_table(&["/tmp/dotnet-diagnostic-4321-55-socket"]);
    assert!(matches!(
        attempt(&mut t, "cpu", false, sockets),
        Err(DumpError::RequestTooLong)
    ));
    assert_eq!(t.dumps_in_flight(), 0);
    assert!(attempt(&mut t, "cpu", false, Vec::new()).is_ok());
}

#[test]
fn a_look_at_another_file_decides_nothing() {
    let mut c = config(4321);
    c.core_dump_name = String::from("crash");
    let mut t = TargetState::new(&c, 4321, String::from("worker"), 1);
    let stale = around(&t, "memory", false, Vec::new());
    assert_eq!(stale.file_name, "/var/dumps/crash_0.4321");
    assert!(attempt(&mut t, "memory", false, Vec::new()).is_ok());
    assert_eq!(complete_dump(&mut t, true), Ok(1));
    assert!(matches!(write_dump(&mut t, "memory", &stale), Err(DumpError::StaleProbe)));
    assert_eq!(t.dumps_in_flight(), 0);
    assert_eq!(t.dumps_collected(), 1);
    let fresh = around(&t, "memory", false, Vec::new());
    assert_eq!(fresh.file_name, "/var/dumps/crash_1.4321");
    let request = write_dump(&mut t, "memory", &fresh).ok().unwrap();
    assert_eq!(request.file_name, "/var/dumps/crash_1.4321");
}

#[test]
fn a_stale_look_comes_before_the_overwrite_policy() {
    let mut t = target(4321);
    let mut a = around(&t, "memory", true, Vec::new());
    a.file_name = String::from("/var/dumps/other");
    assert!(matches!(write_dump(&mut t, "memory", &a), Err(DumpError::StaleProbe)));
    let mut gone = target(4321);
    gone.mark_terminated();
    let mut b = around(&gone, "memory", false, Vec::new());
    b.file_name.push('x');
    assert!(matches!(write_dump(&mut gone, "memory", &b), Err(DumpError::StaleProbe)));
}
