use procdump::procdumpconfiguration::{
    apply_defaults, init_procdump, ProcDumpConfiguration, DEFAULT_DELTA_TIME,
    DEFAULT_NUMBER_OF_DUMPS, DEFAULT_POLLING_INTERVAL, NO_PID,
};

#[test]
fn default_configuration_has_nothing_set() {
    let config = ProcDumpConfiguration::default();
    assert_eq!(config.process_id, NO_PID);
    assert_eq!(config.process_pgid, NO_PID);
    assert_eq!(config.polling_frequency, u64::MAX);
    assert_eq!(config.number_of_dumps_to_collect, u32::MAX);
    assert_eq!(config.number_of_dumps_collected, 0);
    assert_eq!(config.threshold_seconds, u32::MAX);
    assert_eq!(config.trigger_threshold_cpu, u32::MAX);
    assert_eq!(config.trigger_threshold_mem, u32::MAX);
    assert_eq!(config.trigger_threshold_threads, u32::MAX);
    assert_eq!(config.trigger_threshold_file_descriptors, u32::MAX);
    assert_eq!(config.trigger_signal, u32::MAX);
    assert!(!config.trigger_threshold_timer);
    assert!(!config.is_process_group_set);
    assert!(!config.waiting_process_name);
    assert!(!config.overwrite_existing_dump);
    assert_eq!(config.gcore_process_id, -1);
    assert!(config.process_name.is_empty());
    assert!(config.core_dump_path.is_empty());
    assert!(config.core_dump_name.is_empty());
}

#[test]
fn apply_defaults_fills_what_was_not_given() {
    let mut config = ProcDumpConfiguration::default();
    apply_defaults(&mut config);
    assert_eq!(config.number_of_dumps_to_collect, DEFAULT_NUMBER_OF_DUMPS);
    assert_eq!(config.number_of_dumps_to_collect, 1);
    assert_eq!(config.threshold_seconds, DEFAULT_DELTA_TIME);
    assert_eq!(config.threshold_seconds, 10);
    assert_eq!(config.polling_frequency, DEFAULT_POLLING_INTERVAL);
    assert_eq!(config.polling_frequency, 1000);
    assert_eq!(config.trigger_threshold_mem, u32::MAX);
}

#[test]
fn apply_defaults_keeps_what_was_given() {
    let mut config = ProcDumpConfiguration::default();
    config.number_of_dumps_to_collect = 5;
    config.threshold_seconds = 3;
    config.polling_frequency = 250;
    apply_defaults(&mut config);
    assert_eq!(config.number_of_dumps_to_collect, 5);
    assert_eq!(config.threshold_seconds, 3);
    assert_eq!(config.polling_frequency, 250);
}

#[test]
fn init_reports_success() {
    assert_eq!(init_procdump(), 0);
}

#[test]
fn clone_keeps_every_field() {
    let mut config = ProcDumpConfiguration::default();
    config.process_id = 42;
    config.process_name = String::from("worker");
    config.core_dump_path = String::from("/var/dumps");
    config.trigger_threshold_mem = 100;
    let copy = config.clone();
    assert_eq!(copy.process_id, 42);
    assert_eq!(copy.process_name, "worker");
    assert_eq!(copy.core_dump_path, "/var/dumps");
    assert_eq!(copy.trigger_threshold_mem, 100);
}
