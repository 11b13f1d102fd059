use cdrs_bench::config::{
    config_error_message, default_contact_point, effective_task_count, parse_compression,
    parse_workload, select_phase, workload_does_reads, workload_does_writes, Compression,
    ConfigError, RunPhase, WorkloadMode, DEFAULT_CONCURRENCY, DEFAULT_REPLICATION_FACTOR,
    DEFAULT_TASK_COUNT,
};

#[test]
fn workload_names_map_to_modes() {
    assert_eq!(
        parse_workload(&Some("write".to_string())),
        Ok(WorkloadMode::Writes)
    );
    assert_eq!(
        parse_workload(&Some("read".to_string())),
        Ok(WorkloadMode::Reads)
    );
    assert_eq!(
        parse_workload(&Some("mixed".to_string())),
        Ok(WorkloadMode::ReadsAndWrites)
    );
}

#[test]
fn absent_workload_defaults_to_writes() {
    assert_eq!(parse_workload(&None), Ok(WorkloadMode::Writes));
}

#[test]
fn unknown_workload_is_a_config_error() {
    assert_eq!(
        parse_workload(&Some("scan".to_string())),
        Err(ConfigError::UnknownWorkload)
    );
}

#[test]
fn compression_names_map_to_algorithms() {
    assert_eq!(
        parse_compression(&Some("none".to_string())),
        Ok(Compression::NoCompression)
    );
    assert_eq!(
        parse_compression(&Some("lz4".to_string())),
        Ok(Compression::Lz4)
    );
    assert_eq!(
        parse_compression(&Some("snappy".to_string())),
        Ok(Compression::Snappy)
    );
    assert_eq!(parse_compression(&None), Ok(Compression::NoCompression));
}

#[test]
fn unknown_compression_is_a_config_error() {
    assert_eq!(
        parse_compression(&Some("zstd".to_string())),
        Err(ConfigError::UnknownCompression)
    );
}

#[test]
fn exactly_one_phase_flag_must_be_set() {
    assert_eq!(select_phase(true, false), Ok(RunPhase::Prepare));
    assert_eq!(select_phase(false, true), Ok(RunPhase::Run));
    assert_eq!(
        select_phase(false, false),
        Err(ConfigError::ConflictingPhaseFlags)
    );
    assert_eq!(
        select_phase(true, true),
        Err(ConfigError::ConflictingPhaseFlags)
    );
}

#[test]
fn mixed_mode_halves_the_task_space() {
    assert_eq!(effective_task_count(WorkloadMode::ReadsAndWrites, 100), 50);
    assert_eq!(effective_task_count(WorkloadMode::Writes, 100), 100);
    assert_eq!(effective_task_count(WorkloadMode::Reads, 100), 100);
    assert_eq!(effective_task_count(WorkloadMode::ReadsAndWrites, 101), 50);
    assert_eq!(effective_task_count(WorkloadMode::ReadsAndWrites, 0), 0);
}

#[test]
fn mode_operation_sets() {
    assert!(workload_does_writes(WorkloadMode::Writes));
    assert!(!workload_does_writes(WorkloadMode::Reads));
    assert!(workload_does_writes(WorkloadMode::ReadsAndWrites));
    assert!(!workload_does_reads(WorkloadMode::Writes));
    assert!(workload_does_reads(WorkloadMode::Reads));
    assert!(workload_does_reads(WorkloadMode::ReadsAndWrites));
}

#[test]
fn defaults_match_the_cli_surface() {
    assert_eq!(DEFAULT_CONCURRENCY, 256);
    assert_eq!(DEFAULT_TASK_COUNT, 1_000_000);
    assert_eq!(DEFAULT_REPLICATION_FACTOR, 3);
    assert_eq!(default_contact_point(), "127.0.0.1:9042");
}

#[test]
fn error_messages_name_the_fault() {
    assert_eq!(
        config_error_message(ConfigError::ConflictingPhaseFlags),
        "please specify exactly one of the following flags: --prepare, --run"
    );
    assert_eq!(
        config_error_message(ConfigError::UnknownWorkload),
        "bad workload type"
    );
    assert_eq!(
        config_error_message(ConfigError::UnknownCompression),
        "bad compression"
    );
    assert_eq!(
        config_error_message(ConfigError::InvalidNumber),
        "bad numeric flag"
    );
}
