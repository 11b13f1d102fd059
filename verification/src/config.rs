//! Run configuration: workload modes, compression choices, the
//! prepare/run phase selection, and the configuration error taxonomy.

use vstd::prelude::*;

verus! {

/// Which operations a run performs for each task.
#[derive(Clone, Copy, Debug, PartialEq, Eq, Structural)]
pub enum WorkloadMode {
    Writes,
    Reads,
    ReadsAndWrites,
}

/// Wire compression negotiated with the cluster.
#[derive(Clone, Copy, Debug, PartialEq, Eq, Structural)]
pub enum Compression {
    NoCompression,
    Lz4,
    Snappy,
}

/// What a single invocation does: provision the schema, or drive the bench.
#[derive(Clone, Copy, Debug, PartialEq, Eq, Structural)]
pub enum RunPhase {
    Prepare,
    Run,
}

/// A fatal configuration fault: no network traffic may be attempted after one.
#[derive(Clone, Copy, Debug, PartialEq, Eq, Structural)]
pub enum ConfigError {
    /// Exactly one of the prepare / run flags must be set.
    ConflictingPhaseFlags,
    /// The workload name is not one of `write`, `read`, `mixed`.
    UnknownWorkload,
    /// The compression name is not one of `none`, `lz4`, `snappy`.
    UnknownCompression,
    /// A numeric flag did not parse as an unsigned integer.
    InvalidNumber,
}

pub const DEFAULT_CONCURRENCY: u64 = 256;

pub const DEFAULT_TASK_COUNT: u64 = 1000000;

pub const DEFAULT_REPLICATION_FACTOR: u32 = 3;

/// The contact point used when none is given on the command line.
pub fn default_contact_point() -> (r: String)
    ensures
        r@ == "127.0.0.1:9042"@,
{
    "127.0.0.1:9042".to_owned()
}

/// Exactly one of the two phase flags must be set; anything else is a
/// configuration error and no phase is selected.
pub fn select_phase(prepare: bool, run: bool) -> (r: Result<RunPhase, ConfigError>)
    ensures
        r == (if prepare == run {
            Result::<RunPhase, ConfigError>::Err(ConfigError::ConflictingPhaseFlags)
        } else if prepare {
            Result::<RunPhase, ConfigError>::Ok(RunPhase::Prepare)
        } else {
            Result::<RunPhase, ConfigError>::Ok(RunPhase::Run)
        }),
{
    if prepare == run {
        Err(ConfigError::ConflictingPhaseFlags)
    } else if prepare {
        Ok(RunPhase::Prepare)
    } else {
        Ok(RunPhase::Run)
    }
}

/// Maps the workload flag to a mode; an absent flag means `Writes`,
/// an unknown name is a configuration error.
pub fn parse_workload(name: &Option<String>) -> (r: Result<WorkloadMode, ConfigError>)
    ensures
        r == (match name {
            Option::None => Result::<WorkloadMode, ConfigError>::Ok(WorkloadMode::Writes),
            Option::Some(s) => if s@ == "write"@ {
                Result::<WorkloadMode, ConfigError>::Ok(WorkloadMode::Writes)
            } else if s@ == "read"@ {
                Result::<WorkloadMode, ConfigError>::Ok(WorkloadMode::Reads)
            } else if s@ == "mixed"@ {
                Result::<WorkloadMode, ConfigError>::Ok(WorkloadMode::ReadsAndWrites)
            } else {
                Result::<WorkloadMode, ConfigError>::Err(ConfigError::UnknownWorkload)
            },
        }),
{
    match name {
        None => Ok(WorkloadMode::Writes),
        Some(s) => {
            if *s == "write".to_owned() {
                Ok(WorkloadMode::Writes)
            } else if *s == "read".to_owned() {
                Ok(WorkloadMode::Reads)
            } else if *s == "mixed".to_owned() {
                Ok(WorkloadMode::ReadsAndWrites)
            } else {
                Err(ConfigError::UnknownWorkload)
            }
        },
    }
}

/// Maps the compression flag to an algorithm; an absent flag means no
/// compression, an unknown name is a configuration error.
pub fn parse_compression(name: &Option<String>) -> (r: Result<Compression, ConfigError>)
    ensures
        r == (match name {
            Option::None => Result::<Compression, ConfigError>::Ok(Compression::NoCompression),
            Option::Some(s) => if s@ == "none"@ {
                Result::<Compression, ConfigError>::Ok(Compression::NoCompression)
            } else if s@ == "lz4"@ {
                Result::<Compression, ConfigError>::Ok(Compression::Lz4)
            } else if s@ == "snappy"@ {
                Result::<Compression, ConfigError>::Ok(Compression::Snappy)
            } else {
                Result::<Compression, ConfigError>::Err(ConfigError::UnknownCompression)
            },
        }),
{
    match name {
        None => Ok(Compression::NoCompression),
        Some(s) => {
            if *s == "none".to_owned() {
                Ok(Compression::NoCompression)
            } else if *s == "lz4".to_owned() {
                Ok(Compression::Lz4)
            } else if *s == "snappy".to_owned() {
                Ok(Compression::Snappy)
            } else {
                Err(ConfigError::UnknownCompression)
            }
        },
    }
}

/// Whether a mode issues an insert for each task.
pub open spec fn spec_does_writes(mode: WorkloadMode) -> bool {
    mode is Writes || mode is ReadsAndWrites
}

/// Whether a mode issues a point lookup for each task.
pub open spec fn spec_does_reads(mode: WorkloadMode) -> bool {
    mode is Reads || mode is ReadsAndWrites
}

/// Whether a mode issues an insert for each task.
pub fn workload_does_writes(mode: WorkloadMode) -> (r: bool)
    ensures
        r == spec_does_writes(mode),
{
    mode == WorkloadMode::Writes || mode == WorkloadMode::ReadsAndWrites
}

/// Whether a mode issues a point lookup for each task.
pub fn workload_does_reads(mode: WorkloadMode) -> (r: bool)
    ensures
        r == spec_does_reads(mode),
{
    mode == WorkloadMode::Reads || mode == WorkloadMode::ReadsAndWrites
}

/// In `ReadsAndWrites` mode each logical task performs one write and one
/// read of the same key, so the effective task space is half of the
/// requested count; the other modes use the requested count unchanged.
pub fn effective_task_count(mode: WorkloadMode, tasks: u64) -> (r: u64)
    ensures
        mode is ReadsAndWrites ==> r == tasks / 2,
        !(mode is ReadsAndWrites) ==> r == tasks,
{
    if mode == WorkloadMode::ReadsAndWrites {
        tasks / 2
    } else {
        tasks
    }
}

/// A short description of a configuration error, for the user.
pub fn config_error_message(e: ConfigError) -> (r: &'static str)
    ensures
        e is ConflictingPhaseFlags ==> r@ == "please specify exactly one of the following flags: --prepare, --run"@,
        e is UnknownWorkload ==> r@ == "bad workload type"@,
        e is UnknownCompression ==> r@ == "bad compression"@,
        e is InvalidNumber ==> r@ == "bad numeric flag"@,
{
    match e {
        ConfigError::ConflictingPhaseFlags => "please specify exactly one of the following flags: --prepare, --run",
        ConfigError::UnknownWorkload => "bad workload type",
        ConfigError::UnknownCompression => "bad compression",
        ConfigError::InvalidNumber => "bad numeric flag",
    }
}

} // verus!
