//! The parameters of an experiment.

use vstd::prelude::*;

verus! {

/// What an experiment runs on and how long each measurement lasts.
#[derive(Debug, Clone, PartialEq, Eq)]
pub struct ExperimentConfig {
    pub device: String,
    pub dm_name: String,
    pub delay_ms: u64,
    pub fio: FioConfig,
}

/// The parameters of each fio measurement.
#[derive(Debug, Clone, PartialEq, Eq)]
pub struct FioConfig {
    pub runtime_sec: u64,
}

impl ExperimentConfig {
    /// The configuration of a latency experiment: the device-mapper target
    /// `dm_name` delays every request to `device` by `delay_ms`.
    pub fn for_delay(device: String, dm_name: String, delay_ms: u64, runtime_sec: u64) -> (c: Self)
        ensures
            c.device@ == device@,
            c.dm_name@ == dm_name@,
            c.delay_ms == delay_ms,
            c.fio.runtime_sec == runtime_sec,
    {
        ExperimentConfig { device, dm_name, delay_ms, fio: FioConfig { runtime_sec } }
    }

    /// The configuration of a full-disk experiment on `device`.
    pub fn for_full_disk(device: String, runtime_sec: u64) -> (c: Self)
        ensures
            c.device@ == device@,
            c.dm_name@ == "full_disk"@,
            c.delay_ms == 0,
            c.fio.runtime_sec == runtime_sec,
    {
        ExperimentConfig {
            device,
            dm_name: String::from_str("full_disk"),
            delay_ms: 0,
            fio: FioConfig { runtime_sec },
        }
    }

    /// The configuration of a read-only experiment on `device`.
    pub fn for_read_only(device: String, runtime_sec: u64) -> (c: Self)
        ensures
            c.device@ == device@,
            c.dm_name@ == "readonly"@,
            c.delay_ms == 0,
            c.fio.runtime_sec == runtime_sec,
    {
        ExperimentConfig {
            device,
            dm_name: String::from_str("readonly"),
            delay_ms: 0,
            fio: FioConfig { runtime_sec },
        }
    }
}

} // verus!
