use block_chaos::domain::config::ExperimentConfig;
use block_chaos::domain::experiment::{Experiment, Move, Reply, Request};
use block_chaos::domain::results::ExperimentSummary;
use block_chaos::implementation::dm_delay_adapter::DmDelayAdapter;
use block_chaos::implementation::read_only_adapter::ReadOnlyAdapter;

fn step(m: Move<u32>) -> (Experiment<u32>, Request) {
    match m {
        Move::Continue(e, r) => (e, r),
        Move::Finish(r) => panic!("finished early: {:?}", r),
    }
}

fn ok() -> Reply<u32> {
    Reply::Done(Ok(()))
}

#[test]
fn configs_of_the_three_experiments() {
    let c = ExperimentConfig::for_delay("/dev/sdb".to_string(), "slow".to_string(), 250, 30);
    assert_eq!((c.device.as_str(), c.dm_name.as_str(), c.delay_ms, c.fio.runtime_sec), ("/dev/sdb", "slow", 250, 30));
    let c = ExperimentConfig::for_full_disk("/dev/sdc".to_string(), 10);
    assert_eq!((c.device.as_str(), c.dm_name.as_str(), c.delay_ms, c.fio.runtime_sec), ("/dev/sdc", "full_disk", 0, 10));
    let c = ExperimentConfig::for_read_only("/dev/sdd".to_string(), 20);
    assert_eq!((c.device.as_str(), c.dm_name.as_str(), c.delay_ms, c.fio.runtime_sec), ("/dev/sdd", "readonly", 0, 20));
}

#[test]
fn successful_experiment_runs_every_step_in_order() {
    let cfg = ExperimentConfig::for_delay("/dev/sdb".to_string(), "slow".to_string(), 100, 30);
    let a = DmDelayAdapter::new("/dev/sdb".to_string(), "slow".to_string(), 100);
    let (e, r) = step(Experiment::start(&cfg));
    assert_eq!(r, Request::Say("Running control..."));
    let (e, r) = step(e.resume(&a, ok()));
    assert_eq!(r, Request::Clean);
    let (e, r) = step(e.resume(&a, ok()));
    assert_eq!(r, Request::Measure { device_path: "/dev/sdb".to_string(), runtime_sec: 30 });
    let (e, r) = step(e.resume(&a, Reply::Measured(Ok(1000))));
    assert_eq!(r, Request::Say("Applying delay..."));
    let (e, r) = step(e.resume(&a, ok()));
    assert_eq!(r, Request::Apply);
    let (e, r) = step(e.resume(&a, ok()));
    assert_eq!(r, Request::Say("Running chaos..."));
    let (e, r) = step(e.resume(&a, ok()));
    assert_eq!(r, Request::Measure { device_path: "/dev/mapper/slow".to_string(), runtime_sec: 30 });
    let (e, r) = step(e.resume(&a, Reply::Measured(Ok(40))));
    assert_eq!(r, Request::Say("Removing delay..."));
    let (e, r) = step(e.resume(&a, ok()));
    assert_eq!(r, Request::Remove);
    assert_eq!(e.resume(&a, ok()), Move::Finish(Ok(ExperimentSummary { control: 1000, chaos: 40 })));
}

#[test]
fn failed_clean_ends_the_experiment() {
    let cfg = ExperimentConfig::for_read_only("/dev/sdd".to_string(), 5);
    let a = ReadOnlyAdapter::new("/dev/sdd".to_string(), "/home/u");
    let (e, _) = step(Experiment::<u32>::start(&cfg));
    let (e, _) = step(e.resume(&a, ok()));
    assert_eq!(e.resume(&a, Reply::Done(Err("busy".to_string()))), Move::Finish(Err("busy".to_string())));
}

#[test]
fn failed_chaos_measurement_ends_without_removal() {
    let cfg = ExperimentConfig::for_read_only("/dev/sdd".to_string(), 5);
    let a = ReadOnlyAdapter::new("/dev/sdd".to_string(), "/home/u");
    let (e, _) = step(Experiment::<u32>::start(&cfg));
    let (e, _) = step(e.resume(&a, ok()));
    let (e, _) = step(e.resume(&a, ok()));
    let (e, _) = step(e.resume(&a, Reply::Measured(Ok(7))));
    let (e, _) = step(e.resume(&a, ok()));
    let (e, _) = step(e.resume(&a, ok()));
    let (e, r) = step(e.resume(&a, ok()));
    assert_eq!(r, Request::Measure { device_path: "/home/u/block_chaos_ro".to_string(), runtime_sec: 5 });
    assert_eq!(
        e.resume(&a, Reply::Measured(Err("invalid JSON".to_string()))),
        Move::Finish(Err("invalid JSON".to_string()))
    );
}

#[test]
fn failed_apply_and_remove_end_with_their_error() {
    let cfg = ExperimentConfig::for_full_disk("/dev/sdc".to_string(), 5);
    let a = ReadOnlyAdapter::new("/dev/sdc".to_string(), "/h");
    let (e, _) = step(Experiment::<u32>::start(&cfg));
    let (e, _) = step(e.resume(&a, ok()));
    let (e, _) = step(e.resume(&a, ok()));
    let (e, _) = step(e.resume(&a, Reply::Measured(Ok(7))));
    let (e, r) = step(e.resume(&a, ok()));
    assert_eq!(r, Request::Apply);
    let applying = e.clone();
    assert_eq!(e.resume(&a, Reply::Done(Err("mount failed".to_string()))), Move::Finish(Err("mount failed".to_string())));
    let (e, _) = step(applying.resume(&a, ok()));
    let (e, _) = step(e.resume(&a, ok()));
    let (e, _) = step(e.resume(&a, Reply::Measured(Ok(0))));
    let (e, r) = step(e.resume(&a, ok()));
    assert_eq!(r, Request::Remove);
    assert_eq!(e.resume(&a, Reply::Done(Err("umount".to_string()))), Move::Finish(Err("umount".to_string())));
}

#[test]
fn reply_of_the_wrong_kind_repeats_the_request() {
    let cfg = ExperimentConfig::for_full_disk("/dev/sdc".to_string(), 5);
    let a = ReadOnlyAdapter::new("/dev/sdc".to_string(), "/h");
    let (e, _) = step(Experiment::<u32>::start(&cfg));
    let (e, r) = step(e.resume(&a, ok()));
    assert_eq!(r, Request::Clean);
    let (e, r) = step(e.resume(&a, Reply::Measured(Ok(3))));
    assert_eq!(r, Request::Clean);
    let (e, r) = step(e.resume(&a, ok()));
    assert_eq!(r, Request::Measure { device_path: "/dev/sdc".to_string(), runtime_sec: 5 });
    let (_, r) = step(e.resume(&a, ok()));
    assert_eq!(r, Request::Measure { device_path: "/dev/sdc".to_string(), runtime_sec: 5 });
}
