use block_chaos::command::{CommandSpec, Effect, Next, Outcome, Procedure};
use block_chaos::domain::results::{first_job, FioReading};
use block_chaos::domain::traits::StorageAdapter;
use block_chaos::implementation::dm_delay_adapter::DmDelayAdapter;
use block_chaos::implementation::full_disk_adapter::{FullDiskAdapter, MountRollBack};
use block_chaos::implementation::read_only_adapter::ReadOnlyAdapter;

fn sudo(args: &[&str]) -> Effect {
    Effect::Command(CommandSpec {
        program: "sudo".to_string(),
        args: args.iter().map(|a| a.to_string()).collect(),
    })
}

fn ok(out: &[u8]) -> Outcome {
    Outcome::Exit { success: true, stdout: out.to_vec(), stderr: vec![] }
}

fn failed(err: &[u8]) -> Outcome {
    Outcome::Exit { success: false, stdout: vec![], stderr: err.to_vec() }
}

fn cont(n: Next) -> (Procedure, Effect) {
    match n {
        Next::Continue(p, e) => (p, e),
        other => panic!("expected a further effect, got {:?}", other),
    }
}

fn delay() -> DmDelayAdapter {
    DmDelayAdapter::new("/dev/sdb".to_string(), "slow".to_string(), 100)
}

#[test]
fn delay_table_uses_trimmed_size_device_and_delay() {
    assert_eq!(delay().table("2097152\n"), "0 2097152 delay /dev/sdb 0 100");
    let zero = DmDelayAdapter::new("/dev/vdc".to_string(), "d".to_string(), 0);
    assert_eq!(zero.table(" 8 "), "0 8 delay /dev/vdc 0 0");
}

#[test]
fn delay_paths_and_labels() {
    let a = delay();
    assert_eq!(a.chaos_device_path(), "/dev/mapper/slow");
    assert_eq!(a.apply_label(), "Applying delay...");
    assert_eq!(a.remove_label(), "Removing delay...");
}

#[test]
fn delay_clean_and_remove_commands() {
    let a = delay();
    assert_eq!(
        a.clean(),
        Next::Finish {
            cleanup: vec![
                sudo(&["dmsetup", "remove", "-f", "slow"]),
                sudo(&["dmsetup", "remove", "--retry", "-f", "slow"]),
                sudo(&["udevamd", "settle"]),
            ],
            result: Ok(()),
        }
    );
    assert_eq!(
        a.remove(),
        Next::Finish {
            cleanup: vec![
                sudo(&["dmsetup", "remove", "-f", "slow"]),
                sudo(&["dmsetup", "remove", "--retry", "-f", "slow"]),
                sudo(&["udevadm", "settle"]),
            ],
            result: Ok(()),
        }
    );
}

#[test]
fn delay_apply_succeeds() {
    let a = delay();
    let (p, e) = cont(a.apply_start());
    assert_eq!(e, sudo(&["dmsetup", "remove", "-f", "slow"]));
    let (p, e) = cont(a.apply_resume(p, failed(b"No such device")));
    assert_eq!(e, sudo(&["dmsetup", "remove", "--retry", "-f", "slow"]));
    let (p, e) = cont(a.apply_resume(p, Outcome::Error("spawn".to_string())));
    assert_eq!(e, sudo(&["udevamd", "settle"]));
    let (p, e) = cont(a.apply_resume(p, failed(b"")));
    assert_eq!(e, sudo(&["blockdev", "--getsz", "/dev/sdb"]));
    let (p, e) = cont(a.apply_resume(p, ok(b"2097152\n")));
    assert_eq!(
        e,
        sudo(&["dmsetup", "create", "slow", "--table", "0 2097152 delay /dev/sdb 0 100"])
    );
    let (p, e) = cont(a.apply_resume(p, ok(b"")));
    assert_eq!(e, sudo(&["udevadm", "settle"]));
    assert_eq!(a.apply_resume(p, failed(b"x")), Next::Finish { cleanup: vec![], result: Ok(()) });
}

#[test]
fn delay_apply_fails_on_size_query() {
    let a = delay();
    let (p, _) = cont(a.apply_start());
    let (p, _) = cont(a.apply_resume(p, ok(b"")));
    let (p, _) = cont(a.apply_resume(p, ok(b"")));
    let (p, _) = cont(a.apply_resume(p, ok(b"")));
    assert_eq!(
        a.apply_resume(p, failed(b"blockdev: cannot open /dev/sdb")),
        Next::Finish { cleanup: vec![], result: Err("blockdev: cannot open /dev/sdb".to_string()) }
    );
}

#[test]
fn delay_apply_fails_on_create() {
    let a = delay();
    let p = Procedure { stage: 5 };
    assert_eq!(
        a.apply_resume(p.clone(), Outcome::Error("permission denied".to_string())),
        Next::Finish { cleanup: vec![], result: Err("permission denied".to_string()) }
    );
    assert_eq!(
        a.apply_resume(p, failed(b"device-mapper: create ioctl failed")),
        Next::Finish {
            cleanup: vec![],
            result: Err("device-mapper: create ioctl failed".to_string()),
        }
    );
}

#[test]
fn delay_fio_command_and_reading() {
    let a = delay();
    assert_eq!(
        a.run_fio("/dev/mapper/slow", 30),
        CommandSpec {
            program: "sudo".to_string(),
            args: [
                "fio",
                "--output-format=json",
                "--name=job",
                "--filename=/dev/mapper/slow",
                "--rw=randread",
                "--bs=4k",
                "--size=512M",
                "--numjobs=1",
                "--time_based",
                "--runtime=30",
            ]
            .iter()
            .map(|s| s.to_string())
            .collect(),
        }
    );
    assert_eq!(DmDelayAdapter::read_fio(&ok(b"{}")), Ok(FioReading::Text("{}".to_string())));
    assert_eq!(DmDelayAdapter::read_fio(&failed(b"fio: bad")), Err("fio: bad".to_string()));
    assert_eq!(
        DmDelayAdapter::read_fio(&Outcome::Error("not found".to_string())),
        Err("not found".to_string())
    );
}

fn full() -> FullDiskAdapter {
    FullDiskAdapter::new("/dev/sdc".to_string(), "/home/tester")
}

#[test]
fn full_disk_paths_and_labels() {
    let a = full();
    assert_eq!(a.chaos_device_path(), "/home/tester/block_chaos_full");
    assert_eq!(a.apply_label(), "Applying full disk exhaustion...");
    assert_eq!(a.remove_label(), "Removing full disk condition...");
}

#[test]
fn full_disk_clean_and_remove_commands() {
    let a = full();
    let mp = "/home/tester/block_chaos_full";
    assert_eq!(
        a.clean(),
        Next::Finish {
            cleanup: vec![
                sudo(&["mount", "-o", "remount,rw", mp]),
                sudo(&["umount", mp]),
                Effect::RemoveDirAll(mp.to_string()),
            ],
            result: Ok(()),
        }
    );
    assert_eq!(
        a.remove(),
        Next::Finish {
            cleanup: vec![
                sudo(&["rm", "-f", "/home/tester/block_chaos_full/filler.bin"]),
                sudo(&["mount", "-o", "remount,rw", mp]),
                sudo(&["umount", mp]),
            ],
            result: Ok(()),
        }
    );
}

#[test]
fn full_disk_apply_succeeds_whatever_dd_returns() {
    let a = full();
    let mp = "/home/tester/block_chaos_full";
    let (p, e) = cont(a.apply_start());
    assert_eq!(e, Effect::CreateDirAll(mp.to_string()));
    let (p, e) = cont(a.apply_resume(p, Outcome::Done));
    assert_eq!(e, sudo(&["mount", "/dev/sdc", mp]));
    let (p, e) = cont(a.apply_resume(p, ok(b"")));
    assert_eq!(
        e,
        sudo(&["dd", "if=/dev/zero", "of=/home/tester/block_chaos_full/filler.bin", "bs=1M"])
    );
    assert_eq!(
        a.apply_resume(p, failed(b"dd: error writing: No space left on device")),
        Next::Finish { cleanup: vec![], result: Ok(()) }
    );
}

#[test]
fn full_disk_apply_rolls_back_a_failed_mount() {
    let a = full();
    let mp = "/home/tester/block_chaos_full";
    let rollback = vec![sudo(&["mount", "-o", "remount,rw", mp]), sudo(&["umount", mp])];
    assert_eq!(
        a.apply_resume(Procedure { stage: 2 }, failed(b"mount: wrong fs type")),
        Next::Finish { cleanup: rollback.clone(), result: Err("mount: wrong fs type".to_string()) }
    );
    assert_eq!(
        a.apply_resume(Procedure { stage: 3 }, Outcome::Error("dd missing".to_string())),
        Next::Finish { cleanup: rollback, result: Err("dd missing".to_string()) }
    );
    assert_eq!(
        a.apply_resume(Procedure { stage: 1 }, Outcome::Error("Permission denied".to_string())),
        Next::Finish { cleanup: vec![], result: Err("Permission denied".to_string()) }
    );
}

#[test]
fn rollback_guard_until_disarmed() {
    let mut g = MountRollBack::new("/mnt/x");
    assert_eq!(
        g.drop_effects(),
        vec![sudo(&["mount", "-o", "remount,rw", "/mnt/x"]), sudo(&["umount", "/mnt/x"])]
    );
    g.disarm();
    assert_eq!(g.drop_effects(), vec![]);
}

#[test]
fn write_fio_reading_tolerates_failed_runs() {
    let a = full();
    assert_eq!(
        a.run_fio("/home/tester/block_chaos_full", 5).args[3],
        "--directory=/home/tester/block_chaos_full"
    );
    assert_eq!(a.run_fio("/d", 5).args[4], "--rw=write");
    assert_eq!(a.run_fio("/d", 5).args[9], "--runtime=5");
    assert_eq!(FullDiskAdapter::read_fio(&failed(b"ENOSPC")), Ok(FioReading::Zero));
    assert_eq!(FullDiskAdapter::read_fio(&ok(b"{}")), Ok(FioReading::Bytes(b"{}".to_vec())));
    assert_eq!(
        FullDiskAdapter::read_fio(&Outcome::Error("no fio".to_string())),
        Err("no fio".to_string())
    );
    assert_eq!(ReadOnlyAdapter::read_fio(&failed(b"EROFS")), Ok(FioReading::Zero));
}

fn ro() -> ReadOnlyAdapter {
    ReadOnlyAdapter::new("/dev/sdd".to_string(), "/root")
}

#[test]
fn read_only_paths_labels_and_commands() {
    let a = ro();
    let mp = "/root/block_chaos_ro";
    assert_eq!(a.chaos_device_path(), mp);
    assert_eq!(a.apply_label(), "Applying read-only remount...");
    assert_eq!(a.remove_label(), "Removing read-only remount...");
    assert_eq!(
        a.remove(),
        Next::Finish {
            cleanup: vec![sudo(&["mount", "-o", "remount,rw", mp]), sudo(&["umount", mp])],
            result: Ok(()),
        }
    );
    assert_eq!(
        a.clean(),
        Next::Finish {
            cleanup: vec![
                sudo(&["mount", "-o", "remount,rw", mp]),
                sudo(&["umount", mp]),
                Effect::RemoveDirAll(mp.to_string()),
            ],
            result: Ok(()),
        }
    );
    assert_eq!(a.run_fio(mp, 60).args[3], "--directory=/root/block_chaos_ro");
}

#[test]
fn read_only_apply_succeeds() {
    let a = ro();
    let mp = "/root/block_chaos_ro";
    let (p, e) = cont(a.apply_start());
    assert_eq!(e, Effect::CreateDirAll(mp.to_string()));
    let (p, e) = cont(a.apply_resume(p, Outcome::Done));
    assert_eq!(e, sudo(&["mount", "/dev/sdd", mp]));
    let (p, e) = cont(a.apply_resume(p, ok(b"")));
    assert_eq!(e, sudo(&["mount", "-o", "remount,ro", mp]));
    assert_eq!(a.apply_resume(p, ok(b"")), Next::Finish { cleanup: vec![], result: Ok(()) });
}

#[test]
fn read_only_failed_remount_unmounts() {
    let a = ro();
    let mp = "/root/block_chaos_ro";
    assert_eq!(
        a.apply_resume(Procedure { stage: 3 }, failed(b"mount: busy")),
        Next::Finish { cleanup: vec![sudo(&["umount", mp])], result: Err("mount: busy".to_string()) }
    );
    assert_eq!(
        a.apply_resume(Procedure { stage: 3 }, Outcome::Error("spawn failed".to_string())),
        Next::Finish { cleanup: vec![], result: Err("spawn failed".to_string()) }
    );
    assert_eq!(
        a.apply_resume(Procedure { stage: 2 }, failed(b"mount: no medium")),
        Next::Finish { cleanup: vec![], result: Err("mount: no medium".to_string()) }
    );
    assert_eq!(
        a.apply_resume(Procedure { stage: 1 }, Outcome::Error("File exists".to_string())),
        Next::Finish { cleanup: vec![], result: Err("File exists".to_string()) }
    );
}

#[test]
fn first_job_or_no_job_error() {
    let jobs = vec![3, 4];
    assert_eq!(first_job(&jobs), Ok(&3));
    let none: Vec<u8> = vec![];
    assert_eq!(first_job(&none), Err("No fio job output".to_string()));
}
