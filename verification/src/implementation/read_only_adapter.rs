//! The fault of a read-only file system: the device is mounted and then
//! remounted read-only.

use vstd::prelude::*;

use crate::command::{
    checked_output, drive, effects_view, exit_ok, no_effects, push_effect, run_cmd, sudo, CommandSpec,
    CommandView, Effect, EffectView, Next, NextView, Outcome, OutcomeView, Procedure,
};
use crate::domain::results::{lemma_fio_args, fio_args, fio_command, reading_view, FioReading};
use crate::domain::traits::StorageAdapter;
use crate::implementation::mount::{
    mount, mount_effect, read_fio_tolerant, remount_ro, remount_ro_effect, remount_rw,
    remount_rw_effect, tolerant_reading, umount, umount_effect,
};
use crate::text::{decimal, decimal_value, lossy_text, utf8_lossy};

verus! {

/// Makes the file system on `device`, mounted at `mount_point`, read-only.
#[derive(Debug, Clone, PartialEq, Eq)]
pub struct ReadOnlyAdapter {
    device: String,
    mount_point: String,
}

/// The contents of a [`ReadOnlyAdapter`].
pub struct ReadOnlyView {
    pub device: Seq<char>,
    pub mount_point: Seq<char>,
}

impl View for ReadOnlyAdapter {
    type V = ReadOnlyView;

    closed spec fn view(&self) -> ReadOnlyView {
        ReadOnlyView { device: self.device@, mount_point: self.mount_point@ }
    }
}

/// The mount point of the read-only fault under a home directory.
pub open spec fn read_only_mount_point(home: Seq<char>) -> Seq<char> {
    home + "/block_chaos_ro"@
}

impl ReadOnlyView {
    /// The fio command that measures writes into the directory `path`.
    pub open spec fn fio(self, path: Seq<char>, runtime_sec: nat) -> CommandView {
        sudo(fio_args("--directory="@ + path, "--rw=write"@, runtime_sec))
    }

    /// The effects of cleaning up before the control run.
    pub open spec fn clean_effects(self) -> Seq<EffectView> {
        seq![
            remount_rw(self.mount_point),
            umount(self.mount_point),
            EffectView::RemoveDirAll(self.mount_point),
        ]
    }

    /// The effects of removing the fault.
    pub open spec fn remove_effects(self) -> Seq<EffectView> {
        seq![remount_rw(self.mount_point), umount(self.mount_point)]
    }

    /// The first move of applying the fault.
    pub open spec fn apply_first(self) -> NextView {
        NextView::Continue(1, EffectView::CreateDirAll(self.mount_point))
    }

    /// The move of applying the fault that follows `stage` with outcome `o`:
    /// the mount point is created, the device is mounted there, and the
    /// file system is remounted read-only. Each must succeed; a remount
    /// that ran and failed is followed by unmounting.
    pub open spec fn apply_next(self, stage: nat, o: OutcomeView) -> NextView {
        if stage <= 1 {
            match o {
                OutcomeView::Error(e) => NextView::Finish { cleanup: Seq::empty(), result: Err(e) },
                _ => NextView::Continue(2, mount(self.device, self.mount_point)),
            }
        } else if stage == 2 {
            match checked_output(o) {
                Ok(_) => NextView::Continue(3, remount_ro(self.mount_point)),
                Err(e) => NextView::Finish { cleanup: Seq::empty(), result: Err(e) },
            }
        } else {
            match o {
                OutcomeView::Error(e) => NextView::Finish { cleanup: Seq::empty(), result: Err(e) },
                OutcomeView::Exit { success: false, stdout, stderr } => NextView::Finish {
                    cleanup: seq![umount(self.mount_point)],
                    result: Err(utf8_lossy(stderr)),
                },
                _ => NextView::Finish { cleanup: Seq::empty(), result: Ok(()) },
            }
        }
    }
}

/// Applying the fault, when each step succeeds, creates the mount point,
/// mounts the device, remounts it read-only, and succeeds with the mount
/// left in place.
pub proof fn lemma_read_only_apply_succeeds(a: ReadOnlyView, mount_out: Seq<u8>, remount_out: Seq<u8>)
    ensures
        drive(
            |stage: nat, o: OutcomeView| a.apply_next(stage, o),
            a.apply_first(),
            seq![OutcomeView::Done, exit_ok(mount_out), exit_ok(remount_out)],
        ) == (
            seq![
                EffectView::CreateDirAll(a.mount_point),
                mount(a.device, a.mount_point),
                remount_ro(a.mount_point),
            ],
            Some((Seq::<EffectView>::empty(), Ok::<(), Seq<char>>(()))),
        ),
{
    let outs = seq![OutcomeView::Done, exit_ok(mount_out), exit_ok(remount_out)];
    reveal_with_fuel(drive, 5);
    assert(drive(|stage: nat, o: OutcomeView| a.apply_next(stage, o), a.apply_first(), outs).0
        =~= seq![
        EffectView::CreateDirAll(a.mount_point),
        mount(a.device, a.mount_point),
        remount_ro(a.mount_point),
    ]);
}

/// A read-only remount that runs and fails leaves the file system
/// unmounted and ends with its standard error; every other failure ends
/// with its error and nothing to clean up.
pub proof fn lemma_read_only_failure(a: ReadOnlyView, stage: nat, o: OutcomeView)
    ensures
        a.apply_next(stage, o) matches NextView::Finish { cleanup, result: Err(x) } ==> (if stage
            >= 3 && o is Exit {
            cleanup == seq![umount(a.mount_point)] && x == utf8_lossy(o->stderr)
        } else {
            cleanup.len() == 0
        }),
{
}

/// The read-only fault is measured by sequential 4 KiB writes into the
/// given directory, for exactly the given runtime.
pub proof fn lemma_read_only_fio(a: ReadOnlyView, path: Seq<char>, runtime_sec: nat)
    ensures
        a.fio(path, runtime_sec) == (CommandView {
            program: "sudo"@,
            args: seq![
                "fio"@,
                "--output-format=json"@,
                "--name=job"@,
                "--directory="@ + path,
                "--rw=write"@,
                "--bs=4k"@,
                "--size=512M"@,
                "--numjobs=1"@,
                "--time_based"@,
                "--runtime="@ + decimal(runtime_sec),
            ],
        }),
        a.fio(path, runtime_sec).args.last().subrange(0, 10) == "--runtime="@,
        decimal_value(a.fio(path, runtime_sec).args.last().skip(10)) == runtime_sec,
{
    lemma_fio_args("--directory="@ + path, "--rw=write"@, runtime_sec);
}

impl ReadOnlyAdapter {
    /// The adapter for `device`, with its mount point under the home
    /// directory `home`.
    pub fn new(device: String, home: &str) -> (a: Self)
        ensures
            a@ == (ReadOnlyView { device: device@, mount_point: read_only_mount_point(home@) }),
    {
        let mut mount_point = String::from_str(home);
        mount_point.append("/block_chaos_ro");
        Self { device, mount_point }
    }

    /// Removes what an earlier run may have left behind: the file system is
    /// remounted read-write and unmounted, and the mount point is removed.
    /// None of these may fail the step.
    pub fn clean(&self) -> (n: Next)
        ensures
            n@ == (NextView::Finish { cleanup: self@.clean_effects(), result: Ok(()) }),
    {
        let mut c: Vec<Effect> = Vec::new();
        push_effect(&mut c, remount_rw_effect(self.mount_point.as_str()));
        push_effect(&mut c, umount_effect(self.mount_point.as_str()));
        push_effect(&mut c, Effect::RemoveDirAll(self.mount_point.clone()));
        proof {
            assert(effects_view(c@) =~= self@.clean_effects());
        }
        Next::Finish { cleanup: c, result: Ok(()) }
    }

    /// Starts applying the fault.
    pub fn apply_start(&self) -> (n: Next)
        ensures
            n@ == self@.apply_first(),
    {
        Next::Continue(Procedure { stage: 1 }, Effect::CreateDirAll(self.mount_point.clone()))
    }

    /// Continues applying the fault after the outcome `o` of the effect that
    /// `p` was returned with.
    pub fn apply_resume(&self, p: Procedure, o: Outcome) -> (n: Next)
        ensures
            n@ == self@.apply_next(p.stage as nat, o@),
    {
        if p.stage <= 1 {
            match o {
                Outcome::Error(e) => Next::Finish { cleanup: no_effects(), result: Err(e) },
                _ => Next::Continue(
                    Procedure { stage: 2 },
                    mount_effect(self.device.as_str(), self.mount_point.as_str()),
                ),
            }
        } else if p.stage == 2 {
            match run_cmd(&o) {
                Ok(_) => Next::Continue(
                    Procedure { stage: 3 },
                    remount_ro_effect(self.mount_point.as_str()),
                ),
                Err(e) => Next::Finish { cleanup: no_effects(), result: Err(e) },
            }
        } else {
            match o {
                Outcome::Error(e) => Next::Finish { cleanup: no_effects(), result: Err(e) },
                Outcome::Exit { success: false, stdout, stderr } => {
                    let mut c: Vec<Effect> = Vec::new();
                    push_effect(&mut c, umount_effect(self.mount_point.as_str()));
                    proof {
                        assert(effects_view(c@) =~= seq![umount(self@.mount_point)]);
                    }
                    Next::Finish { cleanup: c, result: Err(lossy_text(stderr.as_slice())) }
                },
                _ => Next::Finish { cleanup: no_effects(), result: Ok(()) },
            }
        }
    }

    /// Removes the fault: the file system is remounted read-write and
    /// unmounted. Neither may fail the step.
    pub fn remove(&self) -> (n: Next)
        ensures
            n@ == (NextView::Finish { cleanup: self@.remove_effects(), result: Ok(()) }),
    {
        let mut c: Vec<Effect> = Vec::new();
        push_effect(&mut c, remount_rw_effect(self.mount_point.as_str()));
        push_effect(&mut c, umount_effect(self.mount_point.as_str()));
        proof {
            assert(effects_view(c@) =~= self@.remove_effects());
        }
        Next::Finish { cleanup: c, result: Ok(()) }
    }

    /// The fio command that measures writes into the directory `directory`
    /// for `runtime_sec` seconds.
    pub fn run_fio(&self, directory: &str, runtime_sec: u64) -> (c: CommandSpec)
        ensures
            c@ == self@.fio(directory@, runtime_sec as nat),
    {
        let mut target = String::from_str("--directory=");
        target.append(directory);
        fio_command(target.as_str(), "--rw=write", runtime_sec)
    }

    /// What to make of the fio run's outcome: see [`tolerant_reading`].
    pub fn read_fio(o: &Outcome) -> (r: Result<FioReading, String>)
        ensures
            reading_view(r) == tolerant_reading(o@),
    {
        read_fio_tolerant(o)
    }
}

impl StorageAdapter for ReadOnlyAdapter {
    open spec fn chaos_path(&self) -> Seq<char> {
        self@.mount_point
    }

    open spec fn apply_message(&self) -> Seq<char> {
        "Applying read-only remount..."@
    }

    open spec fn remove_message(&self) -> Seq<char> {
        "Removing read-only remount..."@
    }

    fn chaos_device_path(&self) -> (p: String) {
        self.mount_point.clone()
    }

    fn apply_label(&self) -> (l: &'static str) {
        "Applying read-only remount..."
    }

    fn remove_label(&self) -> (l: &'static str) {
        "Removing read-only remount..."
    }
}

} // verus!
