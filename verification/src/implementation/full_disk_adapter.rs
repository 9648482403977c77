//! The fault of a full disk: the device is mounted and filled with zeros
//! until no space is left.

use vstd::prelude::*;

use crate::command::{
    checked_output, drive, effects_view, exit_ok, no_effects, push_arg, push_effect, run_cmd, sudo, sudo_effect,
    sudo_run, CommandSpec, CommandView, Effect, EffectView, Next, NextView, Outcome, OutcomeView,
    Procedure,
};
use crate::domain::results::{lemma_fio_args, fio_args, fio_command, reading_view, FioReading};
use crate::domain::traits::StorageAdapter;
use crate::text::{decimal, decimal_value};
use crate::implementation::mount::{
    mount, mount_effect, read_fio_tolerant, remount_rw, remount_rw_effect, tolerant_reading,
    umount, umount_effect,
};

verus! {

/// Fills the file system on `device`, mounted at `mount_point`.
#[derive(Debug, Clone, PartialEq, Eq)]
pub struct FullDiskAdapter {
    device: String,
    mount_point: String,
}

/// The contents of a [`FullDiskAdapter`].
pub struct FullDiskView {
    pub device: Seq<char>,
    pub mount_point: Seq<char>,
}

impl View for FullDiskAdapter {
    type V = FullDiskView;

    closed spec fn view(&self) -> FullDiskView {
        FullDiskView { device: self.device@, mount_point: self.mount_point@ }
    }
}

/// The mount point of the full-disk fault under a home directory.
pub open spec fn full_disk_mount_point(home: Seq<char>) -> Seq<char> {
    home + "/block_chaos_full"@
}

/// Undoes a mount unless disarmed: while armed, dropping it remounts the
/// file system read-write and unmounts it.
#[derive(Debug)]
pub struct MountRollBack<'a> {
    mount_point: &'a str,
    active: bool,
}

/// The contents of a [`MountRollBack`].
pub struct MountRollBackView {
    pub mount_point: Seq<char>,
    pub active: bool,
}

impl<'a> View for MountRollBack<'a> {
    type V = MountRollBackView;

    closed spec fn view(&self) -> MountRollBackView {
        MountRollBackView { mount_point: self.mount_point@, active: self.active }
    }
}

/// The effects of undoing a mount at `mount_point`.
pub open spec fn rollback_effects(mount_point: Seq<char>) -> Seq<EffectView> {
    seq![remount_rw(mount_point), umount(mount_point)]
}

impl MountRollBackView {
    /// The effects that dropping the guard carries out.
    pub open spec fn drop_effects(self) -> Seq<EffectView> {
        if self.active {
            rollback_effects(self.mount_point)
        } else {
            Seq::empty()
        }
    }
}

impl<'a> MountRollBack<'a> {
    /// An armed guard for the mount at `mount_point`.
    pub fn new(mount_point: &'a str) -> (r: Self)
        ensures
            r@ == (MountRollBackView { mount_point: mount_point@, active: true }),
    {
        Self { mount_point, active: true }
    }

    /// Disarms the guard: the mount is to stay.
    pub fn disarm(&mut self)
        ensures
            final(self)@ == (MountRollBackView { mount_point: old(self)@.mount_point, active: false }),
    {
        self.active = false;
    }

    /// The effects that dropping the guard carries out: none once disarmed.
    pub fn drop_effects(&self) -> (v: Vec<Effect>)
        ensures
            effects_view(v@) == self@.drop_effects(),
    {
        if !self.active {
            return no_effects();
        }
        let mut v: Vec<Effect> = Vec::new();
        push_effect(&mut v, remount_rw_effect(self.mount_point));
        push_effect(&mut v, umount_effect(self.mount_point));
        proof {
            assert(effects_view(v@) =~= rollback_effects(self@.mount_point));
        }
        v
    }
}

impl FullDiskView {
    /// The file that fills the disk.
    pub open spec fn filler_path(self) -> Seq<char> {
        self.mount_point + "/filler.bin"@
    }

    /// `dd if=/dev/zero of=FILLER bs=1M`: writes zeros until the disk is full.
    pub open spec fn fill(self) -> EffectView {
        sudo_effect(seq!["dd"@, "if=/dev/zero"@, "of="@ + self.filler_path(), "bs=1M"@])
    }

    /// `rm -f FILLER`
    pub open spec fn remove_filler(self) -> EffectView {
        sudo_effect(seq!["rm"@, "-f"@, self.filler_path()])
    }

    /// The fio command that measures writes into the directory `path`.
    pub open spec fn fio(self, path: Seq<char>, runtime_sec: nat) -> CommandView {
        sudo(fio_args("--directory="@ + path, "--rw=write"@, runtime_sec))
    }

    /// The effects of cleaning up before the control run.
    pub open spec fn clean_effects(self) -> Seq<EffectView> {
        seq![
            remount_rw(self.mount_point),
            umount(self.mount_point),
            EffectView::RemoveDirAll(self.mount_point),
        ]
    }

    /// The effects of removing the fault.
    pub open spec fn remove_effects(self) -> Seq<EffectView> {
        seq![self.remove_filler(), remount_rw(self.mount_point), umount(self.mount_point)]
    }

    /// The first move of applying the fault.
    pub open spec fn apply_first(self) -> NextView {
        NextView::Continue(1, EffectView::CreateDirAll(self.mount_point))
    }

    /// The move of applying the fault that follows `stage` with outcome `o`:
    /// the mount point is created, the device is mounted there, and the
    /// disk is filled. A failure to create the mount point ends with its
    /// error; once the mount has been tried, a failure to mount or to start
    /// filling ends with its error after the mount is undone. How filling
    /// ends does not matter: it ends when the disk is full.
    pub open spec fn apply_next(self, stage: nat, o: OutcomeView) -> NextView {
        if stage <= 1 {
            match o {
                OutcomeView::Error(e) => NextView::Finish { cleanup: Seq::empty(), result: Err(e) },
                _ => NextView::Continue(2, mount(self.device, self.mount_point)),
            }
        } else if stage == 2 {
            match checked_output(o) {
                Ok(_) => NextView::Continue(3, self.fill()),
                Err(e) => NextView::Finish {
                    cleanup: rollback_effects(self.mount_point),
                    result: Err(e),
                },
            }
        } else {
            match o {
                OutcomeView::Error(e) => NextView::Finish {
                    cleanup: rollback_effects(self.mount_point),
                    result: Err(e),
                },
                _ => NextView::Finish { cleanup: Seq::empty(), result: Ok(()) },
            }
        }
    }
}

/// A rollback guard undoes its mount while armed, and does nothing once
/// disarmed.
pub proof fn lemma_rollback_guard(mount_point: Seq<char>)
    ensures
        (MountRollBackView { mount_point, active: true }).drop_effects() == seq![
            remount_rw(mount_point),
            umount(mount_point),
        ],
        (MountRollBackView { mount_point, active: false }).drop_effects() == Seq::<
            EffectView,
        >::empty(),
{
}

/// Applying the fault, when the mount point is created and the mount
/// succeeds, creates the mount point, mounts the device, fills the disk
/// however filling ends, and succeeds with the mount left in place.
pub proof fn lemma_full_disk_apply_succeeds(a: FullDiskView, mount_out: Seq<u8>, fill: OutcomeView)
    requires
        !(fill is Error),
    ensures
        drive(
            |stage: nat, o: OutcomeView| a.apply_next(stage, o),
            a.apply_first(),
            seq![OutcomeView::Done, exit_ok(mount_out), fill],
        ) == (
            seq![
                EffectView::CreateDirAll(a.mount_point),
                mount(a.device, a.mount_point),
                a.fill(),
            ],
            Some((Seq::<EffectView>::empty(), Ok::<(), Seq<char>>(()))),
        ),
{
    let outs = seq![OutcomeView::Done, exit_ok(mount_out), fill];
    reveal_with_fuel(drive, 5);
    assert(drive(|stage: nat, o: OutcomeView| a.apply_next(stage, o), a.apply_first(), outs).0
        =~= seq![EffectView::CreateDirAll(a.mount_point), mount(a.device, a.mount_point), a.fill()]);
}

/// Once the mount has been tried, applying the fault never ends in an error
/// without undoing the mount: every failure from then on comes with the
/// rollback, and success with nothing to clean up. Before that, a failure
/// has nothing to undo.
pub proof fn lemma_full_disk_rollback(a: FullDiskView, stage: nat, o: OutcomeView)
    ensures
        a.apply_next(stage, o) matches NextView::Finish { cleanup, result } ==> (if result is Ok {
            cleanup.len() == 0
        } else if stage >= 2 {
            cleanup == rollback_effects(a.mount_point)
        } else {
            cleanup.len() == 0
        }),
{
}

/// The full-disk fault is measured by sequential 4 KiB writes into the
/// given directory, for exactly the given runtime.
pub proof fn lemma_full_disk_fio(a: FullDiskView, path: Seq<char>, runtime_sec: nat)
    ensures
        a.fio(path, runtime_sec) == (CommandView {
            program: "sudo"@,
            args: seq![
                "fio"@,
                "--output-format=json"@,
                "--name=job"@,
                "--directory="@ + path,
                "--rw=write"@,
                "--bs=4k"@,
                "--size=512M"@,
                "--numjobs=1"@,
                "--time_based"@,
                "--runtime="@ + decimal(runtime_sec),
            ],
        }),
        a.fio(path, runtime_sec).args.last().subrange(0, 10) == "--runtime="@,
        decimal_value(a.fio(path, runtime_sec).args.last().skip(10)) == runtime_sec,
{
    lemma_fio_args("--directory="@ + path, "--rw=write"@, runtime_sec);
}

impl FullDiskAdapter {
    /// The adapter for `device`, with its mount point under the home
    /// directory `home`.
    pub fn new(device: String, home: &str) -> (a: Self)
        ensures
            a@ == (FullDiskView { device: device@, mount_point: full_disk_mount_point(home@) }),
    {
        let mut mount_point = String::from_str(home);
        mount_point.append("/block_chaos_full");
        Self { device, mount_point }
    }

    fn filler_path(&self) -> (p: String)
        ensures
            p@ == self@.filler_path(),
    {
        let mut p = self.mount_point.clone();
        p.append("/filler.bin");
        p
    }

    fn fill(&self) -> (e: Effect)
        ensures
            e@ == self@.fill(),
    {
        let mut v: Vec<String> = Vec::new();
        push_arg(&mut v, "dd");
        push_arg(&mut v, "if=/dev/zero");
        let mut of = String::from_str("of=");
        let f = self.filler_path();
        of.append(f.as_str());
        push_arg(&mut v, of.as_str());
        push_arg(&mut v, "bs=1M");
        proof {
            assert(v.deep_view() =~= seq![
                "dd"@,
                "if=/dev/zero"@,
                "of="@ + self@.filler_path(),
                "bs=1M"@,
            ]);
        }
        sudo_run(v)
    }

    fn remove_filler(&self) -> (e: Effect)
        ensures
            e@ == self@.remove_filler(),
    {
        let mut v: Vec<String> = Vec::new();
        push_arg(&mut v, "rm");
        push_arg(&mut v, "-f");
        let f = self.filler_path();
        push_arg(&mut v, f.as_str());
        proof {
            assert(v.deep_view() =~= seq!["rm"@, "-f"@, self@.filler_path()]);
        }
        sudo_run(v)
    }

    /// Removes what an earlier run may have left behind: the file system is
    /// remounted read-write and unmounted, and the mount point is removed.
    /// None of these may fail the step.
    pub fn clean(&self) -> (n: Next)
        ensures
            n@ == (NextView::Finish { cleanup: self@.clean_effects(), result: Ok(()) }),
    {
        let mut c: Vec<Effect> = Vec::new();
        push_effect(&mut c, remount_rw_effect(self.mount_point.as_str()));
        push_effect(&mut c, umount_effect(self.mount_point.as_str()));
        push_effect(&mut c, Effect::RemoveDirAll(self.mount_point.clone()));
        proof {
            assert(effects_view(c@) =~= self@.clean_effects());
        }
        Next::Finish { cleanup: c, result: Ok(()) }
    }

    /// Starts applying the fault.
    pub fn apply_start(&self) -> (n: Next)
        ensures
            n@ == self@.apply_first(),
    {
        Next::Continue(Procedure { stage: 1 }, Effect::CreateDirAll(self.mount_point.clone()))
    }

    /// Continues applying the fault after the outcome `o` of the effect that
    /// `p` was returned with.
    pub fn apply_resume(&self, p: Procedure, o: Outcome) -> (n: Next)
        ensures
            n@ == self@.apply_next(p.stage as nat, o@),
    {
        if p.stage <= 1 {
            match o {
                Outcome::Error(e) => Next::Finish { cleanup: no_effects(), result: Err(e) },
                _ => Next::Continue(
                    Procedure { stage: 2 },
                    mount_effect(self.device.as_str(), self.mount_point.as_str()),
                ),
            }
        } else if p.stage == 2 {
            let rollback = MountRollBack::new(self.mount_point.as_str());
            match run_cmd(&o) {
                Ok(_) => Next::Continue(Procedure { stage: 3 }, self.fill()),
                Err(e) => Next::Finish { cleanup: rollback.drop_effects(), result: Err(e) },
            }
        } else {
            let mut rollback = MountRollBack::new(self.mount_point.as_str());
            match o {
                Outcome::Error(e) => Next::Finish { cleanup: rollback.drop_effects(), result: Err(e) },
                _ => {
                    rollback.disarm();
                    Next::Finish { cleanup: rollback.drop_effects(), result: Ok(()) }
                },
            }
        }
    }

    /// Removes the fault: the filler file is deleted, and the file system is
    /// remounted read-write and unmounted. None of these may fail the step.
    pub fn remove(&self) -> (n: Next)
        ensures
            n@ == (NextView::Finish { cleanup: self@.remove_effects(), result: Ok(()) }),
    {
        let mut c: Vec<Effect> = Vec::new();
        push_effect(&mut c, self.remove_filler());
        push_effect(&mut c, remount_rw_effect(self.mount_point.as_str()));
        push_effect(&mut c, umount_effect(self.mount_point.as_str()));
        proof {
            assert(effects_view(c@) =~= self@.remove_effects());
        }
        Next::Finish { cleanup: c, result: Ok(()) }
    }

    /// The fio command that measures writes into the directory `directory`
    /// for `runtime_sec` seconds.
    pub fn run_fio(&self, directory: &str, runtime_sec: u64) -> (c: CommandSpec)
        ensures
            c@ == self@.fio(directory@, runtime_sec as nat),
    {
        let mut target = String::from_str("--directory=");
        target.append(directory);
        fio_command(target.as_str(), "--rw=write", runtime_sec)
    }

    /// What to make of the fio run's outcome: see [`tolerant_reading`].
    pub fn read_fio(o: &Outcome) -> (r: Result<FioReading, String>)
        ensures
            reading_view(r) == tolerant_reading(o@),
    {
        read_fio_tolerant(o)
    }
}

impl StorageAdapter for FullDiskAdapter {
    open spec fn chaos_path(&self) -> Seq<char> {
        self@.mount_point
    }

    open spec fn apply_message(&self) -> Seq<char> {
        "Applying full disk exhaustion..."@
    }

    open spec fn remove_message(&self) -> Seq<char> {
        "Removing full disk condition..."@
    }

    fn chaos_device_path(&self) -> (p: String) {
        self.mount_point.clone()
    }

    fn apply_label(&self) -> (l: &'static str) {
        "Applying full disk exhaustion..."
    }

    fn remove_label(&self) -> (l: &'static str) {
        "Removing full disk condition..."
    }
}

} // verus!
