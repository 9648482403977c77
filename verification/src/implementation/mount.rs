//! Mount commands and the reading of a fio run, shared by the adapters
//! that work on a mounted file system.

use vstd::prelude::*;

use crate::command::{push_arg, sudo_effect, sudo_run, Effect, EffectView, Outcome, OutcomeView};
use crate::domain::results::{reading_view, FioReading, FioReadingView};

verus! {

/// `mount DEVICE MOUNT_POINT`
pub open spec fn mount(device: Seq<char>, mount_point: Seq<char>) -> EffectView {
    sudo_effect(seq!["mount"@, device, mount_point])
}

/// `mount -o remount,rw MOUNT_POINT`
pub open spec fn remount_rw(mount_point: Seq<char>) -> EffectView {
    sudo_effect(seq!["mount"@, "-o"@, "remount,rw"@, mount_point])
}

/// `mount -o remount,ro MOUNT_POINT`
pub open spec fn remount_ro(mount_point: Seq<char>) -> EffectView {
    sudo_effect(seq!["mount"@, "-o"@, "remount,ro"@, mount_point])
}

/// `umount MOUNT_POINT`
pub open spec fn umount(mount_point: Seq<char>) -> EffectView {
    sudo_effect(seq!["umount"@, mount_point])
}

/// Builds the effect of [`mount`].
pub fn mount_effect(device: &str, mount_point: &str) -> (e: Effect)
    ensures
        e@ == mount(device@, mount_point@),
{
    let mut v: Vec<String> = Vec::new();
    push_arg(&mut v, "mount");
    push_arg(&mut v, device);
    push_arg(&mut v, mount_point);
    proof {
        assert(v.deep_view() =~= seq!["mount"@, device@, mount_point@]);
    }
    sudo_run(v)
}

/// Builds the effect of [`remount_rw`].
pub fn remount_rw_effect(mount_point: &str) -> (e: Effect)
    ensures
        e@ == remount_rw(mount_point@),
{
    let mut v: Vec<String> = Vec::new();
    push_arg(&mut v, "mount");
    push_arg(&mut v, "-o");
    push_arg(&mut v, "remount,rw");
    push_arg(&mut v, mount_point);
    proof {
        assert(v.deep_view() =~= seq!["mount"@, "-o"@, "remount,rw"@, mount_point@]);
    }
    sudo_run(v)
}

/// Builds the effect of [`remount_ro`].
pub fn remount_ro_effect(mount_point: &str) -> (e: Effect)
    ensures
        e@ == remount_ro(mount_point@),
{
    let mut v: Vec<String> = Vec::new();
    push_arg(&mut v, "mount");
    push_arg(&mut v, "-o");
    push_arg(&mut v, "remount,ro");
    push_arg(&mut v, mount_point);
    proof {
        assert(v.deep_view() =~= seq!["mount"@, "-o"@, "remount,ro"@, mount_point@]);
    }
    sudo_run(v)
}

/// Builds the effect of [`umount`].
pub fn umount_effect(mount_point: &str) -> (e: Effect)
    ensures
        e@ == umount(mount_point@),
{
    let mut v: Vec<String> = Vec::new();
    push_arg(&mut v, "umount");
    push_arg(&mut v, mount_point);
    proof {
        assert(v.deep_view() =~= seq!["umount"@, mount_point@]);
    }
    sudo_run(v)
}

/// How a write measurement on a faulty file system is read: a run that
/// could not be spawned is an error, a run that failed measured nothing,
/// and the standard output of a run that succeeded is the report to parse.
pub open spec fn tolerant_reading(o: OutcomeView) -> Result<FioReadingView, Seq<char>> {
    match o {
        OutcomeView::Error(e) => Err(e),
        OutcomeView::Exit { success, stdout, stderr } => if success {
            Ok(FioReadingView::Bytes(stdout))
        } else {
            Ok(FioReadingView::Zero)
        },
        OutcomeView::Done => Ok(FioReadingView::Bytes(Seq::empty())),
    }
}

/// A write measurement that ran and failed measured nothing, whatever it
/// printed; one that succeeded is read from its standard output; one that
/// could not run is an error with its text.
pub proof fn lemma_tolerant_reading(stdout: Seq<u8>, stderr: Seq<u8>, e: Seq<char>)
    ensures
        tolerant_reading(OutcomeView::Exit { success: false, stdout, stderr }) == Ok::<
            FioReadingView,
            Seq<char>,
        >(FioReadingView::Zero),
        tolerant_reading(OutcomeView::Exit { success: true, stdout, stderr }) == Ok::<
            FioReadingView,
            Seq<char>,
        >(FioReadingView::Bytes(stdout)),
        tolerant_reading(OutcomeView::Error(e)) == Err::<FioReadingView, Seq<char>>(e),
{
}

/// Reads a write measurement's outcome as [`tolerant_reading`] says.
pub fn read_fio_tolerant(o: &Outcome) -> (r: Result<FioReading, String>)
    ensures
        reading_view(r) == tolerant_reading(o@),
{
    match o {
        Outcome::Error(e) => Err(e.clone()),
        Outcome::Exit { success, stdout, stderr } => if *success {
            Ok(FioReading::Bytes(stdout.clone()))
        } else {
            Ok(FioReading::Zero)
        },
        Outcome::Done => {
            let empty: Vec<u8> = Vec::new();
            Ok(FioReading::Bytes(empty))
        },
    }
}

} // verus!
