//! The fault of a slow device: a device-mapper `delay` target over the
//! device, through which every request waits a fixed time.

use vstd::prelude::*;

use crate::command::{
    checked_output, drive, effects_view, exit_ok, no_effects, push_arg, push_effect, run_cmd,
    sudo, sudo_effect, sudo_run, CommandSpec, CommandView, Effect, EffectView, Next, NextView,
    Outcome, OutcomeView, Procedure,
};
use crate::domain::results::{lemma_fio_args, fio_args, fio_command, reading_view, FioReading, FioReadingView};
use crate::domain::traits::StorageAdapter;
use crate::text::{
    decimal, decimal_string, decimal_value, is_digit, last_field, lemma_decimal_round_trip,
    lemma_last_field_after_space, trim, trimmed, utf8_lossy,
};

verus! {

/// Injects latency with a device-mapper `delay` target named `dm_name`
/// over `device`, delaying every request by `delay_ms` milliseconds.
#[derive(Debug, Clone, PartialEq, Eq)]
pub struct DmDelayAdapter {
    device: String,
    dm_name: String,
    delay_ms: u64,
}

/// The contents of a [`DmDelayAdapter`].
pub struct DmDelayView {
    pub device: Seq<char>,
    pub dm_name: Seq<char>,
    pub delay_ms: nat,
}

impl View for DmDelayAdapter {
    type V = DmDelayView;

    closed spec fn view(&self) -> DmDelayView {
        DmDelayView { device: self.device@, dm_name: self.dm_name@, delay_ms: self.delay_ms as nat }
    }
}

impl DmDelayView {
    /// `dmsetup remove -f NAME`
    pub open spec fn remove_force(self) -> EffectView {
        sudo_effect(seq!["dmsetup"@, "remove"@, "-f"@, self.dm_name])
    }

    /// `dmsetup remove --retry -f NAME`
    pub open spec fn remove_retry(self) -> EffectView {
        sudo_effect(seq!["dmsetup"@, "remove"@, "--retry"@, "-f"@, self.dm_name])
    }

    /// `udevamd settle`, as the clean and apply steps spell it.
    pub open spec fn settle_misspelt(self) -> EffectView {
        sudo_effect(seq!["udevamd"@, "settle"@])
    }

    /// `udevadm settle`
    pub open spec fn settle(self) -> EffectView {
        sudo_effect(seq!["udevadm"@, "settle"@])
    }

    /// `blockdev --getsz DEVICE`: the device's size in 512-byte sectors.
    pub open spec fn get_size(self) -> EffectView {
        sudo_effect(seq!["blockdev"@, "--getsz"@, self.device])
    }

    /// The device-mapper table of the delay target, given the text that
    /// `blockdev --getsz` printed.
    pub open spec fn table(self, sectors: Seq<char>) -> Seq<char> {
        "0 "@ + trimmed(sectors) + " delay "@ + self.device + " 0 "@ + decimal(self.delay_ms)
    }

    /// `dmsetup create NAME --table TABLE`
    pub open spec fn create(self, sectors: Seq<char>) -> EffectView {
        sudo_effect(seq!["dmsetup"@, "create"@, self.dm_name, "--table"@, self.table(sectors)])
    }

    /// Where the delayed device appears.
    pub open spec fn mapped_path(self) -> Seq<char> {
        "/dev/mapper/"@ + self.dm_name
    }

    /// The fio command that measures random reads of `path`.
    pub open spec fn fio(self, path: Seq<char>, runtime_sec: nat) -> CommandView {
        sudo(fio_args("--filename="@ + path, "--rw=randread"@, runtime_sec))
    }

    /// The effects of cleaning up before the control run.
    pub open spec fn clean_effects(self) -> Seq<EffectView> {
        seq![self.remove_force(), self.remove_retry(), self.settle_misspelt()]
    }

    /// The effects of removing the fault.
    pub open spec fn remove_effects(self) -> Seq<EffectView> {
        seq![self.remove_force(), self.remove_retry(), self.settle()]
    }

    /// The first move of applying the fault.
    pub open spec fn apply_first(self) -> NextView {
        NextView::Continue(1, self.remove_force())
    }

    /// The move of applying the fault that follows `stage` with outcome `o`:
    /// three preparatory commands whose outcome does not matter, the size
    /// query and the creation of the target, each of which must succeed,
    /// and a final settle whose outcome does not matter.
    pub open spec fn apply_next(self, stage: nat, o: OutcomeView) -> NextView {
        if stage <= 1 {
            NextView::Continue(2, self.remove_retry())
        } else if stage == 2 {
            NextView::Continue(3, self.settle_misspelt())
        } else if stage == 3 {
            NextView::Continue(4, self.get_size())
        } else if stage == 4 {
            match checked_output(o) {
                Ok(sectors) => NextView::Continue(5, self.create(sectors)),
                Err(e) => NextView::Finish { cleanup: Seq::empty(), result: Err(e) },
            }
        } else if stage == 5 {
            match checked_output(o) {
                Ok(_) => NextView::Continue(6, self.settle()),
                Err(e) => NextView::Finish { cleanup: Seq::empty(), result: Err(e) },
            }
        } else {
            NextView::Finish { cleanup: Seq::empty(), result: Ok(()) }
        }
    }
}

/// Applying the fault, when the size query and the creation of the target
/// succeed (the other commands may end any way), runs the three preparatory
/// commands, queries the size, creates the target with the table made of
/// the size printed, settles, and succeeds with nothing to clean up.
pub proof fn lemma_delay_apply_succeeds(
    a: DmDelayView,
    o1: OutcomeView,
    o2: OutcomeView,
    o3: OutcomeView,
    size_out: Seq<u8>,
    create_out: Seq<u8>,
    o6: OutcomeView,
)
    ensures
        drive(
            |stage: nat, o: OutcomeView| a.apply_next(stage, o),
            a.apply_first(),
            seq![o1, o2, o3, exit_ok(size_out), exit_ok(create_out), o6],
        ) == (
            seq![
                a.remove_force(),
                a.remove_retry(),
                a.settle_misspelt(),
                a.get_size(),
                a.create(utf8_lossy(size_out)),
                a.settle(),
            ],
            Some((Seq::<EffectView>::empty(), Ok::<(), Seq<char>>(()))),
        ),
{
    let outs = seq![o1, o2, o3, exit_ok(size_out), exit_ok(create_out), o6];
    reveal_with_fuel(drive, 8);
    assert(drive(|stage: nat, o: OutcomeView| a.apply_next(stage, o), a.apply_first(), outs).0
        =~= seq![
        a.remove_force(),
        a.remove_retry(),
        a.settle_misspelt(),
        a.get_size(),
        a.create(utf8_lossy(size_out)),
        a.settle(),
    ]);
}

/// Applying the fault ends with an error exactly where the size query or
/// the creation of the target fails, and with that command's error text or
/// standard error; nothing is cleaned up on the way out.
pub proof fn lemma_delay_apply_failure(a: DmDelayView, stage: nat, o: OutcomeView)
    ensures
        a.apply_next(stage, o) matches NextView::Finish { cleanup, result: Err(x) } ==> (
        (stage == 4 || stage == 5) && checked_output(o) == Err::<Seq<char>, Seq<char>>(x)
            && cleanup.len() == 0),
        (stage == 4 || stage == 5) && checked_output(o) is Err ==> a.apply_next(stage, o)
            == (NextView::Finish { cleanup: Seq::empty(), result: Err(checked_output(o)->Err_0) }),
{
}

/// The delay target's table names the sectors as printed (trimmed), the
/// device, and the delay, in that order; its last field is a string of
/// digits that denotes the configured delay exactly, whatever the delay.
pub proof fn lemma_table_fields(a: DmDelayView, sectors: Seq<char>)
    ensures
        a.table(sectors) == "0 "@ + trimmed(sectors) + " delay "@ + a.device + " 0 "@ + decimal(
            a.delay_ms,
        ),
        last_field(a.table(sectors)) == decimal(a.delay_ms),
        decimal_value(last_field(a.table(sectors))) == a.delay_ms,
        forall|i: int|
            0 <= i < last_field(a.table(sectors)).len() ==> is_digit(
                #[trigger] last_field(a.table(sectors))[i],
            ),
{
    reveal_strlit(" 0 ");
    lemma_decimal_round_trip(a.delay_ms);
    let d = decimal(a.delay_ms);
    let p = "0 "@ + trimmed(sectors) + " delay "@ + a.device + " 0 "@;
    assert(p.last() == ' ');
    assert forall|i: int| 0 <= i < d.len() implies #[trigger] d[i] != ' ' by {
        assert(is_digit(d[i]));
    }
    lemma_last_field_after_space(p, d);
}

/// The delay fault is measured by random 4 KiB reads of the given device,
/// for exactly the given runtime.
pub proof fn lemma_delay_fio(a: DmDelayView, path: Seq<char>, runtime_sec: nat)
    ensures
        a.fio(path, runtime_sec) == (CommandView {
            program: "sudo"@,
            args: seq![
                "fio"@,
                "--output-format=json"@,
                "--name=job"@,
                "--filename="@ + path,
                "--rw=randread"@,
                "--bs=4k"@,
                "--size=512M"@,
                "--numjobs=1"@,
                "--time_based"@,
                "--runtime="@ + decimal(runtime_sec),
            ],
        }),
        a.fio(path, runtime_sec).args.last().subrange(0, 10) == "--runtime="@,
        decimal_value(a.fio(path, runtime_sec).args.last().skip(10)) == runtime_sec,
{
    lemma_fio_args("--filename="@ + path, "--rw=randread"@, runtime_sec);
}

fn args1(a: &str) -> (v: Vec<String>)
    ensures
        v.deep_view() == seq![a@],
{
    let mut v: Vec<String> = Vec::new();
    push_arg(&mut v, a);
    v
}

impl DmDelayAdapter {
    pub fn new(device: String, dm_name: String, delay_ms: u64) -> (a: Self)
        ensures
            a@ == (DmDelayView { device: device@, dm_name: dm_name@, delay_ms: delay_ms as nat }),
    {
        Self { device, dm_name, delay_ms }
    }

    fn remove_force(&self) -> (e: Effect)
        ensures
            e@ == self@.remove_force(),
    {
        let mut v = args1("dmsetup");
        push_arg(&mut v, "remove");
        push_arg(&mut v, "-f");
        push_arg(&mut v, self.dm_name.as_str());
        proof {
            assert(v.deep_view() =~= seq!["dmsetup"@, "remove"@, "-f"@, self@.dm_name]);
        }
        sudo_run(v)
    }

    fn remove_retry(&self) -> (e: Effect)
        ensures
            e@ == self@.remove_retry(),
    {
        let mut v = args1("dmsetup");
        push_arg(&mut v, "remove");
        push_arg(&mut v, "--retry");
        push_arg(&mut v, "-f");
        push_arg(&mut v, self.dm_name.as_str());
        proof {
            assert(v.deep_view() =~= seq!["dmsetup"@, "remove"@, "--retry"@, "-f"@, self@.dm_name]);
        }
        sudo_run(v)
    }

    fn settle_misspelt(&self) -> (e: Effect)
        ensures
            e@ == self@.settle_misspelt(),
    {
        let mut v = args1("udevamd");
        push_arg(&mut v, "settle");
        proof {
            assert(v.deep_view() =~= seq!["udevamd"@, "settle"@]);
        }
        sudo_run(v)
    }

    fn settle(&self) -> (e: Effect)
        ensures
            e@ == self@.settle(),
    {
        let mut v = args1("udevadm");
        push_arg(&mut v, "settle");
        proof {
            assert(v.deep_view() =~= seq!["udevadm"@, "settle"@]);
        }
        sudo_run(v)
    }

    fn get_size(&self) -> (e: Effect)
        ensures
            e@ == self@.get_size(),
    {
        let mut v = args1("blockdev");
        push_arg(&mut v, "--getsz");
        push_arg(&mut v, self.device.as_str());
        proof {
            assert(v.deep_view() =~= seq!["blockdev"@, "--getsz"@, self@.device]);
        }
        sudo_run(v)
    }

    /// The device-mapper table of the delay target over this device, given
    /// the text that `blockdev --getsz` printed.
    pub fn table(&self, sectors: &str) -> (t: String)
        ensures
            t@ == self@.table(sectors@),
    {
        let mut t = String::from_str("0 ");
        let n = trim(sectors);
        t.append(n.as_str());
        t.append(" delay ");
        t.append(self.device.as_str());
        t.append(" 0 ");
        let d = decimal_string(self.delay_ms);
        t.append(d.as_str());
        t
    }

    fn create(&self, sectors: &str) -> (e: Effect)
        ensures
            e@ == self@.create(sectors@),
    {
        let mut v = args1("dmsetup");
        push_arg(&mut v, "create");
        push_arg(&mut v, self.dm_name.as_str());
        push_arg(&mut v, "--table");
        let t = self.table(sectors);
        push_arg(&mut v, t.as_str());
        proof {
            assert(v.deep_view() =~= seq!["dmsetup"@, "create"@, self@.dm_name, "--table"@, self@.table(sectors@)]);
        }
        sudo_run(v)
    }

    /// Removes what an earlier run may have left behind: the target is
    /// removed, forcibly and then with retries, and udev is asked to settle.
    /// None of these may fail the step.
    pub fn clean(&self) -> (n: Next)
        ensures
            n@ == (NextView::Finish { cleanup: self@.clean_effects(), result: Ok(()) }),
    {
        let mut c: Vec<Effect> = Vec::new();
        push_effect(&mut c, self.remove_force());
        push_effect(&mut c, self.remove_retry());
        push_effect(&mut c, self.settle_misspelt());
        proof {
            assert(effects_view(c@) =~= self@.clean_effects());
        }
        Next::Finish { cleanup: c, result: Ok(()) }
    }

    /// Starts applying the fault.
    pub fn apply_start(&self) -> (n: Next)
        ensures
            n@ == self@.apply_first(),
    {
        Next::Continue(Procedure { stage: 1 }, self.remove_force())
    }

    /// Continues applying the fault after the outcome `o` of the effect that
    /// `p` was returned with.
    pub fn apply_resume(&self, p: Procedure, o: Outcome) -> (n: Next)
        ensures
            n@ == self@.apply_next(p.stage as nat, o@),
    {
        if p.stage <= 1 {
            Next::Continue(Procedure { stage: 2 }, self.remove_retry())
        } else if p.stage == 2 {
            Next::Continue(Procedure { stage: 3 }, self.settle_misspelt())
        } else if p.stage == 3 {
            Next::Continue(Procedure { stage: 4 }, self.get_size())
        } else if p.stage == 4 {
            match run_cmd(&o) {
                Ok(sectors) => Next::Continue(Procedure { stage: 5 }, self.create(sectors.as_str())),
                Err(e) => Next::Finish { cleanup: no_effects(), result: Err(e) },
            }
        } else if p.stage == 5 {
            match run_cmd(&o) {
                Ok(_) => Next::Continue(Procedure { stage: 6 }, self.settle()),
                Err(e) => Next::Finish { cleanup: no_effects(), result: Err(e) },
            }
        } else {
            Next::Finish { cleanup: no_effects(), result: Ok(()) }
        }
    }

    /// The fio command that measures random reads of `device_path` for
    /// `runtime_sec` seconds.
    pub fn run_fio(&self, device_path: &str, runtime_sec: u64) -> (c: CommandSpec)
        ensures
            c@ == self@.fio(device_path@, runtime_sec as nat),
    {
        let mut target = String::from_str("--filename=");
        target.append(device_path);
        fio_command(target.as_str(), "--rw=randread", runtime_sec)
    }

    /// What to make of the fio run's outcome: a run that could not be
    /// spawned or that failed is an error (its error text or standard
    /// error); else its standard output is the report to parse.
    pub fn read_fio(o: &Outcome) -> (r: Result<FioReading, String>)
        ensures
            reading_view(r) == match checked_output(o@) {
                Ok(t) => Ok(FioReadingView::Text(t)),
                Err(e) => Err(e),
            },
    {
        match run_cmd(o) {
            Ok(t) => Ok(FioReading::Text(t)),
            Err(e) => Err(e),
        }
    }

    /// Removes the fault: the target is removed, forcibly and then with
    /// retries, and udev is asked to settle. None of these may fail the step.
    pub fn remove(&self) -> (n: Next)
        ensures
            n@ == (NextView::Finish { cleanup: self@.remove_effects(), result: Ok(()) }),
    {
        let mut c: Vec<Effect> = Vec::new();
        push_effect(&mut c, self.remove_force());
        push_effect(&mut c, self.remove_retry());
        push_effect(&mut c, self.settle());
        proof {
            assert(effects_view(c@) =~= self@.remove_effects());
        }
        Next::Finish { cleanup: c, result: Ok(()) }
    }
}

impl StorageAdapter for DmDelayAdapter {
    open spec fn chaos_path(&self) -> Seq<char> {
        self@.mapped_path()
    }

    open spec fn apply_message(&self) -> Seq<char> {
        "Applying delay..."@
    }

    open spec fn remove_message(&self) -> Seq<char> {
        "Removing delay..."@
    }

    fn chaos_device_path(&self) -> (p: String) {
        let mut p = String::from_str("/dev/mapper/");
        p.append(self.dm_name.as_str());
        p
    }

    fn apply_label(&self) -> (l: &'static str) {
        "Applying delay..."
    }

    fn remove_label(&self) -> (l: &'static str) {
        "Removing delay..."
    }
}

} // verus!
