//! Measurements of an experiment and how a fio run's outcome is read.

use vstd::prelude::*;

use crate::command::{push_arg, sudo, sudo_command, CommandSpec};
use crate::text::{decimal, decimal_string, decimal_value, is_digit, lemma_decimal_round_trip};

verus! {

/// The two measurements of an experiment: without and with the fault.
#[derive(Debug, Clone, PartialEq, Eq)]
pub struct ExperimentSummary<S> {
    pub control: S,
    pub chaos: S,
}

/// The arguments of a fio run of `runtime_sec` seconds that reports in
/// JSON, with the given target option and access pattern option.
pub open spec fn fio_args(target: Seq<char>, rw: Seq<char>, runtime_sec: nat) -> Seq<Seq<char>> {
    seq![
        "fio"@,
        "--output-format=json"@,
        "--name=job"@,
        target,
        rw,
        "--bs=4k"@,
        "--size=512M"@,
        "--numjobs=1"@,
        "--time_based"@,
        "--runtime="@ + decimal(runtime_sec),
    ]
}

/// Every fio measurement reports in JSON as one job of 4 KiB blocks over
/// 512 MiB, runs for a set time, and takes the target and access pattern
/// given; its last argument is `--runtime=` followed by digits that denote
/// the given runtime exactly.
pub proof fn lemma_fio_args(target: Seq<char>, rw: Seq<char>, runtime_sec: nat)
    ensures
        fio_args(target, rw, runtime_sec) == seq![
            "fio"@,
            "--output-format=json"@,
            "--name=job"@,
            target,
            rw,
            "--bs=4k"@,
            "--size=512M"@,
            "--numjobs=1"@,
            "--time_based"@,
            "--runtime="@ + decimal(runtime_sec),
        ],
        fio_args(target, rw, runtime_sec).last().subrange(0, 10) == "--runtime="@,
        decimal_value(fio_args(target, rw, runtime_sec).last().skip(10)) == runtime_sec,
        forall|i: int|
            10 <= i < fio_args(target, rw, runtime_sec).last().len() ==> is_digit(
                #[trigger] fio_args(target, rw, runtime_sec).last()[i],
            ),
{
    reveal_strlit("--runtime=");
    lemma_decimal_round_trip(runtime_sec);
    let d = decimal(runtime_sec);
    let last = "--runtime="@ + d;
    assert(fio_args(target, rw, runtime_sec).last() == last);
    assert(last.subrange(0, 10) =~= "--runtime="@);
    assert(last.skip(10) =~= d);
    assert forall|i: int| 10 <= i < last.len() implies is_digit(#[trigger] last[i]) by {
        assert(last[i] == d[i - 10]);
    }
}

/// Builds the fio command of [`fio_args`], run through `sudo`.
pub fn fio_command(target: &str, rw: &str, runtime_sec: u64) -> (c: CommandSpec)
    ensures
        c@ == sudo(fio_args(target@, rw@, runtime_sec as nat)),
{
    let mut v: Vec<String> = Vec::new();
    push_arg(&mut v, "fio");
    push_arg(&mut v, "--output-format=json");
    push_arg(&mut v, "--name=job");
    push_arg(&mut v, target);
    push_arg(&mut v, rw);
    push_arg(&mut v, "--bs=4k");
    push_arg(&mut v, "--size=512M");
    push_arg(&mut v, "--numjobs=1");
    push_arg(&mut v, "--time_based");
    let mut r = String::from_str("--runtime=");
    let d = decimal_string(runtime_sec);
    r.append(d.as_str());
    push_arg(&mut v, r.as_str());
    proof {
        assert(v.deep_view() =~= fio_args(target@, rw@, runtime_sec as nat));
    }
    sudo_command(v)
}

/// What to make of a fio run: a measurement of zero, or its JSON report,
/// as text or as raw bytes, still to be parsed.
#[derive(Debug, Clone, PartialEq, Eq)]
pub enum FioReading {
    Zero,
    Text(String),
    Bytes(Vec<u8>),
}

/// The contents of a [`FioReading`].
pub enum FioReadingView {
    Zero,
    Text(Seq<char>),
    Bytes(Seq<u8>),
}

impl View for FioReading {
    type V = FioReadingView;

    open spec fn view(&self) -> FioReadingView {
        match self {
            FioReading::Zero => FioReadingView::Zero,
            FioReading::Text(t) => FioReadingView::Text(t@),
            FioReading::Bytes(b) => FioReadingView::Bytes(b@),
        }
    }
}

/// The contents of a fio reading or of its error.
pub open spec fn reading_view(r: Result<FioReading, String>) -> Result<FioReadingView, Seq<char>> {
    match r {
        Ok(x) => Ok(x@),
        Err(e) => Err(e@),
    }
}

/// The message of a fio report without jobs.
pub open spec fn no_job_message() -> Seq<char> {
    "No fio job output"@
}

/// The job whose measurements a fio report stands for: its first, or an
/// error where it has none.
pub fn first_job<J>(jobs: &Vec<J>) -> (r: Result<&J, String>)
    ensures
        jobs@.len() > 0 <==> r is Ok,
        r matches Ok(j) ==> *j == jobs@[0],
        r matches Err(e) ==> e@ == no_job_message(),
{
    if jobs.len() == 0 {
        Err(String::from_str("No fio job output"))
    } else {
        Ok(&jobs[0])
    }
}

} // verus!
