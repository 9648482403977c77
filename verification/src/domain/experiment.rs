//! The course of an experiment: measure the device, apply the fault,
//! measure again, remove the fault.

use vstd::prelude::*;

use crate::domain::config::ExperimentConfig;
use crate::domain::results::ExperimentSummary;
use crate::domain::traits::StorageAdapter;

verus! {

/// What an experiment asks of the program that runs it.
#[derive(Debug, Clone, PartialEq, Eq)]
pub enum Request {
    /// Show a message.
    Say(&'static str),
    /// Clean up what an earlier run may have left behind.
    Clean,
    /// Measure the device at `device_path` for `runtime_sec` seconds.
    Measure { device_path: String, runtime_sec: u64 },
    /// Apply the fault.
    Apply,
    /// Remove the fault.
    Remove,
}

/// The contents of a [`Request`].
pub enum RequestView {
    Say(Seq<char>),
    Clean,
    Measure { device_path: Seq<char>, runtime_sec: nat },
    Apply,
    Remove,
}

impl View for Request {
    type V = RequestView;

    open spec fn view(&self) -> RequestView {
        match self {
            Request::Say(m) => RequestView::Say(m@),
            Request::Clean => RequestView::Clean,
            Request::Measure { device_path, runtime_sec } => RequestView::Measure {
                device_path: device_path@,
                runtime_sec: *runtime_sec as nat,
            },
            Request::Apply => RequestView::Apply,
            Request::Remove => RequestView::Remove,
        }
    }
}

/// The answer to a [`Request`]: whether a message was shown or a step
/// succeeded, or what a measurement gave.
#[derive(Debug, PartialEq, Eq)]
pub enum Reply<S> {
    Done(Result<(), String>),
    Measured(Result<S, String>),
}

/// The contents of a [`Reply`].
pub enum ReplyView<S> {
    Done(Result<(), Seq<char>>),
    Measured(Result<S, Seq<char>>),
}

impl<S> View for Reply<S> {
    type V = ReplyView<S>;

    open spec fn view(&self) -> ReplyView<S> {
        match self {
            Reply::Done(Ok(())) => ReplyView::Done(Ok(())),
            Reply::Done(Err(e)) => ReplyView::Done(Err(e@)),
            Reply::Measured(Ok(s)) => ReplyView::Measured(Ok(*s)),
            Reply::Measured(Err(e)) => ReplyView::Measured(Err(e@)),
        }
    }
}

/// Where an experiment stands: what it waits for, with the measurements it
/// has so far.
#[derive(Debug, Clone, PartialEq, Eq)]
pub enum Stage<S> {
    /// The control run has been announced.
    ControlAnnounced,
    /// Cleaning up.
    Cleaning,
    /// Measuring without the fault.
    MeasuringControl,
    /// The fault's application has been announced.
    ApplyAnnounced { control: S },
    /// Applying the fault.
    Applying { control: S },
    /// The chaos run has been announced.
    ChaosAnnounced { control: S },
    /// Measuring with the fault.
    MeasuringChaos { control: S },
    /// The fault's removal has been announced.
    RemoveAnnounced { control: S, chaos: S },
    /// Removing the fault.
    Removing { control: S, chaos: S },
}

/// An experiment under way on the device of its configuration.
#[derive(Debug, Clone, PartialEq, Eq)]
pub struct Experiment<S> {
    pub stage: Stage<S>,
    pub device: String,
    pub runtime_sec: u64,
}

/// The contents of an [`Experiment`].
pub struct ExperimentView<S> {
    pub stage: Stage<S>,
    pub device: Seq<char>,
    pub runtime_sec: nat,
}

impl<S> View for Experiment<S> {
    type V = ExperimentView<S>;

    open spec fn view(&self) -> ExperimentView<S> {
        ExperimentView { stage: self.stage, device: self.device@, runtime_sec: self.runtime_sec as nat }
    }
}

/// What an experiment does next: ask for something and wait for the
/// reply, or end with its summary or the error that stopped it.
#[derive(Debug, PartialEq, Eq)]
pub enum Move<S> {
    Continue(Experiment<S>, Request),
    Finish(Result<ExperimentSummary<S>, String>),
}

/// The contents of a [`Move`].
pub enum MoveView<S> {
    Continue(ExperimentView<S>, RequestView),
    Finish(Result<ExperimentSummary<S>, Seq<char>>),
}

impl<S> View for Move<S> {
    type V = MoveView<S>;

    open spec fn view(&self) -> MoveView<S> {
        match self {
            Move::Continue(e, r) => MoveView::Continue(e@, r@),
            Move::Finish(Ok(s)) => MoveView::Finish(Ok(*s)),
            Move::Finish(Err(e)) => MoveView::Finish(Err(e@)),
        }
    }
}

/// The message that opens the control run.
pub open spec fn control_message() -> Seq<char> {
    "Running control..."@
}

/// The message that opens the chaos run.
pub open spec fn chaos_message() -> Seq<char> {
    "Running chaos..."@
}

/// The experiment `e` moved to `stage`, asking for `req`.
pub open spec fn goto<S>(e: ExperimentView<S>, stage: Stage<S>, req: RequestView) -> MoveView<S> {
    MoveView::Continue(ExperimentView { stage, ..e }, req)
}

/// The measurement of the control run.
pub open spec fn measure_control<S>(e: ExperimentView<S>) -> RequestView {
    RequestView::Measure { device_path: e.device, runtime_sec: e.runtime_sec }
}

/// The measurement of the chaos run.
pub open spec fn measure_chaos<S, A: StorageAdapter>(a: A, e: ExperimentView<S>) -> RequestView {
    RequestView::Measure { device_path: a.chaos_path(), runtime_sec: e.runtime_sec }
}

/// The first move of an experiment on `device` whose measurements last
/// `runtime_sec` seconds: the control run is announced.
pub open spec fn first_move<S>(device: Seq<char>, runtime_sec: nat) -> MoveView<S> {
    MoveView::Continue(
        ExperimentView { stage: Stage::ControlAnnounced, device, runtime_sec },
        RequestView::Say(control_message()),
    )
}

/// The move of experiment `e` on reply `r`, with adapter `a`.
///
/// A message is followed by the step it announced. A failed step or
/// measurement ends the experiment with its error, whatever is applied at
/// the time. A reply of the wrong kind (a measurement where a step was
/// asked for, or the other way round) leaves the experiment where it was
/// and asks again.
pub open spec fn next_move<S, A: StorageAdapter>(a: A, e: ExperimentView<S>, r: ReplyView<S>) -> MoveView<S> {
    match e.stage {
        Stage::ControlAnnounced => goto(e, Stage::Cleaning, RequestView::Clean),
        Stage::Cleaning => match r {
            ReplyView::Done(Ok(())) => goto(e, Stage::MeasuringControl, measure_control(e)),
            ReplyView::Done(Err(x)) => MoveView::Finish(Err(x)),
            ReplyView::Measured(_) => goto(e, e.stage, RequestView::Clean),
        },
        Stage::MeasuringControl => match r {
            ReplyView::Measured(Ok(control)) => goto(
                e,
                Stage::ApplyAnnounced { control },
                RequestView::Say(a.apply_message()),
            ),
            ReplyView::Measured(Err(x)) => MoveView::Finish(Err(x)),
            ReplyView::Done(_) => goto(e, e.stage, measure_control(e)),
        },
        Stage::ApplyAnnounced { control } => goto(e, Stage::Applying { control }, RequestView::Apply),
        Stage::Applying { control } => match r {
            ReplyView::Done(Ok(())) => goto(
                e,
                Stage::ChaosAnnounced { control },
                RequestView::Say(chaos_message()),
            ),
            ReplyView::Done(Err(x)) => MoveView::Finish(Err(x)),
            ReplyView::Measured(_) => goto(e, e.stage, RequestView::Apply),
        },
        Stage::ChaosAnnounced { control } => goto(
            e,
            Stage::MeasuringChaos { control },
            measure_chaos(a, e),
        ),
        Stage::MeasuringChaos { control } => match r {
            ReplyView::Measured(Ok(chaos)) => goto(
                e,
                Stage::RemoveAnnounced { control, chaos },
                RequestView::Say(a.remove_message()),
            ),
            ReplyView::Measured(Err(x)) => MoveView::Finish(Err(x)),
            ReplyView::Done(_) => goto(e, e.stage, measure_chaos(a, e)),
        },
        Stage::RemoveAnnounced { control, chaos } => goto(
            e,
            Stage::Removing { control, chaos },
            RequestView::Remove,
        ),
        Stage::Removing { control, chaos } => match r {
            ReplyView::Done(Ok(())) => MoveView::Finish(Ok(ExperimentSummary { control, chaos })),
            ReplyView::Done(Err(x)) => MoveView::Finish(Err(x)),
            ReplyView::Measured(_) => goto(e, e.stage, RequestView::Remove),
        },
    }
}

/// The requests of an experiment from move `m` on, given the replies to
/// them in order, and its result if it ends before the replies run out.
pub open spec fn run_requests<S, A: StorageAdapter>(a: A, m: MoveView<S>, replies: Seq<ReplyView<S>>) -> (
    Seq<RequestView>,
    Option<Result<ExperimentSummary<S>, Seq<char>>>,
)
    decreases replies.len(),
{
    match m {
        MoveView::Finish(r) => (Seq::empty(), Some(r)),
        MoveView::Continue(e, req) => if replies.len() == 0 {
            (seq![req], None)
        } else {
            let rest = run_requests(a, next_move(a, e, replies[0]), replies.drop_first());
            (seq![req] + rest.0, rest.1)
        },
    }
}

/// A reply that a step succeeded.
pub open spec fn succeeded<S>(r: ReplyView<S>) -> bool {
    r matches ReplyView::Done(Ok(_))
}

/// The stages at which the fault is in place.
pub open spec fn fault_applied<S>(stage: Stage<S>) -> bool {
    ||| stage is ChaosAnnounced
    ||| stage is MeasuringChaos
    ||| stage is RemoveAnnounced
    ||| stage is Removing
}

/// The stages that wait for a step to succeed or fail.
pub open spec fn awaits_step<S>(stage: Stage<S>) -> bool {
    ||| stage is Cleaning
    ||| stage is Applying
    ||| stage is Removing
}

/// The stages that wait for a measurement.
pub open spec fn awaits_measurement<S>(stage: Stage<S>) -> bool {
    ||| stage is MeasuringControl
    ||| stage is MeasuringChaos
}

/// An experiment in which every step succeeds runs the control measurement
/// on the configured device, applies the fault, runs the chaos measurement
/// where the adapter says, removes the fault, and ends with the two
/// measurements: control first, chaos second.
pub proof fn lemma_successful_experiment<S, A: StorageAdapter>(
    a: A,
    device: Seq<char>,
    runtime_sec: nat,
    control: S,
    chaos: S,
)
    ensures
        run_requests(
            a,
            first_move::<S>(device, runtime_sec),
            seq![
                ReplyView::Done(Ok(())),
                ReplyView::Done(Ok(())),
                ReplyView::Measured(Ok(control)),
                ReplyView::Done(Ok(())),
                ReplyView::Done(Ok(())),
                ReplyView::Done(Ok(())),
                ReplyView::Measured(Ok(chaos)),
                ReplyView::Done(Ok(())),
                ReplyView::Done(Ok(())),
            ],
        ) == (
            seq![
                RequestView::Say(control_message()),
                RequestView::Clean,
                RequestView::Measure { device_path: device, runtime_sec },
                RequestView::Say(a.apply_message()),
                RequestView::Apply,
                RequestView::Say(chaos_message()),
                RequestView::Measure { device_path: a.chaos_path(), runtime_sec },
                RequestView::Say(a.remove_message()),
                RequestView::Remove,
            ],
            Some(Ok::<ExperimentSummary<S>, Seq<char>>(ExperimentSummary { control, chaos })),
        ),
{
    let replies = seq![
        ReplyView::Done(Ok(())),
        ReplyView::Done(Ok(())),
        ReplyView::Measured(Ok(control)),
        ReplyView::Done(Ok(())),
        ReplyView::Done(Ok(())),
        ReplyView::Done(Ok(())),
        ReplyView::Measured(Ok(chaos)),
        ReplyView::Done(Ok(())),
        ReplyView::Done(Ok(())),
    ];
    let m = first_move::<S>(device, runtime_sec);
    reveal_with_fuel(run_requests, 11);
    assert(run_requests(a, m, replies).0 =~= seq![
        RequestView::Say(control_message()),
        RequestView::Clean,
        RequestView::Measure { device_path: device, runtime_sec },
        RequestView::Say(a.apply_message()),
        RequestView::Apply,
        RequestView::Say(chaos_message()),
        RequestView::Measure { device_path: a.chaos_path(), runtime_sec },
        RequestView::Say(a.remove_message()),
        RequestView::Remove,
    ]);
}

/// How one move goes: a failed step or measurement that the experiment
/// waits for ends it with that error; it ends with an error only then; it
/// ends with a summary only when the fault's removal succeeds, and the
/// summary holds the measurements taken; the fault is in place only after
/// its application succeeded, and its removal is asked for only while it
/// is in place; the control measurement is taken on the configured device
/// before the fault is applied, and the chaos measurement where the
/// adapter says while it is in place, both for the configured time.
pub proof fn lemma_experiment_step<S, A: StorageAdapter>(a: A, e: ExperimentView<S>, r: ReplyView<S>)
    ensures
        forall|x: Seq<char>|
            (awaits_step(e.stage) && r == ReplyView::<S>::Done(Err(x))) || (awaits_measurement(
                e.stage,
            ) && r == ReplyView::<S>::Measured(Err(x))) ==> next_move(a, e, r) == MoveView::<
                S,
            >::Finish(Err(x)),
        match next_move(a, e, r) {
            MoveView::Finish(Err(x)) => r == ReplyView::<S>::Done(Err(x)) || r
                == ReplyView::<S>::Measured(Err(x)),
            MoveView::Finish(Ok(sum)) => succeeded(r) && e.stage == (
            Stage::Removing { control: sum.control, chaos: sum.chaos }),
            MoveView::Continue(e2, req) => {
                &&& e2.device == e.device
                &&& e2.runtime_sec == e.runtime_sec
                &&& fault_applied(e2.stage) ==> fault_applied(e.stage) || (e.stage is Applying
                    && succeeded(r))
                &&& req is Remove ==> fault_applied(e2.stage)
                &&& req is Apply ==> e2.stage is Applying
                &&& match req {
                    RequestView::Measure { device_path, runtime_sec } => runtime_sec
                        == e.runtime_sec && ((e2.stage is MeasuringControl && device_path
                        == e.device) || (e2.stage is MeasuringChaos && device_path
                        == a.chaos_path())),
                    _ => true,
                }
            },
        },
{
}

impl<S> Experiment<S> {
    /// Starts an experiment configured by `cfg`: the control run is
    /// announced.
    pub fn start(cfg: &ExperimentConfig) -> (m: Move<S>)
        ensures
            m@ == first_move::<S>(cfg.device@, cfg.fio.runtime_sec as nat),
    {
        Move::Continue(
            Experiment {
                stage: Stage::ControlAnnounced,
                device: cfg.device.clone(),
                runtime_sec: cfg.fio.runtime_sec,
            },
            Request::Say("Running control..."),
        )
    }

    fn measure_control(&self) -> (r: Request)
        ensures
            r@ == measure_control(self@),
    {
        Request::Measure { device_path: self.device.clone(), runtime_sec: self.runtime_sec }
    }

    fn measure_chaos<A: StorageAdapter>(&self, adapter: &A) -> (r: Request)
        ensures
            r@ == measure_chaos(*adapter, self@),
    {
        Request::Measure { device_path: adapter.chaos_device_path(), runtime_sec: self.runtime_sec }
    }

    /// Moves the experiment on with the reply to its last request; the
    /// adapter says where the chaos run measures and what is announced.
    pub fn resume<A: StorageAdapter>(self, adapter: &A, reply: Reply<S>) -> (m: Move<S>)
        ensures
            m@ == next_move(*adapter, self@, reply@),
    {
        let Experiment { stage, device, runtime_sec } = self;
        match stage {
            Stage::ControlAnnounced => Move::Continue(
                Experiment { stage: Stage::Cleaning, device, runtime_sec },
                Request::Clean,
            ),
            Stage::Cleaning => match reply {
                Reply::Done(Ok(())) => {
                    let e = Experiment { stage: Stage::MeasuringControl, device, runtime_sec };
                    let req = e.measure_control();
                    Move::Continue(e, req)
                },
                Reply::Done(Err(x)) => Move::Finish(Err(x)),
                Reply::Measured(_) => Move::Continue(
                    Experiment { stage: Stage::Cleaning, device, runtime_sec },
                    Request::Clean,
                ),
            },
            Stage::MeasuringControl => match reply {
                Reply::Measured(Ok(control)) => Move::Continue(
                    Experiment { stage: Stage::ApplyAnnounced { control }, device, runtime_sec },
                    Request::Say(adapter.apply_label()),
                ),
                Reply::Measured(Err(x)) => Move::Finish(Err(x)),
                Reply::Done(_) => {
                    let e = Experiment { stage: Stage::MeasuringControl, device, runtime_sec };
                    let req = e.measure_control();
                    Move::Continue(e, req)
                },
            },
            Stage::ApplyAnnounced { control } => Move::Continue(
                Experiment { stage: Stage::Applying { control }, device, runtime_sec },
                Request::Apply,
            ),
            Stage::Applying { control } => match reply {
                Reply::Done(Ok(())) => Move::Continue(
                    Experiment { stage: Stage::ChaosAnnounced { control }, device, runtime_sec },
                    Request::Say("Running chaos..."),
                ),
                Reply::Done(Err(x)) => Move::Finish(Err(x)),
                Reply::Measured(_) => Move::Continue(
                    Experiment { stage: Stage::Applying { control }, device, runtime_sec },
                    Request::Apply,
                ),
            },
            Stage::ChaosAnnounced { control } => {
                let e = Experiment { stage: Stage::MeasuringChaos { control }, device, runtime_sec };
                let req = e.measure_chaos(adapter);
                Move::Continue(e, req)
            },
            Stage::MeasuringChaos { control } => match reply {
                Reply::Measured(Ok(chaos)) => Move::Continue(
                    Experiment {
                        stage: Stage::RemoveAnnounced { control, chaos },
                        device,
                        runtime_sec,
                    },
                    Request::Say(adapter.remove_label()),
                ),
                Reply::Measured(Err(x)) => Move::Finish(Err(x)),
                Reply::Done(_) => {
                    let e = Experiment { stage: Stage::MeasuringChaos { control }, device, runtime_sec };
                    let req = e.measure_chaos(adapter);
                    Move::Continue(e, req)
                },
            },
            Stage::RemoveAnnounced { control, chaos } => Move::Continue(
                Experiment { stage: Stage::Removing { control, chaos }, device, runtime_sec },
                Request::Remove,
            ),
            Stage::Removing { control, chaos } => match reply {
                Reply::Done(Ok(())) => Move::Finish(Ok(ExperimentSummary { control, chaos })),
                Reply::Done(Err(x)) => Move::Finish(Err(x)),
                Reply::Measured(_) => Move::Continue(
                    Experiment { stage: Stage::Removing { control, chaos }, device, runtime_sec },
                    Request::Remove,
                ),
            },
        }
    }
}

} // verus!
