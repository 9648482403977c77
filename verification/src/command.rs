//! Commands the library asks to be run, the outcomes reported back, and the
//! steps of a procedure that drives them.

use vstd::prelude::*;

use crate::text::{lossy_text, utf8_lossy};

verus! {

/// A program and its arguments, to be spawned and waited for.
#[derive(Debug, Clone, PartialEq, Eq)]
pub struct CommandSpec {
    pub program: String,
    pub args: Vec<String>,
}

/// The contents of a [`CommandSpec`].
pub struct CommandView {
    pub program: Seq<char>,
    pub args: Seq<Seq<char>>,
}

impl View for CommandSpec {
    type V = CommandView;

    open spec fn view(&self) -> CommandView {
        CommandView { program: self.program@, args: self.args.deep_view() }
    }
}

/// A command run through `sudo` with the given arguments.
pub open spec fn sudo(args: Seq<Seq<char>>) -> CommandView {
    CommandView { program: "sudo"@, args }
}

/// Builds the command `sudo` with the given arguments.
pub fn sudo_command(args: Vec<String>) -> (c: CommandSpec)
    ensures
        c@ == sudo(args.deep_view()),
{
    CommandSpec { program: String::from_str("sudo"), args }
}

/// Appends a copy of `s` to a list of arguments.
pub fn push_arg(args: &mut Vec<String>, s: &str)
    ensures
        final(args).deep_view() == old(args).deep_view().push(s@),
{
    args.push(String::from_str(s));
    proof {
        assert(final(args).deep_view() =~= old(args).deep_view().push(s@));
    }
}

/// Something the program around the library is asked to do.
#[derive(Debug, Clone, PartialEq, Eq)]
pub enum Effect {
    /// Spawn the command and wait for it, capturing its output.
    Command(CommandSpec),
    /// Create a directory and all its missing parents.
    CreateDirAll(String),
    /// Remove a directory and everything under it.
    RemoveDirAll(String),
}

/// The contents of an [`Effect`].
pub enum EffectView {
    Command(CommandView),
    CreateDirAll(Seq<char>),
    RemoveDirAll(Seq<char>),
}

impl View for Effect {
    type V = EffectView;

    open spec fn view(&self) -> EffectView {
        match self {
            Effect::Command(c) => EffectView::Command(c@),
            Effect::CreateDirAll(p) => EffectView::CreateDirAll(p@),
            Effect::RemoveDirAll(p) => EffectView::RemoveDirAll(p@),
        }
    }
}

/// What came of an [`Effect`].
#[derive(Debug, Clone, PartialEq, Eq)]
pub enum Outcome {
    /// The effect could not be carried out (a command could not be spawned,
    /// a directory operation failed); the text of the error.
    Error(String),
    /// A command ran to its end.
    Exit { success: bool, stdout: Vec<u8>, stderr: Vec<u8> },
    /// A directory operation succeeded.
    Done,
}

/// The contents of an [`Outcome`].
pub enum OutcomeView {
    Error(Seq<char>),
    Exit { success: bool, stdout: Seq<u8>, stderr: Seq<u8> },
    Done,
}

impl View for Outcome {
    type V = OutcomeView;

    open spec fn view(&self) -> OutcomeView {
        match self {
            Outcome::Error(e) => OutcomeView::Error(e@),
            Outcome::Exit { success, stdout, stderr } => OutcomeView::Exit {
                success: *success,
                stdout: stdout@,
                stderr: stderr@,
            },
            Outcome::Done => OutcomeView::Done,
        }
    }
}

/// How far a procedure has come.
#[derive(Debug, Clone, PartialEq, Eq)]
pub struct Procedure {
    pub stage: u64,
}

/// The next move of a procedure: an effect to carry out, after which the
/// procedure resumes from the returned state with the outcome; or its end,
/// where the cleanup effects are carried out in order, whatever comes of
/// them, and then the result stands.
#[derive(Debug, PartialEq, Eq)]
pub enum Next {
    Continue(Procedure, Effect),
    Finish { cleanup: Vec<Effect>, result: Result<(), String> },
}

/// The contents of a [`Next`].
pub enum NextView {
    Continue(nat, EffectView),
    Finish { cleanup: Seq<EffectView>, result: Result<(), Seq<char>> },
}

/// The effects of a procedure from move `m` on, given the outcomes of its
/// effects in order, with `next` the procedure's moves; and, if it ends
/// before the outcomes run out, its cleanup effects and result.
pub open spec fn drive(
    next: spec_fn(nat, OutcomeView) -> NextView,
    m: NextView,
    outcomes: Seq<OutcomeView>,
) -> (Seq<EffectView>, Option<(Seq<EffectView>, Result<(), Seq<char>>)>)
    decreases outcomes.len(),
{
    match m {
        NextView::Finish { cleanup, result } => (Seq::empty(), Some((cleanup, result))),
        NextView::Continue(stage, e) => if outcomes.len() == 0 {
            (seq![e], None)
        } else {
            let rest = drive(next, next(stage, outcomes[0]), outcomes.drop_first());
            (seq![e] + rest.0, rest.1)
        },
    }
}

/// The outcome of a command that succeeded with the given output.
pub open spec fn exit_ok(stdout: Seq<u8>) -> OutcomeView {
    OutcomeView::Exit { success: true, stdout, stderr: Seq::empty() }
}

/// The contents of a list of effects.
pub open spec fn effects_view(v: Seq<Effect>) -> Seq<EffectView> {
    v.map_values(|e: Effect| e@)
}

/// The contents of a result without a value.
pub open spec fn unit_result_view(r: Result<(), String>) -> Result<(), Seq<char>> {
    match r {
        Ok(()) => Ok(()),
        Err(e) => Err(e@),
    }
}

impl View for Next {
    type V = NextView;

    open spec fn view(&self) -> NextView {
        match self {
            Next::Continue(p, e) => NextView::Continue(p.stage as nat, e@),
            Next::Finish { cleanup, result } => NextView::Finish {
                cleanup: effects_view(cleanup@),
                result: unit_result_view(*result),
            },
        }
    }
}

/// The command `sudo` with the given arguments, as an effect.
pub open spec fn sudo_effect(args: Seq<Seq<char>>) -> EffectView {
    EffectView::Command(sudo(args))
}

/// Builds the effect of running `sudo` with the given arguments.
pub fn sudo_run(args: Vec<String>) -> (e: Effect)
    ensures
        e@ == sudo_effect(args.deep_view()),
{
    Effect::Command(sudo_command(args))
}

/// An empty list of effects.
pub fn no_effects() -> (v: Vec<Effect>)
    ensures
        effects_view(v@) == Seq::<EffectView>::empty(),
{
    let v: Vec<Effect> = Vec::new();
    proof {
        assert(effects_view(v@) =~= Seq::<EffectView>::empty());
    }
    v
}

/// Appends an effect to a list of effects.
pub fn push_effect(v: &mut Vec<Effect>, e: Effect)
    ensures
        effects_view(final(v)@) == effects_view(old(v)@).push(e@),
{
    let ghost ev = e@;
    v.push(e);
    proof {
        assert(effects_view(final(v)@) =~= effects_view(old(v)@).push(ev));
    }
}

/// How a command's outcome reads when the command must succeed: its
/// standard output on success, else the error text or its standard error.
/// A `Done` counts as a success with no output.
pub open spec fn checked_output(o: OutcomeView) -> Result<Seq<char>, Seq<char>> {
    match o {
        OutcomeView::Error(e) => Err(e),
        OutcomeView::Exit { success, stdout, stderr } => if success {
            Ok(utf8_lossy(stdout))
        } else {
            Err(utf8_lossy(stderr))
        },
        OutcomeView::Done => Ok(Seq::empty()),
    }
}

/// Reads a command's outcome when the command must succeed: the error
/// text, or standard error on a failed exit, or standard output.
pub fn run_cmd(o: &Outcome) -> (r: Result<String, String>)
    ensures
        match (r, checked_output(o@)) {
            (Ok(s), Ok(t)) => s@ == t,
            (Err(s), Err(t)) => s@ == t,
            _ => false,
        },
{
    match o {
        Outcome::Error(e) => Err(e.clone()),
        Outcome::Exit { success, stdout, stderr } => if *success {
            Ok(lossy_text(stdout.as_slice()))
        } else {
            Err(lossy_text(stderr.as_slice()))
        },
        Outcome::Done => Ok(String::new()),
    }
}

} // verus!
