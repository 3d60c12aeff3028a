//! Running one command over SSH, as a sequence of steps. The caller performs each step on the
//! connection and reports how it went; the run decides the next step and the result. No state
//! is shared with the REST session.
use vstd::prelude::*;
use crate::error::SwitchError;

verus! {

/// The steps of one command over SSH, in order.
#[derive(Debug, Clone, Copy, PartialEq, Eq, Structural)]
pub enum SshStage {
    /// Open a TCP connection to port 22.
    Connect,
    Handshake,
    /// Authenticate with the password.
    Authenticate,
    OpenChannel,
    Execute,
    /// Read the command's output to its end.
    ReadOutput,
    /// Wait for the channel to close.
    AwaitClose,
    ReadExitStatus,
}

/// How a step went.
pub enum SshEvent {
    Failed,
    /// A step that yields nothing succeeded.
    Done,
    /// The whole output was read.
    Output(String),
    /// The exit status was read.
    Exit(i32),
}

/// The port that a run connects to.
pub const SSH_PORT: u16 = 22;

/// The error of a failed step.
pub open spec fn stage_error(stage: SshStage) -> SwitchError {
    match stage {
        SshStage::Connect => SwitchError::Connect,
        SshStage::Handshake => SwitchError::Handshake,
        SshStage::Authenticate => SwitchError::SshAuth,
        _ => SwitchError::Channel,
    }
}

/// The step after one that yields nothing.
pub open spec fn following(stage: SshStage) -> SshStage {
    match stage {
        SshStage::Connect => SshStage::Handshake,
        SshStage::Handshake => SshStage::Authenticate,
        SshStage::Authenticate => SshStage::OpenChannel,
        SshStage::OpenChannel => SshStage::Execute,
        SshStage::Execute => SshStage::ReadOutput,
        SshStage::ReadOutput => SshStage::AwaitClose,
        SshStage::AwaitClose => SshStage::ReadExitStatus,
        SshStage::ReadExitStatus => SshStage::ReadExitStatus,
    }
}

pub enum SshNextView {
    Continue(SshStage, Seq<char>),
    Finish(Result<Seq<char>, SwitchError>),
}

/// What follows `event` at `stage`, with `output` read so far. A step that reports what
/// another step yields has failed.
pub open spec fn ssh_next(stage: SshStage, output: Seq<char>, event: SshEvent) -> SshNextView {
    match stage {
        SshStage::ReadOutput => match event {
            SshEvent::Output(s) => SshNextView::Continue(SshStage::AwaitClose, s@),
            _ => SshNextView::Finish(Err(SwitchError::Channel)),
        },
        SshStage::ReadExitStatus => match event {
            SshEvent::Exit(code) => SshNextView::Finish(
                if code == 0 {
                    Ok(output)
                } else {
                    Err(SwitchError::NonZeroExit { status: code })
                },
            ),
            _ => SshNextView::Finish(Err(SwitchError::Channel)),
        },
        _ => match event {
            SshEvent::Done => SshNextView::Continue(following(stage), output),
            _ => SshNextView::Finish(Err(stage_error(stage))),
        },
    }
}

/// Where a run stands.
pub struct SshRun {
    pub stage: SshStage,
    /// The output, once read.
    pub output: String,
}

pub enum SshNext {
    /// Perform `run.stage` next.
    Continue(SshRun),
    /// The run is over.
    Finish(Result<String, SwitchError>),
}

impl View for SshNext {
    type V = SshNextView;

    open spec fn view(&self) -> SshNextView {
        match self {
            SshNext::Continue(run) => SshNextView::Continue(run.stage, run.output@),
            SshNext::Finish(Ok(s)) => SshNextView::Finish(Ok(s@)),
            SshNext::Finish(Err(e)) => SshNextView::Finish(Err(*e)),
        }
    }
}

impl SshRun {
    pub fn start() -> (r: SshRun)
        ensures
            r.stage == SshStage::Connect,
            r.output@ == Seq::<char>::empty(),
    {
        SshRun { stage: SshStage::Connect, output: String::new() }
    }

    /// Takes in how the current step went.
    pub fn advance(self, event: SshEvent) -> (r: SshNext)
        ensures
            r@ == ssh_next(self.stage, self.output@, event),
    {
        let stage = self.stage;
        match stage {
            SshStage::ReadOutput => match event {
                SshEvent::Output(s) => SshNext::Continue(SshRun { stage: SshStage::AwaitClose, output: s }),
                _ => SshNext::Finish(Err(SwitchError::Channel)),
            },
            SshStage::ReadExitStatus => match event {
                SshEvent::Exit(code) => SshNext::Finish(
                    if code == 0 {
                        Ok(self.output)
                    } else {
                        Err(SwitchError::NonZeroExit { status: code })
                    },
                ),
                _ => SshNext::Finish(Err(SwitchError::Channel)),
            },
            _ => match event {
                SshEvent::Done => {
                    let next = match stage {
                        SshStage::Connect => SshStage::Handshake,
                        SshStage::Handshake => SshStage::Authenticate,
                        SshStage::Authenticate => SshStage::OpenChannel,
                        SshStage::OpenChannel => SshStage::Execute,
                        SshStage::Execute => SshStage::ReadOutput,
                        SshStage::AwaitClose => SshStage::ReadExitStatus,
                        _ => stage,
                    };
                    SshNext::Continue(SshRun { stage: next, output: self.output })
                },
                _ => SshNext::Finish(
                    Err(
                        match stage {
                            SshStage::Connect => SwitchError::Connect,
                            SshStage::Handshake => SwitchError::Handshake,
                            SshStage::Authenticate => SwitchError::SshAuth,
                            _ => SwitchError::Channel,
                        },
                    ),
                ),
            },
        }
    }
}

/// Where a run that stands at `stage` with `output` ends up after `events`, one at a time; a
/// finished run ignores what follows.
pub open spec fn ssh_run(stage: SshStage, output: Seq<char>, events: Seq<SshEvent>) -> SshNextView
    decreases events.len(),
{
    if events.len() == 0 {
        SshNextView::Continue(stage, output)
    } else {
        match ssh_next(stage, output, events[0]) {
            SshNextView::Continue(st, out) => ssh_run(st, out, events.drop_first()),
            done => done,
        }
    }
}

/// The events of a run in which every step succeeds, the output is `output` and the exit
/// status `code`.
pub open spec fn clean_run(output: String, code: i32) -> Seq<SshEvent> {
    seq![
        SshEvent::Done,
        SshEvent::Done,
        SshEvent::Done,
        SshEvent::Done,
        SshEvent::Done,
        SshEvent::Output(output),
        SshEvent::Done,
        SshEvent::Exit(code),
    ]
}

/// A command whose every step succeeded returns its output when it exits with 0, and ends in
/// `NonZeroExit` with its very status otherwise, though the output was read.
pub proof fn lemma_exit_status_kept(output: String, code: i32)
    ensures
        ssh_run(SshStage::Connect, Seq::empty(), clean_run(output, code)) == if code == 0 {
            SshNextView::Finish(Ok(output@))
        } else {
            SshNextView::Finish(Err(SwitchError::NonZeroExit { status: code }))
        },
{
    let e = clean_run(output, code);
    reveal_with_fuel(ssh_run, 9);
    assert(e.drop_first().drop_first().drop_first().drop_first().drop_first().drop_first().drop_first().drop_first() =~= Seq::<SshEvent>::empty());
}

} // verus!
