//! The exchange between a command and the host that owns the window.
//!
//! A command never touches the window. It names the next native call, the
//! host makes that call and reports what came back, and the command says
//! what follows. What a command has been answered so far is all the state
//! there is: the host starts with no answers, adds the answer to each call
//! it is asked to make, and stops when the command ends.

use vstd::prelude::*;

verus! {

/// A native call on the window, for the host to make.
#[derive(Clone, Copy, Debug, PartialEq, Eq)]
pub enum Call {
    /// Set or clear the stay-on-top attribute.
    SetAlwaysOnTop { enabled: bool },
    /// Obtain the native handle of the window.
    NativeHandle,
    /// Read the extended style bits.
    ReadExStyle,
    /// Replace the extended style bits.
    WriteExStyle { ex_style: i32 },
    /// Set the alpha of the whole layered window.
    WriteAlpha { alpha: u8 },
    /// Set the size of the window in logical units.
    SetLogicalSize { width: u32, height: u32 },
    /// Center the window on its display.
    Center,
    /// Read the inner size of the window.
    InnerSize,
    /// Read the outer position of the window.
    OuterPosition,
    /// Read the stay-on-top attribute.
    IsAlwaysOnTop,
}

/// What came back from a native call.
#[derive(Debug, PartialEq, Eq)]
pub enum Answer {
    /// The call returned, with nothing to report.
    Done,
    /// The extended style bits that were read.
    ExStyle { ex_style: i32 },
    /// The size that was read.
    Size { width: u32, height: u32 },
    /// The position that was read.
    Position { x: i32, y: i32 },
    /// The stay-on-top attribute that was read.
    AlwaysOnTop { enabled: bool },
    /// The call failed; the window manager's description of the failure.
    Failed { description: String },
}

/// What a command says after the answers it has been given.
#[derive(Debug, PartialEq, Eq)]
pub enum Step<T> {
    /// The host is to make this call and come back with its answer.
    Perform(Call),
    /// The command has ended, with this result.
    Finish(Result<T, String>),
}

impl Answer {
    /// The description of the failure, where the call failed.
    pub fn failure(&self) -> (description: Option<String>)
        ensures
            description == if self is Failed {
                Some(self->description)
            } else {
                None
            },
    {
        match self {
            Answer::Failed { description } => Some(description.clone()),
            _ => None,
        }
    }
}

impl Call {
    /// Whether the call changes anything about the window.
    pub open spec fn changes_window(self) -> bool {
        match self {
            Call::SetAlwaysOnTop { .. } => true,
            Call::WriteExStyle { .. } => true,
            Call::WriteAlpha { .. } => true,
            Call::SetLogicalSize { .. } => true,
            Call::Center => true,
            _ => false,
        }
    }

    /// Whether `answer` is one that this call can be given: what the call
    /// is made for, or a failure. Every call can fail.
    pub open spec fn accepts(self, answer: Answer) -> bool {
        match self {
            Call::ReadExStyle => answer is ExStyle || answer is Failed,
            Call::InnerSize => answer is Size || answer is Failed,
            Call::OuterPosition => answer is Position || answer is Failed,
            Call::IsAlwaysOnTop => answer is AlwaysOnTop || answer is Failed,
            _ => answer is Done || answer is Failed,
        }
    }

    /// Tells whether `answer` is one that this call can be given.
    pub fn is_answered_by(&self, answer: &Answer) -> (accepted: bool)
        ensures
            accepted == self.accepts(*answer),
    {
        match answer {
            Answer::Failed { .. } => true,
            Answer::Done => match self {
                Call::ReadExStyle => false,
                Call::InnerSize => false,
                Call::OuterPosition => false,
                Call::IsAlwaysOnTop => false,
                _ => true,
            },
            Answer::ExStyle { .. } => match self {
                Call::ReadExStyle => true,
                _ => false,
            },
            Answer::Size { .. } => match self {
                Call::InnerSize => true,
                _ => false,
            },
            Answer::Position { .. } => match self {
                Call::OuterPosition => true,
                _ => false,
            },
            Answer::AlwaysOnTop { .. } => match self {
                Call::IsAlwaysOnTop => true,
                _ => false,
            },
        }
    }
}

/// Whether `answers` can be the answers to the first calls of `calls`, made
/// in order: each answer is one that its call can be given, and no call was
/// made after one that failed.
pub open spec fn is_transcript(calls: Seq<Call>, answers: Seq<Answer>) -> bool {
    &&& answers.len() <= calls.len()
    &&& forall|i: int| 0 <= i < answers.len() ==> (#[trigger] calls[i]).accepts(answers[i])
    &&& forall|i: int| 0 <= i < answers.len() - 1 ==> !(#[trigger] answers[i] is Failed)
}

/// What follows once the calls of `calls` have been answered by `answers`:
/// the failure of the last call made, which ends the command with its
/// description; else the next call; else success. `None` where `answers` is
/// no transcript of `calls`.
pub open spec fn next_step(calls: Seq<Call>, answers: Seq<Answer>) -> Option<Step<()>> {
    if !is_transcript(calls, answers) {
        None
    } else if answers.len() > 0 && answers.last() is Failed {
        Some(Step::Finish(Err(answers.last()->description)))
    } else if answers.len() < calls.len() {
        Some(Step::Perform(calls[answers.len() as int]))
    } else {
        Some(Step::Finish(Ok(())))
    }
}

/// Follows `calls` through the answers given so far.
pub fn follow(calls: &Vec<Call>, answers: &Vec<Answer>) -> (step: Option<Step<()>>)
    ensures
        step == next_step(calls@, answers@),
{
    let given = answers.len();
    if given > calls.len() {
        return None;
    }
    let mut i: usize = 0;
    while i < given
        invariant
            given == answers.len(),
            given <= calls.len(),
            i <= given,
            forall|j: int| 0 <= j < i ==> (#[trigger] calls@[j]).accepts(answers@[j]),
            forall|j: int| 0 <= j < i ==> !(#[trigger] answers@[j] is Failed),
        decreases given - i,
    {
        let call = calls[i];
        if !call.is_answered_by(&answers[i]) {
            return None;
        }
        match answers[i].failure() {
            Some(description) => {
                if i + 1 == given {
                    return Some(Step::Finish(Err(description)));
                } else {
                    return None;
                }
            },
            None => {},
        }
        i += 1;
    }
    if given < calls.len() {
        Some(Step::Perform(calls[given]))
    } else {
        Some(Step::Finish(Ok(())))
    }
}

} // verus!
