//! Getting hold of a process: which rights to ask the host for, in what
//! order, and what counts as a handle.

use vstd::prelude::*;
use crate::types::Pid;

verus! {

/// The rights that a handle was opened with.
#[derive(Clone, Copy, Debug, PartialEq, Eq, Structural)]
pub enum Access {
    /// Query and memory-read rights: everything can be asked.
    Full,
    /// The limited query right alone: a degraded handle, good for coarse
    /// metrics and for nothing that reads the target's memory.
    Limited,
}

/// Whether the host's `HANDLE` type takes the value for no handle at all.
pub open spec fn is_invalid_handle(raw: isize) -> bool {
    raw == -1 || raw == 0
}

/// Calls `HANDLE::is_invalid` of the `windows` crate on a handle of the
/// given value: it holds of the values -1 and 0 and of no other.
#[verifier::external_body]
fn handle_is_invalid(raw: isize) -> (invalid: bool)
    ensures
        invalid == is_invalid_handle(raw),
{
    windows::Win32::Foundation::HANDLE(raw).is_invalid()
}

/// A handle to one process, with the rights it was opened with. The value
/// is never that of an invalid handle.
#[derive(Debug)]
pub struct HandleWrapper {
    raw: isize,
    access: Access,
}

impl HandleWrapper {
    #[verifier::type_invariant]
    spec fn holds_handle(self) -> bool {
        !is_invalid_handle(self.raw)
    }

    /// The host's value of the handle.
    pub closed spec fn value(self) -> isize {
        self.raw
    }

    /// The rights that the handle was opened with.
    pub closed spec fn rights(self) -> Access {
        self.access
    }

    /// Wraps what an open call returned, unless that is no handle.
    pub fn new(raw: isize, access: Access) -> (wrapped: Option<HandleWrapper>)
        ensures
            match wrapped {
                Some(handle) => !is_invalid_handle(raw) && handle.value() == raw
                    && handle.rights() == access,
                None => is_invalid_handle(raw),
            },
    {
        if handle_is_invalid(raw) {
            None
        } else {
            Some(HandleWrapper { raw, access })
        }
    }

    pub fn raw(&self) -> (raw: isize)
        ensures
            raw == self.value(),
            !is_invalid_handle(raw),
    {
        proof {
            use_type_invariant(self);
        }
        self.raw
    }

    pub fn access(&self) -> (access: Access)
        ensures
            access == self.rights(),
    {
        self.access
    }

    /// Whether the handle is a degraded one.
    pub fn is_degraded(&self) -> (degraded: bool)
        ensures
            degraded == (self.rights() == Access::Limited),
    {
        match self.access {
            Access::Limited => true,
            Access::Full => false,
        }
    }
}

/// Where the opening of a process stands.
#[derive(Debug)]
pub enum OpenStep {
    /// Ask the host to open the process with these rights.
    Try(Access),
    /// The process is open.
    Opened(HandleWrapper),
    /// The process cannot be reached: it is gone, or no rights were granted.
    Unreachable,
}

/// An `OpenStep` as plain values.
pub enum OpenStepView {
    Try(Access),
    Opened { raw: isize, access: Access },
    Unreachable,
}

impl View for OpenStep {
    type V = OpenStepView;

    open spec fn view(&self) -> OpenStepView {
        match *self {
            OpenStep::Try(access) => OpenStepView::Try(access),
            OpenStep::Opened(handle) => OpenStepView::Opened {
                raw: handle.value(),
                access: handle.rights(),
            },
            OpenStep::Unreachable => OpenStepView::Unreachable,
        }
    }
}

/// The first step of opening `pid`: identifier zero is no process; any
/// other is first tried with full rights.
pub open spec fn open_first(pid: Pid) -> OpenStepView {
    if pid.0 == 0 {
        OpenStepView::Unreachable
    } else {
        OpenStepView::Try(Access::Full)
    }
}

/// The step that follows when the host answered `raw` to an open call with
/// the rights `tried`: a handle ends the opening; a refusal of full rights
/// is followed by one attempt with limited rights, and a refusal of those
/// ends it.
pub open spec fn open_next(tried: Access, raw: isize) -> OpenStepView {
    if !is_invalid_handle(raw) {
        OpenStepView::Opened { raw, access: tried }
    } else if tried == Access::Full {
        OpenStepView::Try(Access::Limited)
    } else {
        OpenStepView::Unreachable
    }
}

/// Where opening stands after the host's answers, taken in order. Answers
/// that come after the end change nothing.
pub open spec fn open_run(step: OpenStepView, answers: Seq<isize>) -> OpenStepView
    decreases answers.len(),
{
    if answers.len() == 0 {
        step
    } else {
        match step {
            OpenStepView::Try(access) => open_run(
                open_next(access, answers[0]),
                answers.drop_first(),
            ),
            _ => step,
        }
    }
}

/// Starts opening the process `pid`.
pub fn get_process_handler(pid: Pid) -> (step: OpenStep)
    ensures
        step@ == open_first(pid),
{
    if pid.0 == 0 {
        OpenStep::Unreachable
    } else {
        OpenStep::Try(Access::Full)
    }
}

/// Takes the host's answer to an open call with the rights `tried` and says
/// how opening goes on.
pub fn get_process_handler_next(tried: Access, raw: isize) -> (step: OpenStep)
    ensures
        step@ == open_next(tried, raw),
{
    match HandleWrapper::new(raw, tried) {
        Some(handle) => OpenStep::Opened(handle),
        None => match tried {
            Access::Full => OpenStep::Try(Access::Limited),
            Access::Limited => OpenStep::Unreachable,
        },
    }
}

/// Opening takes two answers at most, and its end after two is this: the
/// first handle that the host granted, with full rights if it was the first
/// answer and limited rights if it was the second; an unreachable process if
/// neither answer was a handle, or if the identifier is zero.
pub proof fn lemma_open_outcome(pid: Pid, full: isize, limited: isize)
    ensures
        open_run(open_first(pid), seq![full, limited]) == (if pid.0 == 0 {
            OpenStepView::Unreachable
        } else if !is_invalid_handle(full) {
            OpenStepView::Opened { raw: full, access: Access::Full }
        } else if !is_invalid_handle(limited) {
            OpenStepView::Opened { raw: limited, access: Access::Limited }
        } else {
            OpenStepView::Unreachable
        }),
{
    reveal_with_fuel(open_run, 3);
    let answers = seq![full, limited];
    assert(answers.drop_first().drop_first().len() == 0);
    assert(answers.drop_first()[0] == limited);
}

} // verus!
