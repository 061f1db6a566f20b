//! One-time setup of the diagnostic console.
//!
//! The console may be asked for from several entry points. The first request
//! is answered with `Allocate` and every later one with `Nothing`, so the
//! allocation is attempted once in the lifetime of the loaded module. The
//! setup is changed through `&mut`, so callers on several threads have to
//! share it behind a lock, and their requests reach it one after another.

use crate::error::HookError;
use vstd::prelude::*;

verus! {

/// How far the console setup has come.
#[derive(Clone, Copy, Debug, PartialEq, Eq, Structural)]
pub enum ConsolePhase {
    /// Nobody has asked for the console yet.
    Untouched,
    /// The allocation has been asked for and its result is awaited.
    Allocating,
    /// The console is allocated.
    Ready,
    /// The allocation failed; the module runs without a console of its own.
    Unavailable,
}

/// What the caller has to do for the console.
#[derive(Clone, Copy, Debug, PartialEq, Eq, Structural)]
pub enum ConsoleAction {
    /// Allocate the console and report the result.
    Allocate,
    /// Switch on colour support in the console just allocated.
    EnableColors,
    /// Nothing to do.
    Nothing,
}

/// One call on the console setup.
#[derive(Clone, Copy, Debug, PartialEq, Eq, Structural)]
pub enum ConsoleCall {
    /// A request that the console be there.
    Ensure,
    /// The report of how the allocation went.
    AllocationFinished { allocated: bool },
}

/// The answer to a call, given the phase the setup is in.
pub open spec fn answer(phase: ConsolePhase, call: ConsoleCall) -> Result<
    ConsoleAction,
    HookError,
> {
    match call {
        ConsoleCall::Ensure => if phase == ConsolePhase::Untouched {
            Ok(ConsoleAction::Allocate)
        } else {
            Ok(ConsoleAction::Nothing)
        },
        ConsoleCall::AllocationFinished { allocated } => if phase != ConsolePhase::Allocating {
            Ok(ConsoleAction::Nothing)
        } else if allocated {
            Ok(ConsoleAction::EnableColors)
        } else {
            Err(HookError::ConsoleAlreadyPresent)
        },
    }
}

/// The phase after a call.
pub open spec fn phase_after(phase: ConsolePhase, call: ConsoleCall) -> ConsolePhase {
    match call {
        ConsoleCall::Ensure => if phase == ConsolePhase::Untouched {
            ConsolePhase::Allocating
        } else {
            phase
        },
        ConsoleCall::AllocationFinished { allocated } => if phase != ConsolePhase::Allocating {
            phase
        } else if allocated {
            ConsolePhase::Ready
        } else {
            ConsolePhase::Unavailable
        },
    }
}

/// The phase after a series of calls.
pub open spec fn phase_through(phase: ConsolePhase, calls: Seq<ConsoleCall>) -> ConsolePhase
    decreases calls.len(),
{
    if calls.len() == 0 {
        phase
    } else {
        phase_after(phase_through(phase, calls.drop_last()), calls.last())
    }
}

/// How many of a series of calls are answered with `action`.
pub open spec fn answers_with(
    phase: ConsolePhase,
    calls: Seq<ConsoleCall>,
    action: ConsoleAction,
) -> nat
    decreases calls.len(),
{
    if calls.len() == 0 {
        0
    } else {
        let earlier = calls.drop_last();
        if answer(phase_through(phase, earlier), calls.last()) == Ok::<ConsoleAction, HookError>(
            action,
        ) {
            answers_with(phase, earlier, action) + 1
        } else {
            answers_with(phase, earlier, action)
        }
    }
}

/// How many allocation attempts a series of calls leads to.
pub open spec fn allocations(phase: ConsolePhase, calls: Seq<ConsoleCall>) -> nat {
    answers_with(phase, calls, ConsoleAction::Allocate)
}

/// The one-time setup of the console: it lets one allocation through.
#[derive(Debug)]
pub struct ConsoleSetup {
    phase: ConsolePhase,
}

impl View for ConsoleSetup {
    type V = ConsolePhase;

    closed spec fn view(&self) -> ConsolePhase {
        self.phase
    }
}

impl ConsoleSetup {
    /// A setup that nobody has asked anything of yet.
    pub fn new() -> (setup: ConsoleSetup)
        ensures
            setup@ == ConsolePhase::Untouched,
    {
        ConsoleSetup { phase: ConsolePhase::Untouched }
    }

    /// The phase the setup is in.
    pub fn phase(&self) -> (phase: ConsolePhase)
        ensures
            phase == self@,
    {
        self.phase
    }

    /// Asks that the console be there. The first call is answered with
    /// `Allocate`, every later one with `Nothing`.
    pub fn ensure_console_initialized(&mut self) -> (action: ConsoleAction)
        ensures
            Ok::<ConsoleAction, HookError>(action) == answer(old(self)@, ConsoleCall::Ensure),
            final(self)@ == phase_after(old(self)@, ConsoleCall::Ensure),
    {
        match self.phase {
            ConsolePhase::Untouched => {
                self.phase = ConsolePhase::Allocating;
                ConsoleAction::Allocate
            },
            _ => ConsoleAction::Nothing,
        }
    }

    /// Takes the report of the allocation that `Allocate` asked for. A console
    /// that could not be allocated is a fault to report, not a reason to stop,
    /// and no second allocation is asked for either way.
    pub fn allocation_finished(&mut self, allocated: bool) -> (outcome: Result<
        ConsoleAction,
        HookError,
    >)
        ensures
            outcome == answer(old(self)@, ConsoleCall::AllocationFinished { allocated }),
            final(self)@ == phase_after(old(self)@, ConsoleCall::AllocationFinished { allocated }),
    {
        match self.phase {
            ConsolePhase::Allocating => {
                if allocated {
                    self.phase = ConsolePhase::Ready;
                    Ok(ConsoleAction::EnableColors)
                } else {
                    self.phase = ConsolePhase::Unavailable;
                    Err(HookError::ConsoleAlreadyPresent)
                }
            },
            _ => Ok(ConsoleAction::Nothing),
        }
    }
}

/// The setup only moves forward, and what a series of calls was answered
/// with can be read off the phases before and after it.
proof fn lemma_answers_by_phase(phase: ConsolePhase, calls: Seq<ConsoleCall>)
    ensures
        phase == ConsolePhase::Allocating ==> phase_through(phase, calls)
            != ConsolePhase::Untouched,
        phase == ConsolePhase::Ready ==> phase_through(phase, calls) == ConsolePhase::Ready,
        phase == ConsolePhase::Unavailable ==> phase_through(phase, calls)
            == ConsolePhase::Unavailable,
        allocations(phase, calls) == (if phase == ConsolePhase::Untouched && phase_through(
            phase,
            calls,
        ) != ConsolePhase::Untouched {
            1nat
        } else {
            0nat
        }),
        answers_with(phase, calls, ConsoleAction::EnableColors) == (if phase != ConsolePhase::Ready
            && phase_through(phase, calls) == ConsolePhase::Ready {
            1nat
        } else {
            0nat
        }),
    decreases calls.len(),
{
    if calls.len() > 0 {
        lemma_answers_by_phase(phase, calls.drop_last());
    }
}

/// Whatever calls reach a setup, in whatever order, at most one of them is
/// answered with `Allocate`; none is once the setup has left `Untouched`; and
/// it has left `Untouched` afterwards exactly if it had before or one was.
pub proof fn lemma_at_most_one_allocation(phase: ConsolePhase, calls: Seq<ConsoleCall>)
    ensures
        allocations(phase, calls) <= 1,
        phase != ConsolePhase::Untouched ==> allocations(phase, calls) == 0,
        (phase_through(phase, calls) != ConsolePhase::Untouched) == (phase
            != ConsolePhase::Untouched || allocations(phase, calls) == 1),
{
    lemma_answers_by_phase(phase, calls);
}

/// Colours are switched on at most once, and on a fresh setup only after the
/// allocation was asked for.
pub proof fn lemma_colors_follow_allocation(phase: ConsolePhase, calls: Seq<ConsoleCall>)
    ensures
        answers_with(phase, calls, ConsoleAction::EnableColors) <= 1,
        phase == ConsolePhase::Untouched ==> answers_with(phase, calls, ConsoleAction::EnableColors)
            <= allocations(phase, calls),
{
    lemma_answers_by_phase(phase, calls);
}

/// A series of calls that holds a request does not leave a setup untouched.
proof fn lemma_request_leaves_untouched(phase: ConsolePhase, calls: Seq<ConsoleCall>, i: int)
    requires
        0 <= i < calls.len(),
        calls[i] == ConsoleCall::Ensure,
    ensures
        phase_through(phase, calls) != ConsolePhase::Untouched,
    decreases calls.len(),
{
    if i < calls.len() - 1 {
        lemma_request_leaves_untouched(phase, calls.drop_last(), i);
    }
}

/// On a fresh setup, any series of calls with at least one request in it
/// leads to exactly one allocation attempt.
pub proof fn lemma_exactly_one_allocation(calls: Seq<ConsoleCall>, i: int)
    requires
        0 <= i < calls.len(),
        calls[i] == ConsoleCall::Ensure,
    ensures
        allocations(ConsolePhase::Untouched, calls) == 1,
{
    lemma_request_leaves_untouched(ConsolePhase::Untouched, calls, i);
    lemma_at_most_one_allocation(ConsolePhase::Untouched, calls);
}

} // verus!
