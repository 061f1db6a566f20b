//! The injector's run, as a machine that asks for one action at a time.
//!
//! The injector touches the outside world three times: it looks for the
//! payload file, it resolves the target process, and it injects. The machine
//! fixes the order and stops at the first failure, so that a missing payload
//! never leads to a process being opened and an unknown process never leads
//! to an injection. The caller carries out each action and reports how it
//! went.

use crate::error::HookError;
use vstd::prelude::*;

verus! {

/// The least number of command-line words: the program's own name and the
/// target process's file name.
pub const MIN_ARGS: usize = 2;

/// How a run ended.
#[derive(Clone, Copy, Debug, PartialEq, Eq, Structural)]
pub enum Verdict {
    /// The payload is loaded in the target.
    Injected,
    /// The command line named no target: print the usage.
    Usage,
    /// The run failed.
    Failed(HookError),
}

/// What the caller has to do next.
#[derive(Clone, Copy, Debug, PartialEq, Eq, Structural)]
pub enum InjectorAction {
    /// Derive the payload's path and see whether the file is there.
    LocatePayload,
    /// Find the process that carries the name given on the command line and
    /// open it.
    ResolveProcess,
    /// Make the target load the payload.
    Inject,
    /// Release what is held, report the verdict and leave with its exit code.
    Exit(Verdict),
}

/// How an action went: `Failed` carries the platform's result code, or 0
/// where there is none.
#[derive(Clone, Copy, Debug, PartialEq, Eq, Structural)]
pub enum Report {
    Done,
    Failed { code: i32 },
}

/// Where a run stands.
#[derive(Clone, Copy, Debug, PartialEq, Eq, Structural)]
pub enum InjectorPhase {
    LocatingPayload,
    ResolvingProcess,
    Injecting,
    Finished(Verdict),
}

/// The exit code of the injector's process for a verdict.
pub open spec fn exit_code_of(verdict: Verdict) -> i32 {
    if verdict == Verdict::Injected {
        0
    } else {
        1
    }
}

/// The phase a run starts in, given the number of command-line words.
pub open spec fn launch_phase(arg_count: usize) -> InjectorPhase {
    if arg_count < MIN_ARGS {
        InjectorPhase::Finished(Verdict::Usage)
    } else {
        InjectorPhase::LocatingPayload
    }
}

/// The action a phase waits for.
pub open spec fn pending(phase: InjectorPhase) -> InjectorAction {
    match phase {
        InjectorPhase::LocatingPayload => InjectorAction::LocatePayload,
        InjectorPhase::ResolvingProcess => InjectorAction::ResolveProcess,
        InjectorPhase::Injecting => InjectorAction::Inject,
        InjectorPhase::Finished(verdict) => InjectorAction::Exit(verdict),
    }
}

/// The phase that follows once the pending action has been reported on.
pub open spec fn next_phase(phase: InjectorPhase, report: Report) -> InjectorPhase {
    match phase {
        InjectorPhase::LocatingPayload => match report {
            Report::Done => InjectorPhase::ResolvingProcess,
            Report::Failed { .. } => InjectorPhase::Finished(
                Verdict::Failed(HookError::MissingPayloadFile),
            ),
        },
        InjectorPhase::ResolvingProcess => match report {
            Report::Done => InjectorPhase::Injecting,
            Report::Failed { .. } => InjectorPhase::Finished(
                Verdict::Failed(HookError::ProcessNotFound),
            ),
        },
        InjectorPhase::Injecting => match report {
            Report::Done => InjectorPhase::Finished(Verdict::Injected),
            Report::Failed { code } => InjectorPhase::Finished(
                Verdict::Failed(HookError::injection(code)),
            ),
        },
        InjectorPhase::Finished(verdict) => InjectorPhase::Finished(verdict),
    }
}

/// The phase after a series of reports.
pub open spec fn phase_through(phase: InjectorPhase, reports: Seq<Report>) -> InjectorPhase
    decreases reports.len(),
{
    if reports.len() == 0 {
        phase
    } else {
        phase_through(next_phase(phase, reports.first()), reports.drop_first())
    }
}

/// The action asked for after the first `k` reports of a run that was
/// launched with `arg_count` command-line words.
pub open spec fn action_at(arg_count: usize, reports: Seq<Report>, k: int) -> InjectorAction {
    pending(phase_through(launch_phase(arg_count), reports.take(k)))
}

impl Verdict {
    /// The exit code to leave with: 0 after an injection, 1 otherwise.
    pub fn exit_code(&self) -> (code: i32)
        ensures
            code == exit_code_of(*self),
    {
        match self {
            Verdict::Injected => 0,
            _ => 1,
        }
    }
}

/// One run of the injector.
#[derive(Debug)]
pub struct Injector {
    phase: InjectorPhase,
}

impl View for Injector {
    type V = InjectorPhase;

    closed spec fn view(&self) -> InjectorPhase {
        self.phase
    }
}

impl Injector {
    /// Starts a run. `arg_count` is the number of command-line words, the
    /// program's own name included. Returns the machine and its first action.
    pub fn launch(arg_count: usize) -> (started: (Injector, InjectorAction))
        ensures
            started.0@ == launch_phase(arg_count),
            started.1 == pending(started.0@),
    {
        let injector = if arg_count < MIN_ARGS {
            Injector { phase: InjectorPhase::Finished(Verdict::Usage) }
        } else {
            Injector { phase: InjectorPhase::LocatingPayload }
        };
        let first = injector.pending_action();
        (injector, first)
    }

    /// Where the run stands.
    pub fn phase(&self) -> (phase: InjectorPhase)
        ensures
            phase == self@,
    {
        self.phase
    }

    /// The action the machine waits for.
    pub fn pending_action(&self) -> (action: InjectorAction)
        ensures
            action == pending(self@),
    {
        match self.phase {
            InjectorPhase::LocatingPayload => InjectorAction::LocatePayload,
            InjectorPhase::ResolvingProcess => InjectorAction::ResolveProcess,
            InjectorPhase::Injecting => InjectorAction::Inject,
            InjectorPhase::Finished(verdict) => InjectorAction::Exit(verdict),
        }
    }

    /// Takes the report on the action last asked for and returns the next
    /// one. A finished run stays finished and keeps its verdict.
    pub fn step(&mut self, report: Report) -> (action: InjectorAction)
        ensures
            final(self)@ == next_phase(old(self)@, report),
            action == pending(final(self)@),
    {
        let next = match self.phase {
            InjectorPhase::LocatingPayload => match report {
                Report::Done => InjectorPhase::ResolvingProcess,
                Report::Failed { .. } => InjectorPhase::Finished(
                    Verdict::Failed(HookError::MissingPayloadFile),
                ),
            },
            InjectorPhase::ResolvingProcess => match report {
                Report::Done => InjectorPhase::Injecting,
                Report::Failed { .. } => InjectorPhase::Finished(
                    Verdict::Failed(HookError::ProcessNotFound),
                ),
            },
            InjectorPhase::Injecting => match report {
                Report::Done => InjectorPhase::Finished(Verdict::Injected),
                Report::Failed { code } => InjectorPhase::Finished(
                    Verdict::Failed(HookError::injection_failed(code)),
                ),
            },
            InjectorPhase::Finished(verdict) => InjectorPhase::Finished(verdict),
        };
        self.phase = next;
        self.pending_action()
    }
}

/// A finished run stays finished, with the verdict it had.
pub proof fn lemma_finished_stays(verdict: Verdict, reports: Seq<Report>)
    ensures
        phase_through(InjectorPhase::Finished(verdict), reports) == InjectorPhase::Finished(
            verdict,
        ),
    decreases reports.len(),
{
    if reports.len() > 0 {
        lemma_finished_stays(verdict, reports.drop_first());
    }
}

/// A command line that names no target ends the run at once with the usage
/// verdict and exit code 1; nothing outside is touched.
pub proof fn lemma_usage_ends_run(arg_count: usize, reports: Seq<Report>, k: int)
    requires
        arg_count < MIN_ARGS,
        0 <= k <= reports.len(),
    ensures
        action_at(arg_count, reports, k) == InjectorAction::Exit(Verdict::Usage),
        exit_code_of(Verdict::Usage) == 1,
{
    lemma_finished_stays(Verdict::Usage, reports.take(k));
}

/// When the payload file is missing, the run ends with `MissingPayloadFile`
/// and exit code 1, and at no point of it is the target process resolved or
/// injected into.
pub proof fn lemma_missing_payload_ends_run(arg_count: usize, reports: Seq<Report>, k: int)
    requires
        arg_count >= MIN_ARGS,
        reports.len() >= 1,
        reports[0] is Failed,
        0 <= k <= reports.len(),
    ensures
        action_at(arg_count, reports, 0) == InjectorAction::LocatePayload,
        k >= 1 ==> action_at(arg_count, reports, k) == InjectorAction::Exit(
            Verdict::Failed(HookError::MissingPayloadFile),
        ),
        action_at(arg_count, reports, k) != InjectorAction::ResolveProcess,
        action_at(arg_count, reports, k) != InjectorAction::Inject,
        exit_code_of(Verdict::Failed(HookError::MissingPayloadFile)) == 1,
{
    let verdict = Verdict::Failed(HookError::MissingPayloadFile);
    if k >= 1 {
        let seen = reports.take(k);
        assert(seen.first() == reports[0]);
        lemma_finished_stays(verdict, seen.drop_first());
    }
}

/// When no process carries the requested name, the run ends with
/// `ProcessNotFound` and exit code 1, and at no point of it is an injection
/// attempted.
pub proof fn lemma_unknown_process_ends_run(arg_count: usize, reports: Seq<Report>, k: int)
    requires
        arg_count >= MIN_ARGS,
        reports.len() >= 2,
        reports[0] == Report::Done,
        reports[1] is Failed,
        0 <= k <= reports.len(),
    ensures
        k >= 2 ==> action_at(arg_count, reports, k) == InjectorAction::Exit(
            Verdict::Failed(HookError::ProcessNotFound),
        ),
        action_at(arg_count, reports, k) != InjectorAction::Inject,
        exit_code_of(Verdict::Failed(HookError::ProcessNotFound)) == 1,
{
    let verdict = Verdict::Failed(HookError::ProcessNotFound);
    let start = launch_phase(arg_count);
    let seen = reports.take(k);
    if k >= 1 {
        assert(seen.first() == reports[0]);
        let rest = seen.drop_first();
        assert(phase_through(start, seen) == phase_through(InjectorPhase::ResolvingProcess, rest));
        if k >= 2 {
            assert(rest.first() == reports[1]);
            assert(phase_through(InjectorPhase::ResolvingProcess, rest) == phase_through(
                InjectorPhase::Finished(verdict),
                rest.drop_first(),
            ));
            lemma_finished_stays(verdict, rest.drop_first());
        }
    }
}

/// Each of the three outside steps is asked for at one point of a run only,
/// and in a fixed order: the payload is looked for first, the process is
/// resolved once the payload was found, and an injection is attempted once
/// the process was resolved too. So no run repeats a step, and none reaches
/// a step after an earlier one failed.
pub proof fn lemma_steps_come_in_order(arg_count: usize, reports: Seq<Report>)
    ensures
        (pending(phase_through(launch_phase(arg_count), reports)) == InjectorAction::LocatePayload)
            <==> (arg_count >= MIN_ARGS && reports == Seq::<Report>::empty()),
        (pending(phase_through(launch_phase(arg_count), reports)) == InjectorAction::ResolveProcess)
            <==> (arg_count >= MIN_ARGS && reports == seq![Report::Done]),
        (pending(phase_through(launch_phase(arg_count), reports)) == InjectorAction::Inject) <==> (
        arg_count >= MIN_ARGS && reports == seq![Report::Done, Report::Done]),
{
    let start = launch_phase(arg_count);
    if arg_count < MIN_ARGS {
        lemma_finished_stays(Verdict::Usage, reports);
    } else if reports.len() >= 1 {
        let after_payload = next_phase(start, reports.first());
        let rest = reports.drop_first();
        assert(phase_through(start, reports) == phase_through(after_payload, rest));
        if after_payload is Finished {
            lemma_finished_stays(after_payload->Finished_0, rest);
        } else if rest.len() >= 1 {
            let after_process = next_phase(after_payload, rest.first());
            let tail = rest.drop_first();
            assert(phase_through(after_payload, rest) == phase_through(after_process, tail));
            if after_process is Finished {
                lemma_finished_stays(after_process->Finished_0, tail);
            } else if tail.len() >= 1 {
                let after_injection = next_phase(after_process, tail.first());
                assert(phase_through(after_process, tail) == phase_through(
                    after_injection,
                    tail.drop_first(),
                ));
                lemma_finished_stays(after_injection->Finished_0, tail.drop_first());
            } else {
                assert(reports =~= seq![Report::Done, Report::Done]);
            }
        } else {
            assert(reports =~= seq![Report::Done]);
        }
    } else {
        assert(reports =~= Seq::<Report>::empty());
    }
}

/// A run that gets as far as injecting ends with `Injected` and exit code 0
/// if the injection went well, and otherwise with the failure that the result
/// code stands for and exit code 1.
pub proof fn lemma_injection_decides_verdict(arg_count: usize, report: Report)
    requires
        arg_count >= MIN_ARGS,
    ensures
        action_at(arg_count, seq![Report::Done, Report::Done, report], 3) == InjectorAction::Exit(
            match report {
                Report::Done => Verdict::Injected,
                Report::Failed { code } => Verdict::Failed(HookError::injection(code)),
            },
        ),
        exit_code_of(Verdict::Injected) == 0,
        forall|code: i32| #[trigger] exit_code_of(Verdict::Failed(HookError::injection(code))) == 1,
{
    let reports = seq![Report::Done, Report::Done, report];
    assert(reports.take(3) == reports);
    reveal_with_fuel(phase_through, 4);
    assert(reports.drop_first() == seq![Report::Done, report]);
    assert(reports.drop_first().drop_first() == seq![report]);
    assert(reports.drop_first().drop_first().drop_first() == Seq::<Report>::empty());
}

} // verus!
