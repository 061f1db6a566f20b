//! The faults the injector and the hook runtime can meet, and which of them
//! end a run.

use vstd::prelude::*;

verus! {

/// The result code Windows gives when the caller lacks the rights for an
/// operation: `E_ACCESSDENIED`, the bit pattern `0x8007_0005` read as an `i32`.
pub const ACCESS_DENIED: i32 = -2147024891;

/// Why an injection attempt failed, as far as the platform lets us tell.
#[derive(Clone, Copy, Debug, PartialEq, Eq, Structural)]
pub enum InjectionFailure {
    /// The target refused us for want of privilege.
    Privilege,
    /// Anything else; the result code is all that is known.
    Other,
}

/// What the user can do about a fault.
#[derive(Clone, Copy, Debug, PartialEq, Eq, Structural)]
pub enum Remedy {
    /// Make sure the target is running and its name is spelled as given.
    StartTarget,
    /// Build the payload, so that it lies where the layout says.
    BuildPayload,
    /// Run the injector again with elevated privileges.
    Elevate,
    /// Nothing: the fault is reported and the module carries on.
    Nothing,
}

/// Every fault of the system.
#[derive(Clone, Copy, Debug, PartialEq, Eq, Structural)]
pub enum HookError {
    /// No running process carries the requested name.
    ProcessNotFound,
    /// The payload is not where the layout says it should be.
    MissingPayloadFile,
    /// The target process did not take the payload.
    InjectionFailed { cause: InjectionFailure, code: i32 },
    /// A console could not be allocated, most likely because one exists.
    ConsoleAlreadyPresent,
    /// The running module could not find its own handle.
    SelfHandleUnavailable,
}

/// The cause that a platform result code stands for.
pub open spec fn cause_of(code: i32) -> InjectionFailure {
    if code == ACCESS_DENIED {
        InjectionFailure::Privilege
    } else {
        InjectionFailure::Other
    }
}

impl InjectionFailure {
    /// Tells a privilege failure from every other one by the result code.
    pub fn classify(code: i32) -> (cause: InjectionFailure)
        ensures
            cause == cause_of(code),
    {
        if code == ACCESS_DENIED {
            InjectionFailure::Privilege
        } else {
            InjectionFailure::Other
        }
    }
}

impl HookError {
    /// Injector faults end the run; hook runtime faults are reported and the
    /// overlay carries on.
    pub open spec fn terminal(self) -> bool {
        match self {
            HookError::ProcessNotFound => true,
            HookError::MissingPayloadFile => true,
            HookError::InjectionFailed { .. } => true,
            HookError::ConsoleAlreadyPresent => false,
            HookError::SelfHandleUnavailable => false,
        }
    }

    /// The fault for an injection that failed with `code`.
    pub open spec fn injection(code: i32) -> HookError {
        HookError::InjectionFailed { cause: cause_of(code), code }
    }

    /// Builds the fault for an injection that failed with `code`, keeping the
    /// code beside the cause read from it.
    pub fn injection_failed(code: i32) -> (error: HookError)
        ensures
            error == HookError::injection(code),
    {
        HookError::InjectionFailed { cause: InjectionFailure::classify(code), code }
    }

    /// Whether this fault ends the run.
    pub fn is_terminal(&self) -> (terminal: bool)
        ensures
            terminal == self.terminal(),
    {
        match self {
            HookError::ProcessNotFound => true,
            HookError::MissingPayloadFile => true,
            HookError::InjectionFailed { .. } => true,
            HookError::ConsoleAlreadyPresent => false,
            HookError::SelfHandleUnavailable => false,
        }
    }

    /// What the user is advised to do about the fault. Every fault that ends
    /// a run comes with advice; an injection that failed always comes with
    /// the advice to retry with more privilege, whatever its cause.
    pub open spec fn advice(self) -> Remedy {
        match self {
            HookError::ProcessNotFound => Remedy::StartTarget,
            HookError::MissingPayloadFile => Remedy::BuildPayload,
            HookError::InjectionFailed { .. } => Remedy::Elevate,
            HookError::ConsoleAlreadyPresent => Remedy::Nothing,
            HookError::SelfHandleUnavailable => Remedy::Nothing,
        }
    }

    /// The hint to print under the diagnostic line.
    pub fn remedy(&self) -> (remedy: Remedy)
        ensures
            remedy == self.advice(),
    {
        match self {
            HookError::ProcessNotFound => Remedy::StartTarget,
            HookError::MissingPayloadFile => Remedy::BuildPayload,
            HookError::InjectionFailed { .. } => Remedy::Elevate,
            HookError::ConsoleAlreadyPresent => Remedy::Nothing,
            HookError::SelfHandleUnavailable => Remedy::Nothing,
        }
    }
}

/// No fault that ends a run is shown to the user without a hint.
pub proof fn lemma_terminal_faults_have_advice(error: HookError)
    requires
        error.terminal(),
    ensures
        error.advice() != Remedy::Nothing,
{
}

} // verus!
