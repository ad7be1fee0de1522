//! Status signals of the conductor launcher and their wire codes.

use vstd::prelude::*;

verus! {

/// A step in the start-up of the embedded conductor.
#[derive(Clone, Copy, Debug, PartialEq, Eq, Structural)]
pub enum StateSignal {
    /// No earlier installation was found in the datastore.
    IsFirstRun,
    /// An earlier installation was found and is reused.
    IsNotFirstRun,
    /// First run only: the agent keys are being generated.
    CreatingKeys,
    /// First run only: the DNA bundles are being registered.
    RegisteringDna,
    /// First run only: the application is being installed.
    InstallingApp,
    /// First run only: the application is being enabled.
    EnablingApp,
    /// First run only: the application interface is being attached.
    AddingAppInterface,
    /// The conductor is up and serving requests.
    IsReady,
}

/// The code of a signal on standard output: the signal's position in the
/// start-up sequence, counted from zero.
pub open spec fn signal_code(signal: StateSignal) -> int {
    match signal {
        StateSignal::IsFirstRun => 0,
        StateSignal::IsNotFirstRun => 1,
        StateSignal::CreatingKeys => 2,
        StateSignal::RegisteringDna => 3,
        StateSignal::InstallingApp => 4,
        StateSignal::EnablingApp => 5,
        StateSignal::AddingAppInterface => 6,
        StateSignal::IsReady => 7,
    }
}

/// The number that is printed for a signal.
pub fn state_signal_to_stdout(signal: &StateSignal) -> (code: i16)
    ensures
        code == signal_code(*signal),
        0 <= code <= 7,
{
    match signal {
        StateSignal::IsFirstRun => 0,
        StateSignal::IsNotFirstRun => 1,
        StateSignal::CreatingKeys => 2,
        StateSignal::RegisteringDna => 3,
        StateSignal::InstallingApp => 4,
        StateSignal::EnablingApp => 5,
        StateSignal::AddingAppInterface => 6,
        StateSignal::IsReady => 7,
    }
}

/// Distinct signals print distinct codes.
pub proof fn signal_codes_are_distinct(a: StateSignal, b: StateSignal)
    ensures
        signal_code(a) == signal_code(b) <==> a == b,
{
}

} // verus!
