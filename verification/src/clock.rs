use crate::error::TimeStakerError;
use anchor_lang::prelude::Clock;
use anchor_lang::prelude::ProgramError;
use anchor_lang::prelude::SolanaSysvar;
use vstd::prelude::*;

verus! {

/// The runtime's own error, `ProgramError`. Nothing is said of what a value
/// of it holds: the library only carries it from the clock to the caller.
#[verifier::external_type_specification]
#[verifier::external_body]
pub struct ExProgramError(ProgramError);

/// Why a request that reads the ledger's clock came to nothing.
#[derive(Debug, PartialEq, Eq)]
pub enum InstructionError {
    /// The runtime had no clock to read. Nothing was decided.
    ClockUnavailable(ProgramError),
    /// The clock was read and the protocol refused the request.
    Refused(TimeStakerError),
    /// The protocol would have accepted the request, but a counter, a time
    /// or an amount would pass what it can hold. Nothing was written.
    Overflow,
}

/// Reads the ledger's clock with `Clock::get` and hands back its
/// `unix_timestamp`, or the runtime's error where no clock can be had.
/// Nothing is claimed of the value: the time is whatever the ledger says.
#[verifier::external_body]
pub(crate) fn ledger_unix_timestamp() -> (now: Result<i64, ProgramError>) {
    Clock::get().map(|clock| clock.unix_timestamp)
}

} // verus!
