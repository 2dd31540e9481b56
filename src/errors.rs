use vstd::prelude::*;

verus! {

/// The host's error taxonomy for a failed call into a contract.
#[derive(Clone, Copy, Debug, PartialEq, Eq, Structural)]
pub enum EnclaveError {
    /// The export returned nothing, more than one value, or a value that is
    /// not a 32-bit integer.
    FailedFunctionCall,
    /// The contract reached an `unreachable` instruction.
    ContractPanicUnreachable,
    /// The contract ran out of gas.
    OutOfGas,
    /// Any other fault raised by the interpreter during execution.
    ExecutionError,
    /// Reading a buffer out of linear memory failed.
    MemoryReadError,
    /// Placing a buffer in linear memory failed.
    MemoryWriteError,
}

} // verus!
