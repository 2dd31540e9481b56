use vstd::prelude::*;

use crate::api_version::{args_of, export_of, plan, CosmWasmApiVersion, Invocation, Verb};
use crate::errors::EnclaveError;

verus! {

/// The value an export handed back, as the interpreter reports it. Floats
/// are carried as their raw bits.
#[derive(Clone, Copy, Debug, PartialEq, Eq, Structural)]
pub enum ReturnValue {
    I32(i32),
    I64(i64),
    F32(u32),
    F64(u64),
}

/// What a lifecycle call yields for what the interpreter reported: an `i32`
/// read as the 32-bit offset of the result buffer; no value, or a value of
/// another type, is a failed call; a fault passes through unchanged.
pub open spec fn call_result(returned: Result<Option<ReturnValue>, EnclaveError>) -> Result<u32, EnclaveError> {
    match returned {
        Err(e) => Err(e),
        Ok(Some(ReturnValue::I32(v))) => Ok(v as u32),
        Ok(_) => Err(EnclaveError::FailedFunctionCall),
    }
}

/// The gas counter after the instance reports `reported`: it never goes back.
pub open spec fn next_gas(current: u64, reported: u64) -> u64 {
    if reported > current {
        reported
    } else {
        current
    }
}

/// Checks the shape of what an export returned.
pub fn validate_return(returned: Result<Option<ReturnValue>, EnclaveError>) -> (r: Result<u32, EnclaveError>)
    ensures
        r == call_result(returned),
{
    match returned {
        Err(e) => Err(e),
        Ok(Some(ReturnValue::I32(offset))) => Ok(offset as u32),
        Ok(_) => Err(EnclaveError::FailedFunctionCall),
    }
}

/// Version-aware dispatch onto one loaded contract module.
///
/// The engine decides which export a lifecycle verb calls and with which
/// arguments, checks what the call returned, and keeps the gas counter that
/// the contract instance reports.
pub struct Engine {
    cosmwasm_api_version: CosmWasmApiVersion,
    gas_used: u64,
}

impl Engine {
    /// The API generation of the loaded module, fixed for the engine's lifetime.
    pub closed spec fn version(&self) -> CosmWasmApiVersion {
        self.cosmwasm_api_version
    }

    /// Gas used so far by calls made through this engine.
    pub closed spec fn gas(&self) -> u64 {
        self.gas_used
    }

    pub fn new(cosmwasm_api_version: CosmWasmApiVersion, gas_used: u64) -> (r: Self)
        ensures
            r.version() == cosmwasm_api_version,
            r.gas() == gas_used,
    {
        Engine { cosmwasm_api_version, gas_used }
    }

    pub fn cosmwasm_api_version(&self) -> (r: CosmWasmApiVersion)
        ensures
            r == self.version(),
    {
        self.cosmwasm_api_version
    }

    pub fn gas_used(&self) -> (r: u64)
        ensures
            r == self.gas(),
    {
        self.gas_used
    }

    /// The call that creates the contract.
    pub fn init(&self, env_ptr: u32, msg_info_ptr: u32, msg_ptr: u32) -> (r: Invocation)
        ensures
            r.export == export_of(self.version(), Verb::Create),
            r.args@ == args_of(self.version(), Verb::Create, env_ptr, msg_info_ptr, msg_ptr),
    {
        plan(self.cosmwasm_api_version, Verb::Create, env_ptr, msg_info_ptr, msg_ptr)
    }

    /// The call that changes the contract's state.
    pub fn handle(&self, env_ptr: u32, msg_info_ptr: u32, msg_ptr: u32) -> (r: Invocation)
        ensures
            r.export == export_of(self.version(), Verb::Mutate),
            r.args@ == args_of(self.version(), Verb::Mutate, env_ptr, msg_info_ptr, msg_ptr),
    {
        plan(self.cosmwasm_api_version, Verb::Mutate, env_ptr, msg_info_ptr, msg_ptr)
    }

    /// The call that reads the contract's state; under `V010` the
    /// environment is not passed.
    pub fn query(&self, env_ptr: u32, msg_ptr: u32) -> (r: Invocation)
        ensures
            r.export == export_of(self.version(), Verb::Read),
            r.args@ == args_of(self.version(), Verb::Read, env_ptr, 0, msg_ptr),
    {
        plan(self.cosmwasm_api_version, Verb::Read, env_ptr, 0, msg_ptr)
    }

    /// Takes in what a call returned and the instance's gas counter after it,
    /// and yields the call's outcome.
    pub fn complete(
        &mut self,
        returned: Result<Option<ReturnValue>, EnclaveError>,
        gas_reported: u64,
    ) -> (r: Result<u32, EnclaveError>)
        ensures
            final(self).version() == old(self).version(),
            final(self).gas() == next_gas(old(self).gas(), gas_reported),
            r == call_result(returned),
    {
        if gas_reported > self.gas_used {
            self.gas_used = gas_reported;
        }
        validate_return(returned)
    }
}

/// The gas counter after an engine that started at `start` has taken in the
/// instance's reports, in order.
pub open spec fn gas_after(start: u64, reports: Seq<u64>) -> u64
    decreases reports.len(),
{
    if reports.len() == 0 {
        start
    } else {
        next_gas(gas_after(start, reports.drop_last()), reports.last())
    }
}

/// A call whose export returned no value fails with `FailedFunctionCall`,
/// whatever the generation and verb, and the gas counter read right after it
/// is at least the one read right before.
pub proof fn lemma_no_value_fails(before: u64, gas_reported: u64)
    ensures
        call_result(Ok(None)) == Err::<u32, EnclaveError>(EnclaveError::FailedFunctionCall),
        next_gas(before, gas_reported) >= before,
{
}

/// The gas counter never decreases over any sequence of calls, failed ones
/// included: after a prefix of the reports it is at least where it started
/// and at most where the whole sequence leaves it.
pub proof fn lemma_gas_monotone(start: u64, reports: Seq<u64>, i: int)
    requires
        0 <= i <= reports.len(),
    ensures
        start <= gas_after(start, reports.take(i)),
        gas_after(start, reports.take(i)) <= gas_after(start, reports),
    decreases reports.len(),
{
    if reports.len() == 0 {
        assert(reports.take(i) =~= reports);
    } else if i == reports.len() {
        assert(reports.take(i) =~= reports);
        lemma_gas_monotone(start, reports.drop_last(), 0);
        assert(reports.drop_last().take(0) =~= Seq::<u64>::empty());
        assert(reports.take(0) =~= Seq::<u64>::empty());
    } else {
        lemma_gas_monotone(start, reports.drop_last(), i);
        assert(reports.drop_last().take(i) =~= reports.take(i));
    }
}

/// An offset passed to an export as its `i32` argument and echoed back as
/// the export's result comes out of the call as the same offset.
pub proof fn lemma_echoed_offset(offset: u32)
    ensures
        call_result(Ok(Some(ReturnValue::I32(offset as i32)))) == Ok::<u32, EnclaveError>(offset),
{
    assert((offset as i32) as u32 == offset) by (bit_vector);
}

} // verus!
