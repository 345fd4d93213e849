//! The registry of precompiled contracts of each supported fork, and the
//! rules by which a builtin's cost and outcome become the result of a
//! precompile call.

use vstd::prelude::*;
use crate::fork::{ForkSpec, Ruleset};
use crate::primitives::{low_u64_be, H160, H256, U256};

verus! {

/// Why a call failed.
#[derive(Clone, Debug, PartialEq, Eq)]
pub enum ExitError {
    /// The gas on offer does not cover the cost.
    OutOfGas,
    /// The builtin itself failed, with its message.
    Other(String),
}

/// How a call ended when it did not fail.
#[derive(Clone, Copy, Debug, PartialEq, Eq, Structural)]
pub enum ExitSucceed {
    Stopped,
    Returned,
    Suicided,
}

/// A log entry emitted during execution.
#[derive(Clone, Debug, PartialEq, Eq)]
pub struct LogEntry {
    pub address: H160,
    pub topics: Vec<H256>,
    pub data: Vec<u8>,
}

/// What a precompile hands back on success.
#[derive(Clone, Debug, PartialEq, Eq)]
pub struct PrecompileOutput {
    pub exit_status: ExitSucceed,
    pub cost: u64,
    pub output: Vec<u8>,
    pub logs: Vec<LogEntry>,
}

/// What a precompile hands back on failure.
#[derive(Clone, Debug, PartialEq, Eq)]
pub enum PrecompileFailure {
    /// State changes are reverted and all gas is consumed.
    Error { exit_status: ExitError },
}

/// One binding of the registry: calls to `address` run the builtin that the
/// descriptors of `ruleset` define at index `index`.
#[derive(Clone, Copy, Debug, PartialEq, Eq)]
pub struct PrecompileEntry {
    pub address: H160,
    pub ruleset: Ruleset,
    pub index: u64,
}

/// The first of the addresses reserved for precompiles, as a number.
pub const FIRST_PRECOMPILE: u64 = 1;

/// The last of the addresses reserved for precompiles, as a number.
pub const LAST_PRECOMPILE: u64 = 9;

/// The block number at which builtin costs are priced: cost functions do
/// not vary with the block in this harness.
pub const PRICING_BLOCK: u64 = 0;

/// Whether the gas on offer fails to cover a builtin's cost: a limit is
/// given, and the cost is above it or above anything a limit can express.
pub open spec fn out_of_gas(cost: nat, gas_limit: Option<u64>) -> bool {
    gas_limit is Some && (cost > u64::MAX || gas_limit.unwrap() < cost)
}

/// The ruleset whose builtins serve a fork, if the fork has precompiles.
pub open spec fn spec_ruleset(fork: ForkSpec) -> Option<Ruleset> {
    match fork.spec_settings() {
        Some(settings) => Some(settings.ruleset),
        None => None,
    }
}

/// The registry of a ruleset: one entry for each reserved address, in order.
pub open spec fn registry_of(ruleset: Ruleset, entries: Seq<PrecompileEntry>) -> bool {
    &&& entries.len() == LAST_PRECOMPILE
    &&& forall|i: int|
        0 <= i < entries.len() ==> {
            &&& (#[trigger] entries[i]).address@ == low_u64_be((i + 1) as u64)
            &&& entries[i].ruleset == ruleset
            &&& entries[i].index == i + 1
        }
}

/// Adapts the builtin contracts of a fork to the call interface of the engine.
pub struct JsonPrecompile;

impl JsonPrecompile {
    /// The precompile registry of a fork: for a supported fork, bindings for
    /// exactly the addresses 1 through 9, each to the builtin of that index
    /// under the fork's ruleset; `None` for any other fork.
    pub fn precompile(spec: &ForkSpec) -> (r: Option<Vec<PrecompileEntry>>)
        ensures
            r is Some <==> spec_ruleset(*spec) is Some,
            r is Some ==> registry_of(spec_ruleset(*spec).unwrap(), r.unwrap()@),
    {
        match spec.settings() {
            Some(settings) => Some(Self::registry(settings.ruleset)),
            None => None,
        }
    }

    /// The precompile registry of a ruleset: bindings for exactly the
    /// addresses 1 through 9, in order, each to the builtin of that index.
    pub fn registry(ruleset: Ruleset) -> (entries: Vec<PrecompileEntry>)
        ensures
            registry_of(ruleset, entries@),
    {
        let mut entries: Vec<PrecompileEntry> = Vec::new();
        let mut index: u64 = FIRST_PRECOMPILE;
        while index <= LAST_PRECOMPILE
            invariant
                FIRST_PRECOMPILE <= index <= LAST_PRECOMPILE + 1,
                entries@.len() == index - 1,
                forall|i: int|
                    0 <= i < entries@.len() ==> {
                        &&& (#[trigger] entries@[i]).address@ == low_u64_be((i + 1) as u64)
                        &&& entries@[i].ruleset == ruleset
                        &&& entries@[i].index == i + 1
                    },
            decreases LAST_PRECOMPILE + 1 - index,
        {
            entries.push(PrecompileEntry { address: H160::from_low_u64_be(index), ruleset, index });
            index += 1;
        }
        entries
    }

    /// Decides, before the builtin runs, whether the gas on offer covers its
    /// cost. On `Ok` the builtin is to be executed and the returned amount is
    /// what the call consumes; on `Err` the call fails without the builtin
    /// having run.
    pub fn charge(cost: &U256, gas_limit: Option<u64>) -> (r: Result<u64, PrecompileFailure>)
        requires
            gas_limit is None ==> cost@ <= u64::MAX,
        ensures
            r is Err <==> out_of_gas(cost@, gas_limit),
            r is Err ==> r == Err::<u64, PrecompileFailure>(
                PrecompileFailure::Error { exit_status: ExitError::OutOfGas },
            ),
            r is Ok ==> r.unwrap() == cost@,
            gas_limit is Some && gas_limit.unwrap() < cost@ ==> r is Err,
    {
        if let Some(target_gas) = gas_limit {
            if !cost.fits_u64() || target_gas < cost.low_u64() {
                return Err(PrecompileFailure::Error { exit_status: ExitError::OutOfGas });
            }
        }
        Ok(cost.low_u64())
    }

    /// Turns the outcome of a builtin that was executed into the result of
    /// the precompile call: its output with the charged cost and no logs, or
    /// its error as an engine failure.
    pub fn conclude(
        cost: u64,
        output: Vec<u8>,
        outcome: Result<(), String>,
    ) -> (r: Result<PrecompileOutput, PrecompileFailure>)
        ensures
            match outcome {
                Ok(_) => r is Ok && r.unwrap().exit_status == ExitSucceed::Stopped
                    && r.unwrap().cost == cost && r.unwrap().output == output
                    && r.unwrap().logs@.len() == 0,
                Err(message) => r == Err::<PrecompileOutput, PrecompileFailure>(
                    PrecompileFailure::Error { exit_status: ExitError::Other(message) },
                ),
            },
    {
        match outcome {
            Ok(()) => Ok(
                PrecompileOutput { exit_status: ExitSucceed::Stopped, cost, output, logs: Vec::new() },
            ),
            Err(message) => Err(PrecompileFailure::Error { exit_status: ExitError::Other(message) }),
        }
    }
}

/// A gas limit strictly below the cost always ends in an out-of-gas failure,
/// whatever the cost and the limit are.
pub proof fn lemma_limit_below_cost_is_out_of_gas(cost: nat, gas_limit: u64)
    requires
        gas_limit < cost,
    ensures
        out_of_gas(cost, Some(gas_limit)),
{
}

/// A fork has a precompile registry exactly if the harness executes it, so
/// that no case of a supported fork is ever without one.
pub proof fn lemma_registry_exactly_for_supported_forks(fork: ForkSpec)
    ensures
        spec_ruleset(fork) is Some <==> fork.supported(),
        fork.supported() ==> spec_ruleset(fork).unwrap() == fork.spec_settings().unwrap().ruleset,
{
}

/// The registry binds each reserved address once: entries at different
/// positions have different addresses.
pub proof fn lemma_registry_addresses_distinct(ruleset: Ruleset, entries: Seq<PrecompileEntry>, i: int, j: int)
    requires
        registry_of(ruleset, entries),
        0 <= i < j < entries.len(),
    ensures
        entries[i].address@ != entries[j].address@,
{
    let a = (i + 1) as u64;
    let b = (j + 1) as u64;
    assert(1 <= a < b <= 9);
    assert(low_u64_be(a)[19] == crate::primitives::byte_at(a, 0));
    assert(low_u64_be(b)[19] == crate::primitives::byte_at(b, 0));
    assert(((a >> 0) & 0xff) as u8 != ((b >> 0) & 0xff) as u8) by (bit_vector)
        requires
            1 <= a < b <= 9,
    ;
}

} // verus!
