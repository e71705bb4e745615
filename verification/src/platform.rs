//! The values that pass through the executor without being looked into.
use vstd::prelude::*;

verus! {

/// The types of the replica around the executor whose values the executor only carries from one
/// place to another.
pub trait Platform: Sized {
    /// What runs Wasm: it compiles modules and makes instances of them.
    type WasmEmbedder;

    /// Where log lines go.
    type Logger;

    /// Identifies a canister.
    type CanisterId;

    /// A compiled module, kept for as long as its binary is.
    type EmbedderCache;

    /// What a compilation reports to its requester.
    type CompilationResult;

    /// The pages of a memory. The default is a memory that was never written.
    type PageMap: Default;

    /// The function that a message calls.
    type FuncRef;

    /// What is being called, and with which payload.
    type ApiCall;

    /// The execution settings besides the instruction limits.
    type ExecutionSettings;

    /// The parts of the system state that only the system API reads.
    type SystemState;

    /// The changes that an execution makes to the system state.
    type SystemStateChanges;

    /// What is done, other than by default, when a message runs out of instructions.
    type OutOfInstructionsHandler;

    /// What a message execution answers.
    type WasmResult;

    /// Why the engine could not do something.
    type EngineError;

    /// How much memory the subnet has left.
    type SubnetAvailableMemory;

    /// An execution that can be resumed or aborted.
    type PausedExecution;
}

/// Why a module could not be prepared or a message could not be executed.
pub enum HypervisorError<X: Platform> {
    /// The message grew the Wasm heap into the pages that are reserved at the end of the address
    /// space.
    WasmReservedPages,
    /// The engine failed.
    Engine(X::EngineError),
}

pub type HypervisorResult<X, T> = Result<T, HypervisorError<X>>;

} // verus!
