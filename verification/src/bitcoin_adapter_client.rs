//! Interface for talking to the Bitcoin adapter.
use core::time::Duration;
use vstd::prelude::*;

verus! {

/// The status that a failed remote procedure call is answered with.
#[verifier::external_type_specification]
#[verifier::external_body]
pub struct ExStatus(tonic::Status);

/// The outcome of a remote procedure call.
pub type RpcResult<T> = Result<T, tonic::Status>;

/// The duration that [`Duration::from_millis`] makes of a number of milliseconds.
pub uninterp spec fn duration_from_millis(millis: u64) -> Duration;

/// [`Duration::from_millis`] makes the same duration of the same number of milliseconds.
pub assume_specification[ Duration::from_millis ](millis: u64) -> (duration: Duration)
    ensures
        duration == duration_from_millis(millis),
;

/// How a call to the adapter is made.
pub struct Options {
    /// The time after which the call is given up, if there is one.
    pub timeout: Option<Duration>,
}

impl Default for Options {
    /// The consensus thread may be blocked only for a few milliseconds, so a call is given up
    /// after ten of them.
    fn default() -> (options: Self)
        ensures
            options.timeout == Some(duration_from_millis(10)),
    {
        Self { timeout: Some(Duration::from_millis(10)) }
    }
}

/// Sync interface for communicating with the Bitcoin adapter. The calls block the running
/// thread, and may panic if they are made from an async context.
pub trait BitcoinAdapterClient {
    /// A request for the blocks that follow those already known.
    type GetSuccessorsRequest;

    /// The answer to a [`Self::GetSuccessorsRequest`].
    type GetSuccessorsResponse;

    /// A request to hand a transaction to the Bitcoin network.
    type SendTransactionRequest;

    /// The answer to a [`Self::SendTransactionRequest`].
    type SendTransactionResponse;

    fn get_successors(
        &self,
        request: Self::GetSuccessorsRequest,
        opts: Options,
    ) -> RpcResult<Self::GetSuccessorsResponse>;

    fn send_transaction(
        &self,
        request: Self::SendTransactionRequest,
        opts: Options,
    ) -> RpcResult<Self::SendTransactionResponse>;
}

} // verus!
