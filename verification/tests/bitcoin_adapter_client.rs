use std::time::Duration;
use wasm_executor::bitcoin_adapter_client::{BitcoinAdapterClient, Options, RpcResult};

/// Answers with the length of the request, and refuses every transaction.
struct Client;

impl BitcoinAdapterClient for Client {
    type GetSuccessorsRequest = Vec<u8>;
    type GetSuccessorsResponse = (usize, Option<Duration>);
    type SendTransactionRequest = Vec<u8>;
    type SendTransactionResponse = ();

    fn get_successors(&self, request: Vec<u8>, opts: Options) -> RpcResult<(usize, Option<Duration>)> {
        Ok((request.len(), opts.timeout))
    }

    fn send_transaction(&self, _request: Vec<u8>, _opts: Options) -> RpcResult<()> {
        Err(tonic::Status::unavailable("no peers"))
    }
}

#[test]
fn calls_are_given_up_after_ten_milliseconds_by_default() {
    assert_eq!(Options::default().timeout, Some(Duration::from_millis(10)));
}

#[test]
fn a_client_is_handed_the_request_and_the_options() {
    let answer = Client.get_successors(vec![1, 2, 3], Options { timeout: None }).unwrap();
    assert_eq!(answer, (3, None));
    let answer = Client.get_successors(vec![], Options::default()).unwrap();
    assert_eq!(answer, (0, Some(Duration::from_millis(10))));
}

#[test]
fn a_failed_call_is_answered_with_a_status() {
    let status = Client.send_transaction(vec![], Options::default()).unwrap_err();
    assert_eq!(status.code(), tonic::Code::Unavailable);
}
