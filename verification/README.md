# wasm_executor

The decision core of a WebAssembly canister executor, verified with Verus, and the client
interface of the Bitcoin adapter.

The library never runs Wasm. It says what an engine is to do next (decode, compile, make an
instance, run, take the result, update memories) and what follows on each answer. What it asks for,
what it keeps and what it returns is stated in the contracts and proved for every answer that an
engine can give.

- `src/executor.rs`: messages and new canisters, from the binary on; the cache of compiled modules
- `src/process.rs`: one message on a compiled module
- `src/initial_state.rs`: the globals and the memory that a module begins with
- `src/execution_state.rs`, `src/module_info.rs`: the state of a canister's module, and the pages
  that are reserved at the end of its heap
- `src/state_changes.rs`, `src/page_delta.rs`, `src/decimal.rs`: what an execution has changed
- `src/metrics.rs`: counters and the compilation histogram, on `prometheus`
- `src/bitcoin_adapter_client.rs`: the adapter's interface
- `src/laws.rs`: what holds of all of it together
- `app/`: the loops between the executor and an engine
