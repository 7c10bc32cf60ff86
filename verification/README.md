# wasm_client

The verified core of a browser-side prover client for a zk-rollup.

- `src/params.rs`: the circuit size parameters both provers are instantiated
  with, and the proof that the transaction count is `2^N_LOG_TXS`.
- `src/digest.rs`: hash digests as four Goldilocks field words.
- `src/inputs.rs`: plain-value models of the two JSON inputs the client takes,
  and the prover arguments each is turned into.
- `src/client.rs`: the decisions of the two entry points, from the parsed
  input and the prover's outcome to the next step.
- `src/report.rs`: the progress lines the input generator prints, with the
  decimal rendering proved to denote the numbers it renders.
- `app/`: the `wasm_bindgen` entry points, the input generator, and the serde
  copies of the input types; the proving circuits they call live in the
  project's circuit crate.
