# sanctifier_core

A static analyser for Soroban smart contracts, written in Verus.

The analyses take Rust source text, which `src/parse.rs` reads with `syn`
into a plain model of the file (`src/syntax.rs`), and report
authorization gaps, panicking calls, ledger entry sizes, unsafe patterns,
unchecked arithmetic and user-defined regex rules. Each analysis states in its
contract exactly which findings it reports, and the laws that tie them
together are proof functions beside them. `src/contracts/` holds the decision
logic of the example contracts (allowances, a reentrancy guard, a pure
transfer), and `src/serve.rs` the request handling of the analysis service.

Layout:

- `src/` — the verified library.
- `tests/` — tests of the library on concrete inputs.
- `app/` — the panic guard, the HTTP service, configuration files and the
  Soroban contract entry points, around the library.
