# era_compiler_vyper

The front end of the EraVM Vyper compiler (`zkvyper`) as a Verus library:
the LLL IR model, the reading of what `vyper` writes in batch and
`--standard-json` modes, the project model with its hash, the AST checks
that warn of `ecrecover`, `extcodesize` and `tx.origin`, and the files and
terminal texts made of a compiled contract.

- `src/` is the verified library. Each public function states in its
  `ensures` what it returns; the laws that span functions are public proof
  functions beside them.
- `app/` runs the `vyper` executable, reads and writes files and moves
  `serde` documents into and out of the library's types.
- `tests/` holds the tests, run against the compiled library.

Code generation to LLVM is not part of this crate.
