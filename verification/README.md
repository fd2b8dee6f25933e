# crowdfunding_interact

An interactor for a crowdfunding smart contract on the MultiversX devnet.

- `src/` is the verified library (Verus):
  - `address.rs`: 32-byte addresses and their bech32 text (`erd1...`), through
    the `bech32` crate;
  - `state.rs`: the state kept between runs, the address of the deployed
    contract, and the text the state file keeps of it;
  - `interact.rs`: the calls the interactor sends (deploy, upgrade, fund,
    claim, views), who sends them, with which gas, payment and expected
    outcome, and the recording of a newly deployed address;
  - `deadline.rs`: when a deadline counts as passed.
- `app/` is the program around it: the devnet connection
  (`multiversx-sc-snippets`), the `state.toml` file, the clock and the wait
  for a deadline.
- `tests/` runs the library on concrete values.
