# joker_swap

A pool that trades the NFTs of a Merkle tree against a fungible token at a
fixed price, with liquidity providers and fees split among five receivers.

- `src/` is the verified library (Verus):
  - `utils/verify_hash.rs`: Merkle membership proofs with sorted-pair
    Keccak-256 hashing, and their laws (order independence of a pair,
    sibling leaves sharing a root).
  - `keccak.rs`: the two Keccak-256 calls into `anchor_lang::solana_program`.
  - `fees.rs`: splitting a fee among the receivers, and the bound on the total.
  - `transfers.rs`: the transfers an instruction makes, and what they move.
  - `contexts/`: each instruction as a function from the accounts it reads to
    the accounts it writes and the transfers it makes, with the laws that
    relate them (removing liquidity undoes adding it; buying then selling an
    NFT leaves the pool as it was).
  - `states.rs`, `errors.rs`: the accounts and errors as plain values.
- `app/` is the Anchor program around the library: account validation,
  serialization, and the cross-program transfers.
- `tests/` runs the library on concrete values.
