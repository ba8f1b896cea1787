# regl

RATS Evidence Generation Library: collects attestation evidence from TEE
platforms (Arm CCA through the Linux TSM interface, through a RATSD daemon,
or simulated from claims and keys).

The library under `src/` is written in Verus: each function states its
behaviour in `requires`/`ensures` and Verus proves it.

- `src/tsm/` — the Linux configfs-tsm report interface: the report, its
  errors, and the report builder that decides which attributes to write, in
  which order, and what the files read back mean (the generation counter
  must confirm every write).
- `src/attesters/ratsd.rs` — the RATSD challenge-response request and the
  meaning of its answer.
- `src/attesters/cca/` — nonce checking, the simulated attester, extraction
  of the CCA token from a RATSD CMW envelope, and `utils/`: the claim types,
  their CBOR maps, checking and encoding a CCA token (tag 399 around two
  ES384 COSE_Sign1 objects), decoding one, hashing and signing.
- `src/text.rs` — text helpers shared by the error messages.

Calls into outside crates (`ciborium`, `coset`, `p384`, `sha2`, `base64`,
`serde_json`, `cmw`, `ccatoken`, `url`) stand behind small trusted wrappers
whose contracts say what the call returns, or give the result a name.

`app/` holds what performs I/O: the TSM attester that writes and reads the
configfs files, the HTTP client for RATSD, the JSON form of the claims, and
command-line drivers.  `tests/` exercises the library.
