# bcos_sdk

Client-side building blocks for FISCO BCOS chains, verified with Verus.

- `src/tars_serial.rs`: the Tars field encoder (heads, minimal-width
  integers, strings, byte lists), each writer proved to append exactly the
  field's bytes.
- `src/entity.rs`: the RPC records and the transaction, with its hash
  preimage and its Tars body.
- `src/bcos_api.rs`, `src/bcos_client_api.rs`: transaction signing and the
  request/reply decisions of the JSON-RPC client.
- `src/ens.rs`: label hashes and ENS name hashes.
- `src/event_log.rs`: raw logs built from receipt log entries, the
  library's ABI event model, and event decoding.
- `src/contract.rs`: the library's ABI function model, call data and the
  decoding of call outputs.
- `src/utils.rs`, `src/lib.rs`: keys and addresses, hex helpers, ABI token
  conversions, permission ids, revert reasons, status messages.
- `src/hexcodec.rs`, `src/crypto.rs`, `src/pem.rs`, `src/bytes.rs`: the
  specifications of the outside functions the library calls (hex,
  Keccak-256, secp256k1, PEM, UTF-8) and big-endian bytes.

`app/` holds what is not verified: configuration, files, TLS, the HTTPS
transport, the JSON forms of the records and the floating-point Tars fields.
