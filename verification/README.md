# mintlayer_app

The verified core of the Mintlayer application for Ledger hardware wallets,
written in Verus. The library holds the protocol and the decisions of the
application; `app/` runs it on the device (APDU exchange, hashing, key
derivation, signing and screens).

Modules of `src/`:

- `status`: the status words and their codes.
- `messages`, `codec`, `apdu`, `transport`, `command`: instruction codes,
  requests and answers (with their SCALE encoding), APDU chunking and the
  reassembly of chunked instructions, and command decoding.
- `encoding`: the SCALE encoding of transaction inputs, outputs and input
  commitments, the bytes that the transaction hash covers.
- `primitives`, `derivation`: transaction parts, networks, address prefixes
  and BIP44 derivation paths.
- `totals`, `summary`: the per-asset totals and the summary of a transaction
  (its kind, inputs, outputs and fees).
- `sign_tx`: the state machine of transaction signing; each step hands out
  the bytes for the caller to hash, and the context keeps only their model.
- `text`, `review`: what the user reads on screen: amounts, addresses, time
  locks, outputs, input commands, fees and titles.
- `sign_message`: message signing and public key addresses.
- `errors`: status words of cryptography and I/O errors.
- `legacy`, `legacy_review`: the first protocol version: its messages, status
  words, input paths, key compression and version parsing, and its review
  screens (outputs, fees, messages).
