# t22

Token-2022 mints for a remittance stablecoin, verified with Verus: a protocol fee on every transfer,
token accounts frozen until their holder has been identified, metadata on the mint itself, a mint
that can be closed, and a re-issued mint that adds seizure and confidential transfers.

## Layout

- `src/` is the library. Each instruction is a function from its accounts and arguments to the calls
  that it makes into the system program and the token program, or to the reason why it makes none.
  - `accounts` the accounts of each instruction and the rules they must meet
  - `mint` the four kinds of mint, the calls that create them, and what follows each call
  - `inspect` accepting mints by the extensions they carry
  - `remittance` quoting the fee, transferring with it, thawing
  - `confidential` configuring, approving, depositing, applying
  - `layout` the bytes of a mint
  - `fee`, `extension`, `key`, `step`, `error` the data the instructions speak of
  - `token_interface` the calls into the Token-2022 interface, which are believed, not proved
  - `laws` what holds of the instructions taken together
- `app/` is the on-chain program around the library: an Anchor program that reads accounts, the
  clock and the rent, and makes the planned calls. Its macros need to be built by cargo.
- `tests/` runs the library, in part against Token-2022 in a local virtual machine.

## The mints

| Instruction | Extensions | Bytes |
|---|---|---|
| `create_mint_declarative` | metadata pointer, close authority | 270 |
| `create_mint_with_fee` | close authority, transfer fee | 314 |
| `create_remittance_mint` | transfer fee, metadata pointer to the mint, default state frozen, close authority | 387 |
| `reissue_remittance_mint` | those of the remittance mint, permanent delegate, confidential transfers, confidential fees | 625 |

The bytes are what `MintKind::space` in `src/mint.rs` is proved to return.

Most extensions can only be set before a mint is initialized, so a remittance mint never gains
confidential transfers: the re-issued mint is a new mint.
