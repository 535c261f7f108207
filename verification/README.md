# hocket_genet

Host-local identity for Hocket, verified with Verus.

A musician is known by one public key. They paste it to peers as a contact
token, and envelopes they sign name it. So the rules here are about keeping that
key: opening an identity, moving its data to a new name and placing it in a
shared vault must never turn its owner into somebody else.

## Layout

- `src/text.rs`: white space, numerals and hexadecimal.
- `src/key.rs`: public keys, decoded by the `personae` crate.
- `src/token.rs`: contact tokens and fingerprints.
- `src/home.rs`: where an identity lives, and how that is told.
- `src/identity.rs`: an identity.
- `src/settle.rs`, `src/vault.rs`: settling in the shared vault, and its laws.
- `src/records.rs`: adopting a sealed record of the earlier product name.
- `src/roots.rs`: data directories, and the move from the earlier one.
- `src/opening.rs`, `src/opened.rs`: opening an identity, and its laws.
- `src/machine.rs`: what opening comes to on a whole machine, run after run.
- `app/`: the environment, the file system, the sealed records and the vault.

Disks are read and written in `app/` alone. Each of the stages in `src/` says
what to ask for next and takes the reply; `app/` asks.

## What is trusted

- `personae::Ed25519PublicKey::from_bytes`, behind `key::decode_public_key`.
- `String::push`.
