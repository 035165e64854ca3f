# programs

Verified instruction logic of three Solana programs written with Anchor:

- `staking`: NFT staking with a per-user cap, points for each full day an NFT
  stays staked, and rewards minted at one token per point;
- `randomness`: a dice game whose roll comes from the SHA-256 digest of the
  house's ed25519 signature over the bet;
- `marketplace`: the marketplace's account types.

`src/` is the library, checked by Verus. Instructions there take the accounts'
data as plain values and return the calls into other programs that they make
(transfers, mints, delegations) as values. `app/` is the Anchor program around
it: account validation, clock reads, and the calls themselves.
