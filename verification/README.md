# urwa

Permissioned tokens for real-world assets, with their rules proved in Verus.

Three tokens share one set of rules: accounts on a send-allowlist may send, accounts on a
receive-allowlist may receive, what is frozen cannot be sent, and holders of roles mint, burn,
freeze, seize and keep the allowlists.

| Module | Token |
|--------|-------|
| `src/urwa20.rs` | fungible shares |
| `src/urwa721.rs` | unique deeds, each frozen or not |
| `src/urwa1155.rs` | many tokens in one contract, in batches |

Every method says what it answers and what it leaves behind, over a record of all that the token
keeps: balances, freezes, allowlists, roles and the event log. `src/laws20.rs`,
`src/laws721.rs` and `src/laws1155.rs` prove what follows from that for every call and every
history of calls: that the books balance, that frozen tokens stay where they are unless they are
burned or seized, that a batch cannot get round a freeze by repeating an id, that a seizure that
leads back to its victim changes nothing, that `can_transfer` agrees with what a transfer does,
and that privileged calls take their role.

The base contracts come from `openzeppelin-stylus`. What is believed of them, of contract storage
and of the host stands in `src/erc20.rs`, `src/erc721.rs`, `src/erc1155.rs`, `src/access.rs`,
`src/storage.rs` and `src/host.rs`, one function at a time; the tests run the real ones.

`app/` lays the tokens out as Stylus contracts: storage, selectors, errors and conversions.
