//! Permissioned real-world-asset tokens: fungible, unique and many in one contract.
//!
//! Each token stands on a base contract and adds to it who may send and receive, what is
//! frozen, and roles that mint, burn, freeze, seize and keep the allowlists. `urwa20`,
//! `urwa721` and `urwa1155` hold the tokens. `terms20`, `terms721` and `terms1155` state of each
//! request when it is granted, how it is refused and what it changes; `laws20`, `laws721` and
//! `laws1155` state what holds whatever is called, and `laws_shared` what holds of the parts that
//! the tokens share. `erc20`, `erc721`, `erc1155`, `access`, `storage` and
//! `host` are where the library meets the base contracts, the chain's storage and the host.

pub mod access;
pub mod account;
pub mod batch;
pub mod erc1155;
pub mod erc20;
pub mod erc721;
pub mod events;
pub mod host;
pub mod laws1155;
pub mod laws20;
pub mod laws721;
pub mod laws_shared;
pub mod receiver;
pub mod room;
pub mod storage;
pub mod sum;
pub mod terms1155;
pub mod terms20;
pub mod terms721;
pub mod uint;
pub mod urwa1155;
pub mod urwa20;
pub mod urwa721;
pub mod word;
