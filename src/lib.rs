//! MetaBricks: an on-chain program core that decodes compact binary
//! instructions, validates the accounts handed to it, plans the issuance of
//! non-fungible assets and keeps the sale ledger of a fixed brick inventory.

pub mod error;
pub mod codec;
pub mod ledger;
pub mod records;
pub mod accounts;
pub mod processor;
pub mod issue;
