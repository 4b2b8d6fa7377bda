//! A deterministic economic engine for a city-building game: sessions, cities
//! and buildings, a fixed catalog of building templates, and the state
//! transitions that build, upgrade, advance a cycle and reconfigure a city.
//!
//! Every handler decides failure from the state it was handed before it writes
//! anything, and leaves that state untouched when it fails.

use vstd::prelude::*;

pub mod resources;
pub mod catalog;
pub mod entities;
pub mod formulas;
pub mod session;
pub mod construction;
pub mod upgrade;
pub mod tick;
pub mod laws;

verus! {

/// An on-chain account address. The engine records these as identities and
/// references and never looks inside one.
#[verifier::external_type_specification]
#[verifier::external_body]
pub struct ExPubkey(anchor_lang::prelude::Pubkey);

/// Relies on `Pubkey`'s derived `Clone`: the type is `Copy`, so a clone is the
/// same 32 bytes.
pub assume_specification[ <anchor_lang::prelude::Pubkey as Clone>::clone ](
    key: &anchor_lang::prelude::Pubkey,
) -> (r: anchor_lang::prelude::Pubkey)
    ensures
        r == *key,
;

} // verus!
