//! The summon command's verified core: pack kinds, the pack ownership
//! check, and what summoning consumes.

use vstd::prelude::*;
use crate::models::Account;

verus! {

/// A purchasable pack of characters.
#[derive(Clone, Copy, PartialEq, Eq, Structural, Debug)]
pub enum PackChoice {
    StandardPack,
    GoldPack,
}

impl PackChoice {
    /// How many characters the pack summons.
    pub fn waifu_count(&self) -> (r: u32)
        ensures
            r == (match self {
                PackChoice::StandardPack => 3u32,
                PackChoice::GoldPack => 5u32,
            }),
    {
        match self {
            PackChoice::StandardPack => 3,
            PackChoice::GoldPack => 5,
        }
    }

    /// Whether the account owns at least one pack of this kind.
    pub fn has_packs(&self, account: &Account) -> (r: bool)
        ensures
            r == (match self {
                PackChoice::StandardPack => account.packs > 0,
                PackChoice::GoldPack => account.premium_one_packs > 0,
            }),
    {
        match self {
            PackChoice::StandardPack => account.packs > 0,
            PackChoice::GoldPack => account.premium_one_packs > 0,
        }
    }

    /// What summoning subtracts from the account's pack counts, as the
    /// (standard, premium) deltas handed to the store.
    pub fn consumption(&self) -> (r: (i16, i16))
        ensures
            r == (match self {
                PackChoice::StandardPack => (-1i16, 0i16),
                PackChoice::GoldPack => (0i16, -1i16),
            }),
    {
        match self {
            PackChoice::StandardPack => (-1, 0),
            PackChoice::GoldPack => (0, -1),
        }
    }
}

} // verus!
