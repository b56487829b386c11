//! The domain records the commands work on: collectible characters,
//! accounts, and alliances.

use vstd::prelude::*;
use crate::fmt::spec_udecimal;

verus! {

/// A collectible character.
pub struct Waifu {
    pub _id: u16,
    pub name: String,
    pub description: String,
    pub gdrive_id: String,
    pub likes: u32,
    pub trash: u32,
}

/// The sale price of a character: its net popularity plus a 175 base,
/// clamped into the unsigned 32-bit range.
pub open spec fn spec_waifu_price(likes: u32, trash: u32) -> int {
    let v = likes - trash + 175;
    if v <= 0 {
        0
    } else if v > u32::MAX {
        u32::MAX as int
    } else {
        v
    }
}

impl Waifu {
    /// The URL the character's image is served from.
    pub fn download_url(&self) -> (r: String)
        ensures
            r@ == "https://worker-rust.reachvishm8605.workers.dev/image/"@ + self.gdrive_id@,
    {
        let mut s = String::from_str("https://worker-rust.reachvishm8605.workers.dev/image/");
        s.append(self.gdrive_id.as_str());
        s
    }

    /// The sale price, computed over the integers and clamped.
    pub fn price(&self) -> (r: u32)
        ensures
            r == spec_waifu_price(self.likes, self.trash),
    {
        let v: i64 = self.likes as i64 - self.trash as i64 + 175;
        if v <= 0 {
            0
        } else if v > u32::MAX as i64 {
            u32::MAX
        } else {
            v as u32
        }
    }
}

/// A player account.
pub struct Account {
    pub user_id: i64,
    pub currency: i32,
    pub premium_currency: i32,
    pub waifus: Vec<i16>,
    pub packs: i16,
    pub premium_one_packs: i16,
    pub experience: i32,
}

impl Account {
    /// The level shown in the account view: experience divided by 250,
    /// truncated towards zero.
    pub fn level(&self) -> (r: i32)
        ensures
            self.experience >= 0 ==> r == self.experience as int / 250,
            self.experience < 0 ==> r == -((-self.experience) as int / 250),
    {
        if self.experience >= 0 {
            self.experience / 250
        } else {
            let m: i64 = -(self.experience as i64);
            -((m / 250) as i32)
        }
    }
}

/// A cooperative group of players, owned by one of them.
pub struct Alliance {
    pub owner: i64,
    pub name: String,
    pub members: Vec<i64>,
}

impl Alliance {
    /// How many players the alliance has, the owner included.
    pub fn total_members(&self) -> (r: usize)
        requires
            self.members@.len() < usize::MAX,
        ensures
            r == self.members@.len() + 1,
    {
        self.members.len() + 1
    }
}

/// The label an alliance member is anonymised to in the rendered graph.
pub fn member_label(idx: u64) -> (r: String)
    ensures
        r@ == "Member "@ + spec_udecimal(idx as nat),
{
    let mut s = String::from_str("Member ");
    crate::fmt::append_u64(&mut s, idx);
    s
}

} // verus!
