//! A user's record: who owns it, and running counts of what the user did.

use crate::pubkey::{bytes_of, id, program_address, try_find_program_address, Pubkey, ID};
use vstd::pervasive::unreached;
use vstd::prelude::*;

verus! {

/// The first seed of every user record's address: `user` in ASCII.
pub const USER: [u8; 4] = [117, 115, 101, 114];

/// The record of one user.
#[derive(Clone, Copy, Debug)]
pub struct User {
    pub owner: Pubkey,
    pub username: [u8; 16],
    pub total_deposits: u64,
    pub total_withdraws: u64,
    pub incoming_tx: u32,
    pub outgoing_tx: u32,
    pub num_groups: u32,
    pub preferred_token: Option<Pubkey>,
}

impl Default for User {
    /// The empty record: zero keys and name, zero counts, no preferred token.
    fn default() -> (user: User)
        ensures
            user.owner@ == Seq::new(32, |i: int| 0u8),
            user.username@ == Seq::new(16, |i: int| 0u8),
            user.total_deposits == 0,
            user.total_withdraws == 0,
            user.incoming_tx == 0,
            user.outgoing_tx == 0,
            user.num_groups == 0,
            user.preferred_token is None,
    {
        User {
            owner: Pubkey::default(),
            username: [0u8;16],
            total_deposits: 0,
            total_withdraws: 0,
            incoming_tx: 0,
            outgoing_tx: 0,
            num_groups: 0,
            preferred_token: None,
        }
    }
}

/// One more than `count`, held at the largest `u32`.
pub open spec fn next_count(count: u32) -> u32 {
    if count < u32::MAX {
        (count + 1) as u32
    } else {
        u32::MAX
    }
}

impl User {
    /// Names the owner and the user; the counts stay.
    pub fn new(&mut self, owner: Pubkey, username: [u8; 16])
        ensures
            *final(self) == (User { owner, username, ..*old(self) }),
    {
        self.owner = owner;
        self.username = username;
    }

    /// The seeds of the record of the user at `pubkey`: the fixed prefix and
    /// the user's address.
    pub open spec fn address_seeds(pubkey: Pubkey) -> Seq<Seq<u8>> {
        seq![USER@, pubkey@]
    }

    /// The address of the record of the user at `pubkey`, with its bump, as
    /// this program derives it; `None` where no bump gives an address.
    pub open spec fn address(pubkey: Pubkey) -> Option<(Seq<u8>, u8)> {
        program_address(Self::address_seeds(pubkey), ID@)
    }

    /// The address of the record of the user at `pubkey`, and its bump.
    pub fn get_user_address(pubkey: Pubkey) -> (found: (Pubkey, u8))
        requires
            Self::address(pubkey) is Some,
        ensures
            Self::address(pubkey) == Some((found.0@, found.1)),
    {
        match try_find_program_address(USER.as_slice(), pubkey.0.as_slice(), &id()) {
            Some(found) => found,
            None => unreached(),
        }
    }

    /// As [`User::get_user_address`], and `None` where the seeds give no
    /// address.
    pub fn try_get_user_address(pubkey: Pubkey) -> (found: Option<(Pubkey, u8)>)
        ensures
            match found {
                Some((address, bump)) => Self::address(pubkey) == Some((address@, bump)),
                None => Self::address(pubkey) is None,
            },
    {
        match try_find_program_address(USER.as_slice(), pubkey.0.as_slice(), &id()) {
            Some(_) => Some(Self::get_user_address(pubkey)),
            None => None,
        }
    }

    /// The seeds under which the record of the user at `pubkey` signs: the
    /// fixed prefix, the user's address, and the bump.
    pub fn get_user_signer_seeds<'a>(pubkey: &'a Pubkey, bump: &'a u8) -> (seeds: [&'a [u8]; 3])
        ensures
            seeds[0]@ == USER@,
            seeds[1]@ == pubkey@,
            seeds[2]@ == seq![*bump],
    {
        [USER.as_slice(), pubkey.0.as_slice(), bytes_of(bump)]
    }

    /// Counts one transaction sent; the count is held at the largest `u32`.
    pub fn increment_outgoing_transactions(&mut self)
        ensures
            *final(self) == (User { outgoing_tx: next_count(old(self).outgoing_tx), ..*old(self) }),
    {
        self.outgoing_tx = self.outgoing_tx.saturating_add(1);
    }

    /// Counts one transaction received; the count is held at the largest
    /// `u32`.
    pub fn increment_incoming_transactions(&mut self)
        ensures
            *final(self) == (User { incoming_tx: next_count(old(self).incoming_tx), ..*old(self) }),
    {
        self.incoming_tx = self.incoming_tx.saturating_add(1);
    }

    /// Counts one withdrawal; the count is held at the largest `u64`.
    pub fn increment_withdrawals(&mut self)
        ensures
            *final(self) == (User {
                total_withdraws: if old(self).total_withdraws < u64::MAX {
                    (old(self).total_withdraws + 1) as u64
                } else {
                    u64::MAX
                },
                ..*old(self)
            }),
    {
        self.total_withdraws = self.total_withdraws.saturating_add(1);
    }

    /// Counts one group joined; the count is held at the largest `u32`.
    pub fn increment_groups(&mut self)
        ensures
            *final(self) == (User { num_groups: next_count(old(self).num_groups), ..*old(self) }),
    {
        self.num_groups = self.num_groups.saturating_add(1);
    }

    /// Names the token that the user prefers.
    pub fn set_preferred_token(&mut self, token: Pubkey)
        ensures
            *final(self) == (User { preferred_token: Some(token), ..*old(self) }),
    {
        self.preferred_token = Some(token);
    }

    /// Forgets the token that the user prefers.
    pub fn disable_preferred_token(&mut self)
        ensures
            *final(self) == (User { preferred_token: None, ..*old(self) }),
    {
        self.preferred_token = None;
    }
}

} // verus!
