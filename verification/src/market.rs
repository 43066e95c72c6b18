//! The record that ties an oracle to the market it observes, and the
//! admission of a market.

use crate::oracle::{OracleModel, TWAPOracle};
use crate::pubkey::{bytes_of, Pubkey};
use vstd::prelude::*;

verus! {

/// The first seed of every market record's address: `twap_market` in ASCII.
pub const TWAP_MARKET: [u8; 11] = [116, 119, 97, 112, 95, 109, 97, 114, 107, 101, 116];

/// One market's oracle, with what is needed to sign for the market.
#[derive(Clone, Copy, Debug)]
pub struct TWAPMarket {
    pub market: Pubkey,
    pub pda_bump: u8,
    pub twap_oracle: TWAPOracle,
    pub close_market_rent_receiver: Pubkey,
}

impl TWAPMarket {
    /// The seeds under which the record of `market` signs: the fixed prefix,
    /// the market's address, and the bump.
    pub fn get_twap_market_seeds<'a>(market: &'a Pubkey, bump: &'a u8) -> (seeds: [&'a [u8]; 3])
        ensures
            seeds[0]@ == TWAP_MARKET@,
            seeds[1]@ == market@,
            seeds[2]@ == seq![*bump],
    {
        [TWAP_MARKET.as_slice(), market.0.as_slice(), bytes_of(bump)]
    }
}

/// Why a market is refused.
#[derive(Clone, Copy, Debug, PartialEq, Eq, Structural)]
pub enum OpenBookTWAPError {
    /// Another key than the record's may open orders on the market.
    InvalidOpenOrdersAdmin,
    /// Another key than the record's may close the market.
    InvalidCloseMarketAdmin,
    /// The market has an oracle of its own attached.
    NoOracles,
    /// The market charges makers a fee, or pays them one.
    InvalidMakerFee,
    /// The market charges takers a fee.
    InvalidTakerFee,
    /// Orders have been placed on the market before.
    InvalidSeqNum,
    /// A key is set that may consume the market's events.
    InvalidConsumeEventsAdmin,
}

impl OpenBookTWAPError {
    /// The text of [`OpenBookTWAPError::message`].
    pub open spec fn text(self) -> Seq<char> {
        match self {
            OpenBookTWAPError::InvalidOpenOrdersAdmin => "The `open_orders_admin` of the underlying market must be equal to the `TWAPMarket` PDA"@,
            OpenBookTWAPError::InvalidCloseMarketAdmin => "The `close_market_admin` of the underlying market must be equal to the `TWAPMarket` PDA"@,
            OpenBookTWAPError::NoOracles => "Oracle-pegged trades mess up the TWAP so oracles and oracle-pegged trades aren't allowed"@,
            OpenBookTWAPError::InvalidMakerFee => "Maker fee must be zero"@,
            OpenBookTWAPError::InvalidTakerFee => "Taker fee must be zero"@,
            OpenBookTWAPError::InvalidSeqNum => "Seq num must be zero"@,
            OpenBookTWAPError::InvalidConsumeEventsAdmin => "Consume events admin must be None"@,
        }
    }

    /// The text that goes with the refusal.
    pub fn message(&self) -> (message: &'static str)
        ensures
            message@ == self.text(),
    {
        match self {
            OpenBookTWAPError::InvalidOpenOrdersAdmin => "The `open_orders_admin` of the underlying market must be equal to the `TWAPMarket` PDA",
            OpenBookTWAPError::InvalidCloseMarketAdmin => "The `close_market_admin` of the underlying market must be equal to the `TWAPMarket` PDA",
            OpenBookTWAPError::NoOracles => "Oracle-pegged trades mess up the TWAP so oracles and oracle-pegged trades aren't allowed",
            OpenBookTWAPError::InvalidMakerFee => "Maker fee must be zero",
            OpenBookTWAPError::InvalidTakerFee => "Taker fee must be zero",
            OpenBookTWAPError::InvalidSeqNum => "Seq num must be zero",
            OpenBookTWAPError::InvalidConsumeEventsAdmin => "Consume events admin must be None",
        }
    }
}

/// What admission reads of the market that is to be wrapped. A key that the
/// market leaves unset is `None`.
#[derive(Clone, Copy, Debug)]
pub struct MarketSettings {
    pub open_orders_admin: Option<Pubkey>,
    pub close_market_admin: Option<Pubkey>,
    pub consume_events_admin: Option<Pubkey>,
    pub oracle_a: Option<Pubkey>,
    pub oracle_b: Option<Pubkey>,
    pub seq_num: u64,
    pub maker_fee: i64,
    pub taker_fee: i64,
}

impl MarketSettings {
    /// The first reason, in the order of the checks, for which the record at
    /// `twap_market` cannot govern this market; `None` where it can. The
    /// record must be the one that may open orders and close the market,
    /// nobody may be set to consume events, no other oracle may be attached,
    /// no order may have been placed yet, and both fees must be zero.
    pub open spec fn refusal(self, twap_market: Pubkey) -> Option<OpenBookTWAPError> {
        if self.open_orders_admin != Some(twap_market) {
            Some(OpenBookTWAPError::InvalidOpenOrdersAdmin)
        } else if self.close_market_admin != Some(twap_market) {
            Some(OpenBookTWAPError::InvalidCloseMarketAdmin)
        } else if self.consume_events_admin is Some {
            Some(OpenBookTWAPError::InvalidConsumeEventsAdmin)
        } else if self.oracle_a is Some || self.oracle_b is Some {
            Some(OpenBookTWAPError::NoOracles)
        } else if self.seq_num != 0 {
            Some(OpenBookTWAPError::InvalidSeqNum)
        } else if self.maker_fee != 0 {
            Some(OpenBookTWAPError::InvalidMakerFee)
        } else if self.taker_fee != 0 {
            Some(OpenBookTWAPError::InvalidTakerFee)
        } else {
            None
        }
    }
}

/// Whether `admin` is set, and to `key`.
fn is_key(admin: &Option<Pubkey>, key: &Pubkey) -> (same: bool)
    ensures
        same == (*admin == Some(*key)),
{
    match admin {
        Some(set) => *set == *key,
        None => false,
    }
}

/// Admits `market` under the record at `twap_market_key`, or refuses it. An
/// admitted market gets a record with a fresh oracle, created at
/// `current_slot`; `payer` is who receives the rent when the market is
/// closed.
pub fn create_twap_market(
    market: &MarketSettings,
    market_key: Pubkey,
    twap_market_key: Pubkey,
    pda_bump: u8,
    payer: Pubkey,
    current_slot: u64,
    expected_value: u64,
    max_observation_change_per_update_lots: u64,
) -> (created: Result<TWAPMarket, OpenBookTWAPError>)
    ensures
        match created {
            Ok(twap_market) => {
                &&& market.refusal(twap_market_key) is None
                &&& twap_market.market == market_key
                &&& twap_market.pda_bump == pda_bump
                &&& twap_market.close_market_rent_receiver == payer
                &&& twap_market.twap_oracle.wf()
                &&& twap_market.twap_oracle@ == OracleModel::created(
                    expected_value as nat,
                    max_observation_change_per_update_lots as nat,
                    current_slot as nat,
                )
            },
            Err(error) => market.refusal(twap_market_key) == Some(error),
        },
{
    if !is_key(&market.open_orders_admin, &twap_market_key) {
        return Err(OpenBookTWAPError::InvalidOpenOrdersAdmin);
    }
    if !is_key(&market.close_market_admin, &twap_market_key) {
        return Err(OpenBookTWAPError::InvalidCloseMarketAdmin);
    }
    if market.consume_events_admin.is_some() {
        return Err(OpenBookTWAPError::InvalidConsumeEventsAdmin);
    }
    if market.oracle_a.is_some() {
        return Err(OpenBookTWAPError::NoOracles);
    }
    if market.oracle_b.is_some() {
        return Err(OpenBookTWAPError::NoOracles);
    }
    if market.seq_num != 0 {
        return Err(OpenBookTWAPError::InvalidSeqNum);
    }
    if market.maker_fee != 0 {
        return Err(OpenBookTWAPError::InvalidMakerFee);
    }
    if market.taker_fee != 0 {
        return Err(OpenBookTWAPError::InvalidTakerFee);
    }
    Ok(
        TWAPMarket {
            market: market_key,
            pda_bump,
            twap_oracle: TWAPOracle::new(
                expected_value,
                max_observation_change_per_update_lots,
                current_slot,
            ),
            close_market_rent_receiver: payer,
        },
    )
}

} // verus!
