//! The entry points of the program. Each trading operation first lets the
//! oracle observe the book and then names the call that is forwarded to the
//! order book program under the market record's signature. To read the best
//! bid and ask touches no oracle.

use crate::market::{TWAPMarket, TWAP_MARKET};
use crate::oracle::Snapshot;
use crate::orders::{PlaceOrderArgs, PlaceTakeOrderArgs, Side};
use crate::pubkey::Pubkey;
use crate::quote::{same_bits, to_unsigned};
use vstd::prelude::*;
use vstd::slice::slice_to_vec;

verus! {

/// A call into the order book program, with its arguments.
#[derive(Debug)]
pub enum OrderBookCall {
    /// Place one order.
    PlaceOrder { place_order_args: PlaceOrderArgs },
    /// Cancel the order with `client_order_id`, of which `expected_cancel_size`
    /// is expected to be left, and place another.
    EditOrder { client_order_id: u64, expected_cancel_size: i64, place_order: PlaceOrderArgs },
    /// Cancel the order with `client_order_id`.
    CancelOrderByClientOrderId { client_order_id: u64 },
    /// Cancel up to `limit` orders of one side, or of both.
    CancelAllOrders { side_option: Option<Side>, limit: u8 },
    /// Remove up to `limit` orders of an account from a market that closes.
    PruneOrders { limit: u8 },
    /// Close the market.
    CloseMarket,
    /// Match one order at once.
    PlaceTakeOrder { args: PlaceTakeOrderArgs },
    /// Cancel the orders with the given ids, then place the given orders.
    CancelAndPlaceOrders { cancel_client_orders_ids: Vec<u64>, place_orders: Vec<PlaceOrderArgs> },
}

/// A call to forward, and the seeds that sign it.
#[derive(Debug)]
pub struct SignedCall {
    pub signer_seeds: Vec<Vec<u8>>,
    pub call: OrderBookCall,
}

impl SignedCall {
    /// The call is `call`, signed by the record of `market` with `bump`: the
    /// seeds are those of [`TWAPMarket::get_twap_market_seeds`].
    pub open spec fn is_signed(self, call: OrderBookCall, market: Pubkey, bump: u8) -> bool {
        &&& self.call == call
        &&& self.signer_seeds@.len() == 3
        &&& self.signer_seeds@[0]@ == TWAP_MARKET@
        &&& self.signer_seeds@[1]@ == market@
        &&& self.signer_seeds@[2]@ == seq![bump]
    }
}

/// `after` is `before` once its oracle has made one attempt on `snapshot`:
/// nothing else of the record has changed.
pub open spec fn observed(before: TWAPMarket, after: TWAPMarket, snapshot: Snapshot) -> bool {
    &&& after.twap_oracle.wf()
    &&& after.twap_oracle@ == before.twap_oracle@.after_snapshot(snapshot)
    &&& after.market == before.market
    &&& after.pda_bump == before.pda_bump
    &&& after.close_market_rent_receiver == before.close_market_rent_receiver
}

/// Signs `call` for the record of `market_key`.
fn sign(market_key: &Pubkey, bump: u8, call: OrderBookCall) -> (signed: SignedCall)
    ensures
        signed.is_signed(call, *market_key, bump),
{
    let seeds = TWAPMarket::get_twap_market_seeds(market_key, &bump);
    let mut signer_seeds: Vec<Vec<u8>> = Vec::new();
    signer_seeds.push(slice_to_vec(seeds[0]));
    signer_seeds.push(slice_to_vec(seeds[1]));
    signer_seeds.push(slice_to_vec(seeds[2]));
    SignedCall { signer_seeds, call }
}

/// Lets the oracle of `twap_market` make its attempt on `snapshot`.
fn observe(twap_market: &mut TWAPMarket, snapshot: &Snapshot)
    requires
        old(twap_market).twap_oracle.wf(),
    ensures
        observed(*old(twap_market), *final(twap_market), *snapshot),
{
    twap_market.twap_oracle.update_oracle(snapshot.slot, snapshot.best_bid, snapshot.best_ask);
}

/// Places an order.
pub fn place_order(
    twap_market: &mut TWAPMarket,
    market_key: &Pubkey,
    snapshot: &Snapshot,
    place_order_args: PlaceOrderArgs,
) -> (signed: SignedCall)
    requires
        old(twap_market).twap_oracle.wf(),
    ensures
        observed(*old(twap_market), *final(twap_market), *snapshot),
        signed.is_signed(
            OrderBookCall::PlaceOrder { place_order_args },
            *market_key,
            old(twap_market).pda_bump,
        ),
{
    observe(twap_market, snapshot);
    sign(market_key, twap_market.pda_bump, OrderBookCall::PlaceOrder { place_order_args })
}

/// Replaces the order that carries `client_order_id` by `place_order`.
pub fn edit_order(
    twap_market: &mut TWAPMarket,
    market_key: &Pubkey,
    snapshot: &Snapshot,
    client_order_id: u64,
    expected_cancel_size: i64,
    place_order: PlaceOrderArgs,
) -> (signed: SignedCall)
    requires
        old(twap_market).twap_oracle.wf(),
    ensures
        observed(*old(twap_market), *final(twap_market), *snapshot),
        signed.is_signed(
            OrderBookCall::EditOrder { client_order_id, expected_cancel_size, place_order },
            *market_key,
            old(twap_market).pda_bump,
        ),
{
    observe(twap_market, snapshot);
    sign(
        market_key,
        twap_market.pda_bump,
        OrderBookCall::EditOrder { client_order_id, expected_cancel_size, place_order },
    )
}

/// Cancels the order that carries `client_order_id`.
pub fn cancel_order_by_client_id(
    twap_market: &mut TWAPMarket,
    market_key: &Pubkey,
    snapshot: &Snapshot,
    client_order_id: u64,
) -> (signed: SignedCall)
    requires
        old(twap_market).twap_oracle.wf(),
    ensures
        observed(*old(twap_market), *final(twap_market), *snapshot),
        signed.is_signed(
            OrderBookCall::CancelOrderByClientOrderId { client_order_id },
            *market_key,
            old(twap_market).pda_bump,
        ),
{
    observe(twap_market, snapshot);
    sign(
        market_key,
        twap_market.pda_bump,
        OrderBookCall::CancelOrderByClientOrderId { client_order_id },
    )
}

/// Cancels up to `limit` orders, on one side or on both.
pub fn cancel_all_orders(
    twap_market: &mut TWAPMarket,
    market_key: &Pubkey,
    snapshot: &Snapshot,
    side_option: Option<Side>,
    limit: u8,
) -> (signed: SignedCall)
    requires
        old(twap_market).twap_oracle.wf(),
    ensures
        observed(*old(twap_market), *final(twap_market), *snapshot),
        signed.is_signed(
            OrderBookCall::CancelAllOrders { side_option, limit },
            *market_key,
            old(twap_market).pda_bump,
        ),
{
    observe(twap_market, snapshot);
    sign(market_key, twap_market.pda_bump, OrderBookCall::CancelAllOrders { side_option, limit })
}

/// Removes up to `limit` orders of an account from a market that is being
/// closed. The oracle does not observe.
pub fn prune_orders(twap_market: &TWAPMarket, market_key: &Pubkey, limit: u8) -> (signed:
    SignedCall)
    ensures
        signed.is_signed(OrderBookCall::PruneOrders { limit }, *market_key, twap_market.pda_bump),
{
    sign(market_key, twap_market.pda_bump, OrderBookCall::PruneOrders { limit })
}

/// Closes the market. The oracle does not observe.
pub fn close_market(twap_market: &TWAPMarket, market_key: &Pubkey) -> (signed: SignedCall)
    ensures
        signed.is_signed(OrderBookCall::CloseMarket, *market_key, twap_market.pda_bump),
{
    sign(market_key, twap_market.pda_bump, OrderBookCall::CloseMarket)
}

/// Matches an order at once.
pub fn place_take_order(
    twap_market: &mut TWAPMarket,
    market_key: &Pubkey,
    snapshot: &Snapshot,
    args: PlaceTakeOrderArgs,
) -> (signed: SignedCall)
    requires
        old(twap_market).twap_oracle.wf(),
    ensures
        observed(*old(twap_market), *final(twap_market), *snapshot),
        signed.is_signed(
            OrderBookCall::PlaceTakeOrder { args },
            *market_key,
            old(twap_market).pda_bump,
        ),
{
    observe(twap_market, snapshot);
    sign(market_key, twap_market.pda_bump, OrderBookCall::PlaceTakeOrder { args })
}

/// Cancels the orders that carry the given ids and places new ones.
pub fn cancel_and_place_orders(
    twap_market: &mut TWAPMarket,
    market_key: &Pubkey,
    snapshot: &Snapshot,
    cancel_client_orders_ids: Vec<u64>,
    place_orders: Vec<PlaceOrderArgs>,
) -> (signed: SignedCall)
    requires
        old(twap_market).twap_oracle.wf(),
    ensures
        observed(*old(twap_market), *final(twap_market), *snapshot),
        signed.is_signed(
            OrderBookCall::CancelAndPlaceOrders { cancel_client_orders_ids, place_orders },
            *market_key,
            old(twap_market).pda_bump,
        ),
{
    observe(twap_market, snapshot);
    sign(
        market_key,
        twap_market.pda_bump,
        OrderBookCall::CancelAndPlaceOrders { cancel_client_orders_ids, place_orders },
    )
}

/// The best bid and the best ask, in this order, each as an unsigned number
/// and zero where that side of the book is empty.
pub fn get_best_bid_and_ask(best_bid: Option<i64>, best_ask: Option<i64>) -> (prices: Vec<u64>)
    ensures
        prices@.len() == 2,
        prices@[0] == same_bits(
            match best_bid {
                Some(price) => price as int,
                None => 0,
            },
        ),
        prices@[1] == same_bits(
            match best_ask {
                Some(price) => price as int,
                None => 0,
            },
        ),
{
    let bid: i64 = match best_bid {
        Some(price) => price,
        None => 0,
    };
    let ask: i64 = match best_ask {
        Some(price) => price,
        None => 0,
    };
    let mut prices: Vec<u64> = Vec::new();
    prices.push(to_unsigned(bid));
    prices.push(to_unsigned(ask));
    prices
}

} // verus!
