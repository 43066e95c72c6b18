//! A time-weighted average price oracle fed by the top of a live order book,
//! with the market record that owns it and the trading entry points that keep
//! it current.

pub mod history;
pub mod instructions;
pub mod market;
pub mod oracle;
pub mod orders;
pub mod pubkey;
pub mod quote;
pub mod user;

pub use instructions::{
    cancel_all_orders, cancel_and_place_orders, cancel_order_by_client_id, close_market,
    edit_order, get_best_bid_and_ask, place_order, place_take_order, prune_orders, OrderBookCall,
    SignedCall,
};
pub use market::{create_twap_market, MarketSettings, OpenBookTWAPError, TWAPMarket, TWAP_MARKET};
pub use oracle::{OracleError, Snapshot, TWAPOracle};
pub use orders::{PlaceOrderArgs, PlaceOrderType, PlaceTakeOrderArgs, SelfTradeBehavior, Side};
pub use pubkey::{id, Pubkey, ID};
pub use user::{User, USER};
