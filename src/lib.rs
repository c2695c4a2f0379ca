//! Navigation, focus and order-entry state machine behind a terminal
//! dashboard for market data and trade orders.

pub mod route;
pub mod nav;
pub mod order;
pub mod listing;
pub mod market;
pub mod dashboard;
pub mod view;
