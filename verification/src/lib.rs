//! Physics and collision kernel of a side-scrolling platformer: one character
//! moving under gravity over a fixed set of horizontal platforms.
//!
//! Every quantity is an exact fixed-point number, so each step of the
//! simulation is plain integer arithmetic with a proved outcome.

pub mod board;
pub mod direction;
pub mod error;
pub mod laws;
pub mod state;
pub mod units;

pub use board::{Board, Coin, CoinValue, Platform};
pub use direction::Direction;
pub use error::SimulationError;
pub use state::State;
pub use units::{
    millis_to_seconds, Meters, MetersPerSecond, Millis, Seconds, ToPixels,
};
