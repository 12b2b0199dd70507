//! Per-round protocol state.
pub mod round_state;

pub use round_state::{RoundState, RoundStateConfig};
