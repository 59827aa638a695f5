//! A small shared-state container: one counter, three text fields and one
//! single-precision number kept as its bit pattern, built on first use with
//! fixed defaults and read and written one field at a time.

pub mod laws;
pub mod shared;
pub mod state;

pub use shared::{
    get_counter, get_decimal, get_fave_car, get_fave_team, get_message, increment_counter,
    set_decimal, set_fave_car, set_fave_team, set_message, wasm_init, SharedState,
};
pub use state::{HelloState, HelloStateView};
