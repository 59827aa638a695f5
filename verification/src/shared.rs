//! The single shared instance: empty until the first operation touches it,
//! then built with the defaults and kept for good. Every operation takes the
//! instance, does one read or one write of one field, and hands it back.

use vstd::prelude::*;
use crate::state::{HelloState, HelloStateView};

verus! {

/// The slot that holds the one instance. Its value is `None` while nothing has
/// touched it, and `Some` of the state ever after.
pub struct SharedState {
    slot: Option<HelloState>,
}

impl View for SharedState {
    type V = Option<HelloStateView>;

    closed spec fn view(&self) -> Option<HelloStateView> {
        match self.slot {
            Some(state) => Some(state@),
            None => None,
        }
    }
}

/// What an operation finds in the slot: the state that is there, or the
/// defaults where none was built yet.
pub open spec fn observed(slot: Option<HelloStateView>) -> HelloStateView {
    match slot {
        Some(state) => state,
        None => HelloStateView::initial(),
    }
}

impl SharedState {
    /// An empty slot: nothing is built until the first operation.
    pub fn new() -> (shared: SharedState)
        ensures
            shared@ == None::<HelloStateView>,
    {
        SharedState { slot: None }
    }

    /// Takes the state out of the slot, building it first where the slot is
    /// empty.
    fn take_state(&mut self) -> (state: HelloState)
        ensures
            state@ == observed(old(self)@),
            final(self)@ == None::<HelloStateView>,
    {
        match self.slot.take() {
            Some(state) => state,
            None => HelloState::new(),
        }
    }

    /// Puts the state into the slot.
    fn put_state(&mut self, state: HelloState)
        ensures
            final(self)@ == Some(state@),
    {
        self.slot = Some(state);
    }
}

/// Sets the counter to `initial_counter`. The other fields keep what they
/// held, or get their defaults where this is the first operation.
pub fn wasm_init(shared: &mut SharedState, initial_counter: i32)
    ensures
        final(shared)@ == Some(observed(old(shared)@).with_counter(initial_counter)),
{
    let mut state = shared.take_state();
    state.set_counter(initial_counter);
    shared.put_state(state);
}

/// Reads the counter. The slot is built afterwards and its fields are as the
/// call found them.
pub fn get_counter(shared: &mut SharedState) -> (counter: i32)
    ensures
        counter == observed(old(shared)@).counter,
        final(shared)@ == Some(observed(old(shared)@)),
{
    let state = shared.take_state();
    let counter = state.get_counter();
    shared.put_state(state);
    counter
}

/// Adds one to the counter, wrapping round from the greatest value to the
/// least.
pub fn increment_counter(shared: &mut SharedState)
    ensures
        final(shared)@ == Some(observed(old(shared)@).incremented()),
{
    let mut state = shared.take_state();
    state.increment_counter();
    shared.put_state(state);
}

/// Reads the message.
pub fn get_message(shared: &mut SharedState) -> (message: String)
    ensures
        message@ == observed(old(shared)@).message,
        final(shared)@ == Some(observed(old(shared)@)),
{
    let state = shared.take_state();
    let message = state.get_message();
    shared.put_state(state);
    message
}

/// Replaces the message, whatever its length or content.
pub fn set_message(shared: &mut SharedState, message: String)
    ensures
        final(shared)@ == Some(observed(old(shared)@).with_message(message@)),
{
    let mut state = shared.take_state();
    state.set_message(message);
    shared.put_state(state);
}

/// Reads the favourite car.
pub fn get_fave_car(shared: &mut SharedState) -> (car: String)
    ensures
        car@ == observed(old(shared)@).car,
        final(shared)@ == Some(observed(old(shared)@)),
{
    let state = shared.take_state();
    let car = state.get_fave_car();
    shared.put_state(state);
    car
}

/// Replaces the favourite car, whatever its length or content.
pub fn set_fave_car(shared: &mut SharedState, car: String)
    ensures
        final(shared)@ == Some(observed(old(shared)@).with_car(car@)),
{
    let mut state = shared.take_state();
    state.set_fave_car(car);
    shared.put_state(state);
}

/// Reads the favourite team.
pub fn get_fave_team(shared: &mut SharedState) -> (team: String)
    ensures
        team@ == observed(old(shared)@).team,
        final(shared)@ == Some(observed(old(shared)@)),
{
    let state = shared.take_state();
    let team = state.get_fave_team();
    shared.put_state(state);
    team
}

/// Replaces the favourite team, whatever its length or content.
pub fn set_fave_team(shared: &mut SharedState, team: String)
    ensures
        final(shared)@ == Some(observed(old(shared)@).with_team(team@)),
{
    let mut state = shared.take_state();
    state.set_fave_team(team);
    shared.put_state(state);
}

/// Reads the bit pattern of the decimal.
pub fn get_decimal(shared: &mut SharedState) -> (bits: u32)
    ensures
        bits == observed(old(shared)@).decimal,
        final(shared)@ == Some(observed(old(shared)@)),
{
    let state = shared.take_state();
    let bits = state.get_decimal();
    shared.put_state(state);
    bits
}

/// Replaces the decimal by the number whose bit pattern is `bits`; every
/// pattern is taken as it is.
pub fn set_decimal(shared: &mut SharedState, bits: u32)
    ensures
        final(shared)@ == Some(observed(old(shared)@).with_decimal(bits)),
{
    let mut state = shared.take_state();
    state.set_decimal(bits);
    shared.put_state(state);
}

} // verus!
