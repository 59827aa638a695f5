//! The record of five independent fields and its field-by-field accessors.

use vstd::prelude::*;

verus! {

/// The mathematical value of a [`HelloState`]: what each field holds.
pub struct HelloStateView {
    /// The counter.
    pub counter: i32,
    /// The message, as a sequence of characters.
    pub message: Seq<char>,
    /// The favourite car.
    pub car: Seq<char>,
    /// The favourite team.
    pub team: Seq<char>,
    /// The bit pattern of the single-precision decimal.
    pub decimal: u32,
}

/// The counter that follows `c`: one more, and the least value after the
/// greatest.
pub open spec fn next_counter(c: i32) -> i32 {
    if c == i32::MAX {
        i32::MIN
    } else {
        (c + 1) as i32
    }
}

impl HelloStateView {
    /// The value a state has before anything was written to it.
    pub open spec fn initial() -> HelloStateView {
        HelloStateView {
            counter: 0,
            message: "Rust WASM is so Sigma!"@,
            car: "Hubba Bubba"@,
            team: "Detroit Lions"@,
            decimal: 0,
        }
    }

    /// This value with the counter replaced.
    pub open spec fn with_counter(self, counter: i32) -> HelloStateView {
        HelloStateView { counter, ..self }
    }

    /// This value with the counter advanced by one step.
    pub open spec fn incremented(self) -> HelloStateView {
        HelloStateView { counter: next_counter(self.counter), ..self }
    }

    /// This value with the message replaced.
    pub open spec fn with_message(self, message: Seq<char>) -> HelloStateView {
        HelloStateView { message, ..self }
    }

    /// This value with the favourite car replaced.
    pub open spec fn with_car(self, car: Seq<char>) -> HelloStateView {
        HelloStateView { car, ..self }
    }

    /// This value with the favourite team replaced.
    pub open spec fn with_team(self, team: Seq<char>) -> HelloStateView {
        HelloStateView { team, ..self }
    }

    /// This value with the decimal's bit pattern replaced.
    pub open spec fn with_decimal(self, decimal: u32) -> HelloStateView {
        HelloStateView { decimal, ..self }
    }
}

/// The five fields. No rule ties one field to another, and every value of
/// every field is allowed. The decimal is held as the 32 bits of a
/// single-precision number, so that every value, a not-a-number included,
/// is kept bit for bit.
pub struct HelloState {
    counter: i32,
    message: String,
    car: String,
    team: String,
    decimal: u32,
}

impl View for HelloState {
    type V = HelloStateView;

    closed spec fn view(&self) -> HelloStateView {
        HelloStateView {
            counter: self.counter,
            message: self.message@,
            car: self.car@,
            team: self.team@,
            decimal: self.decimal,
        }
    }
}

impl HelloState {
    /// A state with the default value in every field.
    pub fn new() -> (state: HelloState)
        ensures
            state@ == HelloStateView::initial(),
    {
        HelloState {
            counter: 0,
            message: "Rust WASM is so Sigma!".to_owned(),
            car: "Hubba Bubba".to_owned(),
            team: "Detroit Lions".to_owned(),
            decimal: 0,
        }
    }

    /// The counter.
    pub fn get_counter(&self) -> (counter: i32)
        ensures
            counter == self@.counter,
    {
        self.counter
    }

    /// Replaces the counter and leaves the other fields as they are.
    pub fn set_counter(&mut self, counter: i32)
        ensures
            final(self)@ == old(self)@.with_counter(counter),
    {
        self.counter = counter;
    }

    /// Adds one to the counter, wrapping round from the greatest value to the
    /// least, and leaves the other fields as they are.
    pub fn increment_counter(&mut self)
        ensures
            final(self)@ == old(self)@.incremented(),
    {
        self.counter = self.counter.wrapping_add(1);
    }

    /// A copy of the message.
    pub fn get_message(&self) -> (message: String)
        ensures
            message@ == self@.message,
    {
        self.message.clone()
    }

    /// Replaces the message and leaves the other fields as they are.
    pub fn set_message(&mut self, message: String)
        ensures
            final(self)@ == old(self)@.with_message(message@),
    {
        self.message = message;
    }

    /// A copy of the favourite car.
    pub fn get_fave_car(&self) -> (car: String)
        ensures
            car@ == self@.car,
    {
        self.car.clone()
    }

    /// Replaces the favourite car and leaves the other fields as they are.
    pub fn set_fave_car(&mut self, car: String)
        ensures
            final(self)@ == old(self)@.with_car(car@),
    {
        self.car = car;
    }

    /// A copy of the favourite team.
    pub fn get_fave_team(&self) -> (team: String)
        ensures
            team@ == self@.team,
    {
        self.team.clone()
    }

    /// Replaces the favourite team and leaves the other fields as they are.
    pub fn set_fave_team(&mut self, team: String)
        ensures
            final(self)@ == old(self)@.with_team(team@),
    {
        self.team = team;
    }

    /// The bit pattern of the decimal.
    pub fn get_decimal(&self) -> (bits: u32)
        ensures
            bits == self@.decimal,
    {
        self.decimal
    }

    /// Replaces the decimal's bit pattern and leaves the other fields as they
    /// are.
    pub fn set_decimal(&mut self, bits: u32)
        ensures
            final(self)@ == old(self)@.with_decimal(bits),
    {
        self.decimal = bits;
    }
}

} // verus!
