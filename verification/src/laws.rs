//! What holds of the operations taken together: what a read gives after a
//! write, what repeated increments add up to, what the first read finds, and
//! that a write to one field leaves the others alone. Each statement is over
//! the slot values that the operations' contracts speak of.

use vstd::prelude::*;
use crate::shared::observed;
use crate::state::{next_counter, HelloStateView};

verus! {

/// The 32-bit signed integer that is congruent to `n` modulo 2^32.
pub open spec fn wrap_i32(n: int) -> int {
    (n + 0x8000_0000) % 0x1_0000_0000 - 0x8000_0000
}

/// The slot after `k` increments of the counter, one after the other.
pub open spec fn after_increments(slot: Option<HelloStateView>, k: nat) -> Option<HelloStateView>
    decreases k,
{
    if k == 0 {
        slot
    } else {
        Some(observed(after_increments(slot, (k - 1) as nat)).incremented())
    }
}

/// Wrapping keeps a number that fits, and always gives one that fits.
pub proof fn lemma_wrap_i32_range(n: int)
    ensures
        i32::MIN <= wrap_i32(n) <= i32::MAX,
        i32::MIN <= n <= i32::MAX ==> wrap_i32(n) == n,
{
}

/// One step of the counter is one more, wrapped.
pub proof fn lemma_next_counter_wraps(n: int)
    ensures
        next_counter(wrap_i32(n) as i32) == wrap_i32(n + 1),
{
}

/// After the counter is set to `n`, a read of the counter gives `n`, whether
/// the slot was built before or not.
pub proof fn lemma_init_then_get_counter(slot: Option<HelloStateView>, n: i32)
    ensures
        observed(Some(observed(slot).with_counter(n))).counter == n,
{
}

/// After `k` increments from a counter of `v`, a read of the counter gives
/// `v + k`, wrapped into 32 bits; the other fields are what they were.
pub proof fn lemma_increments_add_up(slot: Option<HelloStateView>, k: nat)
    ensures
        observed(after_increments(slot, k)).counter == wrap_i32(observed(slot).counter + k),
        observed(after_increments(slot, k)) == observed(slot).with_counter(
            observed(after_increments(slot, k)).counter,
        ),
    decreases k,
{
    if k > 0 {
        let before = (k - 1) as nat;
        lemma_increments_add_up(slot, before);
        lemma_next_counter_wraps(observed(slot).counter + before);
    }
}

/// While the sum fits in 32 bits, `k` increments from `v` give exactly
/// `v + k`.
pub proof fn lemma_increments_without_wrap(slot: Option<HelloStateView>, k: nat)
    requires
        observed(slot).counter + k <= i32::MAX,
    ensures
        observed(after_increments(slot, k)).counter == observed(slot).counter + k,
{
    lemma_increments_add_up(slot, k);
    lemma_wrap_i32_range(observed(slot).counter + k);
}

/// After the message is set to `s`, a read of the message gives exactly `s`.
pub proof fn lemma_message_round_trip(slot: Option<HelloStateView>, s: Seq<char>)
    ensures
        observed(Some(observed(slot).with_message(s))).message == s,
{
}

/// After the favourite car is set to `s`, a read of it gives exactly `s`.
pub proof fn lemma_fave_car_round_trip(slot: Option<HelloStateView>, s: Seq<char>)
    ensures
        observed(Some(observed(slot).with_car(s))).car == s,
{
}

/// After the favourite team is set to `s`, a read of it gives exactly `s`.
pub proof fn lemma_fave_team_round_trip(slot: Option<HelloStateView>, s: Seq<char>)
    ensures
        observed(Some(observed(slot).with_team(s))).team == s,
{
}

/// After the decimal is set to the number with the bit pattern `bits`, a read
/// of the decimal gives the same 32 bits.
pub proof fn lemma_decimal_round_trip(slot: Option<HelloStateView>, bits: u32)
    ensures
        observed(Some(observed(slot).with_decimal(bits))).decimal == bits,
{
}

/// The first operation on an empty slot finds the default in every field.
pub proof fn lemma_first_access_finds_defaults()
    ensures
        observed(None).counter == 0,
        observed(None).message == "Rust WASM is so Sigma!"@,
        observed(None).car == "Hubba Bubba"@,
        observed(None).team == "Detroit Lions"@,
        observed(None).decimal == 0,
{
}

/// A read changes no field: what the next operation finds is what the read
/// found.
pub proof fn lemma_read_changes_nothing(slot: Option<HelloStateView>)
    ensures
        observed(Some(observed(slot))) == observed(slot),
{
}

/// A write of the counter, by setting it or by an increment, leaves the
/// message, the car, the team and the decimal as they were.
pub proof fn lemma_counter_write_is_independent(slot: Option<HelloStateView>, n: i32)
    ensures
        observed(slot).with_counter(n).message == observed(slot).message,
        observed(slot).with_counter(n).car == observed(slot).car,
        observed(slot).with_counter(n).team == observed(slot).team,
        observed(slot).with_counter(n).decimal == observed(slot).decimal,
        observed(slot).incremented().message == observed(slot).message,
        observed(slot).incremented().car == observed(slot).car,
        observed(slot).incremented().team == observed(slot).team,
        observed(slot).incremented().decimal == observed(slot).decimal,
{
}

/// A write of the message leaves the counter, the car, the team and the
/// decimal as they were.
pub proof fn lemma_message_write_is_independent(slot: Option<HelloStateView>, s: Seq<char>)
    ensures
        observed(slot).with_message(s).counter == observed(slot).counter,
        observed(slot).with_message(s).car == observed(slot).car,
        observed(slot).with_message(s).team == observed(slot).team,
        observed(slot).with_message(s).decimal == observed(slot).decimal,
{
}

/// A write of the favourite car leaves the counter, the message, the team and
/// the decimal as they were.
pub proof fn lemma_fave_car_write_is_independent(slot: Option<HelloStateView>, s: Seq<char>)
    ensures
        observed(slot).with_car(s).counter == observed(slot).counter,
        observed(slot).with_car(s).message == observed(slot).message,
        observed(slot).with_car(s).team == observed(slot).team,
        observed(slot).with_car(s).decimal == observed(slot).decimal,
{
}

/// A write of the favourite team leaves the counter, the message, the car and
/// the decimal as they were.
pub proof fn lemma_fave_team_write_is_independent(slot: Option<HelloStateView>, s: Seq<char>)
    ensures
        observed(slot).with_team(s).counter == observed(slot).counter,
        observed(slot).with_team(s).message == observed(slot).message,
        observed(slot).with_team(s).car == observed(slot).car,
        observed(slot).with_team(s).decimal == observed(slot).decimal,
{
}

/// A write of the decimal leaves the counter, the message, the car and the
/// team as they were.
pub proof fn lemma_decimal_write_is_independent(slot: Option<HelloStateView>, bits: u32)
    ensures
        observed(slot).with_decimal(bits).counter == observed(slot).counter,
        observed(slot).with_decimal(bits).message == observed(slot).message,
        observed(slot).with_decimal(bits).car == observed(slot).car,
        observed(slot).with_decimal(bits).team == observed(slot).team,
{
}

} // verus!
