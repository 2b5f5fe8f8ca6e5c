//! Fixed-capacity vectors of the `heapless` crate, as the controller keeps its
//! short histories and output batches in them.
//!
//! Each instantiation the library uses has a name for its contents and one
//! trusted wrapper per method the logic calls. What each wrapper claims is read
//! off `heapless` 0.8.0 (`src/vec.rs`): `new` is empty, `push` appends when the
//! length is below the capacity and otherwise hands the item back unchanged,
//! `remove(0)` shifts the remaining items to the front, `clear` empties, and the
//! length (through `Deref` to a slice) never exceeds the capacity.

use vstd::prelude::*;
use crate::brewing::states::BrewOutput;

verus! {

#[verifier::external_type_specification]
#[verifier::external_body]
#[verifier::reject_recursive_types(T)]
pub struct ExHeaplessVec<T, const N: usize>(heapless::Vec<T, N>);

/// Capacity of a weight history.
pub const WEIGHT_HISTORY_CAPACITY: usize = 10;

/// The weights a history holds, oldest first.
pub uninterp spec fn weight_items(v: heapless::Vec<i32, 10>) -> Seq<i32>;

/// `heapless::Vec::new`: an empty history.
#[verifier::external_body]
pub fn weights_new() -> (v: heapless::Vec<i32, 10>)
    ensures
        weight_items(v) == Seq::<i32>::empty(),
{
    heapless::Vec::new()
}

/// `heapless::Vec::push`: appends below capacity, else returns the item.
#[verifier::external_body]
pub fn weights_push(v: &mut heapless::Vec<i32, 10>, x: i32) -> (r: Result<(), i32>)
    ensures
        (r is Ok) == (weight_items(*old(v)).len() < 10),
        r is Ok ==> weight_items(*final(v)) == weight_items(*old(v)).push(x),
        r is Err ==> weight_items(*final(v)) == weight_items(*old(v)),
{
    v.push(x)
}

/// `len` (through `Deref` to a slice): the number of weights held.
#[verifier::external_body]
pub fn weights_len(v: &heapless::Vec<i32, 10>) -> (r: usize)
    ensures
        r == weight_items(*v).len(),
        r <= 10,
{
    v.len()
}

/// Indexing (through `Deref` to a slice): the weight at position `i`.
#[verifier::external_body]
pub fn weights_get(v: &heapless::Vec<i32, 10>, i: usize) -> (r: i32)
    requires
        i < weight_items(*v).len(),
    ensures
        r == weight_items(*v)[i as int],
{
    v[i]
}

/// `heapless::Vec::remove(0)`: drops the oldest weight.
#[verifier::external_body]
pub fn weights_remove_first(v: &mut heapless::Vec<i32, 10>) -> (r: i32)
    requires
        weight_items(*old(v)).len() > 0,
    ensures
        r == weight_items(*old(v))[0],
        weight_items(*final(v)) == weight_items(*old(v)).drop_first(),
{
    v.remove(0)
}

/// `heapless::Vec::clear`: drops every weight.
#[verifier::external_body]
pub fn weights_clear(v: &mut heapless::Vec<i32, 10>)
    ensures
        weight_items(*final(v)) == Seq::<i32>::empty(),
{
    v.clear()
}

/// The overshoots a learning history holds, oldest first.
pub uninterp spec fn overshoot_items(v: heapless::Vec<i64, 5>) -> Seq<i64>;

/// `heapless::Vec::new`: an empty overshoot history.
#[verifier::external_body]
pub fn overshoots_new() -> (v: heapless::Vec<i64, 5>)
    ensures
        overshoot_items(v) == Seq::<i64>::empty(),
{
    heapless::Vec::new()
}

/// `heapless::Vec::push`: appends below capacity, else returns the item.
#[verifier::external_body]
pub fn overshoots_push(v: &mut heapless::Vec<i64, 5>, x: i64) -> (r: Result<(), i64>)
    ensures
        (r is Ok) == (overshoot_items(*old(v)).len() < 5),
        r is Ok ==> overshoot_items(*final(v)) == overshoot_items(*old(v)).push(x),
        r is Err ==> overshoot_items(*final(v)) == overshoot_items(*old(v)),
{
    v.push(x)
}

/// `len` (through `Deref` to a slice): the number of overshoots held.
#[verifier::external_body]
pub fn overshoots_len(v: &heapless::Vec<i64, 5>) -> (r: usize)
    ensures
        r == overshoot_items(*v).len(),
        r <= 5,
{
    v.len()
}

/// Indexing (through `Deref` to a slice): the overshoot at position `i`.
#[verifier::external_body]
pub fn overshoots_get(v: &heapless::Vec<i64, 5>, i: usize) -> (r: i64)
    requires
        i < overshoot_items(*v).len(),
    ensures
        r == overshoot_items(*v)[i as int],
{
    v[i]
}

/// `heapless::Vec::remove(0)`: drops the oldest overshoot.
#[verifier::external_body]
pub fn overshoots_remove_first(v: &mut heapless::Vec<i64, 5>) -> (r: i64)
    requires
        overshoot_items(*old(v)).len() > 0,
    ensures
        r == overshoot_items(*old(v))[0],
        overshoot_items(*final(v)) == overshoot_items(*old(v)).drop_first(),
{
    v.remove(0)
}

/// `heapless::Vec::clear`: drops every overshoot.
#[verifier::external_body]
pub fn overshoots_clear(v: &mut heapless::Vec<i64, 5>)
    ensures
        overshoot_items(*final(v)) == Seq::<i64>::empty(),
{
    v.clear()
}

/// The outputs a batch holds, in the order they were produced.
pub uninterp spec fn output_items(v: heapless::Vec<BrewOutput, 10>) -> Seq<BrewOutput>;

/// `heapless::Vec::new`: an empty batch of outputs.
#[verifier::external_body]
pub fn outputs_new() -> (v: heapless::Vec<BrewOutput, 10>)
    ensures
        output_items(v) == Seq::<BrewOutput>::empty(),
{
    heapless::Vec::new()
}

/// `heapless::Vec::push`: appends below capacity, else returns the output.
#[verifier::external_body]
pub fn outputs_push(v: &mut heapless::Vec<BrewOutput, 10>, x: BrewOutput) -> (r: Result<(), BrewOutput>)
    ensures
        (r is Ok) == (output_items(*old(v)).len() < 10),
        r is Ok ==> output_items(*final(v)) == output_items(*old(v)).push(x),
        r is Err ==> output_items(*final(v)) == output_items(*old(v)),
{
    v.push(x)
}

/// `len` (through `Deref` to a slice): the number of outputs held.
#[verifier::external_body]
pub fn outputs_len(v: &heapless::Vec<BrewOutput, 10>) -> (r: usize)
    ensures
        r == output_items(*v).len(),
        r <= 10,
{
    v.len()
}

/// Indexing (through `Deref` to a slice) and the derived `Clone` of
/// `BrewOutput`: a copy of the output at position `i`.
#[verifier::external_body]
pub fn outputs_get(v: &heapless::Vec<BrewOutput, 10>, i: usize) -> (r: BrewOutput)
    requires
        i < output_items(*v).len(),
    ensures
        r == output_items(*v)[i as int],
{
    v[i].clone()
}

/// `heapless::Vec::clear`: drops every output.
#[verifier::external_body]
pub fn outputs_clear(v: &mut heapless::Vec<BrewOutput, 10>)
    ensures
        output_items(*final(v)) == Seq::<BrewOutput>::empty(),
{
    v.clear()
}

/// Capacity of the message log.
pub const LOG_CAPACITY: usize = 100;

/// The texts a message log holds, oldest first.
pub uninterp spec fn log_items(v: heapless::Vec<String, 100>) -> Seq<Seq<char>>;

/// `heapless::Vec::new`: an empty log.
#[verifier::external_body]
pub fn logs_new() -> (v: heapless::Vec<String, 100>)
    ensures
        log_items(v) == Seq::<Seq<char>>::empty(),
{
    heapless::Vec::new()
}

/// `heapless::Vec::push`: appends below capacity, else returns the text.
#[verifier::external_body]
pub fn logs_push(v: &mut heapless::Vec<String, 100>, x: String) -> (r: Result<(), String>)
    ensures
        (r is Ok) == (log_items(*old(v)).len() < 100),
        r is Ok ==> log_items(*final(v)) == log_items(*old(v)).push(x@),
        r is Err ==> log_items(*final(v)) == log_items(*old(v)),
{
    v.push(x)
}

/// `len` (through `Deref` to a slice): the number of texts held.
#[verifier::external_body]
pub fn logs_len(v: &heapless::Vec<String, 100>) -> (r: usize)
    ensures
        r == log_items(*v).len(),
        r <= 100,
{
    v.len()
}

/// `heapless::Vec::remove(0)`: drops the oldest text.
#[verifier::external_body]
pub fn logs_remove_first(v: &mut heapless::Vec<String, 100>) -> (r: String)
    requires
        log_items(*old(v)).len() > 0,
    ensures
        r@ == log_items(*old(v))[0],
        log_items(*final(v)) == log_items(*old(v)).drop_first(),
{
    v.remove(0)
}

/// `Clone::clone` of `heapless::Vec`: the same texts (each `String` clone is
/// equal to the item it copies).
#[verifier::external_body]
pub fn logs_clone(v: &heapless::Vec<String, 100>) -> (r: heapless::Vec<String, 100>)
    ensures
        log_items(r) == log_items(*v),
{
    v.clone()
}

} // verus!
