//! Moves made from raw data, for harnesses that drive a cube with bytes
//! that they did not choose.

use crate::moves::{Axis, Move};
use vstd::prelude::*;

verus! {

/// `Unstructured` of the `arbitrary` crate, which `libfuzzer_sys` hands on:
/// a source of raw bytes, of which it gives out the first ones when it is
/// asked for a value. [`data_of`] names the bytes that it still holds.
#[verifier::external_type_specification]
#[verifier::external_body]
pub struct ExUnstructured<'a>(libfuzzer_sys::arbitrary::Unstructured<'a>);

/// `Error` of the `arbitrary` crate, which `libfuzzer_sys` hands on: what a
/// source of raw bytes reports when it cannot give what was asked of it.
#[verifier::external_type_specification]
#[verifier::external_body]
pub struct ExError(libfuzzer_sys::arbitrary::Error);

/// Why no move could be made from the data.
#[derive(Debug)]
pub struct DataError {
    /// What the source of the data reported.
    pub source: libfuzzer_sys::arbitrary::Error,
}

/// The bytes that a source of raw data still holds, the next one first.
pub uninterp spec fn data_of(u: libfuzzer_sys::arbitrary::Unstructured<'_>) -> Seq<u8>;

/// What `Unstructured::int_in_range` of the `arbitrary` crate makes of the
/// bytes `data` for the range from `low` to `high`, both included: the
/// integer, and the number of bytes that it takes from the front of `data`;
/// or `None` where it reports an error.
pub uninterp spec fn int_in_range_of(data: Seq<u8>, low: usize, high: usize) -> Option<
    (usize, nat),
>;

/// `Unstructured::int_in_range` of the `arbitrary` crate, for the range
/// from `low` to `high`, both included: an integer made from the next bytes
/// of `u`. Which integer it is, and how many bytes it takes, depends on the
/// bytes and the range alone: [`int_in_range_of`] names both. The crate
/// shows that the integer lies in the range, that the bytes taken are the
/// first ones of `u` and no more than it holds, and that the call panics on
/// an empty range.
#[verifier::external_body]
fn int_in_range(
    u: &mut libfuzzer_sys::arbitrary::Unstructured<'_>,
    low: usize,
    high: usize,
) -> (out: Result<usize, libfuzzer_sys::arbitrary::Error>)
    requires
        low <= high,
    ensures
        match int_in_range_of(data_of(*old(u)), low, high) {
            Some((value, taken)) => {
                &&& out matches Ok(got) && got == value
                &&& low <= value <= high
                &&& taken <= data_of(*old(u)).len()
                &&& data_of(*final(u)) == data_of(*old(u)).skip(taken as int)
            },
            None => out is Err,
        },
{
    u.int_in_range(low..=high)
}

/// The move on layer `layer` that the number `choice` stands for: 0 turns
/// the layer about the x axis, 1 about the y axis, 2 about the z axis. A
/// larger number stands for no move.
pub open spec fn chosen(layer: usize, choice: usize) -> Option<Move> {
    if choice == 0 {
        Some(Move::X(layer))
    } else if choice == 1 {
        Some(Move::Y(layer))
    } else if choice == 2 {
        Some(Move::Z(layer))
    } else {
        None
    }
}

/// The move that is made from the bytes `data` for a cube with `layers`
/// layers, and the bytes that are left: the layer is drawn first, from
/// among all layers of the cube, then the axis. `None` where the source
/// reports an error on the way.
pub open spec fn drawn(data: Seq<u8>, layers: usize) -> Option<(Move, Seq<u8>)> {
    match int_in_range_of(data, 0, (layers - 1) as usize) {
        Some((layer, taken)) => match int_in_range_of(data.skip(taken as int), 0, 2) {
            Some((choice, more)) => match chosen(layer, choice) {
                Some(m) => Some((m, data.skip(taken as int).skip(more as int))),
                None => None,
            },
            None => None,
        },
        None => None,
    }
}

/// The move on layer `layer` that the number `choice` stands for, if it
/// stands for one.
pub fn chosen_move(layer: usize, choice: usize) -> (out: Option<Move>)
    ensures
        out == chosen(layer, choice),
{
    match Axis::from_index(choice) {
        Some(axis) => Some(Move::new(axis, layer)),
        None => None,
    }
}

/// Makes a move on a cube with `layers` layers from the next bytes of `u`:
/// first the layer, then the axis. The move is the one that [`drawn`] names
/// for the bytes of `u`, and `u` keeps the bytes that were not used. The
/// move fits the cube, so that it can be made on it. Where the source
/// fails, its report is handed on.
pub fn arbitrary_move(u: &mut libfuzzer_sys::arbitrary::Unstructured<'_>, layers: usize) -> (out:
    Result<Move, DataError>)
    requires
        layers >= 1,
    ensures
        match drawn(data_of(*old(u)), layers) {
            Some((m, rest)) => {
                &&& out matches Ok(got) && got == m
                &&& data_of(*final(u)) == rest
            },
            None => out is Err,
        },
        out matches Ok(m) ==> m.layer() < layers,
{
    let layer = match int_in_range(u, 0, layers - 1) {
        Ok(layer) => layer,
        Err(source) => {
            return Err(DataError { source });
        },
    };
    let choice = match int_in_range(u, 0, 2) {
        Ok(choice) => choice,
        Err(source) => {
            return Err(DataError { source });
        },
    };
    Ok(chosen_move(layer, choice).unwrap())
}

} // verus!
