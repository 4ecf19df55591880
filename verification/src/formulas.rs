//! The four formulas of the scrollbar, over arithmetic that the host brings.
//!
//! This crate compares and selects scalars but does not add or multiply
//! them: sums, differences, products and quotients of binary32 numbers are
//! rounded, and rounding is the host's. Each function here takes the host's
//! arithmetic as a function of an [`Operation`] and two scalars, calls it in
//! the order the formula prescribes, and says of its result which calls it
//! came from.

use crate::scalar::Scalar;
use crate::scrollbar::{ScrollRequest, HANDLE_FRACTION_BITS};
use vstd::prelude::*;

verus! {

/// An operation on two scalars that the host computes.
#[derive(Clone, Copy, Debug, PartialEq, Eq, Structural)]
pub enum Operation {
    /// The sum of the left and the right scalar.
    Plus,
    /// The left scalar less the right one.
    Minus,
    /// The product of the left and the right scalar.
    Times,
    /// The left scalar divided by the right one.
    Over,
}

/// Whether `result` is what `arithmetic` may return for the operation on
/// `left` and `right`.
pub open spec fn gives<A: Fn(Operation, Scalar, Scalar) -> Scalar>(
    arithmetic: A,
    operation: Operation,
    left: Scalar,
    right: Scalar,
    result: Scalar,
) -> bool {
    call_ensures(arithmetic, (operation, left, right), result)
}

/// Whether `arithmetic` may be called on every operation and every two
/// scalars.
pub open spec fn total<A: Fn(Operation, Scalar, Scalar) -> Scalar>(arithmetic: A) -> bool {
    forall|operation: Operation, left: Scalar, right: Scalar|
        call_requires(arithmetic, (operation, left, right))
}

/// Whether `place` is the place of a pointer at height `pointer` in a region
/// that starts at `top` and is `length` long:
/// `(pointer - top) / length`.
pub open spec fn is_pointer_place<A: Fn(Operation, Scalar, Scalar) -> Scalar>(
    arithmetic: A,
    pointer: Scalar,
    top: Scalar,
    length: Scalar,
    place: Scalar,
) -> bool {
    exists|distance: Scalar|
        #![trigger gives(arithmetic, Operation::Minus, pointer, top, distance)]
        gives(arithmetic, Operation::Minus, pointer, top, distance) && gives(
            arithmetic,
            Operation::Over,
            distance,
            length,
            place,
        )
}

/// Whether `moved` is the position that a scroll gesture leads to over a
/// region of `length`: `position - delta * sensitivity / length`, the product
/// first, then the quotient.
pub open spec fn is_scroll_target<A: Fn(Operation, Scalar, Scalar) -> Scalar>(
    arithmetic: A,
    request: ScrollRequest,
    length: Scalar,
    moved: Scalar,
) -> bool {
    exists|product: Scalar, step: Scalar|
        #![trigger gives(arithmetic, Operation::Over, product, length, step)]
        gives(arithmetic, Operation::Times, request.delta, request.sensitivity, product) && gives(
            arithmetic,
            Operation::Over,
            product,
            length,
            step,
        ) && gives(arithmetic, Operation::Minus, request.position, step, moved)
}

/// Whether `limit` is the greatest length a handle may have in a region of
/// `length`: `length * 0.2`.
pub open spec fn is_handle_limit<A: Fn(Operation, Scalar, Scalar) -> Scalar>(
    arithmetic: A,
    length: Scalar,
    limit: Scalar,
) -> bool {
    gives(arithmetic, Operation::Times, length, Scalar { bits: HANDLE_FRACTION_BITS }, limit)
}

/// Whether `handle_top` is where a handle of `handle_length` starts at
/// `position` in a region that starts at `top` and is `length` long:
/// `top + (length - handle_length) * position`.
pub open spec fn is_handle_top<A: Fn(Operation, Scalar, Scalar) -> Scalar>(
    arithmetic: A,
    top: Scalar,
    length: Scalar,
    handle_length: Scalar,
    position: Scalar,
    handle_top: Scalar,
) -> bool {
    exists|room: Scalar, travel: Scalar|
        #![trigger gives(arithmetic, Operation::Times, room, position, travel)]
        gives(arithmetic, Operation::Minus, length, handle_length, room) && gives(
            arithmetic,
            Operation::Times,
            room,
            position,
            travel,
        ) && gives(arithmetic, Operation::Plus, top, travel, handle_top)
}

/// The place of the pointer in the region, as a share of its length.
pub fn pointer_place<A: Fn(Operation, Scalar, Scalar) -> Scalar>(
    arithmetic: &A,
    pointer: Scalar,
    top: Scalar,
    length: Scalar,
) -> (place: Scalar)
    requires
        total(*arithmetic),
    ensures
        is_pointer_place(*arithmetic, pointer, top, length, place),
{
    let distance = arithmetic(Operation::Minus, pointer, top);
    let place = arithmetic(Operation::Over, distance, length);
    assert(gives(*arithmetic, Operation::Minus, pointer, top, distance));
    place
}

/// The position that a scroll gesture leads to.
pub fn scroll_target<A: Fn(Operation, Scalar, Scalar) -> Scalar>(
    arithmetic: &A,
    request: ScrollRequest,
    length: Scalar,
) -> (moved: Scalar)
    requires
        total(*arithmetic),
    ensures
        is_scroll_target(*arithmetic, request, length, moved),
{
    let product = arithmetic(Operation::Times, request.delta, request.sensitivity);
    let step = arithmetic(Operation::Over, product, length);
    let moved = arithmetic(Operation::Minus, request.position, step);
    assert(gives(*arithmetic, Operation::Over, product, length, step));
    moved
}

/// The greatest length a handle may have in a region of `length`.
pub fn handle_limit<A: Fn(Operation, Scalar, Scalar) -> Scalar>(
    arithmetic: &A,
    length: Scalar,
) -> (limit: Scalar)
    requires
        total(*arithmetic),
    ensures
        is_handle_limit(*arithmetic, length, limit),
{
    arithmetic(Operation::Times, length, Scalar::from_bits(HANDLE_FRACTION_BITS))
}

/// Where the handle starts.
pub fn handle_top<A: Fn(Operation, Scalar, Scalar) -> Scalar>(
    arithmetic: &A,
    top: Scalar,
    length: Scalar,
    handle_length: Scalar,
    position: Scalar,
) -> (handle_top: Scalar)
    requires
        total(*arithmetic),
    ensures
        is_handle_top(*arithmetic, top, length, handle_length, position, handle_top),
{
    let room = arithmetic(Operation::Minus, length, handle_length);
    let travel = arithmetic(Operation::Times, room, position);
    let handle_top = arithmetic(Operation::Plus, top, travel);
    assert(gives(*arithmetic, Operation::Times, room, position, travel));
    handle_top
}

} // verus!
