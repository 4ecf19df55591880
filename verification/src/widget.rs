//! One frame of the scrollbar, from the allocated region and the gestures to
//! the position and the two rectangles to paint.

use crate::formulas::{
    gives, handle_limit, handle_top, is_handle_limit, is_handle_top, is_pointer_place,
    is_scroll_target, pointer_place, scroll_target, total, Operation,
};
use crate::scalar::Scalar;
use crate::scrollbar::{FixedScrollbar, FrameInput, State};
use vstd::prelude::*;

verus! {

/// The region that the host allocated: its left edge, its top edge and its
/// height. Its width is the width of the scrollbar.
#[derive(Clone, Copy, Debug, PartialEq, Eq, Structural)]
pub struct Region {
    /// The horizontal coordinate of the left edge.
    pub left: Scalar,
    /// The vertical coordinate of the top edge.
    pub top: Scalar,
    /// The distance from the top edge to the bottom edge.
    pub height: Scalar,
}

/// What the host read of the pointer and the scroll wheel in one frame.
#[derive(Clone, Copy, Debug)]
pub struct Gestures {
    /// Whether the region is being dragged.
    pub dragged: bool,
    /// The vertical coordinate of the pointer, if the host knows it.
    pub pointer: Option<Scalar>,
    /// The smoothed vertical scroll delta of the frame.
    pub smooth_delta: Scalar,
    /// The raw vertical scroll delta of the frame.
    pub raw_delta: Scalar,
}

/// A rectangle to fill.
#[derive(Clone, Copy, Debug, PartialEq, Eq, Structural)]
pub struct Rectangle {
    /// The horizontal coordinate of the left edge.
    pub left: Scalar,
    /// The vertical coordinate of the top edge.
    pub top: Scalar,
    /// The distance from the left edge to the right edge.
    pub width: Scalar,
    /// The distance from the top edge to the bottom edge.
    pub height: Scalar,
}

/// A rectangle by its four edges.
#[derive(Clone, Copy, Debug, PartialEq, Eq, Structural)]
pub struct Edges {
    /// The horizontal coordinate of the left edge.
    pub left: Scalar,
    /// The vertical coordinate of the top edge.
    pub top: Scalar,
    /// The horizontal coordinate of the right edge.
    pub right: Scalar,
    /// The vertical coordinate of the bottom edge.
    pub bottom: Scalar,
}

/// What the host paints for one frame: the track in the background colour,
/// then the handle over it in the colour of an active widget.
#[derive(Clone, Copy, Debug, PartialEq, Eq, Structural)]
pub struct Picture {
    /// The whole region.
    pub track: Rectangle,
    /// The handle, as wide as the track.
    pub handle: Rectangle,
}

impl Gestures {
    /// Whether the gestures drag: the region is dragged and the coordinate of
    /// the pointer is known.
    pub open spec fn drags(self) -> bool {
        self.dragged && self.pointer is Some
    }

    /// The scroll delta that a scrollbar reads, with smoothing or without.
    pub open spec fn delta(self, scroll_smoothing: bool) -> Scalar {
        if scroll_smoothing {
            self.smooth_delta
        } else {
            self.raw_delta
        }
    }

    /// The gestures with the pointer at `place`, a share of the region's
    /// length, in place of its coordinate.
    pub open spec fn input(self, place: Scalar) -> FrameInput {
        FrameInput {
            dragged: self.dragged,
            pointer: if self.pointer is Some {
                Some(place)
            } else {
                None
            },
            smooth_delta: self.smooth_delta,
            raw_delta: self.raw_delta,
        }
    }
}

impl State {
    /// The scrollbar after a frame and the picture of it, from the four
    /// scalars that the frame's arithmetic gave: the place of the pointer,
    /// the position the scroll gesture moved to, the greatest handle length,
    /// and the top of the handle.
    ///
    /// The drag comes first and the scroll gesture second. The track is the
    /// whole region. The handle starts at the left edge of the region, is as
    /// wide as the track, and as long as the handle height or the greatest
    /// length, whichever is less.
    pub open spec fn drawn(
        self,
        region: Region,
        gestures: Gestures,
        place: Scalar,
        moved: Scalar,
        limit: Scalar,
        handle_top: Scalar,
    ) -> (State, Picture) {
        let after = self.frame(gestures.input(place), moved);
        (
            after,
            Picture {
                track: Rectangle {
                    left: region.left,
                    top: region.top,
                    width: after.width,
                    height: region.height,
                },
                handle: Rectangle {
                    left: region.left,
                    top: handle_top,
                    width: after.width,
                    height: after.rendered_handle_height(limit),
                },
            },
        )
    }

    /// Whether `after` and `picture` are what a frame makes of this scrollbar
    /// under the given arithmetic: they are drawn from four scalars, each of
    /// which the arithmetic gave by the formula for it.
    ///
    /// The place of the pointer is computed where the frame drags, over the
    /// region's own height. The moved position is computed where the scroll
    /// delta is not zero, from the position after the drag and over the
    /// available height. The greatest handle length is a fifth of the
    /// available height. The top of the handle is computed from the position
    /// that the frame ends at.
    pub open spec fn shows<A: Fn(Operation, Scalar, Scalar) -> Scalar>(
        self,
        arithmetic: A,
        available_height: Scalar,
        region: Region,
        gestures: Gestures,
        after: State,
        picture: Picture,
    ) -> bool {
        exists|place: Scalar, moved: Scalar, limit: Scalar, handle_top: Scalar|
            {
                &&& #[trigger] self.drawn(region, gestures, place, moved, limit, handle_top) == (
                    after,
                    picture,
                )
                &&& gestures.drags() ==> is_pointer_place(
                    arithmetic,
                    gestures.pointer->0,
                    region.top,
                    region.height,
                    place,
                )
                &&& self.dragged(gestures.input(place)).request(gestures.input(place)) matches Some(
                    request,
                ) ==> is_scroll_target(arithmetic, request, available_height, moved)
                &&& is_handle_limit(arithmetic, available_height, limit)
                &&& is_handle_top(
                    arithmetic,
                    region.top,
                    region.height,
                    after.rendered_handle_height(limit),
                    after.value,
                    handle_top,
                )
            }
    }
}

impl State {
    /// Whether `place` is where this scrollbar docks to `area`: at the
    /// area's right edge, from the area's top, as wide as the scrollbar and
    /// as high as the area, `bottom - top`.
    pub open spec fn docks<A: Fn(Operation, Scalar, Scalar) -> Scalar>(
        self,
        arithmetic: A,
        area: Edges,
        place: Rectangle,
    ) -> bool {
        &&& place.left == area.right
        &&& place.top == area.top
        &&& place.width == self.width
        &&& gives(arithmetic, Operation::Minus, area.bottom, area.top, place.height)
    }
}

impl FixedScrollbar {
    /// The rectangle beside `area` for a docked scrollbar: it starts where
    /// the area ends on the right, and spans the area's height.
    pub fn dock<A: Fn(Operation, Scalar, Scalar) -> Scalar>(
        &self,
        area: Edges,
        arithmetic: &A,
    ) -> (place: Rectangle)
        requires
            total(*arithmetic),
        ensures
            self@.docks(*arithmetic, area, place),
    {
        Rectangle {
            left: area.right,
            top: area.top,
            width: self.width(),
            height: arithmetic(Operation::Minus, area.bottom, area.top),
        }
    }

    /// Runs one frame: applies the drag and the scroll gesture to the
    /// position, and lays out the track and the handle.
    ///
    /// `available_height` is the height that the host had to give, `region`
    /// what it allocated for a width of [`FixedScrollbar::width`] and that
    /// height. `arithmetic` is called for every sum, difference, product and
    /// quotient.
    pub fn ui<A: Fn(Operation, Scalar, Scalar) -> Scalar>(
        &mut self,
        available_height: Scalar,
        region: Region,
        gestures: Gestures,
        arithmetic: &A,
    ) -> (picture: Picture)
        requires
            total(*arithmetic),
        ensures
            old(self)@.shows(
                *arithmetic,
                available_height,
                region,
                gestures,
                final(self)@,
                picture,
            ),
    {
        let mut place = Scalar::zero();
        let mut pointer: Option<Scalar> = None;
        if gestures.dragged {
            if let Some(coordinate) = gestures.pointer {
                place = pointer_place(arithmetic, coordinate, region.top, region.height);
                pointer = Some(place);
            }
        }
        let input = FrameInput {
            dragged: gestures.dragged,
            pointer,
            smooth_delta: gestures.smooth_delta,
            raw_delta: gestures.raw_delta,
        };
        let mut moved = Scalar::zero();
        if let Some(request) = self.interact(input) {
            moved = scroll_target(arithmetic, request, available_height);
            self.scroll_to(moved);
        }
        let limit = handle_limit(arithmetic, available_height);
        let handle_height = self.rendered_handle_height(limit);
        let top = handle_top(arithmetic, region.top, region.height, handle_height, self.value());
        let width = self.width();
        let picture = Picture {
            track: Rectangle { left: region.left, top: region.top, width, height: region.height },
            handle: Rectangle { left: region.left, top, width, height: handle_height },
        };
        assert(old(self)@.drawn(region, gestures, place, moved, limit, top) == (self@, picture));
        picture
    }
}

} // verus!
