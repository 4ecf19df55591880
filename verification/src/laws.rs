//! What holds of every scrollbar, proved from the definitions in
//! [`crate::scrollbar`] and [`crate::widget`].

use crate::formulas::{is_handle_limit, is_handle_top, is_pointer_place, is_scroll_target, Operation};
use crate::number::{lemma_clamp_unit_of_numbers, lemma_order_is_of_numbers};
use crate::scalar::{Scalar, ONE_BITS};
use crate::scrollbar::{FrameInput, ScrollRequest, State};
use crate::widget::{Gestures, Picture, Rectangle, Region};
use vstd::arithmetic::power2::pow2;
use vstd::prelude::*;

verus! {

/// A new scrollbar holds the clamped position. Where the given position is
/// no NaN, the number held is the given number clamped between 0 and 1: 0 for
/// a number below 0, 1 for a number above 1. A position that already lay
/// between zero and one is held bit for bit, and so is a NaN.
pub proof fn lemma_new_clamps_position(value: Scalar, width: Scalar)
    ensures
        State::initial(value, width).value == value.clamp_unit(),
        State::initial(value, width).value.settled(),
        !value.is_nan() ==> State::initial(value, width).value.in_unit(),
        !value.is_nan() ==> State::initial(value, width).value.units() == if value.units() < 0 {
            0
        } else if value.units() > pow2(149) {
            pow2(149) as int
        } else {
            value.units()
        },
        value.lt(Scalar { bits: 0 }) ==> State::initial(value, width).value.bits == 0,
        (Scalar { bits: ONE_BITS }).lt(value) ==> State::initial(value, width).value.bits
            == ONE_BITS,
        value.settled() ==> State::initial(value, width).value == value,
{
    if !value.is_nan() {
        lemma_clamp_unit_of_numbers(value);
    }
}

/// Setting the scroll sensitivity, the smoothing and the handle height gives
/// the same scrollbar in each of the six orders, and none of the three
/// touches the position, the width, or what the other two set.
pub proof fn lemma_builders_commute(
    state: State,
    sensitivity: Scalar,
    smoothing: bool,
    height: Scalar,
)
    ensures
        ({
            let all = State {
                scroll_sensitivity: sensitivity,
                scroll_smoothing: smoothing,
                handle_height: height,
                ..state
            };
            &&& state.with_scroll_sensitivity(sensitivity).with_scroll_smoothing(
                smoothing,
            ).with_handle_height(height) == all
            &&& state.with_scroll_sensitivity(sensitivity).with_handle_height(
                height,
            ).with_scroll_smoothing(smoothing) == all
            &&& state.with_scroll_smoothing(smoothing).with_scroll_sensitivity(
                sensitivity,
            ).with_handle_height(height) == all
            &&& state.with_scroll_smoothing(smoothing).with_handle_height(
                height,
            ).with_scroll_sensitivity(sensitivity) == all
            &&& state.with_handle_height(height).with_scroll_sensitivity(
                sensitivity,
            ).with_scroll_smoothing(smoothing) == all
            &&& state.with_handle_height(height).with_scroll_smoothing(
                smoothing,
            ).with_scroll_sensitivity(sensitivity) == all
        }),
{
}

/// A drag to a place between zero and one sets the position to exactly that
/// place, whatever the position was before: two scrollbars that see the same
/// drag hold the same position after it. The place lies between zero and one
/// where it is no NaN and its number is at least 0 and at most 1.
pub proof fn lemma_drag_is_absolute(state: State, other: State, input: FrameInput)
    requires
        State::drags(input),
        !input.pointer->0.is_nan(),
        0 <= input.pointer->0.units() <= pow2(149),
    ensures
        input.pointer->0.in_unit(),
        state.dragged(input).value == input.pointer->0,
        other.dragged(input).value == input.pointer->0,
{
    lemma_order_is_of_numbers(input.pointer->0, input.pointer->0);
}

/// A drag touches nothing but the position, and without a drag the scrollbar
/// stays as it is.
pub proof fn lemma_drag_keeps_settings(state: State, input: FrameInput)
    ensures
        state.dragged(input) == (State { value: state.dragged(input).value, ..state }),
        !State::drags(input) ==> state.dragged(input) == state,
{
}

/// A scroll delta of zero, of either sign, leaves the position where the drag
/// of the frame put it, whatever the host would have computed.
pub proof fn lemma_zero_delta_keeps_position(state: State, input: FrameInput, moved: Scalar)
    requires
        state.delta(input).is_zero(),
    ensures
        state.dragged(input).request(input) is None,
        state.frame(input, moved) == state.dragged(input),
{
}

/// A scroll delta that is not zero asks the host for a move from the position
/// after the drag, by the delta that the smoothing setting selects and the
/// scroll sensitivity, and the frame ends at the clamped result: the scroll
/// gesture is applied after the drag and decides the position.
pub proof fn lemma_scroll_decides_position(state: State, input: FrameInput, moved: Scalar)
    requires
        !state.delta(input).is_zero(),
    ensures
        state.dragged(input).request(input) == Some(
            ScrollRequest {
                position: state.dragged(input).value,
                delta: if state.scroll_smoothing {
                    input.smooth_delta
                } else {
                    input.raw_delta
                },
                sensitivity: state.scroll_sensitivity,
            },
        ),
        state.frame(input, moved) == (State { value: moved.clamp_unit(), ..state }),
        state.frame(input, moved).value.settled(),
        !moved.is_nan() ==> state.frame(input, moved).value.in_unit(),
{
}

/// The handle is never drawn longer than the region allows, nor longer than
/// the handle height: it is the lesser of the two. The limit has to be a
/// number; under a NaN limit the handle height is drawn as it is.
pub proof fn lemma_handle_within_limit(state: State, limit: Scalar)
    requires
        !limit.is_nan(),
    ensures
        state.rendered_handle_height(limit).le(limit),
        state.rendered_handle_height(limit).units() <= limit.units(),
        !state.handle_height.is_nan() ==> state.rendered_handle_height(limit).le(
            state.handle_height,
        ),
        limit.le(state.handle_height) ==> state.rendered_handle_height(limit) == limit,
        state.handle_height.lt(limit) ==> state.rendered_handle_height(limit)
            == state.handle_height,
{
    lemma_order_is_of_numbers(state.rendered_handle_height(limit), limit);
}

/// A frame without a drag and with a scroll delta of zero leaves the
/// scrollbar as it was, bit for bit.
pub proof fn lemma_idle_frame_changes_nothing(state: State, input: FrameInput, moved: Scalar)
    requires
        state.idle(input),
    ensures
        state.frame(input, moved) == state,
{
}

/// Any number of frames without a gesture leave the scrollbar as it was, bit
/// for bit.
pub proof fn lemma_idle_frames_change_nothing(state: State, frames: Seq<(FrameInput, Scalar)>)
    requires
        forall|i: int| 0 <= i < frames.len() ==> state.idle(#[trigger] frames[i].0),
    ensures
        state.after_frames(frames) == state,
    decreases frames.len(),
{
    if frames.len() > 0 {
        let earlier = frames.drop_last();
        assert forall|i: int| 0 <= i < earlier.len() implies state.idle(
            #[trigger] earlier[i].0,
        ) by {
            assert(earlier[i] == frames[i]);
        }
        lemma_idle_frames_change_nothing(state, earlier);
        assert(state.idle(frames[frames.len() - 1].0));
    }
}

/// A position that a scrollbar gave back goes into the next one unchanged:
/// building a scrollbar over a settled position and running a frame without a
/// gesture gives that position back, bit for bit.
pub proof fn lemma_position_survives_rebuilding(
    value: Scalar,
    width: Scalar,
    input: FrameInput,
    moved: Scalar,
)
    requires
        value.settled(),
        State::initial(value, width).idle(input),
    ensures
        State::initial(value, width).frame(input, moved).value == value,
{
}

/// Every frame ends at a settled position, if it started at one.
pub proof fn lemma_frame_keeps_position_settled(state: State, input: FrameInput, moved: Scalar)
    requires
        state.value.settled(),
    ensures
        state.frame(input, moved).value.settled(),
{
}

/// Whatever the arithmetic gave, the picture of a frame has the track over
/// the whole region and the handle inside the same column: as wide as the
/// track, from the same left edge, and no longer than the greatest length,
/// where that is a number, nor than the handle height. The position that the
/// frame ends at is settled, if the one it started from was.
pub proof fn lemma_picture_is_well_formed(
    state: State,
    region: Region,
    gestures: Gestures,
    place: Scalar,
    moved: Scalar,
    limit: Scalar,
    handle_top: Scalar,
)
    ensures
        ({
            let (after, picture) = state.drawn(region, gestures, place, moved, limit, handle_top);
            &&& picture.track == (Rectangle {
                left: region.left,
                top: region.top,
                width: state.width,
                height: region.height,
            })
            &&& picture.handle.left == region.left
            &&& picture.handle.width == state.width
            &&& picture.handle.top == handle_top
            &&& picture.handle.height == limit.min(state.handle_height)
            &&& !limit.is_nan() ==> picture.handle.height.le(limit)
            &&& !limit.is_nan() ==> picture.handle.height.units() <= limit.units()
            &&& state.value.settled() ==> after.value.settled()
            &&& after == (State { value: after.value, ..state })
        }),
{
    if !limit.is_nan() {
        lemma_handle_within_limit(state.frame(gestures.input(place), moved), limit);
    }
}

/// A frame whose gestures are none leaves the scrollbar as it was, bit for
/// bit, whatever the arithmetic gave: the position does not pass through it.
pub proof fn lemma_quiet_frame_changes_nothing(
    state: State,
    region: Region,
    gestures: Gestures,
    place: Scalar,
    moved: Scalar,
    limit: Scalar,
    handle_top: Scalar,
)
    requires
        !gestures.drags(),
        gestures.delta(state.scroll_smoothing).is_zero(),
    ensures
        state.drawn(region, gestures, place, moved, limit, handle_top).0 == state,
{
}

/// A frame that drags to a place between zero and one, and does not scroll,
/// ends at exactly that place, whatever the position was before.
pub proof fn lemma_frame_drags_to_the_place(
    state: State,
    other: State,
    region: Region,
    gestures: Gestures,
    place: Scalar,
    moved: Scalar,
    limit: Scalar,
    handle_top: Scalar,
)
    requires
        gestures.drags(),
        place.in_unit(),
        gestures.delta(state.scroll_smoothing).is_zero(),
        gestures.delta(other.scroll_smoothing).is_zero(),
    ensures
        state.drawn(region, gestures, place, moved, limit, handle_top).0.value == place,
        other.drawn(region, gestures, place, moved, limit, handle_top).0.value == place,
{
}

/// A frame that scrolls ends at the moved position, clamped, whether it
/// dragged or not.
pub proof fn lemma_frame_scrolls_to_the_target(
    state: State,
    region: Region,
    gestures: Gestures,
    place: Scalar,
    moved: Scalar,
    limit: Scalar,
    handle_top: Scalar,
)
    requires
        !gestures.delta(state.scroll_smoothing).is_zero(),
    ensures
        state.drawn(region, gestures, place, moved, limit, handle_top).0.value
            == moved.clamp_unit(),
{
}

/// What a frame shows follows the formulas, under whatever arithmetic the
/// host brought.
///
/// Where the frame drags and the scroll delta is zero, the position is the
/// clamped place of the pointer, `(pointer - top) / height`. Where the scroll
/// delta is not zero, the position is the clamped
/// `position - delta * sensitivity / available_height`, from the position
/// that the scrollbar had, or after a drag from the clamped place of the
/// pointer. Where the frame neither drags nor scrolls, the scrollbar stays as
/// it was. In each case the handle is as long as the handle height or as
/// `available_height * 0.2`, whichever is less, and starts at
/// `top + (height - handle length) * position`.
pub proof fn lemma_shown_frame_follows_the_formulas<A: Fn(Operation, Scalar, Scalar) -> Scalar>(
    state: State,
    arithmetic: A,
    available_height: Scalar,
    region: Region,
    gestures: Gestures,
    after: State,
    picture: Picture,
)
    requires
        state.shows(arithmetic, available_height, region, gestures, after, picture),
    ensures
        gestures.drags() && gestures.delta(state.scroll_smoothing).is_zero() ==> exists|
            place: Scalar,
        | #[trigger]
            is_pointer_place(arithmetic, gestures.pointer->0, region.top, region.height, place)
                && after.value == place.clamp_unit(),
        !gestures.drags() && !gestures.delta(state.scroll_smoothing).is_zero() ==> exists|
            moved: Scalar,
        | #[trigger]
            is_scroll_target(
                arithmetic,
                ScrollRequest {
                    position: state.value,
                    delta: gestures.delta(state.scroll_smoothing),
                    sensitivity: state.scroll_sensitivity,
                },
                available_height,
                moved,
            ) && after.value == moved.clamp_unit(),
        gestures.drags() && !gestures.delta(state.scroll_smoothing).is_zero() ==> exists|
            place: Scalar,
            moved: Scalar,
        |
            is_pointer_place(arithmetic, gestures.pointer->0, region.top, region.height, place)
                && #[trigger] is_scroll_target(
                arithmetic,
                ScrollRequest {
                    position: place.clamp_unit(),
                    delta: gestures.delta(state.scroll_smoothing),
                    sensitivity: state.scroll_sensitivity,
                },
                available_height,
                moved,
            ) && after.value == moved.clamp_unit(),
        !gestures.drags() && gestures.delta(state.scroll_smoothing).is_zero() ==> after == state,
        exists|limit: Scalar| #[trigger]
            is_handle_limit(arithmetic, available_height, limit) && picture.handle.height
                == limit.min(state.handle_height) && is_handle_top(
                arithmetic,
                region.top,
                region.height,
                picture.handle.height,
                after.value,
                picture.handle.top,
            ),
{
}

} // verus!
