//! The scrollbar: its settings, its position, and what the gestures of one
//! frame do to it.
//!
//! [`FixedScrollbar::interact`] applies a drag and says whether the wheel
//! moves the position; [`FixedScrollbar::scroll_to`] ends such a move;
//! [`FixedScrollbar::rendered_handle_height`] says how long the handle is
//! drawn. None of them computes with coordinates: the place of the pointer,
//! the moved position and the greatest handle length come in as scalars.
//! [`FixedScrollbar::ui`](crate::widget) runs the three in a row and computes
//! those scalars in between.

use crate::scalar::Scalar;
use vstd::prelude::*;

verus! {

/// The encoding of 50, the handle height of a new scrollbar.
pub const DEFAULT_HANDLE_HEIGHT_BITS: u32 = 0x4248_0000;

/// The encoding of the binary32 number nearest to 0.1, the scroll sensitivity
/// of a new scrollbar.
pub const DEFAULT_SCROLL_SENSITIVITY_BITS: u32 = 0x3dcc_cccd;

/// The encoding of the binary32 number nearest to 0.2: the share of the
/// region's length that a drawn handle may take at most.
pub const HANDLE_FRACTION_BITS: u32 = 0x3e4c_cccd;

/// A scrollbar as plain values: the position and the four settings.
#[derive(Clone, Copy, Debug, PartialEq, Eq, Structural)]
pub struct State {
    /// The position, zero at the top of the track and one at its bottom.
    pub value: Scalar,
    /// The width of the track.
    pub width: Scalar,
    /// The length the handle is given where the region is long enough.
    pub handle_height: Scalar,
    /// The factor a scroll delta is multiplied with.
    pub scroll_sensitivity: Scalar,
    /// Whether the smoothed scroll delta is read, or the raw one.
    pub scroll_smoothing: bool,
}

/// What the host read in one frame.
#[derive(Clone, Copy, Debug)]
pub struct FrameInput {
    /// Whether the region is being dragged.
    pub dragged: bool,
    /// Where the pointer is, if the host knows: its distance from the top of
    /// the region divided by the region's length.
    pub pointer: Option<Scalar>,
    /// The smoothed vertical scroll delta of the frame.
    pub smooth_delta: Scalar,
    /// The raw vertical scroll delta of the frame.
    pub raw_delta: Scalar,
}

/// A scroll gesture that the host has to turn into a position: the moved
/// position is `position - delta * sensitivity / length`, with the length
/// that the host made available to the region.
#[derive(Clone, Copy, Debug, PartialEq, Eq, Structural)]
pub struct ScrollRequest {
    /// The position the gesture starts from.
    pub position: Scalar,
    /// The scroll delta of the frame. It is not zero.
    pub delta: Scalar,
    /// The scroll sensitivity of the scrollbar.
    pub sensitivity: Scalar,
}

impl State {
    /// A new scrollbar: the position clamped, the width as given, and the
    /// default handle height, sensitivity and smoothing.
    pub open spec fn initial(value: Scalar, width: Scalar) -> State {
        State {
            value: value.clamp_unit(),
            width,
            handle_height: Scalar { bits: DEFAULT_HANDLE_HEIGHT_BITS },
            scroll_sensitivity: Scalar { bits: DEFAULT_SCROLL_SENSITIVITY_BITS },
            scroll_smoothing: true,
        }
    }

    /// The same scrollbar with another scroll sensitivity.
    pub open spec fn with_scroll_sensitivity(self, sensitivity: Scalar) -> State {
        State { scroll_sensitivity: sensitivity, ..self }
    }

    /// The same scrollbar with another choice of scroll delta.
    pub open spec fn with_scroll_smoothing(self, scroll_smoothing: bool) -> State {
        State { scroll_smoothing, ..self }
    }

    /// The same scrollbar with another handle height.
    pub open spec fn with_handle_height(self, handle_height: Scalar) -> State {
        State { handle_height, ..self }
    }

    /// Whether the frame's drag sets the position: the region is dragged and
    /// the place of the pointer is known.
    pub open spec fn drags(input: FrameInput) -> bool {
        input.dragged && input.pointer is Some
    }

    /// The scrollbar after the drag of a frame: the position jumps to the
    /// clamped place of the pointer, whatever it was before.
    pub open spec fn dragged(self, input: FrameInput) -> State {
        if Self::drags(input) {
            State { value: input.pointer->0.clamp_unit(), ..self }
        } else {
            self
        }
    }

    /// The scroll delta that this scrollbar reads from a frame.
    pub open spec fn delta(self, input: FrameInput) -> Scalar {
        if self.scroll_smoothing {
            input.smooth_delta
        } else {
            input.raw_delta
        }
    }

    /// What the host is asked to compute for a frame's scroll gesture:
    /// nothing when the delta is zero, else the move from the current
    /// position.
    pub open spec fn request(self, input: FrameInput) -> Option<ScrollRequest> {
        if self.delta(input).is_zero() {
            None
        } else {
            Some(
                ScrollRequest {
                    position: self.value,
                    delta: self.delta(input),
                    sensitivity: self.scroll_sensitivity,
                },
            )
        }
    }

    /// The scrollbar after a scroll gesture that moved the position to
    /// `moved`, which is clamped.
    pub open spec fn scrolled(self, moved: Scalar) -> State {
        State { value: moved.clamp_unit(), ..self }
    }

    /// The length the handle is drawn with in a region that allows it at most
    /// `limit`: the lesser of the limit and the handle height.
    pub open spec fn rendered_handle_height(self, limit: Scalar) -> Scalar {
        limit.min(self.handle_height)
    }

    /// The scrollbar after a whole frame: the drag first, then the scroll
    /// gesture, if there is one, to the position `moved` that the host
    /// computed for it.
    pub open spec fn frame(self, input: FrameInput, moved: Scalar) -> State {
        let dragged = self.dragged(input);
        if dragged.request(input) is Some {
            dragged.scrolled(moved)
        } else {
            dragged
        }
    }

    /// Whether a frame brings this scrollbar no gesture: no drag with a known
    /// pointer, and a scroll delta of zero.
    pub open spec fn idle(self, input: FrameInput) -> bool {
        !Self::drags(input) && self.delta(input).is_zero()
    }

    /// The scrollbar after the given frames, the first of them first.
    pub open spec fn after_frames(self, frames: Seq<(FrameInput, Scalar)>) -> State
        decreases frames.len(),
    {
        if frames.len() == 0 {
            self
        } else {
            self.after_frames(frames.drop_last()).frame(frames.last().0, frames.last().1)
        }
    }
}

/// A fixed-width vertical scrollbar over a position between zero and one.
///
/// The position it holds is always a fixed point of clamping: a number
/// between zero and one, or a NaN that a caller or the host handed in.
#[derive(Debug)]
pub struct FixedScrollbar {
    value: Scalar,
    width: Scalar,
    handle_height: Scalar,
    scroll_sensitivity: Scalar,
    scroll_smoothing: bool,
}

impl View for FixedScrollbar {
    type V = State;

    closed spec fn view(&self) -> State {
        State {
            value: self.value,
            width: self.width,
            handle_height: self.handle_height,
            scroll_sensitivity: self.scroll_sensitivity,
            scroll_smoothing: self.scroll_smoothing,
        }
    }
}

impl FixedScrollbar {
    #[verifier::type_invariant]
    spec fn position_settled(self) -> bool {
        self.value.settled()
    }

    /// A scrollbar over `value`, clamped, with a track of the given width, a
    /// handle height of 50, a scroll sensitivity of 0.1, and smoothing on.
    pub fn new(value: Scalar, width: Scalar) -> (bar: Self)
        ensures
            bar@ == State::initial(value, width),
    {
        proof {
            value.lemma_clamp_unit_settled();
        }
        FixedScrollbar {
            value: value.clamp_unit(),
            width,
            handle_height: Scalar::from_bits(DEFAULT_HANDLE_HEIGHT_BITS),
            scroll_sensitivity: Scalar::from_bits(DEFAULT_SCROLL_SENSITIVITY_BITS),
            scroll_smoothing: true,
        }
    }

    /// Sets the factor that a scroll delta is multiplied with.
    pub fn scroll_sensitivity(self, sensitivity: Scalar) -> (bar: Self)
        ensures
            bar@ == self@.with_scroll_sensitivity(sensitivity),
    {
        proof {
            use_type_invariant(&self);
        }
        FixedScrollbar { scroll_sensitivity: sensitivity, ..self }
    }

    /// Chooses the smoothed scroll delta (`true`) or the raw one (`false`).
    pub fn scroll_smoothing(self, scroll_smoothing: bool) -> (bar: Self)
        ensures
            bar@ == self@.with_scroll_smoothing(scroll_smoothing),
    {
        proof {
            use_type_invariant(&self);
        }
        FixedScrollbar { scroll_smoothing, ..self }
    }

    /// Sets the length the handle is given where the region is long enough.
    pub fn handle_height(self, handle_height: Scalar) -> (bar: Self)
        ensures
            bar@ == self@.with_handle_height(handle_height),
    {
        proof {
            use_type_invariant(&self);
        }
        FixedScrollbar { handle_height, ..self }
    }

    /// Applies the drag of a frame and reads its scroll delta.
    ///
    /// A drag with a known pointer sets the position to the clamped place of
    /// the pointer. The result is the scroll gesture left for the host to
    /// compute, from the position after the drag: `None` when the delta that
    /// this scrollbar reads is zero.
    pub fn interact(&mut self, input: FrameInput) -> (pending: Option<ScrollRequest>)
        ensures
            final(self)@ == old(self)@.dragged(input),
            pending == final(self)@.request(input),
    {
        if input.dragged {
            if let Some(place) = input.pointer {
                proof {
                    place.lemma_clamp_unit_settled();
                }
                self.value = place.clamp_unit();
            }
        }
        let delta = if self.scroll_smoothing {
            input.smooth_delta
        } else {
            input.raw_delta
        };
        if delta.is_zero() {
            None
        } else {
            Some(
                ScrollRequest {
                    position: self.value,
                    delta,
                    sensitivity: self.scroll_sensitivity,
                },
            )
        }
    }

    /// Ends a scroll gesture: the position becomes `moved`, clamped.
    pub fn scroll_to(&mut self, moved: Scalar)
        ensures
            final(self)@ == old(self)@.scrolled(moved),
    {
        proof {
            moved.lemma_clamp_unit_settled();
        }
        self.value = moved.clamp_unit();
    }

    /// The length to draw the handle with, where the region allows `limit`
    /// at most.
    pub fn rendered_handle_height(&self, limit: Scalar) -> (height: Scalar)
        ensures
            height == self@.rendered_handle_height(limit),
    {
        limit.min(self.handle_height)
    }

    /// The position.
    pub fn value(&self) -> (value: Scalar)
        ensures
            value == self@.value,
            value.settled(),
    {
        proof {
            use_type_invariant(self);
        }
        self.value
    }

    /// The width of the track.
    pub fn width(&self) -> (width: Scalar)
        ensures
            width == self@.width,
    {
        self.width
    }

    /// The position and the settings together.
    pub fn state(&self) -> (state: State)
        ensures
            state == self@,
    {
        State {
            value: self.value,
            width: self.width,
            handle_height: self.handle_height,
            scroll_sensitivity: self.scroll_sensitivity,
            scroll_smoothing: self.scroll_smoothing,
        }
    }
}

} // verus!
