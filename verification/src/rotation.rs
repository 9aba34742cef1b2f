//! Quarter-turn rotation of the picture on display.

use vstd::prelude::*;

verus! {

/// The way to turn: `Right` is clockwise.
#[derive(Debug, Clone, Copy, PartialEq, Eq, Structural)]
pub enum Rotation {
    Right,
    Left,
}

/// Where the top of the picture points.
#[derive(Debug, Clone, Copy, PartialEq, Eq, Structural)]
pub enum RotationState {
    UP,
    RIGHT,
    DOWN,
    LEFT,
}

/// How the two entries of one column of a transform compare: `Rising`
/// when the first is less than the second, `Falling` when it is greater,
/// `Level` when it is neither.
#[derive(Debug, Clone, Copy, PartialEq, Eq, Structural)]
pub enum Slope {
    Rising,
    Level,
    Falling,
}

/// How `first` and `second` compare.
pub open spec fn slope_of(first: int, second: int) -> Slope {
    if first < second {
        Slope::Rising
    } else if first > second {
        Slope::Falling
    } else {
        Slope::Level
    }
}

impl RotationState {
    /// Clockwise quarter turns away from `UP`.
    pub open spec fn turns(self) -> int {
        match self {
            RotationState::UP => 0,
            RotationState::RIGHT => 1,
            RotationState::DOWN => 2,
            RotationState::LEFT => 3,
        }
    }

    /// The state that is `n` clockwise quarter turns away from `UP`; a
    /// negative `n` turns the other way.
    pub open spec fn of_turns(n: int) -> RotationState {
        let k = n % 4;
        if k == 0 {
            RotationState::UP
        } else if k == 1 {
            RotationState::RIGHT
        } else if k == 2 {
            RotationState::DOWN
        } else {
            RotationState::LEFT
        }
    }

    /// The state shown by a transform whose first column compares as
    /// `x_axis` and whose second as `y_axis`. What fits none of the four
    /// states counts as `UP`.
    pub open spec fn shown_by(x_axis: Slope, y_axis: Slope) -> RotationState {
        match (x_axis, y_axis) {
            (Slope::Rising, Slope::Rising) => RotationState::RIGHT,
            (Slope::Rising, Slope::Falling) => RotationState::DOWN,
            (Slope::Falling, Slope::Falling) => RotationState::LEFT,
            _ => RotationState::UP,
        }
    }

    /// The two columns of the rotation by this state's quarter turns:
    /// cosine and sine, then minus sine and cosine.
    pub open spec fn columns(self) -> ((int, int), (int, int)) {
        match self {
            RotationState::UP => ((1, 0), (0, 1)),
            RotationState::RIGHT => ((0, 1), (-1, 0)),
            RotationState::DOWN => ((-1, 0), (0, -1)),
            RotationState::LEFT => ((0, -1), (1, 0)),
        }
    }

    /// The state a quarter turn clockwise from this one.
    pub fn clockwise(&self) -> (next: RotationState)
        ensures
            next == RotationState::of_turns(self.turns() + 1),
    {
        match self {
            RotationState::UP => RotationState::RIGHT,
            RotationState::RIGHT => RotationState::DOWN,
            RotationState::DOWN => RotationState::LEFT,
            RotationState::LEFT => RotationState::UP,
        }
    }

    /// The state a quarter turn counter-clockwise from this one.
    pub fn counter_clockwise(&self) -> (next: RotationState)
        ensures
            next == RotationState::of_turns(self.turns() - 1),
    {
        match self {
            RotationState::UP => RotationState::LEFT,
            RotationState::RIGHT => RotationState::UP,
            RotationState::DOWN => RotationState::RIGHT,
            RotationState::LEFT => RotationState::DOWN,
        }
    }

    /// The state a quarter turn away in `direction`.
    pub fn rotate(&self, direction: Rotation) -> (next: RotationState)
        ensures
            next == RotationState::of_turns(
                self.turns() + if direction == Rotation::Right {
                    1int
                } else {
                    -1int
                },
            ),
    {
        match direction {
            Rotation::Right => self.clockwise(),
            Rotation::Left => self.counter_clockwise(),
        }
    }

    /// Reads the state off the transform on display, given how the
    /// entries of each of its two columns compare.
    pub fn detect(x_axis: Slope, y_axis: Slope) -> (state: RotationState)
        ensures
            state == RotationState::shown_by(x_axis, y_axis),
    {
        match (x_axis, y_axis) {
            (Slope::Falling, Slope::Rising) => RotationState::UP,
            (Slope::Rising, Slope::Rising) => RotationState::RIGHT,
            (Slope::Rising, Slope::Falling) => RotationState::DOWN,
            (Slope::Falling, Slope::Falling) => RotationState::LEFT,
            _ => RotationState::UP,
        }
    }

    /// Clockwise quarter turns away from `UP`: the angle of the state in
    /// units of a right angle.
    pub fn quarter_turns(&self) -> (n: u8)
        ensures
            n == self.turns(),
    {
        match self {
            RotationState::UP => 0,
            RotationState::RIGHT => 1,
            RotationState::DOWN => 2,
            RotationState::LEFT => 3,
        }
    }

    /// Whether the picture lies on its side, so that it has to fit a
    /// window of swapped width and height.
    pub fn is_sideways(&self) -> (b: bool)
        ensures
            b == (self.turns() % 2 == 1),
    {
        match self {
            RotationState::RIGHT | RotationState::LEFT => true,
            _ => false,
        }
    }

    /// The corner of the unit square where the turned picture has its
    /// origin, so that it stays in view: across, then down.
    pub fn anchor(&self) -> (corner: (u8, u8))
        ensures
            corner.0 == (if self.turns() == 1 || self.turns() == 2 {
                1int
            } else {
                0int
            }),
            corner.1 == (if self.turns() == 2 || self.turns() == 3 {
                1int
            } else {
                0int
            }),
    {
        match self {
            RotationState::UP => (0, 0),
            RotationState::RIGHT => (1, 0),
            RotationState::DOWN => (1, 1),
            RotationState::LEFT => (0, 1),
        }
    }
}

/// A state is the number of its turns: counting the turns of a state and
/// turning that often from `UP` gives the state back.
pub proof fn lemma_turns_name_the_state(state: RotationState)
    ensures
        0 <= state.turns() < 4,
        RotationState::of_turns(state.turns()) == state,
{
}

/// Turning one way and then the other ends where it began.
pub proof fn lemma_opposite_turns_cancel(state: RotationState)
    ensures
        RotationState::of_turns(RotationState::of_turns(state.turns() + 1).turns() - 1) == state,
        RotationState::of_turns(RotationState::of_turns(state.turns() - 1).turns() + 1) == state,
{
}

/// Four quarter turns the same way are a full turn, and `n` turns from
/// `UP` only count modulo four.
pub proof fn lemma_full_turn(state: RotationState, n: int)
    ensures
        RotationState::of_turns(state.turns() + 4) == state,
        RotationState::of_turns(state.turns() - 4) == state,
        RotationState::of_turns(n + 4) == RotationState::of_turns(n),
{
}

/// Each state is read back from its own rotation: the columns of the
/// rotation by the state's quarter turns compare the way that `detect`
/// recognises as that state.
pub proof fn lemma_detects_own_rotation(state: RotationState)
    ensures
        RotationState::shown_by(
            slope_of(state.columns().0.0, state.columns().0.1),
            slope_of(state.columns().1.0, state.columns().1.1),
        ) == state,
{
}

} // verus!
