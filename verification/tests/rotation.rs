use minimg::rotation::{Rotation, RotationState, Slope};

const ALL: [RotationState; 4] = [
    RotationState::UP,
    RotationState::RIGHT,
    RotationState::DOWN,
    RotationState::LEFT,
];

#[test]
fn clockwise_goes_round() {
    assert_eq!(RotationState::UP.clockwise(), RotationState::RIGHT);
    assert_eq!(RotationState::RIGHT.clockwise(), RotationState::DOWN);
    assert_eq!(RotationState::DOWN.clockwise(), RotationState::LEFT);
    assert_eq!(RotationState::LEFT.clockwise(), RotationState::UP);
}

#[test]
fn counter_clockwise_goes_round_the_other_way() {
    assert_eq!(RotationState::UP.counter_clockwise(), RotationState::LEFT);
    assert_eq!(RotationState::RIGHT.counter_clockwise(), RotationState::UP);
    assert_eq!(RotationState::DOWN.counter_clockwise(), RotationState::RIGHT);
    assert_eq!(RotationState::LEFT.counter_clockwise(), RotationState::DOWN);
}

#[test]
fn rotate_right_is_clockwise_and_left_is_counter_clockwise() {
    for state in ALL {
        assert_eq!(state.rotate(Rotation::Right), state.clockwise());
        assert_eq!(state.rotate(Rotation::Left), state.counter_clockwise());
    }
}

#[test]
fn opposite_turns_cancel() {
    for state in ALL {
        assert_eq!(state.clockwise().counter_clockwise(), state);
        assert_eq!(state.counter_clockwise().clockwise(), state);
    }
}

#[test]
fn four_turns_are_a_full_turn() {
    for state in ALL {
        assert_eq!(state.clockwise().clockwise().clockwise().clockwise(), state);
        assert_eq!(
            state
                .counter_clockwise()
                .counter_clockwise()
                .counter_clockwise()
                .counter_clockwise(),
            state
        );
    }
}

#[test]
fn quarter_turns_count_from_up() {
    assert_eq!(RotationState::UP.quarter_turns(), 0);
    assert_eq!(RotationState::RIGHT.quarter_turns(), 1);
    assert_eq!(RotationState::DOWN.quarter_turns(), 2);
    assert_eq!(RotationState::LEFT.quarter_turns(), 3);
}

#[test]
fn right_and_left_lie_on_their_side() {
    assert!(!RotationState::UP.is_sideways());
    assert!(RotationState::RIGHT.is_sideways());
    assert!(!RotationState::DOWN.is_sideways());
    assert!(RotationState::LEFT.is_sideways());
}

#[test]
fn anchors_go_round_the_unit_square() {
    assert_eq!(RotationState::UP.anchor(), (0, 0));
    assert_eq!(RotationState::RIGHT.anchor(), (1, 0));
    assert_eq!(RotationState::DOWN.anchor(), (1, 1));
    assert_eq!(RotationState::LEFT.anchor(), (0, 1));
}

#[test]
fn detect_reads_the_four_states() {
    assert_eq!(RotationState::detect(Slope::Falling, Slope::Rising), RotationState::UP);
    assert_eq!(RotationState::detect(Slope::Rising, Slope::Rising), RotationState::RIGHT);
    assert_eq!(RotationState::detect(Slope::Rising, Slope::Falling), RotationState::DOWN);
    assert_eq!(RotationState::detect(Slope::Falling, Slope::Falling), RotationState::LEFT);
}

#[test]
fn detect_takes_anything_else_for_up() {
    assert_eq!(RotationState::detect(Slope::Level, Slope::Level), RotationState::UP);
    assert_eq!(RotationState::detect(Slope::Level, Slope::Rising), RotationState::UP);
    assert_eq!(RotationState::detect(Slope::Level, Slope::Falling), RotationState::UP);
    assert_eq!(RotationState::detect(Slope::Rising, Slope::Level), RotationState::UP);
    assert_eq!(RotationState::detect(Slope::Falling, Slope::Level), RotationState::UP);
}

fn slope(first: f32, second: f32) -> Slope {
    if first < second {
        Slope::Rising
    } else if first > second {
        Slope::Falling
    } else {
        Slope::Level
    }
}

#[test]
fn detect_reads_a_state_off_its_own_rotation() {
    for state in ALL {
        let angle = std::f32::consts::FRAC_PI_2 * f32::from(state.quarter_turns());
        let (sin, cos) = angle.sin_cos();
        let seen = RotationState::detect(slope(cos, sin), slope(-sin, cos));
        assert_eq!(seen, state);
    }
}
