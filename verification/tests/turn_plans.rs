use orbit_scene::turn::push_if;
use orbit_scene::turn::Axis;
use orbit_scene::turn::Turn;
use orbit_scene::turn::ANGLE_UNITS_PER_RADIAN;
use orbit_scene::turn::TURN_ANGLE;

#[test]
fn the_fixed_turn_is_a_fifth_of_a_radian() {
    assert_eq!(ANGLE_UNITS_PER_RADIAN, 100_000_000);
    assert_eq!(TURN_ANGLE, 20_000_000);
    assert_eq!(5 * TURN_ANGLE, ANGLE_UNITS_PER_RADIAN);
    assert_eq!(TURN_ANGLE as f64 / ANGLE_UNITS_PER_RADIAN as f64, 0.2);
    assert_eq!(TURN_ANGLE as f32 / ANGLE_UNITS_PER_RADIAN as f32, 0.2f32);
}

#[test]
fn positive_and_negative_are_the_fixed_turn_both_ways() {
    assert_eq!(Turn::positive(Axis::X), Turn { axis: Axis::X, angle: 20_000_000 });
    assert_eq!(Turn::negative(Axis::X), Turn { axis: Axis::X, angle: -20_000_000 });
    assert_eq!(Turn::positive(Axis::Y).axis, Axis::Y);
    assert_eq!(Turn::negative(Axis::Z).axis, Axis::Z);
    for axis in [Axis::X, Axis::Y, Axis::Z] {
        assert_eq!(Turn::positive(axis).angle + Turn::negative(axis).angle, 0);
    }
}

#[test]
fn push_if_adds_only_when_held() {
    let mut plan: Vec<Turn> = Vec::new();
    push_if(&mut plan, false, Turn::positive(Axis::X));
    assert_eq!(plan, Vec::new());
    push_if(&mut plan, true, Turn::negative(Axis::Y));
    assert_eq!(plan, vec![Turn::negative(Axis::Y)]);
    push_if(&mut plan, false, Turn::positive(Axis::Z));
    push_if(&mut plan, true, Turn::positive(Axis::Z));
    assert_eq!(plan, vec![Turn::negative(Axis::Y), Turn::positive(Axis::Z)]);
}
