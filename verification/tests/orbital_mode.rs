use orbit_scene::input::Keys;
use orbit_scene::input::MouseMotion;
use orbit_scene::orbital::look_turns;
use orbit_scene::orbital::move_circle;
use orbit_scene::orbital::sync_player_camera;
use orbit_scene::orbital::throw_snowball;
use orbit_scene::orbital::CAMERA_DISTANCE;
use orbit_scene::orbital::MOTION_PER_RADIAN;
use orbit_scene::orbital::SNOWBALL_RADIUS;
use orbit_scene::orbital::SNOWBALL_SUBDIVISIONS;
use orbit_scene::scene::Ball;
use orbit_scene::scene::Rgb;
use orbit_scene::turn::Axis;
use orbit_scene::turn::Turn;
use orbit_scene::turn::ANGLE_UNITS_PER_RADIAN;
use orbit_scene::vector::GridVec;

fn orbital_keys(w: bool, s: bool, a: bool, d: bool) -> Keys {
    Keys { w, s, a, d }
}

/// Carries a plan out on a point, in double precision, by the right-hand rule.
fn carry_out_orbital(mut p: [f64; 3], plan: &[Turn]) -> [f64; 3] {
    for turn in plan {
        let (sin, cos) = (turn.angle as f64 / ANGLE_UNITS_PER_RADIAN as f64).sin_cos();
        let (a, b) = match turn.axis {
            Axis::X => (1, 2),
            Axis::Y => (2, 0),
            Axis::Z => (0, 1),
        };
        let (pa, pb) = (p[a], p[b]);
        p[a] = pa * cos - pb * sin;
        p[b] = pa * sin + pb * cos;
    }
    p
}

fn length(p: [f64; 3]) -> f64 {
    (p[0] * p[0] + p[1] * p[1] + p[2] * p[2]).sqrt()
}

#[test]
fn orbital_d_asks_for_an_orbit_about_y_with_the_right_hand() {
    let plan = move_circle(orbital_keys(false, false, false, true));
    assert_eq!(plan, vec![Turn { axis: Axis::Y, angle: 20_000_000 }]);
}

#[test]
fn orbital_d_carried_out_follows_the_rotation_formulas() {
    let plan = move_circle(orbital_keys(false, false, false, true));
    let (x, y, z) = (1.5, -2.0, 4.5);
    let moved = carry_out_orbital([x, y, z], &plan);
    assert!((moved[0] - (x * 0.2f64.cos() + z * 0.2f64.sin())).abs() < 1e-12);
    assert_eq!(moved[1], y);
    assert!((moved[2] - (-x * 0.2f64.sin() + z * 0.2f64.cos())).abs() < 1e-12);
}

#[test]
fn orbital_d_carried_out_keeps_the_distance_from_the_origin() {
    let plan = move_circle(orbital_keys(false, false, false, true));
    for start in [[0.0, 0.0, 4.5], [1.0, 2.0, -4.0], [3e-6, 0.0, 0.0], [1e6, -1e-6, 3.0]] {
        let moved = carry_out_orbital(start, &plan);
        assert!((length(moved) - length(start)).abs() <= 1e-12 * length(start));
    }
}

#[test]
fn orbital_keys_ask_for_their_orbits() {
    assert_eq!(
        move_circle(orbital_keys(true, false, false, false)),
        vec![Turn { axis: Axis::X, angle: -20_000_000 }]
    );
    assert_eq!(
        move_circle(orbital_keys(false, true, false, false)),
        vec![Turn { axis: Axis::X, angle: 20_000_000 }]
    );
    assert_eq!(
        move_circle(orbital_keys(false, false, true, false)),
        vec![Turn { axis: Axis::Y, angle: -20_000_000 }]
    );
    assert_eq!(move_circle(Keys::released()), Vec::new());
}

#[test]
fn orbital_w_carried_out_lifts_the_player_toward_y() {
    let plan = move_circle(orbital_keys(true, false, false, false));
    let moved = carry_out_orbital([0.0, 0.0, 4.5], &plan);
    assert_eq!(moved[0], 0.0);
    assert!((moved[1] - 4.5 * 0.2f64.sin()).abs() < 1e-12);
    assert!((moved[2] - 4.5 * 0.2f64.cos()).abs() < 1e-12);
}

#[test]
fn orbital_keys_held_together_each_take_their_turn() {
    assert_eq!(
        move_circle(orbital_keys(true, true, true, true)),
        vec![
            Turn::negative(Axis::X),
            Turn::positive(Axis::X),
            Turn::negative(Axis::Y),
            Turn::positive(Axis::Y),
        ]
    );
    assert_eq!(
        move_circle(orbital_keys(true, false, false, true)),
        vec![Turn::negative(Axis::X), Turn::positive(Axis::Y)]
    );
}

#[test]
fn look_turns_yaw_then_pitch_for_each_event() {
    assert_eq!(MOTION_PER_RADIAN, 100);
    let motions = vec![
        MouseMotion { dx: 3_000_000, dy: -1_500_000 },
        MouseMotion { dx: 0, dy: 250 },
        MouseMotion { dx: -349, dy: 1 },
    ];
    let turns = look_turns(&motions);
    assert_eq!(
        turns,
        vec![
            Turn { axis: Axis::Y, angle: 3_000_000 },
            Turn { axis: Axis::X, angle: -1_500_000 },
            Turn { axis: Axis::Y, angle: 0 },
            Turn { axis: Axis::X, angle: 250 },
            Turn { axis: Axis::Y, angle: -349 },
            Turn { axis: Axis::X, angle: 1 },
        ]
    );
}

#[test]
fn look_turns_by_a_hundredth_of_a_radian_for_a_unit_of_travel() {
    let turns = look_turns(&vec![MouseMotion { dx: 1_000_000, dy: -2_500_000 }]);
    assert_eq!(turns[0].angle as f64 / ANGLE_UNITS_PER_RADIAN as f64, 0.01);
    assert_eq!(turns[1].angle as f64 / ANGLE_UNITS_PER_RADIAN as f64, -0.025);
}

#[test]
fn look_turns_of_no_events_is_empty() {
    assert_eq!(look_turns(&Vec::new()), Vec::new());
}

#[test]
fn look_turns_take_the_largest_travel() {
    let turns = look_turns(&vec![MouseMotion { dx: i64::MAX, dy: i64::MIN }]);
    assert_eq!(turns.len(), 2);
    assert_eq!(turns[0].angle, i64::MAX);
    assert_eq!(turns[1].angle, i64::MIN);
}

#[test]
fn orbital_camera_stands_four_forward_vectors_from_the_player() {
    assert_eq!(CAMERA_DISTANCE, 4);
    let player = GridVec::new(894_012, 0, 4_410_300);
    let forward = GridVec::new(0, 600_000, -800_000);
    let pose = sync_player_camera(player, forward);
    assert_eq!(pose.position, GridVec::new(894_012, 2_400_000, 1_210_300));
    assert_eq!(pose.target, player);
}

#[test]
fn orbital_camera_is_not_held_to_a_range() {
    let pose = sync_player_camera(GridVec::new(0, 0, 0), GridVec::new(0, 0, -1_000_000));
    assert_eq!(pose.position, GridVec::new(0, 0, -4_000_000));
    let far = sync_player_camera(GridVec::new(50_000_000, 0, 0), GridVec::new(1_000_000, 0, 0));
    assert_eq!(far.position, GridVec::new(54_000_000, 0, 0));
    let mid = sync_player_camera(GridVec::new(7_000_000, 7_000_000, 7_000_000), GridVec::new(0, 0, 0));
    assert_eq!(mid.position, GridVec::new(7_000_000, 7_000_000, 7_000_000));
}

#[test]
fn orbital_camera_stops_at_the_end_of_the_grid() {
    let pose = sync_player_camera(GridVec::new(i64::MAX, 0, 0), GridVec::new(1, 0, 0));
    assert_eq!(pose.position, GridVec::new(i64::MAX, 0, 0));
}

#[test]
fn a_press_throws_a_small_white_ball_one_forward_vector_ahead() {
    assert_eq!(SNOWBALL_RADIUS, 200_000);
    assert_eq!(SNOWBALL_SUBDIVISIONS, 10);
    let player = GridVec::new(0, 0, 4_500_000);
    let forward = GridVec::new(0, 1_000_000, 0);
    assert_eq!(
        throw_snowball(true, player, forward),
        Some(Ball {
            center: GridVec::new(0, 1_000_000, 4_500_000),
            radius: 200_000,
            subdivisions: 10,
            color: Rgb { red: 255, green: 255, blue: 255 },
        })
    );
}

#[test]
fn no_press_throws_nothing() {
    let player = GridVec::new(0, 0, 4_500_000);
    let forward = GridVec::new(0, 1_000_000, 0);
    assert_eq!(throw_snowball(false, player, forward), None);
}

#[test]
fn a_throw_stops_at_the_end_of_the_grid() {
    let ball = throw_snowball(true, GridVec::new(0, i64::MAX, 0), GridVec::new(0, 1_000_000, 0));
    assert_eq!(ball.map(|b| b.center), Some(GridVec::new(0, i64::MAX, 0)));
}

#[test]
fn every_press_throws_one_snowball_where_the_player_then_stood() {
    let forward = GridVec::new(0, 1_000_000, 0);
    let mut snowballs: Vec<GridVec> = Vec::new();
    let mut expected: Vec<GridVec> = Vec::new();
    let presses = 25;
    for frame in 0..(2 * presses) {
        let player = GridVec::new(1_000 * frame as i64, -7, 4_500_000 - frame as i64);
        let pressed = frame % 2 == 0;
        if pressed {
            expected.push(GridVec::new(player.x, player.y + 1_000_000, player.z));
        }
        if let Some(ball) = throw_snowball(pressed, player, forward) {
            snowballs.push(ball.center);
        }
    }
    assert_eq!(snowballs.len(), presses);
    assert_eq!(snowballs, expected);
}
