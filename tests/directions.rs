use cheeseburger::input::{Button, Input};
use cheeseburger::prob::{get_rand_dir, rrange};
use cheeseburger::spawning::{num_to_corner, num_to_side, Dir};

#[test]
fn sides_cycle_through_four_directions() {
    assert_eq!(num_to_side(0), Dir { x: 0, y: -1 });
    assert_eq!(num_to_side(1), Dir { x: 1, y: 0 });
    assert_eq!(num_to_side(2), Dir { x: -1, y: 0 });
    assert_eq!(num_to_side(3), Dir { x: 0, y: 1 });
    assert_eq!(num_to_side(4), num_to_side(0));
    assert_eq!(num_to_side(7), num_to_side(3));
}

#[test]
fn corners_cycle_through_four_corners() {
    assert_eq!(num_to_corner(0), Dir { x: 0, y: 1 });
    assert_eq!(num_to_corner(1), Dir { x: 0, y: 0 });
    assert_eq!(num_to_corner(2), Dir { x: 1, y: 0 });
    assert_eq!(num_to_corner(3), Dir { x: 1, y: 1 });
    assert_eq!(num_to_corner(5), num_to_corner(1));
}

#[test]
fn negated_side_points_back() {
    assert_eq!(num_to_side(1).negate(), Dir { x: -1, y: 0 });
    assert_eq!(num_to_side(0).negate(), Dir { x: 0, y: 1 });
}

#[test]
fn rrange_stays_in_range() {
    for _ in 0..200 {
        assert_eq!(rrange(0), 0);
        let r = rrange(4);
        assert!((0..=4).contains(&r));
    }
}

#[test]
fn random_direction_is_a_side() {
    for _ in 0..100 {
        let d = get_rand_dir();
        assert_eq!(d.x.abs() + d.y.abs(), 1);
    }
}

#[test]
fn input_direction_combines_keys() {
    let mut input = Input {
        w: Button::Released,
        a: Button::Released,
        s: Button::Released,
        d: Button::Pressed,
        space: Button::Pressed,
    };
    assert_eq!(input.dir(), Dir { x: 1, y: 0 });
    assert!(input.wants_dash());
    input.a = Button::Pressed;
    assert_eq!(input.dir(), Dir { x: 0, y: 0 });
    assert!(!input.wants_dash());
    input.w = Button::from(true);
    assert_eq!(input.dir(), Dir { x: 0, y: -1 });
    assert!(input.w.is_pressed());
    assert!(!Button::from(false).is_pressed());
}
