use spline_editor::{Curve, EditorError, Interpolation, Key, ScreenPos};

fn pos(x: i32, y: i32) -> ScreenPos {
    ScreenPos::new(x, y)
}

fn key(x: i32, y: i32, interpolation: Interpolation) -> Key {
    Key::new(x, pos(x, y), interpolation)
}

#[test]
fn new_curve_is_empty() {
    let curve = Curve::new();
    assert_eq!(curve.len(), 0);
    assert_eq!(curve.keys(), vec![]);
    assert_eq!(curve.get(0), None);
}

#[test]
fn add_keeps_the_keys_sorted_by_parameter() {
    let mut curve = Curve::new();
    assert_eq!(curve.add(pos(5_000, 1), Interpolation::Linear), 0);
    assert_eq!(curve.add(pos(1_000, 2), Interpolation::Cosine), 0);
    assert_eq!(curve.add(pos(9_000, 3), Interpolation::Step(5_000)), 2);
    assert_eq!(curve.add(pos(-2_000, 4), Interpolation::Linear), 0);
    assert_eq!(curve.len(), 4);
    assert_eq!(
        curve.keys(),
        vec![
            key(-2_000, 4, Interpolation::Linear),
            key(1_000, 2, Interpolation::Cosine),
            key(5_000, 1, Interpolation::Linear),
            key(9_000, 3, Interpolation::Step(5_000)),
        ]
    );
}

#[test]
fn add_puts_an_equal_parameter_behind_those_already_there() {
    let mut curve = Curve::new();
    curve.add(pos(1_000, 1), Interpolation::Linear);
    curve.add(pos(5_000, 2), Interpolation::Linear);
    curve.add(pos(9_000, 3), Interpolation::Linear);
    assert_eq!(curve.add(pos(5_000, 4), Interpolation::Cosine), 2);
    assert_eq!(curve.add(pos(5_000, 5), Interpolation::Step(1)), 3);
    assert_eq!(
        curve.keys(),
        vec![
            key(1_000, 1, Interpolation::Linear),
            key(5_000, 2, Interpolation::Linear),
            key(5_000, 4, Interpolation::Cosine),
            key(5_000, 5, Interpolation::Step(1)),
            key(9_000, 3, Interpolation::Linear),
        ]
    );
}

#[test]
fn add_takes_the_parameter_from_the_horizontal_coordinate() {
    let mut curve = Curve::new();
    let index = curve.add(pos(-7, 42), Interpolation::Bezier(pos(1, 2)));
    let got = curve.get(index).unwrap();
    assert_eq!(got.t, -7);
    assert_eq!(got.value, pos(-7, 42));
    assert_eq!(got.interpolation, Interpolation::Bezier(pos(1, 2)));
}

#[test]
fn get_reads_each_key_and_nothing_behind_the_last() {
    let mut curve = Curve::new();
    curve.add(pos(10, 1), Interpolation::Step(2_500));
    curve.add(pos(20, 2), Interpolation::Bezier(pos(3, 4)));
    assert_eq!(curve.get(0), Some(key(10, 1, Interpolation::Step(2_500))));
    assert_eq!(curve.get(1), Some(key(20, 2, Interpolation::Bezier(pos(3, 4)))));
    assert_eq!(curve.get(2), None);
    assert_eq!(curve.get(usize::MAX), None);
}

#[test]
fn remove_hands_the_key_back_and_closes_the_gap() {
    let mut curve = Curve::new();
    curve.add(pos(10, 1), Interpolation::Linear);
    curve.add(pos(20, 2), Interpolation::Cosine);
    curve.add(pos(30, 3), Interpolation::Linear);
    assert_eq!(curve.remove(1), Ok(key(20, 2, Interpolation::Cosine)));
    assert_eq!(
        curve.keys(),
        vec![key(10, 1, Interpolation::Linear), key(30, 3, Interpolation::Linear)]
    );
    assert_eq!(curve.remove(0), Ok(key(10, 1, Interpolation::Linear)));
    assert_eq!(curve.remove(0), Ok(key(30, 3, Interpolation::Linear)));
    assert_eq!(curve.len(), 0);
}

#[test]
fn remove_out_of_range_is_an_unknown_key() {
    let mut curve = Curve::new();
    assert_eq!(curve.remove(0), Err(EditorError::UnknownKey(0)));
    curve.add(pos(10, 1), Interpolation::Linear);
    assert_eq!(curve.remove(1), Err(EditorError::UnknownKey(1)));
    assert_eq!(curve.keys(), vec![key(10, 1, Interpolation::Linear)]);
}

#[test]
fn move_point_keeps_the_mode_and_takes_the_new_parameter() {
    let mut curve = Curve::new();
    curve.add(pos(10, 1), Interpolation::Bezier(pos(7, 7)));
    curve.add(pos(20, 2), Interpolation::Linear);
    assert_eq!(curve.move_point(0, pos(15, 9)), Ok(0));
    assert_eq!(
        curve.keys(),
        vec![key(15, 9, Interpolation::Bezier(pos(7, 7))), key(20, 2, Interpolation::Linear)]
    );
}

#[test]
fn move_point_past_another_one_changes_its_index() {
    let mut curve = Curve::new();
    curve.add(pos(10, 1), Interpolation::Cosine);
    curve.add(pos(20, 2), Interpolation::Linear);
    curve.add(pos(30, 3), Interpolation::Linear);
    assert_eq!(curve.move_point(0, pos(25, 1)), Ok(1));
    assert_eq!(
        curve.keys(),
        vec![
            key(20, 2, Interpolation::Linear),
            key(25, 1, Interpolation::Cosine),
            key(30, 3, Interpolation::Linear),
        ]
    );
    assert_eq!(curve.move_point(2, pos(-5, 3)), Ok(0));
    assert_eq!(
        curve.keys(),
        vec![
            key(-5, 3, Interpolation::Linear),
            key(20, 2, Interpolation::Linear),
            key(25, 1, Interpolation::Cosine),
        ]
    );
}

#[test]
fn move_point_onto_the_parameter_of_another_goes_behind_it() {
    let mut curve = Curve::new();
    curve.add(pos(10, 1), Interpolation::Cosine);
    curve.add(pos(20, 2), Interpolation::Linear);
    assert_eq!(curve.move_point(0, pos(20, 5)), Ok(1));
    assert_eq!(
        curve.keys(),
        vec![key(20, 2, Interpolation::Linear), key(20, 5, Interpolation::Cosine)]
    );
}

#[test]
fn move_point_out_of_range_leaves_the_curve_unchanged() {
    let mut curve = Curve::new();
    curve.add(pos(10, 1), Interpolation::Cosine);
    curve.add(pos(20, 2), Interpolation::Linear);
    let before = curve.keys();
    assert_eq!(curve.move_point(2, pos(0, 0)), Err(EditorError::UnknownKey(2)));
    assert_eq!(curve.keys(), before);
}

#[test]
fn move_handle_replaces_the_handle_only() {
    let mut curve = Curve::new();
    curve.add(pos(10, 1), Interpolation::Bezier(pos(7, 7)));
    curve.add(pos(20, 2), Interpolation::Linear);
    assert_eq!(curve.move_handle(0, pos(-3, 8)), Ok(()));
    assert_eq!(
        curve.keys(),
        vec![key(10, 1, Interpolation::Bezier(pos(-3, 8))), key(20, 2, Interpolation::Linear)]
    );
}

#[test]
fn move_handle_of_another_mode_is_a_wrong_interpolation() {
    let mut curve = Curve::new();
    curve.add(pos(10, 1), Interpolation::Step(5_000));
    curve.add(pos(20, 2), Interpolation::Linear);
    curve.add(pos(30, 3), Interpolation::Cosine);
    let before = curve.keys();
    assert_eq!(curve.move_handle(0, pos(1, 1)), Err(EditorError::WrongInterpolationAssumed(0)));
    assert_eq!(curve.move_handle(1, pos(1, 1)), Err(EditorError::WrongInterpolationAssumed(1)));
    assert_eq!(curve.move_handle(2, pos(1, 1)), Err(EditorError::WrongInterpolationAssumed(2)));
    assert_eq!(curve.move_handle(3, pos(1, 1)), Err(EditorError::UnknownKey(3)));
    assert_eq!(curve.keys(), before);
}

#[test]
fn toggle_interpolation_goes_round_the_cycle() {
    let mut curve = Curve::new();
    curve.add(pos(2_000, 3_000), Interpolation::Step(1_234));
    assert_eq!(curve.toggle_interpolation(0), Ok(()));
    assert_eq!(curve.get(0).unwrap().interpolation, Interpolation::Linear);
    assert_eq!(curve.toggle_interpolation(0), Ok(()));
    assert_eq!(curve.get(0).unwrap().interpolation, Interpolation::Cosine);
    assert_eq!(curve.toggle_interpolation(0), Ok(()));
    assert_eq!(curve.get(0).unwrap().interpolation, Interpolation::Bezier(pos(3_000, 4_000)));
    assert_eq!(curve.toggle_interpolation(0), Ok(()));
    assert_eq!(curve.get(0).unwrap().interpolation, Interpolation::Step(5_000));
    assert_eq!(curve.get(0).unwrap().value, pos(2_000, 3_000));
    assert_eq!(curve.get(0).unwrap().t, 2_000);
}

#[test]
fn toggle_interpolation_four_times_returns_to_linear_and_cosine_exactly() {
    let mut curve = Curve::new();
    curve.add(pos(1, 1), Interpolation::Linear);
    curve.add(pos(2, 2), Interpolation::Cosine);
    let before = curve.keys();
    for _ in 0..4 {
        assert_eq!(curve.toggle_interpolation(0), Ok(()));
        assert_eq!(curve.toggle_interpolation(1), Ok(()));
    }
    assert_eq!(curve.keys(), before);
}

#[test]
fn toggle_interpolation_leaves_the_other_keys_alone() {
    let mut curve = Curve::new();
    curve.add(pos(1, 1), Interpolation::Linear);
    curve.add(pos(2, 2), Interpolation::Cosine);
    curve.add(pos(3, 3), Interpolation::Step(9));
    assert_eq!(curve.toggle_interpolation(1), Ok(()));
    assert_eq!(
        curve.keys(),
        vec![
            key(1, 1, Interpolation::Linear),
            key(2, 2, Interpolation::Bezier(pos(1_002, 1_002))),
            key(3, 3, Interpolation::Step(9)),
        ]
    );
}

#[test]
fn toggle_interpolation_out_of_range_is_an_unknown_key() {
    let mut curve = Curve::new();
    curve.add(pos(1, 1), Interpolation::Linear);
    assert_eq!(curve.toggle_interpolation(1), Err(EditorError::UnknownKey(1)));
    assert_eq!(curve.keys(), vec![key(1, 1, Interpolation::Linear)]);
}

#[test]
fn toggle_interpolation_stops_the_new_handle_at_the_edge_of_the_grid() {
    let mut curve = Curve::new();
    curve.add(pos(i32::MAX - 10, i32::MAX), Interpolation::Cosine);
    assert_eq!(curve.toggle_interpolation(0), Ok(()));
    assert_eq!(
        curve.get(0).unwrap().interpolation,
        Interpolation::Bezier(pos(i32::MAX, i32::MAX))
    );
}
