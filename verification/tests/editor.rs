use luminance::tess::TessError;
use spline_editor::{
    Editor, EditorError, HandleSelection, Interpolation, Key, LineVertex, PointVertex, ScreenPos,
    Selection, Tessellation, VColor, VPos, VRadius,
};

fn pos(x: i32, y: i32) -> ScreenPos {
    ScreenPos::new(x, y)
}

fn key(x: i32, y: i32, interpolation: Interpolation) -> Key {
    Key::new(x, pos(x, y), interpolation)
}

fn line(x: i32, y: i32) -> LineVertex {
    LineVertex(VPos(pos(x, y)))
}

/// An editor with three points, freshly rebuilt.
fn editor() -> Editor {
    let mut editor = Editor::new();
    editor.add_point(pos(0, 0), Interpolation::Linear);
    editor.add_point(pos(2_000, 1_000), Interpolation::Bezier(pos(3_000, 3_000)));
    editor.add_point(pos(4_000, 0), Interpolation::Cosine);
    let tess = editor.rebuild_tess_if_needed().unwrap();
    editor.finish_rebuild(tess, Ok(())).unwrap();
    editor
}

/// Whether a rebuild is due, found out on a copy of the state that matters.
fn rebuild_is_due(editor: &mut Editor) -> bool {
    match editor.rebuild_tess_if_needed() {
        Some(tess) => {
            // put the editor back as it was
            let _ = editor.finish_rebuild(tess, Err(TessError::no_data()));
            true
        }
        None => false,
    }
}

#[test]
fn new_editor_is_empty_and_has_nothing_to_rebuild() {
    let mut editor = Editor::new();
    assert_eq!(editor.keys(), vec![]);
    assert!(!editor.is_selecting());
    assert_eq!(editor.selected_point(), None);
    assert_eq!(*editor.selection(), None);
    assert_eq!(*editor.points(), vec![]);
    assert_eq!(*editor.lines(), vec![]);
    assert!(editor.rebuild_tess_if_needed().is_none());
}

#[test]
fn add_point_gives_the_index_and_clears_the_selection() {
    let mut editor = editor();
    assert_eq!(editor.select(pos(0, 0)), Some(Selection::Key(0)));
    assert_eq!(editor.add_point(pos(1_000, 500), Interpolation::Cosine), 1);
    assert_eq!(*editor.selection(), None);
    assert_eq!(
        editor.keys(),
        vec![
            key(0, 0, Interpolation::Linear),
            key(1_000, 500, Interpolation::Cosine),
            key(2_000, 1_000, Interpolation::Bezier(pos(3_000, 3_000))),
            key(4_000, 0, Interpolation::Cosine),
        ]
    );
    assert!(rebuild_is_due(&mut editor));
}

#[test]
fn move_key_out_of_range_is_an_unknown_key_and_changes_nothing() {
    let mut editor = editor();
    editor.select(pos(2_000, 1_000));
    let tess = editor.rebuild_tess_if_needed().unwrap();
    editor.finish_rebuild(tess, Ok(())).unwrap();
    let keys = editor.keys();
    assert_eq!(editor.move_key(3, pos(1, 1)), Err(EditorError::UnknownKey(3)));
    assert_eq!(editor.move_key(usize::MAX, pos(1, 1)), Err(EditorError::UnknownKey(usize::MAX)));
    assert_eq!(editor.keys(), keys);
    assert_eq!(*editor.selection(), Some(Selection::Key(1)));
    assert!(!rebuild_is_due(&mut editor));
}

#[test]
fn move_key_moves_the_point_and_asks_for_a_rebuild() {
    let mut editor = editor();
    assert_eq!(editor.move_key(1, pos(2_500, -700)), Ok(()));
    assert_eq!(
        editor.keys(),
        vec![
            key(0, 0, Interpolation::Linear),
            key(2_500, -700, Interpolation::Bezier(pos(3_000, 3_000))),
            key(4_000, 0, Interpolation::Cosine),
        ]
    );
    assert!(rebuild_is_due(&mut editor));
}

#[test]
fn move_key_past_another_point_takes_the_selection_along() {
    let mut editor = editor();
    assert_eq!(editor.select(pos(0, 0)), Some(Selection::Key(0)));
    assert_eq!(editor.move_key(0, pos(3_000, 0)), Ok(()));
    assert_eq!(
        editor.keys(),
        vec![
            key(2_000, 1_000, Interpolation::Bezier(pos(3_000, 3_000))),
            key(3_000, 0, Interpolation::Linear),
            key(4_000, 0, Interpolation::Cosine),
        ]
    );
    assert_eq!(editor.selected_point(), Some(1));
    // and on, as a drag would
    assert_eq!(editor.move_key(1, pos(5_000, 0)), Ok(()));
    assert_eq!(editor.selected_point(), Some(2));
    assert_eq!(editor.keys()[2], key(5_000, 0, Interpolation::Linear));
}

#[test]
fn move_key_keeps_a_selected_handle_with_its_point() {
    let mut editor = editor();
    assert_eq!(editor.select(pos(3_000, 3_000)), Some(Selection::Handle(1, HandleSelection::Own)));
    // the first point goes behind the second, whose handle is selected
    assert_eq!(editor.move_key(0, pos(2_500, 0)), Ok(()));
    assert_eq!(*editor.selection(), Some(Selection::Handle(0, HandleSelection::Own)));
    assert_eq!(editor.keys()[0], key(2_000, 1_000, Interpolation::Bezier(pos(3_000, 3_000))));
    // the last point goes to the front
    assert_eq!(editor.move_key(2, pos(-1, 0)), Ok(()));
    assert_eq!(*editor.selection(), Some(Selection::Handle(1, HandleSelection::Own)));
    assert_eq!(editor.keys()[1], key(2_000, 1_000, Interpolation::Bezier(pos(3_000, 3_000))));
}

#[test]
fn move_handle_moves_the_handle_only() {
    let mut editor = editor();
    assert_eq!(editor.move_handle(1, pos(-50, 60)), Ok(()));
    assert_eq!(
        editor.keys(),
        vec![
            key(0, 0, Interpolation::Linear),
            key(2_000, 1_000, Interpolation::Bezier(pos(-50, 60))),
            key(4_000, 0, Interpolation::Cosine),
        ]
    );
    assert!(rebuild_is_due(&mut editor));
}

#[test]
fn move_handle_on_another_mode_fails_and_changes_nothing() {
    let mut editor = editor();
    let keys = editor.keys();
    assert_eq!(editor.move_handle(0, pos(1, 1)), Err(EditorError::WrongInterpolationAssumed(0)));
    assert_eq!(editor.move_handle(2, pos(1, 1)), Err(EditorError::WrongInterpolationAssumed(2)));
    assert_eq!(editor.move_handle(3, pos(1, 1)), Err(EditorError::UnknownKey(3)));
    assert_eq!(editor.keys(), keys);
    assert!(!rebuild_is_due(&mut editor));
}

#[test]
fn toggled_bezier_point_becomes_a_step_and_has_no_handle_to_move() {
    let mut editor = Editor::new();
    editor.add_point(pos(0, 0), Interpolation::Bezier(pos(1_000, 1_000)));
    assert_eq!(editor.toggle_interpolation(0), Ok(()));
    assert_eq!(editor.keys(), vec![key(0, 0, Interpolation::Step(5_000))]);
    assert_eq!(
        editor.move_handle(0, pos(2_000, 2_000)),
        Err(EditorError::WrongInterpolationAssumed(0))
    );
    assert_eq!(editor.keys(), vec![key(0, 0, Interpolation::Step(5_000))]);
}

#[test]
fn toggle_interpolation_cycles_and_asks_for_a_rebuild() {
    let mut editor = editor();
    assert_eq!(editor.toggle_interpolation(0), Ok(()));
    assert_eq!(editor.keys()[0].interpolation, Interpolation::Cosine);
    assert!(rebuild_is_due(&mut editor));
    assert_eq!(editor.toggle_interpolation(0), Ok(()));
    assert_eq!(editor.keys()[0].interpolation, Interpolation::Bezier(pos(1_000, 1_000)));
    assert_eq!(editor.toggle_interpolation(0), Ok(()));
    assert_eq!(editor.keys()[0].interpolation, Interpolation::Step(5_000));
    assert_eq!(editor.toggle_interpolation(0), Ok(()));
    assert_eq!(editor.keys()[0].interpolation, Interpolation::Linear);
}

#[test]
fn editor_toggle_interpolation_out_of_range_is_an_unknown_key() {
    let mut editor = editor();
    let keys = editor.keys();
    assert_eq!(editor.toggle_interpolation(3), Err(EditorError::UnknownKey(3)));
    assert_eq!(editor.keys(), keys);
    assert!(!rebuild_is_due(&mut editor));
}

#[test]
fn remove_point_hands_the_point_back_and_clears_the_selection() {
    let mut editor = editor();
    editor.select(pos(4_000, 0));
    assert_eq!(editor.selected_point(), Some(2));
    assert_eq!(
        editor.remove_point(1),
        Ok(key(2_000, 1_000, Interpolation::Bezier(pos(3_000, 3_000))))
    );
    assert_eq!(*editor.selection(), None);
    assert_eq!(
        editor.keys(),
        vec![key(0, 0, Interpolation::Linear), key(4_000, 0, Interpolation::Cosine)]
    );
    assert!(rebuild_is_due(&mut editor));
}

#[test]
fn remove_point_out_of_range_is_an_unknown_key_and_keeps_the_selection() {
    let mut editor = editor();
    editor.select(pos(4_000, 0));
    let tess = editor.rebuild_tess_if_needed().unwrap();
    editor.finish_rebuild(tess, Ok(())).unwrap();
    assert_eq!(editor.remove_point(3), Err(EditorError::UnknownKey(3)));
    assert_eq!(editor.selected_point(), Some(2));
    assert_eq!(editor.keys().len(), 3);
    assert!(!rebuild_is_due(&mut editor));
}

#[test]
fn select_on_a_point_selects_it() {
    let mut editor = editor();
    assert_eq!(editor.select(pos(2_000, 1_000)), Some(Selection::Key(1)));
    assert!(editor.is_selecting());
    assert_eq!(editor.selected_point(), Some(1));
    assert_eq!(*editor.selection(), Some(Selection::Key(1)));
}

#[test]
fn select_on_a_handle_selects_it_and_no_point() {
    let mut editor = editor();
    assert_eq!(editor.select(pos(3_010, 2_990)), Some(Selection::Handle(1, HandleSelection::Own)));
    assert!(editor.is_selecting());
    assert_eq!(editor.selected_point(), None);
    assert_eq!(*editor.selection(), Some(Selection::Handle(1, HandleSelection::Own)));
}

#[test]
fn select_out_of_reach_clears_the_selection() {
    let mut editor = editor();
    assert_eq!(editor.select(pos(0, 0)), Some(Selection::Key(0)));
    assert_eq!(editor.select(pos(0, 900)), None);
    assert!(!editor.is_selecting());
    assert_eq!(*editor.selection(), None);
}

#[test]
fn select_always_asks_for_a_rebuild() {
    let mut editor = editor();
    assert_eq!(editor.select(pos(-9_000, -9_000)), None);
    assert!(rebuild_is_due(&mut editor));
    let tess = editor.rebuild_tess_if_needed().unwrap();
    editor.finish_rebuild(tess, Ok(())).unwrap();
    assert_eq!(editor.select(pos(0, 0)), Some(Selection::Key(0)));
    assert!(rebuild_is_due(&mut editor));
}

#[test]
fn deselect_clears_the_selection_and_asks_for_a_rebuild() {
    let mut editor = editor();
    editor.select(pos(0, 0));
    let tess = editor.rebuild_tess_if_needed().unwrap();
    editor.finish_rebuild(tess, Ok(())).unwrap();
    editor.deselect();
    assert!(!editor.is_selecting());
    assert!(rebuild_is_due(&mut editor));
}

#[test]
fn build_lines_samples_the_curve() {
    let mut editor = Editor::new();
    assert_eq!(editor.build_lines(), vec![]);
    editor.add_point(pos(0, 0), Interpolation::Linear);
    assert_eq!(editor.build_lines(), vec![]);
    editor.add_point(pos(250, 1_000), Interpolation::Linear);
    assert_eq!(
        editor.build_lines(),
        vec![line(0, 0), line(100, 400), line(200, 800), line(250, 1_000)]
    );
}

#[test]
fn build_points_marks_the_selection() {
    let mut editor = editor();
    editor.select(pos(2_000, 1_000));
    let blue = VColor(5_000, 5_000, 10_000);
    let green = VColor(5_000, 10_000, 5_000);
    let red = VColor(10_000, 5_000, 5_000);
    assert_eq!(
        editor.build_points(),
        vec![
            PointVertex(VPos(pos(0, 0)), blue, VRadius(125)),
            PointVertex(VPos(pos(2_000, 1_000)), red, VRadius(125)),
            PointVertex(VPos(pos(4_000, 0)), blue, VRadius(125)),
            PointVertex(VPos(pos(3_000, 3_000)), green, VRadius(75)),
        ]
    );
}

#[test]
fn rebuild_hands_out_both_lists_and_clears_the_flag() {
    let mut editor = Editor::new();
    editor.add_point(pos(0, 0), Interpolation::Linear);
    editor.add_point(pos(200, 100), Interpolation::Linear);
    let Tessellation { points, lines } = editor.rebuild_tess_if_needed().unwrap();
    assert_eq!(points, editor.build_points());
    assert_eq!(lines, vec![line(0, 0), line(100, 50), line(200, 100)]);
    // nothing is the editor's before the renderer has taken it up
    assert_eq!(*editor.points(), vec![]);
    assert_eq!(*editor.lines(), vec![]);
    assert!(editor.rebuild_tess_if_needed().is_none());
}

#[test]
fn rebuild_twice_in_a_row_rebuilds_once() {
    let mut editor = Editor::new();
    editor.add_point(pos(0, 0), Interpolation::Linear);
    editor.add_point(pos(200, 100), Interpolation::Linear);
    let tess = editor.rebuild_tess_if_needed().unwrap();
    assert_eq!(editor.finish_rebuild(tess, Ok(())), Ok(()));
    let points = editor.points().clone();
    let lines = editor.lines().clone();
    assert_eq!(lines, vec![line(0, 0), line(100, 50), line(200, 100)]);
    assert!(editor.rebuild_tess_if_needed().is_none());
    assert!(editor.rebuild_tess_if_needed().is_none());
    assert_eq!(*editor.points(), points);
    assert_eq!(*editor.lines(), lines);
}

#[test]
fn several_changes_make_one_rebuild() {
    let mut editor = editor();
    editor.add_point(pos(1_000, 0), Interpolation::Linear);
    editor.move_key(0, pos(-100, 0)).unwrap();
    editor.toggle_interpolation(1).unwrap();
    editor.select(pos(0, 0));
    assert!(editor.rebuild_tess_if_needed().is_some());
    assert!(editor.rebuild_tess_if_needed().is_none());
}

#[test]
fn refused_rebuild_keeps_the_geometry_and_is_due_again() {
    let mut editor = editor();
    let points = editor.points().clone();
    let lines = editor.lines().clone();
    editor.add_point(pos(1_000, 0), Interpolation::Linear);
    let tess = editor.rebuild_tess_if_needed().unwrap();
    assert_ne!(tess.points, points);
    assert_eq!(
        editor.finish_rebuild(tess, Err(TessError::cannot_create("no buffer"))),
        Err(EditorError::TessError(TessError::cannot_create("no buffer")))
    );
    assert_eq!(*editor.points(), points);
    assert_eq!(*editor.lines(), lines);
    // the next frame tries again, and this time the renderer takes it
    let tess = editor.rebuild_tess_if_needed().unwrap();
    assert_eq!(editor.finish_rebuild(tess, Ok(())), Ok(()));
    assert_eq!(*editor.points(), editor.build_points());
    assert_eq!(*editor.lines(), editor.build_lines());
    assert!(editor.rebuild_tess_if_needed().is_none());
}

#[test]
fn change_during_a_rebuild_makes_the_next_one() {
    let mut editor = editor();
    editor.deselect();
    let tess = editor.rebuild_tess_if_needed().unwrap();
    editor.add_point(pos(1_000, 0), Interpolation::Linear);
    assert_eq!(editor.finish_rebuild(tess, Ok(())), Ok(()));
    assert!(editor.rebuild_tess_if_needed().is_some());
}
