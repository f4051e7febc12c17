use compositor_developer::canvas::{BLUE, CYAN, GREEN, LTGREY, MAGENTA, ORANGE, RED, YELLOW};
use compositor_developer::tools::{
    age_trail, is_eraser, reconcile, Rebind, push_bounded, slot_colour, tool_colour, tool_frame, tool_name, ToolType, TRAIL,
};

#[test]
fn tool_names_and_colours() {
    assert_eq!(tool_name(Some(ToolType::Airbrush)), "AIRBRUSH");
    assert_eq!(tool_name(Some(ToolType::Lens)), "LENS");
    assert_eq!(tool_name(None), "TOOL");
    assert!(is_eraser(Some(ToolType::Eraser)));
    assert!(!is_eraser(Some(ToolType::Pen)));
    assert!(!is_eraser(None));
    assert_eq!(tool_colour(Some(ToolType::Eraser)), MAGENTA);
    assert_eq!(tool_colour(Some(ToolType::Brush)), GREEN);
    assert_eq!(tool_colour(Some(ToolType::Pencil)), YELLOW);
    assert_eq!(tool_colour(Some(ToolType::Airbrush)), ORANGE);
    assert_eq!(tool_colour(Some(ToolType::Mouse)), LTGREY);
    assert_eq!(tool_colour(Some(ToolType::Pen)), CYAN);
    assert_eq!(tool_colour(None), CYAN);
}

#[test]
fn touch_slot_colours_wrap() {
    assert_eq!(slot_colour(0), CYAN);
    assert_eq!(slot_colour(5), BLUE);
    assert_eq!(slot_colour(6), CYAN);
    assert_eq!(slot_colour(-1), BLUE);
    assert_eq!(slot_colour(-6), CYAN);
    assert_eq!(slot_colour(-8), RED);
    assert_eq!(slot_colour(i32::MIN), slot_colour(i32::MIN.rem_euclid(6)));
}

#[test]
fn push_bounded_keeps_newest() {
    let mut v = vec![1, 2, 3];
    push_bounded(&mut v, 4, 3);
    assert_eq!(v, vec![2, 3, 4]);
    push_bounded(&mut v, 5, 10);
    assert_eq!(v, vec![2, 3, 4, 5]);
    push_bounded(&mut v, 6, 0);
    assert!(v.is_empty());
}

#[test]
fn tool_frame_inks_from_the_last_point() {
    let mut trail: Vec<(f64, f64)> = Vec::new();
    // Tip lands: a dot from here to here.
    let (seg, prev) = tool_frame(true, true, None, (10.0, 20.0), &mut trail);
    assert_eq!(seg, Some(((10.0, 20.0), (10.0, 20.0))));
    assert_eq!(prev, Some((10.0, 20.0)));
    // Moves while down: a segment from the last inked point.
    let (seg, prev) = tool_frame(true, true, prev, (12.5, 21.0), &mut trail);
    assert_eq!(seg, Some(((10.0, 20.0), (12.5, 21.0))));
    assert_eq!(prev, Some((12.5, 21.0)));
    assert_eq!(trail, vec![(10.0, 20.0), (12.5, 21.0)]);
    // Lifted and out of range: nothing inked, trail untouched, last point forgotten.
    let (seg, prev) = tool_frame(false, false, prev, (30.0, 30.0), &mut trail);
    assert_eq!(seg, None);
    assert_eq!(prev, None);
    assert_eq!(trail.len(), 2);
}

#[test]
fn hover_trail_is_bounded() {
    let mut trail: Vec<(f64, f64)> = Vec::new();
    for i in 0..40 {
        tool_frame(false, true, None, (i as f64, 0.0), &mut trail);
    }
    assert_eq!(trail.len(), TRAIL);
    assert_eq!(trail[0], (16.0, 0.0));
    assert_eq!(trail[TRAIL - 1], (39.0, 0.0));
}

#[test]
fn idle_trail_fades_to_one_point() {
    let mut trail = vec![1, 2, 3];
    age_trail(true, &mut trail);
    assert_eq!(trail, vec![1, 2, 3]);
    age_trail(false, &mut trail);
    assert_eq!(trail, vec![2, 3]);
    age_trail(false, &mut trail);
    age_trail(false, &mut trail);
    assert_eq!(trail, vec![3]);
}

#[test]
fn input_toggle_reconciles() {
    assert_eq!(reconcile(true, false), Rebind::Bind);
    assert_eq!(reconcile(false, true), Rebind::Release);
    assert_eq!(reconcile(true, true), Rebind::Keep);
    assert_eq!(reconcile(false, false), Rebind::Keep);
}
