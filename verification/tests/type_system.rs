use rust_demos::demos::d07_type_system::{
    assoc_type_lines, enum_arms, generic_bounds_lines, items_in_step, listing, newtype_lines, pattern_match_result, Emphasis,
    step_explanation, step_title, trait_tree_lines, TypeSystemDemo, STEPS,
};
use std::time::Duration;

#[test]
fn test_trait_tree_lines_nonempty() {
    assert!(!trait_tree_lines().is_empty());
}

#[test]
fn test_enum_arms_nonempty() {
    assert!(!enum_arms().is_empty());
}

#[test]
fn test_pattern_match_negative() {
    assert_eq!(pattern_match_result(-5), "negative");
}

#[test]
fn test_pattern_match_zero() {
    assert_eq!(pattern_match_result(0), "zero");
}

#[test]
fn test_pattern_match_big() {
    assert_eq!(pattern_match_result(150), "big positive");
}

#[test]
fn test_pattern_match_normal() {
    assert_eq!(pattern_match_result(50), "normal positive");
}

#[test]
fn test_generic_bounds_nonempty() {
    assert!(!generic_bounds_lines().is_empty());
}

#[test]
fn test_newtype_lines_nonempty() {
    assert!(!newtype_lines().is_empty());
}

#[test]
fn test_step_titles_all_steps() {
    for i in 0..STEPS {
        assert!(!step_title(i).is_empty());
    }
}

#[test]
fn test_step_explanations_all_steps() {
    for i in 0..STEPS {
        assert!(!step_explanation(i).is_empty());
    }
}

#[test]
fn test_demo_trait_methods() {
    let mut d = TypeSystemDemo::new();
    assert_eq!(d.name(), "Type System");
    assert!(!d.description().is_empty());
    assert!(!d.explanation().is_empty());
    assert!(!d.is_paused());
    d.toggle_pause();
    assert!(d.is_paused());
    d.toggle_pause();
    assert!(!d.is_paused());
    d.set_speed(5);
    assert_eq!(d.speed(), 5);
    d.set_speed(0);
    assert_eq!(d.speed(), 1);
    d.set_speed(255);
    assert_eq!(d.speed(), 10);
}

#[test]
fn test_tick_paused() {
    let mut d = TypeSystemDemo::new();
    d.paused = true;
    d.tick(Duration::from_secs(100));
    assert_eq!(d.step, 0);
}

#[test]
fn test_advance_step_wraps() {
    let mut d = TypeSystemDemo::new();
    d.step = STEPS - 1;
    d.advance_step();
    assert_eq!(d.step, 0);
}

#[test]
fn test_advance_item_max_zero() {
    let mut d = TypeSystemDemo::new();
    d.advance_item(0); // should not panic, selected stays 0
    assert_eq!(d.selected_item, 0);
}

#[test]
fn test_tick_advances_step() {
    let mut d = TypeSystemDemo::new();
    // step_duration at speed=1 is 3.0s; tick with 4s should advance
    d.tick(Duration::from_secs_f64(4.0));
    assert_eq!(d.step, 1);
}

#[test]
fn test_tick_advances_item() {
    let mut d = TypeSystemDemo::new();
    // item_timer threshold at speed=1 is 0.6s
    d.tick(Duration::from_secs_f64(0.7));
    assert_eq!(d.selected_item, 1);
}

#[test]
fn test_newtype_lines_has_error_entries() {
    let lines = newtype_lines();
    let highlighted: Vec<_> = lines.iter().filter(|(_, h)| *h).collect();
    assert!(!highlighted.is_empty());
}

#[test]
fn test_selected_item_cycles_step1() {
    let mut d = TypeSystemDemo::new();
    d.step = 1;
    let max = generic_bounds_lines().len();
    d.selected_item = max - 1;
    d.advance_item(max);
    assert_eq!(d.selected_item, 0);
}

#[test]
fn test_selected_item_cycles_step4() {
    let mut d = TypeSystemDemo::new();
    d.step = 4;
    d.selected_item = 8;
    d.advance_item(9);
    assert_eq!(d.selected_item, 0);
}

#[test]
fn test_selected_item_cycles_step5() {
    let mut d = TypeSystemDemo::new();
    d.step = 5;
    d.selected_item = 3;
    d.advance_item(4);
    assert_eq!(d.selected_item, 0);
}

#[test]
fn test_pattern_match_scan_vals() {
    assert_eq!(pattern_match_result(-100), "negative");
    assert_eq!(pattern_match_result(25), "normal positive");
    assert_eq!(pattern_match_result(0), "zero");
    assert_eq!(pattern_match_result(150), "big positive");
}

// ---------------------------------------------------------------------------
// Further cases
// ---------------------------------------------------------------------------

#[test]
fn pattern_match_boundaries() {
    assert_eq!(pattern_match_result(-1), "negative");
    assert_eq!(pattern_match_result(i32::MIN), "negative");
    assert_eq!(pattern_match_result(1), "normal positive");
    assert_eq!(pattern_match_result(100), "normal positive");
    assert_eq!(pattern_match_result(101), "big positive");
    assert_eq!(pattern_match_result(i32::MAX), "big positive");
}

#[test]
fn listing_lengths_match_item_counts() {
    assert_eq!(trait_tree_lines().len(), 8);
    assert_eq!(generic_bounds_lines().len(), 11);
    assert_eq!(enum_arms().len(), 10);
    assert_eq!(newtype_lines().len(), 11);
    let counts: Vec<usize> = (0..STEPS).map(items_in_step).collect();
    assert_eq!(counts, vec![8, 11, 10, 11, 9, 4]);
    assert_eq!(items_in_step(STEPS + 2), 10);
}

#[test]
fn newtype_highlights_only_the_rejected_lines() {
    let marked: Vec<usize> = newtype_lines()
        .iter()
        .enumerate()
        .filter(|(_, (_, h))| *h)
        .map(|(i, _)| i)
        .collect();
    assert_eq!(marked, vec![6, 7]);
    assert_eq!(newtype_lines()[6].0, "// m + f  ← COMPILE ERROR!");
}

#[test]
fn type_system_titles_wrap() {
    assert_eq!(step_title(0), "Step 1/6: Traits — static interfaces with zero-overhead dispatch");
    assert_eq!(step_title(STEPS), step_title(0));
    assert_eq!(step_title(5), "Step 6/6: Pattern Matching — rich, exhaustive, compile-verified");
    assert_eq!(step_explanation(STEPS + 1), step_explanation(1));
}

#[test]
fn step_back_undoes_step_forward() {
    let mut d = TypeSystemDemo::new();
    for s in 0..STEPS {
        d.step = s;
        d.step_forward();
        assert_eq!(d.step, (s + 1) % STEPS);
        d.step_back();
        assert_eq!(d.step, s);
        assert_eq!(d.step_timer_ns, 0);
    }
    d.step = 0;
    d.step_back();
    assert_eq!(d.step, STEPS - 1);
    assert!(d.supports_step_control());
}

#[test]
fn six_advances_return_to_the_same_step() {
    let mut d = TypeSystemDemo::new();
    d.step = 2;
    for _ in 0..STEPS {
        d.advance_step();
    }
    assert_eq!(d.step, 2);
    assert_eq!(d.selected_item, 0);
}

#[test]
fn tick_moves_highlight_then_step() {
    let mut d = TypeSystemDemo::new();
    d.set_speed(2);
    // 0.3 s is the highlight period at speed 2
    d.tick_nanos(299_999_999);
    assert_eq!(d.selected_item, 0);
    d.tick_nanos(1);
    assert_eq!(d.selected_item, 1);
    assert_eq!(d.item_timer_ns, 0);
    assert_eq!(d.step_timer_ns, 300_000_000);
    // 1.5 s is the step period at speed 2
    d.tick_nanos(1_200_000_000);
    assert_eq!(d.step, 1);
    assert_eq!(d.selected_item, 0);
    assert_eq!(d.step_timer_ns, 0);
    assert_eq!(d.tick_count, 3);
}

#[test]
fn highlight_wraps_at_listing_length() {
    let mut d = TypeSystemDemo::new();
    d.step = 5;
    for _ in 0..4 {
        d.tick_nanos(600_000_000);
    }
    assert_eq!(d.selected_item, 0);
    assert_eq!(d.step, 5);
}

#[test]
fn reset_keeps_speed() {
    let mut d = TypeSystemDemo::new();
    d.set_speed(9);
    d.selected_item = 3;
    d.item_timer_ns = 7;
    d.paused = true;
    d.reset();
    assert_eq!(d.speed(), 9);
    assert_eq!(d.selected_item, 0);
    assert_eq!(d.item_timer_ns, 0);
    assert!(!d.is_paused());
}

#[test]
fn type_system_quiz_answer() {
    let (question, answers, right) = TypeSystemDemo::new().quiz().unwrap();
    assert_eq!(question, "What is the key difference between static and dynamic dispatch in Rust?");
    assert_eq!(answers[right], "Static monomorphizes at compile time");
}

#[test]
fn code_pane_marks_selected_and_flagged_lines() {
    let mut d = TypeSystemDemo::new();
    d.step = 3;
    d.selected_item = 13; // 13 % 11 == 2
    let pane = d.code_pane();
    assert_eq!(pane.len(), 11);
    assert_eq!(pane[2].1, Emphasis::Selected);
    assert_eq!(pane[6], ("// m + f  ← COMPILE ERROR!", Emphasis::Flagged));
    assert_eq!(pane[7].1, Emphasis::Flagged);
    assert_eq!(pane[0], ("struct Meters(f64);", Emphasis::Plain));
    d.step = 4;
    d.selected_item = 1;
    let pane = d.code_pane();
    assert_eq!(pane.len(), 9);
    assert_eq!(pane[1], ("    type Item;", Emphasis::Selected));
    assert_eq!(pane[6].1, Emphasis::Flagged);
    assert_eq!(pane[0].1, Emphasis::Plain);
    d.step = 0;
    d.selected_item = 0;
    let pane = d.code_pane();
    assert_eq!(pane.len(), 8);
    assert_eq!(pane.iter().filter(|(_, e)| *e != Emphasis::Plain).count(), 1);
    d.step = 5;
    assert!(d.code_pane().is_empty());
}

#[test]
fn scan_pane_follows_the_highlight() {
    let mut d = TypeSystemDemo::new();
    d.step = 5;
    d.selected_item = 6; // 6 % 4 == 2
    assert_eq!(
        d.scan_pane(),
        vec![
            (-100, "negative", false),
            (0, "zero", false),
            (25, "normal positive", true),
            (150, "big positive", false),
        ]
    );
    assert_eq!(d.diagram_focus(), 0);
    d.selected_item = 7;
    assert_eq!(d.diagram_focus(), 1);
}

#[test]
fn listings_per_step() {
    assert_eq!(listing(0).len(), 8);
    assert_eq!(listing(4), assoc_type_lines());
    assert!(listing(5).is_empty());
    assert_eq!(listing(3), newtype_lines());
    assert_eq!(listing(STEPS + 1)[0], (generic_bounds_lines()[0], false));
}

#[test]
fn try_tick_refuses_an_overflowing_step() {
    let mut d = TypeSystemDemo::new();
    d.step = usize::MAX;
    assert!(!d.try_tick(Duration::from_secs(4)));
    assert_eq!(d.step, usize::MAX);
    assert_eq!(d.tick_count, 0);
    // a short tick does not move the step, so it goes through
    assert!(d.try_tick(Duration::from_millis(100)));
    assert_eq!(d.tick_count, 1);
    assert_eq!(d.step_timer_ns, 100_000_000);
}
