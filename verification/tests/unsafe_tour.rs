use rust_demos::demos::d10_unsafe::{
    best_practice_lines, list_unsafe_superpowers, numbered_superpowers, raw_pointer_code_lines, raw_ptr_demo,
    safe_abstraction_lines, step_explanation, step_title, tool_lines, Tone, UnsafeDemo, STEPS,
    SURFACE_TOTAL_LINES, SURFACE_UNSAFE_LINES,
};
use std::time::Duration;

#[test]
fn test_raw_ptr_demo_values() {
    let vals = raw_ptr_demo();
    assert_eq!(vals, vec![1u32, 2, 3, 4, 5, 6, 7, 8]);
}

#[test]
fn test_list_unsafe_superpowers_len() {
    assert_eq!(list_unsafe_superpowers().len(), 5);
}

#[test]
fn test_list_unsafe_superpowers_content() {
    let sp = list_unsafe_superpowers();
    assert!(sp.contains(&"Dereference raw pointers"));
    assert!(sp.contains(&"Call unsafe functions"));
    assert!(sp.contains(&"Access mutable static variables"));
    assert!(sp.contains(&"Implement unsafe traits"));
    assert!(sp.contains(&"Access fields of unions"));
}

#[test]
fn mod_test_demo_trait_methods() {
    let mut d = UnsafeDemo::new();
    assert_eq!(d.name(), "Unsafe Rust");
    assert!(!d.description().is_empty());
    assert!(!d.explanation().is_empty());
    assert!(!d.is_paused());
    d.toggle_pause();
    assert!(d.is_paused());
    d.toggle_pause();
    assert!(!d.is_paused());
    d.set_speed(6);
    assert_eq!(d.speed(), 6);
    d.set_speed(0);
    assert_eq!(d.speed(), 1);
    d.set_speed(255);
    assert_eq!(d.speed(), 10);
}

#[test]
fn mod_test_tick_paused() {
    let mut d = UnsafeDemo::new();
    d.paused = true;
    d.tick(Duration::from_secs(100));
    assert_eq!(d.step, 0);
    assert_eq!(d.tick_count, 0);
}

#[test]
fn test_ptr_offset_advances_on_step1() {
    let mut d = UnsafeDemo::new();
    d.step = 1;
    // threshold is 0.3s at speed=1
    d.tick(Duration::from_secs_f64(0.4));
    assert_eq!(d.ptr_offset, 1);
}

#[test]
fn test_ptr_offset_wraps_at_8() {
    let mut d = UnsafeDemo::new();
    d.step = 1;
    d.ptr_offset = 7;
    d.ptr_timer_ns = 10_000_000_000;
    d.tick(Duration::from_micros(1));
    assert_eq!(d.ptr_offset, 0);
}

#[test]
fn test_ptr_offset_does_not_advance_on_other_steps() {
    let mut d = UnsafeDemo::new();
    d.step = 0;
    d.tick(Duration::from_secs_f64(1.0));
    assert_eq!(d.ptr_offset, 0);
}

#[test]
fn mod_test_advance_step_wraps() {
    let mut d = UnsafeDemo::new();
    d.step = STEPS - 1;
    d.advance_step();
    assert_eq!(d.step, 0);
}

// ---------------------------------------------------------------------------
// Further cases
// ---------------------------------------------------------------------------

#[test]
fn superpowers_in_order() {
    assert_eq!(
        list_unsafe_superpowers(),
        vec![
            "Dereference raw pointers",
            "Call unsafe functions",
            "Access mutable static variables",
            "Implement unsafe traits",
            "Access fields of unions",
        ]
    );
}

#[test]
fn unsafe_titles_wrap() {
    assert_eq!(step_title(1), "Step 2/5: Raw pointer arithmetic — live demo via unsafe block");
    assert_eq!(step_title(STEPS + 1), step_title(1));
    assert_eq!(step_title(4), "Step 5/5: Best practices — minimize, isolate, document SAFETY");
    assert_eq!(step_explanation(2 * STEPS), step_explanation(0));
    assert!(step_explanation(3).starts_with("In typical Rust projects"));
}

#[test]
fn pointer_walks_all_eight_elements() {
    let mut d = UnsafeDemo::new();
    d.step = 1;
    d.set_speed(10);
    // 30 ms per element at speed 10, well inside the 300 ms step
    for expected in [1usize, 2, 3, 4, 5, 6, 7, 0] {
        d.tick_nanos(30_000_000);
        assert_eq!(d.ptr_offset, expected);
        assert_eq!(d.ptr_timer_ns, 0);
    }
    assert_eq!(d.step, 1);
    assert_eq!(d.step_timer_ns, 240_000_000);
}

#[test]
fn step_change_puts_pointer_back() {
    let mut d = UnsafeDemo::new();
    d.step = 1;
    d.ptr_offset = 4;
    d.tick_nanos(3_000_000_000);
    assert_eq!(d.step, 2);
    assert_eq!(d.ptr_offset, 0);
    assert_eq!(d.ptr_timer_ns, 0);
    assert_eq!(d.step_timer_ns, 0);
}

#[test]
fn five_advances_return_to_the_same_step() {
    let mut d = UnsafeDemo::new();
    d.step = 3;
    for _ in 0..STEPS {
        d.advance_step();
    }
    assert_eq!(d.step, 3);
}

#[test]
fn paused_demo_ignores_long_ticks() {
    let mut d = UnsafeDemo::new();
    d.step = 1;
    d.ptr_offset = 2;
    d.toggle_pause();
    d.tick_nanos(u64::MAX);
    assert_eq!(d.step, 1);
    assert_eq!(d.ptr_offset, 2);
    assert_eq!(d.step_timer_ns, 0);
    assert_eq!(d.tick_count, 0);
}

#[test]
fn unsafe_quiz_answer() {
    let (question, answers, right) = UnsafeDemo::new().quiz().unwrap();
    assert_eq!(question, "What does `unsafe` in Rust actually disable?");
    assert_eq!(answers[right], "Specific safety guarantees the compiler can't verify");
}

#[test]
fn walk_line_marks_the_pointer() {
    let mut d = UnsafeDemo::new();
    d.ptr_offset = 3;
    let line = d.walk_line();
    assert_eq!(line.len(), 8);
    for (i, (v, at)) in line.iter().enumerate() {
        assert_eq!(*v, i as u32 + 1);
        assert_eq!(*at, i == 3);
    }
}

#[test]
fn superpowers_are_numbered_with_alternating_colours() {
    let items = numbered_superpowers();
    assert_eq!(items.len(), 5);
    assert_eq!(items[0], (1, "Dereference raw pointers", true));
    assert_eq!(items[1], (2, "Call unsafe functions", false));
    assert_eq!(items[4], (5, "Access fields of unions", true));
}

#[test]
fn step_listings() {
    assert_eq!(raw_pointer_code_lines().len(), 7);
    assert_eq!(raw_pointer_code_lines()[4], ("unsafe { *ptr.add(i) }", Tone::Unsafe));
    assert_eq!(safe_abstraction_lines().len(), 11);
    assert_eq!(safe_abstraction_lines()[6], ("        None", Tone::Danger));
    assert_eq!(tool_lines().len(), 2);
    assert_eq!(best_practice_lines().len(), 8);
    assert_eq!(best_practice_lines()[3].1, Tone::Caution);
    assert_eq!((SURFACE_UNSAFE_LINES, SURFACE_TOTAL_LINES), (23, 2400));
}

#[test]
fn try_tick_refuses_an_overflowing_pointer() {
    let mut d = UnsafeDemo::new();
    d.step = 1;
    d.ptr_offset = usize::MAX;
    assert!(!d.try_tick(Duration::from_millis(400)));
    assert_eq!(d.tick_count, 0);
    // off the pointer step the pointer is never advanced, so the tick goes through
    d.step = 0;
    assert!(d.try_tick(Duration::from_millis(400)));
    assert_eq!(d.ptr_offset, usize::MAX);
    assert_eq!(d.tick_count, 1);
}
