//! The type-system walkthrough: six steps (traits, generics, enums,
//! newtypes, associated types, pattern matching), each highlighting one line
//! of its code listing at a time.

use crate::clock;
use std::time::Duration;
use vstd::prelude::*;

verus! {

/// The number of steps in the walkthrough.
pub const STEPS: usize = 6;

/// A step lasts `STEP_PERIOD_NS / speed` nanoseconds (three seconds at speed 1).
pub const STEP_PERIOD_NS: u64 = 3_000_000_000;

/// The highlight moves every `ITEM_PERIOD_NS / speed` nanoseconds (0.6 s at speed 1).
pub const ITEM_PERIOD_NS: u64 = 600_000_000;

/// The longest listing of any step has this many lines.
pub const MAX_ITEMS: usize = 11;

// ---------------------------------------------------------------------------
// Listings
// ---------------------------------------------------------------------------

pub open spec fn trait_tree_text() -> Seq<Seq<char>> {
    seq![
        "trait Shape { fn area(&self) -> f64; }"@,
        "  ├── impl Shape for Circle    { fn area → π·r² }"@,
        "  ├── impl Shape for Rectangle { fn area → w·h  }"@,
        "  └── impl Shape for Triangle  { fn area → ½·b·h }"@,
        ""@,
        "fn print_area<T: Shape>(s: &T) {  // static dispatch"@,
        "    println!(\"{}\", s.area());    // monomorphized"@,
        "}                                  // zero overhead"@,
    ]
}

/// The trait listing: a trait, three impls and a generic function using it.
pub fn trait_tree_lines() -> (r: Vec<&'static str>)
    ensures
        r@.map_values(|s: &'static str| s@) == trait_tree_text(),
{
    let r = vec![
        "trait Shape { fn area(&self) -> f64; }",
        "  ├── impl Shape for Circle    { fn area → π·r² }",
        "  ├── impl Shape for Rectangle { fn area → w·h  }",
        "  └── impl Shape for Triangle  { fn area → ½·b·h }",
        "",
        "fn print_area<T: Shape>(s: &T) {  // static dispatch",
        "    println!(\"{}\", s.area());    // monomorphized",
        "}                                  // zero overhead",
    ];
    assert(r@.map_values(|s: &'static str| s@) =~= trait_tree_text());
    r
}

pub open spec fn enum_arms_text() -> Seq<Seq<char>> {
    seq![
        "enum Shape {"@,
        "    Circle(f64),"@,
        "    Rectangle(f64, f64),"@,
        "    Triangle(f64, f64, f64),"@,
        "}"@,
        "match shape {"@,
        "    Shape::Circle(r)       => π * r * r,"@,
        "    Shape::Rectangle(w, h) => w * h,"@,
        "    Shape::Triangle(a,b,c) => heron(a,b,c),"@,
        "}  // exhaustive — compiler catches missed arms"@,
    ]
}

/// The enum listing: a sum type and an exhaustive match over it.
pub fn enum_arms() -> (r: Vec<&'static str>)
    ensures
        r@.map_values(|s: &'static str| s@) == enum_arms_text(),
{
    let r = vec![
        "enum Shape {",
        "    Circle(f64),",
        "    Rectangle(f64, f64),",
        "    Triangle(f64, f64, f64),",
        "}",
        "match shape {",
        "    Shape::Circle(r)       => π * r * r,",
        "    Shape::Rectangle(w, h) => w * h,",
        "    Shape::Triangle(a,b,c) => heron(a,b,c),",
        "}  // exhaustive — compiler catches missed arms",
    ];
    assert(r@.map_values(|s: &'static str| s@) =~= enum_arms_text());
    r
}

/// What `pattern_match_result` answers for `value`.
pub open spec fn pattern_match_text(value: i32) -> Seq<char> {
    if value < 0 {
        "negative"@
    } else if value == 0 {
        "zero"@
    } else if value > 100 {
        "big positive"@
    } else {
        "normal positive"@
    }
}

/// Classifies `value` the way the demo's match with guards does.
pub fn pattern_match_result(value: i32) -> (r: &'static str)
    ensures
        r@ == pattern_match_text(value),
{
    match value {
        x if x < 0 => "negative",
        0 => "zero",
        x if x > 100 => "big positive",
        _ => "normal positive",
    }
}

pub open spec fn generic_bounds_text() -> Seq<Seq<char>> {
    seq![
        "fn largest<T: PartialOrd>(list: &[T]) -> &T {"@,
        "    // Works for i32, f64, char, String..."@,
        "    // Compiler generates specialized version"@,
        "    // for each concrete type used."@,
        "    // NO virtual dispatch. NO boxing."@,
        "    let mut largest = &list[0];"@,
        "    for item in list {"@,
        "        if item > largest { largest = item; }"@,
        "    }"@,
        "    largest"@,
        "}"@,
    ]
}

/// The generics listing: a function bounded by `PartialOrd`.
pub fn generic_bounds_lines() -> (r: Vec<&'static str>)
    ensures
        r@.map_values(|s: &'static str| s@) == generic_bounds_text(),
{
    let r = vec![
        "fn largest<T: PartialOrd>(list: &[T]) -> &T {",
        "    // Works for i32, f64, char, String...",
        "    // Compiler generates specialized version",
        "    // for each concrete type used.",
        "    // NO virtual dispatch. NO boxing.",
        "    let mut largest = &list[0];",
        "    for item in list {",
        "        if item > largest { largest = item; }",
        "    }",
        "    largest",
        "}",
    ];
    assert(r@.map_values(|s: &'static str| s@) =~= generic_bounds_text());
    r
}

pub open spec fn newtype_text() -> Seq<(Seq<char>, bool)> {
    seq![
        ("struct Meters(f64);"@, false),
        ("struct Feet(f64);"@, false),
        (""@, false),
        ("let m = Meters(5.0);"@, false),
        ("let f = Feet(16.4);"@, false),
        (""@, false),
        ("// m + f  ← COMPILE ERROR!"@, true),
        ("// type system prevents unit confusion"@, true),
        (""@, false),
        ("let m2 = Meters(3.0);"@, false),
        ("let total = Meters(m.0 + m2.0);  // ✓ OK"@, false),
    ]
}

/// The newtype listing; `true` marks the lines that show the rejected mix-up.
pub fn newtype_lines() -> (r: Vec<(&'static str, bool)>)
    ensures
        r@.map_values(|p: (&'static str, bool)| (p.0@, p.1)) == newtype_text(),
{
    let r = vec![
        ("struct Meters(f64);", false),
        ("struct Feet(f64);", false),
        ("", false),
        ("let m = Meters(5.0);", false),
        ("let f = Feet(16.4);", false),
        ("", false),
        ("// m + f  ← COMPILE ERROR!", true),
        ("// type system prevents unit confusion", true),
        ("", false),
        ("let m2 = Meters(3.0);", false),
        ("let total = Meters(m.0 + m2.0);  // ✓ OK", false),
    ];
    assert(r@.map_values(|p: (&'static str, bool)| (p.0@, p.1)) =~= newtype_text());
    r
}

pub open spec fn step_title_text(step: usize) -> Seq<char> {
    if step % STEPS == 0 {
        "Step 1/6: Traits — static interfaces with zero-overhead dispatch"@
    } else if step % STEPS == 1 {
        "Step 2/6: Generics — monomorphization, no runtime cost"@
    } else if step % STEPS == 2 {
        "Step 3/6: Enums as Sum Types (ADTs) — exhaustive matching"@
    } else if step % STEPS == 3 {
        "Step 4/6: Newtype Pattern — type-level unit safety"@
    } else if step % STEPS == 4 {
        "Step 5/6: Associated Types — type-level computation"@
    } else {
        "Step 6/6: Pattern Matching — rich, exhaustive, compile-verified"@
    }
}

/// The title of a step (taken modulo `STEPS`).
pub fn step_title(step: usize) -> (r: &'static str)
    ensures
        r@ == step_title_text(step),
{
    match step % STEPS {
        0 => "Step 1/6: Traits — static interfaces with zero-overhead dispatch",
        1 => "Step 2/6: Generics — monomorphization, no runtime cost",
        2 => "Step 3/6: Enums as Sum Types (ADTs) — exhaustive matching",
        3 => "Step 4/6: Newtype Pattern — type-level unit safety",
        4 => "Step 5/6: Associated Types — type-level computation",
        _ => "Step 6/6: Pattern Matching — rich, exhaustive, compile-verified",
    }
}

pub open spec fn step_explanation_text(step: usize) -> Seq<char> {
    if step % STEPS == 0 {
        "Traits are Rust's interfaces. Generic functions using trait bounds are monomorphized at compile time — the compiler generates a specialized copy for each concrete type. No vtable, no indirection, no overhead."@
    } else if step % STEPS == 1 {
        "fn largest<T: PartialOrd> works for any T that can be compared. The compiler creates separate versions for i32, f64, char etc. You write once, get many efficient specializations."@
    } else if step % STEPS == 2 {
        "Enums in Rust are algebraic data types (sum types). A match expression must handle every variant — the compiler enforces exhaustiveness. No forgotten cases."@
    } else if step % STEPS == 3 {
        "The newtype pattern wraps a primitive in a struct to create a distinct type. Meters(f64) and Feet(f64) are different types — adding them together is a compile error."@
    } else if step % STEPS == 4 {
        "Associated types let traits define placeholder types (e.g. Iterator::Item). This gives cleaner APIs than extra generic parameters."@
    } else {
        "Rust's match is extremely powerful: value matching, range guards (x if x > 100), destructuring, binding, and exhaustiveness checking all combined."@
    }
}

/// The explanation of a step (taken modulo `STEPS`).
pub fn step_explanation(step: usize) -> (r: &'static str)
    ensures
        r@ == step_explanation_text(step),
{
    match step % STEPS {
        0 => "Traits are Rust's interfaces. Generic functions using trait bounds are monomorphized at compile time — the compiler generates a specialized copy for each concrete type. No vtable, no indirection, no overhead.",
        1 => "fn largest<T: PartialOrd> works for any T that can be compared. The compiler creates separate versions for i32, f64, char etc. You write once, get many efficient specializations.",
        2 => "Enums in Rust are algebraic data types (sum types). A match expression must handle every variant — the compiler enforces exhaustiveness. No forgotten cases.",
        3 => "The newtype pattern wraps a primitive in a struct to create a distinct type. Meters(f64) and Feet(f64) are different types — adding them together is a compile error.",
        4 => "Associated types let traits define placeholder types (e.g. Iterator::Item). This gives cleaner APIs than extra generic parameters.",
        _ => "Rust's match is extremely powerful: value matching, range guards (x if x > 100), destructuring, binding, and exhaustiveness checking all combined.",
    }
}

// ---------------------------------------------------------------------------
// The demo state machine
// ---------------------------------------------------------------------------

pub open spec fn assoc_type_text() -> Seq<(Seq<char>, bool)> {
    seq![
        ("trait Iterator {"@, false),
        ("    type Item;"@, true),
        ("    fn next(&mut self) -> Option<Self::Item>;"@, false),
        ("}"@, false),
        (""@, false),
        ("// For Vec<String>:"@, false),
        ("//   type Item = String"@, true),
        ("// For Vec<u32>:"@, false),
        ("//   type Item = u32"@, true),
    ]
}

/// The associated-types listing; `true` marks the lines that name the
/// associated type.
pub fn assoc_type_lines() -> (r: Vec<(&'static str, bool)>)
    ensures
        r@.map_values(|p: (&'static str, bool)| (p.0@, p.1)) == assoc_type_text(),
{
    let r = vec![
        ("trait Iterator {", false),
        ("    type Item;", true),
        ("    fn next(&mut self) -> Option<Self::Item>;", false),
        ("}", false),
        ("", false),
        ("// For Vec<String>:", false),
        ("//   type Item = String", true),
        ("// For Vec<u32>:", false),
        ("//   type Item = u32", true),
    ];
    assert(r@.map_values(|p: (&'static str, bool)| (p.0@, p.1)) =~= assoc_type_text());
    r
}

/// The values the pattern-matching step scans, in order.
pub open spec fn scan_values() -> Seq<i32> {
    seq![-100i32, 0, 25, 150]
}

/// Marks every line of a listing as not flagged.
pub open spec fn unflagged(lines: Seq<Seq<char>>) -> Seq<(Seq<char>, bool)> {
    lines.map_values(|l: Seq<char>| (l, false))
}

/// The code listing shown at a step, with the flag of each line: the
/// listings of the first five steps; the pattern-matching step shows the
/// scanned values instead and has no listing.
pub open spec fn listing_text(step: usize) -> Seq<(Seq<char>, bool)> {
    if step % STEPS == 0 {
        unflagged(trait_tree_text())
    } else if step % STEPS == 1 {
        unflagged(generic_bounds_text())
    } else if step % STEPS == 2 {
        unflagged(enum_arms_text())
    } else if step % STEPS == 3 {
        newtype_text()
    } else if step % STEPS == 4 {
        assoc_type_text()
    } else {
        Seq::empty()
    }
}

/// How many lines the highlight cycles through at a step: the length of
/// that step's listing, or the number of scanned values at the
/// pattern-matching step.
pub open spec fn item_count(step: usize) -> usize {
    if step % STEPS == 5 {
        scan_values().len() as usize
    } else {
        listing_text(step).len() as usize
    }
}

/// The listing lengths: 8, 11, 10, 11 and 9 lines, and 4 scanned values.
pub proof fn lemma_item_counts(step: usize)
    ensures
        item_count(step) == (if step % STEPS == 0 {
            8usize
        } else if step % STEPS == 1 {
            11usize
        } else if step % STEPS == 2 {
            10usize
        } else if step % STEPS == 3 {
            11usize
        } else if step % STEPS == 4 {
            9usize
        } else {
            4usize
        }),
        1 <= item_count(step) <= MAX_ITEMS,
{
    assert(trait_tree_text().len() == 8);
    assert(generic_bounds_text().len() == 11);
    assert(enum_arms_text().len() == 10);
    assert(newtype_text().len() == 11);
    assert(assoc_type_text().len() == 9);
    assert(scan_values().len() == 4);
}

/// The code listing shown at `step`, with each line's flag (empty at the
/// pattern-matching step).
pub fn listing(step: usize) -> (r: Vec<(&'static str, bool)>)
    ensures
        r@.map_values(|p: (&'static str, bool)| (p.0@, p.1)) == listing_text(step),
{
    let m = step % STEPS;
    let mut r: Vec<(&'static str, bool)> = Vec::new();
    if m == 3 {
        return newtype_lines();
    } else if m == 4 {
        return assoc_type_lines();
    } else if m == 5 {
        assert(r@.map_values(|p: (&'static str, bool)| (p.0@, p.1)) =~= listing_text(step));
        return r;
    }
    let lines = if m == 0 {
        trait_tree_lines()
    } else if m == 1 {
        generic_bounds_lines()
    } else {
        enum_arms()
    };
    let ghost text = lines@.map_values(|s: &'static str| s@);
    assert(unflagged(text) == listing_text(step));
    for i in 0..lines.len()
        invariant
            text == lines@.map_values(|s: &'static str| s@),
            r@.len() == i,
            forall|j: int|
                0 <= j < i ==> (#[trigger] r@[j]).0@ == text[j] && !r@[j].1,
    {
        r.push((lines[i], false));
    }
    assert(r@.map_values(|p: (&'static str, bool)| (p.0@, p.1)) =~= unflagged(text));
    r
}

/// The number of lines the highlight cycles through at `step`.
pub fn items_in_step(step: usize) -> (r: usize)
    ensures
        r == item_count(step),
{
    proof {
        lemma_item_counts(step);
    }
    if step % STEPS == 5 {
        4
    } else {
        let lines = listing(step);
        assert(lines@.len() == lines@.map_values(|p: (&'static str, bool)| (p.0@, p.1)).len());
        lines.len()
    }
}

/// How a listing line is shown: highlighted, flagged by the listing, or plain.
#[derive(Debug, Clone, Copy, PartialEq, Eq, Structural)]
pub enum Emphasis {
    Plain,
    Flagged,
    Selected,
}

/// The type-system walkthrough: the current step, the highlighted line and
/// the animation timers.
#[derive(Debug)]
pub struct TypeSystemDemo {
    pub paused: bool,
    pub speed: u8,
    pub tick_count: u64,
    pub step: usize,
    /// Time spent on the current step, in nanoseconds.
    pub step_timer_ns: u64,
    pub selected_item: usize,
    /// Time since the highlight last moved, in nanoseconds.
    pub item_timer_ns: u64,
}

/// `speed` clamped to the range `1..=10`.
pub open spec fn clamp_speed(speed: u8) -> u8 {
    if speed < 1 {
        1
    } else if speed > 10 {
        10
    } else {
        speed
    }
}

impl TypeSystemDemo {
    /// A fresh demo: first step, first line, speed 1, not paused.
    pub open spec fn initial() -> TypeSystemDemo {
        TypeSystemDemo {
            paused: false,
            speed: 1,
            tick_count: 0,
            step: 0,
            step_timer_ns: 0,
            selected_item: 0,
            item_timer_ns: 0,
        }
    }

    /// The state every operation keeps: a speed in `1..=10`, a valid step and
    /// a highlight within the longest listing.
    pub open spec fn wf(self) -> bool {
        &&& 1 <= self.speed <= 10
        &&& self.step < STEPS
        &&& self.selected_item < MAX_ITEMS
    }

    pub open spec fn after_advance_step(self) -> TypeSystemDemo {
        TypeSystemDemo {
            step: ((self.step + 1) % (STEPS as int)) as usize,
            step_timer_ns: 0,
            selected_item: 0,
            item_timer_ns: 0,
            ..self
        }
    }

    pub open spec fn after_advance_item(self, max_items: usize) -> TypeSystemDemo {
        TypeSystemDemo {
            selected_item: if max_items > 0 {
                ((self.selected_item + 1) % (max_items as int)) as usize
            } else {
                self.selected_item
            },
            item_timer_ns: 0,
            ..self
        }
    }

    /// Whether a tick of `dt_ns` nanoseconds stays clear of the integer
    /// overflows that moving the highlight or the step would hit.
    pub open spec fn tick_in_range(self, dt_ns: u64) -> bool {
        !self.paused ==> {
            &&& clock::reached(clock::add_sat(self.item_timer_ns, dt_ns), self.speed, ITEM_PERIOD_NS)
                ==> self.selected_item < usize::MAX
            &&& clock::reached(clock::add_sat(self.step_timer_ns, dt_ns), self.speed, STEP_PERIOD_NS)
                ==> self.step < usize::MAX
        }
    }

    /// The state after `dt_ns` nanoseconds pass: unless paused, the counter
    /// advances and both timers grow; the highlight moves once its period
    /// has passed, then the step moves once its period has passed.
    pub open spec fn after_tick(self, dt_ns: u64) -> TypeSystemDemo {
        if self.paused {
            self
        } else {
            let counted = TypeSystemDemo {
                tick_count: clock::next_tick(self.tick_count),
                step_timer_ns: clock::add_sat(self.step_timer_ns, dt_ns),
                item_timer_ns: clock::add_sat(self.item_timer_ns, dt_ns),
                ..self
            };
            let moved = if clock::reached(counted.item_timer_ns, counted.speed, ITEM_PERIOD_NS) {
                counted.after_advance_item(item_count(counted.step))
            } else {
                counted
            };
            if clock::reached(moved.step_timer_ns, moved.speed, STEP_PERIOD_NS) {
                moved.after_advance_step()
            } else {
                moved
            }
        }
    }

    pub open spec fn after_step_forward(self) -> TypeSystemDemo {
        TypeSystemDemo {
            step: ((self.step + 1) % (STEPS as int)) as usize,
            step_timer_ns: 0,
            ..self
        }
    }

    pub open spec fn after_step_back(self) -> TypeSystemDemo {
        TypeSystemDemo {
            step: ((self.step + STEPS - 1) % (STEPS as int)) as usize,
            step_timer_ns: 0,
            ..self
        }
    }

    pub open spec fn after_toggle_pause(self) -> TypeSystemDemo {
        TypeSystemDemo { paused: !self.paused, ..self }
    }
}

// ---------------------------------------------------------------------------
// Laws of the state machine
// ---------------------------------------------------------------------------

/// What a tick does to the step and the highlight, for an unpaused demo.
/// When the step period is reached the walkthrough moves to the next step
/// (wrapping after the sixth) with the highlight back on the first line.
/// Otherwise the step stays, and when the highlight period is reached the
/// highlight moves to the next line of the step, wrapping after the last:
/// the listings have 8, 11, 10, 11 and 9 lines, and the pattern-matching
/// step scans 4 values. Otherwise the highlight stays.
pub proof fn lemma_tick_moves_highlight_and_step(d: TypeSystemDemo, dt_ns: u64)
    requires
        !d.paused,
    ensures
        ({
            let r = d.after_tick(dt_ns);
            let item_due = clock::reached(
                clock::add_sat(d.item_timer_ns, dt_ns),
                d.speed,
                ITEM_PERIOD_NS,
            );
            let step_due = clock::reached(
                clock::add_sat(d.step_timer_ns, dt_ns),
                d.speed,
                STEP_PERIOD_NS,
            );
            let lines: int = if d.step % 6 == 0 {
                8
            } else if d.step % 6 == 1 {
                11
            } else if d.step % 6 == 2 {
                10
            } else if d.step % 6 == 3 {
                11
            } else if d.step % 6 == 4 {
                9
            } else {
                4
            };
            &&& step_due ==> r.step == (d.step + 1) % 6 && r.selected_item == 0
            &&& !step_due && item_due ==> r.step == d.step && r.selected_item == (
            d.selected_item + 1) % lines
            &&& !step_due && !item_due ==> r.step == d.step && r.selected_item == d.selected_item
        }),
{
    lemma_item_counts(d.step);
}

/// Advancing a step moves to the next step, wrapping after the sixth, with
/// the highlight on the first line.
pub proof fn lemma_advance_step_moves_to_next(d: TypeSystemDemo)
    ensures
        d.after_advance_step().step == (d.step + 1) % 6,
        d.after_advance_step().selected_item == 0,
{
}

/// In every listing exactly one line is selected: the one at the highlight
/// taken modulo the listing's length.
pub proof fn lemma_one_selected_line(d: TypeSystemDemo, i: int)
    requires
        d.step % 6 != 5,
        0 <= i < listing_text(d.step).len(),
    ensures
        (d.emphasis_at(i) == Emphasis::Selected) <==> i == (d.selected_item as int) % (listing_text(d.step).len() as int),
{
}

/// A tick keeps the state well formed.
pub proof fn lemma_tick_preserves_wf(d: TypeSystemDemo, dt_ns: u64)
    requires
        d.wf(),
    ensures
        d.after_tick(dt_ns).wf(),
{
}

/// A paused demo ignores ticks.
pub proof fn lemma_paused_tick_changes_nothing(d: TypeSystemDemo, dt_ns: u64)
    requires
        d.paused,
    ensures
        d.after_tick(dt_ns) == d,
{
}

/// Stepping back undoes stepping forward, and stepping forward undoes
/// stepping back (the step timer restarts either way).
pub proof fn lemma_step_back_undoes_step_forward(d: TypeSystemDemo)
    requires
        d.step < STEPS,
    ensures
        d.after_step_forward().after_step_back() == (TypeSystemDemo { step_timer_ns: 0, ..d }),
        d.after_step_back().after_step_forward() == (TypeSystemDemo { step_timer_ns: 0, ..d }),
{
}

/// Advancing `STEPS` times from any step comes back to that step.
pub proof fn lemma_steps_cycle(d: TypeSystemDemo)
    requires
        d.step < STEPS,
    ensures
        d.after_advance_step().after_advance_step().after_advance_step().after_advance_step()
            .after_advance_step().after_advance_step().step == d.step,
{
}

/// Toggling the pause twice restores the state.
pub proof fn lemma_toggle_pause_twice(d: TypeSystemDemo)
    ensures
        d.after_toggle_pause().after_toggle_pause() == d,
{
}

// ---------------------------------------------------------------------------
// Operations
// ---------------------------------------------------------------------------

impl TypeSystemDemo {
    pub fn new() -> (d: Self)
        ensures
            d == TypeSystemDemo::initial(),
            d.wf(),
    {
        TypeSystemDemo {
            paused: false,
            speed: 1,
            tick_count: 0,
            step: 0,
            step_timer_ns: 0,
            selected_item: 0,
            item_timer_ns: 0,
        }
    }

    /// Moves to the next step (wrapping after the last) and restarts the
    /// step from its first line.
    pub fn advance_step(&mut self)
        requires
            old(self).step < usize::MAX,
        ensures
            *final(self) == old(self).after_advance_step(),
            final(self).step == (old(self).step + 1) % 6,
    {
        self.step = (self.step + 1) % STEPS;
        self.step_timer_ns = 0;
        self.selected_item = 0;
        self.item_timer_ns = 0;
    }

    /// Moves the highlight to the next of `max_items` lines (wrapping), or
    /// leaves it where it is when there are no lines; restarts its timer.
    pub fn advance_item(&mut self, max_items: usize)
        requires
            max_items > 0 ==> old(self).selected_item < usize::MAX,
        ensures
            *final(self) == old(self).after_advance_item(max_items),
    {
        if max_items > 0 {
            self.selected_item = (self.selected_item + 1) % max_items;
        }
        self.item_timer_ns = 0;
    }

    /// Lets `dt_ns` nanoseconds pass (see `after_tick`).
    pub fn tick_nanos(&mut self, dt_ns: u64)
        requires
            old(self).tick_in_range(dt_ns),
        ensures
            *final(self) == old(self).after_tick(dt_ns),
            old(self).wf() ==> final(self).wf(),
            !old(self).paused && !clock::reached(
                clock::add_sat(old(self).step_timer_ns, dt_ns),
                old(self).speed,
                STEP_PERIOD_NS,
            ) && clock::reached(
                clock::add_sat(old(self).item_timer_ns, dt_ns),
                old(self).speed,
                ITEM_PERIOD_NS,
            ) && old(self).step % 6 == 5 ==> final(self).selected_item == (old(self).selected_item
                + 1) % 4,
    {
        proof {
            if !self.paused {
                lemma_tick_moves_highlight_and_step(*self, dt_ns);
            }
        }
        if self.paused {
            return;
        }
        self.tick_count = clock::bump_tick(self.tick_count);
        self.step_timer_ns = clock::add_nanos(self.step_timer_ns, dt_ns);
        self.item_timer_ns = clock::add_nanos(self.item_timer_ns, dt_ns);
        if clock::period_reached(self.item_timer_ns, self.speed, ITEM_PERIOD_NS) {
            let max = items_in_step(self.step);
            self.advance_item(max);
        }
        if clock::period_reached(self.step_timer_ns, self.speed, STEP_PERIOD_NS) {
            self.advance_step();
        }
    }

    /// Lets the time `dt` pass, as `tick_nanos` does with its length in
    /// nanoseconds (clamped to `u64::MAX`).
    pub fn tick(&mut self, dt: Duration)
        requires
            old(self).tick_in_range(clock::duration_length(dt)),
        ensures
            *final(self) == old(self).after_tick(clock::duration_length(dt)),
            old(self).wf() ==> final(self).wf(),
    {
        let dt_ns = clock::duration_nanos(&dt);
        self.tick_nanos(dt_ns);
    }

    /// Lets the time `dt` pass, as `tick` does, where that cannot overflow:
    /// when the tick would advance a counter already at `usize::MAX`,
    /// nothing changes and the result is `false`.
    pub fn try_tick(&mut self, dt: Duration) -> (ticked: bool)
        ensures
            ticked == old(self).tick_in_range(clock::duration_length(dt)),
            ticked ==> *final(self) == old(self).after_tick(clock::duration_length(dt)),
            !ticked ==> *final(self) == *old(self),
            old(self).wf() ==> final(self).wf(),
    {
        let dt_ns = clock::duration_nanos(&dt);
        if !self.paused {
            if clock::period_reached(
                clock::add_nanos(self.item_timer_ns, dt_ns),
                self.speed,
                ITEM_PERIOD_NS,
            ) && self.selected_item == usize::MAX {
                return false;
            }
            if clock::period_reached(
                clock::add_nanos(self.step_timer_ns, dt_ns),
                self.speed,
                STEP_PERIOD_NS,
            ) && self.step == usize::MAX {
                return false;
            }
        }
        self.tick_nanos(dt_ns);
        true
    }

    pub fn name(&self) -> (s: &'static str)
        ensures
            s@ == "Type System"@,
    {
        "Type System"
    }

    pub fn description(&self) -> (s: &'static str)
        ensures
            s@ == "Generics, traits, enums as sum types — resolved at compile time."@,
    {
        "Generics, traits, enums as sum types — resolved at compile time."
    }

    pub fn explanation(&self) -> (s: &'static str)
        ensures
            s@ == "Rust's type system combines generics (monomorphized at compile time), traits (static or dynamic dispatch), \
        algebraic data types (enums as sum types), and exhaustive pattern matching. \
        There is no null, no untagged union, no missing case — the compiler proves your program handles all possibilities."@,
    {
        "Rust's type system combines generics (monomorphized at compile time), traits (static or dynamic dispatch), \
        algebraic data types (enums as sum types), and exhaustive pattern matching. \
        There is no null, no untagged union, no missing case — the compiler proves your program handles all possibilities."
    }

    /// Starts over from the first step, unpaused; the speed is kept.
    pub fn reset(&mut self)
        ensures
            *final(self) == (TypeSystemDemo { speed: old(self).speed, ..TypeSystemDemo::initial() }),
    {
        self.step = 0;
        self.step_timer_ns = 0;
        self.tick_count = 0;
        self.selected_item = 0;
        self.item_timer_ns = 0;
        self.paused = false;
    }

    pub fn toggle_pause(&mut self)
        ensures
            *final(self) == old(self).after_toggle_pause(),
    {
        self.paused = !self.paused;
    }

    pub fn is_paused(&self) -> (r: bool)
        ensures
            r == self.paused,
    {
        self.paused
    }

    /// Sets the speed, clamped to `1..=10`.
    pub fn set_speed(&mut self, speed: u8)
        ensures
            *final(self) == (TypeSystemDemo { speed: clamp_speed(speed), ..*old(self) }),
            1 <= final(self).speed <= 10,
    {
        self.speed = if speed < 1 {
            1
        } else if speed > 10 {
            10
        } else {
            speed
        };
    }

    pub fn speed(&self) -> (r: u8)
        ensures
            r == self.speed,
    {
        self.speed
    }

    /// The demo's quiz: a question, four answers and the index of the right one.
    pub fn quiz(&self) -> (q: Option<(&'static str, [&'static str; 4], usize)>)
        ensures
            q matches Some((question, answers, right)) && {
                &&& question@ == "What is the key difference between static and dynamic dispatch in Rust?"@
                &&& answers@.len() == 4
                &&& answers@[0]@ == "Dynamic is faster"@
                &&& answers@[1]@ == "Static monomorphizes at compile time"@
                &&& answers@[2]@ == "Static requires vtables"@
                &&& answers@[3]@ == "Dynamic prevents abstraction"@
                &&& right == 1
            },
    {
        Some(
            (
                "What is the key difference between static and dynamic dispatch in Rust?",
                [
                    "Dynamic is faster",
                    "Static monomorphizes at compile time",
                    "Static requires vtables",
                    "Dynamic prevents abstraction",
                ],
                1,
            ),
        )
    }

    /// How listing line `i` of the current step is shown: the line at the
    /// highlight (taken modulo the listing length) is selected, otherwise a
    /// line the listing flags is flagged, otherwise it is plain.
    pub open spec fn emphasis_at(self, i: int) -> Emphasis {
        if i == self.selected_item % item_count(self.step) {
            Emphasis::Selected
        } else if listing_text(self.step)[i].1 {
            Emphasis::Flagged
        } else {
            Emphasis::Plain
        }
    }

    /// The code pane: each line of the current step's listing with how it
    /// is shown (empty at the pattern-matching step, which shows
    /// `scan_pane` instead).
    pub fn code_pane(&self) -> (r: Vec<(&'static str, Emphasis)>)
        ensures
            r@.len() == listing_text(self.step).len(),
            forall|i: int|
                0 <= i < r@.len() ==> (#[trigger] r@[i]).0@ == listing_text(self.step)[i].0
                    && r@[i].1 == self.emphasis_at(i),
            forall|i: int|
                0 <= i < r@.len() ==> ((#[trigger] r@[i]).1 == Emphasis::Selected <==> i
                    == (self.selected_item as int) % (r@.len() as int)),
    {
        proof {
            lemma_item_counts(self.step);
        }
        let lines = listing(self.step);
        let ghost text = lines@.map_values(|p: (&'static str, bool)| (p.0@, p.1));
        assert(text.len() == lines@.len());
        let count = items_in_step(self.step);
        let mut r: Vec<(&'static str, Emphasis)> = Vec::new();
        for i in 0..lines.len()
            invariant
                text == lines@.map_values(|p: (&'static str, bool)| (p.0@, p.1)),
                text == listing_text(self.step),
                count == item_count(self.step),
                count >= 1,
                r@.len() == i,
                forall|j: int|
                    0 <= j < i ==> (#[trigger] r@[j]).0@ == text[j].0 && r@[j].1
                        == self.emphasis_at(j),
        {
            let (line, flagged) = lines[i];
            assert(text[i as int] == (line@, flagged));
            let emphasis = if i == self.selected_item % count {
                Emphasis::Selected
            } else if flagged {
                Emphasis::Flagged
            } else {
                Emphasis::Plain
            };
            r.push((line, emphasis));
        }
        r
    }

    /// The pattern-matching pane: each scanned value, what the match
    /// answers for it, and whether it is the one being scanned (the
    /// highlight modulo 4).
    pub fn scan_pane(&self) -> (r: Vec<(i32, &'static str, bool)>)
        ensures
            r@.len() == scan_values().len(),
            forall|i: int|
                0 <= i < r@.len() ==> (#[trigger] r@[i]).0 == scan_values()[i] && r@[i].1@
                    == pattern_match_text(scan_values()[i]) && r@[i].2 == (i == self.selected_item
                    % 4),
    {
        let values: [i32; 4] = [-100, 0, 25, 150];
        assert(values@ == scan_values());
        let active = self.selected_item % 4;
        let mut r: Vec<(i32, &'static str, bool)> = Vec::new();
        for i in 0..4
            invariant
                values@ == scan_values(),
                active == self.selected_item % 4,
                r@.len() == i,
                forall|j: int|
                    0 <= j < i ==> (#[trigger] r@[j]).0 == scan_values()[j] && r@[j].1@
                        == pattern_match_text(scan_values()[j]) && r@[j].2 == (j == active),
        {
            let v = values[i];
            r.push((v, pattern_match_result(v), i == active));
        }
        r
    }

    /// Which of the three boxes of the dispatch diagram is lit: the
    /// highlight modulo 3.
    pub fn diagram_focus(&self) -> (r: usize)
        ensures
            r == self.selected_item % 3,
    {
        self.selected_item % 3
    }

    /// This demo can be stepped by hand.
    pub fn supports_step_control(&self) -> (r: bool)
        ensures
            r,
    {
        true
    }

    /// Moves to the next step (wrapping) and restarts the step timer.
    pub fn step_forward(&mut self)
        requires
            old(self).step < usize::MAX,
        ensures
            *final(self) == old(self).after_step_forward(),
            old(self).wf() ==> final(self).wf(),
    {
        self.step = (self.step + 1) % STEPS;
        self.step_timer_ns = 0;
    }

    /// Moves to the previous step (wrapping) and restarts the step timer.
    pub fn step_back(&mut self)
        requires
            old(self).step + STEPS <= usize::MAX,
        ensures
            *final(self) == old(self).after_step_back(),
            old(self).wf() ==> final(self).wf(),
    {
        self.step = (self.step + STEPS - 1) % STEPS;
        self.step_timer_ns = 0;
    }
}

impl Default for TypeSystemDemo {
    fn default() -> (d: Self)
        ensures
            d == TypeSystemDemo::initial(),
    {
        Self::new()
    }
}

} // verus!
