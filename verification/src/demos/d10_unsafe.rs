//! The unsafe-Rust tour: five steps on what `unsafe` unlocks, with a
//! pointer-walk animation on the second step.

use crate::clock;
use std::time::Duration;
use vstd::prelude::*;

verus! {

/// The number of steps in the tour.
pub const STEPS: usize = 5;

/// A step lasts `STEP_PERIOD_NS / speed` nanoseconds (three seconds at speed 1).
pub const STEP_PERIOD_NS: u64 = 3_000_000_000;

/// On the pointer step the walked element moves every `PTR_PERIOD_NS / speed`
/// nanoseconds (0.3 s at speed 1).
pub const PTR_PERIOD_NS: u64 = 300_000_000;

/// The number of elements the pointer walk reads.
pub const WALK_LEN: usize = 8;

/// Reads the eight `u32` values of the array `[1, 2, ..., 8]` one index at a
/// time and returns them in order.
pub fn raw_ptr_demo() -> (r: Vec<u32>)
    ensures
        r@ == seq![1u32, 2, 3, 4, 5, 6, 7, 8],
{
    let data: [u32; 8] = [1, 2, 3, 4, 5, 6, 7, 8];
    let mut result: Vec<u32> = Vec::with_capacity(WALK_LEN);
    for i in 0..WALK_LEN
        invariant
            result@.len() == i,
            forall|j: int| 0 <= j < i ==> result@[j] == j + 1,
            data@ == seq![1u32, 2, 3, 4, 5, 6, 7, 8],
    {
        result.push(data[i]);
    }
    assert(result@ =~= seq![1u32, 2, 3, 4, 5, 6, 7, 8]);
    result
}

pub open spec fn unsafe_superpowers_text() -> Seq<Seq<char>> {
    seq![
        "Dereference raw pointers"@,
        "Call unsafe functions"@,
        "Access mutable static variables"@,
        "Implement unsafe traits"@,
        "Access fields of unions"@,
    ]
}

/// The five capabilities that `unsafe` unlocks — nothing more.
pub fn list_unsafe_superpowers() -> (r: Vec<&'static str>)
    ensures
        r@.map_values(|s: &'static str| s@) == unsafe_superpowers_text(),
{
    let r = vec![
        "Dereference raw pointers",
        "Call unsafe functions",
        "Access mutable static variables",
        "Implement unsafe traits",
        "Access fields of unions",
    ];
    assert(r@.map_values(|s: &'static str| s@) =~= unsafe_superpowers_text());
    r
}

/// How a line of a listing is shown: plain text, a safety note, an unsafe
/// operation (emphasised), a caution, the failure branch, an emphasised
/// note, or a plain note.
#[derive(Debug, Clone, Copy, PartialEq, Eq, Structural)]
pub enum Tone {
    Dim,
    Safe,
    Unsafe,
    Caution,
    Danger,
    Highlight,
    Note,
}

pub open spec fn raw_pointer_code_text() -> Seq<(Seq<char>, Tone)> {
    seq![
        ("let data: [u32; 8] = [1, 2, 3, 4, 5, 6, 7, 8];"@, Tone::Dim),
        ("let ptr = data.as_ptr();"@, Tone::Dim),
        (""@, Tone::Dim),
        ("// SAFETY: i in 0..8, within bounds of `data`"@, Tone::Safe),
        ("unsafe { *ptr.add(i) }"@, Tone::Unsafe),
        (""@, Tone::Dim),
        ("Values read:"@, Tone::Dim),
    ]
}

/// The code shown above the pointer walk.
pub fn raw_pointer_code_lines() -> (r: Vec<(&'static str, Tone)>)
    ensures
        r@.map_values(|p: (&'static str, Tone)| (p.0@, p.1)) == raw_pointer_code_text(),
{
    let r = vec![
        ("let data: [u32; 8] = [1, 2, 3, 4, 5, 6, 7, 8];", Tone::Dim),
        ("let ptr = data.as_ptr();", Tone::Dim),
        ("", Tone::Dim),
        ("// SAFETY: i in 0..8, within bounds of `data`", Tone::Safe),
        ("unsafe { *ptr.add(i) }", Tone::Unsafe),
        ("", Tone::Dim),
        ("Values read:", Tone::Dim),
    ];
    assert(r@.map_values(|p: (&'static str, Tone)| (p.0@, p.1)) =~= raw_pointer_code_text());
    r
}

pub open spec fn safe_abstraction_text() -> Seq<(Seq<char>, Tone)> {
    seq![
        ("// Safe public API — users never see unsafe"@, Tone::Safe),
        ("pub fn get_unchecked_safe(slice: &[u8], idx: usize) -> Option<u8> {"@, Tone::Dim),
        ("    if idx < slice.len() {"@, Tone::Dim),
        ("        // SAFETY: idx is checked above to be in-bounds"@, Tone::Safe),
        ("        Some(unsafe { *slice.as_ptr().add(idx) })"@, Tone::Unsafe),
        ("    } else {"@, Tone::Dim),
        ("        None"@, Tone::Danger),
        ("    }"@, Tone::Dim),
        ("}"@, Tone::Dim),
        (""@, Tone::Dim),
        ("// This is exactly how Vec, String, HashMap are built."@, Tone::Dim),
    ]
}

/// The safe-abstraction listing: a checked index over an unchecked read.
pub fn safe_abstraction_lines() -> (r: Vec<(&'static str, Tone)>)
    ensures
        r@.map_values(|p: (&'static str, Tone)| (p.0@, p.1)) == safe_abstraction_text(),
{
    let r = vec![
        ("// Safe public API — users never see unsafe", Tone::Safe),
        ("pub fn get_unchecked_safe(slice: &[u8], idx: usize) -> Option<u8> {", Tone::Dim),
        ("    if idx < slice.len() {", Tone::Dim),
        ("        // SAFETY: idx is checked above to be in-bounds", Tone::Safe),
        ("        Some(unsafe { *slice.as_ptr().add(idx) })", Tone::Unsafe),
        ("    } else {", Tone::Dim),
        ("        None", Tone::Danger),
        ("    }", Tone::Dim),
        ("}", Tone::Dim),
        ("", Tone::Dim),
        ("// This is exactly how Vec, String, HashMap are built.", Tone::Dim),
    ];
    assert(r@.map_values(|p: (&'static str, Tone)| (p.0@, p.1)) =~= safe_abstraction_text());
    r
}

/// The size of the codebase in the surface-area step, in lines.
pub const SURFACE_TOTAL_LINES: u64 = 2400;

/// The lines of that codebase inside `unsafe` blocks.
pub const SURFACE_UNSAFE_LINES: u64 = 23;

pub open spec fn tool_text() -> Seq<(Seq<char>, Tone)> {
    seq![
        ("  cargo-geiger: measure your unsafe footprint"@, Tone::Dim),
        ("  clippy: warns about unnecessary unsafe"@, Tone::Dim),
    ]
}

/// The tools named in the surface-area step.
pub fn tool_lines() -> (r: Vec<(&'static str, Tone)>)
    ensures
        r@.map_values(|p: (&'static str, Tone)| (p.0@, p.1)) == tool_text(),
{
    let r = vec![
        ("  cargo-geiger: measure your unsafe footprint", Tone::Dim),
        ("  clippy: warns about unnecessary unsafe", Tone::Dim),
    ];
    assert(r@.map_values(|p: (&'static str, Tone)| (p.0@, p.1)) =~= tool_text());
    r
}

pub open spec fn best_practice_text() -> Seq<(Seq<char>, Tone)> {
    seq![
        ("  Rule 1: Keep unsafe blocks as small as possible."@, Tone::Safe),
        ("  Rule 2: Every unsafe block MUST have a // SAFETY: comment."@, Tone::Safe),
        ("  Rule 3: Wrap unsafe in a safe public abstraction."@, Tone::Safe),
        ("  Rule 4: Use cargo-geiger to audit unsafe in dependencies."@, Tone::Caution),
        ("  Rule 5: Prefer safe alternatives when performance is not critical."@, Tone::Caution),
        (""@, Tone::Dim),
        ("  unsafe does NOT disable: borrow checker, type system, lifetimes."@, Tone::Highlight),
        ("  unsafe ONLY unlocks the 5 superpowers listed in step 1."@, Tone::Note),
    ]
}

/// The best-practice rules.
pub fn best_practice_lines() -> (r: Vec<(&'static str, Tone)>)
    ensures
        r@.map_values(|p: (&'static str, Tone)| (p.0@, p.1)) == best_practice_text(),
{
    let r = vec![
        ("  Rule 1: Keep unsafe blocks as small as possible.", Tone::Safe),
        ("  Rule 2: Every unsafe block MUST have a // SAFETY: comment.", Tone::Safe),
        ("  Rule 3: Wrap unsafe in a safe public abstraction.", Tone::Safe),
        ("  Rule 4: Use cargo-geiger to audit unsafe in dependencies.", Tone::Caution),
        ("  Rule 5: Prefer safe alternatives when performance is not critical.", Tone::Caution),
        ("", Tone::Dim),
        ("  unsafe does NOT disable: borrow checker, type system, lifetimes.", Tone::Highlight),
        ("  unsafe ONLY unlocks the 5 superpowers listed in step 1.", Tone::Note),
    ];
    assert(r@.map_values(|p: (&'static str, Tone)| (p.0@, p.1)) =~= best_practice_text());
    r
}

/// The superpowers as listed on the first step: each numbered from 1, and
/// whether it takes the first of the two alternating colours (even
/// positions).
pub fn numbered_superpowers() -> (r: Vec<(usize, &'static str, bool)>)
    ensures
        r@.len() == unsafe_superpowers_text().len(),
        forall|i: int|
            0 <= i < r@.len() ==> (#[trigger] r@[i]).0 == i + 1 && r@[i].1@
                == unsafe_superpowers_text()[i] && r@[i].2 == (i % 2 == 0),
{
    let powers = list_unsafe_superpowers();
    let ghost text = powers@.map_values(|s: &'static str| s@);
    assert(text.len() == powers@.len());
    let mut r: Vec<(usize, &'static str, bool)> = Vec::new();
    for i in 0..powers.len()
        invariant
            text == powers@.map_values(|s: &'static str| s@),
            text == unsafe_superpowers_text(),
            text.len() == 5,
            r@.len() == i,
            forall|j: int|
                0 <= j < i ==> (#[trigger] r@[j]).0 == j + 1 && r@[j].1@ == text[j] && r@[j].2
                    == (j % 2 == 0),
    {
        assert(text[i as int] == powers@[i as int]@);
        r.push((i + 1, powers[i], i % 2 == 0));
    }
    r
}

pub open spec fn step_title_text(step: usize) -> Seq<char> {
    if step % STEPS == 0 {
        "Step 1/5: What unsafe unlocks — exactly 5 superpowers"@
    } else if step % STEPS == 1 {
        "Step 2/5: Raw pointer arithmetic — live demo via unsafe block"@
    } else if step % STEPS == 2 {
        "Step 3/5: Safe abstraction over unsafe internals"@
    } else if step % STEPS == 3 {
        "Step 4/5: unsafe in real codebases — small, isolated, annotated"@
    } else {
        "Step 5/5: Best practices — minimize, isolate, document SAFETY"@
    }
}

/// The title of a step (taken modulo `STEPS`).
pub fn step_title(step: usize) -> (r: &'static str)
    ensures
        r@ == step_title_text(step),
{
    match step % STEPS {
        0 => "Step 1/5: What unsafe unlocks — exactly 5 superpowers",
        1 => "Step 2/5: Raw pointer arithmetic — live demo via unsafe block",
        2 => "Step 3/5: Safe abstraction over unsafe internals",
        3 => "Step 4/5: unsafe in real codebases — small, isolated, annotated",
        _ => "Step 5/5: Best practices — minimize, isolate, document SAFETY",
    }
}

pub open spec fn step_explanation_text(step: usize) -> Seq<char> {
    if step % STEPS == 0 {
        "unsafe in Rust unlocks exactly 5 capabilities. Everything else — borrow checker, type system, lifetime rules — remains fully active inside unsafe blocks."@
    } else if step % STEPS == 1 {
        "Raw pointer arithmetic is the canonical use of unsafe. We create a raw pointer to an array and walk it manually. The SAFETY comment documents why this cannot cause UB."@
    } else if step % STEPS == 2 {
        "The best unsafe pattern: wrap it in a safe abstraction. Vec<T>, Rc<T>, and most of std are built this way — unsafe internals, safe public API."@
    } else if step % STEPS == 3 {
        "In typical Rust projects, unsafe accounts for less than 1% of lines. Clippy and cargo-geiger can measure your unsafe surface area."@
    } else {
        "Rule of thumb: unsafe blocks should be small, isolated, heavily documented, and reviewed like security-sensitive code. Every unsafe block needs a SAFETY comment."@
    }
}

/// The explanation of a step (taken modulo `STEPS`).
pub fn step_explanation(step: usize) -> (r: &'static str)
    ensures
        r@ == step_explanation_text(step),
{
    match step % STEPS {
        0 => "unsafe in Rust unlocks exactly 5 capabilities. Everything else — borrow checker, type system, lifetime rules — remains fully active inside unsafe blocks.",
        1 => "Raw pointer arithmetic is the canonical use of unsafe. We create a raw pointer to an array and walk it manually. The SAFETY comment documents why this cannot cause UB.",
        2 => "The best unsafe pattern: wrap it in a safe abstraction. Vec<T>, Rc<T>, and most of std are built this way — unsafe internals, safe public API.",
        3 => "In typical Rust projects, unsafe accounts for less than 1% of lines. Clippy and cargo-geiger can measure your unsafe surface area.",
        _ => "Rule of thumb: unsafe blocks should be small, isolated, heavily documented, and reviewed like security-sensitive code. Every unsafe block needs a SAFETY comment.",
    }
}

// ---------------------------------------------------------------------------
// The demo state machine
// ---------------------------------------------------------------------------

/// The unsafe tour: the current step, the walked element and the animation
/// timers.
#[derive(Debug)]
pub struct UnsafeDemo {
    pub paused: bool,
    pub speed: u8,
    pub tick_count: u64,
    pub step: usize,
    /// Time spent on the current step, in nanoseconds.
    pub step_timer_ns: u64,
    pub ptr_offset: usize,
    /// Time since the walked element last moved, in nanoseconds.
    pub ptr_timer_ns: u64,
}

/// `speed` clamped to the range `1..=10`.
pub open spec fn clamp_speed(speed: u8) -> u8 {
    if speed < 1 {
        1
    } else if speed > 10 {
        10
    } else {
        speed
    }
}

impl UnsafeDemo {
    /// A fresh demo: first step, pointer at the first element, speed 1,
    /// not paused.
    pub open spec fn initial() -> UnsafeDemo {
        UnsafeDemo {
            paused: false,
            speed: 1,
            tick_count: 0,
            step: 0,
            step_timer_ns: 0,
            ptr_offset: 0,
            ptr_timer_ns: 0,
        }
    }

    /// The state every operation keeps: a speed in `1..=10`, a valid step
    /// and a pointer offset within the walked array.
    pub open spec fn wf(self) -> bool {
        &&& 1 <= self.speed <= 10
        &&& self.step < STEPS
        &&& self.ptr_offset < WALK_LEN
    }

    pub open spec fn after_advance_step(self) -> UnsafeDemo {
        UnsafeDemo {
            step: ((self.step + 1) % (STEPS as int)) as usize,
            step_timer_ns: 0,
            ptr_offset: 0,
            ptr_timer_ns: 0,
            ..self
        }
    }

    /// Whether a tick of `dt_ns` nanoseconds stays clear of the integer
    /// overflows that moving the pointer or the step would hit.
    pub open spec fn tick_in_range(self, dt_ns: u64) -> bool {
        !self.paused ==> {
            &&& self.step % STEPS == 1 && clock::reached(
                clock::add_sat(self.ptr_timer_ns, dt_ns),
                self.speed,
                PTR_PERIOD_NS,
            ) ==> self.ptr_offset < usize::MAX
            &&& clock::reached(clock::add_sat(self.step_timer_ns, dt_ns), self.speed, STEP_PERIOD_NS)
                ==> self.step < usize::MAX
        }
    }

    /// The state after `dt_ns` nanoseconds pass: unless paused, the counter
    /// advances and both timers grow; on the pointer step the pointer moves
    /// to the next element (wrapping after the eighth) once its period has
    /// passed; then the step moves once its period has passed.
    pub open spec fn after_tick(self, dt_ns: u64) -> UnsafeDemo {
        if self.paused {
            self
        } else {
            let counted = UnsafeDemo {
                tick_count: clock::next_tick(self.tick_count),
                step_timer_ns: clock::add_sat(self.step_timer_ns, dt_ns),
                ptr_timer_ns: clock::add_sat(self.ptr_timer_ns, dt_ns),
                ..self
            };
            let walked = if counted.step % STEPS == 1 && clock::reached(
                counted.ptr_timer_ns,
                counted.speed,
                PTR_PERIOD_NS,
            ) {
                UnsafeDemo {
                    ptr_offset: ((counted.ptr_offset + 1) % (WALK_LEN as int)) as usize,
                    ptr_timer_ns: 0,
                    ..counted
                }
            } else {
                counted
            };
            if clock::reached(walked.step_timer_ns, walked.speed, STEP_PERIOD_NS) {
                walked.after_advance_step()
            } else {
                walked
            }
        }
    }

    pub open spec fn after_toggle_pause(self) -> UnsafeDemo {
        UnsafeDemo { paused: !self.paused, ..self }
    }
}

// ---------------------------------------------------------------------------
// Laws of the state machine
// ---------------------------------------------------------------------------

/// What a tick does to the step and the pointer, for an unpaused demo.
/// When the step period is reached the tour moves to the next step
/// (wrapping after the fifth) with the pointer back at the first element.
/// Otherwise the step stays; on the pointer step (the second), when the
/// pointer period is reached the pointer moves to the next of the eight
/// elements, wrapping after the last; otherwise the pointer stays.
pub proof fn lemma_tick_moves_step_and_pointer(d: UnsafeDemo, dt_ns: u64)
    requires
        !d.paused,
    ensures
        ({
            let r = d.after_tick(dt_ns);
            let ptr_due = clock::reached(
                clock::add_sat(d.ptr_timer_ns, dt_ns),
                d.speed,
                PTR_PERIOD_NS,
            );
            let step_due = clock::reached(
                clock::add_sat(d.step_timer_ns, dt_ns),
                d.speed,
                STEP_PERIOD_NS,
            );
            &&& step_due ==> r.step == (d.step + 1) % 5 && r.ptr_offset == 0
            &&& !step_due && d.step % 5 == 1 && ptr_due ==> r.step == d.step && r.ptr_offset == (
            d.ptr_offset + 1) % 8
            &&& !step_due && !(d.step % 5 == 1 && ptr_due) ==> r.step == d.step && r.ptr_offset
                == d.ptr_offset
        }),
{
}

/// Advancing a step moves to the next step, wrapping after the fifth, with
/// the pointer back at the first element.
pub proof fn lemma_advance_step_moves_to_next(d: UnsafeDemo)
    ensures
        d.after_advance_step().step == (d.step + 1) % 5,
        d.after_advance_step().ptr_offset == 0,
{
}

/// A tick keeps the state well formed.
pub proof fn lemma_tick_preserves_wf(d: UnsafeDemo, dt_ns: u64)
    requires
        d.wf(),
    ensures
        d.after_tick(dt_ns).wf(),
{
}

/// A paused demo ignores ticks.
pub proof fn lemma_paused_tick_changes_nothing(d: UnsafeDemo, dt_ns: u64)
    requires
        d.paused,
    ensures
        d.after_tick(dt_ns) == d,
{
}

/// Away from the pointer step, ticks never move the pointer unless the step
/// itself changes (which puts it back at the first element).
pub proof fn lemma_pointer_still_off_its_step(d: UnsafeDemo, dt_ns: u64)
    requires
        d.step % STEPS != 1,
    ensures
        d.after_tick(dt_ns).ptr_offset == d.ptr_offset || d.after_tick(dt_ns).ptr_offset == 0,
{
}

/// Advancing `STEPS` times from any step comes back to that step.
pub proof fn lemma_steps_cycle(d: UnsafeDemo)
    requires
        d.step < STEPS,
    ensures
        d.after_advance_step().after_advance_step().after_advance_step().after_advance_step()
            .after_advance_step().step == d.step,
{
}

/// Toggling the pause twice restores the state.
pub proof fn lemma_toggle_pause_twice(d: UnsafeDemo)
    ensures
        d.after_toggle_pause().after_toggle_pause() == d,
{
}

// ---------------------------------------------------------------------------
// Operations
// ---------------------------------------------------------------------------

impl UnsafeDemo {
    pub fn new() -> (d: Self)
        ensures
            d == UnsafeDemo::initial(),
            d.wf(),
    {
        UnsafeDemo {
            paused: false,
            speed: 1,
            tick_count: 0,
            step: 0,
            step_timer_ns: 0,
            ptr_offset: 0,
            ptr_timer_ns: 0,
        }
    }

    /// Moves to the next step (wrapping after the last), with the pointer
    /// back at the first element and both timers restarted.
    pub fn advance_step(&mut self)
        requires
            old(self).step < usize::MAX,
        ensures
            *final(self) == old(self).after_advance_step(),
            final(self).step == (old(self).step + 1) % 5,
            final(self).ptr_offset == 0,
    {
        self.step = (self.step + 1) % STEPS;
        self.step_timer_ns = 0;
        self.ptr_offset = 0;
        self.ptr_timer_ns = 0;
    }

    /// Lets `dt_ns` nanoseconds pass (see `after_tick`).
    pub fn tick_nanos(&mut self, dt_ns: u64)
        requires
            old(self).tick_in_range(dt_ns),
        ensures
            *final(self) == old(self).after_tick(dt_ns),
            old(self).wf() ==> final(self).wf(),
            !old(self).paused && clock::reached(
                clock::add_sat(old(self).step_timer_ns, dt_ns),
                old(self).speed,
                STEP_PERIOD_NS,
            ) ==> final(self).step == (old(self).step + 1) % 5 && final(self).ptr_offset == 0,
    {
        proof {
            if !self.paused {
                lemma_tick_moves_step_and_pointer(*self, dt_ns);
            }
        }
        if self.paused {
            return;
        }
        self.tick_count = clock::bump_tick(self.tick_count);
        self.step_timer_ns = clock::add_nanos(self.step_timer_ns, dt_ns);
        self.ptr_timer_ns = clock::add_nanos(self.ptr_timer_ns, dt_ns);
        if self.step % STEPS == 1 && clock::period_reached(self.ptr_timer_ns, self.speed, PTR_PERIOD_NS) {
            self.ptr_offset = (self.ptr_offset + 1) % WALK_LEN;
            self.ptr_timer_ns = 0;
        }
        if clock::period_reached(self.step_timer_ns, self.speed, STEP_PERIOD_NS) {
            self.advance_step();
        }
    }

    /// Lets the time `dt` pass, as `tick_nanos` does with its length in
    /// nanoseconds (clamped to `u64::MAX`).
    pub fn tick(&mut self, dt: Duration)
        requires
            old(self).tick_in_range(clock::duration_length(dt)),
        ensures
            *final(self) == old(self).after_tick(clock::duration_length(dt)),
            old(self).wf() ==> final(self).wf(),
    {
        let dt_ns = clock::duration_nanos(&dt);
        self.tick_nanos(dt_ns);
    }

    /// Lets the time `dt` pass, as `tick` does, where that cannot overflow:
    /// when the tick would advance a counter already at `usize::MAX`,
    /// nothing changes and the result is `false`.
    pub fn try_tick(&mut self, dt: Duration) -> (ticked: bool)
        ensures
            ticked == old(self).tick_in_range(clock::duration_length(dt)),
            ticked ==> *final(self) == old(self).after_tick(clock::duration_length(dt)),
            !ticked ==> *final(self) == *old(self),
            old(self).wf() ==> final(self).wf(),
    {
        let dt_ns = clock::duration_nanos(&dt);
        if !self.paused {
            if self.step % STEPS == 1 && clock::period_reached(
                clock::add_nanos(self.ptr_timer_ns, dt_ns),
                self.speed,
                PTR_PERIOD_NS,
            ) && self.ptr_offset == usize::MAX {
                return false;
            }
            if clock::period_reached(
                clock::add_nanos(self.step_timer_ns, dt_ns),
                self.speed,
                STEP_PERIOD_NS,
            ) && self.step == usize::MAX {
                return false;
            }
        }
        self.tick_nanos(dt_ns);
        true
    }

    /// The pointer walk as shown: each value read from the array, and
    /// whether it is the element the pointer is at.
    pub fn walk_line(&self) -> (r: Vec<(u32, bool)>)
        ensures
            r@.len() == WALK_LEN,
            forall|i: int| 0 <= i < WALK_LEN ==> #[trigger] r@[i] == ((i + 1) as u32, i == self.ptr_offset),
    {
        let values = raw_ptr_demo();
        let mut r: Vec<(u32, bool)> = Vec::new();
        for i in 0..WALK_LEN
            invariant
                values@ == seq![1u32, 2, 3, 4, 5, 6, 7, 8],
                r@.len() == i,
                forall|j: int| 0 <= j < i ==> #[trigger] r@[j] == ((j + 1) as u32, j == self.ptr_offset),
        {
            r.push((values[i], i == self.ptr_offset));
        }
        r
    }

    pub fn name(&self) -> (s: &'static str)
        ensures
            s@ == "Unsafe Rust"@,
    {
        "Unsafe Rust"
    }

    pub fn description(&self) -> (s: &'static str)
        ensures
            s@ == "Controlled power — explicit, isolated, auditable."@,
    {
        "Controlled power — explicit, isolated, auditable."
    }

    pub fn explanation(&self) -> (s: &'static str)
        ensures
            s@ == "unsafe blocks allow raw pointer arithmetic, FFI calls, and manual memory management. \
        But unsafe does NOT disable the borrow checker or type system — \
        it only unlocks 5 specific low-level capabilities. \
        Best practice: minimize unsafe surface area, isolate it, and document every SAFETY invariant."@,
    {
        "unsafe blocks allow raw pointer arithmetic, FFI calls, and manual memory management. \
        But unsafe does NOT disable the borrow checker or type system — \
        it only unlocks 5 specific low-level capabilities. \
        Best practice: minimize unsafe surface area, isolate it, and document every SAFETY invariant."
    }

    /// Starts over from the first step, unpaused; the speed is kept.
    pub fn reset(&mut self)
        ensures
            *final(self) == (UnsafeDemo { speed: old(self).speed, ..UnsafeDemo::initial() }),
    {
        self.step = 0;
        self.step_timer_ns = 0;
        self.tick_count = 0;
        self.ptr_offset = 0;
        self.ptr_timer_ns = 0;
        self.paused = false;
    }

    pub fn toggle_pause(&mut self)
        ensures
            *final(self) == old(self).after_toggle_pause(),
    {
        self.paused = !self.paused;
    }

    pub fn is_paused(&self) -> (r: bool)
        ensures
            r == self.paused,
    {
        self.paused
    }

    /// Sets the speed, clamped to `1..=10`.
    pub fn set_speed(&mut self, speed: u8)
        ensures
            *final(self) == (UnsafeDemo { speed: clamp_speed(speed), ..*old(self) }),
            1 <= final(self).speed <= 10,
    {
        self.speed = if speed < 1 {
            1
        } else if speed > 10 {
            10
        } else {
            speed
        };
    }

    pub fn speed(&self) -> (r: u8)
        ensures
            r == self.speed,
    {
        self.speed
    }

    /// The demo's quiz: a question, four answers and the index of the right one.
    pub fn quiz(&self) -> (q: Option<(&'static str, [&'static str; 4], usize)>)
        ensures
            q matches Some((question, answers, right)) && {
                &&& question@ == "What does `unsafe` in Rust actually disable?"@
                &&& answers@.len() == 4
                &&& answers@[0]@ == "All compilation checks"@
                &&& answers@[1]@ == "Specific safety guarantees the compiler can't verify"@
                &&& answers@[2]@ == "Memory allocation"@
                &&& answers@[3]@ == "The borrow checker entirely"@
                &&& right == 1
            },
    {
        Some(
            (
                "What does `unsafe` in Rust actually disable?",
                [
                    "All compilation checks",
                    "Specific safety guarantees the compiler can't verify",
                    "Memory allocation",
                    "The borrow checker entirely",
                ],
                1,
            ),
        )
    }
}

impl Default for UnsafeDemo {
    fn default() -> (d: Self)
        ensures
            d == UnsafeDemo::initial(),
    {
        Self::new()
    }
}

} // verus!
