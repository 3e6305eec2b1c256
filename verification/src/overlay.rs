//! The overlay's own state between messages: whether it is shown, the fade-in
//! of the overlay and then of the window labels, and the pending click.
//!
//! Each method is the decision part of one message; the caller performs the
//! effects (timers, window alpha, repaint) that the result asks for.
use vstd::prelude::*;

verus! {

/// Number of timer ticks the overlay's fade-in lasts.
pub const ANIM_STEPS: u32 = 10;
/// Number of timer ticks the labels' fade-in lasts.
pub const TEXT_ANIM_STEPS: u32 = 10;
/// Opacity the overlay reaches at the end of its fade-in.
pub const TARGET_ALPHA: u8 = 255;

/// Opacity after `step` of `steps` ticks of an ease-out cubic fade towards
/// `TARGET_ALPHA`: `255 * (1 - (1 - t)^3)` with `t = step / steps`, rounded
/// down.
pub open spec fn eased_alpha(step: int, steps: int) -> int {
    let rest = steps - step;
    (TARGET_ALPHA * (steps * steps * steps - rest * rest * rest)) / (steps * steps * steps)
}

/// The opacity after `step` ticks of a fade of `ANIM_STEPS` ticks.
pub fn fade_alpha(step: u32) -> (r: u8)
    requires
        step <= ANIM_STEPS,
    ensures
        r as int == eased_alpha(step as int, ANIM_STEPS as int),
{
    let rest: u32 = ANIM_STEPS - step;
    assert(rest * rest <= 100 && rest * rest * rest <= 1000) by (nonlinear_arith)
        requires
            rest <= 10,
    ;
    let cube: u32 = rest * rest * rest;
    let full: u32 = ANIM_STEPS * ANIM_STEPS * ANIM_STEPS;
    let alpha: u32 = (255 * (full - cube)) / full;
    assert(alpha <= 255) by (nonlinear_arith)
        requires
            alpha == (255 * (1000 - cube)) / 1000,
            cube <= 1000,
    ;
    alpha as u8
}

/// What a toggle (the global hotkey) asks for.
#[derive(Debug, Clone, Copy, PartialEq, Eq, Structural)]
pub enum ToggleCommand {
    /// Show the overlay.
    Show,
    /// Hide the overlay.
    Hide,
}

/// The overlay state as the contracts see it.
pub struct OverlayView {
    pub visible: bool,
    pub anim_step: u32,
    pub anim_active: bool,
    pub text_anim_step: u32,
    pub text_anim_active: bool,
    pub alpha: u8,
    pub click_target: Option<usize>,
    pub drag_moved: bool,
}

/// The state after one tick of the overlay's fade-in: one step further, and
/// at the last step the fade stops and the labels' fade-in starts.
pub open spec fn after_fade_tick(v: OverlayView) -> OverlayView {
    let next = v.anim_step + 1;
    if next >= ANIM_STEPS {
        OverlayView {
            anim_step: ANIM_STEPS,
            anim_active: false,
            text_anim_active: true,
            text_anim_step: 0,
            alpha: eased_alpha(ANIM_STEPS as int, ANIM_STEPS as int) as u8,
            ..v
        }
    } else {
        OverlayView { anim_step: next as u32, alpha: eased_alpha(next, ANIM_STEPS as int) as u8, ..v }
    }
}

/// The state after one tick of the labels' fade-in.
pub open spec fn after_text_tick(v: OverlayView) -> OverlayView {
    let next = v.text_anim_step + 1;
    if next >= TEXT_ANIM_STEPS {
        OverlayView { text_anim_step: TEXT_ANIM_STEPS, text_anim_active: false, ..v }
    } else {
        OverlayView { text_anim_step: next as u32, ..v }
    }
}

/// The state once the overlay counts as shown, still fully transparent.
pub open spec fn shown(v: OverlayView) -> OverlayView {
    OverlayView { visible: true, alpha: 0, ..v }
}

/// The state once the overlay is hidden: neither fade runs any more.
pub open spec fn hidden(v: OverlayView) -> OverlayView {
    OverlayView { visible: false, anim_active: false, text_anim_active: false, ..v }
}

/// What the global hotkey asks for in a given state.
pub open spec fn toggle_of(v: OverlayView) -> ToggleCommand {
    if v.visible {
        ToggleCommand::Hide
    } else {
        ToggleCommand::Show
    }
}

/// The state after a left-button press on `hit`.
pub open spec fn pressed(v: OverlayView, hit: Option<usize>) -> OverlayView {
    OverlayView { click_target: hit, drag_moved: false, ..v }
}

/// The state after the pointer moved during a drag.
pub open spec fn dragged(v: OverlayView) -> OverlayView {
    OverlayView { drag_moved: true, ..v }
}

/// The window a release of the left button clicks, in a given state.
pub open spec fn released_click(v: OverlayView) -> Option<usize> {
    if v.drag_moved {
        None
    } else {
        v.click_target
    }
}

/// The state after `k` ticks of the overlay's fade-in.
pub open spec fn after_fade_ticks(v: OverlayView, k: nat) -> OverlayView
    decreases k,
{
    if k == 0 {
        v
    } else {
        after_fade_tick(after_fade_ticks(v, (k - 1) as nat))
    }
}

/// The overlay's state between messages.
pub struct OverlayState {
    visible: bool,
    anim_step: u32,
    anim_active: bool,
    text_anim_step: u32,
    text_anim_active: bool,
    current_alpha: u8,
    click_target: Option<usize>,
    drag_moved: bool,
}

impl View for OverlayState {
    type V = OverlayView;

    closed spec fn view(&self) -> OverlayView {
        OverlayView {
            visible: self.visible,
            anim_step: self.anim_step,
            anim_active: self.anim_active,
            text_anim_step: self.text_anim_step,
            text_anim_active: self.text_anim_active,
            alpha: self.current_alpha,
            click_target: self.click_target,
            drag_moved: self.drag_moved,
        }
    }
}

impl OverlayState {
    /// Both fades count at most their number of ticks.
    #[verifier::type_invariant]
    closed spec fn steps_in_range(self) -> bool {
        self.anim_step <= ANIM_STEPS && self.text_anim_step <= TEXT_ANIM_STEPS
    }

    /// A hidden overlay with no animation running and no pending click.
    pub fn new() -> (s: Self)
        ensures
            s@ == (OverlayView {
                visible: false,
                anim_step: 0,
                anim_active: false,
                text_anim_step: 0,
                text_anim_active: false,
                alpha: 0,
                click_target: None,
                drag_moved: false,
            }),
    {
        OverlayState {
            visible: false,
            anim_step: 0,
            anim_active: false,
            text_anim_step: 0,
            text_anim_active: false,
            current_alpha: 0,
            click_target: None,
            drag_moved: false,
        }
    }

    /// Whether the overlay is shown.
    pub fn is_visible(&self) -> (r: bool)
        ensures
            r == self@.visible,
    {
        self.visible
    }

    /// Ticks taken so far by the overlay's fade-in.
    pub fn anim_step(&self) -> (r: u32)
        ensures
            r == self@.anim_step,
            r <= ANIM_STEPS,
    {
        proof {
            use_type_invariant(self);
        }
        self.anim_step
    }

    /// Whether the overlay's fade-in is running.
    pub fn anim_active(&self) -> (r: bool)
        ensures
            r == self@.anim_active,
    {
        self.anim_active
    }

    /// Ticks taken so far by the labels' fade-in.
    pub fn text_anim_step(&self) -> (r: u32)
        ensures
            r == self@.text_anim_step,
            r <= TEXT_ANIM_STEPS,
    {
        proof {
            use_type_invariant(self);
        }
        self.text_anim_step
    }

    /// Whether the labels' fade-in is running.
    pub fn text_anim_active(&self) -> (r: bool)
        ensures
            r == self@.text_anim_active,
    {
        self.text_anim_active
    }

    /// The overlay window's current opacity.
    pub fn current_alpha(&self) -> (r: u8)
        ensures
            r == self@.alpha,
    {
        self.current_alpha
    }

    /// The opacity of the labels at the current step of their fade-in.
    pub fn text_alpha(&self) -> (r: u8)
        ensures
            r as int == eased_alpha(self@.text_anim_step as int, TEXT_ANIM_STEPS as int),
    {
        proof {
            use_type_invariant(self);
        }
        fade_alpha(self.text_anim_step)
    }

    /// The window clicked by the pending left-button press, if any.
    pub fn click_target(&self) -> (r: Option<usize>)
        ensures
            r == self@.click_target,
    {
        self.click_target
    }

    /// The global hotkey hides a shown overlay and shows a hidden one.
    pub fn toggle_command(&self) -> (r: ToggleCommand)
        ensures
            r == toggle_of(self@),
    {
        if self.visible {
            ToggleCommand::Hide
        } else {
            ToggleCommand::Show
        }
    }

    /// First half of showing the overlay: it counts as shown and starts fully
    /// transparent.
    pub fn begin_show(&mut self)
        ensures
            final(self)@ == shown(old(self)@),
    {
        proof {
            use_type_invariant(&*self);
        }
        self.visible = true;
        self.current_alpha = 0;
    }

    /// Second half of showing the overlay, once the windows are laid out: the
    /// fade-in starts from its first step.
    pub fn start_fade_in(&mut self)
        ensures
            final(self)@ == (OverlayView { anim_step: 0, anim_active: true, ..old(self)@ }),
    {
        proof {
            use_type_invariant(&*self);
        }
        self.anim_step = 0;
        self.anim_active = true;
    }

    /// Hiding the overlay stops both fades.
    pub fn hide_overlay(&mut self)
        ensures
            final(self)@ == hidden(old(self)@),
    {
        proof {
            use_type_invariant(&*self);
        }
        self.visible = false;
        self.anim_active = false;
        self.text_anim_active = false;
    }

    /// One tick of the overlay's fade-in. Returns whether the fade ended with
    /// this tick, in which case the caller stops its timer and starts the
    /// labels' one.
    pub fn tick_animation(&mut self) -> (finished: bool)
        ensures
            final(self)@ == after_fade_tick(old(self)@),
            finished == (old(self)@.anim_step + 1 >= ANIM_STEPS),
    {
        proof {
            use_type_invariant(&*self);
        }
        let next: u32 = self.anim_step + 1;
        if next >= ANIM_STEPS {
            self.anim_step = ANIM_STEPS;
            self.anim_active = false;
            self.text_anim_active = true;
            self.text_anim_step = 0;
            self.current_alpha = fade_alpha(ANIM_STEPS);
            true
        } else {
            self.anim_step = next;
            self.current_alpha = fade_alpha(next);
            false
        }
    }

    /// One tick of the labels' fade-in. Returns whether it ended with this
    /// tick, in which case the caller stops its timer.
    pub fn tick_text_animation(&mut self) -> (finished: bool)
        ensures
            final(self)@ == after_text_tick(old(self)@),
            finished == (old(self)@.text_anim_step + 1 >= TEXT_ANIM_STEPS),
    {
        proof {
            use_type_invariant(&*self);
        }
        let next: u32 = self.text_anim_step + 1;
        if next >= TEXT_ANIM_STEPS {
            self.text_anim_step = TEXT_ANIM_STEPS;
            self.text_anim_active = false;
            true
        } else {
            self.text_anim_step = next;
            false
        }
    }

    /// A left-button press on the window at `hit` (or on no window): it is
    /// remembered, and no drag has happened yet.
    pub fn press(&mut self, hit: Option<usize>)
        ensures
            final(self)@ == pressed(old(self)@, hit),
    {
        proof {
            use_type_invariant(&*self);
        }
        self.click_target = hit;
        self.drag_moved = false;
    }

    /// The pointer moved while a window was being dragged.
    pub fn note_drag(&mut self)
        ensures
            final(self)@ == dragged(old(self)@),
    {
        proof {
            use_type_invariant(&*self);
        }
        self.drag_moved = true;
    }

    /// Releasing the left button: returns the window that was clicked, unless
    /// the press turned into a drag; the pending press is forgotten.
    pub fn release(&mut self) -> (clicked: Option<usize>)
        ensures
            clicked == released_click(old(self)@),
            final(self)@ == (OverlayView { click_target: None, ..old(self)@ }),
    {
        proof {
            use_type_invariant(&*self);
        }
        let clicked = if self.drag_moved {
            None
        } else {
            self.click_target
        };
        self.click_target = None;
        clicked
    }
}

/// The global hotkey alternates: right after showing it asks to hide, and
/// right after hiding it asks to show.
pub proof fn lemma_toggle_alternates(v: OverlayView)
    ensures
        toggle_of(shown(v)) == ToggleCommand::Hide,
        toggle_of(hidden(v)) == ToggleCommand::Show,
{
}

/// A press followed by a release clicks the pressed window, unless the
/// pointer dragged in between, in which case nothing is clicked.
pub proof fn lemma_click_is_press_then_release(v: OverlayView, hit: Option<usize>)
    ensures
        released_click(pressed(v, hit)) == hit,
        released_click(dragged(pressed(v, hit))) == None::<usize>,
{
}

/// The eased opacity starts transparent, ends at `TARGET_ALPHA`, and never
/// decreases from one step to a later one.
pub proof fn lemma_fade_alpha_monotone(i: int, j: int)
    requires
        0 <= i <= j <= ANIM_STEPS,
    ensures
        eased_alpha(0, ANIM_STEPS as int) == 0,
        eased_alpha(ANIM_STEPS as int, ANIM_STEPS as int) == TARGET_ALPHA,
        eased_alpha(i, ANIM_STEPS as int) <= eased_alpha(j, ANIM_STEPS as int),
        0 <= eased_alpha(i, ANIM_STEPS as int) <= TARGET_ALPHA,
{
    let ri = 10 - i;
    let rj = 10 - j;
    assert(rj * rj * rj <= ri * ri * ri && ri * ri * ri <= 1000 && 0 <= rj * rj * rj)
        by (nonlinear_arith)
        requires
            0 <= rj <= ri <= 10,
    ;
    vstd::arithmetic::div_mod::lemma_div_is_ordered(
        255 * (1000 - ri * ri * ri),
        255 * (1000 - rj * rj * rj),
        1000,
    );
    vstd::arithmetic::div_mod::lemma_div_is_ordered(0, 255 * (1000 - ri * ri * ri), 1000);
    vstd::arithmetic::div_mod::lemma_div_is_ordered(255 * (1000 - rj * rj * rj), 255000, 1000);
}

/// Before the last tick the fade only counts its steps.
proof fn lemma_fade_ticks_count(v: OverlayView, k: nat)
    requires
        v.anim_step == 0,
        1 <= k < ANIM_STEPS,
    ensures
        after_fade_ticks(v, k) == (OverlayView {
            anim_step: k as u32,
            alpha: eased_alpha(k as int, ANIM_STEPS as int) as u8,
            ..v
        }),
    decreases k,
{
    let prev = after_fade_ticks(v, (k - 1) as nat);
    if k > 1 {
        lemma_fade_ticks_count(v, (k - 1) as nat);
    }
    assert(prev.anim_step == k - 1);
    assert(after_fade_ticks(v, k) == after_fade_tick(prev));
}

/// A fade-in started from its first step runs for exactly `ANIM_STEPS` ticks:
/// it is still running after every earlier tick, and after the last one it has
/// stopped at full opacity with the labels' fade-in just started.
pub proof fn lemma_fade_completes(v: OverlayView)
    requires
        v.anim_step == 0,
        v.anim_active,
    ensures
        forall|k: nat| k < ANIM_STEPS ==> (#[trigger] after_fade_ticks(v, k)).anim_active,
        after_fade_ticks(v, ANIM_STEPS as nat).anim_active == false,
        after_fade_ticks(v, ANIM_STEPS as nat).anim_step == ANIM_STEPS,
        after_fade_ticks(v, ANIM_STEPS as nat).alpha == TARGET_ALPHA,
        after_fade_ticks(v, ANIM_STEPS as nat).text_anim_active,
        after_fade_ticks(v, ANIM_STEPS as nat).text_anim_step == 0,
{
    assert forall|k: nat| k < ANIM_STEPS implies (#[trigger] after_fade_ticks(v, k)).anim_active by {
        if k >= 1 {
            lemma_fade_ticks_count(v, k);
        }
    }
    lemma_fade_ticks_count(v, (ANIM_STEPS - 1) as nat);
    lemma_fade_alpha_monotone(10, 10);
}

} // verus!
