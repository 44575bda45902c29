//! The window presentation modes: normal, post-it and calendar.
//!
//! The controller never touches a window. Each command is carried out in two
//! phases. The first phase takes what was observed of the window, records or
//! consumes the geometry to return to, and answers with the effects that the
//! caller has to perform on the window, in order. The second phase is called
//! once every effect has succeeded and only then moves the mode flags, so a
//! command that fails half way leaves the mode as it was.

use vstd::prelude::*;
use crate::opacity::{clamp_opacity, clamp_opacity_bits, is_opacity_level, OPACITY_MAX_BITS};

verus! {

/// Width a window returns to when no geometry was recorded, in logical units.
pub const DEFAULT_WINDOW_WIDTH: u32 = 1320;

/// Height a window returns to when no geometry was recorded.
pub const DEFAULT_WINDOW_HEIGHT: u32 = 860;

/// Width of the post-it presentation.
pub const POST_IT_WINDOW_WIDTH: u32 = 390;

/// Height of the post-it presentation.
pub const POST_IT_WINDOW_HEIGHT: u32 = 560;

/// Width of the calendar presentation.
pub const CALENDAR_WINDOW_WIDTH: u32 = 1080;

/// Height of the calendar presentation.
pub const CALENDAR_WINDOW_HEIGHT: u32 = 760;

/// Size of a window and whether it fills the screen.
#[derive(Clone, Copy, Debug, PartialEq, Eq, Structural)]
pub struct WindowGeometry {
    pub width: u32,
    pub height: u32,
    pub maximized: bool,
}

/// The presentation a window is in.
#[derive(Clone, Copy, Debug, PartialEq, Eq, Structural)]
pub enum WindowMode {
    Normal,
    PostIt,
    Calendar,
}

/// The two presentations that a toggle enters and leaves.
#[derive(Clone, Copy, Debug, PartialEq, Eq, Structural)]
pub enum CompactMode {
    PostIt,
    Calendar,
}

/// One request to the window, performed by the caller.
#[derive(Clone, Copy, Debug, PartialEq, Eq, Structural)]
pub enum WindowEffect {
    /// Leave the maximized state.
    Unmaximize,
    /// Fill the screen.
    Maximize,
    /// Give the window this size, in logical units.
    Resize { width: u32, height: u32 },
    /// Keep the window above the others, or stop doing so.
    SetAlwaysOnTop { enabled: bool },
    /// Show the window at this opacity, given as the bit pattern of the
    /// level. A window system without per-window opacity skips it.
    ApplyOpacity { bits: u64 },
}

/// What the controller remembers between commands.
pub struct ModeState {
    pub post_it: bool,
    pub calendar: bool,
    /// Geometry to return to when the window goes back to normal.
    pub saved: Option<WindowGeometry>,
    /// Bit pattern of the opacity level.
    pub opacity: u64,
}

/// Size of a compact presentation.
pub open spec fn compact_size(mode: CompactMode) -> (u32, u32) {
    match mode {
        CompactMode::PostIt => (POST_IT_WINDOW_WIDTH, POST_IT_WINDOW_HEIGHT),
        CompactMode::Calendar => (CALENDAR_WINDOW_WIDTH, CALENDAR_WINDOW_HEIGHT),
    }
}

/// Effects that bring a window back to the recorded geometry, or to the
/// default size when nothing was recorded.
pub open spec fn restore_effects(saved: Option<WindowGeometry>) -> Seq<WindowEffect> {
    match saved {
        Some(previous) => {
            let resize = seq![
                WindowEffect::Resize { width: previous.width, height: previous.height },
            ];
            if previous.maximized {
                resize.push(WindowEffect::Maximize)
            } else {
                resize
            }
        },
        None => seq![
            WindowEffect::Resize { width: DEFAULT_WINDOW_WIDTH, height: DEFAULT_WINDOW_HEIGHT },
        ],
    }
}

/// Effects that put a window observed as `window` into `mode`.
pub open spec fn enter_effects(mode: CompactMode, window: WindowGeometry) -> Seq<WindowEffect> {
    let unmaximize = if window.maximized {
        seq![WindowEffect::Unmaximize]
    } else {
        Seq::<WindowEffect>::empty()
    };
    let resize = unmaximize.push(
        WindowEffect::Resize { width: compact_size(mode).0, height: compact_size(mode).1 },
    );
    match mode {
        CompactMode::PostIt => resize.push(WindowEffect::SetAlwaysOnTop { enabled: true }),
        CompactMode::Calendar => resize,
    }
}

impl ModeState {
    /// The state of a controller that has just been created.
    pub open spec fn initial() -> ModeState {
        ModeState { post_it: false, calendar: false, saved: None, opacity: OPACITY_MAX_BITS }
    }

    /// At most one compact mode is active, and the opacity is a level
    /// between one half and one.
    pub open spec fn valid(self) -> bool {
        &&& !(self.post_it && self.calendar)
        &&& is_opacity_level(self.opacity)
    }

    /// Whether the flag of `mode` is set.
    pub open spec fn active(self, mode: CompactMode) -> bool {
        match mode {
            CompactMode::PostIt => self.post_it,
            CompactMode::Calendar => self.calendar,
        }
    }

    /// The presentation that the flags stand for.
    pub open spec fn mode(self) -> WindowMode {
        if self.post_it {
            WindowMode::PostIt
        } else if self.calendar {
            WindowMode::Calendar
        } else {
            WindowMode::Normal
        }
    }

    /// Effects of toggling `mode` while the window looks like `window`.
    ///
    /// A toggle of an inactive mode enters it; the observation decides
    /// whether the window must leave the maximized state first. A toggle of
    /// the active mode restores the recorded geometry and ignores the
    /// observation. Both end by applying the current opacity again.
    pub open spec fn toggle_effects(self, mode: CompactMode, window: WindowGeometry) -> Seq<
        WindowEffect,
    > {
        let steps = if self.active(mode) {
            restore_effects(self.saved)
        } else {
            enter_effects(mode, window)
        };
        steps.push(WindowEffect::ApplyOpacity { bits: self.opacity })
    }

    /// State after the first phase of a toggle.
    ///
    /// Entering records the observed geometry unless one is recorded
    /// already, so that going from one compact mode straight into the other
    /// keeps the geometry of the normal window. Leaving consumes the record.
    /// The mode flags do not move in this phase.
    pub open spec fn begin_toggle(self, mode: CompactMode, window: WindowGeometry) -> ModeState {
        if self.active(mode) {
            ModeState { saved: None, ..self }
        } else {
            ModeState {
                saved: Some(
                    match self.saved {
                        Some(previous) => previous,
                        None => window,
                    },
                ),
                ..self
            }
        }
    }

    /// State after the second phase of a toggle: the flag of `mode` flips,
    /// and entering a mode clears the flag of the other one.
    pub open spec fn complete_toggle(self, mode: CompactMode) -> ModeState {
        if self.active(mode) {
            match mode {
                CompactMode::PostIt => ModeState { post_it: false, ..self },
                CompactMode::Calendar => ModeState { calendar: false, ..self },
            }
        } else {
            match mode {
                CompactMode::PostIt => ModeState { post_it: true, calendar: false, ..self },
                CompactMode::Calendar => ModeState { post_it: false, calendar: true, ..self },
            }
        }
    }

    /// Effects of a request for the opacity `requested`.
    pub open spec fn opacity_effects(requested: u64) -> Seq<WindowEffect> {
        seq![WindowEffect::ApplyOpacity { bits: clamp_opacity_bits(requested) }]
    }

    /// State once the requested opacity has been applied.
    pub open spec fn with_opacity(self, requested: u64) -> ModeState {
        ModeState { opacity: clamp_opacity_bits(requested), ..self }
    }

    /// Effects of flipping the always-on-top flag of a window on which it is
    /// currently `current`.
    pub open spec fn always_on_top_effects(self, current: bool) -> Seq<WindowEffect> {
        seq![
            WindowEffect::SetAlwaysOnTop { enabled: !current },
            WindowEffect::ApplyOpacity { bits: self.opacity },
        ]
    }
}

/// A window as far as the effects reach it.
pub struct WindowModel {
    pub geometry: WindowGeometry,
    pub always_on_top: bool,
    /// Bit pattern of the opacity last applied.
    pub opacity: u64,
}

/// The window after one effect has succeeded.
pub open spec fn perform(window: WindowModel, effect: WindowEffect) -> WindowModel {
    match effect {
        WindowEffect::Unmaximize => WindowModel {
            geometry: WindowGeometry { maximized: false, ..window.geometry },
            ..window
        },
        WindowEffect::Maximize => WindowModel {
            geometry: WindowGeometry { maximized: true, ..window.geometry },
            ..window
        },
        WindowEffect::Resize { width, height } => WindowModel {
            geometry: WindowGeometry { width, height, ..window.geometry },
            ..window
        },
        WindowEffect::SetAlwaysOnTop { enabled } => WindowModel { always_on_top: enabled, ..window },
        WindowEffect::ApplyOpacity { bits } => WindowModel { opacity: bits, ..window },
    }
}

/// The window after all of `effects` have succeeded, first to last.
pub open spec fn perform_all(window: WindowModel, effects: Seq<WindowEffect>) -> WindowModel
    decreases effects.len(),
{
    if effects.len() == 0 {
        window
    } else {
        perform(perform_all(window, effects.drop_last()), effects.last())
    }
}

/// Performing a list that ends in `effect` is performing the list before it
/// and then `effect`.
pub proof fn lemma_perform_push(window: WindowModel, effects: Seq<WindowEffect>, effect: WindowEffect)
    ensures
        perform_all(window, effects.push(effect)) == perform(perform_all(window, effects), effect),
{
    assert(effects.push(effect).drop_last() =~= effects);
}

/// The window after a toggle whose effects all succeeded.
pub open spec fn window_after_toggle(state: ModeState, mode: CompactMode, window: WindowModel) -> WindowModel {
    perform_all(window, state.toggle_effects(mode, window.geometry))
}

/// The state after a toggle whose effects all succeeded.
pub open spec fn state_after_toggle(state: ModeState, mode: CompactMode, window: WindowModel) -> ModeState {
    state.begin_toggle(mode, window.geometry).complete_toggle(mode)
}

/// No command makes both compact modes active or moves the opacity out of
/// its range, in either phase.
pub proof fn lemma_commands_keep_valid(
    state: ModeState,
    mode: CompactMode,
    window: WindowGeometry,
    requested: u64,
)
    requires
        state.valid(),
    ensures
        ModeState::initial().valid(),
        state.begin_toggle(mode, window).valid(),
        state.complete_toggle(mode).valid(),
        state.begin_toggle(mode, window).complete_toggle(mode).valid(),
        state.with_opacity(requested).valid(),
{
}

/// The first phase of a toggle moves neither mode flag nor the opacity, so a
/// toggle that stops at a failed effect leaves the mode as it was.
pub proof fn lemma_begin_toggle_keeps_mode(state: ModeState, mode: CompactMode, window: WindowGeometry)
    ensures
        state.begin_toggle(mode, window).post_it == state.post_it,
        state.begin_toggle(mode, window).calendar == state.calendar,
        state.begin_toggle(mode, window).opacity == state.opacity,
        state.begin_toggle(mode, window).mode() == state.mode(),
{
}

/// A completed toggle of an inactive mode makes it the only active one; a
/// completed toggle of the active mode leaves the window normal.
pub proof fn lemma_toggle_switches_mode(state: ModeState, mode: CompactMode, window: WindowGeometry)
    requires
        state.valid(),
    ensures
        !state.active(mode) ==> state.begin_toggle(mode, window).complete_toggle(mode).mode() == (
        match mode {
            CompactMode::PostIt => WindowMode::PostIt,
            CompactMode::Calendar => WindowMode::Calendar,
        }),
        state.active(mode) ==> state.begin_toggle(mode, window).complete_toggle(mode).mode()
            == WindowMode::Normal,
{
}

/// Going from one compact mode straight into the other keeps the geometry
/// that was recorded when the window left normal mode.
pub proof fn lemma_switch_keeps_recorded_geometry(
    state: ModeState,
    mode: CompactMode,
    window: WindowGeometry,
)
    requires
        !state.active(mode),
        state.saved is Some,
    ensures
        state.begin_toggle(mode, window).saved == state.saved,
{
}

/// A toggle that enters a mode leaves the window at the size of that mode
/// and not maximized, with the current opacity applied; a window in post-it
/// mode is kept above the others.
pub proof fn lemma_entering_reshapes_window(state: ModeState, mode: CompactMode, window: WindowModel)
    requires
        !state.active(mode),
    ensures
        ({
            let compact = window_after_toggle(state, mode, window);
            &&& compact.geometry == WindowGeometry {
                width: compact_size(mode).0,
                height: compact_size(mode).1,
                maximized: false,
            }
            &&& compact.opacity == state.opacity
            &&& compact.always_on_top == (mode == CompactMode::PostIt || window.always_on_top)
        }),
{
    let empty = Seq::<WindowEffect>::empty();
    let resize = WindowEffect::Resize { width: compact_size(mode).0, height: compact_size(mode).1 };
    let on_top = WindowEffect::SetAlwaysOnTop { enabled: true };
    let opacity = WindowEffect::ApplyOpacity { bits: state.opacity };
    assert(perform_all(window, empty) == window);
    lemma_perform_push(window, empty, WindowEffect::Unmaximize);
    lemma_perform_push(window, empty, resize);
    lemma_perform_push(window, empty.push(WindowEffect::Unmaximize), resize);
    lemma_perform_push(window, empty.push(resize), on_top);
    lemma_perform_push(window, empty.push(WindowEffect::Unmaximize).push(resize), on_top);
    lemma_perform_push(window, enter_effects(mode, window.geometry), opacity);
}

/// A toggle that leaves a mode gives the window the recorded size, or the
/// default size where none was recorded, maximizes it where the record says
/// so, and applies the current opacity.
pub proof fn lemma_leaving_restores_window(state: ModeState, mode: CompactMode, window: WindowModel)
    requires
        state.active(mode),
    ensures
        ({
            let restored = window_after_toggle(state, mode, window);
            &&& restored.opacity == state.opacity
            &&& restored.always_on_top == window.always_on_top
            &&& match state.saved {
                Some(previous) => {
                    &&& restored.geometry.width == previous.width
                    &&& restored.geometry.height == previous.height
                    &&& restored.geometry.maximized == (previous.maximized
                        || window.geometry.maximized)
                },
                None => {
                    &&& restored.geometry.width == DEFAULT_WINDOW_WIDTH
                    &&& restored.geometry.height == DEFAULT_WINDOW_HEIGHT
                    &&& restored.geometry.maximized == window.geometry.maximized
                },
            }
        }),
{
    let empty = Seq::<WindowEffect>::empty();
    let opacity = WindowEffect::ApplyOpacity { bits: state.opacity };
    assert(perform_all(window, empty) == window);
    match state.saved {
        Some(previous) => {
            let resize = WindowEffect::Resize { width: previous.width, height: previous.height };
            assert(seq![resize] =~= empty.push(resize));
            lemma_perform_push(window, empty, resize);
            lemma_perform_push(window, empty.push(resize), WindowEffect::Maximize);
        },
        None => {
            let resize = WindowEffect::Resize {
                width: DEFAULT_WINDOW_WIDTH,
                height: DEFAULT_WINDOW_HEIGHT,
            };
            assert(seq![resize] =~= empty.push(resize));
            lemma_perform_push(window, empty, resize);
        },
    }
    lemma_perform_push(window, restore_effects(state.saved), opacity);
}

/// Entering a compact mode from a normal window that is not maximized and
/// leaving it again gives the window its size back, not maximized, and
/// brings the controller back to where it started.
pub proof fn lemma_toggle_round_trip(state: ModeState, mode: CompactMode, window: WindowModel)
    requires
        state.valid(),
        state.mode() == WindowMode::Normal,
        state.saved is None,
        !window.geometry.maximized,
    ensures
        ({
            let entered = state_after_toggle(state, mode, window);
            let compact = window_after_toggle(state, mode, window);
            let left = state_after_toggle(entered, mode, compact);
            let restored = window_after_toggle(entered, mode, compact);
            &&& entered.active(mode)
            &&& compact.geometry.width == compact_size(mode).0
            &&& compact.geometry.height == compact_size(mode).1
            &&& restored.geometry == window.geometry
            &&& left == state
        }),
{
    let entered = state_after_toggle(state, mode, window);
    let compact = window_after_toggle(state, mode, window);
    lemma_entering_reshapes_window(state, mode, window);
    lemma_leaving_restores_window(entered, mode, compact);
}

/// The effect that flips the maximized state of a window that currently is
/// `maximized`.
pub open spec fn maximize_toggle(maximized: bool) -> WindowEffect {
    if maximized {
        WindowEffect::Unmaximize
    } else {
        WindowEffect::Maximize
    }
}

/// The effect that flips the maximized state of a window that currently is
/// `maximized`.
pub fn toggle_maximize(maximized: bool) -> (effect: WindowEffect)
    ensures
        effect == maximize_toggle(maximized),
{
    if maximized {
        WindowEffect::Unmaximize
    } else {
        WindowEffect::Maximize
    }
}

/// Owner of the presentation state of one window.
pub struct WindowModeController {
    post_it_mode: bool,
    calendar_mode: bool,
    normal_window_state: Option<WindowGeometry>,
    window_opacity: u64,
}

impl View for WindowModeController {
    type V = ModeState;

    closed spec fn view(&self) -> ModeState {
        ModeState {
            post_it: self.post_it_mode,
            calendar: self.calendar_mode,
            saved: self.normal_window_state,
            opacity: self.window_opacity,
        }
    }
}

impl WindowModeController {
    #[verifier::type_invariant]
    spec fn well_formed(self) -> bool {
        self@.valid()
    }

    /// A controller for a window in normal mode, fully opaque, with no
    /// geometry recorded.
    pub fn new() -> (controller: Self)
        ensures
            controller@ == ModeState::initial(),
            controller@.valid(),
    {
        WindowModeController {
            post_it_mode: false,
            calendar_mode: false,
            normal_window_state: None,
            window_opacity: OPACITY_MAX_BITS,
        }
    }

    /// Whether the post-it flag is set.
    pub fn is_post_it_mode(&self) -> (active: bool)
        ensures
            active == self@.post_it,
    {
        self.post_it_mode
    }

    /// Whether the calendar flag is set.
    pub fn is_calendar_mode(&self) -> (active: bool)
        ensures
            active == self@.calendar,
    {
        self.calendar_mode
    }

    /// Whether the flag of `mode` is set, in which case a toggle of `mode`
    /// leaves it and does not read the window.
    pub fn is_active(&self, mode: CompactMode) -> (active: bool)
        ensures
            active == self@.active(mode),
    {
        match mode {
            CompactMode::PostIt => self.post_it_mode,
            CompactMode::Calendar => self.calendar_mode,
        }
    }

    /// The presentation the window is in.
    pub fn mode(&self) -> (mode: WindowMode)
        ensures
            mode == self@.mode(),
            self@.valid(),
    {
        proof {
            use_type_invariant(self);
        }
        if self.post_it_mode {
            WindowMode::PostIt
        } else if self.calendar_mode {
            WindowMode::Calendar
        } else {
            WindowMode::Normal
        }
    }

    /// The geometry recorded for the return to normal mode, if any.
    pub fn saved_geometry(&self) -> (saved: Option<WindowGeometry>)
        ensures
            saved == self@.saved,
    {
        self.normal_window_state
    }

    /// Bit pattern of the current opacity level, always between one half and
    /// one.
    pub fn opacity(&self) -> (bits: u64)
        ensures
            bits == self@.opacity,
            is_opacity_level(bits),
    {
        proof {
            use_type_invariant(self);
        }
        self.window_opacity
    }

    /// First phase of a toggle of `mode`, for a window observed as `window`.
    ///
    /// Returns the effects to perform, in order. The observation is read
    /// only when the toggle enters `mode`.
    pub fn begin_toggle(&mut self, mode: CompactMode, window: WindowGeometry) -> (effects: Vec<
        WindowEffect,
    >)
        ensures
            effects@ == old(self)@.toggle_effects(mode, window),
            final(self)@ == old(self)@.begin_toggle(mode, window),
            final(self)@.valid(),
    {
        proof {
            use_type_invariant(&*self);
        }
        let mut effects: Vec<WindowEffect> = Vec::new();
        if self.is_active(mode) {
            let saved = self.normal_window_state;
            self.normal_window_state = None;
            match saved {
                Some(previous) => {
                    effects.push(
                        WindowEffect::Resize { width: previous.width, height: previous.height },
                    );
                    if previous.maximized {
                        effects.push(WindowEffect::Maximize);
                    }
                },
                None => {
                    effects.push(
                        WindowEffect::Resize {
                            width: DEFAULT_WINDOW_WIDTH,
                            height: DEFAULT_WINDOW_HEIGHT,
                        },
                    );
                },
            }
        } else {
            if self.normal_window_state.is_none() {
                self.normal_window_state = Some(window);
            }
            if window.maximized {
                effects.push(WindowEffect::Unmaximize);
            }
            match mode {
                CompactMode::PostIt => {
                    effects.push(
                        WindowEffect::Resize {
                            width: POST_IT_WINDOW_WIDTH,
                            height: POST_IT_WINDOW_HEIGHT,
                        },
                    );
                    effects.push(WindowEffect::SetAlwaysOnTop { enabled: true });
                },
                CompactMode::Calendar => {
                    effects.push(
                        WindowEffect::Resize {
                            width: CALENDAR_WINDOW_WIDTH,
                            height: CALENDAR_WINDOW_HEIGHT,
                        },
                    );
                },
            }
        }
        effects.push(WindowEffect::ApplyOpacity { bits: self.window_opacity });
        assert(effects@ =~= old(self)@.toggle_effects(mode, window));
        effects
    }

    /// Second phase of a toggle of `mode`, called once every effect of the
    /// first phase has succeeded. Returns whether `mode` is active now.
    pub fn complete_toggle(&mut self, mode: CompactMode) -> (active: bool)
        ensures
            final(self)@ == old(self)@.complete_toggle(mode),
            active == !old(self)@.active(mode),
            active == final(self)@.active(mode),
            final(self)@.valid(),
    {
        proof {
            use_type_invariant(&*self);
        }
        let entering = !self.is_active(mode);
        match mode {
            CompactMode::PostIt => {
                if entering {
                    self.calendar_mode = false;
                }
                self.post_it_mode = entering;
            },
            CompactMode::Calendar => {
                if entering {
                    self.post_it_mode = false;
                }
                self.calendar_mode = entering;
            },
        }
        entering
    }

    /// First phase of an opacity change: the effect that shows the window at
    /// the clamped level. The stored level does not move yet.
    pub fn begin_set_opacity(&self, requested: u64) -> (effects: Vec<WindowEffect>)
        ensures
            effects@ == ModeState::opacity_effects(requested),
    {
        let mut effects: Vec<WindowEffect> = Vec::new();
        effects.push(WindowEffect::ApplyOpacity { bits: clamp_opacity(requested) });
        assert(effects@ =~= ModeState::opacity_effects(requested));
        effects
    }

    /// Second phase of an opacity change: stores the clamped level and
    /// returns it.
    pub fn complete_set_opacity(&mut self, requested: u64) -> (level: u64)
        ensures
            level == clamp_opacity_bits(requested),
            is_opacity_level(level),
            final(self)@ == old(self)@.with_opacity(requested),
            final(self)@.valid(),
    {
        proof {
            use_type_invariant(&*self);
        }
        let level = clamp_opacity(requested);
        self.window_opacity = level;
        level
    }

    /// Flips the always-on-top flag of a window on which it currently is
    /// `current`: returns the new flag and the effects that set it and apply
    /// the opacity again. The controller itself does not change.
    pub fn toggle_always_on_top(&self, current: bool) -> (plan: (bool, Vec<WindowEffect>))
        ensures
            plan.0 == !current,
            plan.1@ == self@.always_on_top_effects(current),
    {
        let next = !current;
        let mut effects: Vec<WindowEffect> = Vec::new();
        effects.push(WindowEffect::SetAlwaysOnTop { enabled: next });
        effects.push(WindowEffect::ApplyOpacity { bits: self.window_opacity });
        assert(effects@ =~= self@.always_on_top_effects(current));
        (next, effects)
    }
}

impl Default for WindowModeController {
    /// The controller of a window in normal mode, fully opaque.
    fn default() -> (controller: Self)
        ensures
            controller@ == ModeState::initial(),
    {
        WindowModeController::new()
    }
}

} // verus!
