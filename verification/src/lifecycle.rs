//! The visibility lifecycle: a state machine per tooltip instance, driven by
//! input signals and two independent timed fade transitions.
//!
//! The embedding application delivers ordered signals with a timestamp and
//! the source's current state set; the machine answers with its next state
//! and the side effects to perform (spawn or despawn the instance, start or
//! cancel opacity transitions). At most one fade-in and one fade-out is ever
//! in flight, and at most one live instance exists per source.

use vstd::prelude::*;
use vstd::arithmetic::div_mod::lemma_multiply_divide_le;
use crate::config::{AnimationConfig, Tooltip};

verus! {

/// Full opacity. Opacity values are expressed in thousandths, so that the
/// interpolation below stays in integers.
pub const OPACITY_FULL: u32 = 1000;

/// The lifecycle state of one tooltip instance.
///
/// `Hidden` is both initial and terminal: no instance exists. The fading
/// states remember what they need to hand a later interruption: the fade-in
/// keeps the time the hover began, the fade-out the opacity it started from.
#[derive(Clone, Copy, Debug, PartialEq, Eq, Structural)]
pub enum LifecycleState {
    /// No instance exists.
    Hidden,
    /// An instance exists and its fade-in transition (delay included) is
    /// running since `hover_start_ms`.
    FadingIn { hover_start_ms: u64 },
    /// An instance exists at full opacity.
    Visible,
    /// An instance exists and its fade-out transition is running since
    /// `start_ms`, ramping down from `from_opacity`.
    FadingOut { start_ms: u64, from_opacity: u32 },
}

/// One discrete input to the lifecycle, delivered in order by the embedding
/// application.
#[derive(Clone, Copy, Debug, PartialEq, Eq, Structural)]
pub enum InputSignal {
    /// The pointer entered the source entity.
    PointerEnter,
    /// The pointer left the source entity.
    PointerLeave,
    /// The source entity was pressed.
    Pressed,
    /// A press on the source entity was released.
    Released,
    /// A press on the source entity was canceled.
    PressCanceled,
    /// The opacity engine reports the fade-in transition as complete.
    FadeInComplete,
    /// The opacity engine reports the fade-out transition as complete.
    FadeOutComplete,
    /// The source entity or its reference node is gone.
    SourceLost,
}

/// The side effects one step of the machine asks the embedding application
/// to perform. `fade_out_from` is the opacity the fade-out ramp starts from
/// and is meaningful only when `start_fade_out` is set.
#[derive(Clone, Copy, Debug, PartialEq, Eq, Structural)]
pub struct Effects {
    pub spawn: bool,
    pub despawn: bool,
    pub start_fade_in: bool,
    pub start_fade_out: bool,
    pub fade_out_from: u32,
    pub cancel_fade_in: bool,
    pub cancel_fade_out: bool,
    pub set_opacity_full: bool,
}

/// No side effects.
pub open spec fn spec_no_effects() -> Effects {
    Effects {
        spawn: false,
        despawn: false,
        start_fade_in: false,
        start_fade_out: false,
        fade_out_from: 0,
        cancel_fade_in: false,
        cancel_fade_out: false,
        set_opacity_full: false,
    }
}

/// The source holds every state the configuration requires; `None` imposes
/// no requirement.
pub open spec fn spec_states_satisfied(required: Option<Vec<u64>>, current: Seq<u64>) -> bool {
    match required {
        None => true,
        Some(req) => forall|i: int| 0 <= i < req@.len() ==> current.contains(req@[i]),
    }
}

/// A signal that shows the tooltip from `Hidden`: a hover enter, or a press
/// when pressing is not configured to remove the tooltip instead.
pub open spec fn spec_is_show_signal(cfg: Tooltip, sig: InputSignal) -> bool {
    sig is PointerEnter || (sig is Pressed && !cfg.remove_on_press)
}

/// A signal that hides a shown tooltip: a hover leave, a release, a press
/// cancel, or — when so configured — a press.
pub open spec fn spec_is_hide_signal(cfg: Tooltip, sig: InputSignal) -> bool {
    sig is PointerLeave || sig is Released || sig is PressCanceled || (sig is Pressed
        && cfg.remove_on_press)
}

/// Milliseconds elapsed from `since` to `now`, floored at zero.
pub open spec fn spec_elapsed(since: u64, now: u64) -> int {
    if since <= now {
        now - since
    } else {
        0
    }
}

/// Opacity reached by a transition `elapsed` milliseconds after it was
/// requested: zero through the delay, then a linear ramp to full over the
/// duration. A zero duration jumps straight to full once the delay passed.
pub open spec fn spec_opacity_at(anim: AnimationConfig, elapsed: int) -> int {
    if elapsed <= anim.delay_ms {
        0
    } else if elapsed - anim.delay_ms >= anim.duration_ms {
        OPACITY_FULL as int
    } else {
        OPACITY_FULL * (elapsed - anim.delay_ms) / (anim.duration_ms as int)
    }
}

/// Law: an opacity value never leaves `[0, OPACITY_FULL]`.
pub proof fn lemma_opacity_bounds(anim: AnimationConfig, elapsed: int)
    ensures
        0 <= spec_opacity_at(anim, elapsed) <= OPACITY_FULL,
{
    if elapsed > anim.delay_ms && elapsed - anim.delay_ms < anim.duration_ms {
        let ramp = elapsed - anim.delay_ms;
        let d = anim.duration_ms as int;
        assert(OPACITY_FULL * ramp <= d * (OPACITY_FULL as int));
        lemma_multiply_divide_le(OPACITY_FULL * ramp, d, OPACITY_FULL as int);
        assert(OPACITY_FULL * ramp >= 0);
        vstd::arithmetic::div_mod::lemma_div_pos_is_pos(OPACITY_FULL * ramp, d);
    }
}

/// Computes [`spec_opacity_at`].
pub fn opacity_at(anim: &AnimationConfig, elapsed_ms: u64) -> (r: u32)
    requires
        anim.wf(),
    ensures
        r == spec_opacity_at(*anim, elapsed_ms as int),
        r <= OPACITY_FULL,
{
    proof {
        lemma_opacity_bounds(*anim, elapsed_ms as int);
    }
    if elapsed_ms <= anim.delay_ms {
        0
    } else if elapsed_ms - anim.delay_ms >= anim.duration_ms {
        OPACITY_FULL
    } else {
        let ramp: u64 = elapsed_ms - anim.delay_ms;
        let v: u64 = (OPACITY_FULL as u64) * ramp / anim.duration_ms;
        v as u32
    }
}

/// Opacity a fade-in that began at `since` has reached at `now`; full when
/// no fade-in is configured (the tooltip appeared instantaneously).
pub open spec fn spec_fade_in_opacity(cfg: Tooltip, since: u64, now: u64) -> int {
    match cfg.fade_in {
        Some(anim) => spec_opacity_at(anim, spec_elapsed(since, now)),
        None => OPACITY_FULL as int,
    }
}

/// The authoritative transition function of the lifecycle.
///
/// * `Hidden`: a show signal whose state requirement is met spawns an
///   instance; with a configured fade-in the machine starts it and waits,
///   otherwise the instance appears at full opacity immediately.
/// * `FadingIn`: completion advances to `Visible`; a hide signal cancels
///   the fade-in (it is not reversed) and starts the fade-out from the
///   opacity reached so far, or despawns at once when no fade-out is
///   configured; a repeated show signal is ignored.
/// * `Visible`: a hide signal starts the fade-out from full opacity, or
///   despawns at once when none is configured.
/// * `FadingOut`: completion despawns; further hide signals are ignored,
///   and so are show signals — the fading instance is the one live instance
///   its source may have.
/// * Losing the source force-despawns from every state, cancelling whatever
///   transition was in flight.
pub open spec fn spec_step(
    cfg: Tooltip,
    s: LifecycleState,
    sig: InputSignal,
    now_ms: u64,
    current: Seq<u64>,
) -> (LifecycleState, Effects) {
    match s {
        LifecycleState::Hidden => {
            if spec_is_show_signal(cfg, sig) && spec_states_satisfied(cfg.state, current) {
                if cfg.fade_in is Some {
                    (
                        LifecycleState::FadingIn { hover_start_ms: now_ms },
                        Effects { spawn: true, start_fade_in: true, ..spec_no_effects() },
                    )
                } else {
                    (
                        LifecycleState::Visible,
                        Effects { spawn: true, set_opacity_full: true, ..spec_no_effects() },
                    )
                }
            } else {
                (s, spec_no_effects())
            }
        },
        LifecycleState::FadingIn { hover_start_ms } => {
            if sig is FadeInComplete {
                (LifecycleState::Visible, spec_no_effects())
            } else if sig is SourceLost {
                (
                    LifecycleState::Hidden,
                    Effects { cancel_fade_in: true, despawn: true, ..spec_no_effects() },
                )
            } else if spec_is_hide_signal(cfg, sig) {
                let from = spec_fade_in_opacity(cfg, hover_start_ms, now_ms) as u32;
                if cfg.fade_out is Some {
                    (
                        LifecycleState::FadingOut { start_ms: now_ms, from_opacity: from },
                        Effects {
                            cancel_fade_in: true,
                            start_fade_out: true,
                            fade_out_from: from,
                            ..spec_no_effects()
                        },
                    )
                } else {
                    (
                        LifecycleState::Hidden,
                        Effects { cancel_fade_in: true, despawn: true, ..spec_no_effects() },
                    )
                }
            } else {
                (s, spec_no_effects())
            }
        },
        LifecycleState::Visible => {
            if sig is SourceLost {
                (LifecycleState::Hidden, Effects { despawn: true, ..spec_no_effects() })
            } else if spec_is_hide_signal(cfg, sig) {
                if cfg.fade_out is Some {
                    (
                        LifecycleState::FadingOut {
                            start_ms: now_ms,
                            from_opacity: OPACITY_FULL,
                        },
                        Effects {
                            start_fade_out: true,
                            fade_out_from: OPACITY_FULL,
                            ..spec_no_effects()
                        },
                    )
                } else {
                    (LifecycleState::Hidden, Effects { despawn: true, ..spec_no_effects() })
                }
            } else {
                (s, spec_no_effects())
            }
        },
        LifecycleState::FadingOut { .. } => {
            if sig is FadeOutComplete {
                (LifecycleState::Hidden, Effects { despawn: true, ..spec_no_effects() })
            } else if sig is SourceLost {
                (
                    LifecycleState::Hidden,
                    Effects { cancel_fade_out: true, despawn: true, ..spec_no_effects() },
                )
            } else {
                (s, spec_no_effects())
            }
        },
    }
}

/// Computes [`spec_no_effects`].
fn no_effects() -> (r: Effects)
    ensures
        r == spec_no_effects(),
{
    Effects {
        spawn: false,
        despawn: false,
        start_fade_in: false,
        start_fade_out: false,
        fade_out_from: 0,
        cancel_fade_in: false,
        cancel_fade_out: false,
        set_opacity_full: false,
    }
}

/// Decides whether `v@` contains `x`.
fn vec_contains(v: &Vec<u64>, x: u64) -> (b: bool)
    ensures
        b == v@.contains(x),
{
    let mut i: usize = 0;
    while i < v.len()
        invariant
            0 <= i <= v@.len(),
            forall|j: int| 0 <= j < i ==> v@[j] != x,
        decreases v@.len() - i,
    {
        if v[i] == x {
            return true;
        }
        i += 1;
    }
    false
}

/// Decides [`spec_states_satisfied`].
pub fn states_satisfied(required: &Option<Vec<u64>>, current: &Vec<u64>) -> (b: bool)
    ensures
        b == spec_states_satisfied(*required, current@),
{
    match required {
        None => true,
        Some(req) => {
            let mut i: usize = 0;
            while i < req.len()
                invariant
                    0 <= i <= req@.len(),
                    (*required) matches Some(v) && v@ == req@,
                    forall|j: int| 0 <= j < i ==> current@.contains(req@[j]),
                decreases req@.len() - i,
            {
                if !vec_contains(current, req[i]) {
                    // `i` witnesses the failure of the required-states forall.
                    proof {
                        assert(!current@.contains(req@[i as int]));
                    }
                    return false;
                }
                i += 1;
            }
            true
        },
    }
}

/// One step of the machine; computes exactly [`spec_step`].
///
/// The extra clauses state the spawn discipline on their own: a show signal
/// whose state requirement is not met does nothing, an instance is spawned
/// only from `Hidden`, and a spawn leaves `Hidden`.
pub fn step(
    cfg: &Tooltip,
    state: &LifecycleState,
    signal: InputSignal,
    now_ms: u64,
    current_states: &Vec<u64>,
) -> (r: (LifecycleState, Effects))
    requires
        cfg.wf(),
    ensures
        r.0 == spec_step(*cfg, *state, signal, now_ms, current_states@).0,
        r.1 == spec_step(*cfg, *state, signal, now_ms, current_states@).1,
        !spec_states_satisfied(cfg.state, current_states@) && signal is PointerEnter ==> r.0
            == *state && r.1 == spec_no_effects(),
        r.1.spawn ==> *state is Hidden && !(r.0 is Hidden),
        !(*state is Hidden) ==> !r.1.spawn,
{
    match state {
        LifecycleState::Hidden => {
            let shows = match signal {
                InputSignal::PointerEnter => true,
                InputSignal::Pressed => !cfg.remove_on_press,
                _ => false,
            };
            if shows && states_satisfied(&cfg.state, current_states) {
                if cfg.fade_in.is_some() {
                    (
                        LifecycleState::FadingIn { hover_start_ms: now_ms },
                        Effects { spawn: true, start_fade_in: true, ..no_effects() },
                    )
                } else {
                    (
                        LifecycleState::Visible,
                        Effects { spawn: true, set_opacity_full: true, ..no_effects() },
                    )
                }
            } else {
                (*state, no_effects())
            }
        },
        LifecycleState::FadingIn { hover_start_ms } => {
            let hides = match signal {
                InputSignal::PointerLeave => true,
                InputSignal::Released => true,
                InputSignal::PressCanceled => true,
                InputSignal::Pressed => cfg.remove_on_press,
                _ => false,
            };
            if matches!(signal, InputSignal::FadeInComplete) {
                (LifecycleState::Visible, no_effects())
            } else if matches!(signal, InputSignal::SourceLost) {
                (
                    LifecycleState::Hidden,
                    Effects { despawn: true, cancel_fade_in: true, ..no_effects() },
                )
            } else if hides {
                let elapsed: u64 = if *hover_start_ms <= now_ms {
                    now_ms - *hover_start_ms
                } else {
                    0
                };
                let from: u32 = match &cfg.fade_in {
                    Some(anim) => opacity_at(anim, elapsed),
                    None => OPACITY_FULL,
                };
                if cfg.fade_out.is_some() {
                    (
                        LifecycleState::FadingOut { start_ms: now_ms, from_opacity: from },
                        Effects { start_fade_out: true, fade_out_from: from, cancel_fade_in: true, ..no_effects() },
                    )
                } else {
                    (
                        LifecycleState::Hidden,
                        Effects { despawn: true, cancel_fade_in: true, ..no_effects() },
                    )
                }
            } else {
                (*state, no_effects())
            }
        },
        LifecycleState::Visible => {
            let hides = match signal {
                InputSignal::PointerLeave => true,
                InputSignal::Released => true,
                InputSignal::PressCanceled => true,
                InputSignal::Pressed => cfg.remove_on_press,
                _ => false,
            };
            if matches!(signal, InputSignal::SourceLost) {
                (
                    LifecycleState::Hidden,
                    Effects { despawn: true, ..no_effects() },
                )
            } else if hides {
                if cfg.fade_out.is_some() {
                    (
                        LifecycleState::FadingOut {
                            start_ms: now_ms,
                            from_opacity: OPACITY_FULL,
                        },
                        Effects { start_fade_out: true, fade_out_from: OPACITY_FULL, ..no_effects() },
                    )
                } else {
                    (
                        LifecycleState::Hidden,
                        Effects { despawn: true, ..no_effects() },
                    )
                }
            } else {
                (*state, no_effects())
            }
        },
        LifecycleState::FadingOut { .. } => {
            if matches!(signal, InputSignal::FadeOutComplete) {
                (
                    LifecycleState::Hidden,
                    Effects { despawn: true, ..no_effects() },
                )
            } else if matches!(signal, InputSignal::SourceLost) {
                (
                    LifecycleState::Hidden,
                    Effects { despawn: true, cancel_fade_out: true, ..no_effects() },
                )
            } else {
                (*state, no_effects())
            }
        },
    }
}

/// One tooltip instance's lifecycle, with the single mutation entry point
/// the machine is driven through.
#[derive(Clone, Copy, Debug, PartialEq, Eq, Structural)]
pub struct TooltipLifecycle {
    pub state: LifecycleState,
}

impl TooltipLifecycle {
    /// A fresh lifecycle: hidden, no instance.
    pub fn new() -> (r: TooltipLifecycle)
        ensures
            r.state is Hidden,
    {
        TooltipLifecycle { state: LifecycleState::Hidden }
    }

    /// Feeds one signal through [`spec_step`], updating the state and
    /// returning the side effects to perform.
    pub fn handle(
        &mut self,
        cfg: &Tooltip,
        signal: InputSignal,
        now_ms: u64,
        current_states: &Vec<u64>,
    ) -> (e: Effects)
        requires
            cfg.wf(),
        ensures
            final(self).state == spec_step(
                *cfg,
                old(self).state,
                signal,
                now_ms,
                current_states@,
            ).0,
            e == spec_step(*cfg, old(self).state, signal, now_ms, current_states@).1,
    {
        let (next, effects) = step(cfg, &self.state, signal, now_ms, current_states);
        self.state = next;
        effects
    }
}

/// A tooltip attached to one source entity: the source's configuration
/// together with the lifecycle of its (at most one) instance.
#[derive(Clone, Debug)]
pub struct WithTooltip {
    pub config: Tooltip,
    pub lifecycle: TooltipLifecycle,
}

impl WithTooltip {
    /// Default for [`Tooltip::avoid_cursor`].
    pub fn avoid_cursor_default() -> (r: bool)
        ensures
            r,
    {
        true
    }

    /// Default for [`Tooltip::stay_in_camera`].
    pub fn stay_in_camera_default() -> (r: bool)
        ensures
            r,
    {
        true
    }

    /// Attaches a tooltip with the given configuration: hidden, no instance.
    pub fn new(config: Tooltip) -> (r: WithTooltip)
        ensures
            r.config == config,
            r.lifecycle.state is Hidden,
    {
        WithTooltip { config, lifecycle: TooltipLifecycle::new() }
    }

    /// Feeds one signal through [`spec_step`] against this source's own
    /// configuration.
    pub fn handle(&mut self, signal: InputSignal, now_ms: u64, current_states: &Vec<u64>) -> (e:
        Effects)
        requires
            old(self).config.wf(),
        ensures
            final(self).config == old(self).config,
            final(self).lifecycle.state == spec_step(
                old(self).config,
                old(self).lifecycle.state,
                signal,
                now_ms,
                current_states@,
            ).0,
            e == spec_step(
                old(self).config,
                old(self).lifecycle.state,
                signal,
                now_ms,
                current_states@,
            ).1,
    {
        let (next, effects) = step(&self.config, &self.lifecycle.state, signal, now_ms, current_states);
        self.lifecycle.state = next;
        effects
    }
}

/// Law: a hover enter arriving twice without an intervening leave spawns at
/// most one instance. If the first enter spawned, the machine is no longer
/// `Hidden`, and a second enter — whenever it arrives and whatever the
/// source's states then are — spawns nothing.
pub proof fn lemma_no_double_spawn(
    cfg: Tooltip,
    s0: LifecycleState,
    now1: u64,
    cur1: Seq<u64>,
    now2: u64,
    cur2: Seq<u64>,
)
    ensures
        !(spec_step(cfg, s0, InputSignal::PointerEnter, now1, cur1).1.spawn && spec_step(
            cfg,
            spec_step(cfg, s0, InputSignal::PointerEnter, now1, cur1).0,
            InputSignal::PointerEnter,
            now2,
            cur2,
        ).1.spawn),
{
}

/// Law: spawns and despawns account exactly for the instance's existence.
/// An instance exists in every state but `Hidden`; a step spawns only when
/// none existed and one will, despawns only when one existed and none will,
/// and otherwise leaves existence unchanged. In particular no step both
/// spawns and despawns, so at most one live instance exists per source.
pub proof fn lemma_instance_conservation(
    cfg: Tooltip,
    s: LifecycleState,
    sig: InputSignal,
    now_ms: u64,
    current: Seq<u64>,
)
    ensures
        ({
            let r = spec_step(cfg, s, sig, now_ms, current);
            &&& r.1.spawn <==> (s is Hidden && !(r.0 is Hidden))
            &&& r.1.despawn <==> (!(s is Hidden) && r.0 is Hidden)
            &&& !(r.1.spawn && r.1.despawn)
        }),
{
}

} // verus!
