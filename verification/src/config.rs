//! Per-source tooltip configuration.

use vstd::prelude::*;
use crate::anchor::{TooltipAlignment, TooltipAnchor};
use crate::geom::{Vec2i, COORD_LIMIT};

verus! {

/// Bound on fade delays and durations, in milliseconds. Keeping both within
/// `2^32` lets the opacity interpolation below multiply without overflow.
pub const TIME_LIMIT: u64 = 0x1_0000_0000;

/// Delay and duration of one opacity transition, in milliseconds.
///
/// A zero duration is valid and means the transition completes as soon as
/// the delay has passed.
#[derive(Clone, Copy, Debug, PartialEq, Eq, Structural)]
pub struct AnimationConfig {
    pub delay_ms: u64,
    pub duration_ms: u64,
}

impl AnimationConfig {
    /// Delay and duration are within the supported time bound.
    pub open spec fn wf(self) -> bool {
        self.delay_ms <= TIME_LIMIT && self.duration_ms <= TIME_LIMIT
    }

    /// Runtime check for [`AnimationConfig::wf`], for callers outside
    /// verified code.
    pub fn is_well_formed(&self) -> (b: bool)
        ensures
            b == self.wf(),
    {
        self.delay_ms <= TIME_LIMIT && self.duration_ms <= TIME_LIMIT
    }
}

/// Configuration for a tooltip associated with a source entity.
///
/// Created at source setup and read-only thereafter. The embedding
/// application identifies the named states a source may hold by plain
/// numeric identifiers.
#[derive(Clone, Debug)]
pub struct Tooltip {
    /// States the source must currently hold to display this tooltip; `None`
    /// imposes no requirement.
    pub state: Option<Vec<u64>>,
    /// The anchor point on the reference node for the tooltip.
    ///
    /// Defaults to [`TooltipAnchor::TopCenter`].
    pub anchor: TooltipAnchor,
    /// The alignment of the tooltip relative to the anchor point.
    ///
    /// Defaults to [`TooltipAlignment::Center`].
    pub alignment: TooltipAlignment,
    /// Offset from the anchor point to the alignment point.
    ///
    /// Defaults to no offset.
    pub offset: Vec2i,
    /// Fade-in settings for when the tooltip should appear; its delay
    /// postpones the appearance after a hover starts.
    ///
    /// Defaults to instantaneous (`None`).
    pub fade_in: Option<AnimationConfig>,
    /// Fade-out settings for when the tooltip should despawn.
    ///
    /// Defaults to instantaneous (`None`).
    pub fade_out: Option<AnimationConfig>,
    /// If set, then the tooltip will fade out when the source is pressed.
    ///
    /// Defaults to `false`.
    pub remove_on_press: bool,
    /// If set, then the tooltip slides or flips to avoid overlapping the
    /// cursor glyph. Takes effect only when a custom cursor's size and
    /// hotspot are known.
    ///
    /// Defaults to `true`.
    pub avoid_cursor: bool,
    /// If set, then the tooltip is repositioned to stay inside the camera
    /// view of the node it references.
    ///
    /// Defaults to `true`.
    pub stay_in_camera: bool,
    /// Minimum distance allowed between the tooltip and the camera edges.
    /// Only takes effect if `stay_in_camera` is set; shrinks to zero when
    /// the camera is too small to include both the tooltip and the padding.
    ///
    /// Defaults to no padding.
    pub camera_padding: i64,
}

impl Tooltip {
    /// The configuration's numeric fields are within the supported bounds.
    pub open spec fn wf(self) -> bool {
        &&& self.offset.wf()
        &&& 0 <= self.camera_padding <= COORD_LIMIT as int
        &&& (self.fade_in matches Some(f) ==> f.wf())
        &&& (self.fade_out matches Some(f) ==> f.wf())
    }

    /// Runtime check for [`Tooltip::wf`], for callers outside verified code.
    pub fn is_well_formed(&self) -> (b: bool)
        ensures
            b == self.wf(),
    {
        let fade_in_ok = match &self.fade_in {
            Some(f) => f.is_well_formed(),
            None => true,
        };
        let fade_out_ok = match &self.fade_out {
            Some(f) => f.is_well_formed(),
            None => true,
        };
        self.offset.is_well_formed() && 0 <= self.camera_padding && self.camera_padding
            <= COORD_LIMIT && fade_in_ok && fade_out_ok
    }
}

impl Default for Tooltip {
    /// The documented defaults: top-center anchor, centered alignment, zero
    /// offset, instantaneous fades, keep on press, avoid the cursor, stay in
    /// the camera view, no padding, and no required states.
    fn default() -> (r: Tooltip)
        ensures
            r.state is None,
            r.anchor == TooltipAnchor::TopCenter,
            r.alignment == TooltipAlignment::Center,
            r.offset.x == 0 && r.offset.y == 0,
            r.fade_in is None,
            r.fade_out is None,
            !r.remove_on_press,
            r.avoid_cursor,
            r.stay_in_camera,
            r.camera_padding == 0,
            r.wf(),
    {
        Tooltip {
            state: None,
            anchor: TooltipAnchor::TopCenter,
            alignment: TooltipAlignment::Center,
            offset: Vec2i { x: 0, y: 0 },
            fade_in: None,
            fade_out: None,
            remove_on_press: false,
            avoid_cursor: crate::lifecycle::WithTooltip::avoid_cursor_default(),
            stay_in_camera: crate::lifecycle::WithTooltip::stay_in_camera_default(),
            camera_padding: 0,
        }
    }
}

} // verus!
