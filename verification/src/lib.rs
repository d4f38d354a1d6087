//! Placement and visibility logic for tooltip overlays.
//!
//! A tooltip is spawned next to a reference ("parent") UI node in response to
//! hover and press input. This crate holds the pure core of that feature:
//!
//! * [`anchor`]: the anchor/alignment vocabulary and the mirror mapping used
//!   as the single fallback when a placement does not fit.
//! * [`geom`]: integer rectangles, sizes and offsets in the shared UI
//!   coordinate space.
//! * [`place`]: the geometry resolver that turns (parent box, anchor,
//!   alignment, offset) into a desired top-left position.
//! * [`avoid`]: the cursor-avoidance correction.
//! * [`contain`]: the viewport-containment correction (push, anchor flip,
//!   hard clamp).
//! * [`pipeline`]: the three stages in their fixed order, as run once per
//!   frame after layout.
//! * [`config`]: the per-source tooltip configuration and its defaults.
//! * [`lifecycle`]: the show/hide state machine driven by input signals and
//!   fade timing.
//!
//! The embedding application owns scene management, input delivery and the
//! opacity animation engine; it feeds plain values (boxes, signals,
//! timestamps) into this crate and applies the returned positions and
//! effects.

pub mod anchor;
pub mod avoid;
pub mod config;
pub mod contain;
pub mod geom;
pub mod lifecycle;
pub mod pipeline;
pub mod place;
