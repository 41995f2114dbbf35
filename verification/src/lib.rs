//! Core of a mouse-reactive particle animation.
//!
//! A collection of particles chases a shared pointer position: every frame the
//! collection is reconciled to a target count read from a numeric control
//! (defaulting to 10 when the control is absent or unparseable), then each
//! particle's velocity is pulled toward the pointer by a per-particle spring
//! and damped by a per-particle friction factor, and a draw command (position,
//! radius, hue) is produced per particle.
//!
//! All geometry is carried in fixed-point thousandths of a pixel so that the
//! update rule, the reconciliation, and the radius computation are exact
//! integer functions. The host supplies pointer events, the per-frame jitter
//! offsets (a bounded oscillation), and the drawing surface.

pub mod fixed;

pub mod control;

pub mod panel;

pub mod geom;

pub mod particle;

pub mod world;
