//! A slime-mould particle-trail simulation: presets and their interpolation law, the
//! bounded random walk, the timed transitions and deferred effects of the orchestrator,
//! the per-agent rules of the update pass, the accumulate pass over the trail field, and
//! the commands that keyboard and pad-controller input give.
//!
//! Every continuous quantity is held in fixed point: a stored value `v` stands for
//! `v / UNIT` (see [`fixed::UNIT`]). The rendering back end converts at its edge.

pub mod fixed;
pub mod preset;
pub mod slime_mould;
pub mod agent;
pub mod trail;
pub mod midi;
pub mod input;
pub mod buffers;
pub mod controller;
pub mod screenshot;
pub mod config;
