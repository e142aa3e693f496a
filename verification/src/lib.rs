//! Deterministic state-transition engine for an operator console that tracks
//! remote agents ("ghosts"), inspects and issues tasks on them, edits
//! per-agent runtime configuration, and drives a multi-step payload-build
//! wizard.
//!
//! The crate owns the event model ([`action::Action`]), the aggregate UI
//! state ([`state::AppState`]), the pure reducer ([`update::update`]) that
//! maps one state and one event to the next state plus at most one
//! side-effect request ([`update::Command`]), and nothing else: transport,
//! rendering and key decoding are external collaborators that feed events in
//! and carry commands out.

pub mod action;
pub mod builder;
pub mod endpoints;
pub mod models;
pub mod state;
pub mod text;
pub mod update;
